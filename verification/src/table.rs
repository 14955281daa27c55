//! Keyed lists: sequences of `(name, value)` pairs whose names are distinct,
//! viewed as finite maps from names to values.
use vstd::prelude::*;

verus! {

/// The entries of a vector of `(String, V)` pairs, names taken as character sequences.
pub open spec fn named<V>(v: Seq<(String, V)>) -> Seq<(Seq<char>, V)> {
    v.map_values(|e: (String, V)| (e.0@, e.1))
}

/// No two entries share a name.
pub open spec fn keys_distinct<W>(s: Seq<(Seq<char>, W)>) -> bool {
    forall|i: int, j: int|
        0 <= i < s.len() && 0 <= j < s.len() && i != j ==> #[trigger] s[i].0 != #[trigger] s[j].0
}

/// Some entry is named `k`.
pub open spec fn has_key<W>(s: Seq<(Seq<char>, W)>, k: Seq<char>) -> bool {
    exists|i: int| 0 <= i < s.len() && #[trigger] s[i].0 == k
}

/// The position of an entry named `k` (meaningful when `has_key(s, k)`).
pub open spec fn index_of<W>(s: Seq<(Seq<char>, W)>, k: Seq<char>) -> int {
    choose|i: int| 0 <= i < s.len() && #[trigger] s[i].0 == k
}

/// The value stored under `k`, if any.
pub open spec fn lookup<W>(s: Seq<(Seq<char>, W)>, k: Seq<char>) -> Option<W> {
    if has_key(s, k) {
        Some(s[index_of(s, k)].1)
    } else {
        None
    }
}

/// The keyed list as a map.
pub open spec fn to_map<W>(s: Seq<(Seq<char>, W)>) -> Map<Seq<char>, W> {
    Map::new(|k: Seq<char>| has_key(s, k), |k: Seq<char>| s[index_of(s, k)].1)
}

/// The names of the entries, in order.
pub open spec fn keys_of<W>(s: Seq<(Seq<char>, W)>) -> Seq<Seq<char>> {
    s.map_values(|e: (Seq<char>, W)| e.0)
}

pub proof fn lemma_index_of<W>(s: Seq<(Seq<char>, W)>, i: int)
    requires
        keys_distinct(s),
        0 <= i < s.len(),
    ensures
        has_key(s, s[i].0),
        index_of(s, s[i].0) == i,
        lookup(s, s[i].0) == Some(s[i].1),
{
    assert(has_key(s, s[i].0));
    let j = index_of(s, s[i].0);
    assert(s[j].0 == s[i].0);
}

/// Pushing an entry under a new name keeps the names distinct and inserts into the map.
pub proof fn lemma_push<W>(s: Seq<(Seq<char>, W)>, e: (Seq<char>, W))
    requires
        keys_distinct(s),
        !has_key(s, e.0),
    ensures
        keys_distinct(s.push(e)),
        to_map(s.push(e)) == to_map(s).insert(e.0, e.1),
        forall|k: Seq<char>| #[trigger] has_key(s.push(e), k) == (has_key(s, k) || k == e.0),
{
    let t = s.push(e);
    assert forall|i: int, j: int|
        0 <= i < t.len() && 0 <= j < t.len() && i != j implies #[trigger] t[i].0 != #[trigger] t[j].0 by {
        if i < s.len() && j < s.len() {
            assert(s[i].0 != s[j].0);
        } else if i < s.len() {
            assert(s[i].0 != e.0);
        } else {
            assert(s[j].0 != e.0);
        }
    }
    lemma_index_of(t, s.len() as int);
    assert forall|k: Seq<char>| #[trigger] has_key(t, k) == (has_key(s, k) || k == e.0) by {
        if has_key(s, k) {
            let i = index_of(s, k);
            assert(t[i].0 == k);
        }
        if has_key(t, k) && k != e.0 {
            let i = index_of(t, k);
            assert(s[i].0 == k);
        }
    }
    assert forall|k: Seq<char>| has_key(s, k) && k != e.0 implies t[index_of(t, k)].1 == s[index_of(
        s,
        k,
    )].1 by {
        let i = index_of(s, k);
        lemma_index_of(s, i);
        lemma_index_of(t, i);
    }
    assert(to_map(t) =~= to_map(s).insert(e.0, e.1));
}

/// Replacing the value of an existing entry updates the map at that name.
pub proof fn lemma_update<W>(s: Seq<(Seq<char>, W)>, i: int, e: (Seq<char>, W))
    requires
        keys_distinct(s),
        0 <= i < s.len(),
        e.0 == s[i].0,
    ensures
        keys_distinct(s.update(i, e)),
        to_map(s.update(i, e)) == to_map(s).insert(e.0, e.1),
        keys_of(s.update(i, e)) == keys_of(s),
        forall|k: Seq<char>| #[trigger] has_key(s.update(i, e), k) == has_key(s, k),
{
    let t = s.update(i, e);
    assert forall|a: int, b: int|
        0 <= a < t.len() && 0 <= b < t.len() && a != b implies #[trigger] t[a].0 != #[trigger] t[b].0 by {
        assert(s[a].0 != s[b].0);
    }
    assert forall|k: Seq<char>| #[trigger] has_key(t, k) == has_key(s, k) by {
        if has_key(s, k) {
            let j = index_of(s, k);
            assert(t[j].0 == k);
        }
        if has_key(t, k) {
            let j = index_of(t, k);
            assert(s[j].0 == k);
        }
    }
    lemma_index_of(t, i);
    assert forall|k: Seq<char>| has_key(s, k) && k != e.0 implies t[index_of(t, k)].1 == s[index_of(
        s,
        k,
    )].1 by {
        let j = index_of(s, k);
        lemma_index_of(s, j);
        lemma_index_of(t, j);
    }
    assert(to_map(t) =~= to_map(s).insert(e.0, e.1));
    assert(keys_of(t) =~= keys_of(s));
}

/// Removing an entry removes its name from the map.
pub proof fn lemma_remove<W>(s: Seq<(Seq<char>, W)>, i: int)
    requires
        keys_distinct(s),
        0 <= i < s.len(),
    ensures
        keys_distinct(s.remove(i)),
        to_map(s.remove(i)) == to_map(s).remove(s[i].0),
        forall|k: Seq<char>| #[trigger] has_key(s.remove(i), k) == (has_key(s, k) && k != s[i].0),
{
    let t = s.remove(i);
    let k0 = s[i].0;
    assert forall|a: int, b: int|
        0 <= a < t.len() && 0 <= b < t.len() && a != b implies #[trigger] t[a].0 != #[trigger] t[b].0 by {
        let a2 = if a < i { a } else { a + 1 };
        let b2 = if b < i { b } else { b + 1 };
        assert(t[a] == s[a2]);
        assert(t[b] == s[b2]);
        assert(s[a2].0 != s[b2].0);
    }
    assert forall|k: Seq<char>| #[trigger] has_key(t, k) == (has_key(s, k) && k != k0) by {
        if has_key(t, k) {
            let a = index_of(t, k);
            let a2 = if a < i { a } else { a + 1 };
            assert(t[a] == s[a2]);
            assert(s[a2].0 == k);
            assert(a2 != i);
            assert(s[i].0 != s[a2].0);
        }
        if has_key(s, k) && k != k0 {
            let a = index_of(s, k);
            assert(a != i);
            let a1 = if a < i { a } else { a - 1 };
            assert(t[a1] == s[a]);
        }
    }
    assert forall|k: Seq<char>| has_key(t, k) implies t[index_of(t, k)].1 == s[index_of(s, k)].1 by {
        let a = index_of(t, k);
        let a2 = if a < i { a } else { a + 1 };
        assert(t[a] == s[a2]);
        lemma_index_of(t, a);
        lemma_index_of(s, a2);
    }
    assert(to_map(t) =~= to_map(s).remove(k0));
}

/// Whether two strings hold the same characters.
pub fn str_eq(a: &str, b: &str) -> (r: bool)
    ensures
        r == (a@ == b@),
{
    let x = a.to_owned();
    let y = b.to_owned();
    x == y
}

/// The position of the entry named `key`, if any.
pub fn find_key<V>(entries: &Vec<(String, V)>, key: &str) -> (r: Option<usize>)
    ensures
        match r {
            Some(i) => i < entries@.len() && entries@[i as int].0@ == key@,
            None => !has_key(named(entries@), key@),
        },
        keys_distinct(named(entries@)) && r is Some ==> r->0 == index_of(named(entries@), key@),
{
    let ghost s = named(entries@);
    let mut i: usize = 0;
    while i < entries.len()
        invariant
            s == named(entries@),
            i <= entries@.len(),
            forall|j: int| 0 <= j < i ==> #[trigger] entries@[j].0@ != key@,
        decreases entries@.len() - i,
    {
        if str_eq(entries[i].0.as_str(), key) {
            proof {
                if keys_distinct(s) {
                    lemma_index_of(s, i as int);
                }
            }
            return Some(i);
        }
        i = i + 1;
    }
    proof {
        assert forall|j: int| 0 <= j < s.len() implies #[trigger] s[j].0 != key@ by {
            assert(s[j].0 == entries@[j].0@);
        }
    }
    None
}

/// The value of the first entry named `k`, looking from position `i` on.
pub open spec fn first_value<W>(s: Seq<(Seq<char>, W)>, k: Seq<char>, i: int) -> Option<W>
    decreases s.len() - i,
{
    if i < 0 || i >= s.len() {
        None
    } else if s[i].0 == k {
        Some(s[i].1)
    } else {
        first_value(s, k, i + 1)
    }
}

/// The first entry named `k` is the one at `i` when no earlier entry has that
/// name; there is none when no entry has it.
pub proof fn lemma_first_value<W>(s: Seq<(Seq<char>, W)>, k: Seq<char>, from: int, i: int)
    requires
        0 <= from <= i <= s.len(),
        forall|j: int| from <= j < i ==> #[trigger] s[j].0 != k,
        i < s.len() ==> s[i].0 == k,
    ensures
        first_value(s, k, from) == if i < s.len() {
            Some(s[i].1)
        } else {
            None::<W>
        },
    decreases i - from,
{
    if from < i {
        lemma_first_value(s, k, from + 1, i);
    }
}

/// Where names are distinct, the first entry named `k` holds the value
/// that the map of the entries has under `k`.
pub proof fn lemma_first_value_is_map<W>(s: Seq<(Seq<char>, W)>, k: Seq<char>)
    requires
        keys_distinct(s),
    ensures
        first_value(s, k, 0) == if to_map(s).contains_key(k) {
            Some(to_map(s)[k])
        } else {
            None::<W>
        },
{
    if has_key(s, k) {
        let i = index_of(s, k);
        assert forall|j: int| 0 <= j < i implies #[trigger] s[j].0 != k by {
            assert(s[j].0 != s[i].0);
        }
        lemma_first_value(s, k, 0, i);
    } else {
        assert forall|j: int| 0 <= j < s.len() implies #[trigger] s[j].0 != k by {
            if s[j].0 == k {
                assert(has_key(s, k));
            }
        }
        lemma_first_value(s, k, 0, s.len() as int);
    }
}

/// The value of the first entry named `key`, if any.
pub fn get_first<'a, V>(entries: &'a Vec<(String, V)>, key: &str) -> (r: Option<&'a V>)
    ensures
        match first_value(named(entries@), key@, 0) {
            Some(v) => r == Some(&v),
            None => r is None,
        },
{
    let ghost s = named(entries@);
    let mut i: usize = 0;
    while i < entries.len()
        invariant
            s == named(entries@),
            i <= entries@.len(),
            forall|j: int| 0 <= j < i ==> #[trigger] s[j].0 != key@,
        decreases entries@.len() - i,
    {
        if str_eq(entries[i].0.as_str(), key) {
            proof {
                lemma_first_value(s, key@, 0, i as int);
            }
            return Some(&entries[i].1);
        }
        proof {
            assert(s[i as int].0 == entries@[i as int].0@);
        }
        i = i + 1;
    }
    proof {
        lemma_first_value(s, key@, 0, entries@.len() as int);
    }
    None
}

} // verus!
