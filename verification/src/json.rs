//! A JSON value model with a mathematical view.
use vstd::prelude::*;

verus! {

/// The mathematical counterpart of a JSON value.
pub enum JsonModel {
    Null,
    Bool(bool),
    Number(Seq<char>),
    Str(Seq<char>),
    Array(Seq<JsonModel>),
    Object(Seq<(Seq<char>, JsonModel)>),
}

/// A JSON value. Numbers are kept as their JSON text; object entries keep
/// their order.
#[derive(Debug, PartialEq)]
pub enum JsonValue {
    Null,
    Bool(bool),
    Number(String),
    String(String),
    Array(Vec<JsonValue>),
    Object(Vec<(String, JsonValue)>),
}

pub open spec fn json_model(v: JsonValue) -> JsonModel
    decreases v,
{
    match v {
        JsonValue::Null => JsonModel::Null,
        JsonValue::Bool(b) => JsonModel::Bool(b),
        JsonValue::Number(n) => JsonModel::Number(n@),
        JsonValue::String(s) => JsonModel::Str(s@),
        JsonValue::Array(items) => JsonModel::Array(
            Seq::new(
                items@.len(),
                |i: int|
                    if 0 <= i < items@.len() {
                        json_model(items@[i])
                    } else {
                        JsonModel::Null
                    },
            ),
        ),
        JsonValue::Object(entries) => JsonModel::Object(
            Seq::new(
                entries@.len(),
                |i: int|
                    if 0 <= i < entries@.len() {
                        (entries@[i].0@, json_model(entries@[i].1))
                    } else {
                        (Seq::empty(), JsonModel::Null)
                    },
            ),
        ),
    }
}

impl View for JsonValue {
    type V = JsonModel;

    open spec fn view(&self) -> JsonModel {
        json_model(*self)
    }
}

impl JsonValue {
    /// A copy of this value.
    pub fn deep_copy(&self) -> (r: JsonValue)
        ensures
            r@ == self@,
        decreases self,
    {
        match self {
            JsonValue::Null => JsonValue::Null,
            JsonValue::Bool(b) => JsonValue::Bool(*b),
            JsonValue::Number(n) => JsonValue::Number(n.clone()),
            JsonValue::String(s) => JsonValue::String(s.clone()),
            JsonValue::Array(items) => {
                let mut out: Vec<JsonValue> = Vec::new();
                let mut i: usize = 0;
                while i < items.len()
                    invariant
                        *self == JsonValue::Array(*items),
                        i <= items@.len(),
                        out@.len() == i,
                        forall|j: int| 0 <= j < i ==> (#[trigger] out@[j])@ == items@[j]@,
                    decreases items@.len() - i,
                {
                    proof {
                        broadcast use vstd::std_specs::vec::axiom_vec_index_decreases;

                        assert(decreases_to!(*self => self->Array_0));
                        assert(decreases_to!(items => items[i as int]));
                        assert(decreases_to!(*self => items[i as int]));
                    }
                    let c = items[i].deep_copy();
                    out.push(c);
                    i = i + 1;
                }
                let r = JsonValue::Array(out);
                assert(json_model(r) =~= json_model(*self)) by {
                    if let JsonModel::Array(a) = json_model(r) {
                        if let JsonModel::Array(b) = json_model(*self) {
                            assert(a =~= b);
                        }
                    }
                }
                r
            },
            JsonValue::Object(entries) => {
                let mut out: Vec<(String, JsonValue)> = Vec::new();
                let mut i: usize = 0;
                while i < entries.len()
                    invariant
                        *self == JsonValue::Object(*entries),
                        i <= entries@.len(),
                        out@.len() == i,
                        forall|j: int|
                            0 <= j < i ==> (#[trigger] out@[j]).0@ == entries@[j].0@ && out@[j].1@
                                == entries@[j].1@,
                    decreases entries@.len() - i,
                {
                    proof {
                        broadcast use vstd::std_specs::vec::axiom_vec_index_decreases;

                        assert(decreases_to!(*self => self->Object_0));
                        assert(decreases_to!(entries => entries[i as int]));
                        assert(decreases_to!(entries[i as int] => entries[i as int].1));
                        assert(decreases_to!(*self => entries[i as int].1));
                    }
                    let k = entries[i].0.clone();
                    let v = entries[i].1.deep_copy();
                    out.push((k, v));
                    i = i + 1;
                }
                let r = JsonValue::Object(out);
                assert(json_model(r) =~= json_model(*self)) by {
                    if let JsonModel::Object(a) = json_model(r) {
                        if let JsonModel::Object(b) = json_model(*self) {
                            assert(a =~= b);
                        }
                    }
                }
                r
            },
        }
    }
}

/// The entries of an object, as models.
pub open spec fn entries_model(es: Seq<(String, JsonValue)>) -> Seq<(Seq<char>, JsonModel)> {
    Seq::new(es.len(), |i: int| (es[i].0@, json_model(es[i].1)))
}

/// The items of an array, as models.
pub open spec fn items_model(items: Seq<JsonValue>) -> Seq<JsonModel> {
    Seq::new(items.len(), |i: int| json_model(items[i]))
}

pub proof fn lemma_object_model(es: Vec<(String, JsonValue)>)
    ensures
        JsonValue::Object(es)@ == JsonModel::Object(entries_model(es@)),
{
    if let JsonModel::Object(a) = json_model(JsonValue::Object(es)) {
        assert(a =~= entries_model(es@));
    }
}

pub proof fn lemma_array_model(items: Vec<JsonValue>)
    ensures
        JsonValue::Array(items)@ == JsonModel::Array(items_model(items@)),
{
    if let JsonModel::Array(a) = json_model(JsonValue::Array(items)) {
        assert(a =~= items_model(items@));
    }
}

/// The first value stored under `k` in an object's entries.
pub open spec fn obj_get(es: Seq<(Seq<char>, JsonModel)>, k: Seq<char>) -> Option<JsonModel>
    decreases es.len(),
{
    if es.len() == 0 {
        None
    } else if es[0].0 == k {
        Some(es[0].1)
    } else {
        obj_get(es.drop_first(), k)
    }
}

/// The first value stored under `name` among `entries`.
pub fn get_field<'a>(entries: &'a Vec<(String, JsonValue)>, name: &str) -> (r: Option<
    &'a JsonValue,
>)
    ensures
        match obj_get(entries_model(entries@), name@) {
            Some(m) => r matches Some(v) && v@ == m,
            None => r is None,
        },
{
    let ghost es = entries_model(entries@);
    assert(es.subrange(0, es.len() as int) =~= es);
    let mut i: usize = 0;
    while i < entries.len()
        invariant
            es == entries_model(entries@),
            i <= entries@.len(),
            obj_get(es, name@) == obj_get(es.subrange(i as int, es.len() as int), name@),
        decreases entries@.len() - i,
    {
        let ghost rest = es.subrange(i as int, es.len() as int);
        assert(rest.drop_first() =~= es.subrange(i + 1, es.len() as int));
        if crate::table::str_eq(entries[i].0.as_str(), name) {
            return Some(&entries[i].1);
        }
        i = i + 1;
    }
    None
}

/// A JSON string holding `s`.
pub fn json_str(s: &str) -> (r: JsonValue)
    ensures
        r@ == JsonModel::Str(s@),
{
    JsonValue::String(String::from_str(s))
}

/// A JSON string holding a copy of `s`.
pub fn json_string(s: &String) -> (r: JsonValue)
    ensures
        r@ == JsonModel::Str(s@),
{
    JsonValue::String(s.clone())
}

/// A JSON string for `Some`, null for `None`.
pub fn json_opt_string(s: &Option<String>) -> (r: JsonValue)
    ensures
        r@ == opt_str_model(*s),
{
    match s {
        Some(x) => json_string(x),
        None => JsonValue::Null,
    }
}

/// The model of an optional string that is written out as null when absent.
pub open spec fn opt_str_model(s: Option<String>) -> JsonModel {
    match s {
        Some(x) => JsonModel::Str(x@),
        None => JsonModel::Null,
    }
}

/// An empty JSON object.
pub fn empty_object() -> (r: JsonValue)
    ensures
        r@ == JsonModel::Object(Seq::empty()),
{
    let es: Vec<(String, JsonValue)> = Vec::new();
    proof {
        lemma_object_model(es);
        assert(entries_model(es@) =~= Seq::empty());
    }
    JsonValue::Object(es)
}

/// An empty JSON array.
pub fn empty_array() -> (r: JsonValue)
    ensures
        r@ == JsonModel::Array(Seq::empty()),
{
    let items: Vec<JsonValue> = Vec::new();
    proof {
        lemma_array_model(items);
        assert(items_model(items@) =~= Seq::empty());
    }
    JsonValue::Array(items)
}

/// A copy of an object's entries.
pub fn copy_entries(es: &Vec<(String, JsonValue)>) -> (r: Vec<(String, JsonValue)>)
    ensures
        entries_model(r@) == entries_model(es@),
{
    let mut out: Vec<(String, JsonValue)> = Vec::new();
    let mut i: usize = 0;
    while i < es.len()
        invariant
            i <= es@.len(),
            out@.len() == i,
            forall|j: int|
                0 <= j < i ==> (#[trigger] out@[j]).0@ == es@[j].0@ && out@[j].1@ == es@[j].1@,
        decreases es@.len() - i,
    {
        out.push((es[i].0.clone(), es[i].1.deep_copy()));
        i = i + 1;
    }
    assert(entries_model(out@) =~= entries_model(es@));
    out
}

impl Clone for JsonValue {
    fn clone(&self) -> (r: Self)
        ensures
            r@ == self@,
    {
        self.deep_copy()
    }
}

impl JsonValue {
    /// Whether two values have the same model: the same variant, the same
    /// text for strings and numbers, and the same items or entries in the
    /// same order.
    pub fn same_as(&self, other: &JsonValue) -> (r: bool)
        ensures
            r == (self@ == other@),
        decreases self,
    {
        match (self, other) {
            (JsonValue::Null, JsonValue::Null) => true,
            (JsonValue::Bool(a), JsonValue::Bool(b)) => *a == *b,
            (JsonValue::Number(a), JsonValue::Number(b)) => crate::table::str_eq(a.as_str(), b.as_str()),
            (JsonValue::String(a), JsonValue::String(b)) => crate::table::str_eq(a.as_str(), b.as_str()),
            (JsonValue::Array(a), JsonValue::Array(b)) => {
                proof {
                    lemma_array_model(*a);
                    lemma_array_model(*b);
                }
                if a.len() != b.len() {
                    proof {
                        assert(items_model(a@).len() != items_model(b@).len());
                    }
                    return false;
                }
                let mut i: usize = 0;
                while i < a.len()
                    invariant
                        *self == JsonValue::Array(*a),
                        *other == JsonValue::Array(*b),
                        i <= a@.len(),
                        a@.len() == b@.len(),
                        forall|j: int| 0 <= j < i ==> (#[trigger] a@[j])@ == b@[j]@,
                    decreases a@.len() - i,
                {
                    proof {
                        broadcast use vstd::std_specs::vec::axiom_vec_index_decreases;

                        assert(decreases_to!(*self => self->Array_0));
                        assert(decreases_to!(a => a[i as int]));
                        assert(decreases_to!(*self => a[i as int]));
                    }
                    if !a[i].same_as(&b[i]) {
                        proof {
                            assert(items_model(a@)[i as int] != items_model(b@)[i as int]);
                            assert(items_model(a@) != items_model(b@));
                            lemma_array_model(*a);
                            lemma_array_model(*b);
                        }
                        return false;
                    }
                    i = i + 1;
                }
                assert(items_model(a@) =~= items_model(b@));
                true
            },
            (JsonValue::Object(a), JsonValue::Object(b)) => {
                proof {
                    lemma_object_model(*a);
                    lemma_object_model(*b);
                }
                if a.len() != b.len() {
                    proof {
                        assert(entries_model(a@).len() != entries_model(b@).len());
                    }
                    return false;
                }
                let mut i: usize = 0;
                while i < a.len()
                    invariant
                        *self == JsonValue::Object(*a),
                        *other == JsonValue::Object(*b),
                        i <= a@.len(),
                        a@.len() == b@.len(),
                        forall|j: int|
                            0 <= j < i ==> (#[trigger] a@[j]).0@ == b@[j].0@ && a@[j].1@ == b@[j].1@,
                    decreases a@.len() - i,
                {
                    proof {
                        broadcast use vstd::std_specs::vec::axiom_vec_index_decreases;

                        assert(decreases_to!(*self => self->Object_0));
                        assert(decreases_to!(a => a[i as int]));
                        assert(decreases_to!(a[i as int] => a[i as int].1));
                        assert(decreases_to!(*self => a[i as int].1));
                    }
                    if !crate::table::str_eq(a[i].0.as_str(), b[i].0.as_str()) || !a[i].1.same_as(&b[i].1) {
                        proof {
                            assert(entries_model(a@)[i as int] != entries_model(b@)[i as int]);
                            assert(entries_model(a@) != entries_model(b@));
                            lemma_object_model(*a);
                            lemma_object_model(*b);
                        }
                        return false;
                    }
                    i = i + 1;
                }
                assert(entries_model(a@) =~= entries_model(b@));
                true
            },
            _ => false,
        }
    }
}

} // verus!
