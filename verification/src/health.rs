//! Health tracking of upstream servers: per-server check history, the
//! healthy/unhealthy transitions driven by consecutive results, and the
//! registry of monitored servers.
//!
//! Checking a server (a ping with a timeout) and reading the clock happen
//! outside this module: their outcomes are handed in. `T` is the type of a
//! point in time, `C` the type of the client used to reach a server.
use vstd::prelude::*;

use crate::config::HealthCheckConfig;
use crate::error::GatewayError;
use crate::table::{
    find_key, has_key, index_of, keys_distinct, keys_of, lemma_index_of, lemma_push,
    lemma_remove, lemma_update, lookup, named, to_map,
};

verus! {

/// The number of most recent response times kept for averaging.
pub const RESPONSE_WINDOW: usize = 100;

/// The largest span a `Duration` can hold, in nanoseconds.
pub const MAX_DURATION_NANOS: u128 = 18446744073709551615999999999;

/// Health status of a server.
#[derive(Debug, Clone, Copy, PartialEq, Eq, Structural)]
pub enum HealthStatus {
    Healthy,
    Unhealthy,
    Unknown,
}

/// The status and counters of a server's check history.
pub ghost struct HealthCounters {
    pub status: HealthStatus,
    pub consecutive_successes: nat,
    pub consecutive_failures: nat,
    pub total_checks: nat,
    pub total_successes: nat,
    pub total_failures: nat,
}

/// The counters of a server that has not been checked yet.
pub open spec fn initial_counters() -> HealthCounters {
    HealthCounters {
        status: HealthStatus::Unknown,
        consecutive_successes: 0,
        consecutive_failures: 0,
        total_checks: 0,
        total_successes: 0,
        total_failures: 0,
    }
}

/// The counters after a successful check: the server becomes healthy once
/// its consecutive successes reach `healthy_threshold`.
pub open spec fn success_step(m: HealthCounters, healthy_threshold: nat) -> HealthCounters {
    let cs = m.consecutive_successes + 1;
    HealthCounters {
        status: if cs >= healthy_threshold {
            HealthStatus::Healthy
        } else {
            m.status
        },
        consecutive_successes: cs,
        consecutive_failures: 0,
        total_checks: m.total_checks + 1,
        total_successes: m.total_successes + 1,
        total_failures: m.total_failures,
    }
}

/// The counters after a failed check: the server becomes unhealthy once
/// its consecutive failures reach `unhealthy_threshold`.
pub open spec fn failure_step(m: HealthCounters, unhealthy_threshold: nat) -> HealthCounters {
    let cf = m.consecutive_failures + 1;
    HealthCounters {
        status: if cf >= unhealthy_threshold {
            HealthStatus::Unhealthy
        } else {
            m.status
        },
        consecutive_successes: 0,
        consecutive_failures: cf,
        total_checks: m.total_checks + 1,
        total_successes: m.total_successes,
        total_failures: m.total_failures + 1,
    }
}

/// The counters after a check whose outcome is `success`.
pub open spec fn check_step(
    m: HealthCounters,
    success: bool,
    healthy_threshold: nat,
    unhealthy_threshold: nat,
) -> HealthCounters {
    if success {
        success_step(m, healthy_threshold)
    } else {
        failure_step(m, unhealthy_threshold)
    }
}

/// The counters after a series of checks, oldest first.
pub open spec fn run_checks(
    m: HealthCounters,
    outcomes: Seq<bool>,
    healthy_threshold: nat,
    unhealthy_threshold: nat,
) -> HealthCounters
    decreases outcomes.len(),
{
    if outcomes.len() == 0 {
        m
    } else {
        check_step(
            run_checks(m, outcomes.drop_last(), healthy_threshold, unhealthy_threshold),
            outcomes.last(),
            healthy_threshold,
            unhealthy_threshold,
        )
    }
}

/// Appends a response time, keeping only the `RESPONSE_WINDOW` most recent.
pub open spec fn window_push(s: Seq<u128>, x: u128) -> Seq<u128> {
    let t = s.push(x);
    if t.len() > RESPONSE_WINDOW {
        t.drop_first()
    } else {
        t
    }
}

/// The sum of a sequence of durations in nanoseconds.
pub open spec fn sum_nanos(s: Seq<u128>) -> int
    decreases s.len(),
{
    if s.len() == 0 {
        0
    } else {
        sum_nanos(s.drop_last()) + s.last()
    }
}

/// The whole check history of a server, as plain values: its status and
/// counters, when it was last checked, last succeeded and last failed, when
/// it was first checked, and its recent response times (oldest first).
pub ghost struct HealthHistory<T> {
    pub counters: HealthCounters,
    pub last_check: Option<T>,
    pub last_success: Option<T>,
    pub last_failure: Option<T>,
    pub first_check: Option<T>,
    pub response_times: Seq<u128>,
}

/// The history of a server that has not been checked yet.
pub open spec fn initial_history<T>() -> HealthHistory<T> {
    HealthHistory {
        counters: initial_counters(),
        last_check: None,
        last_success: None,
        last_failure: None,
        first_check: None,
        response_times: Seq::empty(),
    }
}

/// The history after a successful check that took `t` nanoseconds and
/// ended at `now`; the status is left as it was.
pub open spec fn success_recorded<T>(h: HealthHistory<T>, now: T, t: u128) -> HealthHistory<T> {
    HealthHistory {
        counters: HealthCounters {
            consecutive_successes: h.counters.consecutive_successes + 1,
            consecutive_failures: 0,
            total_checks: h.counters.total_checks + 1,
            total_successes: h.counters.total_successes + 1,
            ..h.counters
        },
        last_check: Some(now),
        last_success: Some(now),
        last_failure: h.last_failure,
        first_check: if h.first_check is None {
            Some(now)
        } else {
            h.first_check
        },
        response_times: window_push(h.response_times, t),
    }
}

/// The history after a failed check that ended at `now`; the status is
/// left as it was.
pub open spec fn failure_recorded<T>(h: HealthHistory<T>, now: T) -> HealthHistory<T> {
    HealthHistory {
        counters: HealthCounters {
            consecutive_successes: 0,
            consecutive_failures: h.counters.consecutive_failures + 1,
            total_checks: h.counters.total_checks + 1,
            total_failures: h.counters.total_failures + 1,
            ..h.counters
        },
        last_check: Some(now),
        last_success: h.last_success,
        last_failure: Some(now),
        first_check: if h.first_check is None {
            Some(now)
        } else {
            h.first_check
        },
        response_times: h.response_times,
    }
}

/// The history after a check at `now` whose outcome is `Some(nanoseconds)`
/// for a success or `None` for a failure: the check is recorded and the
/// status moves across the thresholds.
pub open spec fn history_step<T>(
    h: HealthHistory<T>,
    now: T,
    outcome: Option<u128>,
    healthy_threshold: nat,
    unhealthy_threshold: nat,
) -> HealthHistory<T> {
    let recorded = match outcome {
        Some(t) => success_recorded(h, now, t),
        None => failure_recorded(h, now),
    };
    HealthHistory {
        counters: check_step(h.counters, outcome is Some, healthy_threshold, unhealthy_threshold),
        ..recorded
    }
}

/// The check history of one server.
#[derive(Debug, Clone)]
pub struct ServerHealthState<T> {
    pub status: HealthStatus,
    pub consecutive_successes: u32,
    pub consecutive_failures: u32,
    pub total_checks: u64,
    pub total_successes: u64,
    pub total_failures: u64,
    pub last_check: Option<T>,
    pub last_success: Option<T>,
    pub last_failure: Option<T>,
    /// Response times of the most recent successful checks, in nanoseconds, oldest first.
    pub response_times: Vec<u128>,
    pub first_check: Option<T>,
}

impl<T> ServerHealthState<T> {
    /// The counters are consistent with one another.
    pub open spec fn wf(&self) -> bool {
        &&& self.total_checks == self.total_successes + self.total_failures
        &&& self.consecutive_successes == 0 || self.consecutive_failures == 0
        &&& self.consecutive_successes <= self.total_successes
        &&& self.consecutive_failures <= self.total_failures
        &&& self.response_times@.len() <= RESPONSE_WINDOW
        &&& forall|i: int|
            0 <= i < self.response_times@.len() ==> #[trigger] self.response_times@[i]
                <= MAX_DURATION_NANOS
        &&& self.first_check is None ==> self.total_checks == 0
    }

    /// The status and counters.
    pub open spec fn counters(&self) -> HealthCounters {
        HealthCounters {
            status: self.status,
            consecutive_successes: self.consecutive_successes as nat,
            consecutive_failures: self.consecutive_failures as nat,
            total_checks: self.total_checks as nat,
            total_successes: self.total_successes as nat,
            total_failures: self.total_failures as nat,
        }
    }

    /// The whole history.
    pub open spec fn history(&self) -> HealthHistory<T> {
        HealthHistory {
            counters: self.counters(),
            last_check: self.last_check,
            last_success: self.last_success,
            last_failure: self.last_failure,
            first_check: self.first_check,
            response_times: self.response_times@,
        }
    }

    /// Never checked: status unknown, every counter zero, no times recorded.
    pub open spec fn is_initial(&self) -> bool {
        &&& self.counters() == initial_counters()
        &&& self.last_check is None
        &&& self.last_success is None
        &&& self.last_failure is None
        &&& self.first_check is None
        &&& self.response_times@.len() == 0
    }

    /// A state that has not been checked yet.
    pub fn new() -> (r: Self)
        ensures
            r.wf(),
            r.is_initial(),
            r.history() == initial_history::<T>(),
    {
        ServerHealthState {
            status: HealthStatus::Unknown,
            consecutive_successes: 0,
            consecutive_failures: 0,
            total_checks: 0,
            total_successes: 0,
            total_failures: 0,
            last_check: None,
            last_success: None,
            last_failure: None,
            response_times: Vec::new(),
            first_check: None,
        }
    }
}

impl<T> Default for ServerHealthState<T> {
    fn default() -> (r: Self)
        ensures
            r.wf(),
            r.is_initial(),
            r.history() == initial_history::<T>(),
    {
        Self::new()
    }
}

impl<T: Copy> ServerHealthState<T> {
    /// Records a successful check that took `response_time_nanos` and ended at `now`.
    pub fn record_success(&mut self, now: T, response_time_nanos: u128)
        requires
            old(self).wf(),
            old(self).total_checks < u64::MAX,
            old(self).consecutive_successes < u32::MAX,
            response_time_nanos <= MAX_DURATION_NANOS,
        ensures
            final(self).wf(),
            final(self).status == old(self).status,
            final(self).consecutive_successes == old(self).consecutive_successes + 1,
            final(self).consecutive_failures == 0,
            final(self).total_checks == old(self).total_checks + 1,
            final(self).total_successes == old(self).total_successes + 1,
            final(self).total_failures == old(self).total_failures,
            final(self).last_check == Some(now),
            final(self).last_success == Some(now),
            final(self).last_failure == old(self).last_failure,
            final(self).first_check == (if old(self).first_check is None {
                Some(now)
            } else {
                old(self).first_check
            }),
            final(self).response_times@ == window_push(old(self).response_times@, response_time_nanos),
            final(self).history() == success_recorded(old(self).history(), now, response_time_nanos),
    {
        if self.first_check.is_none() {
            self.first_check = Some(now);
        }
        self.total_checks = self.total_checks + 1;
        self.total_successes = self.total_successes + 1;
        self.consecutive_successes = self.consecutive_successes + 1;
        self.consecutive_failures = 0;
        self.last_check = Some(now);
        self.last_success = Some(now);

        let ghost before = self.response_times@;
        self.response_times.push(response_time_nanos);
        if self.response_times.len() > RESPONSE_WINDOW {
            self.response_times.remove(0);
            assert(self.response_times@ =~= before.push(response_time_nanos).drop_first());
        }
    }

    /// Records a failed check that ended at `now`.
    pub fn record_failure(&mut self, now: T)
        requires
            old(self).wf(),
            old(self).total_checks < u64::MAX,
            old(self).consecutive_failures < u32::MAX,
        ensures
            final(self).wf(),
            final(self).status == old(self).status,
            final(self).consecutive_successes == 0,
            final(self).consecutive_failures == old(self).consecutive_failures + 1,
            final(self).total_checks == old(self).total_checks + 1,
            final(self).total_successes == old(self).total_successes,
            final(self).total_failures == old(self).total_failures + 1,
            final(self).last_check == Some(now),
            final(self).last_success == old(self).last_success,
            final(self).last_failure == Some(now),
            final(self).first_check == (if old(self).first_check is None {
                Some(now)
            } else {
                old(self).first_check
            }),
            final(self).response_times@ == old(self).response_times@,
            final(self).history() == failure_recorded(old(self).history(), now),
    {
        if self.first_check.is_none() {
            self.first_check = Some(now);
        }
        self.total_checks = self.total_checks + 1;
        self.total_failures = self.total_failures + 1;
        self.consecutive_failures = self.consecutive_failures + 1;
        self.consecutive_successes = 0;
        self.last_check = Some(now);
        self.last_failure = Some(now);
    }

    /// Records the outcome of a check — `Some(nanoseconds)` for a success,
    /// `None` for a failure — and moves the status across the thresholds.
    pub fn apply_check(
        &mut self,
        now: T,
        outcome: Option<u128>,
        healthy_threshold: u32,
        unhealthy_threshold: u32,
    )
        requires
            old(self).wf(),
            old(self).total_checks < u64::MAX,
            old(self).consecutive_successes < u32::MAX,
            old(self).consecutive_failures < u32::MAX,
            outcome matches Some(t) ==> t <= MAX_DURATION_NANOS,
        ensures
            final(self).wf(),
            final(self).history() == history_step(
                old(self).history(),
                now,
                outcome,
                healthy_threshold as nat,
                unhealthy_threshold as nat,
            ),
    {
        match outcome {
            Some(t) => {
                self.record_success(now, t);
                if self.consecutive_successes >= healthy_threshold {
                    if self.status != HealthStatus::Healthy {
                        self.status = HealthStatus::Healthy;
                    }
                }
            },
            None => {
                self.record_failure(now);
                if self.consecutive_failures >= unhealthy_threshold {
                    if self.status != HealthStatus::Unhealthy {
                        self.status = HealthStatus::Unhealthy;
                    }
                }
            },
        }
    }
}

proof fn lemma_sum_nanos_prefix(s: Seq<u128>, i: int)
    requires
        0 <= i <= s.len(),
    ensures
        sum_nanos(s.subrange(0, i)) <= sum_nanos(s),
        0 <= sum_nanos(s.subrange(0, i)),
    decreases s.len(),
{
    if i == s.len() {
        assert(s.subrange(0, i) =~= s);
        lemma_sum_nanos_nonneg(s);
    } else {
        lemma_sum_nanos_prefix(s.drop_last(), i);
        assert(s.drop_last().subrange(0, i) =~= s.subrange(0, i));
    }
}

proof fn lemma_sum_nanos_nonneg(s: Seq<u128>)
    ensures
        0 <= sum_nanos(s),
    decreases s.len(),
{
    if s.len() > 0 {
        lemma_sum_nanos_nonneg(s.drop_last());
    }
}

impl<T> ServerHealthState<T> {
    /// The total of the kept response times, in whole milliseconds.
    pub fn total_response_time_millis(&self) -> (r: u128)
        requires
            self.wf(),
            sum_nanos(self.response_times@) <= MAX_DURATION_NANOS,
        ensures
            r == sum_nanos(self.response_times@) / 1_000_000,
    {
        let mut total: u128 = 0;
        let mut i: usize = 0;
        while i < self.response_times.len()
            invariant
                i <= self.response_times@.len(),
                total == sum_nanos(self.response_times@.subrange(0, i as int)),
                sum_nanos(self.response_times@) <= MAX_DURATION_NANOS,
            decreases self.response_times@.len() - i,
        {
            proof {
                lemma_sum_nanos_prefix(self.response_times@, i + 1);
                assert(self.response_times@.subrange(0, i + 1).drop_last()
                    =~= self.response_times@.subrange(0, i as int));
            }
            total = total + self.response_times[i];
            i = i + 1;
        }
        assert(self.response_times@.subrange(0, i as int) =~= self.response_times@);
        total / 1_000_000
    }
}

/// `count` consecutive successes starting from `m` leave at least `count`
/// consecutive successes.
proof fn lemma_successes_accumulate(m: HealthCounters, count: nat, ht: nat, ut: nat)
    ensures
        run_checks(m, Seq::new(count, |i: int| true), ht, ut).consecutive_successes >= count,
        count > 0 && count >= ht ==> run_checks(m, Seq::new(count, |i: int| true), ht, ut).status
            == HealthStatus::Healthy,
    decreases count,
{
    if count > 0 {
        let prev = (count - 1) as nat;
        lemma_successes_accumulate(m, prev, ht, ut);
        assert(Seq::new(count, |i: int| true).drop_last() =~= Seq::new(prev, |i: int| true));
    }
}

proof fn lemma_failures_accumulate(m: HealthCounters, count: nat, ht: nat, ut: nat)
    ensures
        run_checks(m, Seq::new(count, |i: int| false), ht, ut).consecutive_failures >= count,
        count > 0 && count >= ut ==> run_checks(m, Seq::new(count, |i: int| false), ht, ut).status
            == HealthStatus::Unhealthy,
    decreases count,
{
    if count > 0 {
        let prev = (count - 1) as nat;
        lemma_failures_accumulate(m, prev, ht, ut);
        assert(Seq::new(count, |i: int| false).drop_last() =~= Seq::new(prev, |i: int| false));
    }
}

/// A server becomes healthy after `count` consecutive successful checks,
/// whatever its history, once `count` reaches the healthy threshold.
pub proof fn law_successes_make_healthy(m: HealthCounters, count: nat, ht: nat, ut: nat)
    requires
        count > 0,
        count >= ht,
    ensures
        run_checks(m, Seq::new(count, |i: int| true), ht, ut).status == HealthStatus::Healthy,
{
    lemma_successes_accumulate(m, count, ht, ut);
}

/// A server becomes unhealthy after `count` consecutive failed checks,
/// whatever its history, once `count` reaches the unhealthy threshold.
pub proof fn law_failures_make_unhealthy(m: HealthCounters, count: nat, ht: nat, ut: nat)
    requires
        count > 0,
        count >= ut,
    ensures
        run_checks(m, Seq::new(count, |i: int| false), ht, ut).status == HealthStatus::Unhealthy,
{
    lemma_failures_accumulate(m, count, ht, ut);
}

/// Every check is counted once: the total grows by the number of checks,
/// the successes by the successful ones, and the total stays the sum of
/// successes and failures.
pub proof fn law_checks_are_counted(m: HealthCounters, outcomes: Seq<bool>, ht: nat, ut: nat)
    requires
        m.total_checks == m.total_successes + m.total_failures,
    ensures
        run_checks(m, outcomes, ht, ut).total_checks == m.total_checks + outcomes.len(),
        run_checks(m, outcomes, ht, ut).total_checks == run_checks(m, outcomes, ht, ut).total_successes
            + run_checks(m, outcomes, ht, ut).total_failures,
    decreases outcomes.len(),
{
    if outcomes.len() > 0 {
        law_checks_are_counted(m, outcomes.drop_last(), ht, ut);
    }
}

/// A success never makes a server unhealthy and a failure never makes it
/// healthy.
pub proof fn law_status_moves_with_outcome(m: HealthCounters, success: bool, ht: nat, ut: nat)
    ensures
        success && m.status != HealthStatus::Unhealthy ==> check_step(m, success, ht, ut).status
            != HealthStatus::Unhealthy,
        !success && m.status != HealthStatus::Healthy ==> check_step(m, success, ht, ut).status
            != HealthStatus::Healthy,
        success ==> check_step(m, success, ht, ut).consecutive_failures == 0,
        !success ==> check_step(m, success, ht, ut).consecutive_successes == 0,
{
}

/// The thresholds gate the status: a successful check makes a server
/// healthy exactly when its consecutive successes reach the healthy
/// threshold, and otherwise leaves its status as it was; a failed check
/// makes it unhealthy exactly when its consecutive failures reach the
/// unhealthy threshold, and otherwise leaves its status as it was.
pub proof fn law_thresholds_gate_status(m: HealthCounters, ht: nat, ut: nat)
    ensures
        m.consecutive_successes + 1 < ht ==> check_step(m, true, ht, ut).status == m.status,
        m.consecutive_successes + 1 >= ht ==> check_step(m, true, ht, ut).status == HealthStatus::Healthy,
        m.consecutive_failures + 1 < ut ==> check_step(m, false, ht, ut).status == m.status,
        m.consecutive_failures + 1 >= ut ==> check_step(m, false, ht, ut).status == HealthStatus::Unhealthy,
        check_step(m, true, ht, ut).consecutive_successes == m.consecutive_successes + 1,
        check_step(m, false, ht, ut).consecutive_failures == m.consecutive_failures + 1,
{
}

/// The response-time window: recording a response time keeps it as the
/// newest sample, drops at most the single oldest one, and never holds more
/// than `RESPONSE_WINDOW` samples.
pub proof fn law_response_window(s: Seq<u128>, x: u128)
    requires
        s.len() <= RESPONSE_WINDOW,
    ensures
        window_push(s, x).len() <= RESPONSE_WINDOW,
        window_push(s, x).last() == x,
        window_push(s, x) == if s.len() == RESPONSE_WINDOW {
            s.drop_first().push(x)
        } else {
            s.push(x)
        },
{
    if s.len() == RESPONSE_WINDOW {
        assert(s.push(x).drop_first() =~= s.drop_first().push(x));
    }
}

/// The names, in order, of the entries whose status is `st`.
pub open spec fn ids_with_status(s: Seq<(Seq<char>, HealthCounters)>, st: HealthStatus) -> Seq<
    Seq<char>,
>
    decreases s.len(),
{
    if s.len() == 0 {
        Seq::empty()
    } else {
        let rest = ids_with_status(s.drop_last(), st);
        if s.last().1.status == st {
            rest.push(s.last().0)
        } else {
            rest
        }
    }
}

/// Whether some entry has status `st`.
pub open spec fn any_with_status(s: Seq<(Seq<char>, HealthCounters)>, st: HealthStatus) -> bool {
    exists|i: int| 0 <= i < s.len() && #[trigger] s[i].1.status == st
}

/// A name is listed under status `st` exactly when an entry of that name has that status.
pub proof fn lemma_ids_with_status(s: Seq<(Seq<char>, HealthCounters)>, st: HealthStatus, id: Seq<char>)
    ensures
        ids_with_status(s, st).contains(id) <==> exists|i: int|
            0 <= i < s.len() && #[trigger] s[i].0 == id && s[i].1.status == st,
        ids_with_status(s, st).len() > 0 <==> any_with_status(s, st),
    decreases s.len(),
{
    if s.len() > 0 {
        let t = s.drop_last();
        lemma_ids_with_status(t, st, id);
        let rest = ids_with_status(t, st);
        if s.last().1.status == st {
            assert(rest.push(s.last().0)[rest.len() as int] == s.last().0);
            if rest.push(s.last().0).contains(id) && !rest.contains(id) {
                assert(s[s.len() - 1].0 == id);
            }
            if rest.contains(id) {
                let j = choose|j: int| 0 <= j < rest.len() && rest[j] == id;
                assert(rest.push(s.last().0)[j] == id);
            }
            assert(s[s.len() - 1].1.status == st);
        }
        assert forall|i: int| 0 <= i < t.len() implies #[trigger] t[i] == s[i] by {}
        if exists|i: int| 0 <= i < s.len() && #[trigger] s[i].0 == id && s[i].1.status == st {
            let i = choose|i: int| 0 <= i < s.len() && #[trigger] s[i].0 == id && s[i].1.status == st;
            if i < t.len() {
                assert(t[i].0 == id);
            }
        }
        if any_with_status(s, st) {
            let i = choose|i: int| 0 <= i < s.len() && #[trigger] s[i].1.status == st;
            if i < t.len() {
                assert(t[i].1.status == st);
            }
        }
        if any_with_status(t, st) {
            let i = choose|i: int| 0 <= i < t.len() && #[trigger] t[i].1.status == st;
            assert(s[i].1.status == st);
        }
    }
}

/// The status and counters of each entry of a registry.
pub open spec fn counters_of<T>(s: Seq<(String, ServerHealthState<T>)>) -> Seq<
    (Seq<char>, HealthCounters),
> {
    s.map_values(|e: (String, ServerHealthState<T>)| (e.0@, e.1.counters()))
}

/// The whole history of each entry of a registry.
pub open spec fn histories_of<T>(s: Seq<(String, ServerHealthState<T>)>) -> Seq<
    (Seq<char>, HealthHistory<T>),
> {
    s.map_values(|e: (String, ServerHealthState<T>)| (e.0@, e.1.history()))
}

/// Monitors upstream servers: which servers are watched, with which client,
/// and what their checks have shown.
pub struct HealthChecker<C, T> {
    config: HealthCheckConfig,
    servers: Vec<(String, C)>,
    health_states: Vec<(String, ServerHealthState<T>)>,
    running: bool,
}

impl<C, T> HealthChecker<C, T> {
    /// Names are distinct in both tables and every history is consistent.
    pub closed spec fn wf(&self) -> bool {
        &&& keys_distinct(named(self.servers@))
        &&& keys_distinct(counters_of(self.health_states@))
        &&& forall|i: int|
            0 <= i < self.health_states@.len() ==> (#[trigger] self.health_states@[i]).1.wf()
    }

    /// The monitored servers and their clients.
    pub closed spec fn server_entries(&self) -> Seq<(Seq<char>, C)> {
        named(self.servers@)
    }

    /// The health of each server that has a history, in order.
    pub closed spec fn health_entries(&self) -> Seq<(Seq<char>, HealthCounters)> {
        counters_of(self.health_states@)
    }

    /// The whole history of each server that has one, in order.
    pub closed spec fn history_entries(&self) -> Seq<(Seq<char>, HealthHistory<T>)> {
        histories_of(self.health_states@)
    }

    /// Whether monitoring is on.
    pub closed spec fn running(&self) -> bool {
        self.running
    }

    /// The health check settings.
    pub closed spec fn settings(&self) -> HealthCheckConfig {
        self.config
    }

    proof fn lemma_counters_distinct(&self)
        requires
            self.wf(),
        ensures
            keys_distinct(named(self.health_states@)),
    {
        let a = named(self.health_states@);
        let b = counters_of(self.health_states@);
        assert forall|i: int, j: int|
            0 <= i < a.len() && 0 <= j < a.len() && i != j implies #[trigger] a[i].0
            != #[trigger] a[j].0 by {
            assert(a[i].0 == b[i].0 && a[j].0 == b[j].0);
        }
    }

    proof fn lemma_histories_distinct(&self)
        requires
            self.wf(),
        ensures
            keys_distinct(histories_of(self.health_states@)),
    {
        let a = histories_of(self.health_states@);
        let b = counters_of(self.health_states@);
        assert forall|i: int, j: int|
            0 <= i < a.len() && 0 <= j < a.len() && i != j implies #[trigger] a[i].0
            != #[trigger] a[j].0 by {
            assert(a[i].0 == b[i].0 && a[j].0 == b[j].0);
        }
    }

    /// A checker with no servers, not yet monitoring.
    pub fn new(config: HealthCheckConfig) -> (r: Self)
        ensures
            r.wf(),
            r.server_entries().len() == 0,
            r.health_entries().len() == 0,
            r.history_entries().len() == 0,
            !r.running(),
            r.settings() == config,
    {
        let r = HealthChecker {
            config,
            servers: Vec::new(),
            health_states: Vec::new(),
            running: false,
        };
        assert(named(r.servers@) =~= Seq::empty());
        assert(counters_of(r.health_states@) =~= Seq::empty());
        assert(histories_of(r.health_states@) =~= Seq::empty());
        r
    }

    /// The health check settings.
    pub fn config(&self) -> (r: &HealthCheckConfig)
        ensures
            *r == self.settings(),
    {
        &self.config
    }

    /// Replaces the health check settings.
    pub fn update_config(&mut self, new_config: HealthCheckConfig)
        requires
            old(self).wf(),
        ensures
            final(self).wf(),
            final(self).settings() == new_config,
            final(self).server_entries() == old(self).server_entries(),
            final(self).health_entries() == old(self).health_entries(),
            final(self).history_entries() == old(self).history_entries(),
            final(self).running() == old(self).running(),
    {
        self.config = new_config;
    }

    /// Turns monitoring on when health checking is enabled; tells whether it is on.
    pub fn start_monitoring(&mut self) -> (r: bool)
        requires
            old(self).wf(),
        ensures
            final(self).wf(),
            r == old(self).settings().enabled,
            final(self).running() == (old(self).running() || r),
            final(self).settings() == old(self).settings(),
            final(self).server_entries() == old(self).server_entries(),
            final(self).health_entries() == old(self).health_entries(),
            final(self).history_entries() == old(self).history_entries(),
    {
        if !self.config.enabled {
            return false;
        }
        self.running = true;
        true
    }

    /// Turns monitoring off.
    pub fn stop(&mut self)
        requires
            old(self).wf(),
        ensures
            final(self).wf(),
            !final(self).running(),
            final(self).settings() == old(self).settings(),
            final(self).server_entries() == old(self).server_entries(),
            final(self).health_entries() == old(self).health_entries(),
            final(self).history_entries() == old(self).history_entries(),
    {
        self.running = false;
    }

    /// Whether monitoring is on.
    pub fn is_running(&self) -> (r: bool)
        ensures
            r == self.running(),
    {
        self.running
    }

    /// Starts monitoring `server_id` through `client`, with a fresh history.
    pub fn add_server(&mut self, server_id: String, client: C)
        requires
            old(self).wf(),
        ensures
            final(self).wf(),
            to_map(final(self).server_entries()) == to_map(old(self).server_entries()).insert(
                server_id@,
                client,
            ),
            to_map(final(self).health_entries()) == to_map(old(self).health_entries()).insert(
                server_id@,
                initial_counters(),
            ),
            to_map(final(self).history_entries()) == to_map(old(self).history_entries()).insert(
                server_id@,
                initial_history(),
            ),
            final(self).running() == old(self).running(),
            final(self).settings() == old(self).settings(),
    {
        let ghost old_servers = named(self.servers@);
        let ghost old_states = counters_of(self.health_states@);
        let ghost old_hist = histories_of(self.health_states@);
        let fresh: ServerHealthState<T> = ServerHealthState::new();
        match find_key(&self.servers, server_id.as_str()) {
            Some(i) => {
                let ghost e = (server_id@, client);
                self.servers.set(i, (server_id.clone(), client));
                proof {
                    lemma_update(old_servers, i as int, e);
                    assert(named(self.servers@) =~= old_servers.update(i as int, e));
                }
            },
            None => {
                let ghost e = (server_id@, client);
                self.servers.push((server_id.clone(), client));
                proof {
                    lemma_push(old_servers, e);
                    assert(named(self.servers@) =~= old_servers.push(e));
                }
            },
        }
        proof {
            self.lemma_counters_distinct();
            self.lemma_histories_distinct();
        }
        let ghost e2 = (server_id@, initial_counters());
        let ghost e3 = (server_id@, initial_history::<T>());
        match find_key(&self.health_states, server_id.as_str()) {
            Some(i) => {
                self.health_states.set(i, (server_id, fresh));
                proof {
                    lemma_update(old_states, i as int, e2);
                    assert(counters_of(self.health_states@) =~= old_states.update(i as int, e2));
                    lemma_update(old_hist, i as int, e3);
                    assert(histories_of(self.health_states@) =~= old_hist.update(i as int, e3));
                }
            },
            None => {
                proof {
                    if has_key(old_states, server_id@) {
                        let j = index_of(old_states, server_id@);
                        assert(named(self.health_states@)[j].0 == server_id@);
                    }
                }
                self.health_states.push((server_id, fresh));
                proof {
                    lemma_push(old_states, e2);
                    assert(counters_of(self.health_states@) =~= old_states.push(e2));
                    if has_key(old_hist, server_id@) {
                        let j = index_of(old_hist, server_id@);
                        assert(old_states[j].0 == server_id@);
                    }
                    lemma_push(old_hist, e3);
                    assert(histories_of(self.health_states@) =~= old_hist.push(e3));
                }
            },
        }
    }

    /// Stops monitoring `server_id` and forgets its history.
    pub fn remove_server(&mut self, server_id: &str)
        requires
            old(self).wf(),
        ensures
            final(self).wf(),
            to_map(final(self).server_entries()) == to_map(old(self).server_entries()).remove(
                server_id@,
            ),
            to_map(final(self).health_entries()) == to_map(old(self).health_entries()).remove(
                server_id@,
            ),
            to_map(final(self).history_entries()) == to_map(old(self).history_entries()).remove(
                server_id@,
            ),
            final(self).running() == old(self).running(),
            final(self).settings() == old(self).settings(),
    {
        let ghost old_servers = named(self.servers@);
        let ghost old_states = counters_of(self.health_states@);
        let ghost old_hist = histories_of(self.health_states@);
        match find_key(&self.servers, server_id) {
            Some(i) => {
                self.servers.remove(i);
                proof {
                    lemma_remove(old_servers, i as int);
                    assert(named(self.servers@) =~= old_servers.remove(i as int));
                }
            },
            None => {
                assert(to_map(old_servers).remove(server_id@) =~= to_map(old_servers));
            },
        }
        proof {
            self.lemma_counters_distinct();
            self.lemma_histories_distinct();
        }
        match find_key(&self.health_states, server_id) {
            Some(i) => {
                self.health_states.remove(i);
                proof {
                    lemma_remove(old_states, i as int);
                    assert(counters_of(self.health_states@) =~= old_states.remove(i as int));
                    lemma_remove(old_hist, i as int);
                    assert(histories_of(self.health_states@) =~= old_hist.remove(i as int));
                }
            },
            None => {
                proof {
                    if has_key(old_states, server_id@) {
                        let j = index_of(old_states, server_id@);
                        assert(named(self.health_states@)[j].0 == server_id@);
                    }
                }
                assert(to_map(old_states).remove(server_id@) =~= to_map(old_states));
                proof {
                    if has_key(old_hist, server_id@) {
                        let j = index_of(old_hist, server_id@);
                        assert(named(self.health_states@)[j].0 == server_id@);
                    }
                }
                assert(to_map(old_hist).remove(server_id@) =~= to_map(old_hist));
            },
        }
    }

    /// The names of the monitored servers, in order.
    pub fn server_ids(&self) -> (r: Vec<String>)
        ensures
            r@.map_values(|s: String| s@) == keys_of(self.server_entries()),
    {
        let mut r: Vec<String> = Vec::new();
        let mut i: usize = 0;
        while i < self.servers.len()
            invariant
                i <= self.servers@.len(),
                r@.len() == i,
                forall|j: int| 0 <= j < i ==> (#[trigger] r@[j])@ == self.servers@[j].0@,
            decreases self.servers@.len() - i,
        {
            r.push(self.servers[i].0.clone());
            i = i + 1;
        }
        assert(r@.map_values(|s: String| s@) =~= keys_of(named(self.servers@)));
        r
    }

    /// The client of `server_id`, if it is monitored.
    pub fn get_client(&self, server_id: &str) -> (r: Option<&C>)
        requires
            self.wf(),
        ensures
            r matches Some(c) ==> to_map(self.server_entries()).contains_key(server_id@) && to_map(
                self.server_entries(),
            )[server_id@] == *c,
            r is None ==> !to_map(self.server_entries()).contains_key(server_id@),
    {
        match find_key(&self.servers, server_id) {
            Some(i) => {
                proof {
                    lemma_index_of(named(self.servers@), i as int);
                }
                Some(&self.servers[i].1)
            },
            None => None,
        }
    }

    /// The client to check when a check of `server_id` is forced; a server
    /// that is not monitored is not found.
    pub fn force_check_target(&self, server_id: &str) -> (r: Result<&C, GatewayError>)
        requires
            self.wf(),
        ensures
            r matches Ok(c) ==> to_map(self.server_entries()).contains_key(server_id@) && to_map(
                self.server_entries(),
            )[server_id@] == *c,
            r matches Err(e) ==> !to_map(self.server_entries()).contains_key(server_id@) && (
            e matches GatewayError::NotFound(m) && m@ == "Server "@ + server_id@),
    {
        match self.get_client(server_id) {
            Some(c) => Ok(c),
            None => {
                let msg = String::from_str("Server ").concat(server_id);
                Err(GatewayError::NotFound(msg))
            },
        }
    }

    /// The history of `server_id`, if it has one.
    pub fn get_server_state(&self, server_id: &str) -> (r: Option<&ServerHealthState<T>>)
        requires
            self.wf(),
        ensures
            r matches Some(st) ==> st.wf() && to_map(self.health_entries()).contains_key(server_id@)
                && to_map(self.health_entries())[server_id@] == st.counters() && to_map(
                self.history_entries(),
            ).contains_key(server_id@) && to_map(self.history_entries())[server_id@] == st.history(),
            r is None ==> !to_map(self.health_entries()).contains_key(server_id@) && !to_map(
                self.history_entries(),
            ).contains_key(server_id@),
    {
        proof {
            self.lemma_counters_distinct();
            self.lemma_histories_distinct();
        }
        match find_key(&self.health_states, server_id) {
            Some(i) => {
                proof {
                    lemma_index_of(counters_of(self.health_states@), i as int);
                    lemma_index_of(histories_of(self.health_states@), i as int);
                }
                Some(&self.health_states[i].1)
            },
            None => {
                proof {
                    let s = counters_of(self.health_states@);
                    if has_key(s, server_id@) {
                        let j = index_of(s, server_id@);
                        assert(named(self.health_states@)[j].0 == server_id@);
                    }
                    let h = histories_of(self.health_states@);
                    if has_key(h, server_id@) {
                        let j = index_of(h, server_id@);
                        assert(named(self.health_states@)[j].0 == server_id@);
                    }
                }
                None
            },
        }
    }

    /// Every history, by server name.
    pub fn server_states(&self) -> (r: &Vec<(String, ServerHealthState<T>)>)
        requires
            self.wf(),
        ensures
            counters_of(r@) == self.health_entries(),
            histories_of(r@) == self.history_entries(),
            forall|i: int| 0 <= i < r@.len() ==> (#[trigger] r@[i]).1.wf(),
    {
        &self.health_states
    }

    /// Whether `server_id` is known to be healthy.
    pub fn is_server_healthy(&self, server_id: &str) -> (r: bool)
        requires
            self.wf(),
        ensures
            r == (to_map(self.health_entries()).contains_key(server_id@) && to_map(
                self.health_entries(),
            )[server_id@].status == HealthStatus::Healthy),
    {
        match self.get_server_state(server_id) {
            Some(st) => st.status == HealthStatus::Healthy,
            None => false,
        }
    }

    fn ids_with(&self, st: HealthStatus) -> (r: Vec<String>)
        ensures
            r@.map_values(|s: String| s@) == ids_with_status(self.health_entries(), st),
    {
        let ghost s = counters_of(self.health_states@);
        let mut r: Vec<String> = Vec::new();
        let mut i: usize = 0;
        while i < self.health_states.len()
            invariant
                s == counters_of(self.health_states@),
                i <= self.health_states@.len(),
                r@.map_values(|x: String| x@) == ids_with_status(s.subrange(0, i as int), st),
            decreases self.health_states@.len() - i,
        {
            let ghost before = r@;
            assert(s.subrange(0, i + 1).drop_last() =~= s.subrange(0, i as int));
            if self.health_states[i].1.status == st {
                r.push(self.health_states[i].0.clone());
                assert(r@.map_values(|x: String| x@) =~= before.map_values(|x: String| x@).push(
                    s[i as int].0,
                ));
            }
            i = i + 1;
        }
        assert(s.subrange(0, i as int) =~= s);
        r
    }

    /// The names of the healthy servers, in order.
    pub fn get_healthy_servers(&self) -> (r: Vec<String>)
        ensures
            r@.map_values(|s: String| s@) == ids_with_status(
                self.health_entries(),
                HealthStatus::Healthy,
            ),
    {
        self.ids_with(HealthStatus::Healthy)
    }

    /// The names of the unhealthy servers, in order.
    pub fn get_unhealthy_servers(&self) -> (r: Vec<String>)
        ensures
            r@.map_values(|s: String| s@) == ids_with_status(
                self.health_entries(),
                HealthStatus::Unhealthy,
            ),
    {
        self.ids_with(HealthStatus::Unhealthy)
    }

    /// The number of healthy servers.
    pub fn healthy_server_count(&self) -> (r: usize)
        ensures
            r == ids_with_status(self.health_entries(), HealthStatus::Healthy).len(),
    {
        let ids = self.ids_with(HealthStatus::Healthy);
        assert(ids@.map_values(|s: String| s@).len() == ids@.len());
        ids.len()
    }

    /// Overall health: no servers at all, or at least one healthy server.
    pub fn overall_health(&self) -> (r: bool)
        ensures
            r == (self.health_entries().len() == 0 || any_with_status(
                self.health_entries(),
                HealthStatus::Healthy,
            )),
    {
        if self.health_states.len() == 0 {
            return true;
        }
        proof {
            lemma_ids_with_status(self.health_entries(), HealthStatus::Healthy, Seq::empty());
        }
        self.healthy_server_count() > 0
    }
}

impl<C, T: Copy> HealthChecker<C, T> {
    /// Records the outcome of a check of `server_id` — `Some(nanoseconds)`
    /// for a success, `None` for a failure — starting a history if it has none.
    pub fn record_check_result(&mut self, server_id: &str, now: T, outcome: Option<u128>)
        requires
            old(self).wf(),
            to_map(old(self).health_entries()).contains_key(server_id@) ==> {
                let c = to_map(old(self).health_entries())[server_id@];
                c.total_checks < u64::MAX && c.consecutive_successes < u32::MAX
                    && c.consecutive_failures < u32::MAX
            },
            outcome matches Some(t) ==> t <= MAX_DURATION_NANOS,
        ensures
            final(self).wf(),
            to_map(final(self).health_entries()) == to_map(old(self).health_entries()).insert(
                server_id@,
                check_step(
                    if to_map(old(self).health_entries()).contains_key(server_id@) {
                        to_map(old(self).health_entries())[server_id@]
                    } else {
                        initial_counters()
                    },
                    outcome is Some,
                    old(self).settings().healthy_threshold as nat,
                    old(self).settings().unhealthy_threshold as nat,
                ),
            ),
            to_map(final(self).history_entries()) == to_map(old(self).history_entries()).insert(
                server_id@,
                history_step(
                    if to_map(old(self).history_entries()).contains_key(server_id@) {
                        to_map(old(self).history_entries())[server_id@]
                    } else {
                        initial_history()
                    },
                    now,
                    outcome,
                    old(self).settings().healthy_threshold as nat,
                    old(self).settings().unhealthy_threshold as nat,
                ),
            ),
            final(self).server_entries() == old(self).server_entries(),
            final(self).running() == old(self).running(),
            final(self).settings() == old(self).settings(),
    {
        let ghost old_states = counters_of(self.health_states@);
        let ghost old_hist = histories_of(self.health_states@);
        proof {
            self.lemma_counters_distinct();
            self.lemma_histories_distinct();
        }
        let ht = self.config.healthy_threshold;
        let ut = self.config.unhealthy_threshold;
        match find_key(&self.health_states, server_id) {
            Some(i) => {
                proof {
                    lemma_index_of(old_states, i as int);
                    lemma_index_of(old_hist, i as int);
                }
                let mut entry: (String, ServerHealthState<T>) = (
                    String::new(),
                    ServerHealthState::new(),
                );
                self.health_states.set_and_swap(i, &mut entry);
                assert(entry.1.wf());
                entry.1.apply_check(now, outcome, ht, ut);
                let ghost e = (entry.0@, entry.1.counters());
                let ghost eh = (entry.0@, entry.1.history());
                self.health_states.set(i, entry);
                proof {
                    lemma_update(old_states, i as int, e);
                    assert(counters_of(self.health_states@) =~= old_states.update(i as int, e));
                    lemma_update(old_hist, i as int, eh);
                    assert(histories_of(self.health_states@) =~= old_hist.update(i as int, eh));
                }
            },
            None => {
                proof {
                    if has_key(old_states, server_id@) {
                        let j = index_of(old_states, server_id@);
                        assert(named(self.health_states@)[j].0 == server_id@);
                    }
                    if has_key(old_hist, server_id@) {
                        let j = index_of(old_hist, server_id@);
                        assert(named(self.health_states@)[j].0 == server_id@);
                    }
                }
                let mut st: ServerHealthState<T> = ServerHealthState::new();
                st.apply_check(now, outcome, ht, ut);
                let ghost e = (server_id@, st.counters());
                let ghost eh = (server_id@, st.history());
                self.health_states.push((String::from_str(server_id), st));
                proof {
                    lemma_push(old_states, e);
                    assert(counters_of(self.health_states@) =~= old_states.push(e));
                    lemma_push(old_hist, eh);
                    assert(histories_of(self.health_states@) =~= old_hist.push(eh));
                }
            },
        }
    }
}

impl HealthStatus {
    /// The status as `{:?}` prints it.
    pub fn name(&self) -> (r: &'static str)
        ensures
            r@ == match *self {
                HealthStatus::Healthy => "Healthy"@,
                HealthStatus::Unhealthy => "Unhealthy"@,
                HealthStatus::Unknown => "Unknown"@,
            },
    {
        match self {
            HealthStatus::Healthy => "Healthy",
            HealthStatus::Unhealthy => "Unhealthy",
            HealthStatus::Unknown => "Unknown",
        }
    }
}

} // verus!
