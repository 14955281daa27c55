//! Metrics: the catalogue of Prometheus metrics the gateway exports, and
//! the per-server bookkeeping of health checks and requests. Registering
//! and exporting the Prometheus metrics is left to the embedding
//! application, which builds them from the catalogue.
use vstd::prelude::*;

use crate::config::{default_bucket_bits, strings, MetricsConfig};
use crate::table::str_eq;

verus! {

/// The kind of a Prometheus metric.
#[derive(Debug, Clone, Copy, PartialEq, Eq, Structural)]
pub enum MetricKind {
    IntCounter,
    IntCounterVec,
    IntGauge,
    IntGaugeVec,
    Gauge,
    HistogramVec,
}

/// A metric of the catalogue: name, help text, kind and label names.
#[derive(Debug)]
pub struct MetricSpec {
    pub name: String,
    pub help: String,
    pub kind: MetricKind,
    pub labels: Vec<String>,
}

/// The metrics the gateway registers, in order.
pub open spec fn catalog() -> Seq<(Seq<char>, Seq<char>, MetricKind, Seq<Seq<char>>)> {
    seq![
        ("mcp_gateway_requests_total"@, "Total number of requests processed by the gateway"@, MetricKind::IntCounterVec, seq!["method"@, "status"@, "route"@]),
        ("mcp_gateway_request_duration_seconds"@, "Time spent processing requests"@, MetricKind::HistogramVec, seq!["method"@, "route"@]),
        ("mcp_gateway_requests_in_flight"@, "Number of requests currently being processed"@, MetricKind::IntGaugeVec, seq!["method"@, "route"@]),
        ("mcp_gateway_connections_active"@, "Number of active client connections"@, MetricKind::IntGauge, Seq::empty()),
        ("mcp_gateway_connections_total"@, "Total number of client connections"@, MetricKind::IntCounter, Seq::empty()),
        ("mcp_gateway_upstream_requests_total"@, "Total number of requests sent to upstream servers"@, MetricKind::IntCounterVec, seq!["server_id"@, "method"@, "status"@]),
        ("mcp_gateway_upstream_request_duration_seconds"@, "Time spent on upstream requests"@, MetricKind::HistogramVec, seq!["server_id"@, "method"@]),
        ("mcp_gateway_upstream_health_checks_total"@, "Total number of health checks performed on upstream servers"@, MetricKind::IntCounterVec, seq!["server_id"@, "status"@]),
        ("mcp_gateway_upstream_servers_healthy"@, "Number of healthy upstream servers by group"@, MetricKind::IntGaugeVec, seq!["group"@]),
        ("mcp_gateway_uptime_seconds"@, "Time since the gateway started"@, MetricKind::Gauge, Seq::empty()),
        ("mcp_gateway_info"@, "Gateway information"@, MetricKind::IntGaugeVec, seq!["version"@, "environment"@]),
        ("mcp_gateway_circuit_breaker_state"@, "Circuit breaker state (0=closed, 1=open, 2=half-open)"@, MetricKind::IntGaugeVec, seq!["server_id"@]),
        ("mcp_gateway_circuit_breaker_trips_total"@, "Total number of circuit breaker trips"@, MetricKind::IntCounterVec, seq!["server_id"@]),
        ("mcp_gateway_rate_limit_requests_total"@, "Total number of rate limit checks"@, MetricKind::IntCounterVec, seq!["key_type"@]),
        ("mcp_gateway_rate_limit_rejected_total"@, "Total number of rate limited requests"@, MetricKind::IntCounterVec, seq!["key_type"@]),
        ("mcp_gateway_cache_hits_total"@, "Total number of cache hits"@, MetricKind::IntCounterVec, seq!["cache_type"@]),
        ("mcp_gateway_cache_misses_total"@, "Total number of cache misses"@, MetricKind::IntCounterVec, seq!["cache_type"@]),
        ("mcp_gateway_cache_size"@, "Current cache size"@, MetricKind::IntGaugeVec, seq!["cache_type"@]),
    ]
}

/// A metric spec as plain values.
pub open spec fn spec_model(m: MetricSpec) -> (Seq<char>, Seq<char>, MetricKind, Seq<Seq<char>>) {
    (m.name@, m.help@, m.kind, strings(m.labels@))
}

fn metric(name: &str, help: &str, kind: MetricKind, label_names: Vec<String>) -> (r: MetricSpec)
    ensures
        spec_model(r) == (name@, help@, kind, strings(label_names@)),
{
    MetricSpec { name: String::from_str(name), help: String::from_str(help), kind, labels: label_names }
}

fn no_labels() -> (r: Vec<String>)
    ensures
        strings(r@) == Seq::<Seq<char>>::empty(),
{
    let v: Vec<String> = Vec::new();
    assert(strings(v@) =~= Seq::<Seq<char>>::empty());
    v
}

fn one_label(a: &str) -> (r: Vec<String>)
    ensures
        strings(r@) == seq![a@],
{
    let mut v: Vec<String> = Vec::new();
    v.push(String::from_str(a));
    assert(strings(v@) =~= seq![a@]);
    v
}

fn two_labels(a: &str, b: &str) -> (r: Vec<String>)
    ensures
        strings(r@) == seq![a@, b@],
{
    let mut v: Vec<String> = Vec::new();
    v.push(String::from_str(a));
    v.push(String::from_str(b));
    assert(strings(v@) =~= seq![a@, b@]);
    v
}

fn three_labels(a: &str, b: &str, c: &str) -> (r: Vec<String>)
    ensures
        strings(r@) == seq![a@, b@, c@],
{
    let mut v: Vec<String> = Vec::new();
    v.push(String::from_str(a));
    v.push(String::from_str(b));
    v.push(String::from_str(c));
    assert(strings(v@) =~= seq![a@, b@, c@]);
    v
}

/// The metrics the gateway registers (see `catalog`).
pub fn metric_catalog() -> (r: Vec<MetricSpec>)
    ensures
        r@.map_values(|m: MetricSpec| spec_model(m)) == catalog(),
{
    let mut v: Vec<MetricSpec> = Vec::new();
    v.push(metric("mcp_gateway_requests_total", "Total number of requests processed by the gateway", MetricKind::IntCounterVec, three_labels("method", "status", "route")));
    v.push(metric("mcp_gateway_request_duration_seconds", "Time spent processing requests", MetricKind::HistogramVec, two_labels("method", "route")));
    v.push(metric("mcp_gateway_requests_in_flight", "Number of requests currently being processed", MetricKind::IntGaugeVec, two_labels("method", "route")));
    v.push(metric("mcp_gateway_connections_active", "Number of active client connections", MetricKind::IntGauge, no_labels()));
    v.push(metric("mcp_gateway_connections_total", "Total number of client connections", MetricKind::IntCounter, no_labels()));
    v.push(metric("mcp_gateway_upstream_requests_total", "Total number of requests sent to upstream servers", MetricKind::IntCounterVec, three_labels("server_id", "method", "status")));
    v.push(metric("mcp_gateway_upstream_request_duration_seconds", "Time spent on upstream requests", MetricKind::HistogramVec, two_labels("server_id", "method")));
    v.push(metric("mcp_gateway_upstream_health_checks_total", "Total number of health checks performed on upstream servers", MetricKind::IntCounterVec, two_labels("server_id", "status")));
    v.push(metric("mcp_gateway_upstream_servers_healthy", "Number of healthy upstream servers by group", MetricKind::IntGaugeVec, one_label("group")));
    v.push(metric("mcp_gateway_uptime_seconds", "Time since the gateway started", MetricKind::Gauge, no_labels()));
    v.push(metric("mcp_gateway_info", "Gateway information", MetricKind::IntGaugeVec, two_labels("version", "environment")));
    v.push(metric("mcp_gateway_circuit_breaker_state", "Circuit breaker state (0=closed, 1=open, 2=half-open)", MetricKind::IntGaugeVec, one_label("server_id")));
    v.push(metric("mcp_gateway_circuit_breaker_trips_total", "Total number of circuit breaker trips", MetricKind::IntCounterVec, one_label("server_id")));
    v.push(metric("mcp_gateway_rate_limit_requests_total", "Total number of rate limit checks", MetricKind::IntCounterVec, one_label("key_type")));
    v.push(metric("mcp_gateway_rate_limit_rejected_total", "Total number of rate limited requests", MetricKind::IntCounterVec, one_label("key_type")));
    v.push(metric("mcp_gateway_cache_hits_total", "Total number of cache hits", MetricKind::IntCounterVec, one_label("cache_type")));
    v.push(metric("mcp_gateway_cache_misses_total", "Total number of cache misses", MetricKind::IntCounterVec, one_label("cache_type")));
    v.push(metric("mcp_gateway_cache_size", "Current cache size", MetricKind::IntGaugeVec, one_label("cache_type")));
    assert(v@.map_values(|m: MetricSpec| spec_model(m)) =~= catalog());
    v
}

/// The bounds of the duration histograms, as `f64` bit patterns: the
/// configured ones, else the defaults.
pub fn histogram_buckets(config: &MetricsConfig) -> (r: Vec<u64>)
    ensures
        r@ == match config.histogram_bucket_bits {
            Some(b) => b@,
            None => default_bucket_bits(),
        },
{
    match &config.histogram_bucket_bits {
        Some(b) => {
            let mut out: Vec<u64> = Vec::new();
            let mut i: usize = 0;
            while i < b.len()
                invariant
                    i <= b@.len(),
                    out@ == b@.subrange(0, i as int),
                decreases b@.len() - i,
            {
                out.push(b[i]);
                assert(out@ =~= b@.subrange(0, i + 1));
                i = i + 1;
            }
            assert(b@.subrange(0, b@.len() as int) =~= b@);
            out
        },
        None => {
            let mut out: Vec<u64> = Vec::new();
            out.push(0x3f50624dd2f1a9fc);
            out.push(0x3f747ae147ae147b);
            out.push(0x3f847ae147ae147b);
            out.push(0x3f9999999999999a);
            out.push(0x3fa999999999999a);
            out.push(0x3fb999999999999a);
            out.push(0x3fd0000000000000);
            out.push(0x3fe0000000000000);
            out.push(0x3ff0000000000000);
            out.push(0x4004000000000000);
            out.push(0x4014000000000000);
            out.push(0x4024000000000000);
            assert(out@ =~= default_bucket_bits());
            out
        },
    }
}

/// What is recorded of one upstream server. The average response time is
/// kept as the bit pattern of an `f64` number of milliseconds.
#[derive(Debug, Clone)]
pub struct ServerMetrics {
    pub server_id: String,
    pub requests_total: u64,
    pub requests_success: u64,
    pub requests_failed: u64,
    pub average_response_time_ms_bits: u64,
    pub connections_active: u64,
    pub health_checks_total: u64,
    pub health_checks_success: u64,
    pub last_health_check: Option<u64>,
}

/// The record of a server that nothing has been recorded of yet.
pub open spec fn fresh_metrics(m: ServerMetrics, server_id: Seq<char>) -> bool {
    &&& m.server_id@ == server_id
    &&& m.requests_total == 0
    &&& m.requests_success == 0
    &&& m.requests_failed == 0
    &&& m.average_response_time_ms_bits == 0
    &&& m.connections_active == 0
    &&& m.health_checks_total == 0
    &&& m.health_checks_success == 0
    &&& m.last_health_check is None
}

/// The position of the record of `server_id`, looking from `i` on.
pub open spec fn record_from(s: Seq<ServerMetrics>, server_id: Seq<char>, i: int) -> Option<int>
    decreases s.len() - i,
{
    if i < 0 || i >= s.len() {
        None
    } else if s[i].server_id@ == server_id {
        Some(i)
    } else {
        record_from(s, server_id, i + 1)
    }
}

/// The position of the record of `server_id`.
pub open spec fn record_index(s: Seq<ServerMetrics>, server_id: Seq<char>) -> Option<int> {
    record_from(s, server_id, 0)
}

proof fn lemma_record_from(s: Seq<ServerMetrics>, id: Seq<char>, i: int)
    requires
        0 <= i,
    ensures
        record_from(s, id, i) matches Some(k) ==> i <= k < s.len() && s[k].server_id@ == id,
        record_from(s, id, i) is None ==> forall|j: int| i <= j < s.len() ==> s[j].server_id@ != id,
    decreases s.len() - i,
{
    if i < s.len() && s[i].server_id@ != id {
        lemma_record_from(s, id, i + 1);
    }
}

/// The records are well formed: one per server, and no server has more
/// successful health checks than health checks.
pub open spec fn records_wf(s: Seq<ServerMetrics>) -> bool {
    &&& forall|i: int, j: int|
        0 <= i < s.len() && 0 <= j < s.len() && i != j ==> #[trigger] s[i].server_id@ != #[trigger] s[j].server_id@
    &&& forall|i: int| 0 <= i < s.len() ==> #[trigger] s[i].health_checks_success <= s[i].health_checks_total
}

/// The health-check counters of `server_id` in the records, `(0, 0)` when
/// there is no record.
pub open spec fn check_counts(s: Seq<ServerMetrics>, server_id: Seq<char>) -> (u64, u64) {
    match record_index(s, server_id) {
        Some(k) => (s[k].health_checks_total, s[k].health_checks_success),
        None => (0, 0),
    }
}

/// The request figures of `server_id` in the records (requests, successes,
/// failures, average response time, active connections), all zero when
/// there is no record.
pub open spec fn request_figures(s: Seq<ServerMetrics>, server_id: Seq<char>) -> (u64, u64, u64, u64, u64) {
    match record_index(s, server_id) {
        Some(k) => (
            s[k].requests_total,
            s[k].requests_success,
            s[k].requests_failed,
            s[k].average_response_time_ms_bits,
            s[k].connections_active,
        ),
        None => (0, 0, 0, 0, 0),
    }
}

/// Totals over all servers.
#[derive(Debug, Clone, Copy)]
pub struct GatewayTotals {
    pub total_requests: u64,
    pub total_successes: u64,
    pub total_failures: u64,
    pub upstream_servers: u64,
}

/// A request counter of a record.
pub ghost enum RequestCounter {
    Total,
    Success,
    Failed,
}

/// The value of a request counter in a record.
pub open spec fn counter(m: ServerMetrics, c: RequestCounter) -> u64 {
    match c {
        RequestCounter::Total => m.requests_total,
        RequestCounter::Success => m.requests_success,
        RequestCounter::Failed => m.requests_failed,
    }
}

/// The sum of a request counter over the records.
pub open spec fn sum_of(s: Seq<ServerMetrics>, c: RequestCounter) -> int
    decreases s.len(),
{
    if s.len() == 0 {
        0
    } else {
        sum_of(s.drop_last(), c) + counter(s.last(), c)
    }
}

proof fn lemma_sum_prefix(s: Seq<ServerMetrics>, c: RequestCounter, i: int)
    requires
        0 <= i < s.len(),
    ensures
        sum_of(s.subrange(0, i + 1), c) == sum_of(s.subrange(0, i), c) + counter(s[i], c),
{
    assert(s.subrange(0, i + 1).drop_last() =~= s.subrange(0, i));
}

proof fn lemma_sum_monotone(s: Seq<ServerMetrics>, c: RequestCounter, i: int)
    requires
        0 <= i <= s.len(),
    ensures
        sum_of(s.subrange(0, i), c) <= sum_of(s, c),
    decreases s.len() - i,
{
    if i < s.len() {
        lemma_sum_monotone(s, c, i + 1);
        lemma_sum_prefix(s, c, i);
    } else {
        assert(s.subrange(0, i) =~= s);
    }
}

/// The metrics recorded per upstream server, in the order the servers were
/// first seen.
pub struct MetricsState {
    server_metrics: Vec<ServerMetrics>,
}

impl MetricsState {
    pub closed spec fn records(&self) -> Seq<ServerMetrics> {
        self.server_metrics@
    }

    pub open spec fn wf(&self) -> bool {
        records_wf(self.records())
    }

    pub fn new() -> (r: Self)
        ensures
            r.wf(),
            r.records().len() == 0,
    {
        MetricsState { server_metrics: Vec::new() }
    }

    fn find(&self, server_id: &str) -> (r: Option<usize>)
        ensures
            match record_index(self.records(), server_id@) {
                Some(k) => r matches Some(u) && u as int == k,
                None => r is None,
            },
            r matches Some(u) ==> u < self.records().len(),
    {
        proof {
            lemma_record_from(self.server_metrics@, server_id@, 0);
        }
        let mut i: usize = 0;
        while i < self.server_metrics.len()
            invariant
                i <= self.server_metrics@.len(),
                record_index(self.server_metrics@, server_id@) == record_from(
                    self.server_metrics@,
                    server_id@,
                    i as int,
                ),
            decreases self.server_metrics@.len() - i,
        {
            if str_eq(self.server_metrics[i].server_id.as_str(), server_id) {
                return Some(i);
            }
            i = i + 1;
        }
        None
    }

    /// The position of the record of `server_id`, made when missing.
    fn entry(&mut self, server_id: &str) -> (r: usize)
        requires
            old(self).wf(),
        ensures
            final(self).wf(),
            r < final(self).records().len(),
            final(self).records()[r as int].server_id@ == server_id@,
            record_index(final(self).records(), server_id@) == Some(r as int),
            match record_index(old(self).records(), server_id@) {
                Some(k) => final(self).records() == old(self).records() && k == r,
                None => final(self).records().len() == old(self).records().len() + 1
                    && final(self).records().drop_last() == old(self).records() && fresh_metrics(
                    final(self).records().last(),
                    server_id@,
                ) && r == old(self).records().len(),
            },
    {
        let ghost before = self.server_metrics@;
        proof {
            lemma_record_from(before, server_id@, 0);
        }
        match self.find(server_id) {
            Some(k) => k,
            None => {
                self.server_metrics.push(
                    ServerMetrics {
                        server_id: String::from_str(server_id),
                        requests_total: 0,
                        requests_success: 0,
                        requests_failed: 0,
                        average_response_time_ms_bits: 0,
                        connections_active: 0,
                        health_checks_total: 0,
                        health_checks_success: 0,
                        last_health_check: None,
                    },
                );
                let n = self.server_metrics.len() - 1;
                proof {
                    let after = self.server_metrics@;
                    assert(after.drop_last() =~= before);
                    assert forall|i: int, j: int|
                        0 <= i < after.len() && 0 <= j < after.len() && i != j implies #[trigger] after[i].server_id@
                            != #[trigger] after[j].server_id@ by {
                        if i < before.len() && j < before.len() {
                            assert(before[i].server_id@ != before[j].server_id@);
                        }
                    }
                    assert forall|i: int| 0 <= i < after.len() implies #[trigger] after[i].health_checks_success
                        <= after[i].health_checks_total by {
                        if i < before.len() {
                            assert(before[i].health_checks_success <= before[i].health_checks_total);
                        }
                    }
                    lemma_record_from(after, server_id@, 0);
                    if let Some(k) = record_index(after, server_id@) {
                        if k != n as int {
                            assert(after[k].server_id@ != after[n as int].server_id@);
                        }
                    }
                }
                n
            },
        }
    }

    /// Records a successful health check of `server_id` at `now` (seconds
    /// since the epoch).
    pub fn record_health_check_success(&mut self, server_id: &str, now: u64)
        requires
            old(self).wf(),
            check_counts(old(self).records(), server_id@).0 < u64::MAX,
        ensures
            final(self).wf(),
            check_counts(final(self).records(), server_id@) == (
                (check_counts(old(self).records(), server_id@).0 + 1) as u64,
                (check_counts(old(self).records(), server_id@).1 + 1) as u64,
            ),
            ({
                let k = record_index(final(self).records(), server_id@)->0;
                &&& record_index(final(self).records(), server_id@) is Some
                &&& final(self).records()[k].last_health_check == Some(now)
            }),
            forall|other: Seq<char>|
                other != server_id@ ==> #[trigger] check_counts(final(self).records(), other) == check_counts(
                    old(self).records(),
                    other,
                ),
            forall|any: Seq<char>|
                #[trigger] request_figures(final(self).records(), any) == request_figures(old(self).records(), any),
    {
        let ghost before = self.server_metrics@;
        let k = self.entry(server_id);
        let ghost mid = self.server_metrics@;
        let m = ServerMetrics {
            server_id: self.server_metrics[k].server_id.clone(),
            requests_total: self.server_metrics[k].requests_total,
            requests_success: self.server_metrics[k].requests_success,
            requests_failed: self.server_metrics[k].requests_failed,
            average_response_time_ms_bits: self.server_metrics[k].average_response_time_ms_bits,
            connections_active: self.server_metrics[k].connections_active,
            health_checks_total: self.server_metrics[k].health_checks_total + 1,
            health_checks_success: self.server_metrics[k].health_checks_success + 1,
            last_health_check: Some(now),
        };
        self.server_metrics.set(k, m);
        proof {
            self.lemma_after_update(before, mid, k as int, server_id@);
        }
    }

    /// Records a failed health check of `server_id` at `now` (seconds since
    /// the epoch).
    pub fn record_health_check_failure(&mut self, server_id: &str, now: u64)
        requires
            old(self).wf(),
            check_counts(old(self).records(), server_id@).0 < u64::MAX,
        ensures
            final(self).wf(),
            check_counts(final(self).records(), server_id@) == (
                (check_counts(old(self).records(), server_id@).0 + 1) as u64,
                check_counts(old(self).records(), server_id@).1,
            ),
            ({
                let k = record_index(final(self).records(), server_id@)->0;
                &&& record_index(final(self).records(), server_id@) is Some
                &&& final(self).records()[k].last_health_check == Some(now)
            }),
            forall|other: Seq<char>|
                other != server_id@ ==> #[trigger] check_counts(final(self).records(), other) == check_counts(
                    old(self).records(),
                    other,
                ),
            forall|any: Seq<char>|
                #[trigger] request_figures(final(self).records(), any) == request_figures(old(self).records(), any),
    {
        let ghost before = self.server_metrics@;
        let k = self.entry(server_id);
        let ghost mid = self.server_metrics@;
        let m = ServerMetrics {
            server_id: self.server_metrics[k].server_id.clone(),
            requests_total: self.server_metrics[k].requests_total,
            requests_success: self.server_metrics[k].requests_success,
            requests_failed: self.server_metrics[k].requests_failed,
            average_response_time_ms_bits: self.server_metrics[k].average_response_time_ms_bits,
            connections_active: self.server_metrics[k].connections_active,
            health_checks_total: self.server_metrics[k].health_checks_total + 1,
            health_checks_success: self.server_metrics[k].health_checks_success,
            last_health_check: Some(now),
        };
        self.server_metrics.set(k, m);
        proof {
            self.lemma_after_update(before, mid, k as int, server_id@);
        }
    }

    proof fn lemma_after_update(
        &self,
        before: Seq<ServerMetrics>,
        mid: Seq<ServerMetrics>,
        k: int,
        server_id: Seq<char>,
    )
        requires
            records_wf(mid),
            0 <= k < mid.len(),
            mid[k].server_id@ == server_id,
            self.records().len() == mid.len(),
            self.records()[k].server_id@ == server_id,
            self.records()[k].health_checks_success <= self.records()[k].health_checks_total,
            forall|j: int| 0 <= j < mid.len() && j != k ==> #[trigger] self.records()[j] == mid[j],
            record_index(before, server_id) is Some ==> mid == before,
            record_index(before, server_id) is None ==> mid.drop_last() == before && k == before.len()
                && fresh_metrics(mid[k], server_id),
            self.records()[k].requests_total == mid[k].requests_total,
            self.records()[k].requests_success == mid[k].requests_success,
            self.records()[k].requests_failed == mid[k].requests_failed,
            self.records()[k].average_response_time_ms_bits == mid[k].average_response_time_ms_bits,
            self.records()[k].connections_active == mid[k].connections_active,
        ensures
            records_wf(self.records()),
            record_index(self.records(), server_id) == Some(k),
            check_counts(mid, server_id) == check_counts(before, server_id),
            forall|other: Seq<char>|
                other != server_id ==> #[trigger] check_counts(self.records(), other) == check_counts(
                    before,
                    other,
                ),
            forall|any: Seq<char>|
                #[trigger] request_figures(self.records(), any) == request_figures(before, any),
    {
        let after = self.records();
        assert forall|i: int, j: int|
            0 <= i < after.len() && 0 <= j < after.len() && i != j implies #[trigger] after[i].server_id@
                != #[trigger] after[j].server_id@ by {
            assert(mid[i].server_id@ != mid[j].server_id@);
        }
        assert forall|i: int| 0 <= i < after.len() implies #[trigger] after[i].health_checks_success
            <= after[i].health_checks_total by {
            if i != k {
                assert(mid[i].health_checks_success <= mid[i].health_checks_total);
            }
        }
        lemma_record_from(after, server_id, 0);
        lemma_record_from(mid, server_id, 0);
        lemma_record_from(before, server_id, 0);
        if let Some(j) = record_index(after, server_id) {
            if j != k {
                assert(after[j].server_id@ != after[k].server_id@);
            }
        }
        if let Some(j) = record_index(mid, server_id) {
            if j != k {
                assert(mid[j].server_id@ != mid[k].server_id@);
            }
        }
        assert forall|other: Seq<char>| other != server_id implies #[trigger] record_index(after, other)
            == record_index(before, other) && (record_index(before, other) matches Some(c) ==> after[c]
            == before[c]) by {
            lemma_record_from(after, other, 0);
            lemma_record_from(mid, other, 0);
            lemma_record_from(before, other, 0);
            if let Some(a) = record_index(after, other) {
                assert(a != k);
                assert(after[a] == mid[a]);
                if let Some(b) = record_index(mid, other) {
                    if a != b {
                        assert(mid[a].server_id@ != mid[b].server_id@);
                    }
                }
                if record_index(before, other) is None {
                    if record_index(before, server_id) is Some {
                        assert(mid == before);
                    } else {
                        assert(before[a] == mid[a]);
                    }
                }
            } else {
                if let Some(b) = record_index(mid, other) {
                    assert(b != k);
                    assert(after[b] == mid[b]);
                }
            }
            if let Some(c) = record_index(before, other) {
                if record_index(before, server_id) is None {
                    assert(mid[c] == before[c]);
                }
                assert(mid[c].server_id@ == other);
                if let Some(b) = record_index(mid, other) {
                    if b != c {
                        assert(mid[b].server_id@ != mid[c].server_id@);
                    }
                }
                assert(c != k);
                assert(after[c] == mid[c]);
            }
        }
        assert forall|other: Seq<char>| other != server_id implies #[trigger] check_counts(after, other)
            == check_counts(before, other) by {
            assert(record_index(after, other) == record_index(before, other));
        }
        assert forall|any: Seq<char>| #[trigger] request_figures(after, any) == request_figures(before, any) by {
            if any != server_id {
                assert(record_index(after, any) == record_index(before, any));
            } else if let Some(c) = record_index(before, server_id) {
                assert(mid == before);
                assert(c == k);
            }
        }
    }

    /// The record of `server_id`, if any.
    pub fn get_server_metrics(&self, server_id: &str) -> (r: Option<ServerMetrics>)
        ensures
            match record_index(self.records(), server_id@) {
                Some(k) => r == Some(self.records()[k]),
                None => r is None,
            },
    {
        proof {
            lemma_record_from(self.server_metrics@, server_id@, 0);
        }
        match self.find(server_id) {
            Some(k) => {
                let m = &self.server_metrics[k];
                Some(
                    ServerMetrics {
                        server_id: m.server_id.clone(),
                        requests_total: m.requests_total,
                        requests_success: m.requests_success,
                        requests_failed: m.requests_failed,
                        average_response_time_ms_bits: m.average_response_time_ms_bits,
                        connections_active: m.connections_active,
                        health_checks_total: m.health_checks_total,
                        health_checks_success: m.health_checks_success,
                        last_health_check: m.last_health_check,
                    },
                )
            },
            None => None,
        }
    }

    /// All records, in order.
    pub fn get_all_server_metrics(&self) -> (r: Vec<ServerMetrics>)
        ensures
            r@.len() == self.records().len(),
            forall|i: int| 0 <= i < r@.len() ==> #[trigger] r@[i] == self.records()[i],
    {
        let mut out: Vec<ServerMetrics> = Vec::new();
        let mut i: usize = 0;
        while i < self.server_metrics.len()
            invariant
                i <= self.server_metrics@.len(),
                out@.len() == i,
                forall|j: int| 0 <= j < i ==> #[trigger] out@[j] == self.server_metrics@[j],
            decreases self.server_metrics@.len() - i,
        {
            let m = &self.server_metrics[i];
            out.push(
                ServerMetrics {
                    server_id: m.server_id.clone(),
                    requests_total: m.requests_total,
                    requests_success: m.requests_success,
                    requests_failed: m.requests_failed,
                    average_response_time_ms_bits: m.average_response_time_ms_bits,
                    connections_active: m.connections_active,
                    health_checks_total: m.health_checks_total,
                    health_checks_success: m.health_checks_success,
                    last_health_check: m.last_health_check,
                },
            );
            i = i + 1;
        }
        out
    }

    /// Totals over all servers: requests, successes and failures, and the
    /// number of servers.
    pub fn gateway_totals(&self) -> (r: GatewayTotals)
        requires
            sum_of(self.records(), RequestCounter::Total) <= u64::MAX,
            sum_of(self.records(), RequestCounter::Success) <= u64::MAX,
            sum_of(self.records(), RequestCounter::Failed) <= u64::MAX,
        ensures
            r.total_requests == sum_of(self.records(), RequestCounter::Total),
            r.total_successes == sum_of(self.records(), RequestCounter::Success),
            r.total_failures == sum_of(self.records(), RequestCounter::Failed),
            r.upstream_servers == self.records().len(),
    {
        let ghost s = self.server_metrics@;
        let mut t: u64 = 0;
        let mut ok: u64 = 0;
        let mut bad: u64 = 0;
        let mut i: usize = 0;
        while i < self.server_metrics.len()
            invariant
                s == self.server_metrics@,
                i <= s.len(),
                t == sum_of(s.subrange(0, i as int), RequestCounter::Total),
                ok == sum_of(s.subrange(0, i as int), RequestCounter::Success),
                bad == sum_of(s.subrange(0, i as int), RequestCounter::Failed),
                sum_of(s, RequestCounter::Total) <= u64::MAX,
                sum_of(s, RequestCounter::Success) <= u64::MAX,
                sum_of(s, RequestCounter::Failed) <= u64::MAX,
            decreases s.len() - i,
        {
            proof {
                lemma_sum_prefix(s, RequestCounter::Total, i as int);
                lemma_sum_prefix(s, RequestCounter::Success, i as int);
                lemma_sum_prefix(s, RequestCounter::Failed, i as int);
                lemma_sum_monotone(s, RequestCounter::Total, i + 1);
                lemma_sum_monotone(s, RequestCounter::Success, i + 1);
                lemma_sum_monotone(s, RequestCounter::Failed, i + 1);
            }
            t = t + self.server_metrics[i].requests_total;
            ok = ok + self.server_metrics[i].requests_success;
            bad = bad + self.server_metrics[i].requests_failed;
            i = i + 1;
        }
        proof {
            assert(s.subrange(0, s.len() as int) =~= s);
        }
        GatewayTotals {
            total_requests: t,
            total_successes: ok,
            total_failures: bad,
            upstream_servers: self.server_metrics.len() as u64,
        }
    }

    /// Forgets every record.
    pub fn reset_metrics(&mut self)
        ensures
            final(self).wf(),
            final(self).records().len() == 0,
    {
        self.server_metrics = Vec::new();
    }
}

/// In well-formed records no server has more successful health checks than
/// health checks; both recording functions keep records well formed.
pub proof fn law_successes_within_checks(s: Seq<ServerMetrics>, server_id: Seq<char>)
    requires
        records_wf(s),
    ensures
        check_counts(s, server_id).1 <= check_counts(s, server_id).0,
{
    lemma_record_from(s, server_id, 0);
}

} // verus!
