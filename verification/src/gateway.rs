//! The bodies of the gateway's fixed HTTP endpoints: the probes
//! (`/health`, `/readiness`, `/liveness`), `/status` and the connection
//! list.
use vstd::prelude::*;

use crate::json::{JsonModel, JsonValue};
use crate::text::{decimal, decimal_text};

verus! {

/// The body of a probe endpoint: the service, its status, the time and the
/// version.
pub open spec fn probe_model(status: Seq<char>, timestamp: Seq<char>) -> JsonModel {
    JsonModel::Object(
        seq![
            ("service"@, JsonModel::Str("mcp-gateway"@)),
            ("status"@, JsonModel::Str(status)),
            ("timestamp"@, JsonModel::Str(timestamp)),
            ("version"@, JsonModel::Str(crate::VERSION@)),
        ],
    )
}

/// The body of a probe endpoint reporting `status` at `timestamp`.
pub fn probe_body(status: &str, timestamp: &str) -> (r: JsonValue)
    ensures
        r@ == probe_model(status@, timestamp@),
{
    let mut es: Vec<(String, JsonValue)> = Vec::new();
    es.push((String::from_str("service"), JsonValue::String(String::from_str("mcp-gateway"))));
    es.push((String::from_str("status"), JsonValue::String(String::from_str(status))));
    es.push((String::from_str("timestamp"), JsonValue::String(String::from_str(timestamp))));
    es.push((String::from_str("version"), JsonValue::String(String::from_str(crate::VERSION))));
    proof {
        crate::json::lemma_object_model(es);
        assert(crate::json::entries_model(es@) =~= seq![
            ("service"@, JsonModel::Str("mcp-gateway"@)),
            ("status"@, JsonModel::Str(status@)),
            ("timestamp"@, JsonModel::Str(timestamp@)),
            ("version"@, JsonModel::Str(crate::VERSION@)),
        ]);
    }
    JsonValue::Object(es)
}

/// The body of `/health`.
pub fn health_check(timestamp: &str) -> (r: JsonValue)
    ensures
        r@ == probe_model("healthy"@, timestamp@),
{
    probe_body("healthy", timestamp)
}

/// The body of `/readiness`.
pub fn readiness_check(timestamp: &str) -> (r: JsonValue)
    ensures
        r@ == probe_model("ready"@, timestamp@),
{
    probe_body("ready", timestamp)
}

/// The body of `/liveness`.
pub fn liveness_check(timestamp: &str) -> (r: JsonValue)
    ensures
        r@ == probe_model("alive"@, timestamp@),
{
    probe_body("alive", timestamp)
}

/// The body of `/status`: the version, the clock reading `now_secs` (in
/// seconds since the epoch) as the uptime, and fixed figures.
pub open spec fn status_model(now_secs: nat) -> JsonModel {
    JsonModel::Object(
        seq![
            ("active_connections"@, JsonModel::Number("0"@)),
            ("health_check_enabled"@, JsonModel::Bool(true)),
            ("healthy_upstreams"@, JsonModel::Number("0"@)),
            ("metrics_enabled"@, JsonModel::Bool(true)),
            ("upstream_servers"@, JsonModel::Number("0"@)),
            ("uptime"@, JsonModel::Number(decimal(now_secs))),
            ("version"@, JsonModel::Str(crate::VERSION@)),
        ],
    )
}

/// The body of `/status` at `now_secs`.
pub fn status_check(now_secs: u64) -> (r: JsonValue)
    ensures
        r@ == status_model(now_secs as nat),
{
    let mut es: Vec<(String, JsonValue)> = Vec::new();
    es.push((String::from_str("active_connections"), JsonValue::Number(String::from_str("0"))));
    es.push((String::from_str("health_check_enabled"), JsonValue::Bool(true)));
    es.push((String::from_str("healthy_upstreams"), JsonValue::Number(String::from_str("0"))));
    es.push((String::from_str("metrics_enabled"), JsonValue::Bool(true)));
    es.push((String::from_str("upstream_servers"), JsonValue::Number(String::from_str("0"))));
    es.push((String::from_str("uptime"), JsonValue::Number(decimal_text(now_secs))));
    es.push((String::from_str("version"), JsonValue::String(String::from_str(crate::VERSION))));
    proof {
        crate::json::lemma_object_model(es);
        assert(crate::json::entries_model(es@) =~= seq![
            ("active_connections"@, JsonModel::Number("0"@)),
            ("health_check_enabled"@, JsonModel::Bool(true)),
            ("healthy_upstreams"@, JsonModel::Number("0"@)),
            ("metrics_enabled"@, JsonModel::Bool(true)),
            ("upstream_servers"@, JsonModel::Number("0"@)),
            ("uptime"@, JsonModel::Number(decimal(now_secs as nat))),
            ("version"@, JsonModel::Str(crate::VERSION@)),
        ]);
    }
    JsonValue::Object(es)
}

/// The body of `/api/v1/connections`: an empty list.
pub open spec fn connections_model() -> JsonModel {
    JsonModel::Object(seq![("connections"@, JsonModel::Array(Seq::empty()))])
}

/// The body of `/api/v1/connections`.
pub fn list_connections() -> (r: JsonValue)
    ensures
        r@ == connections_model(),
{
    let mut es: Vec<(String, JsonValue)> = Vec::new();
    es.push((String::from_str("connections"), crate::json::empty_array()));
    proof {
        crate::json::lemma_object_model(es);
        assert(crate::json::entries_model(es@) =~= seq![("connections"@, JsonModel::Array(Seq::empty()))]);
    }
    JsonValue::Object(es)
}

} // verus!
