//! Request middleware: authentication, and the plan of layers that wrap the
//! gateway's routes.
use vstd::prelude::*;

pub mod auth;
pub mod compression;
pub mod cors;
pub mod logging;
pub mod rate_limit;
pub mod request_id;
pub mod timeout;
pub mod transform;

use crate::config::MiddlewareConfig;

verus! {

/// One layer around the gateway's routes, outermost first.
#[derive(Debug, Clone, Copy, PartialEq, Eq, Structural)]
pub enum MiddlewareLayer {
    /// Gives each request an `x-request-id` header when it has none.
    SetRequestId,
    /// Copies the request's `x-request-id` onto its response.
    PropagateRequestId,
    /// Ends requests that take longer than this many seconds.
    Timeout(u64),
    /// Compresses responses.
    Compression,
    /// Traces each request and its response.
    Trace,
}

/// The layers a middleware configuration asks for, outermost first: the
/// request-id pair when request ids are on, a timeout when a request
/// timeout is set, compression when it is on, and tracing always.
pub open spec fn layer_plan(cfg: MiddlewareConfig) -> Seq<MiddlewareLayer> {
    (if cfg.request_id.enabled {
        seq![MiddlewareLayer::SetRequestId, MiddlewareLayer::PropagateRequestId]
    } else {
        Seq::empty()
    }) + (match cfg.timeout.request {
        Some(t) => seq![MiddlewareLayer::Timeout(t)],
        None => Seq::empty(),
    }) + (if cfg.compression.enabled {
        seq![MiddlewareLayer::Compression]
    } else {
        Seq::empty()
    }) + seq![MiddlewareLayer::Trace]
}

/// The middleware stack of a configuration.
pub struct MiddlewareStack {
    pub config: MiddlewareConfig,
}

impl MiddlewareStack {
    pub fn new(config: &MiddlewareConfig) -> (r: Self)
        ensures
            crate::config::same_middleware(r.config, *config),
    {
        MiddlewareStack { config: config.copy() }
    }

    /// The layers to wrap the routes in (see `layer_plan`).
    pub fn apply(&self) -> (r: Vec<MiddlewareLayer>)
        ensures
            r@ == layer_plan(self.config),
    {
        let mut layers: Vec<MiddlewareLayer> = Vec::new();
        let ghost a = if self.config.request_id.enabled {
            seq![MiddlewareLayer::SetRequestId, MiddlewareLayer::PropagateRequestId]
        } else {
            Seq::empty()
        };
        if self.config.request_id.enabled {
            layers.push(MiddlewareLayer::SetRequestId);
            layers.push(MiddlewareLayer::PropagateRequestId);
        }
        assert(layers@ =~= a);
        let ghost b = match self.config.timeout.request {
            Some(t) => seq![MiddlewareLayer::Timeout(t)],
            None => Seq::empty(),
        };
        match self.config.timeout.request {
            Some(t) => layers.push(MiddlewareLayer::Timeout(t)),
            None => {},
        }
        assert(layers@ =~= a + b);
        let ghost c = if self.config.compression.enabled {
            seq![MiddlewareLayer::Compression]
        } else {
            Seq::empty()
        };
        if self.config.compression.enabled {
            layers.push(MiddlewareLayer::Compression);
        }
        assert(layers@ =~= a + b + c);
        layers.push(MiddlewareLayer::Trace);
        assert(layers@ =~= layer_plan(self.config));
        layers
    }

    /// Whether the authentication layer is added. The middleware settings
    /// hold no switch of their own for authentication: the layer is added
    /// exactly when the request-id setting is on, and left out otherwise.
    pub fn with_auth(&self) -> (r: bool)
        ensures
            r == self.config.request_id.enabled,
    {
        self.config.request_id.enabled
    }
}

/// The security headers added to every response, in order.
pub open spec fn security_header_list() -> Seq<(Seq<char>, Seq<char>)> {
    seq![
        ("X-Content-Type-Options"@, "nosniff"@),
        ("X-Frame-Options"@, "DENY"@),
        ("X-XSS-Protection"@, "1; mode=block"@),
        ("Referrer-Policy"@, "strict-origin-when-cross-origin"@),
    ]
}

/// The security headers added to every response.
pub fn security_headers() -> (r: Vec<(String, String)>)
    ensures
        crate::table::named(r@).map_values(|e: (Seq<char>, String)| (e.0, e.1@))
            == security_header_list(),
{
    let mut v: Vec<(String, String)> = Vec::new();
    v.push((String::from_str("X-Content-Type-Options"), String::from_str("nosniff")));
    v.push((String::from_str("X-Frame-Options"), String::from_str("DENY")));
    v.push((String::from_str("X-XSS-Protection"), String::from_str("1; mode=block")));
    v.push((String::from_str("Referrer-Policy"), String::from_str("strict-origin-when-cross-origin")));
    assert(crate::table::named(v@).map_values(|e: (Seq<char>, String)| (e.0, e.1@))
        =~= security_header_list());
    v
}

/// A fresh request id: a random UUID.
pub fn make_request_id() -> (r: String)
    ensures
        crate::mcp::is_uuid_v4_text(r@),
{
    crate::mcp::new_uuid_v4_string()
}

/// Every plan ends with the tracing layer, and has at most five layers.
pub proof fn law_plan_ends_with_tracing(cfg: MiddlewareConfig)
    ensures
        layer_plan(cfg).len() >= 1,
        layer_plan(cfg).len() <= 5,
        layer_plan(cfg).last() == MiddlewareLayer::Trace,
{
}

} // verus!
