//! Request logging (applied as the tracing layer of the middleware plan).
use vstd::prelude::*;

verus! {

/// Request logging (applied as the tracing layer of the middleware plan).
pub struct LoggingMiddleware;

impl LoggingMiddleware {
    pub fn new() -> (r: Self)
        ensures
            r == LoggingMiddleware,
    {
        LoggingMiddleware
    }
}

} // verus!
