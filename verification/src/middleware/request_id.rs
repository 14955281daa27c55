//! Request ids (applied as the request-id layers of the middleware plan).
use vstd::prelude::*;

verus! {

/// Request ids (applied as the request-id layers of the middleware plan).
pub struct RequestIdMiddleware;

impl RequestIdMiddleware {
    pub fn new() -> (r: Self)
        ensures
            r == RequestIdMiddleware,
    {
        RequestIdMiddleware
    }
}

} // verus!
