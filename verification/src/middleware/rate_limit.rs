//! Rate limiting of requests.
use vstd::prelude::*;

verus! {

/// Rate limiting of requests.
pub struct RateLimitMiddleware;

impl RateLimitMiddleware {
    pub fn new() -> (r: Self)
        ensures
            r == RateLimitMiddleware,
    {
        RateLimitMiddleware
    }
}

} // verus!
