//! Request timeouts (applied as the timeout layer of the middleware plan).
use vstd::prelude::*;

verus! {

/// Request timeouts (applied as the timeout layer of the middleware plan).
pub struct TimeoutMiddleware;

impl TimeoutMiddleware {
    pub fn new() -> (r: Self)
        ensures
            r == TimeoutMiddleware,
    {
        TimeoutMiddleware
    }
}

} // verus!
