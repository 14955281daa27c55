//! Request and response transformation.
use vstd::prelude::*;

verus! {

/// Request and response transformation.
pub struct TransformMiddleware;

impl TransformMiddleware {
    pub fn new() -> (r: Self)
        ensures
            r == TransformMiddleware,
    {
        TransformMiddleware
    }
}

} // verus!
