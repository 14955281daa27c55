//! Cross-origin resource sharing (applied as a layer around the routes).
use vstd::prelude::*;

verus! {

/// Cross-origin resource sharing (applied as a layer around the routes).
pub struct CorsMiddleware;

impl CorsMiddleware {
    pub fn new() -> (r: Self)
        ensures
            r == CorsMiddleware,
    {
        CorsMiddleware
    }
}

} // verus!
