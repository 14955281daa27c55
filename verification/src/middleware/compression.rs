//! Response compression (applied as a layer of the middleware plan).
use vstd::prelude::*;

verus! {

/// Response compression (applied as a layer of the middleware plan).
pub struct CompressionMiddleware;

impl CompressionMiddleware {
    pub fn new() -> (r: Self)
        ensures
            r == CompressionMiddleware,
    {
        CompressionMiddleware
    }
}

} // verus!
