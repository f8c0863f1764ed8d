//! Application resources such as the cache directory.
use vstd::prelude::*;
use crate::text::owned;

verus! {

/// Keeps resource locations.
pub struct ResourceManager {}

impl ResourceManager {
    pub fn new() -> Self {
        ResourceManager {}
    }

    /// The cache directory.
    pub fn get_cache_dir(&self) -> (r: String)
        ensures
            r@ == "/tmp/warp_terminal_cache"@,
    {
        owned("/tmp/warp_terminal_cache")
    }
}

} // verus!
