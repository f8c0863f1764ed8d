//! Locations of bundled assets.
use vstd::prelude::*;
use crate::text::concat;

verus! {

/// Where the asset called `name` lives.
pub fn get_asset_path(name: &str) -> (r: String)
    ensures
        r@ == "/path/to/assets/"@ + name@,
{
    concat("/path/to/assets/", name)
}

} // verus!
