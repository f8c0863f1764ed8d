//! Random identifiers (version-4 UUIDs), held as 128-bit integers.
use vstd::prelude::*;

verus! {

/// A fresh random version-4 UUID (`uuid::Uuid::new_v4`) as its 128-bit value.
/// Nothing is stated of the value: it is random.
#[verifier::external_body]
pub(crate) fn new_id() -> u128 {
    uuid::Uuid::new_v4().as_u128()
}

} // verus!
