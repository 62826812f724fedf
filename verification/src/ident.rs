//! Identifiers of nodes and edges.
//!
//! An identifier is the 128-bit value of a UUID. New ones are random
//! (version 4) UUIDs, so two that were made apart are different for every
//! practical purpose; the library itself never relies on that.

use vstd::prelude::*;

verus! {

/// Whether `id` has the version and variant fields of a random UUID:
/// version 4 in bits 76..80, the RFC variant `10` in bits 62..64.
pub open spec fn is_random_uuid(id: u128) -> bool {
    (id >> 76u128) & 0xF == 4 && (id >> 62u128) & 0x3 == 2
}

/// Calls `uuid::Uuid::new_v4` and hands back the UUID's value as an integer
/// (`Uuid::as_u128`). Not proved: that the value carries the version and
/// variant bits of a random UUID, which `new_v4` sets by masking. Nothing is
/// claimed of the other 122 bits. `new_v4` panics if the operating system
/// cannot supply random bytes.
#[verifier::external_body]
pub(crate) fn fresh_id() -> (id: u128)
    ensures
        is_random_uuid(id),
{
    uuid::Uuid::new_v4().as_u128()
}

} // verus!
