//! Fresh UUIDs for activities and application relations.

use vstd::prelude::*;

verus! {

/// Relies on uuid::Uuid::new_v4: a freshly generated random UUID,
/// returned in standard byte order. The result is random, so nothing is
/// assumed about it.
#[verifier::external_body]
pub(crate) fn fresh_uuid() -> (r: [u8; 16]) {
    *uuid::Uuid::new_v4().as_bytes()
}

} // verus!
