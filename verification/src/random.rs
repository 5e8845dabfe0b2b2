//! The source of random bytes.

use vstd::prelude::*;

verus! {

/// A random byte: one call of `rand::random::<u8>()`, which draws from the
/// generator that the `rand` crate keeps for the calling thread. Nothing is
/// claimed of the byte that comes back.
#[verifier::external_body]
pub(crate) fn random_byte() -> (byte: u8) {
    rand::random::<u8>()
}

} // verus!
