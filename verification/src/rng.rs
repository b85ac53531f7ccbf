//! The boundary to the injected secure-randomness capability.
//!
//! Generation functions take a `ring::rand::SystemRandom` handle and draw
//! bytes through it one at a time; nothing is assumed about the bytes that
//! come back, only that a failure of the source is reported as such.

use crate::CredError;
use ring::rand::SystemRandom;
use vstd::prelude::*;

verus! {

/// Declares `ring::rand::SystemRandom`, the handle to the operating
/// system's secure randomness source, as an opaque type.
#[verifier::external_type_specification]
#[verifier::external_body]
pub struct ExSystemRandom(SystemRandom);

/// Declares `ring::error::Unspecified`, the opaque error `ring` reports
/// when the randomness source fails.
#[verifier::external_type_specification]
#[verifier::external_body]
pub struct ExUnspecified(ring::error::Unspecified);

/// Relies on `ring::rand::SecureRandom::fill` for `SystemRandom`: fills the
/// buffer with cryptographically secure random bytes, or reports that the
/// entropy source is unavailable. Nothing is assumed about the byte drawn.
#[verifier::external_body]
fn fill_one(rng: &SystemRandom) -> Result<u8, ring::error::Unspecified> {
    let mut buf = [0u8; 1];
    match ring::rand::SecureRandom::fill(rng, &mut buf) {
        Ok(()) => Ok(buf[0]),
        Err(e) => Err(e),
    }
}

/// Draws one byte from the secure source, surfacing a failure of the source
/// as `RandomnessUnavailable`. The byte itself is unconstrained: callers
/// must state what holds of every outcome.
pub(crate) fn random_byte(rng: &SystemRandom) -> (r: Result<u8, CredError>)
    ensures
        r matches Err(e) ==> e == CredError::RandomnessUnavailable,
{
    match fill_one(rng) {
        Ok(b) => Ok(b),
        Err(_) => Err(CredError::RandomnessUnavailable),
    }
}

} // verus!
