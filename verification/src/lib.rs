//! Deterministic derivation and validation of voter credentials for an
//! electronic-voting scheme.
//!
//! A credential pairs a secret base58 password (carrying a self-verifying
//! checksum in its final character) with a public base58 election
//! identifier. The pair expands deterministically, through PBKDF2, into a
//! secret scalar and its public group element, used later for ballot
//! signing and encryption.

use vstd::prelude::*;

pub mod base58;
pub mod checksum;
pub mod credentials;
pub mod kdf;
mod rng;

pub use base58::{Base58Value, BASE58_STRLEN};
pub use credentials::{Credential, ExpandedCredential, Password, UUID};

verus! {

/// Errors surfaced by credential generation and parsing.
///
/// A failed checksum is not an error: validation returns `false`, since a
/// mistyped password is an expected outcome of user input.
#[derive(Debug, Clone, Copy, PartialEq, Eq, Structural)]
pub enum CredError {
    /// The injected secure-randomness source failed to produce bytes.
    RandomnessUnavailable,
    /// A byte outside the 58-symbol alphabet was encountered while decoding.
    InvalidSymbol,
}

} // verus!
