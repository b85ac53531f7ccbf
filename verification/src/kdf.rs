//! Key expansion: stretching a password into a scalar of the group's
//! scalar field and the matching public group element.
//!
//! The derivation is PBKDF2 with HMAC-SHA-256 at [`PBKDF2_ITERATIONS`]
//! iterations, keyed by the password's raw bytes and salted by the
//! identifier's raw bytes; its 32-byte output is reduced modulo the group
//! order into a scalar, and the public key is `generator * scalar`. Every
//! step is a total, deterministic function of the credential, so a voter
//! can recompute the keypair from the password alone.
//!
//! The group is ristretto255; scalars and points cross this boundary in
//! their canonical 32-byte encodings.

use core::num::NonZeroU32;
use ring::pbkdf2;
use vstd::prelude::*;

verus! {

/// Iteration count of the password-based key derivation.
pub const PBKDF2_ITERATIONS: u32 = 1000;

/// What the 32-byte PBKDF2-HMAC-SHA-256 output is for a given iteration
/// count, secret and salt; fixed by those arguments alone.
pub uninterp spec fn pbkdf2_hmac_sha256(iterations: u32, secret: Seq<u8>, salt: Seq<u8>) -> Seq<u8>;

/// What the canonical byte encoding of a 32-byte value reduced modulo the
/// ristretto255 group order is; fixed by the input bytes alone.
pub uninterp spec fn scalar_mod_order(bytes: Seq<u8>) -> Seq<u8>;

/// What the canonical encoding of `generator * scalar` is, the scalar given
/// by its canonical 32 bytes; fixed by those bytes alone.
pub uninterp spec fn generator_mul(scalar_bytes: Seq<u8>) -> Seq<u8>;

/// Relies on `ring::pbkdf2::derive` with `PBKDF2_HMAC_SHA256`: fills the
/// 32-byte output buffer deterministically from the iteration count, the
/// secret and the salt. `derive` panics only on inputs far above the
/// lengths admitted here.
#[verifier::external_body]
pub(crate) fn pbkdf2_derive_key(iterations: u32, secret: &Vec<u8>, salt: &Vec<u8>) -> (r: Vec<u8>)
    requires
        1 <= iterations,
        secret@.len() <= 64,
        salt@.len() <= 64,
    ensures
        r@ == pbkdf2_hmac_sha256(iterations, secret@, salt@),
        r@.len() == 32,
{
    let mut out = [0u8; 32];
    let iters = NonZeroU32::new(iterations).unwrap();
    pbkdf2::derive(pbkdf2::PBKDF2_HMAC_SHA256, iters, salt.as_slice(), secret.as_slice(), &mut out);
    out.to_vec()
}

/// Relies on `curve25519_dalek::scalar::Scalar::from_bytes_mod_order` and
/// `Scalar::to_bytes`: the canonical 32 bytes of the scalar equal to the
/// input read as a little-endian integer and reduced modulo the group
/// order. Total: no 32-byte input is rejected.
#[verifier::external_body]
pub(crate) fn scalar_reduce(bytes: &Vec<u8>) -> (r: Vec<u8>)
    requires
        bytes@.len() == 32,
    ensures
        r@ == scalar_mod_order(bytes@),
        r@.len() == 32,
{
    let mut arr = [0u8; 32];
    arr.copy_from_slice(bytes.as_slice());
    let s = curve25519_dalek::scalar::Scalar::from_bytes_mod_order(arr);
    s.to_bytes().to_vec()
}

/// Relies on `curve25519_dalek::ristretto::RistrettoPoint::mul_base` (the
/// fixed generator times a scalar), with `Scalar::from_bytes_mod_order`
/// reading the scalar back from its canonical bytes and `compress` giving
/// the canonical point encoding.
#[verifier::external_body]
pub(crate) fn generator_multiply(scalar_bytes: &Vec<u8>) -> (r: Vec<u8>)
    requires
        scalar_bytes@.len() == 32,
    ensures
        r@ == generator_mul(scalar_bytes@),
        r@.len() == 32,
{
    let mut arr = [0u8; 32];
    arr.copy_from_slice(scalar_bytes.as_slice());
    let s = curve25519_dalek::scalar::Scalar::from_bytes_mod_order(arr);
    let p = curve25519_dalek::ristretto::RistrettoPoint::mul_base(&s);
    p.compress().to_bytes().to_vec()
}

/// The canonical secret-scalar bytes a credential expands to: the PBKDF2
/// output, keyed by the password and salted by the identifier, reduced
/// into the scalar field.
pub open spec fn derived_secret(password: Seq<u8>, uuid: Seq<u8>) -> Seq<u8> {
    scalar_mod_order(pbkdf2_hmac_sha256(PBKDF2_ITERATIONS, password, uuid))
}

/// The canonical encoding of the public group element that belongs to the
/// secret scalar a credential expands to.
pub open spec fn derived_public(password: Seq<u8>, uuid: Seq<u8>) -> Seq<u8> {
    generator_mul(derived_secret(password, uuid))
}

/// Reduces 32 bytes, read as a little-endian integer, into the scalar
/// field, returning the canonical bytes of the resulting scalar. Total:
/// no input is rejected.
pub fn reduce_mod_order(bytes: &Vec<u8>) -> (r: Vec<u8>)
    requires
        bytes@.len() == 32,
    ensures
        r@ == scalar_mod_order(bytes@),
        r@.len() == 32,
{
    scalar_reduce(bytes)
}

/// Recomputes the public group element that belongs to a secret scalar
/// given by its canonical 32 bytes.
pub fn public_key_of(secret_key: &Vec<u8>) -> (r: Vec<u8>)
    requires
        secret_key@.len() == 32,
    ensures
        r@ == generator_mul(secret_key@),
        r@.len() == 32,
{
    generator_multiply(secret_key)
}

} // verus!
