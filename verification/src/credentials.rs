//! Credentials: election identifiers, checksummed passwords, and their
//! deterministic expansion into keypairs.
//!
//! An [`UUID`] publicly identifies an election; a [`Password`] is the
//! voter's secret, its final character a checksum over the others; a
//! [`Credential`] pairs the two; an [`ExpandedCredential`] adds the
//! keypair the pair expands to. The expansion is a derived view,
//! recomputable at will — the password stays the canonical secret.

use crate::base58::{
    alphabet_byte, copy_bytes, encode_digit, wf_base58, Base58Value, BASE58_STRLEN,
};
use crate::checksum::{checksum_digit, checksum_ok, checksum_spec, lemma_checksum_ignores_last};
use crate::kdf::{
    derived_public, derived_secret, generator_mul, generator_multiply, pbkdf2_derive_key,
    scalar_reduce, PBKDF2_ITERATIONS,
};
use crate::CredError;
use ring::rand::SystemRandom;
use vstd::prelude::*;

verus! {

/// A public base58 string that uniquely identifies the election that is
/// occurring. Identifiers need not carry a valid checksum. Generated once
/// per election; used as derivation salt and as a human-facing tag.
pub struct UUID {
    value: Base58Value,
}

impl View for UUID {
    type V = Seq<u8>;

    closed spec fn view(&self) -> Seq<u8> {
        self.value@
    }
}

impl Clone for UUID {
    /// The copy names the same election.
    fn clone(&self) -> (r: Self)
        ensures
            r@ == self@,
    {
        UUID { value: self.value.clone() }
    }
}

impl UUID {
    /// Exactly [`BASE58_STRLEN`] characters, each in the alphabet.
    pub open spec fn wf(&self) -> bool {
        wf_base58(self@)
    }

    /// Generates a fresh identifier from the injected randomness source.
    /// A failure of the source propagates; it is never masked.
    pub fn gen(rng: &SystemRandom) -> (r: Result<UUID, CredError>)
        ensures
            r matches Ok(u) ==> u.wf(),
            r matches Err(e) ==> e == CredError::RandomnessUnavailable,
    {
        match Base58Value::gen(rng) {
            Ok(value) => Ok(UUID { value }),
            Err(e) => Err(e),
        }
    }

    /// Reads an identifier from its ASCII bytes, rejecting any byte
    /// outside the alphabet and any length other than [`BASE58_STRLEN`].
    pub fn from_bytes(bytes: Vec<u8>) -> (r: Result<UUID, CredError>)
        ensures
            wf_base58(bytes@) ==> (r matches Ok(u) && u@ == bytes@),
            !wf_base58(bytes@) ==> r == Err::<UUID, CredError>(CredError::InvalidSymbol),
    {
        match Base58Value::from_bytes(bytes) {
            Ok(value) => Ok(UUID { value }),
            Err(e) => Err(e),
        }
    }

    /// The underlying ASCII bytes.
    pub fn as_bytes(&self) -> (r: &Vec<u8>)
        ensures
            r@ == self@,
    {
        self.value.as_bytes()
    }
}

/// A secret base58 string whose final character encodes a checksum digit
/// computed over the other characters. One password exists per voter per
/// election; after construction it is never mutated.
pub struct Password {
    value: Base58Value,
}

impl View for Password {
    type V = Seq<u8>;

    closed spec fn view(&self) -> Seq<u8> {
        self.value@
    }
}

impl Clone for Password {
    /// The copy holds the same secret characters.
    fn clone(&self) -> (r: Self)
        ensures
            r@ == self@,
    {
        Password { value: self.value.clone() }
    }
}

impl Password {
    /// Exactly [`BASE58_STRLEN`] characters, each in the alphabet.
    pub open spec fn wf(&self) -> bool {
        wf_base58(self@)
    }

    /// Generates a fresh password: draws a base58 value uniformly at
    /// random, then overwrites its final character with the checksum
    /// computed over the others, so no password is ever exposed in an
    /// unchecksummed state. A failure of the randomness source
    /// propagates; it is never masked.
    pub fn gen(rng: &SystemRandom) -> (r: Result<Password, CredError>)
        ensures
            r matches Ok(p) ==> p.wf() && checksum_ok(p@),
            r matches Err(e) ==> e == CredError::RandomnessUnavailable,
    {
        match Base58Value::gen(rng) {
            Ok(value) => {
                let mut pass = Password { value };
                pass.insert_checksum();
                Ok(pass)
            },
            Err(e) => Err(e),
        }
    }

    /// Reads a (possibly voter-entered) password from its ASCII bytes.
    /// The checksum is not inspected here: the caller decides through
    /// [`Password::validate_checksum`] whether to reject the input.
    pub fn from_bytes(bytes: Vec<u8>) -> (r: Result<Password, CredError>)
        ensures
            wf_base58(bytes@) ==> (r matches Ok(p) && p@ == bytes@),
            !wf_base58(bytes@) ==> r == Err::<Password, CredError>(CredError::InvalidSymbol),
    {
        match Base58Value::from_bytes(bytes) {
            Ok(value) => Ok(Password { value }),
            Err(e) => Err(e),
        }
    }

    /// The checksum digit over the first `BASE58_STRLEN - 1` characters,
    /// read in reverse order: the base-53 complement of their weighted
    /// base-58 sum.
    pub fn checksum(&self) -> (c: u8)
        requires
            self.wf(),
        ensures
            c == checksum_spec(self@),
            c < 53,
    {
        checksum_digit(self.value.as_bytes())
    }

    /// Inserts the checksum at the final index, overwriting what is
    /// already there. Happens exactly once, at construction.
    pub fn insert_checksum(&mut self)
        requires
            old(self).wf(),
        ensures
            final(self).wf(),
            final(self)@ == old(self)@.update(
                BASE58_STRLEN - 1,
                alphabet_byte(checksum_spec(old(self)@)),
            ),
            final(self)@.drop_last() == old(self)@.drop_last(),
            checksum_ok(final(self)@),
    {
        let c = self.checksum();
        let sym = encode_digit(c);
        self.value.set_last(sym);
        proof {
            assert(self@.drop_last() =~= old(self)@.drop_last());
            lemma_checksum_ignores_last(old(self)@, self@);
            assert(self@.last() == sym);
        }
    }

    /// Validates that the final character encodes the checksum of the
    /// others. A mismatch is an expected outcome of mistyped input, so it
    /// is reported as `false`, not as an error.
    pub fn validate_checksum(&self) -> (r: bool)
        requires
            self.wf(),
        ensures
            r == checksum_ok(self@),
    {
        let c = self.checksum();
        let sym = encode_digit(c);
        let bytes = self.value.as_bytes();
        bytes[BASE58_STRLEN - 1] == sym
    }

    /// The underlying ASCII bytes.
    pub fn as_bytes(&self) -> (r: &Vec<u8>)
        ensures
            r@ == self@,
    {
        self.value.as_bytes()
    }
}

/// A voter's durable secret artifact: a password paired with the
/// identifier of the election it belongs to.
pub struct Credential {
    password: Password,
    uuid: UUID,
}

/// The mathematical content of a credential: the password's characters
/// and the identifier's characters.
#[verifier::ext_equal]
pub ghost struct CredentialView {
    pub password: Seq<u8>,
    pub uuid: Seq<u8>,
}

impl View for Credential {
    type V = CredentialView;

    closed spec fn view(&self) -> CredentialView {
        CredentialView { password: self.password@, uuid: self.uuid@ }
    }
}

impl Clone for Credential {
    /// The copy holds the same password and identifier.
    fn clone(&self) -> (r: Self)
        ensures
            r@ == self@,
    {
        let r = Credential { password: self.password.clone(), uuid: self.uuid.clone() };
        proof {
            assert(r@ =~= self@);
        }
        r
    }
}

impl Credential {
    /// Both members are well-formed base58 values.
    pub open spec fn wf(&self) -> bool {
        wf_base58(self@.password) && wf_base58(self@.uuid)
    }

    /// Generates a fresh password and pairs it with a clone of the given
    /// identifier. Pure composition: no invariants beyond the password's.
    pub fn gen(rng: &SystemRandom, uuid: &UUID) -> (r: Result<Credential, CredError>)
        ensures
            r matches Ok(c) ==> c@.uuid == uuid@ && wf_base58(c@.password) && checksum_ok(
                c@.password,
            ),
            r matches Err(e) ==> e == CredError::RandomnessUnavailable,
    {
        match Password::gen(rng) {
            Ok(password) => Ok(Credential { password, uuid: uuid.clone() }),
            Err(e) => Err(e),
        }
    }

    /// The voter's password.
    pub fn password(&self) -> (r: &Password)
        ensures
            r@ == self@.password,
    {
        &self.password
    }

    /// The election's identifier.
    pub fn uuid(&self) -> (r: &UUID)
        ensures
            r@ == self@.uuid,
    {
        &self.uuid
    }

    /// Deterministically expands this credential into its keypair: PBKDF2
    /// stretches the password (salted by the identifier) into 32 bytes,
    /// the bytes are reduced into the scalar field, and the public key is
    /// the generator times that scalar. Total: every credential expands;
    /// there is no failure path.
    pub fn expand(self) -> (r: ExpandedCredential)
        requires
            self.wf(),
        ensures
            r@ == expand_view(self@),
    {
        let secret_bytes = pbkdf2_derive_key(
            PBKDF2_ITERATIONS,
            self.password.as_bytes(),
            self.uuid.as_bytes(),
        );
        let secret_key = scalar_reduce(&secret_bytes);
        let public_key = generator_multiply(&secret_key);
        let r = ExpandedCredential { password: self.password, uuid: self.uuid, secret_key, public_key };
        proof {
            assert(r@ =~= expand_view(self@));
        }
        r
    }
}

impl From<(Password, UUID)> for Credential {
    /// Pairs an existing password with an identifier.
    fn from(parts: (Password, UUID)) -> (r: Credential)
        ensures
            r@.password == parts.0@,
            r@.uuid == parts.1@,
    {
        let (password, uuid) = parts;
        Credential { password, uuid }
    }
}

impl vstd::std_specs::convert::FromSpecImpl<(Password, UUID)> for Credential {
    open spec fn obeys_from_spec() -> bool {
        true
    }

    closed spec fn from_spec(parts: (Password, UUID)) -> Credential {
        Credential { password: parts.0, uuid: parts.1 }
    }
}

/// A credential together with the keypair it expands to. A derived view:
/// recomputing it from the same credential yields bit-identical keys, so
/// it never needs to be persisted. The secret scalar and the public point
/// are carried in the group's canonical 32-byte encodings.
pub struct ExpandedCredential {
    password: Password,
    uuid: UUID,
    secret_key: Vec<u8>,
    public_key: Vec<u8>,
}

/// The mathematical content of an expanded credential.
#[verifier::ext_equal]
pub ghost struct ExpandedView {
    pub password: Seq<u8>,
    pub uuid: Seq<u8>,
    pub secret_key: Seq<u8>,
    pub public_key: Seq<u8>,
}

impl View for ExpandedCredential {
    type V = ExpandedView;

    closed spec fn view(&self) -> ExpandedView {
        ExpandedView {
            password: self.password@,
            uuid: self.uuid@,
            secret_key: self.secret_key@,
            public_key: self.public_key@,
        }
    }
}

/// The expansion of a credential, stated over views: the password and
/// identifier are carried through; the secret key is the derived scalar
/// and the public key its group element.
pub open spec fn expand_view(c: CredentialView) -> ExpandedView {
    ExpandedView {
        password: c.password,
        uuid: c.uuid,
        secret_key: derived_secret(c.password, c.uuid),
        public_key: derived_public(c.password, c.uuid),
    }
}

/// Discarding the derived keys of an expansion, keeping the base
/// credential.
pub open spec fn restrict_view(e: ExpandedView) -> CredentialView {
    CredentialView { password: e.password, uuid: e.uuid }
}

impl ExpandedCredential {
    /// Generates a fresh credential for the given election and expands it
    /// at once.
    pub fn gen(rng: &SystemRandom, uuid: &UUID) -> (r: Result<ExpandedCredential, CredError>)
        requires
            uuid.wf(),
        ensures
            r matches Ok(x) ==> x@.uuid == uuid@ && checksum_ok(x@.password) && x@ == expand_view(
                restrict_view(x@),
            ),
            r matches Err(e) ==> e == CredError::RandomnessUnavailable,
    {
        match Credential::gen(rng, uuid) {
            Ok(c) => Ok(c.expand()),
            Err(e) => Err(e),
        }
    }

    /// The voter's password, carried through unchanged.
    pub fn password(&self) -> (r: &Password)
        ensures
            r@ == self@.password,
    {
        &self.password
    }

    /// The election's identifier, carried through unchanged.
    pub fn uuid(&self) -> (r: &UUID)
        ensures
            r@ == self@.uuid,
    {
        &self.uuid
    }

    /// The canonical bytes of the derived secret scalar.
    pub fn secret_key(&self) -> (r: &Vec<u8>)
        ensures
            r@ == self@.secret_key,
    {
        &self.secret_key
    }

    /// The canonical bytes of the derived public group element.
    pub fn public_key(&self) -> (r: &Vec<u8>)
        ensures
            r@ == self@.public_key,
    {
        &self.public_key
    }
}

impl Clone for ExpandedCredential {
    /// The copy holds the same credential and the same derived keys.
    fn clone(&self) -> (r: Self)
        ensures
            r@ == self@,
    {
        let r = ExpandedCredential {
            password: self.password.clone(),
            uuid: self.uuid.clone(),
            secret_key: copy_bytes(&self.secret_key),
            public_key: copy_bytes(&self.public_key),
        };
        proof {
            assert(r@ =~= self@);
        }
        r
    }
}

impl From<ExpandedCredential> for Credential {
    /// Discards the derived keys and keeps only (password, uuid): a
    /// lossless downcast to the base credential.
    fn from(expanded: ExpandedCredential) -> (r: Credential)
        ensures
            r@ == restrict_view(expanded@),
    {
        let r = Credential { password: expanded.password, uuid: expanded.uuid };
        proof {
            assert(r@ =~= restrict_view(expanded@));
        }
        r
    }
}

impl vstd::std_specs::convert::FromSpecImpl<ExpandedCredential> for Credential {
    open spec fn obeys_from_spec() -> bool {
        true
    }

    closed spec fn from_spec(expanded: ExpandedCredential) -> Credential {
        Credential { password: expanded.password, uuid: expanded.uuid }
    }
}

/// Key expansion is deterministic: two credentials that hold the same
/// password and identifier characters expand to bit-identical secret
/// scalars and public points, and so does one credential expanded twice.
pub proof fn lemma_expand_deterministic(c1: Credential, c2: Credential)
    requires
        c1@.password == c2@.password,
        c1@.uuid == c2@.uuid,
    ensures
        expand_view(c1@) == expand_view(c2@),
{
    assert(expand_view(c1@) =~= expand_view(c2@));
}

/// Public-key consistency: in every expansion, the public key is exactly
/// the generator times the secret key.
pub proof fn lemma_public_key_consistent(c: CredentialView)
    ensures
        expand_view(c).public_key == generator_mul(expand_view(c).secret_key),
{
}

/// Round trip: restricting an expansion reproduces the original
/// credential's password and identifier unchanged.
pub proof fn lemma_expand_restrict_roundtrip(c: CredentialView)
    ensures
        restrict_view(expand_view(c)) == c,
{
    assert(restrict_view(expand_view(c)) =~= c);
}

} // verus!
