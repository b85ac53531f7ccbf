//! Fixed-length base58 values.
//!
//! The codec keeps two fixed tables: the forward lookup `digit -> symbol`
//! over the 58-symbol alphabet (digits and letters, with the visually
//! ambiguous `0`, `O`, `I` and `l` left out) and its inverse
//! `symbol -> digit`. A `Base58Value` is exactly [`BASE58_STRLEN`] symbols,
//! drawn uniformly at random from the injected randomness source.

use crate::rng::random_byte;
use crate::CredError;
use ring::rand::SystemRandom;
use vstd::pervasive::VecAdditionalExecFns;
use vstd::prelude::*;

verus! {

/// Length, in characters, of every base58 value in this scheme.
pub const BASE58_STRLEN: usize = 22;

/// The symbol that stands for digit `d` of the alphabet, as an ASCII byte:
/// `1`..`9`, `A`..`H`, `J`..`N`, `P`..`Z`, `a`..`k`, `m`..`z` in order.
pub open spec fn alphabet_byte(d: int) -> u8 {
    if 0 <= d && d <= 8 {
        (49 + d) as u8
    } else if 9 <= d && d <= 16 {
        (56 + d) as u8
    } else if 17 <= d && d <= 21 {
        (57 + d) as u8
    } else if 22 <= d && d <= 32 {
        (58 + d) as u8
    } else if 33 <= d && d <= 43 {
        (64 + d) as u8
    } else if 44 <= d && d <= 57 {
        (65 + d) as u8
    } else {
        0
    }
}

/// Whether the ASCII byte `c` is a symbol of the alphabet.
pub open spec fn is_alphabet_byte(c: u8) -> bool {
    (49 <= c && c <= 57) || (65 <= c && c <= 72) || (74 <= c && c <= 78) || (80 <= c && c <= 90)
        || (97 <= c && c <= 107) || (109 <= c && c <= 122)
}

/// The digit value of the symbol `c`; 58 when `c` is not in the alphabet.
pub open spec fn digit_of(c: u8) -> int {
    if 49 <= c && c <= 57 {
        c - 49
    } else if 65 <= c && c <= 72 {
        c - 56
    } else if 74 <= c && c <= 78 {
        c - 57
    } else if 80 <= c && c <= 90 {
        c - 58
    } else if 97 <= c && c <= 107 {
        c - 64
    } else if 109 <= c && c <= 122 {
        c - 65
    } else {
        58
    }
}

/// The inverse lookup undoes the forward lookup on every digit.
pub proof fn lemma_alphabet_roundtrip(d: int)
    requires
        0 <= d < 58,
    ensures
        is_alphabet_byte(alphabet_byte(d)),
        digit_of(alphabet_byte(d)) == d,
{
}

/// The forward lookup undoes the inverse lookup on every alphabet symbol,
/// and digit values lie below 58.
pub proof fn lemma_digit_roundtrip(c: u8)
    requires
        is_alphabet_byte(c),
    ensures
        0 <= digit_of(c) < 58,
        alphabet_byte(digit_of(c)) == c,
{
}

/// A well-formed base58 character sequence: exactly [`BASE58_STRLEN`]
/// symbols, each a member of the alphabet.
pub open spec fn wf_base58(s: Seq<u8>) -> bool {
    &&& s.len() == BASE58_STRLEN
    &&& forall|i: int| 0 <= i < s.len() ==> is_alphabet_byte(#[trigger] s[i])
}

/// Whether the ASCII byte `c` is a symbol of the alphabet.
pub fn is_alphabet(c: u8) -> (r: bool)
    ensures
        r == is_alphabet_byte(c),
{
    (49 <= c && c <= 57) || (65 <= c && c <= 72) || (74 <= c && c <= 78) || (80 <= c && c <= 90)
        || (97 <= c && c <= 107) || (109 <= c && c <= 122)
}

/// Forward lookup: the alphabet symbol of digit `d`.
pub fn encode_digit(d: u8) -> (c: u8)
    requires
        d < 58,
    ensures
        c == alphabet_byte(d as int),
        is_alphabet_byte(c),
        digit_of(c) == d,
{
    proof {
        lemma_alphabet_roundtrip(d as int);
    }
    if d <= 8 {
        49 + d
    } else if d <= 16 {
        56 + d
    } else if d <= 21 {
        57 + d
    } else if d <= 32 {
        58 + d
    } else if d <= 43 {
        64 + d
    } else {
        65 + d
    }
}

/// Inverse lookup: the digit value of symbol `c`, or `InvalidSymbol` when
/// `c` is not in the alphabet.
pub fn decode_digit(c: u8) -> (r: Result<u8, CredError>)
    ensures
        is_alphabet_byte(c) ==> r == Ok::<u8, CredError>(digit_of(c) as u8),
        !is_alphabet_byte(c) ==> r == Err::<u8, CredError>(CredError::InvalidSymbol),
{
    if is_alphabet(c) {
        Ok(digit_value(c))
    } else {
        Err(CredError::InvalidSymbol)
    }
}

/// Inverse lookup on a byte known to be in the alphabet.
pub fn digit_value(c: u8) -> (d: u8)
    requires
        is_alphabet_byte(c),
    ensures
        d == digit_of(c),
        d < 58,
{
    proof {
        lemma_digit_roundtrip(c);
    }
    if c <= 57 {
        c - 49
    } else if c <= 72 {
        c - 56
    } else if c <= 78 {
        c - 57
    } else if c <= 90 {
        c - 58
    } else if c <= 107 {
        c - 64
    } else {
        c - 65
    }
}

/// Copies a byte string element by element.
pub(crate) fn copy_bytes(v: &Vec<u8>) -> (r: Vec<u8>)
    ensures
        r@ == v@,
{
    let mut bytes: Vec<u8> = Vec::new();
    let mut i: usize = 0;
    while i < v.len()
        invariant
            i <= v@.len(),
            bytes@ == v@.subrange(0, i as int),
        decreases v@.len() - i,
    {
        bytes.push(v[i]);
        i = i + 1;
        proof {
            assert(bytes@ =~= v@.subrange(0, i as int));
        }
    }
    proof {
        assert(bytes@ =~= v@);
    }
    bytes
}

/// A fixed-length sequence of alphabet symbols, stored as ASCII bytes.
pub struct Base58Value {
    bytes: Vec<u8>,
}

impl View for Base58Value {
    type V = Seq<u8>;

    closed spec fn view(&self) -> Seq<u8> {
        self.bytes@
    }
}

impl Clone for Base58Value {
    /// The copy holds the same characters as the original.
    fn clone(&self) -> (r: Self)
        ensures
            r@ == self@,
    {
        Base58Value { bytes: copy_bytes(&self.bytes) }
    }
}

impl Base58Value {
    /// Every character is a member of the alphabet; the length is exactly
    /// [`BASE58_STRLEN`], never more or less.
    pub open spec fn wf(&self) -> bool {
        wf_base58(self@)
    }

    /// Wraps a byte string after checking it against the alphabet and the
    /// fixed length; anything else is rejected as `InvalidSymbol`.
    pub fn from_bytes(bytes: Vec<u8>) -> (r: Result<Base58Value, CredError>)
        ensures
            wf_base58(bytes@) ==> (r matches Ok(v) && v@ == bytes@),
            !wf_base58(bytes@) ==> r == Err::<Base58Value, CredError>(CredError::InvalidSymbol),
    {
        if bytes.len() != BASE58_STRLEN {
            return Err(CredError::InvalidSymbol);
        }
        let mut i: usize = 0;
        while i < bytes.len()
            invariant
                i <= bytes@.len(),
                forall|j: int| 0 <= j < i ==> is_alphabet_byte(#[trigger] bytes@[j]),
            decreases bytes@.len() - i,
        {
            if !is_alphabet(bytes[i]) {
                return Err(CredError::InvalidSymbol);
            }
            i = i + 1;
        }
        Ok(Base58Value { bytes })
    }

    /// The underlying ASCII bytes.
    pub fn as_bytes(&self) -> (r: &Vec<u8>)
        ensures
            r@ == self@,
    {
        &self.bytes
    }

    /// Draws one uniformly distributed alphabet symbol from the secure
    /// source. A byte is rejected and redrawn when it falls outside the
    /// largest multiple of 58 below 256, so that the reduction carries no
    /// modulo bias. A uniform source rejects with probability below 1/10
    /// per draw; one that fails the bound thousands of times in a row is
    /// not delivering uniform bytes and is reported as unavailable.
    fn gen_symbol(rng: &SystemRandom) -> (r: Result<u8, CredError>)
        ensures
            r matches Ok(c) ==> is_alphabet_byte(c),
            r matches Err(e) ==> e == CredError::RandomnessUnavailable,
    {
        let mut attempts: usize = 0;
        while attempts < 10000
            decreases 10000 - attempts,
        {
            let b = match random_byte(rng) {
                Ok(b) => b,
                Err(e) => {
                    return Err(e);
                },
            };
            if b < 232 {
                return Ok(encode_digit(b % 58));
            }
            attempts = attempts + 1;
        }
        Err(CredError::RandomnessUnavailable)
    }

    /// Draws [`BASE58_STRLEN`] symbols via the codec, each independently
    /// uniform over the alphabet. A failure of the randomness source
    /// propagates; it is never masked.
    pub fn gen(rng: &SystemRandom) -> (r: Result<Base58Value, CredError>)
        ensures
            r matches Ok(v) ==> v.wf(),
            r matches Err(e) ==> e == CredError::RandomnessUnavailable,
    {
        let mut bytes: Vec<u8> = Vec::new();
        let mut i: usize = 0;
        while i < BASE58_STRLEN
            invariant
                i == bytes@.len(),
                i <= BASE58_STRLEN,
                forall|j: int| 0 <= j < i ==> is_alphabet_byte(#[trigger] bytes@[j]),
            decreases BASE58_STRLEN - i,
        {
            let c = match Self::gen_symbol(rng) {
                Ok(c) => c,
                Err(e) => {
                    return Err(e);
                },
            };
            bytes.push(c);
            i = i + 1;
        }
        Ok(Base58Value { bytes })
    }

    /// Replaces the final character, leaving the others untouched.
    pub(crate) fn set_last(&mut self, c: u8)
        requires
            old(self)@.len() == BASE58_STRLEN,
        ensures
            final(self)@ == old(self)@.update(BASE58_STRLEN - 1, c),
    {
        self.bytes.set(BASE58_STRLEN - 1, c);
    }
}

} // verus!
