//! The base-53 weighted checksum over a password's leading characters.
//!
//! The checksum digit of a password is the base-53 complement of
//! `sum_i 58^i * d_i mod 53`, where `d_i` is the digit value of the
//! character at reversed position `i` among the first `BASE58_STRLEN - 1`
//! characters (the character just before the checksum slot is least
//! significant). The modulus 53 is deliberately smaller than the alphabet
//! size and must stay exactly as it is, as must the reversed reading
//! order: either choice decides which single-character errors are
//! detectable.

use crate::base58::{
    alphabet_byte, digit_of, digit_value, is_alphabet_byte, lemma_alphabet_roundtrip, wf_base58,
    BASE58_STRLEN,
};
use vstd::arithmetic::div_mod::{
    lemma_add_mod_noop, lemma_mod_add_multiples_vanish, lemma_mod_twice,
    lemma_mul_mod_noop_general, lemma_mul_mod_noop_left, lemma_small_mod, lemma_sub_mod_noop,
};
use vstd::prelude::*;

verus! {

/// `58^n`.
pub open spec fn pow58(n: nat) -> int
    decreases n,
{
    if n == 0 {
        1
    } else {
        58 * pow58((n - 1) as nat)
    }
}

/// The integer a sequence of base-58 digits denotes, the last digit least
/// significant: `base58_int(d_0 .. d_k) == sum_i 58^(k - i) * d_i`.
pub open spec fn base58_int(digits: Seq<int>) -> int
    decreases digits.len(),
{
    if digits.len() == 0 {
        0
    } else {
        base58_int(digits.drop_last()) * 58 + digits.last()
    }
}

/// The digit values of a character sequence.
pub open spec fn digits_of(s: Seq<u8>) -> Seq<int> {
    s.map_values(|c: u8| digit_of(c))
}

/// The checksum digit of the character sequence `s`: the base-53 complement
/// of the weighted sum over every character but the last, read in reverse
/// order. Always in `[0, 53)`.
pub open spec fn checksum_spec(s: Seq<u8>) -> int
    recommends
        s.len() >= 1,
{
    (53 - base58_int(digits_of(s.drop_last())) % 53) % 53
}

/// Whether the final character of `s` encodes the checksum of the others.
pub open spec fn checksum_ok(s: Seq<u8>) -> bool
    recommends
        s.len() == BASE58_STRLEN,
{
    s.last() == alphabet_byte(checksum_spec(s))
}

/// Prepending a most significant digit adds its weighted value.
proof fn lemma_base58_int_prepend(digits: Seq<int>, d: int)
    ensures
        base58_int(seq![d] + digits) == d * pow58(digits.len()) + base58_int(digits),
    decreases digits.len(),
{
    let s = seq![d] + digits;
    if digits.len() == 0 {
        assert(s =~= seq![d]);
        assert(s.drop_last() =~= Seq::<int>::empty());
        assert(base58_int(s) == base58_int(s.drop_last()) * 58 + s.last());
        assert(base58_int(s) == d);
        assert(pow58(0) == 1);
    } else {
        let dd = digits.drop_last();
        let n1 = (digits.len() - 1) as nat;
        assert(s.drop_last() =~= seq![d] + dd);
        lemma_base58_int_prepend(dd, d);
        assert(base58_int(seq![d] + dd) == d * pow58(n1) + base58_int(dd));
        assert(base58_int(s) == base58_int(s.drop_last()) * 58 + s.last());
        assert(s.last() == digits.last());
        assert(base58_int(s) == (d * pow58(n1) + base58_int(dd)) * 58 + digits.last());
        assert(pow58(digits.len()) == 58 * pow58(n1));
        assert((d * pow58(n1) + base58_int(dd)) * 58 + digits.last() == d * (58 * pow58(n1)) + (
        base58_int(dd) * 58 + digits.last())) by (nonlinear_arith);
        assert(base58_int(digits) == base58_int(dd) * 58 + digits.last());
        assert(d * pow58(digits.len()) == d * (58 * pow58(n1)));
    }
}

/// One accumulation step, carried out modulo 53.
proof fn lemma_mod_step(s: int, p: int, d: int)
    ensures
        (s % 53 + (p % 53) * d) % 53 == (s + p * d) % 53,
{
    lemma_mul_mod_noop_left(p, d, 53);
    lemma_mod_twice(s, 53);
    lemma_add_mod_noop(s % 53, (p % 53) * d, 53);
    lemma_add_mod_noop(s, p * d, 53);
}

/// One power step, carried out modulo 53.
proof fn lemma_pow_step(p: int)
    ensures
        ((p % 53) * 58) % 53 == (p * 58) % 53,
{
    lemma_mul_mod_noop_left(p, 58, 53);
}

/// Computes the checksum digit of a well-formed base58 byte string,
/// reading the first `BASE58_STRLEN - 1` characters in reverse order and
/// accumulating `58^i mod 53` incrementally.
pub fn checksum_digit(bytes: &Vec<u8>) -> (c: u8)
    requires
        wf_base58(bytes@),
    ensures
        c == checksum_spec(bytes@),
        c < 53,
{
    let ghost body = bytes@.drop_last();
    let ghost dig = digits_of(body);
    let mut acc: u32 = 0;
    let mut pow: u32 = 1;
    let mut i: usize = 0;
    proof {
        assert(dig.subrange(21 - 0, 21) =~= Seq::<int>::empty());
    }
    while i < BASE58_STRLEN - 1
        invariant
            i <= 21,
            wf_base58(bytes@),
            body == bytes@.drop_last(),
            dig == digits_of(body),
            acc == base58_int(dig.subrange(21 - i, 21)) % 53,
            pow == pow58(i as nat) % 53,
            acc < 53,
            pow < 53,
        decreases 21 - i,
    {
        let ch = bytes[20 - i];
        proof {
            assert(bytes@[20 - i as int] == body[20 - i as int]);
            assert(is_alphabet_byte(bytes@[20 - i as int]));
        }
        let d = digit_value(ch);
        let ghost prev = dig.subrange(21 - i as int, 21);
        let ghost next = dig.subrange(20 - i as int, 21);
        proof {
            assert(dig[20 - i as int] == digit_of(body[20 - i as int]));
            assert(next =~= seq![dig[20 - i as int]] + prev);
            lemma_base58_int_prepend(prev, dig[20 - i as int]);
            lemma_mod_step(base58_int(prev), pow58(i as nat), dig[20 - i as int]);
            lemma_pow_step(pow58(i as nat));
            assert(prev.len() == i);
            assert(base58_int(next) == dig[20 - i as int] * pow58(i as nat) + base58_int(prev));
            assert(d as int == dig[20 - i as int]);
            assert(base58_int(next) % 53 == (base58_int(prev) % 53 + (pow58(i as nat) % 53) * (
            d as int)) % 53);
            assert(pow * (d as u32) <= 52 * 57) by (nonlinear_arith)
                requires
                    pow < 53,
                    d < 58,
            ;
        }
        acc = (acc + pow * (d as u32)) % 53;
        pow = (pow * 58) % 53;
        i = i + 1;
    }
    proof {
        assert(dig.subrange(0, 21) =~= dig);
    }
    let c = ((53 - acc) % 53) as u8;
    c
}

/// The checksum is a deterministic pure function of the characters:
/// identical input characters always yield the identical checksum digit.
pub proof fn lemma_checksum_deterministic(s1: Seq<u8>, s2: Seq<u8>)
    requires
        s1 == s2,
    ensures
        checksum_spec(s1) == checksum_spec(s2),
{
}

/// The checksum reads only the leading characters: two sequences of equal
/// length that agree everywhere but possibly in the final character have
/// the same checksum digit.
pub proof fn lemma_checksum_ignores_last(s1: Seq<u8>, s2: Seq<u8>)
    requires
        s1.len() >= 1,
        s1.len() == s2.len(),
        s1.drop_last() == s2.drop_last(),
    ensures
        checksum_spec(s1) == checksum_spec(s2),
{
}

/// `32^n`, the modular inverse of `58^n` modulo 53.
spec fn pow32(n: nat) -> int
    decreases n,
{
    if n == 0 {
        1
    } else {
        32 * pow32((n - 1) as nat)
    }
}

/// `58 * 32 == 1856 == 35 * 53 + 1`, so the powers are inverse to each
/// other modulo 53; in particular no power of 58 vanishes modulo 53.
proof fn lemma_pow58_inverse(n: nat)
    ensures
        (pow58(n) * pow32(n)) % 53 == 1,
    decreases n,
{
    if n != 0 {
        let n1 = (n - 1) as nat;
        lemma_pow58_inverse(n1);
        let p = pow58(n1);
        let q = pow32(n1);
        assert((58 * p) * (32 * q) == 1856 * (p * q)) by (nonlinear_arith);
        lemma_mul_mod_noop_general(1856, p * q, 53);
        assert((1856 * (p * q)) % 53 == ((1856int % 53) * ((p * q) % 53)) % 53);
    }
}

/// Two digit sequences that differ in exactly one place have values whose
/// difference is the digit difference times the weight of the place.
proof fn lemma_base58_int_diff(t1: Seq<int>, t2: Seq<int>, j: int)
    requires
        t1.len() == t2.len(),
        0 <= j < t1.len(),
        forall|i: int| 0 <= i < t1.len() && i != j ==> t1[i] == t2[i],
    ensures
        base58_int(t1) - base58_int(t2) == (t1[j] - t2[j]) * pow58((t1.len() - 1 - j) as nat),
    decreases t1.len(),
{
    if j == t1.len() - 1 {
        assert(t1.drop_last() =~= t2.drop_last());
        assert(base58_int(t1) == base58_int(t1.drop_last()) * 58 + t1.last());
        assert(base58_int(t2) == base58_int(t2.drop_last()) * 58 + t2.last());
        assert(pow58(0) == 1);
    } else {
        let d1 = t1.drop_last();
        let d2 = t2.drop_last();
        let m = (t1.len() - 2 - j) as nat;
        assert(forall|i: int| 0 <= i < d1.len() && i != j ==> d1[i] == d2[i]);
        lemma_base58_int_diff(d1, d2, j);
        assert(base58_int(d1) - base58_int(d2) == (t1[j] - t2[j]) * pow58(m));
        assert(t1.last() == t2.last());
        assert(base58_int(t1) - base58_int(t2) == (base58_int(d1) - base58_int(d2)) * 58);
        assert(((t1[j] - t2[j]) * pow58(m)) * 58 == (t1[j] - t2[j]) * (58 * pow58(m)))
            by (nonlinear_arith);
        assert(pow58((t1.len() - 1 - j) as nat) == 58 * pow58(m));
    }
}

/// Two numbers whose difference is a nonvanishing multiple of an
/// invertible factor are not congruent modulo 53.
proof fn lemma_noncongruent_multiple(x: int, y: int, k: int, p: int, w: int)
    requires
        x - y == k * p,
        (p * w) % 53 == 1,
        k % 53 != 0,
    ensures
        x % 53 != y % 53,
{
    if x % 53 == y % 53 {
        lemma_sub_mod_noop(x, y, 53);
        assert((x - y) % 53 == 0);
        lemma_mul_mod_noop_general(k * p, w, 53);
        assert(((k * p) * w) % 53 == (((k * p) % 53) * (w % 53)) % 53);
        assert((0 * (w % 53)) % 53 == 0);
        assert((k * p) * w == k * (p * w)) by (nonlinear_arith);
        lemma_mul_mod_noop_general(k, p * w, 53);
        assert((k * (p * w)) % 53 == ((k % 53) * ((p * w) % 53)) % 53);
        lemma_mod_twice(k, 53);
        assert(false);
    }
}

/// A value strictly between 0 and 53 survives the final complement step;
/// 0 is sent to 0.
proof fn lemma_complement_value(u: int)
    requires
        0 <= u < 53,
    ensures
        (53 - u) % 53 == if u == 0 {
            0int
        } else {
            53 - u
        },
{
    if u == 0 {
        assert(53int % 53 == 0);
    } else {
        lemma_small_mod((53 - u) as nat, 53);
    }
}

/// Digits below 53 that differ do not become congruent modulo 53.
proof fn lemma_diff_nonzero_mod(u: int, v: int)
    requires
        0 <= u < 53,
        0 <= v < 53,
        u != v,
    ensures
        (u - v) % 53 != 0,
{
    if u > v {
        lemma_small_mod((u - v) as nat, 53);
    } else {
        lemma_mod_add_multiples_vanish(u - v, 53);
        lemma_small_mod((u - v + 53) as nat, 53);
    }
}

/// Corrupting a single character among the first `BASE58_STRLEN - 1` of a
/// valid password is detected whenever the digit of the wrong symbol is
/// not congruent modulo 53 to the digit it replaced. Of the 57 wrong
/// symbols a slot admits, at most one digit is congruent: validation
/// therefore catches a mistyped character at the expected 52-in-53 rate,
/// but not universally.
pub proof fn lemma_single_corruption_detected(s1: Seq<u8>, s2: Seq<u8>, j: int)
    requires
        wf_base58(s1),
        wf_base58(s2),
        0 <= j < s1.len() - 1,
        s2.last() == s1.last(),
        forall|i: int| 0 <= i < s1.len() && i != j ==> s1[i] == s2[i],
        digit_of(s1[j]) % 53 != digit_of(s2[j]) % 53,
        checksum_ok(s1),
    ensures
        !checksum_ok(s2),
{
    let t1 = digits_of(s1.drop_last());
    let t2 = digits_of(s2.drop_last());
    let a = digit_of(s1[j]);
    let b = digit_of(s2[j]);
    assert(t1.len() == 21 && t2.len() == 21);
    assert(forall|i: int| 0 <= i < t1.len() && i != j ==> t1[i] == t2[i]);
    assert(t1[j] == a && t2[j] == b);
    lemma_base58_int_diff(t1, t2, j);
    let m = (t1.len() - 1 - j) as nat;
    lemma_pow58_inverse(m);
    lemma_sub_mod_noop(a, b, 53);
    lemma_diff_nonzero_mod(a % 53, b % 53);
    assert((a - b) % 53 != 0);
    lemma_noncongruent_multiple(base58_int(t1), base58_int(t2), a - b, pow58(m), pow32(m));
    let u = base58_int(t1) % 53;
    let v = base58_int(t2) % 53;
    lemma_complement_value(u);
    lemma_complement_value(v);
    let c1 = checksum_spec(s1);
    let c2 = checksum_spec(s2);
    assert(c1 != c2);
    assert(0 <= c1 < 53 && 0 <= c2 < 53);
    lemma_alphabet_roundtrip(c1);
    lemma_alphabet_roundtrip(c2);
    assert(alphabet_byte(c1) != alphabet_byte(c2));
}

} // verus!
