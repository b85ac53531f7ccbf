use voter_credentials::base58::{decode_digit, encode_digit};
use voter_credentials::{CredError, Password};

const ALPHABET: &[u8] = b"123456789ABCDEFGHJKLMNPQRSTUVWXYZabcdefghijkmnopqrstuvwxyz";

#[test]
fn alphabet_roundtrips_through_codec() {
    for d in 0..58u8 {
        let c = encode_digit(d);
        assert_eq!(c, ALPHABET[d as usize]);
        assert_eq!(decode_digit(c), Ok(d));
    }
}

#[test]
fn decode_rejects_foreign_symbols() {
    for c in [b'0', b'O', b'I', b'l', b' ', b'!', b'~', 0u8, 255u8] {
        assert_eq!(decode_digit(c), Err(CredError::InvalidSymbol));
    }
}

#[test]
fn checksum_is_deterministic() {
    // Identical characters always yield the identical checksum digit
    let a = Password::from_bytes(b"mnopqrstuvwxyz12345678".to_vec()).unwrap();
    let b = Password::from_bytes(b"mnopqrstuvwxyz12345678".to_vec()).unwrap();
    assert_eq!(a.checksum(), b.checksum());
    assert_eq!(a.checksum(), a.clone().checksum());
}

#[test]
fn checksum_of_all_ones_is_zero() {
    // Every digit of the body is 0, so the weighted sum is 0 and the
    // checksum digit is (53 - 0) % 53 == 0, whose symbol is '1'.
    let pass = Password::from_bytes(b"1111111111111111111111".to_vec()).unwrap();
    assert_eq!(pass.checksum(), 0);
    assert!(pass.validate_checksum());
}

#[test]
fn checksum_of_single_two_is_fiftytwo() {
    // The character just before the checksum slot has weight 1; a '2'
    // there contributes 1, so the checksum digit is (53 - 1) % 53 == 52,
    // whose symbol is 'u'.
    let pass = Password::from_bytes(b"111111111111111111112u".to_vec()).unwrap();
    assert_eq!(pass.checksum(), 52);
    assert!(pass.validate_checksum());
    let bad = Password::from_bytes(b"111111111111111111112v".to_vec()).unwrap();
    assert!(!bad.validate_checksum());
}

#[test]
fn insert_checksum_makes_password_valid() {
    let mut pass = Password::from_bytes(b"PQRSTUVWXYZ23456789ABC".to_vec()).unwrap();
    let before: Vec<u8> = pass.as_bytes().clone();
    pass.insert_checksum();
    assert!(pass.validate_checksum());
    // Only the final character may have changed
    assert_eq!(&pass.as_bytes()[..21], &before[..21]);
}

#[test]
fn single_character_corruption_is_mostly_detected() {
    // Mutating one character among the first 21 of a valid password to a
    // different alphabet symbol must be caught at the expected ~52/53
    // rate: for each position, at most one of the 57 substitutions (the
    // digit congruent modulo 53) can slip through.
    let mut pass = Password::from_bytes(b"3fRt7KpZ2qWx9mCeTgHuS1".to_vec()).unwrap();
    pass.insert_checksum();
    assert!(pass.validate_checksum());
    let valid: Vec<u8> = pass.as_bytes().clone();
    let mut total: u32 = 0;
    let mut undetected: u32 = 0;
    for pos in 0..21 {
        let mut undetected_here: u32 = 0;
        for &c in ALPHABET {
            if c == valid[pos] {
                continue;
            }
            let mut corrupted = valid.clone();
            corrupted[pos] = c;
            let candidate = Password::from_bytes(corrupted).unwrap();
            total += 1;
            if candidate.validate_checksum() {
                undetected += 1;
                undetected_here += 1;
            }
        }
        assert!(undetected_here <= 1);
    }
    // 57 substitutions per position; at most one escapes per position
    assert_eq!(total, 21 * 57);
    assert!(undetected <= 21);
}
