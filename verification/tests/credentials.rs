use ring::rand::SystemRandom;
use voter_credentials::{Credential, CredError, ExpandedCredential, Password, UUID};

#[test]
fn test_credential_generation() {
    // Credentials should have valid checksums
    const RUNS: usize = 1000;
    let rng = SystemRandom::new();
    let uuid = UUID::gen(&rng).unwrap();
    for _ in 0..RUNS {
        let cred = Credential::gen(&rng, &uuid).unwrap();
        // Ensures the generated password has a valid checksum
        assert!(cred.password().validate_checksum())
    }
}

#[test]
fn generated_passwords_validate() {
    let rng = SystemRandom::new();
    for _ in 0..1000 {
        let pass = Password::gen(&rng).unwrap();
        assert!(pass.validate_checksum());
    }
}

#[test]
fn credential_keeps_given_uuid() {
    let rng = SystemRandom::new();
    let uuid = UUID::from_bytes(b"1111111111111111111111".to_vec()).unwrap();
    let cred = Credential::gen(&rng, &uuid).unwrap();
    assert_eq!(cred.uuid().as_bytes(), uuid.as_bytes());
}

#[test]
fn two_generated_passwords_differ() {
    let rng = SystemRandom::new();
    let a = Password::gen(&rng).unwrap();
    let b = Password::gen(&rng).unwrap();
    assert_ne!(a.as_bytes(), b.as_bytes());
}

#[test]
fn password_from_bytes_rejects_bad_symbol() {
    // '0' is not in the alphabet
    let r = Password::from_bytes(b"0111111111111111111111".to_vec());
    assert!(matches!(r, Err(CredError::InvalidSymbol)));
}

#[test]
fn password_from_bytes_rejects_bad_length() {
    let r = Password::from_bytes(b"111111111111111111111".to_vec());
    assert!(matches!(r, Err(CredError::InvalidSymbol)));
    let r = Password::from_bytes(b"11111111111111111111111".to_vec());
    assert!(matches!(r, Err(CredError::InvalidSymbol)));
}

#[test]
fn uuid_from_bytes_roundtrip() {
    let uuid = UUID::from_bytes(b"2BCDEFGHJKmnopqrstuvwx".to_vec()).unwrap();
    assert_eq!(uuid.as_bytes().as_slice(), b"2BCDEFGHJKmnopqrstuvwx");
}

#[test]
fn expansion_is_deterministic() {
    // Expanding the same credential twice yields bit-identical keys
    let rng = SystemRandom::new();
    let uuid = UUID::gen(&rng).unwrap();
    let cred = Credential::gen(&rng, &uuid).unwrap();
    let e1 = cred.clone().expand();
    let e2 = cred.expand();
    assert_eq!(e1.secret_key(), e2.secret_key());
    assert_eq!(e1.public_key(), e2.public_key());
}

#[test]
fn public_key_matches_generator_times_secret() {
    let rng = SystemRandom::new();
    let uuid = UUID::gen(&rng).unwrap();
    let expanded = ExpandedCredential::gen(&rng, &uuid).unwrap();
    let recomputed = voter_credentials::kdf::public_key_of(expanded.secret_key());
    assert_eq!(&recomputed, expanded.public_key());
}

#[test]
fn expansion_roundtrip_preserves_credential() {
    let password = Password::from_bytes(b"mRSTUVWXYZabcdefghijk3".to_vec()).unwrap();
    let uuid = UUID::from_bytes(b"456789ABCDEFGHJKLMNPQR".to_vec()).unwrap();
    let cred = Credential::from((password.clone(), uuid.clone()));
    let expanded = cred.expand();
    let back = Credential::from(expanded);
    assert_eq!(back.password().as_bytes(), password.as_bytes());
    assert_eq!(back.uuid().as_bytes(), uuid.as_bytes());
}

#[test]
fn expansion_depends_on_password_and_uuid() {
    let p1 = Password::from_bytes(b"1111111111111111111111".to_vec()).unwrap();
    let p2 = Password::from_bytes(b"2111111111111111111111".to_vec()).unwrap();
    let u1 = UUID::from_bytes(b"3111111111111111111111".to_vec()).unwrap();
    let u2 = UUID::from_bytes(b"4111111111111111111111".to_vec()).unwrap();
    let base = Credential::from((p1.clone(), u1.clone())).expand();
    let other_pass = Credential::from((p2, u1)).expand();
    let other_uuid = Credential::from((p1, u2)).expand();
    assert_ne!(base.secret_key(), other_pass.secret_key());
    assert_ne!(base.secret_key(), other_uuid.secret_key());
}

#[test]
fn scalar_reduction_wraps_group_order() {
    // The ristretto255 group order, little endian, is
    // 2^252 + 27742317777372353535851937790883648493; one more than that
    // must reduce to the scalar 1, and values below the order must be
    // left as they are.
    let order_plus_one: Vec<u8> = vec![
        0xee, 0xd3, 0xf5, 0x5c, 0x1a, 0x63, 0x12, 0x58, 0xd6, 0x9c, 0xf7, 0xa2, 0xde, 0xf9,
        0xde, 0x14, 0, 0, 0, 0, 0, 0, 0, 0, 0, 0, 0, 0, 0, 0, 0, 0x10,
    ];
    let mut one: Vec<u8> = vec![0; 32];
    one[0] = 1;
    assert_eq!(voter_credentials::kdf::reduce_mod_order(&order_plus_one), one);
    let mut small: Vec<u8> = vec![0; 32];
    small[0] = 42;
    small[31] = 0x0f;
    assert_eq!(voter_credentials::kdf::reduce_mod_order(&small), small);
}

#[test]
fn expansion_known_vector() {
    // Regression vector: a fixed credential must always expand to the
    // same canonical scalar and point encodings.
    let password = Password::from_bytes(b"9876543212345678998765".to_vec()).unwrap();
    let uuid = UUID::from_bytes(b"ABCDEFGHJKLMNPQRSTUVWX".to_vec()).unwrap();
    let expanded = Credential::from((password, uuid)).expand();
    let expected_secret: Vec<u8> = vec![
        173, 229, 12, 81, 89, 218, 43, 163, 233, 101, 168, 226, 218, 226, 218, 154, 187, 113, 7,
        75, 237, 3, 185, 213, 115, 184, 16, 148, 47, 53, 206, 11,
    ];
    let expected_public: Vec<u8> = vec![
        132, 255, 114, 187, 16, 206, 134, 40, 121, 242, 121, 8, 207, 164, 208, 163, 237, 120, 47,
        247, 249, 43, 83, 89, 150, 46, 13, 213, 211, 44, 217, 14,
    ];
    assert_eq!(expanded.secret_key(), &expected_secret);
    assert_eq!(expanded.public_key(), &expected_public);
}
