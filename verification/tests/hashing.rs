use core_challenges::hashing::{sha256_hex, starts_with_zeros};
use core_challenges::solvers::proof_of_work::digest_hex;

#[test]
fn known_digests() {
    assert_eq!(
        sha256_hex(b""),
        "e3b0c44298fc1c149afbf4c8996fb92427ae41e4649b934ca495991b7852b855"
    );
    assert_eq!(
        sha256_hex(b"abc"),
        "ba7816bf8f01cfea414140de5dae2223b00361a396177a9cb410ff61f20015ad"
    );
}

#[test]
fn the_digest_text_is_64_lowercase_hex_digits() {
    let text = sha256_hex(b"reto-pow-4");
    assert_eq!(text.len(), 64);
    assert!(text.chars().all(|c| c.is_ascii_digit() || ('a'..='f').contains(&c)));
}

#[test]
fn the_nonce_is_hashed_as_eight_little_endian_bytes() {
    let mut preimage = b"abc".to_vec();
    preimage.extend_from_slice(&[1, 0, 0, 0, 0, 0, 0, 0]);
    assert_eq!(digest_hex("abc", 1), sha256_hex(&preimage));
    let mut preimage = "ó".as_bytes().to_vec();
    preimage.extend_from_slice(&0x0102_0304_0506_0708u64.to_le_bytes());
    assert_eq!(digest_hex("ó", 0x0102_0304_0506_0708), sha256_hex(&preimage));
    assert_ne!(digest_hex("abc", 1), digest_hex("abc", 2));
}

#[test]
fn leading_zeros_are_counted_exactly() {
    assert!(starts_with_zeros("", 0));
    assert!(starts_with_zeros("abc", 0));
    assert!(starts_with_zeros("0abc", 1));
    assert!(starts_with_zeros("000a", 3));
    assert!(starts_with_zeros("0000", 4));
    assert!(!starts_with_zeros("000a", 4));
    assert!(!starts_with_zeros("a000", 1));
    assert!(!starts_with_zeros("0", 2));
    assert!(!starts_with_zeros("", 1));
    assert!(!starts_with_zeros("00", u32::MAX));
    assert!(starts_with_zeros("00ó0", 2));
    assert!(!starts_with_zeros("00ó0", 3));
}

#[test]
fn the_digest_of_a_nonce_has_64_characters() {
    for (data, nonce) in [("", 0u64), ("reto-pow-4", 12345), ("ñandú", u64::MAX)] {
        assert_eq!(digest_hex(data, nonce).chars().count(), 64);
    }
}
