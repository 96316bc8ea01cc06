use salty::protocol::{
    build_message, check_candidate, digest_matches, examine_candidate, nonce_bytes,
    CONTROL_CHARACTER,
};
use salty::FoundResult;

const FACTORY: [u8; 20] = [0x00; 20];
const CALLER: [u8; 20] = [0x11; 20];
const SEGMENT: [u8; 4] = [0xde, 0xad, 0xbe, 0xef];

// Keccak-256 of the empty byte sequence.
const CODEHASH: [u8; 32] = [
    0xc5, 0xd2, 0x46, 0x01, 0x86, 0xf7, 0x23, 0x3c, 0x92, 0x7e, 0x7d, 0xb2, 0xdc, 0xc7, 0x03, 0xc0,
    0xe5, 0x00, 0xb6, 0x53, 0xca, 0x82, 0x27, 0x3b, 0x7b, 0xfa, 0xd8, 0x04, 0x5d, 0x85, 0xa4, 0x70,
];

fn digest_with_address(address: [u8; 20]) -> [u8; 32] {
    let mut digest = [0xee; 32];
    digest[12..].copy_from_slice(&address);
    digest
}

#[test]
fn nonce_bytes_are_little_endian() {
    assert_eq!(nonce_bytes(0), [0; 8]);
    assert_eq!(nonce_bytes(1), [1, 0, 0, 0, 0, 0, 0, 0]);
    assert_eq!(nonce_bytes(0x0102030405060708), [8, 7, 6, 5, 4, 3, 2, 1]);
    assert_eq!(nonce_bytes(u64::MAX), [0xff; 8]);
    assert_eq!(nonce_bytes(0xa4c56d0b8a6b92e9), 0xa4c56d0b8a6b92e9u64.to_le_bytes());
}

#[test]
fn message_has_the_fixed_layout() {
    let factory: [u8; 20] = core::array::from_fn(|i| 0x20 + i as u8);
    let caller: [u8; 20] = core::array::from_fn(|i| 0x40 + i as u8);
    let codehash: [u8; 32] = core::array::from_fn(|i| 0x80 + i as u8);
    let message = build_message(&factory, &caller, &[0xa1, 0xa2, 0xa3, 0xa4], 0x0807060504030201, &codehash);
    assert_eq!(message.len(), 85);
    assert_eq!(message[0], 0xff);
    assert_eq!(message[0], CONTROL_CHARACTER);
    assert_eq!(message[1..21], factory);
    assert_eq!(message[21..41], caller);
    assert_eq!(message[41..45], [0xa1, 0xa2, 0xa3, 0xa4]);
    assert_eq!(message[45..53], [1, 2, 3, 4, 5, 6, 7, 8]);
    assert_eq!(message[53..85], codehash);
}

#[test]
fn known_message_has_known_digest() {
    let message = build_message(&FACTORY, &CALLER, &SEGMENT, 0, &CODEHASH);
    assert_eq!(
        alloy_primitives::hex::encode(message),
        "ff00000000000000000000000000000000000000001111111111111111111111111111111111111111\
         deadbeef0000000000000000c5d2460186f7233c927e7db2dcc703c0e500b653ca82273b7bfad8045d85a470"
    );
    let digest = alloy_primitives::keccak256(message);
    assert_eq!(
        alloy_primitives::hex::encode(digest),
        "3cdd7d774dd2a5837c0f99342bc811e04d8a388dc109b7c553df685b4a887bab"
    );
    // The address is 2bc811e0...: its first byte is not zero.
    assert!(!digest_matches(&digest.0, &[0x00]));
    assert!(digest_matches(&digest.0, &[0x2b]));
    assert_eq!(examine_candidate(&message, &digest.0, &[0x00]), None);
}

#[test]
fn candidate_is_reported_only_when_its_first_address_byte_is_the_pattern() {
    // Nonce 407 is the first from zero whose address begins with a zero byte.
    let hit = check_candidate(&FACTORY, &CALLER, &CODEHASH, &[0x00], &SEGMENT, 407);
    assert_eq!(
        hit,
        Some(FoundResult {
            salt: "0x1111111111111111111111111111111111111111deadbeef9701000000000000".to_string(),
            address: "0x0069ed1d4118a46d4f189d02e705b274616071b5".to_string(),
            pattern: "0x00".to_string(),
        })
    );
    for nonce in 0..407 {
        assert_eq!(check_candidate(&FACTORY, &CALLER, &CODEHASH, &[0x00], &SEGMENT, nonce), None);
    }
    assert_eq!(check_candidate(&FACTORY, &CALLER, &CODEHASH, &[0x01], &SEGMENT, 407), None);
}

#[test]
fn candidate_hash_is_keccak_of_the_message() {
    for nonce in [0u64, 1, 2, 407, u64::MAX] {
        let message = build_message(&FACTORY, &CALLER, &SEGMENT, nonce, &CODEHASH);
        let digest = alloy_primitives::keccak256(message);
        let first = digest[12];
        let found = check_candidate(&FACTORY, &CALLER, &CODEHASH, &[first], &SEGMENT, nonce)
            .expect("the address begins with its own first byte");
        assert_eq!(found.address, format!("0x{}", alloy_primitives::hex::encode(&digest[12..])));
        assert_eq!(found, examine_candidate(&message, &digest.0, &[first]).unwrap());
    }
}

#[test]
fn known_digest_of_the_first_nonces() {
    let expected = [
        "3cdd7d774dd2a5837c0f99342bc811e04d8a388dc109b7c553df685b4a887bab",
        "d7aa383c49468d3841befbf00f5e438bb7f70f267c50b2c3150802fa1ab68955",
        "6bf4ef3d0512ba01d557a21abcdb951dda5a3cd5fe9347555d5431db90deb8ab",
    ];
    for (nonce, digest) in expected.iter().enumerate() {
        let address = &digest[24..];
        let first = u8::from_str_radix(&address[..2], 16).unwrap();
        let found =
            check_candidate(&FACTORY, &CALLER, &CODEHASH, &[first], &SEGMENT, nonce as u64).unwrap();
        assert_eq!(found.address, format!("0x{address}"));
    }
}

#[test]
fn full_length_pattern_matches_only_the_equal_address() {
    let address: [u8; 20] = core::array::from_fn(|i| i as u8 + 1);
    let digest = digest_with_address(address);
    assert!(digest_matches(&digest, &address));
    for i in 0..20 {
        let mut other = address;
        other[i] ^= 0x01;
        assert!(!digest_matches(&digest, &other));
    }
}

#[test]
fn single_byte_pattern_looks_at_the_first_byte_only() {
    let mut address = [0x55u8; 20];
    address[0] = 0x00;
    assert!(digest_matches(&digest_with_address(address), &[0x00]));
    assert!(digest_matches(&digest_with_address([0x00; 20]), &[0x00]));
    address[19] = 0x00;
    assert!(digest_matches(&digest_with_address(address), &[0x00]));
    address[0] = 0x01;
    assert!(!digest_matches(&digest_with_address(address), &[0x00]));
}

#[test]
fn pattern_is_compared_with_the_last_twenty_bytes() {
    let mut digest = [0u8; 32];
    digest[0] = 0xaa;
    digest[11] = 0xbb;
    digest[12] = 0xcc;
    digest[13] = 0xdd;
    assert!(digest_matches(&digest, &[0xcc]));
    assert!(digest_matches(&digest, &[0xcc, 0xdd]));
    assert!(digest_matches(&digest, &[0xcc, 0xdd, 0x00]));
    assert!(!digest_matches(&digest, &[0xaa]));
    assert!(!digest_matches(&digest, &[0xbb]));
    assert!(!digest_matches(&digest, &[0xcc, 0xde]));
}

#[test]
fn empty_pattern_matches_and_overlong_pattern_does_not() {
    let digest = [0u8; 32];
    assert!(digest_matches(&digest, &[]));
    assert!(digest_matches(&digest, &[0u8; 20]));
    assert!(!digest_matches(&digest, &[0u8; 21]));
}

#[test]
fn report_holds_three_prefixed_lowercase_strings() {
    let message = build_message(&FACTORY, &CALLER, &SEGMENT, 0xABCDEF, &CODEHASH);
    let mut address = [0xABu8; 20];
    address[0] = 0xC0;
    let digest = digest_with_address(address);
    let found = examine_candidate(&message, &digest, &[0xC0, 0xAB]).unwrap();
    assert_eq!(found.salt, "0x1111111111111111111111111111111111111111deadbeefefcdab0000000000");
    assert_eq!(found.address, "0xc0ababababababababababababababababababab");
    assert_eq!(found.pattern, "0xc0ab");
    assert_eq!(found.salt.len(), 2 + 64);
    assert_eq!(found.address.len(), 2 + 40);
}

#[test]
fn report_has_a_salt_of_32_bytes_and_an_address_of_20() {
    let found = check_candidate(&FACTORY, &CALLER, &CODEHASH, &[0x00], &SEGMENT, 407).unwrap();
    assert_eq!(found.salt.len(), 66);
    assert_eq!(found.address.len(), 42);
    assert_eq!(found.pattern.len(), 4);
    assert!(found.salt.starts_with("0x") && found.address.starts_with("0x"));
}
