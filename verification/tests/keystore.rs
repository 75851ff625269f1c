use smcu::keystore::ConfigParseError;
use smcu::keystore::{config_fields, derived_public_key, generate, identity_from_config, identity_from_entropy};

fn rfc8032_secret() -> Vec<u8> {
    vec![
        0x9d, 0x61, 0xb1, 0x9d, 0xef, 0xfd, 0x5a, 0x60, 0xba, 0x84, 0x4a, 0xf4, 0x92, 0xec, 0x2c,
        0xc4, 0x44, 0x49, 0xc5, 0x69, 0x7b, 0x32, 0x69, 0x19, 0x70, 0x3b, 0xac, 0x03, 0x1c, 0xae,
        0x7f, 0x60,
    ]
}

fn rfc8032_public() -> Vec<u8> {
    vec![
        0xd7, 0x5a, 0x98, 0x01, 0x82, 0xb1, 0x0a, 0xb7, 0xd5, 0x4b, 0xfe, 0xd3, 0xc9, 0x64, 0x07,
        0x3a, 0x0e, 0xe1, 0x72, 0xf3, 0xda, 0xa6, 0x23, 0x25, 0xaf, 0x02, 0x1a, 0x68, 0xf7, 0x07,
        0x51, 0x1a,
    ]
}

#[test]
fn derived_is_same() {
    let id = generate();
    let derive_pub = derived_public_key(&id.secret_key);
    assert_eq!(derive_pub, id.public_key);
}

#[test]
fn lib_derived_is_same() {
    let id = generate();
    let derive_pub = derived_public_key(&id.secret_key);
    assert_eq!(derive_pub, id.public_key);
}

#[test]
fn derivation_matches_known_vector() {
    let id = identity_from_entropy(rfc8032_secret(), 0);
    assert_eq!(rfc8032_public(), id.public_key);
}

#[test]
fn hardware_tag_is_zero_padded() {
    let id = identity_from_entropy(rfc8032_secret(), 7);
    assert_eq!(b"A00000007".to_vec(), id.hardware_id);
    let id = identity_from_entropy(rfc8032_secret(), 4294967295);
    assert_eq!(b"A4294967295".to_vec(), id.hardware_id);
    let id = identity_from_entropy(rfc8032_secret(), 0);
    assert_eq!(b"A00000000".to_vec(), id.hardware_id);
}

#[test]
fn generated_identity_is_well_formed() {
    let id = generate();
    assert_eq!(32, id.secret_key.len());
    assert_eq!(32, id.public_key.len());
    assert_eq!(b'A', id.hardware_id[0]);
    assert!(id.hardware_id.len() >= 9);
    let other = generate();
    assert_ne!(id.secret_key, other.secret_key);
}

#[test]
fn config_round_trip_preserves_identity() {
    let id = identity_from_entropy(rfc8032_secret(), 902525);
    let (secret_b58, hardware_id) = config_fields(&id);
    assert_ne!(secret_b58, id.secret_key);
    let reloaded = identity_from_config(&secret_b58, hardware_id).unwrap();
    assert_eq!(id.secret_key, reloaded.secret_key);
    assert_eq!(id.public_key, reloaded.public_key);
    assert_eq!(id.hardware_id, reloaded.hardware_id);
}

#[test]
fn generated_config_round_trip_preserves_identity() {
    let id = generate();
    let (secret_b58, hardware_id) = config_fields(&id);
    let reloaded = identity_from_config(&secret_b58, hardware_id).unwrap();
    assert_eq!(id.secret_key, reloaded.secret_key);
    assert_eq!(id.public_key, reloaded.public_key);
    assert_eq!(id.hardware_id, reloaded.hardware_id);
}

#[test]
fn all_zero_key_encodes_to_ones() {
    let id = identity_from_entropy(vec![0u8; 32], 1);
    let (secret_b58, _) = config_fields(&id);
    assert_eq!(b"11111111111111111111111111111111".to_vec(), secret_b58);
}

#[test]
fn invalid_base58_is_a_parse_error() {
    let r = identity_from_config(&b"0OIl".to_vec(), b"A00000001".to_vec());
    assert_eq!(Err(ConfigParseError), r.map(|_| ()));
}

#[test]
fn wrong_key_length_is_a_parse_error() {
    let short = bs58::encode(&[1u8; 31]).into_vec();
    let r = identity_from_config(&short, b"A00000001".to_vec());
    assert_eq!(Err(ConfigParseError), r.map(|_| ()));
    let long = bs58::encode(&[1u8; 33]).into_vec();
    let r = identity_from_config(&long, b"A00000001".to_vec());
    assert_eq!(Err(ConfigParseError), r.map(|_| ()));
}
