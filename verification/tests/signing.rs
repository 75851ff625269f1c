use smcu::keystore::identity_from_entropy;
use smcu::loradatarate::CodecError;
use smcu::signer::{canonical_message_bytes, sign, verify_signature, LoraPacket};
use smcu::SIGNATURE_LENGTH;

fn test_identity() -> smcu::keystore::SMCU {
    identity_from_entropy(
        vec![
            0x9d, 0x61, 0xb1, 0x9d, 0xef, 0xfd, 0x5a, 0x60, 0xba, 0x84, 0x4a, 0xf4, 0x92, 0xec,
            0x2c, 0xc4, 0x44, 0x49, 0xc5, 0x69, 0x7b, 0x32, 0x69, 0x19, 0x70, 0x3b, 0xac, 0x03,
            0x1c, 0xae, 0x7f, 0x60,
        ],
        7,
    )
}

fn test_packet() -> LoraPacket {
    LoraPacket {
        payload: vec![1, 2, 3],
        tmstmp: 7,
        rssi_q: -42,
        snr_q: -421,
        freq_hz: 902_525_000,
        bandwidth: 0x04,
        datarate: 10,
    }
}

#[test]
fn test_freq_float() {
    let f_mhz = 902.5246777_f32;
    let f_khz = f_mhz * 1000_f32;
    let r = f_khz.round() as u32;
    assert_eq!(902525_u32, r);
}

#[test]
fn test_freq_int() {
    let f_mhz = 902_525_000_u32;
    let f_khz = f_mhz / 1000;
    assert_eq!(902525_u32, f_khz);
}

#[test]
fn canonical_message_exact_bytes() {
    let id = test_identity();
    let pkt = test_packet();
    let message = canonical_message_bytes(&pkt, &id.hardware_id).unwrap();
    let mut expected: Vec<u8> = Vec::new();
    expected.extend_from_slice(&[1, 2, 3]);
    expected.extend_from_slice(&[0, 0, 0, 3]);
    expected.extend_from_slice(&[0, 0, 0, 7]);
    expected.extend_from_slice(&(-42_i32).to_be_bytes());
    expected.extend_from_slice(&(-421_i32).to_be_bytes());
    expected.extend_from_slice(b"SF10BW125");
    expected.extend_from_slice(&902525_u32.to_be_bytes());
    expected.extend_from_slice(b"A00000007");
    assert_eq!(expected, message);
}

#[test]
fn sign_is_deterministic() {
    let id = test_identity();
    let pkt = test_packet();
    let first = sign(&id, &pkt).unwrap();
    let second = sign(&id, &pkt).unwrap();
    assert_eq!(first, second);
    assert_eq!(SIGNATURE_LENGTH, first.len());
}

#[test]
fn signature_verifies_against_public_key() {
    let id = test_identity();
    let pkt = test_packet();
    let sig = sign(&id, &pkt).unwrap();
    assert_eq!(Ok(true), verify_signature(&id, &pkt, &sig));
}

#[test]
fn tampered_signature_is_rejected() {
    let id = test_identity();
    let pkt = test_packet();
    let mut sig = sign(&id, &pkt).unwrap();
    sig[0] ^= 1;
    assert_eq!(Ok(false), verify_signature(&id, &pkt, &sig));
}

#[test]
fn signature_depends_on_the_message() {
    let id = test_identity();
    let pkt = test_packet();
    let mut other = test_packet();
    other.tmstmp += 1;
    let sig = sign(&id, &pkt).unwrap();
    let sig_other = sign(&id, &other).unwrap();
    assert_ne!(sig, sig_other);
    assert_eq!(Ok(false), verify_signature(&id, &other, &sig));
}

#[test]
fn unknown_datarate_aborts_the_sign_call() {
    let id = test_identity();
    let mut pkt = test_packet();
    pkt.datarate = 4;
    assert_eq!(Err(CodecError::UnknownDatarate(4)), sign(&id, &pkt));
    pkt.datarate = 13;
    assert_eq!(Err(CodecError::UnknownDatarate(13)), sign(&id, &pkt));
}

#[test]
fn unknown_bandwidth_aborts_the_sign_call() {
    let id = test_identity();
    let mut pkt = test_packet();
    pkt.bandwidth = 0x07;
    assert_eq!(Err(CodecError::UnknownBandwidth(0x07)), sign(&id, &pkt));
}

#[test]
fn empty_payload_and_tag_sign_and_verify() {
    let mut id = test_identity();
    id.hardware_id = Vec::new();
    let pkt = LoraPacket {
        payload: Vec::new(),
        tmstmp: 0,
        rssi_q: 0,
        snr_q: 0,
        freq_hz: 0,
        bandwidth: 0x06,
        datarate: 12,
    };
    let message = canonical_message_bytes(&pkt, &id.hardware_id).unwrap();
    let mut expected: Vec<u8> = Vec::new();
    expected.extend_from_slice(&[0; 16]);
    expected.extend_from_slice(b"SF12BW500");
    expected.extend_from_slice(&[0; 4]);
    assert_eq!(expected, message);
    let sig = sign(&id, &pkt).unwrap();
    assert_eq!(Ok(true), verify_signature(&id, &pkt, &sig));
}

#[test]
fn largest_payload_is_accepted() {
    let id = test_identity();
    let mut pkt = test_packet();
    pkt.payload = vec![0xAB; 256];
    let sig = sign(&id, &pkt).unwrap();
    assert_eq!(Ok(true), verify_signature(&id, &pkt, &sig));
}
