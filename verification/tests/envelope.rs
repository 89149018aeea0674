use secrt::envelope::{preamble, Envelope, FORMAT_VERSION, HEADER_LEN, NONCE_LEN, SALT_LEN, TAG_LEN};
use secrt::error::EnvelopeError;

fn sample(required: bool, cost: u32) -> Envelope {
    Envelope {
        version: 1,
        passphrase_required: required,
        kdf_cost: cost,
        salt: (100..116u8).collect(),
        nonce: (200..212u8).collect(),
        ciphertext: (0..21u8).collect(),
    }
}

#[test]
fn the_layout_constants_add_up() {
    assert_eq!(FORMAT_VERSION, 1);
    assert_eq!(SALT_LEN, 16);
    assert_eq!(NONCE_LEN, 12);
    assert_eq!(TAG_LEN, 16);
    assert_eq!(HEADER_LEN, 1 + 1 + 4 + SALT_LEN + NONCE_LEN);
}

#[test]
fn the_wire_form_is_header_then_ciphertext() {
    let bytes = sample(true, 0x0102_0304).to_bytes().unwrap();
    let mut expected = vec![1u8, 1, 1, 2, 3, 4];
    expected.extend(100..116u8);
    expected.extend(200..212u8);
    expected.extend(0..21u8);
    assert_eq!(bytes, expected);
    assert_eq!(sample(false, 0).to_bytes().unwrap()[..6], [1u8, 0, 0, 0, 0, 0]);
}

#[test]
fn the_preamble_is_version_marker_and_cost() {
    assert_eq!(preamble(1, true, 600_000), vec![1u8, 1, 0x00, 0x09, 0x27, 0xc0]);
    assert_eq!(preamble(1, false, 0), vec![1u8, 0, 0, 0, 0, 0]);
    assert_eq!(preamble(7, true, u32::MAX), vec![7u8, 1, 255, 255, 255, 255]);
}

#[test]
fn reading_inverts_writing() {
    for (required, cost) in [(false, 0u32), (true, 1), (true, 600_000), (true, u32::MAX)] {
        let envelope = sample(required, cost);
        let bytes = envelope.to_bytes().unwrap();
        assert_eq!(Envelope::from_bytes(&bytes), Ok(envelope));
    }
}

#[test]
fn writing_inverts_reading() {
    let mut bytes = vec![1u8, 1, 0, 0, 1, 0];
    bytes.extend((0..60u8).map(|i| i.wrapping_mul(13)));
    let envelope = Envelope::from_bytes(&bytes).unwrap();
    assert_eq!(envelope.kdf_cost, 256);
    assert!(envelope.is_well_formed());
    assert_eq!(envelope.to_bytes(), Ok(bytes));
}

#[test]
fn a_malformed_envelope_has_no_wire_form() {
    let mut e = sample(true, 5);
    e.version = 2;
    assert_eq!(e.to_bytes(), Err(EnvelopeError::MalformedEnvelope));
    let mut e = sample(true, 5);
    e.salt.pop();
    assert_eq!(e.to_bytes(), Err(EnvelopeError::MalformedEnvelope));
    let mut e = sample(true, 5);
    e.nonce.push(0);
    assert_eq!(e.to_bytes(), Err(EnvelopeError::MalformedEnvelope));
    let mut e = sample(true, 5);
    e.ciphertext.truncate(15);
    assert_eq!(e.to_bytes(), Err(EnvelopeError::MalformedEnvelope));
    assert_eq!(sample(true, 0).to_bytes(), Err(EnvelopeError::MalformedEnvelope));
    assert_eq!(sample(false, 9).to_bytes(), Err(EnvelopeError::MalformedEnvelope));
    assert!(!sample(false, 9).is_well_formed());
    assert!(sample(false, 0).is_well_formed());
}

#[test]
fn malformed_bytes_read_as_no_envelope() {
    let good = sample(true, 3).to_bytes().unwrap();
    assert!(Envelope::from_bytes(&good).is_ok());
    assert_eq!(Envelope::from_bytes(&[]), Err(EnvelopeError::MalformedEnvelope));
    assert_eq!(Envelope::from_bytes(&good[..49]), Err(EnvelopeError::MalformedEnvelope));
    assert!(Envelope::from_bytes(&good[..50]).is_ok());
    let mut other_version = good.clone();
    other_version[0] = 2;
    assert_eq!(Envelope::from_bytes(&other_version), Err(EnvelopeError::MalformedEnvelope));
    let mut odd_marker = good.clone();
    odd_marker[1] = 3;
    assert_eq!(Envelope::from_bytes(&odd_marker), Err(EnvelopeError::MalformedEnvelope));
    let mut marker_without_cost = good.clone();
    marker_without_cost[5] = 0;
    assert_eq!(Envelope::from_bytes(&marker_without_cost), Err(EnvelopeError::MalformedEnvelope));
    let mut cost_without_marker = good.clone();
    cost_without_marker[1] = 0;
    assert_eq!(Envelope::from_bytes(&cost_without_marker), Err(EnvelopeError::MalformedEnvelope));
}

#[test]
fn a_duplicate_is_equal() {
    let envelope = sample(true, 77);
    assert_eq!(envelope.duplicate(), envelope);
}
