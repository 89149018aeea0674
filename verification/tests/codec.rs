use secrt::codec::{b64_decode, b64_encode};
use secrt::error::EnvelopeError;

#[test]
fn encodes_the_rfc_4648_vectors_without_padding() {
    assert_eq!(b64_encode(b""), b"".to_vec());
    assert_eq!(b64_encode(b"f"), b"Zg".to_vec());
    assert_eq!(b64_encode(b"fo"), b"Zm8".to_vec());
    assert_eq!(b64_encode(b"foo"), b"Zm9v".to_vec());
    assert_eq!(b64_encode(b"foob"), b"Zm9vYg".to_vec());
    assert_eq!(b64_encode(b"fooba"), b"Zm9vYmE".to_vec());
    assert_eq!(b64_encode(b"foobar"), b"Zm9vYmFy".to_vec());
}

#[test]
fn encodes_with_the_url_safe_alphabet() {
    assert_eq!(b64_encode(&[0xfb, 0xff]), b"-_8".to_vec());
    assert_eq!(b64_encode(&[0xff, 0xff, 0xff]), b"____".to_vec());
    assert_eq!(b64_encode(&[0xf8, 0x00, 0x00]), b"-AAA".to_vec());
    assert_eq!(b64_encode(&[0x00]), b"AA".to_vec());
}

#[test]
fn decodes_what_was_encoded() {
    assert_eq!(b64_decode(b""), Ok(b"".to_vec()));
    assert_eq!(b64_decode(b"Zg"), Ok(b"f".to_vec()));
    assert_eq!(b64_decode(b"Zm8"), Ok(b"fo".to_vec()));
    assert_eq!(b64_decode(b"Zm9v"), Ok(b"foo".to_vec()));
    assert_eq!(b64_decode(b"Zm9vYmFy"), Ok(b"foobar".to_vec()));
    assert_eq!(b64_decode(b"-_8"), Ok(vec![0xfb, 0xff]));
}

#[test]
fn decoding_inverts_encoding_for_every_length() {
    let mut data: Vec<u8> = Vec::new();
    for n in 0..70usize {
        let text = b64_encode(&data);
        assert_eq!(text.len(), (4 * n + 2) / 3);
        assert_eq!(b64_decode(&text), Ok(data.clone()));
        data.push((n * 37 + 11) as u8);
    }
}

#[test]
fn decoding_inverts_encoding_for_every_byte_value() {
    for b in 0..=255u8 {
        let data = vec![b, b.wrapping_mul(3), b.wrapping_add(91), b];
        assert_eq!(b64_decode(&b64_encode(&data)), Ok(data));
    }
}

#[test]
fn decode_rejects_bytes_outside_the_alphabet() {
    assert_eq!(b64_decode(b"Zm9+"), Err(EnvelopeError::MalformedEncoding));
    assert_eq!(b64_decode(b"Zm9/"), Err(EnvelopeError::MalformedEncoding));
    assert_eq!(b64_decode(b"Zg=="), Err(EnvelopeError::MalformedEncoding));
    assert_eq!(b64_decode(b"Zm 9"), Err(EnvelopeError::MalformedEncoding));
    assert_eq!(b64_decode(b"Zm9v\n"), Err(EnvelopeError::MalformedEncoding));
    assert_eq!(b64_decode(&[0xc3, 0xa9]), Err(EnvelopeError::MalformedEncoding));
}

#[test]
fn decode_rejects_a_length_that_no_encoding_has() {
    assert_eq!(b64_decode(b"Z"), Err(EnvelopeError::MalformedEncoding));
    assert_eq!(b64_decode(b"Zm9vY"), Err(EnvelopeError::MalformedEncoding));
}

#[test]
fn decode_rejects_leftover_bits() {
    // "Zh" spells the byte of "Zg" with one of the four unused bits set.
    assert_eq!(b64_decode(b"Zh"), Err(EnvelopeError::MalformedEncoding));
    assert_eq!(b64_decode(b"Zm9"), Err(EnvelopeError::MalformedEncoding));
    assert_eq!(b64_decode(b"Zm8"), Ok(b"fo".to_vec()));
}
