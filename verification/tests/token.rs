use secrt::error::EnvelopeError;
use secrt::token::{claim_commitment, derive_claim_token, COMMITMENT_LEN, KEY_LEN, TOKEN_LEN};

fn key(seed: u8) -> Vec<u8> {
    (0..32u8).map(|i| i.wrapping_mul(31).wrapping_add(seed)).collect()
}

#[test]
fn the_token_is_hkdf_of_the_key_under_the_claim_context() {
    let mut expected = [0u8; 32];
    hkdf::Hkdf::<sha2::Sha256>::new(Some(&[]), &key(1))
        .expand(b"secrt:v1:claim", &mut expected)
        .unwrap();
    assert_eq!(derive_claim_token(&key(1)), Ok(expected.to_vec()));
    assert_ne!(derive_claim_token(&key(1)), Ok(key(1)));
}

#[test]
fn the_same_key_gives_the_same_token() {
    for seed in 0..20u8 {
        assert_eq!(derive_claim_token(&key(seed)), derive_claim_token(&key(seed)));
        assert_eq!(derive_claim_token(&key(seed)).unwrap().len(), TOKEN_LEN);
    }
}

#[test]
fn distinct_keys_give_distinct_tokens() {
    let mut seen: Vec<Vec<u8>> = Vec::new();
    for seed in 0..=255u8 {
        let token = derive_claim_token(&key(seed)).unwrap();
        assert!(!seen.contains(&token));
        seen.push(token);
    }
}

#[test]
fn a_key_of_the_wrong_length_is_refused() {
    assert_eq!(KEY_LEN, 32);
    assert_eq!(derive_claim_token(&[]), Err(EnvelopeError::KeyDerivationError));
    assert_eq!(derive_claim_token(&key(0)[..31]), Err(EnvelopeError::KeyDerivationError));
    let mut long = key(0);
    long.push(0);
    assert_eq!(derive_claim_token(&long), Err(EnvelopeError::KeyDerivationError));
}

#[test]
fn the_commitment_is_the_sha256_of_the_token() {
    let expected: [u8; 32] = [
        0xba, 0x78, 0x16, 0xbf, 0x8f, 0x01, 0xcf, 0xea, 0x41, 0x41, 0x40, 0xde, 0x5d, 0xae, 0x22,
        0x23, 0xb0, 0x03, 0x61, 0xa3, 0x96, 0x17, 0x7a, 0x9c, 0xb4, 0x10, 0xff, 0x61, 0xf2, 0x00,
        0x15, 0xad,
    ];
    assert_eq!(claim_commitment(b"abc"), expected.to_vec());
    assert_eq!(claim_commitment(b"abc").len(), COMMITMENT_LEN);
}

#[test]
fn the_commitment_is_neither_the_token_nor_the_key() {
    let token = derive_claim_token(&key(9)).unwrap();
    let commitment = claim_commitment(&token);
    assert_ne!(commitment, token);
    assert_ne!(commitment, key(9));
    assert_ne!(token, key(9));
}
