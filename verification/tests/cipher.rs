use aes_gcm::aead::{Aead, Payload};
use aes_gcm::{Aes256Gcm, Key, KeyInit, Nonce};
use secrt::cipher::{
    open, opening, requires_passphrase, seal, DEFAULT_KDF_COST, MAX_PLAINTEXT_LEN, SEAL_RANDOM_LEN,
};
use secrt::envelope::Envelope;
use secrt::error::EnvelopeError;
use secrt::token::{claim_commitment, derive_claim_token};

fn random(seed: u8) -> Vec<u8> {
    (0..60u8).map(|i| i.wrapping_mul(97).wrapping_add(seed)).collect()
}

fn expected_ciphertext(plaintext: &[u8], passphrase: &[u8], random: &[u8], cost: u32) -> Vec<u8> {
    let mut material = random[..32].to_vec();
    if !passphrase.is_empty() {
        let mut stretched = [0u8; 32];
        pbkdf2::pbkdf2_hmac::<sha2::Sha256>(passphrase, &random[32..48], cost, &mut stretched);
        material.extend_from_slice(&stretched);
    }
    let mut key = [0u8; 32];
    hkdf::Hkdf::<sha2::Sha256>::new(Some(&random[32..48]), &material)
        .expand(b"secrt:v1:seal", &mut key)
        .unwrap();
    let mut aad = vec![1u8, if passphrase.is_empty() { 0 } else { 1 }];
    aad.extend_from_slice(&cost.to_be_bytes());
    Aes256Gcm::new(Key::<Aes256Gcm>::from_slice(&key))
        .encrypt(Nonce::from_slice(&random[48..60]), Payload { msg: plaintext, aad: &aad })
        .unwrap()
}

#[test]
fn the_constants_are_as_documented() {
    assert_eq!(SEAL_RANDOM_LEN, 32 + 16 + 12);
    assert_eq!(DEFAULT_KDF_COST, 600_000);
    assert_eq!(MAX_PLAINTEXT_LEN, (1u64 << 36) - 32);
}

#[test]
fn sealing_takes_key_salt_and_nonce_from_the_random_bytes() {
    let sealed = seal(b"attack at dawn", b"", &random(5), 0).unwrap();
    assert_eq!(sealed.client_key, random(5)[..32].to_vec());
    assert_eq!(sealed.envelope.salt, random(5)[32..48].to_vec());
    assert_eq!(sealed.envelope.nonce, random(5)[48..60].to_vec());
    assert_eq!(sealed.envelope.version, 1);
    assert_eq!(sealed.envelope.ciphertext.len(), 14 + 16);
    assert!(sealed.envelope.is_well_formed());
}

#[test]
fn sealing_without_a_passphrase_is_the_cipher_under_the_derived_key() {
    let sealed = seal(b"attack at dawn", b"", &random(5), 0).unwrap();
    assert_eq!(sealed.envelope.kdf_cost, 0);
    assert_eq!(sealed.envelope.ciphertext, expected_ciphertext(b"attack at dawn", b"", &random(5), 0));
    assert_ne!(sealed.envelope.ciphertext[..14], b"attack at dawn"[..]);
}

#[test]
fn sealing_with_a_passphrase_stretches_it_into_the_key() {
    let sealed = seal(b"attack at dawn", b"hunter2", &random(6), 3).unwrap();
    assert_eq!(sealed.envelope.kdf_cost, 3);
    assert_eq!(
        sealed.envelope.ciphertext,
        expected_ciphertext(b"attack at dawn", b"hunter2", &random(6), 3)
    );
    assert_ne!(
        sealed.envelope.ciphertext,
        expected_ciphertext(b"attack at dawn", b"hunter2", &random(6), 4)
    );
    assert_ne!(
        sealed.envelope.ciphertext,
        expected_ciphertext(b"attack at dawn", b"", &random(6), 0)
    );
}

#[test]
fn sealing_commits_to_the_claim_token_of_the_client_key() {
    let sealed = seal(b"x", b"", &random(1), 0).unwrap();
    let token = derive_claim_token(&sealed.client_key).unwrap();
    assert_eq!(sealed.claim_commitment, claim_commitment(&token));
}

#[test]
fn more_random_bytes_than_needed_are_ignored() {
    let mut long = random(5);
    long.extend_from_slice(&[9, 9, 9]);
    assert_eq!(seal(b"p", b"x", &long, 2), seal(b"p", b"x", &random(5), 2));
}

#[test]
fn too_few_random_bytes_fail_the_sealing() {
    assert_eq!(seal(b"p", b"", &[], 0), Err(EnvelopeError::EncryptionFailed));
    assert_eq!(seal(b"p", b"", &random(0)[..59], 0), Err(EnvelopeError::EncryptionFailed));
    assert_eq!(seal(b"p", b"x", &random(0)[..32], 1), Err(EnvelopeError::EncryptionFailed));
    assert!(seal(b"p", b"", &random(0)[..60], 0).is_ok());
}

#[test]
fn opening_inverts_sealing() {
    let plaintexts: [&[u8]; 4] = [b"", b"s", b"attack at dawn", &[0u8, 255, 10, 13, 0, 128]];
    let passphrases: [&[u8]; 4] = [b"", b"x", b"correct horse battery staple", &[0xc3, 0xa9, 0]];
    for (i, plaintext) in plaintexts.iter().enumerate() {
        for (j, passphrase) in passphrases.iter().enumerate() {
            let sealed = seal(plaintext, passphrase, &random((i * 4 + j) as u8), 2).unwrap();
            assert_eq!(
                open(&sealed.envelope, &sealed.client_key, passphrase),
                Ok(plaintext.to_vec())
            );
        }
    }
}

#[test]
fn opening_inverts_sealing_for_a_long_plaintext() {
    let plaintext: Vec<u8> = (0..100_000u32).map(|i| (i % 251) as u8).collect();
    let sealed = seal(&plaintext, b"pw", &random(3), 1).unwrap();
    assert_eq!(sealed.envelope.ciphertext.len(), plaintext.len() + 16);
    assert_eq!(open(&sealed.envelope, &sealed.client_key, b"pw"), Ok(plaintext));
}

#[test]
fn opening_survives_the_wire() {
    let sealed = seal(b"over the wire", b"pw", &random(8), 2).unwrap();
    let received = Envelope::from_bytes(&sealed.envelope.to_bytes().unwrap()).unwrap();
    assert_eq!(open(&received, &sealed.client_key, b"pw"), Ok(b"over the wire".to_vec()));
}

#[test]
fn a_wrong_passphrase_fails_to_decrypt() {
    let sealed = seal(b"secret", b"right", &random(2), 2).unwrap();
    for wrong in [&b"wrong"[..], b"Right", b"right ", b"righ", b""] {
        assert_eq!(
            open(&sealed.envelope, &sealed.client_key, wrong),
            Err(EnvelopeError::DecryptionFailed)
        );
    }
    let bare = seal(b"secret", b"", &random(2), 2).unwrap();
    assert_eq!(open(&bare.envelope, &bare.client_key, b"any"), Err(EnvelopeError::DecryptionFailed));
}

#[test]
fn a_wrong_key_fails_to_decrypt() {
    let sealed = seal(b"secret", b"pw", &random(2), 2).unwrap();
    let mut other = sealed.client_key.clone();
    other[31] ^= 1;
    assert_eq!(open(&sealed.envelope, &other, b"pw"), Err(EnvelopeError::DecryptionFailed));
    assert_eq!(open(&sealed.envelope, &other[..31], b"pw"), Err(EnvelopeError::DecryptionFailed));
    assert_eq!(open(&sealed.envelope, &[], b"pw"), Err(EnvelopeError::DecryptionFailed));
}

#[test]
fn the_marker_says_whether_a_passphrase_was_given() {
    assert!(!requires_passphrase(&seal(b"p", b"", &random(1), 0).unwrap().envelope));
    assert!(!requires_passphrase(&seal(b"p", b"", &random(1), 9).unwrap().envelope));
    assert!(requires_passphrase(&seal(b"p", b"secret", &random(1), 2).unwrap().envelope));
    assert_eq!(seal(b"p", b"", &random(1), 9).unwrap().envelope.kdf_cost, 0);
}

#[test]
fn a_flipped_bit_in_ciphertext_or_nonce_fails_to_decrypt() {
    for passphrase in [&b""[..], b"pw"] {
        let sealed = seal(b"tamper with me", passphrase, &random(4), 2).unwrap();
        for byte in 0..sealed.envelope.ciphertext.len() {
            for bit in 0..8 {
                let mut e = sealed.envelope.clone();
                e.ciphertext[byte] ^= 1 << bit;
                assert_eq!(
                    open(&e, &sealed.client_key, passphrase),
                    Err(EnvelopeError::DecryptionFailed)
                );
            }
        }
        for byte in 0..12 {
            for bit in 0..8 {
                let mut e = sealed.envelope.clone();
                e.nonce[byte] ^= 1 << bit;
                assert_eq!(
                    open(&e, &sealed.client_key, passphrase),
                    Err(EnvelopeError::DecryptionFailed)
                );
            }
        }
    }
}

#[test]
fn a_flipped_bit_in_the_salt_fails_to_decrypt() {
    let sealed = seal(b"tamper with me", b"pw", &random(4), 2).unwrap();
    for byte in 0..16 {
        let mut e = sealed.envelope.clone();
        e.salt[byte] ^= 0x10;
        assert_eq!(open(&e, &sealed.client_key, b"pw"), Err(EnvelopeError::DecryptionFailed));
    }
}

#[test]
fn a_changed_cost_fails_to_decrypt() {
    let sealed = seal(b"tamper with me", b"pw", &random(4), 2).unwrap();
    for cost in [1u32, 3, 6] {
        let mut e = sealed.envelope.clone();
        e.kdf_cost = cost;
        assert_eq!(open(&e, &sealed.client_key, b"pw"), Err(EnvelopeError::DecryptionFailed));
    }
}

#[test]
fn a_changed_marker_or_version_never_opens() {
    let sealed = seal(b"tamper with me", b"pw", &random(4), 2).unwrap();
    let mut unmarked = sealed.envelope.clone();
    unmarked.passphrase_required = false;
    assert_eq!(open(&unmarked, &sealed.client_key, b"pw"), Err(EnvelopeError::MalformedEnvelope));
    assert_eq!(open(&unmarked, &sealed.client_key, b""), Err(EnvelopeError::MalformedEnvelope));
    let mut unmarked_and_free = unmarked.clone();
    unmarked_and_free.kdf_cost = 0;
    assert_eq!(open(&unmarked_and_free, &sealed.client_key, b""), Err(EnvelopeError::DecryptionFailed));
    assert_eq!(open(&unmarked_and_free, &sealed.client_key, b"pw"), Err(EnvelopeError::DecryptionFailed));
    let mut later = sealed.envelope.clone();
    later.version = 2;
    assert_eq!(open(&later, &sealed.client_key, b"pw"), Err(EnvelopeError::MalformedEnvelope));
}

#[test]
fn a_malformed_envelope_is_refused_before_decryption() {
    let sealed = seal(b"secret", b"", &random(7), 0).unwrap();
    let mut short_tag = sealed.envelope.clone();
    short_tag.ciphertext.truncate(15);
    assert_eq!(open(&short_tag, &sealed.client_key, b""), Err(EnvelopeError::MalformedEnvelope));
    let mut short_nonce = sealed.envelope.clone();
    short_nonce.nonce.pop();
    assert_eq!(open(&short_nonce, &sealed.client_key, b""), Err(EnvelopeError::MalformedEnvelope));
    let mut long_salt = sealed.envelope.clone();
    long_salt.salt.push(1);
    assert_eq!(open(&long_salt, &sealed.client_key, b""), Err(EnvelopeError::MalformedEnvelope));
    // A malformed envelope is malformed whatever the key material.
    assert_eq!(open(&long_salt, &[], b"x"), Err(EnvelopeError::MalformedEnvelope));
}

#[test]
fn a_truncated_ciphertext_fails_to_decrypt() {
    let sealed = seal(b"some longer secret", b"", &random(7), 0).unwrap();
    let mut e = sealed.envelope.clone();
    e.ciphertext.truncate(20);
    assert_eq!(open(&e, &sealed.client_key, b""), Err(EnvelopeError::DecryptionFailed));
}

#[test]
fn a_missing_plaintext_is_a_failed_decryption() {
    assert_eq!(opening(None), Err(EnvelopeError::DecryptionFailed));
    assert_eq!(opening(Some(vec![1, 2, 3])), Ok(vec![1, 2, 3]));
    assert_eq!(opening(Some(Vec::new())), Ok(Vec::new()));
}

#[test]
fn the_default_cost_applies_where_none_is_named() {
    let sealed = seal(b"p", b"pw", &random(1), 0).unwrap();
    assert_eq!(sealed.envelope.kdf_cost, 600_000);
    assert!(requires_passphrase(&sealed.envelope));
}
