//! The cryptographic primitives, each one call into a RustCrypto crate.
//!
//! Nothing in this file is proved. Every function here states what the
//! primitive returns by a name: an uninterpreted function of the arguments,
//! the same for the same arguments everywhere. The rest of the library is
//! verified against these statements.

use vstd::prelude::*;
use aes_gcm::aead::Aead;
use aes_gcm::KeyInit;
use sha2::Digest;

verus! {

/// Length of an AES-256 key.
pub const AEAD_KEY_LEN: usize = 32;

/// Length of a GCM nonce.
pub const AEAD_NONCE_LEN: usize = 12;

/// Length of a GCM authentication tag.
pub const AEAD_TAG_LEN: usize = 16;

/// Longest plaintext, and longest associated data, that the cipher accepts.
pub const AEAD_MAX_LEN: u64 = 0x10_0000_0000;

/// Longest output that HKDF-SHA256 expands to: 255 blocks of 32 bytes.
pub const HKDF_MAX_LEN: usize = 8160;

/// The SHA-256 digest of `data`.
pub uninterp spec fn sha256_spec(data: Seq<u8>) -> Seq<u8>;

/// The first `len` bytes of HKDF-SHA256 (RFC 5869) over `salt`, `ikm` and `info`.
pub uninterp spec fn hkdf_sha256_spec(salt: Seq<u8>, ikm: Seq<u8>, info: Seq<u8>, len: nat) -> Seq<u8>;

/// The first `len` bytes of PBKDF2-HMAC-SHA256 (RFC 8018) after `rounds` rounds.
pub uninterp spec fn pbkdf2_hmac_sha256_spec(
    password: Seq<u8>,
    salt: Seq<u8>,
    rounds: u32,
    len: nat,
) -> Seq<u8>;

/// The AES-256-GCM ciphertext of `plaintext`, tag at the end.
pub uninterp spec fn aes256gcm_seal_spec(
    key: Seq<u8>,
    nonce: Seq<u8>,
    aad: Seq<u8>,
    plaintext: Seq<u8>,
) -> Seq<u8>;

/// What AES-256-GCM decrypts `ciphertext` to; `None` where the tag does not
/// verify.
pub uninterp spec fn aes256gcm_open_spec(
    key: Seq<u8>,
    nonce: Seq<u8>,
    aad: Seq<u8>,
    ciphertext: Seq<u8>,
) -> Option<Seq<u8>>;

/// Calls `sha2::Sha256::digest`. Trusted: the result is the digest of `data`,
/// 32 bytes long.
#[verifier::external_body]
pub(crate) fn sha256(data: &[u8]) -> (out: Vec<u8>)
    ensures
        out@ == sha256_spec(data@),
        out@.len() == 32,
{
    sha2::Sha256::digest(data).to_vec()
}

/// Calls `hkdf::Hkdf::<Sha256>::new` and `expand`. Trusted: the result is the
/// HKDF output of the arguments, `len` bytes long. `expand` refuses only
/// lengths above `HKDF_MAX_LEN`, which `requires` leaves out.
#[verifier::external_body]
pub(crate) fn hkdf_sha256(salt: &[u8], ikm: &[u8], info: &[u8], len: usize) -> (okm: Vec<u8>)
    requires
        len <= HKDF_MAX_LEN,
    ensures
        okm@ == hkdf_sha256_spec(salt@, ikm@, info@, len as nat),
        okm@.len() == len,
{
    let mut okm = vec![0u8; len];
    let _ = hkdf::Hkdf::<sha2::Sha256>::new(Some(salt), ikm).expand(info, &mut okm);
    okm
}

/// Calls `pbkdf2::pbkdf2_hmac::<Sha256>`. Trusted: the result is the PBKDF2
/// output of the arguments, `len` bytes long.
#[verifier::external_body]
pub(crate) fn pbkdf2_hmac_sha256(password: &[u8], salt: &[u8], rounds: u32, len: usize) -> (out: Vec<u8>)
    requires
        rounds >= 1,
    ensures
        out@ == pbkdf2_hmac_sha256_spec(password@, salt@, rounds, len as nat),
        out@.len() == len,
{
    let mut out = vec![0u8; len];
    pbkdf2::pbkdf2_hmac::<sha2::Sha256>(password, salt, rounds, &mut out);
    out
}

/// Calls `Aes256Gcm::encrypt` of `aes_gcm`. Trusted: it refuses exactly the
/// plaintexts and associated data longer than `AEAD_MAX_LEN`; what it returns
/// is the named ciphertext, 16 bytes longer than the plaintext, and the same
/// key, nonce and associated data decrypt it to the plaintext again.
#[verifier::external_body]
pub(crate) fn aes256gcm_seal(key: &[u8], nonce: &[u8], aad: &[u8], plaintext: &[u8]) -> (r: Option<Vec<u8>>)
    requires
        key@.len() == AEAD_KEY_LEN,
        nonce@.len() == AEAD_NONCE_LEN,
    ensures
        r is Some <==> (plaintext@.len() <= AEAD_MAX_LEN && aad@.len() <= AEAD_MAX_LEN),
        r is Some ==> r.unwrap()@ == aes256gcm_seal_spec(key@, nonce@, aad@, plaintext@),
        r is Some ==> r.unwrap()@.len() == plaintext@.len() + AEAD_TAG_LEN,
        r is Some ==> aes256gcm_open_spec(key@, nonce@, aad@, r.unwrap()@) == Some(plaintext@),
{
    let cipher = aes_gcm::Aes256Gcm::new(aes_gcm::Key::<aes_gcm::Aes256Gcm>::from_slice(key));
    let payload = aes_gcm::aead::Payload { msg: plaintext, aad };
    cipher.encrypt(aes_gcm::Nonce::from_slice(nonce), payload).ok()
}

/// Calls `Aes256Gcm::decrypt` of `aes_gcm`. Trusted: the result is the named
/// opening of the ciphertext, and a plaintext is 16 bytes shorter than its
/// ciphertext.
#[verifier::external_body]
pub(crate) fn aes256gcm_open(key: &[u8], nonce: &[u8], aad: &[u8], ciphertext: &[u8]) -> (r: Option<Vec<u8>>)
    requires
        key@.len() == AEAD_KEY_LEN,
        nonce@.len() == AEAD_NONCE_LEN,
    ensures
        match r {
            Some(plaintext) => aes256gcm_open_spec(key@, nonce@, aad@, ciphertext@) == Some(plaintext@),
            None => aes256gcm_open_spec(key@, nonce@, aad@, ciphertext@) is None,
        },
        r is Some ==> r.unwrap()@.len() + AEAD_TAG_LEN == ciphertext@.len(),
{
    let cipher = aes_gcm::Aes256Gcm::new(aes_gcm::Key::<aes_gcm::Aes256Gcm>::from_slice(key));
    let payload = aes_gcm::aead::Payload { msg: ciphertext, aad };
    cipher.decrypt(aes_gcm::Nonce::from_slice(nonce), payload).ok()
}

} // verus!
