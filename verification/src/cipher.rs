//! Sealing and opening: key derivation and authenticated encryption.
//!
//! The content key comes from the client key, which travels in the share
//! link, and from the passphrase where there is one. A passphrase is
//! stretched with the envelope's cost before it is mixed in; without a
//! passphrase nothing is stretched, since the client key carries full
//! entropy. Version, passphrase marker and cost are authenticated together
//! with the ciphertext.

use vstd::prelude::*;
use crate::bytes::{append_bytes, copy_bytes, copy_range};
use crate::envelope::{preamble, preamble_spec, Envelope, EnvelopeView, FORMAT_VERSION};
use crate::error::EnvelopeError;
use crate::primitives::{
    aes256gcm_open, aes256gcm_open_spec, aes256gcm_seal, aes256gcm_seal_spec, hkdf_sha256,
    hkdf_sha256_spec, pbkdf2_hmac_sha256, pbkdf2_hmac_sha256_spec,
};
use crate::token::{
    claim_commitment, claim_commitment_spec, claim_token_spec, derive_claim_token, KEY_LEN,
};

verus! {

/// Random bytes that one sealing takes: client key, salt and nonce.
pub const SEAL_RANDOM_LEN: usize = 60;

/// Stretching rounds where the caller names none.
pub const DEFAULT_KDF_COST: u32 = 600_000;

/// Longest plaintext that one envelope holds: what the cipher may encrypt
/// under one nonce.
pub const MAX_PLAINTEXT_LEN: u64 = 0xF_FFFF_FFE0;

/// What sealing hands back.
#[derive(Clone, Debug, PartialEq, Eq)]
pub struct SealResult {
    /// The sealed secret, for the server.
    pub envelope: Envelope,
    /// Hash of the claim token, for the server.
    pub claim_commitment: Vec<u8>,
    /// The client key, for the share link only.
    pub client_key: Vec<u8>,
}

/// What sealing hands back, as a mathematical value.
pub struct SealResultView {
    pub envelope: EnvelopeView,
    pub claim_commitment: Seq<u8>,
    pub client_key: Seq<u8>,
}

impl View for SealResult {
    type V = SealResultView;

    open spec fn view(&self) -> SealResultView {
        SealResultView {
            envelope: self.envelope@,
            claim_commitment: self.claim_commitment@,
            client_key: self.client_key@,
        }
    }
}

/// The context that separates content keys from every other use of the
/// client key: the ASCII bytes of `secrt:v1:seal`.
pub open spec fn seal_context() -> Seq<u8> {
    seq![115u8, 101u8, 99u8, 114u8, 116u8, 58u8, 118u8, 49u8, 58u8, 115u8, 101u8, 97u8, 108u8]
}

/// The stretching cost that an envelope is sealed with: none without a
/// passphrase, the default where the caller names none.
pub open spec fn effective_cost(passphrase: Seq<u8>, kdf_cost: u32) -> u32 {
    if passphrase.len() == 0 {
        0
    } else if kdf_cost == 0 {
        DEFAULT_KDF_COST
    } else {
        kdf_cost
    }
}

/// What the content key is extracted from: the client key, followed by the
/// stretched passphrase where there is one.
pub open spec fn key_material_spec(
    client_key: Seq<u8>,
    passphrase: Seq<u8>,
    salt: Seq<u8>,
    cost: u32,
) -> Seq<u8> {
    if passphrase.len() == 0 {
        client_key
    } else {
        client_key + pbkdf2_hmac_sha256_spec(passphrase, salt, cost, KEY_LEN as nat)
    }
}

/// The key that encrypts the content of an envelope.
pub open spec fn content_key_spec(
    client_key: Seq<u8>,
    passphrase: Seq<u8>,
    salt: Seq<u8>,
    cost: u32,
) -> Seq<u8> {
    hkdf_sha256_spec(
        salt,
        key_material_spec(client_key, passphrase, salt, cost),
        seal_context(),
        KEY_LEN as nat,
    )
}

/// The client key that a sealing takes from its random bytes.
pub open spec fn client_key_of(random: Seq<u8>) -> Seq<u8> {
    random.subrange(0, 32)
}

/// The envelope that sealing makes of its arguments.
pub open spec fn sealed_envelope_spec(
    plaintext: Seq<u8>,
    passphrase: Seq<u8>,
    random: Seq<u8>,
    kdf_cost: u32,
) -> EnvelopeView {
    let salt = random.subrange(32, 48);
    let nonce = random.subrange(48, 60);
    let required = passphrase.len() > 0;
    let cost = effective_cost(passphrase, kdf_cost);
    EnvelopeView {
        version: FORMAT_VERSION,
        passphrase_required: required,
        kdf_cost: cost,
        salt: salt,
        nonce: nonce,
        ciphertext: aes256gcm_seal_spec(
            content_key_spec(client_key_of(random), passphrase, salt, cost),
            nonce,
            preamble_spec(FORMAT_VERSION, required, cost),
            plaintext,
        ),
    }
}

/// What sealing gives: a failure where the random bytes are too few or the
/// plaintext is too long, and otherwise the envelope, the commitment to the
/// claim token of the client key, and the client key.
pub open spec fn seal_spec(plaintext: Seq<u8>, passphrase: Seq<u8>, random: Seq<u8>, kdf_cost: u32) -> Result<
    SealResultView,
    EnvelopeError,
> {
    if random.len() < SEAL_RANDOM_LEN || plaintext.len() > MAX_PLAINTEXT_LEN {
        Err(EnvelopeError::EncryptionFailed)
    } else {
        Ok(
            SealResultView {
                envelope: sealed_envelope_spec(plaintext, passphrase, random, kdf_cost),
                claim_commitment: claim_commitment_spec(claim_token_spec(client_key_of(random))),
                client_key: client_key_of(random),
            },
        )
    }
}

/// The view of a sealing's result.
pub open spec fn sealed_view(r: Result<SealResult, EnvelopeError>) -> Result<
    SealResultView,
    EnvelopeError,
> {
    match r {
        Ok(sealed) => Ok(sealed@),
        Err(e) => Err(e),
    }
}

/// What opening an envelope with a client key and a passphrase gives.
///
/// A malformed envelope is refused before anything is decrypted. A key of
/// the wrong length, a passphrase where none is required and no passphrase
/// where one is required are wrong key material, and so is whatever the
/// cipher does not authenticate: all of them are `DecryptionFailed`.
pub open spec fn open_spec(e: EnvelopeView, client_key: Seq<u8>, passphrase: Seq<u8>) -> Result<
    Seq<u8>,
    EnvelopeError,
> {
    if !e.wf() {
        Err(EnvelopeError::MalformedEnvelope)
    } else if client_key.len() != KEY_LEN || e.passphrase_required != (passphrase.len() > 0) {
        Err(EnvelopeError::DecryptionFailed)
    } else {
        opening_spec(
            aes256gcm_open_spec(
                content_key_spec(client_key, passphrase, e.salt, e.kdf_cost),
                e.nonce,
                preamble_spec(e.version, e.passphrase_required, e.kdf_cost),
                e.ciphertext,
            ),
        )
    }
}

/// What the cipher's answer means to the caller.
pub open spec fn opening_spec(opened: Option<Seq<u8>>) -> Result<Seq<u8>, EnvelopeError> {
    match opened {
        Some(plaintext) => Ok(plaintext),
        None => Err(EnvelopeError::DecryptionFailed),
    }
}

/// The view of an opening's result.
pub open spec fn result_view(r: Result<Vec<u8>, EnvelopeError>) -> Result<Seq<u8>, EnvelopeError> {
    match r {
        Ok(plaintext) => Ok(plaintext@),
        Err(e) => Err(e),
    }
}

fn seal_context_bytes() -> (out: Vec<u8>)
    ensures
        out@ == seal_context(),
{
    let out: Vec<u8> = vec![115u8, 101u8, 99u8, 114u8, 116u8, 58u8, 118u8, 49u8, 58u8, 115u8, 101u8, 97u8, 108u8];
    assert(out@ =~= seal_context());
    out
}

/// Derives the content key.
fn content_key(client_key: &[u8], passphrase: &[u8], salt: &[u8], cost: u32) -> (key: Vec<u8>)
    requires
        passphrase@.len() > 0 ==> cost >= 1,
    ensures
        key@ == content_key_spec(client_key@, passphrase@, salt@, cost),
        key@.len() == KEY_LEN,
{
    let mut material = copy_bytes(client_key);
    if passphrase.len() > 0 {
        let stretched = pbkdf2_hmac_sha256(passphrase, salt, cost, KEY_LEN);
        append_bytes(&mut material, stretched.as_slice());
    }
    let context = seal_context_bytes();
    hkdf_sha256(salt, material.as_slice(), context.as_slice(), KEY_LEN)
}

/// Turns the cipher's answer into the result of an opening: a missing
/// plaintext is a failed decryption.
pub fn opening(opened: Option<Vec<u8>>) -> (r: Result<Vec<u8>, EnvelopeError>)
    ensures
        result_view(r) == opening_spec(
            match opened {
                Some(plaintext) => Some(plaintext@),
                None => None,
            },
        ),
{
    match opened {
        Some(plaintext) => Ok(plaintext),
        None => Err(EnvelopeError::DecryptionFailed),
    }
}

/// Seals `plaintext` into an envelope.
///
/// `random` is the output of the caller's randomness source: the first 32
/// bytes become the client key, the next 16 the salt, the next 12 the nonce.
/// With a passphrase the envelope is marked as requiring one, and the
/// passphrase is stretched with `kdf_cost` rounds, or `DEFAULT_KDF_COST`
/// where `kdf_cost` is zero.
///
/// Fails with `EncryptionFailed` exactly where `random` holds fewer than
/// `SEAL_RANDOM_LEN` bytes or the plaintext is longer than
/// `MAX_PLAINTEXT_LEN`. The envelope it returns is well-formed, requires a
/// passphrase exactly where one was given, and opens to the plaintext again
/// with the returned client key and the same passphrase. Sealed with a
/// passphrase it fails to decrypt without one, and sealed without one it
/// fails to decrypt with any.
pub fn seal(plaintext: &[u8], passphrase: &[u8], random: &[u8], kdf_cost: u32) -> (r: Result<
    SealResult,
    EnvelopeError,
>)
    ensures
        sealed_view(r) == seal_spec(plaintext@, passphrase@, random@, kdf_cost),
        r matches Ok(sealed) ==> {
            &&& sealed.envelope@.wf()
            &&& sealed.envelope@.passphrase_required == (passphrase@.len() > 0)
            &&& open_spec(sealed.envelope@, sealed.client_key@, passphrase@) == Ok::<
                Seq<u8>,
                EnvelopeError,
            >(plaintext@)
            &&& forall|other: Seq<u8>|
                (other.len() > 0) != (passphrase@.len() > 0) ==> #[trigger] open_spec(
                    sealed.envelope@,
                    sealed.client_key@,
                    other,
                ) == Err::<Seq<u8>, EnvelopeError>(EnvelopeError::DecryptionFailed)
        },
{
    if random.len() < SEAL_RANDOM_LEN || plaintext.len() as u64 > MAX_PLAINTEXT_LEN {
        return Err(EnvelopeError::EncryptionFailed);
    }
    let client_key = copy_range(random, 0, 32);
    let salt = copy_range(random, 32, 48);
    let nonce = copy_range(random, 48, 60);
    let required = passphrase.len() > 0;
    let cost: u32 = if !required {
        0
    } else if kdf_cost == 0 {
        DEFAULT_KDF_COST
    } else {
        kdf_cost
    };
    let key = content_key(client_key.as_slice(), passphrase, salt.as_slice(), cost);
    let aad = preamble(FORMAT_VERSION, required, cost);
    let ciphertext = match aes256gcm_seal(key.as_slice(), nonce.as_slice(), aad.as_slice(), plaintext) {
        Some(ciphertext) => ciphertext,
        None => {
            return Err(EnvelopeError::EncryptionFailed);
        },
    };
    let token = match derive_claim_token(client_key.as_slice()) {
        Ok(token) => token,
        Err(_) => {
            return Err(EnvelopeError::EncryptionFailed);
        },
    };
    let commitment = claim_commitment(token.as_slice());
    let envelope = Envelope {
        version: FORMAT_VERSION,
        passphrase_required: required,
        kdf_cost: cost,
        salt,
        nonce,
        ciphertext,
    };
    Ok(SealResult { envelope, claim_commitment: commitment, client_key })
}

/// Opens an envelope with the client key and the passphrase.
///
/// Fails with `MalformedEnvelope` where the envelope is not well-formed,
/// before anything is decrypted, and with `DecryptionFailed` for every kind
/// of wrong key material.
pub fn open(envelope: &Envelope, client_key: &[u8], passphrase: &[u8]) -> (r: Result<
    Vec<u8>,
    EnvelopeError,
>)
    ensures
        result_view(r) == open_spec(envelope@, client_key@, passphrase@),
{
    if !envelope.is_well_formed() {
        return Err(EnvelopeError::MalformedEnvelope);
    }
    if client_key.len() != KEY_LEN || envelope.passphrase_required != (passphrase.len() > 0) {
        return Err(EnvelopeError::DecryptionFailed);
    }
    let key = content_key(client_key, passphrase, envelope.salt.as_slice(), envelope.kdf_cost);
    let aad = preamble(envelope.version, envelope.passphrase_required, envelope.kdf_cost);
    opening(
        aes256gcm_open(
            key.as_slice(),
            envelope.nonce.as_slice(),
            aad.as_slice(),
            envelope.ciphertext.as_slice(),
        ),
    )
}

/// Whether opening the envelope takes a passphrase. Reads the stored marker
/// and nothing else.
pub fn requires_passphrase(envelope: &Envelope) -> (r: bool)
    ensures
        r == envelope@.passphrase_required,
{
    envelope.passphrase_required
}

/// Sealing marks an envelope as requiring a passphrase exactly where one was
/// given, stretches only where one was given, and commits to the claim token
/// of the very client key that it hands out for the share link.
pub proof fn lemma_sealed_marker_and_commitment(
    plaintext: Seq<u8>,
    passphrase: Seq<u8>,
    random: Seq<u8>,
    kdf_cost: u32,
)
    requires
        seal_spec(plaintext, passphrase, random, kdf_cost) is Ok,
    ensures
        ({
            let sealed = seal_spec(plaintext, passphrase, random, kdf_cost).unwrap();
            &&& sealed.envelope.passphrase_required == (passphrase.len() > 0)
            &&& sealed.envelope.passphrase_required == (sealed.envelope.kdf_cost > 0)
            &&& sealed.envelope.version == FORMAT_VERSION
            &&& sealed.client_key.len() == KEY_LEN
            &&& sealed.claim_commitment == claim_commitment_spec(claim_token_spec(sealed.client_key))
        }),
{
}

/// An envelope that requires a passphrase does not open without one, and
/// one that requires none does not open with one: both are refused as a
/// failed decryption, whatever the key.
pub proof fn lemma_passphrase_presence(e: EnvelopeView, client_key: Seq<u8>, passphrase: Seq<u8>)
    requires
        e.wf(),
        e.passphrase_required != (passphrase.len() > 0),
    ensures
        open_spec(e, client_key, passphrase) == Err::<Seq<u8>, EnvelopeError>(
            EnvelopeError::DecryptionFailed,
        ),
{
}

/// Opening never reports anything but the plaintext, a malformed envelope
/// or a failed decryption, and a well-formed envelope is never reported as
/// malformed.
pub proof fn lemma_open_outcomes(e: EnvelopeView, client_key: Seq<u8>, passphrase: Seq<u8>)
    ensures
        match open_spec(e, client_key, passphrase) {
            Ok(_) => e.wf(),
            Err(err) => if e.wf() {
                err == EnvelopeError::DecryptionFailed
            } else {
                err == EnvelopeError::MalformedEnvelope
            },
        },
{
}

} // verus!
