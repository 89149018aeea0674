//! Claim token and claim commitment: proof of possession in two one-way steps.
//!
//! The token is derived from the client key and shown to the server when the
//! secret is claimed. The server keeps only the commitment, a hash of the
//! token: with it a presented token can be checked, but neither the token nor
//! the client key can be computed from it.

use vstd::prelude::*;
use crate::error::EnvelopeError;
use crate::primitives::{hkdf_sha256, hkdf_sha256_spec, sha256, sha256_spec};

verus! {

/// Length of a client key.
pub const KEY_LEN: usize = 32;

/// Length of a claim token.
pub const TOKEN_LEN: usize = 32;

/// Length of a claim commitment.
pub const COMMITMENT_LEN: usize = 32;

/// The context that separates claim tokens from every other use of the
/// client key: the ASCII bytes of `secrt:v1:claim`.
pub open spec fn claim_context() -> Seq<u8> {
    seq![115u8, 101u8, 99u8, 114u8, 116u8, 58u8, 118u8, 49u8, 58u8, 99u8, 108u8, 97u8, 105u8, 109u8]
}

/// The claim token of a client key.
pub open spec fn claim_token_spec(client_key: Seq<u8>) -> Seq<u8> {
    hkdf_sha256_spec(Seq::empty(), client_key, claim_context(), TOKEN_LEN as nat)
}

/// The commitment that the server stores for a claim token.
pub open spec fn claim_commitment_spec(token: Seq<u8>) -> Seq<u8> {
    sha256_spec(token)
}

/// The token is a function of the key alone: equal keys give equal tokens,
/// whenever and wherever they are derived.
pub proof fn lemma_claim_token_deterministic(key_a: Seq<u8>, key_b: Seq<u8>)
    requires
        key_a == key_b,
    ensures
        claim_token_spec(key_a) == claim_token_spec(key_b),
        claim_commitment_spec(claim_token_spec(key_a)) == claim_commitment_spec(
            claim_token_spec(key_b),
        ),
{
}

fn claim_context_bytes() -> (out: Vec<u8>)
    ensures
        out@ == claim_context(),
{
    let out: Vec<u8> = vec![115u8, 101u8, 99u8, 114u8, 116u8, 58u8, 118u8, 49u8, 58u8, 99u8, 108u8, 97u8, 105u8, 109u8];
    assert(out@ =~= claim_context());
    out
}

/// Derives the claim token from the client key.
///
/// Fails with `KeyDerivationError` exactly where the key is not `KEY_LEN`
/// bytes long.
pub fn derive_claim_token(client_key: &[u8]) -> (r: Result<Vec<u8>, EnvelopeError>)
    ensures
        match r {
            Ok(token) => client_key@.len() == KEY_LEN && token@ == claim_token_spec(client_key@)
                && token@.len() == TOKEN_LEN,
            Err(e) => client_key@.len() != KEY_LEN && e == EnvelopeError::KeyDerivationError,
        },
{
    if client_key.len() != KEY_LEN {
        return Err(EnvelopeError::KeyDerivationError);
    }
    let salt: Vec<u8> = Vec::new();
    let context = claim_context_bytes();
    assert(salt@ =~= Seq::<u8>::empty());
    Ok(hkdf_sha256(salt.as_slice(), client_key, context.as_slice(), TOKEN_LEN))
}

/// The commitment that the server stores for `token`.
pub fn claim_commitment(token: &[u8]) -> (out: Vec<u8>)
    ensures
        out@ == claim_commitment_spec(token@),
        out@.len() == COMMITMENT_LEN,
{
    sha256(token)
}

} // verus!
