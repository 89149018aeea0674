//! The error kinds of the envelope protocol.

use vstd::prelude::*;

verus! {

/// Why an operation of the envelope protocol was refused.
///
/// `DecryptionFailed` is the only kind a caller may answer by trying again
/// with other key material; it deliberately does not say whether the key or
/// the passphrase was wrong.
#[derive(Clone, Copy, Debug, PartialEq, Eq, Structural)]
pub enum EnvelopeError {
    /// The share link has no scheme, no id, no key delimiter, or its key is
    /// not valid base64url.
    InvalidShareUrl,
    /// The text is not the base64url encoding of any byte string.
    MalformedEncoding,
    /// The lifetime is empty, not a number, zero, too large, or has an
    /// unknown unit.
    InvalidTtl,
    /// The client key does not have the length of a key.
    KeyDerivationError,
    /// The randomness handed to `seal` was too short, or the plaintext is
    /// beyond what the cipher takes.
    EncryptionFailed,
    /// The envelope's version, lengths or cost parameters are not those of a
    /// sealed envelope.
    MalformedEnvelope,
    /// The authentication tag did not verify: wrong passphrase, wrong key or
    /// a modified envelope.
    DecryptionFailed,
}

impl EnvelopeError {
    /// Only a failed decryption may be answered with another attempt.
    pub open spec fn retriable(self) -> bool {
        self == EnvelopeError::DecryptionFailed
    }

    /// Whether another passphrase may be tried after this error.
    pub fn is_retriable(&self) -> (r: bool)
        ensures
            r == self.retriable(),
    {
        match self {
            EnvelopeError::DecryptionFailed => true,
            _ => false,
        }
    }
}

} // verus!
