//! What a human is told: the words for every failure and every notice.
//!
//! No message says why a decryption failed: a wrong passphrase and a wrong
//! key read the same.

use vstd::prelude::*;
use crate::claim::{ClaimFailure, PromptNotice};
use crate::create::CreateFailure;
use crate::error::EnvelopeError;
use crate::text::{decimal_spec, decimal_text};

verus! {

impl EnvelopeError {
    /// The words for the error.
    pub open spec fn message_spec(self) -> Seq<char> {
        match self {
            EnvelopeError::InvalidShareUrl => "malformed share link"@,
            EnvelopeError::MalformedEncoding => "malformed base64url text"@,
            EnvelopeError::InvalidTtl => "malformed or out-of-range lifetime"@,
            EnvelopeError::KeyDerivationError => "client key has the wrong length"@,
            EnvelopeError::EncryptionFailed => "encryption failed"@,
            EnvelopeError::MalformedEnvelope => "malformed envelope"@,
            EnvelopeError::DecryptionFailed => "decryption failed"@,
        }
    }

    /// The words for the error.
    pub fn message(&self) -> (text: String)
        ensures
            text@ == self.message_spec(),
    {
        match self {
            EnvelopeError::InvalidShareUrl => String::from_str("malformed share link"),
            EnvelopeError::MalformedEncoding => String::from_str("malformed base64url text"),
            EnvelopeError::InvalidTtl => String::from_str("malformed or out-of-range lifetime"),
            EnvelopeError::KeyDerivationError => String::from_str("client key has the wrong length"),
            EnvelopeError::EncryptionFailed => String::from_str("encryption failed"),
            EnvelopeError::MalformedEnvelope => String::from_str("malformed envelope"),
            EnvelopeError::DecryptionFailed => String::from_str("decryption failed"),
        }
    }
}

/// A lead, a colon and the words of an error.
fn with_cause(lead: &str, error: EnvelopeError) -> (text: String)
    ensures
        text@ == lead@ + error.message_spec(),
{
    let mut text = String::from_str(lead);
    let cause = error.message();
    text.append(cause.as_str());
    text
}

/// A number between two pieces of text.
fn with_count(before: &str, count: usize, after: &str) -> (text: String)
    ensures
        text@ == before@ + decimal_spec(count as nat) + after@,
{
    let mut text = String::from_str(before);
    let number = decimal_text(count);
    text.append(number.as_str());
    text.append(after);
    text
}

impl PromptNotice {
    /// The words of the notice.
    pub open spec fn message_spec(self) -> Seq<char> {
        match self {
            PromptNotice::Protected { tried } => if tried > 0 {
                "Passphrase-protected \u{2014} "@ + decimal_spec(tried as nat)
                    + " configured passphrase(s) didn't match"@
            } else {
                "This secret is passphrase-protected"@
            },
            PromptNotice::WrongPassphrase => "Wrong passphrase, try again."@,
        }
    }

    /// The words of the notice.
    pub fn message(&self) -> (text: String)
        ensures
            text@ == self.message_spec(),
    {
        match self {
            PromptNotice::Protected { tried } => if *tried > 0 {
                with_count(
                    "Passphrase-protected \u{2014} ",
                    *tried,
                    " configured passphrase(s) didn't match",
                )
            } else {
                String::from_str("This secret is passphrase-protected")
            },
            PromptNotice::WrongPassphrase => String::from_str("Wrong passphrase, try again."),
        }
    }
}

impl ClaimFailure {
    /// The words for the failure.
    pub open spec fn message_spec(self) -> Seq<char> {
        match self {
            ClaimFailure::MissingShareUrl => "share URL is required"@,
            ClaimFailure::InvalidShareUrl => "invalid share URL: "@
                + EnvelopeError::InvalidShareUrl.message_spec(),
            ClaimFailure::KeyDerivation => "key derivation failed: "@
                + EnvelopeError::KeyDerivationError.message_spec(),
            ClaimFailure::ClaimRefused => "claim failed"@,
            ClaimFailure::Envelope { error } => error.message_spec(),
            ClaimFailure::PassphraseUnreadable => "read passphrase"@,
            ClaimFailure::EmptyPassphrase => "passphrase must not be empty"@,
            ClaimFailure::PassphraseNeeded { tried } => if tried > 0 {
                "this secret is passphrase-protected; tried "@ + decimal_spec(tried as nat)
                    + " configured passphrase(s) but none matched. Use -p, --passphrase-env, or --passphrase-file"@
            } else {
                "this secret is passphrase-protected; use -p, --passphrase-env, or --passphrase-file"@
            },
            ClaimFailure::OutOfTurn => "event out of turn"@,
        }
    }

    /// The words for the failure.
    pub fn message(&self) -> (text: String)
        ensures
            text@ == self.message_spec(),
    {
        match self {
            ClaimFailure::MissingShareUrl => String::from_str("share URL is required"),
            ClaimFailure::InvalidShareUrl => with_cause(
                "invalid share URL: ",
                EnvelopeError::InvalidShareUrl,
            ),
            ClaimFailure::KeyDerivation => with_cause(
                "key derivation failed: ",
                EnvelopeError::KeyDerivationError,
            ),
            ClaimFailure::ClaimRefused => String::from_str("claim failed"),
            ClaimFailure::Envelope { error } => error.message(),
            ClaimFailure::PassphraseUnreadable => String::from_str("read passphrase"),
            ClaimFailure::EmptyPassphrase => String::from_str("passphrase must not be empty"),
            ClaimFailure::PassphraseNeeded { tried } => if *tried > 0 {
                with_count(
                    "this secret is passphrase-protected; tried ",
                    *tried,
                    " configured passphrase(s) but none matched. Use -p, --passphrase-env, or --passphrase-file",
                )
            } else {
                String::from_str(
                    "this secret is passphrase-protected; use -p, --passphrase-env, or --passphrase-file",
                )
            },
            ClaimFailure::OutOfTurn => String::from_str("event out of turn"),
        }
    }
}

impl CreateFailure {
    /// The words for the failure.
    pub open spec fn message_spec(self) -> Seq<char> {
        match self {
            CreateFailure::AmbiguousInput => "specify exactly one input source (stdin, --text, or --file)"@,
            CreateFailure::EmptyFile => "file is empty"@,
            CreateFailure::EmptyInput => "input is empty"@,
            CreateFailure::InputUnreadable => "read input"@,
            CreateFailure::EmptyAfterTrim => "input is empty after trimming"@,
            CreateFailure::InvalidTtl => "invalid TTL: "@ + EnvelopeError::InvalidTtl.message_spec(),
            CreateFailure::PassphraseUnreadable => "read passphrase"@,
            CreateFailure::Encryption { error } => "encryption failed: "@ + error.message_spec(),
            CreateFailure::UploadRefused => "upload failed"@,
            CreateFailure::OutOfTurn => "event out of turn"@,
        }
    }

    /// The words for the failure.
    pub fn message(&self) -> (text: String)
        ensures
            text@ == self.message_spec(),
    {
        match self {
            CreateFailure::AmbiguousInput => String::from_str(
                "specify exactly one input source (stdin, --text, or --file)",
            ),
            CreateFailure::EmptyFile => String::from_str("file is empty"),
            CreateFailure::EmptyInput => String::from_str("input is empty"),
            CreateFailure::InputUnreadable => String::from_str("read input"),
            CreateFailure::EmptyAfterTrim => String::from_str("input is empty after trimming"),
            CreateFailure::InvalidTtl => with_cause("invalid TTL: ", EnvelopeError::InvalidTtl),
            CreateFailure::PassphraseUnreadable => String::from_str("read passphrase"),
            CreateFailure::Encryption { error } => with_cause("encryption failed: ", *error),
            CreateFailure::UploadRefused => String::from_str("upload failed"),
            CreateFailure::OutOfTurn => String::from_str("event out of turn"),
        }
    }
}

} // verus!
