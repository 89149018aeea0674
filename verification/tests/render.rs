use secrt::claim::{ClaimFailure, PromptNotice};
use secrt::create::CreateFailure;
use secrt::error::EnvelopeError;
use secrt::render::{output_created, output_plaintext, ClaimOutput};
use secrt::text::{decimal_text, tidy};

#[test]
fn plaintext_is_written_byte_for_byte_when_piped() {
    for silent in [false, true] {
        let out = output_plaintext(&[0, 255, b'a'], "2030-01-01T00:00:00Z", false, false, silent);
        assert_eq!(out, ClaimOutput { announce: false, stdout: vec![0, 255, b'a'] });
    }
    assert_eq!(output_plaintext(b"", "", false, false, false).stdout, Vec::<u8>::new());
    assert_eq!(output_plaintext(b"line\n", "", false, false, false).stdout, b"line\n".to_vec());
}

#[test]
fn plaintext_on_a_terminal_ends_in_one_line_feed() {
    assert_eq!(output_plaintext(b"secret", "", false, true, false).stdout, b"secret\n".to_vec());
    assert_eq!(output_plaintext(b"secret\n", "", false, true, false).stdout, b"secret\n".to_vec());
    assert_eq!(output_plaintext(b"", "", false, true, false).stdout, b"\n".to_vec());
    assert_eq!(output_plaintext(b"a\r", "", false, true, false).stdout, b"a\r\n".to_vec());
}

#[test]
fn plaintext_is_announced_on_a_terminal_unless_silenced() {
    assert!(output_plaintext(b"secret", "", false, true, false).announce);
    assert!(!output_plaintext(b"secret", "", false, true, true).announce);
    assert!(!output_plaintext(b"secret", "", false, false, false).announce);
    assert!(!output_plaintext(b"secret", "", true, true, false).announce);
}

#[test]
fn plaintext_as_json_is_one_line_with_both_members() {
    let out = output_plaintext(b"say \"hi\"\n", "2030-01-01T00:00:00Z", true, true, false);
    assert_eq!(
        out.stdout,
        b"{\"expires_at\":\"2030-01-01T00:00:00Z\",\"plaintext\":\"say \\\"hi\\\"\\n\"}\n".to_vec()
    );
    let parsed: serde_json::Value = serde_json::from_slice(&out.stdout).unwrap();
    assert_eq!(parsed["plaintext"], serde_json::Value::String("say \"hi\"\n".to_string()));
    assert_eq!(parsed["expires_at"], serde_json::Value::String("2030-01-01T00:00:00Z".to_string()));
}

#[test]
fn plaintext_as_json_is_decoded_lossily() {
    let out = output_plaintext(&[b'a', 0xff, b'b'], "", true, false, false);
    let parsed: serde_json::Value = serde_json::from_slice(&out.stdout).unwrap();
    assert_eq!(parsed["plaintext"], serde_json::Value::String("a\u{fffd}b".to_string()));
}

#[test]
fn a_new_secret_is_reported_as_its_link_on_a_line() {
    assert_eq!(
        output_created("abc", "https://h/s/abc", b"https://h/s/abc#Zm9v", "2030", false),
        b"https://h/s/abc#Zm9v\n".to_vec()
    );
}

#[test]
fn a_new_secret_as_json_has_four_members() {
    let out = output_created("abc", "https://h/s/abc", b"https://h/s/abc#Zm9v", "2030-01-01", true);
    assert_eq!(
        out,
        b"{\"expires_at\":\"2030-01-01\",\"id\":\"abc\",\"share_link\":\"https://h/s/abc#Zm9v\",\"share_url\":\"https://h/s/abc\"}\n"
            .to_vec()
    );
}

#[test]
fn numbers_are_written_in_decimal() {
    assert_eq!(decimal_text(0), "0");
    assert_eq!(decimal_text(7), "7");
    assert_eq!(decimal_text(10), "10");
    assert_eq!(decimal_text(3_405), "3405");
    assert_eq!(decimal_text(usize::MAX), usize::MAX.to_string());
}

#[test]
fn tidying_trims_text() {
    assert_eq!(tidy(b"  a b \n"), Some(b"a b".to_vec()));
    assert_eq!(tidy(b"ab"), Some(b"ab".to_vec()));
    assert_eq!(tidy(b" \r\n"), None);
    assert_eq!(tidy(b""), None);
    assert_eq!(tidy("\u{a0}caf\u{e9}\u{2003}".as_bytes()), Some("caf\u{e9}".as_bytes().to_vec()));
}

#[test]
fn every_error_has_its_words() {
    assert_eq!(EnvelopeError::DecryptionFailed.message(), "decryption failed");
    assert_eq!(EnvelopeError::MalformedEnvelope.message(), "malformed envelope");
    assert_eq!(EnvelopeError::EncryptionFailed.message(), "encryption failed");
    assert_eq!(EnvelopeError::InvalidShareUrl.message(), "malformed share link");
    assert_eq!(EnvelopeError::MalformedEncoding.message(), "malformed base64url text");
    assert_eq!(EnvelopeError::InvalidTtl.message(), "malformed or out-of-range lifetime");
    assert_eq!(EnvelopeError::KeyDerivationError.message(), "client key has the wrong length");
    assert!(EnvelopeError::DecryptionFailed.is_retriable());
    assert!(!EnvelopeError::MalformedEnvelope.is_retriable());
    assert!(!EnvelopeError::EncryptionFailed.is_retriable());
}

#[test]
fn claim_failures_have_their_words() {
    assert_eq!(ClaimFailure::MissingShareUrl.message(), "share URL is required");
    assert_eq!(ClaimFailure::InvalidShareUrl.message(), "invalid share URL: malformed share link");
    assert_eq!(
        ClaimFailure::KeyDerivation.message(),
        "key derivation failed: client key has the wrong length"
    );
    assert_eq!(ClaimFailure::EmptyPassphrase.message(), "passphrase must not be empty");
    assert_eq!(
        ClaimFailure::Envelope { error: EnvelopeError::DecryptionFailed }.message(),
        "decryption failed"
    );
    assert_eq!(
        ClaimFailure::PassphraseNeeded { tried: 12 }.message(),
        "this secret is passphrase-protected; tried 12 configured passphrase(s) but none matched. Use -p, --passphrase-env, or --passphrase-file"
    );
    assert_eq!(
        ClaimFailure::PassphraseNeeded { tried: 0 }.message(),
        "this secret is passphrase-protected; use -p, --passphrase-env, or --passphrase-file"
    );
}

#[test]
fn notices_have_their_words() {
    assert_eq!(PromptNotice::WrongPassphrase.message(), "Wrong passphrase, try again.");
    assert_eq!(PromptNotice::Protected { tried: 0 }.message(), "This secret is passphrase-protected");
    assert_eq!(
        PromptNotice::Protected { tried: 3 }.message(),
        "Passphrase-protected \u{2014} 3 configured passphrase(s) didn't match"
    );
}

#[test]
fn creation_failures_have_their_words() {
    assert_eq!(
        CreateFailure::AmbiguousInput.message(),
        "specify exactly one input source (stdin, --text, or --file)"
    );
    assert_eq!(CreateFailure::EmptyFile.message(), "file is empty");
    assert_eq!(CreateFailure::EmptyInput.message(), "input is empty");
    assert_eq!(CreateFailure::EmptyAfterTrim.message(), "input is empty after trimming");
    assert_eq!(CreateFailure::InvalidTtl.message(), "invalid TTL: malformed or out-of-range lifetime");
    assert_eq!(
        CreateFailure::Encryption { error: EnvelopeError::EncryptionFailed }.message(),
        "encryption failed: encryption failed"
    );
}

#[test]
fn a_line_is_the_text_and_a_line_feed() {
    assert_eq!(secrt::render::line("caf\u{e9}"), vec![b'c', b'a', b'f', 0xc3, 0xa9, b'\n']);
    assert_eq!(secrt::render::line(""), vec![b'\n']);
}

#[test]
fn kept_text_is_the_text_as_bytes() {
    assert_eq!(secrt::text::kept_text(""), None);
    assert_eq!(secrt::text::kept_text(" "), Some(vec![b' ']));
    assert_eq!(secrt::text::kept_text("\u{e9}"), Some(vec![0xc3, 0xa9]));
}
