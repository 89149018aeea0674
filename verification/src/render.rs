//! What a finished run writes: the plaintext of a claim and the link of a
//! new secret, as the bytes that go to standard output.

use vstd::prelude::*;
use crate::bytes::copy_bytes;
use crate::json::{json_object, json_object_spec, json_put, json_string_spec, json_text};
use crate::text::{lossy_text, utf8_lossy_spec};

verus! {

/// The line feed that ends a line.
pub const LINE_FEED: u8 = 10;

/// What a claim writes when it has the plaintext.
#[derive(Clone, Debug, PartialEq, Eq)]
pub struct ClaimOutput {
    /// Whether the plaintext is announced on standard error first.
    pub announce: bool,
    /// The bytes for standard output.
    pub stdout: Vec<u8>,
}

/// The bytes of a line of text.
pub open spec fn line_spec(text: Seq<char>) -> Seq<u8> {
    vstd::utf8::encode_utf8(text) + seq![LINE_FEED]
}

/// The members of the JSON object that reports a claimed secret.
pub open spec fn claimed_members(plaintext: Seq<u8>, expires_at: Seq<char>) -> Map<
    Seq<char>,
    Seq<char>,
> {
    Map::<Seq<char>, Seq<char>>::empty().insert(
        "plaintext"@,
        json_string_spec(utf8_lossy_spec(plaintext)),
    ).insert("expires_at"@, json_string_spec(expires_at))
}

/// Whether the plaintext is followed by a line feed: only on a terminal, and
/// only where it does not end in one already.
pub open spec fn needs_line_feed(plaintext: Seq<u8>, stdout_tty: bool) -> bool {
    stdout_tty && !(plaintext.len() > 0 && plaintext.last() == LINE_FEED)
}

/// The bytes that a claim writes to standard output: one line of JSON, or
/// the plaintext byte for byte, with a line feed after it where
/// `needs_line_feed` says so.
pub open spec fn plaintext_output_spec(
    plaintext: Seq<u8>,
    expires_at: Seq<char>,
    json: bool,
    stdout_tty: bool,
) -> Seq<u8> {
    if json {
        line_spec(json_object_spec(claimed_members(plaintext, expires_at)))
    } else if needs_line_feed(plaintext, stdout_tty) {
        plaintext + seq![LINE_FEED]
    } else {
        plaintext
    }
}

/// The members of the JSON object that reports a new secret.
pub open spec fn created_members(
    id: Seq<char>,
    share_url: Seq<char>,
    share_link: Seq<u8>,
    expires_at: Seq<char>,
) -> Map<Seq<char>, Seq<char>> {
    Map::<Seq<char>, Seq<char>>::empty().insert("id"@, json_string_spec(id)).insert(
        "share_url"@,
        json_string_spec(share_url),
    ).insert("share_link"@, json_string_spec(utf8_lossy_spec(share_link))).insert(
        "expires_at"@,
        json_string_spec(expires_at),
    )
}

/// The bytes that a creation writes to standard output: one line of JSON,
/// or the share link on a line.
pub open spec fn created_output_spec(
    id: Seq<char>,
    share_url: Seq<char>,
    share_link: Seq<u8>,
    expires_at: Seq<char>,
    json: bool,
) -> Seq<u8> {
    if json {
        line_spec(json_object_spec(created_members(id, share_url, share_link, expires_at)))
    } else {
        share_link + seq![LINE_FEED]
    }
}

/// The bytes of `text` and a line feed.
pub fn line(text: &str) -> (out: Vec<u8>)
    ensures
        out@ == line_spec(text@),
{
    let mut out = vstd::slice::slice_to_vec(text.as_bytes());
    out.push(LINE_FEED);
    assert(out@ =~= line_spec(text@));
    out
}

/// What a claim writes for a plaintext.
///
/// As JSON the plaintext is decoded as UTF-8, lossily. Otherwise it is
/// written byte for byte; it is announced only on a terminal and only where
/// `silent` is not set.
pub fn output_plaintext(
    plaintext: &[u8],
    expires_at: &str,
    json: bool,
    stdout_tty: bool,
    silent: bool,
) -> (out: ClaimOutput)
    ensures
        out.announce == (!json && stdout_tty && !silent),
        out.stdout@ == plaintext_output_spec(plaintext@, expires_at@, json, stdout_tty),
{
    if json {
        let mut object = json_object();
        let text = lossy_text(plaintext);
        json_put(&mut object, "plaintext", text.as_str());
        json_put(&mut object, "expires_at", expires_at);
        let rendered = json_text(object);
        ClaimOutput { announce: false, stdout: line(rendered.as_str()) }
    } else {
        let mut stdout = copy_bytes(plaintext);
        let n = plaintext.len();
        if stdout_tty && !(n > 0 && plaintext[n - 1] == LINE_FEED) {
            stdout.push(LINE_FEED);
        }
        ClaimOutput { announce: stdout_tty && !silent, stdout }
    }
}

/// What a creation writes for a new secret.
pub fn output_created(id: &str, share_url: &str, share_link: &[u8], expires_at: &str, json: bool) -> (out:
    Vec<u8>)
    ensures
        out@ == created_output_spec(id@, share_url@, share_link@, expires_at@, json),
{
    if json {
        let mut object = json_object();
        let link = lossy_text(share_link);
        json_put(&mut object, "id", id);
        json_put(&mut object, "share_url", share_url);
        json_put(&mut object, "share_link", link.as_str());
        json_put(&mut object, "expires_at", expires_at);
        let rendered = json_text(object);
        line(rendered.as_str())
    } else {
        let mut out = copy_bytes(share_link);
        out.push(LINE_FEED);
        out
    }
}

} // verus!
