//! Text around the bytes: decoding, trimming and decimal numbers.

use vstd::prelude::*;

verus! {

/// The text that `bytes` decode to as UTF-8, every ill-formed part replaced
/// by U+FFFD.
pub uninterp spec fn utf8_lossy_spec(bytes: Seq<u8>) -> Seq<char>;

/// `text` without the white space at its two ends.
pub uninterp spec fn trim_spec(text: Seq<char>) -> Seq<char>;

/// Calls `String::from_utf8_lossy` of std. Trusted: the result is the named
/// decoding of the bytes.
#[verifier::external_body]
pub(crate) fn lossy_text(bytes: &[u8]) -> (text: String)
    ensures
        text@ == utf8_lossy_spec(bytes@),
{
    String::from_utf8_lossy(bytes).into_owned()
}

/// Calls `str::trim` of std. Trusted: the result is the named trimming of
/// the text.
#[verifier::external_body]
pub(crate) fn trim_text(text: &str) -> (trimmed: &str)
    ensures
        trimmed@ == trim_spec(text@),
{
    text.trim()
}

/// The bytes of a secret after trimming: decoded, trimmed and encoded again.
pub open spec fn tidy_spec(bytes: Seq<u8>) -> Seq<u8> {
    vstd::utf8::encode_utf8(trim_spec(utf8_lossy_spec(bytes)))
}

/// The bytes of a trimmed text; `None` where nothing is left of it.
pub fn kept_text(trimmed: &str) -> (r: Option<Vec<u8>>)
    ensures
        match r {
            Some(kept) => trimmed@.len() > 0 && kept@ == vstd::utf8::encode_utf8(trimmed@),
            None => trimmed@.len() == 0,
        },
{
    if trimmed.is_empty() {
        None
    } else {
        Some(vstd::slice::slice_to_vec(trimmed.as_bytes()))
    }
}

/// Trims a secret that is text. `None` where nothing is left of it.
pub fn tidy(bytes: &[u8]) -> (r: Option<Vec<u8>>)
    ensures
        match r {
            Some(tidied) => trim_spec(utf8_lossy_spec(bytes@)).len() > 0 && tidied@ == tidy_spec(
                bytes@,
            ),
            None => trim_spec(utf8_lossy_spec(bytes@)).len() == 0,
        },
{
    let text = lossy_text(bytes);
    kept_text(trim_text(text.as_str()))
}

/// The character of a decimal digit.
pub open spec fn digit_char(d: nat) -> char {
    if d == 0 {
        '0'
    } else if d == 1 {
        '1'
    } else if d == 2 {
        '2'
    } else if d == 3 {
        '3'
    } else if d == 4 {
        '4'
    } else if d == 5 {
        '5'
    } else if d == 6 {
        '6'
    } else if d == 7 {
        '7'
    } else if d == 8 {
        '8'
    } else {
        '9'
    }
}

/// The decimal digits of `n`, without leading zeros.
pub open spec fn decimal_spec(n: nat) -> Seq<char>
    decreases n,
{
    if n < 10 {
        seq![digit_char(n)]
    } else {
        decimal_spec(n / 10).push(digit_char(n % 10))
    }
}

/// The text of one decimal digit.
fn digit_text(d: usize) -> (r: &'static str)
    requires
        d < 10,
    ensures
        r@ == seq![digit_char(d as nat)],
{
    proof {
        reveal_strlit("0");
        reveal_strlit("1");
        reveal_strlit("2");
        reveal_strlit("3");
        reveal_strlit("4");
        reveal_strlit("5");
        reveal_strlit("6");
        reveal_strlit("7");
        reveal_strlit("8");
        reveal_strlit("9");
    }
    let r = if d == 0 {
        "0"
    } else if d == 1 {
        "1"
    } else if d == 2 {
        "2"
    } else if d == 3 {
        "3"
    } else if d == 4 {
        "4"
    } else if d == 5 {
        "5"
    } else if d == 6 {
        "6"
    } else if d == 7 {
        "7"
    } else if d == 8 {
        "8"
    } else {
        "9"
    };
    assert(r@ =~= seq![digit_char(d as nat)]);
    r
}

/// Writes `n` in decimal.
pub fn decimal_text(n: usize) -> (r: String)
    ensures
        r@ == decimal_spec(n as nat),
    decreases n,
{
    if n < 10 {
        String::from_str(digit_text(n))
    } else {
        let mut r = decimal_text(n / 10);
        r.append(digit_text(n % 10));
        assert(r@ =~= decimal_spec(n as nat));
        r
    }
}

} // verus!
