//! Base64url without padding: the text form of keys, tokens and envelopes.
//!
//! Text is handled as ASCII bytes. Six bits of data become one symbol of the
//! URL-safe alphabet `A-Z a-z 0-9 - _`; nothing is padded, so the output can
//! stand in a URL as it is. Decoding is strict: it accepts exactly the texts
//! that `b64_encode` produces.

use vstd::prelude::*;
use crate::error::EnvelopeError;

verus! {

/// The symbol that stands for the six-bit value `v`.
pub open spec fn symbol_of(v: int) -> u8 {
    if v < 26 {
        (v + 65) as u8
    } else if v < 52 {
        (v + 71) as u8
    } else if v < 62 {
        (v - 4) as u8
    } else if v == 62 {
        45u8
    } else {
        95u8
    }
}

/// The six-bit value that the symbol `c` stands for, if it is a symbol.
pub open spec fn value_of(c: u8) -> Option<int> {
    if 65 <= c <= 90 {
        Some(c - 65)
    } else if 97 <= c <= 122 {
        Some(c - 71)
    } else if 48 <= c <= 57 {
        Some(c + 4)
    } else if c == 45 {
        Some(62int)
    } else if c == 95 {
        Some(63int)
    } else {
        None
    }
}

/// The byte at `i`, and zero past the end.
pub open spec fn byte_at(data: Seq<u8>, i: int) -> int {
    if 0 <= i < data.len() {
        data[i] as int
    } else {
        0
    }
}

/// The `i`-th group of six bits of `data`, read from the most significant bit
/// of the first byte, with zeros after the last byte.
#[verifier::opaque]
pub open spec fn sextet(data: Seq<u8>, i: int) -> int {
    let k = 3 * (i / 4);
    if i % 4 == 0 {
        byte_at(data, k) / 4
    } else if i % 4 == 1 {
        (byte_at(data, k) % 4) * 16 + byte_at(data, k + 1) / 16
    } else if i % 4 == 2 {
        (byte_at(data, k + 1) % 16) * 4 + byte_at(data, k + 2) / 64
    } else {
        byte_at(data, k + 2) % 64
    }
}

/// Number of symbols that encode `n` bytes.
pub open spec fn encoded_len(n: nat) -> nat {
    ((4 * n + 2) / 3) as nat
}

/// The base64url text of `data`.
pub open spec fn b64_encode_spec(data: Seq<u8>) -> Seq<u8> {
    Seq::new(encoded_len(data.len()), |i: int| symbol_of(sextet(data, i)))
}

/// The value of the symbol at `i`, and zero where there is none.
pub open spec fn digit_at(text: Seq<u8>, i: int) -> int {
    if 0 <= i < text.len() {
        match value_of(text[i]) {
            Some(v) => v,
            None => 0,
        }
    } else {
        0
    }
}

/// The `j`-th byte that the symbols of `text` spell.
#[verifier::opaque]
pub open spec fn octet(text: Seq<u8>, j: int) -> int {
    let k = 4 * (j / 3);
    if j % 3 == 0 {
        digit_at(text, k) * 4 + digit_at(text, k + 1) / 16
    } else if j % 3 == 1 {
        (digit_at(text, k + 1) % 16) * 16 + digit_at(text, k + 2) / 4
    } else {
        (digit_at(text, k + 2) % 4) * 64 + digit_at(text, k + 3)
    }
}

/// Number of bytes that `m` symbols spell.
pub open spec fn decoded_len(m: nat) -> nat {
    (3 * m / 4) as nat
}

/// Every byte of `text` is a symbol of the alphabet.
pub open spec fn all_symbols(text: Seq<u8>) -> bool {
    forall|i: int| 0 <= i < text.len() ==> (#[trigger] value_of(text[i])) is Some
}

/// The bits of the last symbol that no byte takes up are zero.
pub open spec fn tail_is_zero(text: Seq<u8>) -> bool {
    let m = text.len() as int;
    if m % 4 == 2 {
        digit_at(text, m - 1) % 16 == 0
    } else if m % 4 == 3 {
        digit_at(text, m - 1) % 4 == 0
    } else {
        true
    }
}

/// `text` is the encoding of some byte string.
pub open spec fn is_b64(text: Seq<u8>) -> bool {
    &&& text.len() % 4 != 1
    &&& all_symbols(text)
    &&& tail_is_zero(text)
}

/// The bytes that `text` encodes; `None` where it encodes nothing.
pub open spec fn b64_decode_spec(text: Seq<u8>) -> Option<Seq<u8>> {
    if is_b64(text) {
        Some(Seq::new(decoded_len(text.len()), |j: int| octet(text, j) as u8))
    } else {
        None
    }
}

/// A six-bit value and its symbol determine each other.
pub proof fn lemma_symbol_value(v: int)
    requires
        0 <= v < 64,
    ensures
        value_of(symbol_of(v)) == Some(v),
{
}

/// A symbol is the symbol of its value.
pub proof fn lemma_value_symbol(c: u8)
    requires
        value_of(c) is Some,
    ensures
        0 <= value_of(c).unwrap() < 64,
        symbol_of(value_of(c).unwrap()) == c,
{
}

/// A sextet is a six-bit value.
proof fn lemma_sextet_range(data: Seq<u8>, i: int)
    requires
        0 <= i,
    ensures
        0 <= sextet(data, i) < 64,
{
    reveal(sextet);
}

/// The lengths of encodings: never one more than a multiple of four, and
/// enough to tell the length of the data.
proof fn lemma_lengths(n: nat)
    ensures
        encoded_len(n) % 4 != 1,
        decoded_len(encoded_len(n)) == n,
        n % 3 == 0 ==> encoded_len(n) == 4 * (n / 3),
        n % 3 == 1 ==> encoded_len(n) == 4 * (n / 3) + 2,
        n % 3 == 2 ==> encoded_len(n) == 4 * (n / 3) + 3,
{
}

/// The lengths of decodings: a text of a length that an encoding may have
/// spells as many bytes as encode to that length.
proof fn lemma_lengths_back(m: nat)
    requires
        m % 4 != 1,
    ensures
        encoded_len(decoded_len(m)) == m,
        m % 4 == 0 ==> decoded_len(m) == 3 * (m / 4),
        m % 4 == 2 ==> decoded_len(m) == 3 * (m / 4) + 1,
        m % 4 == 3 ==> decoded_len(m) == 3 * (m / 4) + 2,
{
}

/// Three bytes cut into four sextets and joined again are the same bytes.
proof fn lemma_split_join(a: int, b: int, c: int)
    requires
        0 <= a < 256,
        0 <= b < 256,
        0 <= c < 256,
    ensures
        (a / 4) * 4 + ((a % 4) * 16 + b / 16) / 16 == a,
        (((a % 4) * 16 + b / 16) % 16) * 16 + ((b % 16) * 4 + c / 64) / 4 == b,
        (((b % 16) * 4 + c / 64) % 4) * 64 + c % 64 == c,
{
}

/// Four sextets joined into three bytes and cut again are the same sextets.
proof fn lemma_join_split(s: int, t: int, u: int, v: int)
    requires
        0 <= s < 64,
        0 <= t < 64,
        0 <= u < 64,
        0 <= v < 64,
    ensures
        0 <= s * 4 + t / 16 < 256,
        0 <= (t % 16) * 16 + u / 4 < 256,
        0 <= (u % 4) * 64 + v < 256,
        (s * 4 + t / 16) / 4 == s,
        ((s * 4 + t / 16) % 4) * 16 + ((t % 16) * 16 + u / 4) / 16 == t,
        (((t % 16) * 16 + u / 4) % 16) * 4 + ((u % 4) * 64 + v) / 64 == u,
        ((u % 4) * 64 + v) % 64 == v,
{
}

/// The digit of an encoding at `i` is the sextet it was made from.
proof fn lemma_digit_of_encoding(data: Seq<u8>, i: int)
    requires
        0 <= i < encoded_len(data.len()),
    ensures
        digit_at(b64_encode_spec(data), i) == sextet(data, i),
        value_of(b64_encode_spec(data)[i]) is Some,
{
    lemma_sextet_range(data, i);
    lemma_symbol_value(sextet(data, i));
}

/// The sextets of the group `q`, written over its three bytes.
proof fn lemma_group_sextets(data: Seq<u8>, q: int)
    requires
        0 <= q,
    ensures
        sextet(data, 4 * q) == byte_at(data, 3 * q) / 4,
        sextet(data, 4 * q + 1) == (byte_at(data, 3 * q) % 4) * 16 + byte_at(data, 3 * q + 1) / 16,
        sextet(data, 4 * q + 2) == (byte_at(data, 3 * q + 1) % 16) * 4 + byte_at(data, 3 * q + 2)
            / 64,
        sextet(data, 4 * q + 3) == byte_at(data, 3 * q + 2) % 64,
{
    reveal(sextet);
    assert((4 * q) / 4 == q && (4 * q) % 4 == 0);
    assert((4 * q + 1) / 4 == q && (4 * q + 1) % 4 == 1);
    assert((4 * q + 2) / 4 == q && (4 * q + 2) % 4 == 2);
    assert((4 * q + 3) / 4 == q && (4 * q + 3) % 4 == 3);
}

/// The bytes of the group `q`, written over its four digits.
proof fn lemma_group_octets(text: Seq<u8>, q: int)
    requires
        0 <= q,
    ensures
        octet(text, 3 * q) == digit_at(text, 4 * q) * 4 + digit_at(text, 4 * q + 1) / 16,
        octet(text, 3 * q + 1) == (digit_at(text, 4 * q + 1) % 16) * 16 + digit_at(text, 4 * q + 2)
            / 4,
        octet(text, 3 * q + 2) == (digit_at(text, 4 * q + 2) % 4) * 64 + digit_at(text, 4 * q + 3),
{
    reveal(octet);
    assert((3 * q) / 3 == q && (3 * q) % 3 == 0);
    assert((3 * q + 1) / 3 == q && (3 * q + 1) % 3 == 1);
    assert((3 * q + 2) / 3 == q && (3 * q + 2) % 3 == 2);
}

/// A digit is a six-bit value.
proof fn lemma_digit_range(text: Seq<u8>, i: int)
    ensures
        0 <= digit_at(text, i) < 64,
{
}

/// The byte that an encoding spells at `j` is the byte of the data.
proof fn lemma_octet_of_encoding(data: Seq<u8>, j: int)
    requires
        0 <= j < data.len(),
    ensures
        octet(b64_encode_spec(data), j) == data[j],
{
    let text = b64_encode_spec(data);
    let q = j / 3;
    let n = data.len() as int;
    let m = text.len() as int;
    lemma_lengths(n as nat);
    assert(j == 3 * q + j % 3);
    lemma_group_octets(text, q);
    lemma_group_sextets(data, q);
    let a = byte_at(data, 3 * q);
    let b = byte_at(data, 3 * q + 1);
    let c = byte_at(data, 3 * q + 2);
    lemma_split_join(a, b, c);
    assert(m >= 4 * q + 2);
    lemma_digit_of_encoding(data, 4 * q);
    lemma_digit_of_encoding(data, 4 * q + 1);
    if j % 3 == 0 {
    } else if j % 3 == 1 {
        assert(m >= 4 * q + 3);
        lemma_digit_of_encoding(data, 4 * q + 2);
    } else {
        assert(m >= 4 * q + 4);
        lemma_digit_of_encoding(data, 4 * q + 2);
        lemma_digit_of_encoding(data, 4 * q + 3);
    }
}

/// Decoding undoes encoding: every byte string comes back from its text.
pub proof fn lemma_decode_encode(data: Seq<u8>)
    ensures
        is_b64(b64_encode_spec(data)),
        b64_decode_spec(b64_encode_spec(data)) == Some(data),
{
    let text = b64_encode_spec(data);
    let n = data.len() as int;
    let m = text.len() as int;
    lemma_lengths(n as nat);
    assert forall|i: int| 0 <= i < m implies (#[trigger] value_of(text[i])) is Some by {
        lemma_digit_of_encoding(data, i);
    }
    assert(tail_is_zero(text)) by {
        let q = n / 3;
        lemma_group_sextets(data, q);
        if m % 4 == 2 {
            assert(n == 3 * q + 1);
            lemma_digit_of_encoding(data, m - 1);
        } else if m % 4 == 3 {
            assert(n == 3 * q + 2);
            lemma_digit_of_encoding(data, m - 1);
        }
    }
    let back = Seq::new(decoded_len(m as nat), |j: int| octet(text, j) as u8);
    assert forall|j: int| 0 <= j < n implies back[j] == data[j] by {
        lemma_octet_of_encoding(data, j);
    }
    assert(back =~= data);
}

/// The bytes that a text decodes to are the bytes that its symbols spell, and
/// past their end the symbols spell zeros.
proof fn lemma_byte_of_decoding(text: Seq<u8>, j: int)
    requires
        is_b64(text),
        0 <= j,
    ensures
        byte_at(b64_decode_spec(text).unwrap(), j) == octet(text, j),
{
    let m = text.len() as int;
    let data = b64_decode_spec(text).unwrap();
    let n = data.len() as int;
    lemma_lengths_back(m as nat);
    let g = j / 3;
    assert(j == 3 * g + j % 3);
    lemma_group_octets(text, g);
    let s = digit_at(text, 4 * g);
    let t = digit_at(text, 4 * g + 1);
    let u = digit_at(text, 4 * g + 2);
    let v = digit_at(text, 4 * g + 3);
    lemma_digit_range(text, 4 * g);
    lemma_digit_range(text, 4 * g + 1);
    lemma_digit_range(text, 4 * g + 2);
    lemma_digit_range(text, 4 * g + 3);
    lemma_join_split(s, t, u, v);
    if j >= n {
        let w = m / 4;
        assert(m == 4 * w + m % 4);
        if g > w {
            assert(s == 0 && t == 0 && u == 0 && v == 0);
        } else if m % 4 == 0 {
            assert(g == w);
            assert(s == 0 && t == 0 && u == 0 && v == 0);
        } else if m % 4 == 2 {
            assert(g == w && j % 3 >= 1);
            assert(4 * g + 1 == m - 1);
            assert(t % 16 == 0 && u == 0 && v == 0);
        } else {
            assert(g == w && j % 3 == 2);
            assert(4 * g + 2 == m - 1);
            assert(u % 4 == 0 && v == 0);
        }
    }
}

/// The sextet at `i` of what a text decodes to is the digit of the text.
proof fn lemma_sextet_of_decoding(text: Seq<u8>, i: int)
    requires
        is_b64(text),
        0 <= i,
    ensures
        sextet(b64_decode_spec(text).unwrap(), i) == digit_at(text, i),
{
    let data = b64_decode_spec(text).unwrap();
    let q = i / 4;
    assert(i == 4 * q + i % 4);
    lemma_group_octets(text, q);
    lemma_group_sextets(data, q);
    lemma_byte_of_decoding(text, 3 * q);
    lemma_byte_of_decoding(text, 3 * q + 1);
    lemma_byte_of_decoding(text, 3 * q + 2);
    lemma_digit_range(text, 4 * q);
    lemma_digit_range(text, 4 * q + 1);
    lemma_digit_range(text, 4 * q + 2);
    lemma_digit_range(text, 4 * q + 3);
    lemma_join_split(
        digit_at(text, 4 * q),
        digit_at(text, 4 * q + 1),
        digit_at(text, 4 * q + 2),
        digit_at(text, 4 * q + 3),
    );
}

/// Encoding undoes decoding: a text that decodes is the encoding of what it
/// decodes to, so no two texts decode to the same bytes.
pub proof fn lemma_encode_decode(text: Seq<u8>)
    requires
        is_b64(text),
    ensures
        b64_encode_spec(b64_decode_spec(text).unwrap()) == text,
{
    let m = text.len();
    let data = b64_decode_spec(text).unwrap();
    lemma_lengths_back(m);
    let again = b64_encode_spec(data);
    assert(again.len() == m);
    assert forall|i: int| 0 <= i < m implies again[i] == text[i] by {
        lemma_sextet_of_decoding(text, i);
        assert(value_of(text[i]) is Some);
        lemma_value_symbol(text[i]);
    }
    assert(again =~= text);
}

/// The symbol of a six-bit value.
fn symbol(v: u8) -> (c: u8)
    requires
        v < 64,
    ensures
        c == symbol_of(v as int),
{
    if v < 26 {
        v + 65
    } else if v < 52 {
        v + 71
    } else if v < 62 {
        v - 4
    } else if v == 62 {
        45
    } else {
        95
    }
}

/// The six-bit value of a symbol.
fn value(c: u8) -> (r: Option<u8>)
    ensures
        match r {
            Some(v) => value_of(c) == Some(v as int) && v < 64,
            None => value_of(c) is None,
        },
{
    if 65 <= c && c <= 90 {
        Some(c - 65)
    } else if 97 <= c && c <= 122 {
        Some(c - 71)
    } else if 48 <= c && c <= 57 {
        Some(c + 4)
    } else if c == 45 {
        Some(62)
    } else if c == 95 {
        Some(63)
    } else {
        None
    }
}

/// Encodes `data` as base64url text without padding.
pub fn b64_encode(data: &[u8]) -> (out: Vec<u8>)
    ensures
        out@ == b64_encode_spec(data@),
{
    let n = data.len();
    let mut out: Vec<u8> = Vec::new();
    let mut i: usize = 0;
    while n - i >= 3
        invariant
            n == data.len(),
            i <= n,
            i % 3 == 0,
            out@.len() == 4 * (i / 3),
            forall|j: int| 0 <= j < out@.len() ==> out@[j] == symbol_of(sextet(data@, j)),
        decreases n - i,
    {
        let a = data[i];
        let b = data[i + 1];
        let c = data[i + 2];
        out.push(symbol(a / 4));
        out.push(symbol((a % 4) * 16 + b / 16));
        out.push(symbol((b % 16) * 4 + c / 64));
        out.push(symbol(c % 64));
        proof {
            lemma_group_sextets(data@, i as int / 3);
        }
        i = i + 3;
    }
    proof {
        lemma_group_sextets(data@, i as int / 3);
    }
    if n - i == 1 {
        let a = data[i];
        out.push(symbol(a / 4));
        out.push(symbol((a % 4) * 16));
    } else if n - i == 2 {
        let a = data[i];
        let b = data[i + 1];
        out.push(symbol(a / 4));
        out.push(symbol((a % 4) * 16 + b / 16));
        out.push(symbol((b % 16) * 4));
    }
    proof {
        lemma_lengths(n as nat);
        assert(out@ =~= b64_encode_spec(data@));
    }
    out
}

/// Decodes base64url text without padding.
///
/// Fails with `MalformedEncoding` on a byte outside the alphabet, on a length
/// that no encoding has, and on a last symbol with bits that no byte takes up.
pub fn b64_decode(text: &[u8]) -> (r: Result<Vec<u8>, EnvelopeError>)
    ensures
        match r {
            Ok(data) => b64_decode_spec(text@) == Some(data@),
            Err(e) => e == EnvelopeError::MalformedEncoding && b64_decode_spec(text@) is None,
        },
{
    let m = text.len();
    if m % 4 == 1 {
        return Err(EnvelopeError::MalformedEncoding);
    }
    let mut out: Vec<u8> = Vec::new();
    let mut i: usize = 0;
    while m - i >= 4
        invariant
            m == text.len(),
            i <= m,
            i % 4 == 0,
            out@.len() == 3 * (i / 4),
            forall|j: int| 0 <= j < i ==> (#[trigger] value_of(text@[j])) is Some,
            forall|j: int| 0 <= j < out@.len() ==> out@[j] == octet(text@, j) as u8,
        decreases m - i,
    {
        let (a, b, c, d) = match (value(text[i]), value(text[i + 1]), value(text[i + 2]), value(text[i + 3])) {
            (Some(a), Some(b), Some(c), Some(d)) => (a, b, c, d),
            _ => {
                return Err(EnvelopeError::MalformedEncoding);
            },
        };
        out.push(a * 4 + b / 16);
        out.push((b % 16) * 16 + c / 4);
        out.push((c % 4) * 64 + d);
        proof {
            lemma_group_octets(text@, i as int / 4);
        }
        i = i + 4;
    }
    proof {
        lemma_group_octets(text@, i as int / 4);
    }
    if m - i == 2 {
        let (a, b) = match (value(text[i]), value(text[i + 1])) {
            (Some(a), Some(b)) => (a, b),
            _ => {
                return Err(EnvelopeError::MalformedEncoding);
            },
        };
        if b % 16 != 0 {
            return Err(EnvelopeError::MalformedEncoding);
        }
        out.push(a * 4 + b / 16);
    } else if m - i == 3 {
        let (a, b, c) = match (value(text[i]), value(text[i + 1]), value(text[i + 2])) {
            (Some(a), Some(b), Some(c)) => (a, b, c),
            _ => {
                return Err(EnvelopeError::MalformedEncoding);
            },
        };
        if c % 4 != 0 {
            return Err(EnvelopeError::MalformedEncoding);
        }
        out.push(a * 4 + b / 16);
        out.push((b % 16) * 16 + c / 4);
    }
    proof {
        lemma_lengths_back(m as nat);
        assert(is_b64(text@));
        assert(out@ =~= b64_decode_spec(text@).unwrap());
    }
    Ok(out)
}

} // verus!
