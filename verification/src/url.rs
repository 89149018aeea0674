//! Share links: one URL that locates the envelope and carries its key.
//!
//! A share link is `scheme://host/path/id#key`. Everything before the `#` is
//! what the server sees; its last path segment is the id of the secret.
//! What follows the `#` is the client key in base64url. A transport never
//! sends the fragment of a URL, so the key stays with the two parties.
//! URLs are handled as bytes.

use vstd::prelude::*;
use crate::bytes::{append_bytes, copy_bytes, copy_range};
use crate::codec::{
    b64_decode, b64_decode_spec, b64_encode, b64_encode_spec, lemma_decode_encode,
};
use crate::error::EnvelopeError;

verus! {

/// The `#` that separates what the server sees from the key.
pub const KEY_DELIMITER: u8 = 35;

/// The `/` that separates path segments.
pub const PATH_DELIMITER: u8 = 47;

/// `url` holds `://` at `p`.
pub open spec fn mark_at(url: Seq<u8>, p: int) -> bool {
    &&& 0 <= p
    &&& p + 3 <= url.len()
    &&& url[p] == 58
    &&& url[p + 1] == 47
    &&& url[p + 2] == 47
}

/// Where the first `://` at or after `from` stands.
pub open spec fn find_mark(url: Seq<u8>, from: int) -> Option<int>
    decreases url.len() - from,
{
    if from < 0 || from + 3 > url.len() {
        None
    } else if mark_at(url, from) {
        Some(from)
    } else {
        find_mark(url, from + 1)
    }
}

/// The id in `locator`, the part of a share link that the server sees: what
/// follows the last `/` after the scheme. `None` where the locator has no
/// scheme before `://`, no `/` after it, or nothing after the last `/`.
pub open spec fn share_id_spec(locator: Seq<u8>) -> Option<Seq<u8>> {
    match find_mark(locator, 0) {
        None => None,
        Some(p) => {
            let rest = locator.subrange(p + 3, locator.len() as int);
            match rest.index_of_last(PATH_DELIMITER) {
                None => None,
                Some(s) => if p >= 1 && s + 1 < rest.len() {
                    Some(rest.subrange(s + 1, rest.len() as int))
                } else {
                    None
                },
            }
        },
    }
}

/// Id and client key of a share link; `None` where it has no `#`, its
/// locator has no id, or its fragment is not base64url.
pub open spec fn parse_share_url_spec(url: Seq<u8>) -> Option<(Seq<u8>, Seq<u8>)> {
    match url.index_of_first(KEY_DELIMITER) {
        None => None,
        Some(h) => match (
            share_id_spec(url.subrange(0, h)),
            b64_decode_spec(url.subrange(h + 1, url.len() as int)),
        ) {
            (Some(id), Some(client_key)) => Some((id, client_key)),
            _ => None,
        },
    }
}

/// The share link made of the server's URL for the secret and the client key.
pub open spec fn format_share_link_spec(share_url: Seq<u8>, client_key: Seq<u8>) -> Seq<u8> {
    share_url + seq![KEY_DELIMITER] + b64_encode_spec(client_key)
}

/// Scheme and authority of a URL: everything before the first `/` that
/// follows `://`. `None` where the URL has no `://` or no `/` after it.
pub open spec fn share_origin_spec(url: Seq<u8>) -> Option<Seq<u8>> {
    match find_mark(url, 0) {
        None => None,
        Some(p) => match url.subrange(p + 3, url.len() as int).index_of_first(PATH_DELIMITER) {
            None => None,
            Some(q) => Some(url.subrange(0, p + 3 + q)),
        },
    }
}

/// Parsing undoes formatting: a link made of a server URL that has an id and
/// no `#`, and of any client key, parses into that id and that key.
pub proof fn lemma_share_link_round_trip(share_url: Seq<u8>, client_key: Seq<u8>)
    requires
        !share_url.contains(KEY_DELIMITER),
        share_id_spec(share_url) is Some,
    ensures
        parse_share_url_spec(format_share_link_spec(share_url, client_key)) == Some(
            (share_id_spec(share_url).unwrap(), client_key),
        ),
{
    let link = format_share_link_spec(share_url, client_key);
    let h = share_url.len() as int;
    assert(link[h] == KEY_DELIMITER);
    link.index_of_first_ensures(KEY_DELIMITER);
    let found = link.index_of_first(KEY_DELIMITER);
    assert(found == Some(h)) by {
        assert(link.contains(KEY_DELIMITER));
        let f = found.unwrap();
        if f < h {
            assert(share_url[f] == KEY_DELIMITER);
            assert(share_url.contains(KEY_DELIMITER));
        }
    }
    assert(link.subrange(0, h) =~= share_url);
    assert(link.subrange(h + 1, link.len() as int) =~= b64_encode_spec(client_key));
    lemma_decode_encode(client_key);
}

/// Where the first `://` of `url` stands.
fn first_mark(url: &[u8]) -> (r: Option<usize>)
    ensures
        match r {
            Some(p) => find_mark(url@, 0) == Some(p as int) && p + 3 <= url@.len(),
            None => find_mark(url@, 0) is None,
        },
{
    let n = url.len();
    let mut i: usize = 0;
    while n - i >= 3
        invariant
            n == url.len(),
            i <= n,
            find_mark(url@, 0) == find_mark(url@, i as int),
        decreases n - i,
    {
        if url[i] == 58 && url[i + 1] == 47 && url[i + 2] == 47 {
            return Some(i);
        }
        i = i + 1;
    }
    None
}

/// Where `b` first stands in `s` between `from` and `to`.
fn first_index(s: &[u8], from: usize, to: usize, b: u8) -> (r: Option<usize>)
    requires
        from <= to <= s.len(),
    ensures
        match r {
            Some(i) => from <= i < to && s@.subrange(from as int, to as int).index_of_first(b)
                == Some(i - from),
            None => s@.subrange(from as int, to as int).index_of_first(b) is None,
        },
{
    let ghost part = s@.subrange(from as int, to as int);
    let mut i: usize = from;
    while i < to
        invariant
            from <= i <= to,
            to <= s.len(),
            part == s@.subrange(from as int, to as int),
            forall|j: int| 0 <= j < i - from ==> part[j] != b,
        decreases to - i,
    {
        if s[i] == b {
            proof {
                assert(part[i - from] == b);
                part.index_of_first_ensures(b);
            }
            return Some(i);
        }
        i = i + 1;
    }
    proof {
        part.index_of_first_ensures(b);
    }
    None
}

/// Where `b` last stands in `s` between `from` and `to`.
fn last_index(s: &[u8], from: usize, to: usize, b: u8) -> (r: Option<usize>)
    requires
        from <= to <= s.len(),
    ensures
        match r {
            Some(i) => from <= i < to && s@.subrange(from as int, to as int).index_of_last(b)
                == Some(i - from),
            None => s@.subrange(from as int, to as int).index_of_last(b) is None,
        },
{
    let ghost part = s@.subrange(from as int, to as int);
    let mut i: usize = to;
    while i > from
        invariant
            from <= i <= to,
            to <= s.len(),
            part == s@.subrange(from as int, to as int),
            forall|j: int| i - from <= j < to - from ==> part[j] != b,
        decreases i,
    {
        i = i - 1;
        if s[i] == b {
            proof {
                assert(part[i - from] == b);
                part.index_of_last_ensures(b);
            }
            return Some(i);
        }
    }
    proof {
        part.index_of_last_ensures(b);
    }
    None
}

/// The id in the first `end` bytes of `url`.
fn share_id(url: &[u8], end: usize) -> (r: Option<Vec<u8>>)
    requires
        end <= url.len(),
    ensures
        match r {
            Some(id) => share_id_spec(url@.subrange(0, end as int)) == Some(id@),
            None => share_id_spec(url@.subrange(0, end as int)) is None,
        },
{
    let locator = vstd::slice::slice_subrange(url, 0, end);
    let p = match first_mark(locator) {
        Some(p) => p,
        None => {
            return None;
        },
    };
    let s = match last_index(locator, p + 3, end, PATH_DELIMITER) {
        Some(s) => s,
        None => {
            return None;
        },
    };
    if p == 0 || s + 1 >= end {
        return None;
    }
    let id = copy_range(locator, s + 1, end);
    proof {
        let rest = locator@.subrange(p + 3, end as int);
        assert(rest.subrange(s - (p + 3) + 1, rest.len() as int) =~= id@);
    }
    Some(id)
}

/// Splits a share link into the id that the server knows the secret by and
/// the client key that opens it.
///
/// Fails with `InvalidShareUrl` where the link has no `#`, no scheme, no id,
/// or a key that is not base64url.
pub fn parse_share_url(url: &[u8]) -> (r: Result<(Vec<u8>, Vec<u8>), EnvelopeError>)
    ensures
        match r {
            Ok((id, client_key)) => parse_share_url_spec(url@) == Some((id@, client_key@)),
            Err(e) => parse_share_url_spec(url@) is None && e == EnvelopeError::InvalidShareUrl,
        },
{
    let n = url.len();
    assert(url@.subrange(0, n as int) =~= url@);
    let h = match first_index(url, 0, n, KEY_DELIMITER) {
        Some(h) => h,
        None => {
            return Err(EnvelopeError::InvalidShareUrl);
        },
    };
    let id = match share_id(url, h) {
        Some(id) => id,
        None => {
            return Err(EnvelopeError::InvalidShareUrl);
        },
    };
    let fragment = vstd::slice::slice_subrange(url, h + 1, n);
    match b64_decode(fragment) {
        Ok(client_key) => Ok((id, client_key)),
        Err(_) => Err(EnvelopeError::InvalidShareUrl),
    }
}

/// Makes the share link of the server's URL for the secret and the client
/// key: the URL, a `#`, and the key in base64url.
pub fn format_share_link(share_url: &[u8], client_key: &[u8]) -> (link: Vec<u8>)
    ensures
        link@ == format_share_link_spec(share_url@, client_key@),
{
    let mut link = copy_bytes(share_url);
    link.push(KEY_DELIMITER);
    let key_text = b64_encode(client_key);
    append_bytes(&mut link, key_text.as_slice());
    assert(link@ =~= format_share_link_spec(share_url@, client_key@));
    link
}

/// Scheme and authority of `url`, the address of the server that a share
/// link points to.
pub fn share_origin(url: &[u8]) -> (r: Option<Vec<u8>>)
    ensures
        match r {
            Some(origin) => share_origin_spec(url@) == Some(origin@),
            None => share_origin_spec(url@) is None,
        },
{
    let n = url.len();
    let p = match first_mark(url) {
        Some(p) => p,
        None => {
            return None;
        },
    };
    match first_index(url, p + 3, n, PATH_DELIMITER) {
        Some(q) => Some(copy_range(url, 0, q)),
        None => None,
    }
}

} // verus!
