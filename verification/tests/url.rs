use secrt::codec::b64_encode;
use secrt::error::EnvelopeError;
use secrt::url::{format_share_link, parse_share_url, share_origin};

fn key() -> Vec<u8> {
    (0..32u8).map(|i| i.wrapping_mul(7).wrapping_add(3)).collect()
}

#[test]
fn formats_a_link_as_url_hash_key() {
    let link = format_share_link(b"https://secrt.example/s/abc123", &[0xfb, 0xff]);
    assert_eq!(link, b"https://secrt.example/s/abc123#-_8".to_vec());
}

#[test]
fn parses_id_and_key_out_of_a_link() {
    let mut link = b"https://secrt.example/s/abc123#".to_vec();
    link.extend_from_slice(&b64_encode(&key()));
    assert_eq!(parse_share_url(&link), Ok((b"abc123".to_vec(), key())));
}

#[test]
fn parsing_inverts_formatting() {
    let bases: [&[u8]; 5] = [
        b"https://secrt.example/s/abc123",
        b"http://localhost:8080/s/x",
        b"https://host/deep/er/path/ID-_9",
        b"custom+scheme://h/i",
        b"https://secrt.example/s/abc?from=mail",
    ];
    for base in bases {
        for n in [0usize, 1, 2, 3, 16, 31, 32, 33] {
            let client_key: Vec<u8> = key().iter().cycle().take(n).cloned().collect();
            let link = format_share_link(base, &client_key);
            let (id, parsed) = parse_share_url(&link).unwrap();
            assert_eq!(parsed, client_key);
            let slash = base.iter().rposition(|&b| b == b'/').unwrap();
            assert_eq!(id, base[slash + 1..].to_vec());
        }
    }
}

#[test]
fn a_link_without_a_delimiter_is_invalid() {
    assert_eq!(parse_share_url(b"https://secrt.example/s/abc123"), Err(EnvelopeError::InvalidShareUrl));
    assert_eq!(parse_share_url(b""), Err(EnvelopeError::InvalidShareUrl));
}

#[test]
fn a_link_without_a_scheme_is_invalid() {
    assert_eq!(parse_share_url(b"secrt.example/s/abc123#Zm9v"), Err(EnvelopeError::InvalidShareUrl));
    assert_eq!(parse_share_url(b"abc123#Zm9v"), Err(EnvelopeError::InvalidShareUrl));
    assert_eq!(parse_share_url(b"://secrt.example/s/abc123#Zm9v"), Err(EnvelopeError::InvalidShareUrl));
    assert_eq!(parse_share_url(b"#Zm9v"), Err(EnvelopeError::InvalidShareUrl));
}

#[test]
fn a_link_without_an_id_is_invalid() {
    assert_eq!(parse_share_url(b"https://secrt.example#Zm9v"), Err(EnvelopeError::InvalidShareUrl));
    assert_eq!(parse_share_url(b"https://secrt.example/#Zm9v"), Err(EnvelopeError::InvalidShareUrl));
    assert_eq!(parse_share_url(b"https://secrt.example/s/#Zm9v"), Err(EnvelopeError::InvalidShareUrl));
    assert_eq!(parse_share_url(b"https://#Zm9v"), Err(EnvelopeError::InvalidShareUrl));
}

#[test]
fn a_link_whose_key_is_not_base64url_is_invalid() {
    assert_eq!(parse_share_url(b"https://secrt.example/s/abc#Zm9+"), Err(EnvelopeError::InvalidShareUrl));
    assert_eq!(parse_share_url(b"https://secrt.example/s/abc#Z"), Err(EnvelopeError::InvalidShareUrl));
    assert_eq!(parse_share_url(b"https://secrt.example/s/abc#Zm9v#Zm9v"), Err(EnvelopeError::InvalidShareUrl));
    assert_eq!(parse_share_url(b"https://secrt.example/s/abc#Zg=="), Err(EnvelopeError::InvalidShareUrl));
}

#[test]
fn the_key_may_be_empty_for_the_parser() {
    assert_eq!(parse_share_url(b"https://secrt.example/s/abc#"), Ok((b"abc".to_vec(), Vec::new())));
}

#[test]
fn the_scheme_mark_is_looked_for_before_the_delimiter_only() {
    assert_eq!(parse_share_url(b"secrt.example/s/abc#https://x/y"), Err(EnvelopeError::InvalidShareUrl));
}

#[test]
fn the_origin_is_scheme_and_authority() {
    assert_eq!(share_origin(b"https://secrt.example/s/abc123#Zm9v"), Some(b"https://secrt.example".to_vec()));
    assert_eq!(share_origin(b"http://localhost:8080/s/x"), Some(b"http://localhost:8080".to_vec()));
    assert_eq!(share_origin(b"https:///s/x"), Some(b"https://".to_vec()));
    assert_eq!(share_origin(b"https://secrt.example"), None);
    assert_eq!(share_origin(b"secrt.example/s/abc"), None);
    assert_eq!(share_origin(b""), None);
    assert_eq!(share_origin(b":/"), None);
}
