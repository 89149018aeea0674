use secrt::error::EnvelopeError;
use secrt::ttl::{parse_ttl, MAX_TTL_SECONDS};

#[test]
fn parses_seconds_minutes_and_hours() {
    assert_eq!(parse_ttl(b"30s"), Ok(30));
    assert_eq!(parse_ttl(b"5m"), Ok(300));
    assert_eq!(parse_ttl(b"2h"), Ok(7200));
}

#[test]
fn rejects_zero_and_words() {
    assert_eq!(parse_ttl(b"0s"), Err(EnvelopeError::InvalidTtl));
    assert_eq!(parse_ttl(b"abc"), Err(EnvelopeError::InvalidTtl));
}

#[test]
fn parses_days_and_bare_numbers() {
    assert_eq!(parse_ttl(b"1d"), Ok(86_400));
    assert_eq!(parse_ttl(b"7d"), Ok(604_800));
    assert_eq!(parse_ttl(b"45"), Ok(45));
    assert_eq!(parse_ttl(b"1"), Ok(1));
    assert_eq!(parse_ttl(b"007s"), Ok(7));
}

#[test]
fn the_longest_lifetime_is_thirty_days() {
    assert_eq!(MAX_TTL_SECONDS, 2_592_000);
    assert_eq!(parse_ttl(b"30d"), Ok(2_592_000));
    assert_eq!(parse_ttl(b"720h"), Ok(2_592_000));
    assert_eq!(parse_ttl(b"43200m"), Ok(2_592_000));
    assert_eq!(parse_ttl(b"2592000"), Ok(2_592_000));
    assert_eq!(parse_ttl(b"2592000s"), Ok(2_592_000));
    assert_eq!(parse_ttl(b"2592001"), Err(EnvelopeError::InvalidTtl));
    assert_eq!(parse_ttl(b"31d"), Err(EnvelopeError::InvalidTtl));
    assert_eq!(parse_ttl(b"721h"), Err(EnvelopeError::InvalidTtl));
    assert_eq!(parse_ttl(b"43201m"), Err(EnvelopeError::InvalidTtl));
}

#[test]
fn rejects_numbers_too_long_for_any_integer() {
    assert_eq!(parse_ttl(b"99999999999999999999999999999999999999s"), Err(EnvelopeError::InvalidTtl));
    assert_eq!(parse_ttl(b"4294967296"), Err(EnvelopeError::InvalidTtl));
    assert_eq!(parse_ttl(b"18446744073709551617d"), Err(EnvelopeError::InvalidTtl));
    assert_eq!(parse_ttl(b"00000000000000000000000000000000000000000005m"), Ok(300));
}

#[test]
fn rejects_the_empty_text_and_a_unit_alone() {
    assert_eq!(parse_ttl(b""), Err(EnvelopeError::InvalidTtl));
    assert_eq!(parse_ttl(b"s"), Err(EnvelopeError::InvalidTtl));
    assert_eq!(parse_ttl(b"d"), Err(EnvelopeError::InvalidTtl));
}

#[test]
fn rejects_zero_in_every_form() {
    assert_eq!(parse_ttl(b"0"), Err(EnvelopeError::InvalidTtl));
    assert_eq!(parse_ttl(b"0m"), Err(EnvelopeError::InvalidTtl));
    assert_eq!(parse_ttl(b"000d"), Err(EnvelopeError::InvalidTtl));
}

#[test]
fn rejects_unknown_units_and_stray_bytes() {
    assert_eq!(parse_ttl(b"5w"), Err(EnvelopeError::InvalidTtl));
    assert_eq!(parse_ttl(b"5x"), Err(EnvelopeError::InvalidTtl));
    assert_eq!(parse_ttl(b"5S"), Err(EnvelopeError::InvalidTtl));
    assert_eq!(parse_ttl(b"5ms"), Err(EnvelopeError::InvalidTtl));
    assert_eq!(parse_ttl(b"5 m"), Err(EnvelopeError::InvalidTtl));
    assert_eq!(parse_ttl(b" 5m"), Err(EnvelopeError::InvalidTtl));
    assert_eq!(parse_ttl(b"-5m"), Err(EnvelopeError::InvalidTtl));
    assert_eq!(parse_ttl(b"+5m"), Err(EnvelopeError::InvalidTtl));
    assert_eq!(parse_ttl(b"1.5h"), Err(EnvelopeError::InvalidTtl));
    assert_eq!(parse_ttl(b"m5"), Err(EnvelopeError::InvalidTtl));
}
