//! Lifetimes: how long the server keeps a secret.
//!
//! A lifetime is written as a decimal number, optionally followed by one
//! unit: `s` for seconds, `m` for minutes, `h` for hours, `d` for days, from
//! the smallest to the largest. Without a unit the number counts seconds.
//! The longest lifetime is thirty days.

use vstd::prelude::*;
use crate::error::EnvelopeError;

verus! {

/// The longest lifetime, in seconds: thirty days.
pub const MAX_TTL_SECONDS: u32 = 2_592_000;

/// `b` is an ASCII decimal digit.
pub open spec fn is_digit(b: u8) -> bool {
    48 <= b <= 57
}

/// Every byte of `s` is a decimal digit.
pub open spec fn all_digits(s: Seq<u8>) -> bool {
    forall|i: int| 0 <= i < s.len() ==> is_digit(#[trigger] s[i])
}

/// The number that the decimal digits `s` spell.
pub open spec fn decimal_value(s: Seq<u8>) -> int
    decreases s.len(),
{
    if s.len() == 0 {
        0
    } else {
        decimal_value(s.drop_last()) * 10 + (s.last() - 48)
    }
}

/// Seconds in one unit; `None` for a byte that is no unit.
pub open spec fn unit_seconds(unit: u8) -> Option<int> {
    if unit == 115 {
        Some(1int)
    } else if unit == 109 {
        Some(60int)
    } else if unit == 104 {
        Some(3_600int)
    } else if unit == 100 {
        Some(86_400int)
    } else {
        None
    }
}

/// The digits of a lifetime: all of it, or all but a unit at its end.
pub open spec fn magnitude_of(text: Seq<u8>) -> Seq<u8> {
    if text.len() > 0 && !is_digit(text.last()) {
        text.drop_last()
    } else {
        text
    }
}

/// Seconds that one count of the lifetime's unit stands for.
pub open spec fn scale_of(text: Seq<u8>) -> Option<int> {
    if text.len() > 0 && !is_digit(text.last()) {
        unit_seconds(text.last())
    } else {
        Some(1int)
    }
}

/// The seconds that `text` stands for; `None` where it is empty, has no
/// digits, has anything but digits before the unit, has an unknown unit, is
/// zero, or is more than `MAX_TTL_SECONDS`.
pub open spec fn ttl_spec(text: Seq<u8>) -> Option<int> {
    let digits = magnitude_of(text);
    if digits.len() == 0 || !all_digits(digits) {
        None
    } else {
        match scale_of(text) {
            None => None,
            Some(scale) => {
                let seconds = decimal_value(digits) * scale;
                if 1 <= seconds <= MAX_TTL_SECONDS {
                    Some(seconds)
                } else {
                    None
                }
            },
        }
    }
}

/// Digits spell a number that is not negative, and more digits never spell
/// less than fewer of them.
proof fn lemma_decimal_grows(s: Seq<u8>, k: int)
    requires
        all_digits(s),
        0 <= k <= s.len(),
    ensures
        0 <= decimal_value(s.subrange(0, k)) <= decimal_value(s),
    decreases s.len() - k,
{
    if k == s.len() {
        assert(s.subrange(0, k) =~= s);
        lemma_decimal_nonnegative(s);
    } else {
        lemma_decimal_grows(s, k + 1);
        let longer = s.subrange(0, k + 1);
        assert(longer.drop_last() =~= s.subrange(0, k));
        assert(is_digit(s[k]));
        assert(longer.last() == s[k]);
        lemma_decimal_nonnegative(s.subrange(0, k));
    }
}

/// Digits spell a number that is not negative.
proof fn lemma_decimal_nonnegative(s: Seq<u8>)
    requires
        all_digits(s),
    ensures
        0 <= decimal_value(s),
    decreases s.len(),
{
    if s.len() > 0 {
        assert(is_digit(s.last()));
        lemma_decimal_nonnegative(s.drop_last());
    }
}

/// Parses a lifetime into seconds.
///
/// Fails with `InvalidTtl` on the empty text, a missing or non-numeric
/// magnitude, an unknown unit, zero, and anything above `MAX_TTL_SECONDS`.
/// Nothing is rounded.
pub fn parse_ttl(text: &[u8]) -> (r: Result<u32, EnvelopeError>)
    ensures
        match r {
            Ok(seconds) => ttl_spec(text@) == Some(seconds as int),
            Err(e) => ttl_spec(text@) is None && e == EnvelopeError::InvalidTtl,
        },
        r matches Ok(seconds) ==> 1 <= seconds <= MAX_TTL_SECONDS,
{
    let n = text.len();
    if n == 0 {
        return Err(EnvelopeError::InvalidTtl);
    }
    let last = text[n - 1];
    let has_unit = !(48 <= last && last <= 57);
    let end: usize = if has_unit { n - 1 } else { n };
    let scale: u32 = if !has_unit || last == 115 {
        1
    } else if last == 109 {
        60
    } else if last == 104 {
        3_600
    } else if last == 100 {
        86_400
    } else {
        return Err(EnvelopeError::InvalidTtl);
    };
    if end == 0 {
        return Err(EnvelopeError::InvalidTtl);
    }
    let ghost digits = magnitude_of(text@);
    assert(digits =~= text@.subrange(0, end as int));
    let mut value: u32 = 0;
    let mut i: usize = 0;
    while i < end
        invariant
            i <= end <= n,
            n == text.len(),
            digits == text@.subrange(0, end as int),
            digits == magnitude_of(text@),
            scale_of(text@) == Some(scale as int),
            1 <= scale <= 86_400,
            all_digits(digits.subrange(0, i as int)),
            value == decimal_value(digits.subrange(0, i as int)),
            value <= MAX_TTL_SECONDS,
        decreases end - i,
    {
        let b = text[i];
        if !(48 <= b && b <= 57) {
            assert(!is_digit(digits[i as int]));
            return Err(EnvelopeError::InvalidTtl);
        }
        proof {
            let longer = digits.subrange(0, i + 1);
            assert(longer.drop_last() =~= digits.subrange(0, i as int));
            assert(longer.last() == b);
            assert forall|j: int| 0 <= j < longer.len() implies is_digit(#[trigger] longer[j]) by {
                if j < i {
                    assert(longer[j] == digits.subrange(0, i as int)[j]);
                }
            }
        }
        value = value * 10 + (b - 48) as u32;
        i = i + 1;
        if value > MAX_TTL_SECONDS {
            proof {
                if all_digits(digits) {
                    lemma_decimal_grows(digits, i as int);
                    assert(decimal_value(digits) * (scale as int) >= decimal_value(digits))
                        by (nonlinear_arith)
                        requires
                            decimal_value(digits) >= 0,
                            scale >= 1,
                    ;
                }
            }
            return Err(EnvelopeError::InvalidTtl);
        }
    }
    assert(digits.subrange(0, end as int) =~= digits);
    if value == 0 {
        assert(decimal_value(digits) * (scale as int) == 0) by (nonlinear_arith)
            requires
                decimal_value(digits) == 0,
        ;
        return Err(EnvelopeError::InvalidTtl);
    }
    assert(value * scale <= 2_592_000 * 86_400) by (nonlinear_arith)
        requires
            0 <= value <= 2_592_000,
            0 <= scale <= 86_400,
    ;
    let seconds: u64 = (value as u64) * (scale as u64);
    assert(seconds == decimal_value(digits) * (scale as int));
    if seconds > MAX_TTL_SECONDS as u64 {
        return Err(EnvelopeError::InvalidTtl);
    }
    assert(seconds >= 1) by (nonlinear_arith)
        requires
            seconds == value * scale,
            value >= 1,
            scale >= 1,
    ;
    Ok(seconds as u32)
}

} // verus!
