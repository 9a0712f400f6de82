//! Decimal integers written as text: an optional sign, then one digit or more.

use vstd::prelude::*;

verus! {

/// Whether `c` is one of the digits `0` to `9`.
pub open spec fn is_digit(c: char) -> bool {
    '0' <= c <= '9'
}

/// The number that a digit stands for.
pub open spec fn digit_value(c: char) -> int {
    c as int - '0' as int
}

/// Whether every character of `s` is a digit.
pub open spec fn all_digits(s: Seq<char>) -> bool {
    forall|i: int| 0 <= i < s.len() ==> is_digit(#[trigger] s[i])
}

/// The number that a run of digits denotes, the first digit weighing most.
pub open spec fn digits_value(s: Seq<char>) -> int
    decreases s.len(),
{
    if s.len() == 0 {
        0
    } else {
        digits_value(s.drop_last()) * 10 + digit_value(s.last())
    }
}

/// Whether `text` starts with a sign.
pub open spec fn has_sign(text: Seq<char>) -> bool {
    text.len() > 0 && (text[0] == '-' || text[0] == '+')
}

/// The digits of `text`: all of it but a leading sign.
pub open spec fn digits_of(text: Seq<char>) -> Seq<char> {
    if has_sign(text) {
        text.skip(1)
    } else {
        text
    }
}

/// The integer that `text` denotes before any bound is applied.
pub open spec fn signed_value(text: Seq<char>) -> int {
    if text.len() > 0 && text[0] == '-' {
        -digits_value(digits_of(text))
    } else {
        digits_value(digits_of(text))
    }
}

/// Whether `text` is an optional `+` or `-` followed by one digit or more.
pub open spec fn is_decimal(text: Seq<char>) -> bool {
    digits_of(text).len() > 0 && all_digits(digits_of(text))
}

/// The `i64` that `text` denotes: `None` where the text is no decimal
/// integer or the integer lies outside `i64`.
pub open spec fn integer_of(text: Seq<char>) -> Option<i64> {
    if is_decimal(text) && i64::MIN <= signed_value(text) <= i64::MAX {
        Some(signed_value(text) as i64)
    } else {
        None
    }
}

/// A run of digits denotes no less than any of its prefixes.
pub proof fn lemma_prefix_value(s: Seq<char>, k: int)
    requires
        all_digits(s),
        0 <= k <= s.len(),
    ensures
        0 <= digits_value(s.take(k)) <= digits_value(s),
    decreases s.len() - k,
{
    if k == s.len() {
        assert(s.take(k) =~= s);
        lemma_value_nonnegative(s);
    } else {
        lemma_prefix_value(s, k + 1);
        assert(s.take(k + 1).drop_last() =~= s.take(k));
        lemma_value_nonnegative(s.take(k));
    }
}

/// A run of digits denotes a natural number.
pub proof fn lemma_value_nonnegative(s: Seq<char>)
    requires
        all_digits(s),
    ensures
        0 <= digits_value(s),
    decreases s.len(),
{
    if s.len() > 0 {
        lemma_value_nonnegative(s.drop_last());
    }
}

/// Reads a decimal integer.
pub fn parse_i64(text: &str) -> (number: Option<i64>)
    ensures
        number == integer_of(text@),
{
    if !text.is_ascii() {
        proof {
            let i = choose|i: int| 0 <= i < text@.len() && !('\0' <= #[trigger] text@[i] <= '\u{7f}');
            if has_sign(text@) {
                assert(digits_of(text@)[i - 1] == text@[i]);
            }
        }
        return None;
    }
    let bytes = text.as_bytes();
    let len: usize = bytes.len();
    proof {
        vstd::string::is_ascii_spec_bytes(text);
    }
    if len == 0 {
        return None;
    }
    let first: u8 = bytes[0];
    let negative: bool = first == 45u8;
    let start: usize = if first == 45u8 || first == 43u8 {
        1
    } else {
        0
    };
    let ghost digits = digits_of(text@);
    if start == len {
        return None;
    }
    let limit: u64 = if negative {
        9223372036854775808u64
    } else {
        9223372036854775807u64
    };
    let mut magnitude: u64 = 0;
    let mut i: usize = start;
    while i < len
        invariant
            start <= i <= len,
            0 < len == text@.len(),
            vstd::utf8::is_ascii_chars(text@),
            bytes@ == Seq::new(text@.len(), |k: int| text@[k] as u8),
            negative == (text@[0] == '-'),
            limit == (if negative {
                9223372036854775808u64
            } else {
                9223372036854775807u64
            }),
            digits == text@.skip(start as int),
            digits == digits_of(text@),
            all_digits(digits.take(i - start)),
            magnitude == digits_value(digits.take(i - start)),
            magnitude <= limit,
        decreases len - i,
    {
        let c: u8 = bytes[i];
        assert(digits[i - start] == text@[i as int]);
        if c < 48u8 || c > 57u8 {
            return None;
        }
        let digit: u64 = (c - 48u8) as u64;
        proof {
            assert(digits.take(i - start + 1).drop_last() =~= digits.take(i - start));
            assert forall|j: int| 0 <= j < i - start + 1 implies is_digit(
                #[trigger] digits.take(i - start + 1)[j],
            ) by {}
        }
        if magnitude > (limit - digit) / 10 {
            proof {
                if all_digits(digits) {
                    lemma_prefix_value(digits, i - start + 1);
                }
            }
            return None;
        }
        magnitude = magnitude * 10 + digit;
        i += 1;
    }
    assert(digits.take(len - start) =~= digits);
    if negative {
        if magnitude == 9223372036854775808u64 {
            Some(i64::MIN)
        } else {
            Some(-(magnitude as i64))
        }
    } else {
        Some(magnitude as i64)
    }
}

} // verus!
