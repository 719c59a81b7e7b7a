//! Decimal numerals: an optional sign, then one or more ASCII digits, and
//! nothing else.

use vstd::prelude::*;

verus! {

/// Whether the character is one of `0` to `9`.
pub open spec fn is_digit(c: char) -> bool {
    48 <= c as int <= 57
}

/// The value of a digit.
pub open spec fn digit_value(c: char) -> int {
    c as int - 48
}

/// Whether every character is a digit.
pub open spec fn all_digits(text: Seq<char>) -> bool {
    forall|i: int| 0 <= i < text.len() ==> is_digit(#[trigger] text[i])
}

/// The number that a run of digits writes, most significant digit first.
pub open spec fn decimal_value(digits: Seq<char>) -> int
    decreases digits.len(),
{
    if digits.len() == 0 {
        0
    } else {
        10 * decimal_value(digits.drop_last()) + digit_value(digits.last())
    }
}

/// The number that unsigned digits write: at least one digit, only
/// digits.
pub open spec fn magnitude(digits: Seq<char>) -> Option<int> {
    if digits.len() > 0 && all_digits(digits) {
        Some(decimal_value(digits))
    } else {
        None
    }
}

/// The integer that a text writes. A leading `+` is accepted; a leading `-`
/// only where `signed` holds. Blanks, separators and an empty text are not.
pub open spec fn integer_of(text: Seq<char>, signed: bool) -> Option<int> {
    if text.len() > 0 && text[0] == '+' {
        magnitude(text.skip(1))
    } else if signed && text.len() > 0 && text[0] == '-' {
        match magnitude(text.skip(1)) {
            Some(m) => Some(-m),
            None => None,
        }
    } else {
        magnitude(text)
    }
}

/// The integer that a text writes, if it lies between `low` and `high`.
pub open spec fn integer_within(text: Seq<char>, signed: bool, low: int, high: int) -> Option<int> {
    match integer_of(text, signed) {
        Some(v) => if low <= v <= high {
            Some(v)
        } else {
            None
        },
        None => None,
    }
}

/// The `u8` that a text writes.
pub open spec fn u8_of(text: Seq<char>) -> Option<u8> {
    match integer_within(text, false, 0, u8::MAX as int) {
        Some(v) => Some(v as u8),
        None => None,
    }
}

/// The `u32` that a text writes.
pub open spec fn u32_of(text: Seq<char>) -> Option<u32> {
    match integer_within(text, false, 0, u32::MAX as int) {
        Some(v) => Some(v as u32),
        None => None,
    }
}

/// The `i32` that a text writes.
pub open spec fn i32_of(text: Seq<char>) -> Option<i32> {
    match integer_within(text, true, i32::MIN as int, i32::MAX as int) {
        Some(v) => Some(v as i32),
        None => None,
    }
}

/// A run of digits writes no less than any of its prefixes.
pub proof fn lemma_decimal_value_grows(digits: Seq<char>, k: int)
    requires
        all_digits(digits),
        0 <= k <= digits.len(),
    ensures
        0 <= decimal_value(digits.take(k)) <= decimal_value(digits),
    decreases digits.len() - k,
{
    if k == digits.len() {
        assert(digits.take(k) =~= digits);
        lemma_decimal_value_nonnegative(digits);
    } else {
        lemma_decimal_value_grows(digits, k + 1);
        let longer = digits.take(k + 1);
        assert(longer.drop_last() =~= digits.take(k));
        assert(is_digit(digits[k]));
        assert(longer.last() == digits[k]);
        lemma_decimal_value_nonnegative(digits.take(k));
    }
}

/// A run of digits writes a number that is not negative.
pub proof fn lemma_decimal_value_nonnegative(digits: Seq<char>)
    requires
        all_digits(digits),
    ensures
        0 <= decimal_value(digits),
    decreases digits.len(),
{
    if digits.len() > 0 {
        assert(is_digit(digits.last()));
        lemma_decimal_value_nonnegative(digits.drop_last());
    }
}

/// Without a minus sign a text writes no negative number.
pub proof fn lemma_unsigned_nonnegative(text: Seq<char>)
    ensures
        integer_of(text, false) matches Some(v) ==> v >= 0,
{
    if text.len() > 0 && text[0] == '+' {
        if magnitude(text.skip(1)) is Some {
            lemma_decimal_value_nonnegative(text.skip(1));
        }
    } else if magnitude(text) is Some {
        lemma_decimal_value_nonnegative(text);
    }
}

/// Reads the digits of `text` from position `from` to its end, as long as
/// the number stays within `limit`.
fn read_magnitude(text: &str, from: usize, limit: u64) -> (value: Option<u64>)
    requires
        from <= text@.len(),
        limit <= 0x1_0000_0000,
    ensures
        match magnitude(text@.skip(from as int)) {
            Some(m) => if m <= limit {
                value == Some(m as u64)
            } else {
                value is None
            },
            None => value is None,
        },
{
    let len = text.unicode_len();
    let ghost digits = text@.skip(from as int);
    if from == len {
        return None;
    }
    let mut acc: u64 = 0;
    let mut i: usize = from;
    assert(digits.take(0) =~= Seq::<char>::empty());
    while i < len
        invariant
            from <= i <= len,
            len == text@.len(),
            digits == text@.skip(from as int),
            limit <= 0x1_0000_0000,
            all_digits(digits.take(i - from)),
            acc == decimal_value(digits.take(i - from)),
            acc <= limit,
        decreases len - i,
    {
        let c = text.get_char(i);
        let code = c as u32;
        assert(digits[i - from] == c);
        if code < 48 || code > 57 {
            assert(!is_digit(digits[i - from]));
            return None;
        }
        let next: u64 = acc * 10 + (code - 48) as u64;
        proof {
            let longer = digits.take(i - from + 1);
            assert(longer.drop_last() =~= digits.take(i - from));
            assert(longer.last() == c);
            assert(next == decimal_value(longer));
            assert(all_digits(longer)) by {
                assert forall|j: int| 0 <= j < longer.len() implies is_digit(
                    #[trigger] longer[j],
                ) by {
                    if j < i - from {
                        assert(longer[j] == digits.take(i - from)[j]);
                    }
                }
            }
        }
        if next > limit {
            proof {
                if all_digits(digits) {
                    lemma_decimal_value_grows(digits, i - from + 1);
                }
            }
            return None;
        }
        acc = next;
        i = i + 1;
    }
    assert(digits.take(digits.len() as int) =~= digits);
    Some(acc)
}

/// Reads an unsigned decimal numeral of at most `limit`.
fn read_unsigned(text: &str, limit: u64) -> (value: Option<u64>)
    requires
        limit <= 0xFFFF_FFFF,
    ensures
        match integer_within(text@, false, 0, limit as int) {
            Some(v) => value == Some(v as u64),
            None => value is None,
        },
{
    let len = text.unicode_len();
    let from: usize = if len > 0 && text.get_char(0) == '+' {
        1
    } else {
        0
    };
    proof {
        if from == 0 {
            assert(text@.skip(0) =~= text@);
        }
        lemma_unsigned_nonnegative(text@);
    }
    read_magnitude(text, from, limit)
}

/// Reads a `u8` written in decimal.
pub fn parse_u8(text: &str) -> (value: Option<u8>)
    ensures
        value == u8_of(text@),
{
    match read_unsigned(text, 255) {
        Some(v) => Some(v as u8),
        None => None,
    }
}

/// Reads a `u32` written in decimal.
pub fn parse_u32(text: &str) -> (value: Option<u32>)
    ensures
        value == u32_of(text@),
{
    match read_unsigned(text, 0xFFFF_FFFF) {
        Some(v) => Some(v as u32),
        None => None,
    }
}

/// Reads an `i32` written in decimal.
pub fn parse_i32(text: &str) -> (value: Option<i32>)
    ensures
        value == i32_of(text@),
{
    let len = text.unicode_len();
    if len > 0 && text.get_char(0) == '-' {
        proof {
            if magnitude(text@.skip(1)) is Some {
                lemma_decimal_value_nonnegative(text@.skip(1));
            }
        }
        match read_magnitude(text, 1, 0x8000_0000) {
            Some(m) => {
                if m == 0x8000_0000 {
                    Some(i32::MIN)
                } else {
                    Some(-(m as i32))
                }
            },
            None => None,
        }
    } else {
        proof {
            lemma_unsigned_nonnegative(text@);
        }
        match read_unsigned(text, 0x7FFF_FFFF) {
            Some(v) => Some(v as i32),
            None => None,
        }
    }
}

} // verus!
