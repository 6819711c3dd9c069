//! Unsigned decimal integers as they are written in configuration values.

use vstd::prelude::*;
use vstd::string::*;

verus! {

/// Whether `byte` is one of the ASCII digits `0` to `9`.
pub open spec fn is_digit(byte: u8) -> bool {
    0x30 <= byte <= 0x39
}

/// Whether `text` consists of ASCII digits only.
pub open spec fn all_digits(text: Seq<u8>) -> bool {
    forall|i: int| 0 <= i < text.len() ==> is_digit(#[trigger] text[i])
}

/// The number that a sequence of ASCII digits denotes in base ten.
pub open spec fn digits_value(digits: Seq<u8>) -> nat
    decreases digits.len(),
{
    if digits.len() == 0 {
        0
    } else {
        digits_value(digits.drop_last()) * 10 + (digits.last() - 0x30) as nat
    }
}

/// `text` without a leading plus sign.
pub open spec fn unsigned(text: Seq<u8>) -> Seq<u8> {
    if text.len() > 0 && text[0] == 0x2b {
        text.skip(1)
    } else {
        text
    }
}

/// The number that `text` denotes: an optional plus sign followed by one or
/// more ASCII digits and nothing else. Anything else (the empty text, a
/// minus sign, blanks, letters, a lone sign) denotes no number.
pub open spec fn decimal(text: Seq<u8>) -> Option<nat> {
    let digits = unsigned(text);
    if digits.len() > 0 && all_digits(digits) {
        Some(digits_value(digits))
    } else {
        None
    }
}

/// The number that `text` denotes, if it denotes one that is at most `max`.
pub open spec fn decimal_up_to(text: Seq<u8>, max: nat) -> Option<nat> {
    match decimal(text) {
        Some(value) => if value <= max {
            Some(value)
        } else {
            None
        },
        None => None,
    }
}

/// What `text` parses to as a `u64`.
pub open spec fn u64_of(text: Seq<u8>) -> Option<u64> {
    match decimal_up_to(text, u64::MAX as nat) {
        Some(value) => Some(value as u64),
        None => None,
    }
}

/// What `text` parses to as a `usize`.
pub open spec fn usize_of(text: Seq<u8>) -> Option<usize> {
    match decimal_up_to(text, usize::MAX as nat) {
        Some(value) => Some(value as usize),
        None => None,
    }
}

proof fn lemma_prefix_value(digits: Seq<u8>, k: int)
    requires
        all_digits(digits),
        0 <= k <= digits.len(),
    ensures
        digits_value(digits.take(k)) <= digits_value(digits),
    decreases digits.len(),
{
    if k == digits.len() {
        assert(digits.take(k) == digits);
    } else {
        assert(digits.take(k) == digits.drop_last().take(k));
        assert(is_digit(digits.last()));
        lemma_prefix_value(digits.drop_last(), k);
    }
}

/// Parses an unsigned decimal integer that fits in 64 bits.
///
/// Returns the number exactly when `text` is an optional plus sign followed
/// by one or more ASCII digits whose value is at most `u64::MAX`, and `None`
/// for every other text.
pub fn parse_u64(text: &str) -> (value: Option<u64>)
    ensures
        value == u64_of(text.spec_bytes()),
{
    let bytes = text.as_bytes();
    let n = bytes.len();
    let start: usize = if n > 0 && bytes[0] == 0x2b {
        1
    } else {
        0
    };
    if start == n {
        return None;
    }
    let ghost digits = unsigned(bytes@);
    assert(digits == bytes@.skip(start as int));
    let mut acc: u64 = 0;
    let mut i: usize = start;
    while i < n
        invariant
            start <= i <= n,
            n == bytes@.len(),
            bytes@ == text.spec_bytes(),
            digits == unsigned(bytes@),
            digits == bytes@.skip(start as int),
            digits.len() == n - start,
            all_digits(digits.take(i - start)),
            acc == digits_value(digits.take(i - start)),
        decreases n - i,
    {
        let byte = bytes[i];
        let ghost k = i - start;
        assert(digits[k] == byte);
        assert(digits.take(k + 1).drop_last() == digits.take(k));
        assert(digits.take(k + 1).last() == byte);
        if byte < 0x30 || byte > 0x39 {
            assert(!is_digit(digits[k]));
            return None;
        }
        let digit = (byte - 0x30) as u64;
        let next = match acc.checked_mul(10) {
            Some(tens) => tens.checked_add(digit),
            None => None,
        };
        match next {
            Some(sum) => {
                acc = sum;
            },
            None => {
                assert(digits_value(digits.take(k + 1)) > u64::MAX);
                proof {
                    if all_digits(digits) {
                        lemma_prefix_value(digits, k + 1);
                    }
                }
                return None;
            },
        }
        i = i + 1;
    }
    assert(digits.take(i - start) == digits);
    Some(acc)
}

/// Parses an unsigned decimal integer that fits in a `usize`.
///
/// Returns the number exactly when `text` is an optional plus sign followed
/// by one or more ASCII digits whose value is at most `usize::MAX`, and
/// `None` for every other text.
pub fn parse_usize(text: &str) -> (value: Option<usize>)
    ensures
        value == usize_of(text.spec_bytes()),
{
    match parse_u64(text) {
        Some(wide) => if wide <= usize::MAX as u64 {
            Some(wide as usize)
        } else {
            None
        },
        None => None,
    }
}

} // verus!
