//! Numerals: the text of a 16-bit count.
//!
//! A numeral is an optional plus sign followed by one decimal digit or more,
//! and nothing else: no blank, no minus sign, no separator. Zeros in front do
//! not count. A numeral names a count only where its number fits in 16 bits.

use vstd::prelude::*;

verus! {

/// The byte of the digit zero.
pub const DIGIT_ZERO: u8 = 0x30;

/// The byte of the digit nine.
pub const DIGIT_NINE: u8 = 0x39;

/// The byte of the plus sign.
pub const PLUS_SIGN: u8 = 0x2b;

/// Whether `byte` is one of the ten decimal digits.
pub open spec fn is_digit(byte: u8) -> bool {
    DIGIT_ZERO <= byte <= DIGIT_NINE
}

/// What a digit counts: 0 to 9, and 0 for a byte that is no digit.
pub open spec fn digit_value(byte: u8) -> nat {
    if is_digit(byte) {
        (byte - DIGIT_ZERO) as nat
    } else {
        0
    }
}

/// Whether every byte of `text` is a decimal digit.
pub open spec fn all_digits(text: Seq<u8>) -> bool {
    forall|i: int| 0 <= i < text.len() ==> is_digit(#[trigger] text[i])
}

/// The number that a run of digits writes, the most significant digit first.
pub open spec fn digits_value(digits: Seq<u8>) -> nat
    decreases digits.len(),
{
    if digits.len() == 0 {
        0
    } else {
        10 * digits_value(digits.drop_last()) + digit_value(digits.last())
    }
}

/// Whether `text` starts with a plus sign.
pub open spec fn has_sign(text: Seq<u8>) -> bool {
    text.len() > 0 && text[0] == PLUS_SIGN
}

/// What is left of `text` once a leading plus sign is taken away.
pub open spec fn unsigned_part(text: Seq<u8>) -> Seq<u8> {
    if has_sign(text) {
        text.subrange(1, text.len() as int)
    } else {
        text
    }
}

/// Whether `text` is a numeral.
pub open spec fn is_numeral(text: Seq<u8>) -> bool {
    unsigned_part(text).len() > 0 && all_digits(unsigned_part(text))
}

/// The count that `text` names: the number of a numeral that fits in 16
/// bits, and nothing for any other text.
pub open spec fn parsed_u16(text: Seq<u8>) -> Option<u16> {
    if is_numeral(text) && digits_value(unsigned_part(text)) <= u16::MAX {
        Some(digits_value(unsigned_part(text)) as u16)
    } else {
        None
    }
}

/// A run of digits never writes a smaller number than the digits it starts
/// with.
pub proof fn lemma_prefix_value_is_lower(digits: Seq<u8>, n: int)
    requires
        0 <= n <= digits.len(),
    ensures
        digits_value(digits.subrange(0, n)) <= digits_value(digits),
    decreases digits.len() - n,
{
    if n == digits.len() {
        assert(digits.subrange(0, n) =~= digits);
    } else {
        lemma_prefix_value_is_lower(digits, n + 1);
        assert(digits.subrange(0, n + 1).drop_last() =~= digits.subrange(0, n));
    }
}

/// Reads the count that `text` names.
///
/// Returns the count exactly where `text` is a numeral whose number fits in
/// 16 bits; empty text, a sign alone, any byte that is neither a digit nor a
/// leading plus sign, and a number above 65535 all give `None`.
pub fn parse_u16(text: &[u8]) -> (count: Option<u16>)
    ensures
        count == parsed_u16(text@),
{
    let start: usize = if text.len() > 0 && text[0] == PLUS_SIGN {
        1
    } else {
        0
    };
    let ghost digits = unsigned_part(text@);
    assert(digits =~= text@.subrange(start as int, text@.len() as int));
    if start == text.len() {
        return None;
    }
    let mut value: u32 = 0;
    let mut at: usize = start;
    while at < text.len()
        invariant
            start <= at <= text.len(),
            digits == unsigned_part(text@),
            digits == text@.subrange(start as int, text@.len() as int),
            all_digits(digits.subrange(0, at - start)),
            value == digits_value(digits.subrange(0, at - start)),
            value <= u16::MAX,
        decreases text.len() - at,
    {
        let byte: u8 = text[at];
        assert(byte == digits[at - start]);
        if byte < DIGIT_ZERO || byte > DIGIT_NINE {
            return None;
        }
        let next: u32 = 10 * value + (byte - DIGIT_ZERO) as u32;
        proof {
            let read = digits.subrange(0, at - start + 1);
            assert(read.drop_last() =~= digits.subrange(0, at - start));
            assert(read.last() == byte);
            assert(next == digits_value(read));
            assert forall|i: int| 0 <= i < read.len() implies is_digit(#[trigger] read[i]) by {
                if i < at - start {
                    assert(read[i] == digits.subrange(0, at - start)[i]);
                }
            }
        }
        if next > 65535 {
            proof {
                lemma_prefix_value_is_lower(digits, at - start + 1);
            }
            return None;
        }
        value = next;
        at = at + 1;
    }
    assert(digits.subrange(0, at - start) =~= digits);
    Some(value as u16)
}

} // verus!
