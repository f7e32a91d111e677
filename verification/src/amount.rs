//! Bet amounts: reading one from text, and testing it against the bit width
//! of the range proof that will hide it.

use vstd::prelude::*;
use vstd::arithmetic::div_mod::{lemma_basic_div, lemma_div_non_zero};
use vstd::arithmetic::power2::{lemma2_to64, lemma_pow2_pos, pow2};
use vstd::bits::lemma_u64_shr_is_div;
use vstd::string::{is_ascii, is_ascii_spec_bytes, StringSliceAdditionalSpecFns};
use crate::error::BetError;

verus! {

/// Bit width of the range in which a bet amount must lie.
pub const RANGE_BIT_SIZE: usize = 32;

/// The largest bit width any amount can need: amounts are 64-bit integers.
pub const MAX_BIT_WIDTH: usize = 64;

/// The largest amount that can be bet: the largest of `RANGE_BIT_SIZE` bits.
pub const MAX_BET_AMOUNT: u64 = 0xffff_ffff;

/// The byte of the plus sign in ASCII.
const PLUS_SIGN: u8 = 0x2b;

/// The byte of the digit `0` in ASCII.
const DIGIT_ZERO: u8 = 0x30;

/// The byte of the digit `9` in ASCII.
const DIGIT_NINE: u8 = 0x39;

/// An amount fits a bit width when it is below two to that power.
pub open spec fn amount_fits(amount: u64, bit_width: usize) -> bool {
    bit_width >= MAX_BIT_WIDTH || (amount as nat) < pow2(bit_width as nat)
}

/// Whether `c` is one of the digits `0` to `9`.
pub open spec fn is_decimal_digit(c: char) -> bool {
    '0' <= c <= '9'
}

/// The number a decimal digit stands for.
pub open spec fn digit_value(c: char) -> nat {
    (c as u32 - '0' as u32) as nat
}

/// The number written by a string of decimal digits, most significant
/// digit first. The empty string writes zero.
pub open spec fn decimal_value(digits: Seq<char>) -> nat
    decreases digits.len(),
{
    if digits.len() == 0 {
        0
    } else {
        10 * decimal_value(digits.drop_last()) + digit_value(digits.last())
    }
}

/// The text without a leading plus sign, if it has one.
pub open spec fn unsigned_part(text: Seq<char>) -> Seq<char> {
    if text.len() > 0 && text[0] == '+' {
        text.skip(1)
    } else {
        text
    }
}

/// Whether the text is an unsigned decimal number: an optional plus sign,
/// then at least one digit, and nothing else.
pub open spec fn is_decimal_number(text: Seq<char>) -> bool {
    let digits = unsigned_part(text);
    digits.len() > 0 && forall|i: int| 0 <= i < digits.len() ==> is_decimal_digit(#[trigger] digits[i])
}

/// The number that a text writes, if it is an unsigned decimal number no
/// greater than `limit`.
pub open spec fn decimal_number(text: Seq<char>, limit: u64) -> Option<u64> {
    if is_decimal_number(text) && decimal_value(unsigned_part(text)) <= limit {
        Some(decimal_value(unsigned_part(text)) as u64)
    } else {
        None
    }
}

/// The amount that a text asks to bet, if it is an unsigned decimal number
/// that fits the bit width of a bet.
pub open spec fn bet_amount(text: Seq<char>) -> Option<u64> {
    decimal_number(text, MAX_BET_AMOUNT)
}

/// The amounts that fit the bit width of a bet are those up to the largest
/// bet.
pub proof fn lemma_bet_amounts_fit(amount: u64)
    ensures
        amount_fits(amount, RANGE_BIT_SIZE) <==> amount <= MAX_BET_AMOUNT,
{
    lemma2_to64();
}

/// Reading more digits never makes the number smaller.
pub proof fn lemma_decimal_value_grows(digits: Seq<char>, k: int)
    requires
        0 <= k <= digits.len(),
    ensures
        decimal_value(digits.take(k)) <= decimal_value(digits),
    decreases digits.len() - k,
{
    if k == digits.len() {
        assert(digits.take(k) =~= digits);
    } else {
        lemma_decimal_value_grows(digits, k + 1);
        assert(digits.take(k + 1).drop_last() =~= digits.take(k));
    }
}

/// A text with a character outside ASCII is no decimal number.
proof fn lemma_decimal_number_is_ascii(text: &str)
    requires
        is_decimal_number(text@),
    ensures
        is_ascii(text),
{
    let digits = unsigned_part(text@);
    assert forall|i: int| 0 <= i < text@.len() implies '\0' <= #[trigger] text@[i] <= '\u{7f}' by {
        if text@[0] == '+' {
            if i > 0 {
                assert(is_decimal_digit(digits[i - 1]));
            }
        } else {
            assert(is_decimal_digit(digits[i]));
        }
    }
}

/// Tests an amount against a bit width.
pub fn fits_bit_width(amount: u64, bit_width: usize) -> (fits: bool)
    ensures
        fits == amount_fits(amount, bit_width),
{
    if bit_width >= MAX_BIT_WIDTH {
        return true;
    }
    let shift: u64 = bit_width as u64;
    let high: u64 = amount >> shift;
    proof {
        lemma_u64_shr_is_div(amount, shift);
        lemma_pow2_pos(shift as nat);
        if (amount as nat) < pow2(shift as nat) {
            lemma_basic_div(amount as int, pow2(shift as nat) as int);
        } else {
            lemma_div_non_zero(amount as int, pow2(shift as nat) as int);
        }
    }
    high == 0
}

/// Reads an unsigned decimal number no greater than `limit`.
///
/// The text may start with a plus sign. Anything else that is not a digit,
/// whitespace included, makes the text no number.
pub fn parse_decimal(text: &str, limit: u64) -> (value: Option<u64>)
    ensures
        value == decimal_number(text@, limit),
{
    if !text.is_ascii() {
        proof {
            if is_decimal_number(text@) {
                lemma_decimal_number_is_ascii(text);
            }
        }
        return None;
    }
    let bytes = text.as_bytes();
    proof {
        is_ascii_spec_bytes(text);
    }
    let len: usize = bytes.len();
    let start: usize = if len > 0 && bytes[0] == PLUS_SIGN { 1 } else { 0 };
    let ghost digits = unsigned_part(text@);
    assert(digits.len() == len - start);
    assert(forall|j: int| 0 <= j < digits.len() ==> digits[j] == text@[j + start]);
    if start == len {
        return None;
    }
    let mut acc: u64 = 0;
    let mut i: usize = start;
    while i < len
        invariant
            start <= i <= len,
            len == bytes@.len(),
            len == text@.len(),
            is_ascii(text),
            digits == unsigned_part(text@),
            digits.len() == len - start,
            forall|j: int| 0 <= j < len ==> bytes@[j] == text@[j] as u8,
            forall|j: int| 0 <= j < digits.len() ==> digits[j] == text@[j + start],
            forall|j: int| 0 <= j < i - start ==> is_decimal_digit(#[trigger] digits[j]),
            acc == decimal_value(digits.take(i - start)),
            acc <= limit,
        decreases len - i,
    {
        let byte: u8 = bytes[i];
        let ghost c = digits[i - start];
        if byte < DIGIT_ZERO || byte > DIGIT_NINE {
            assert(!is_decimal_digit(c));
            return None;
        }
        let next: u128 = (acc as u128) * 10 + ((byte - DIGIT_ZERO) as u128);
        proof {
            assert(digits.take(i - start + 1).drop_last() =~= digits.take(i - start));
            assert(digits.take(i - start + 1).last() == c);
            assert(digit_value(c) == byte - DIGIT_ZERO);
            assert(next == decimal_value(digits.take(i - start + 1)));
        }
        if next > limit as u128 {
            proof {
                lemma_decimal_value_grows(digits, i - start + 1);
            }
            return None;
        }
        acc = next as u64;
        i = i + 1;
    }
    assert(digits.take(i - start) =~= digits);
    Some(acc)
}

/// Reads the amount of a bet from text.
///
/// The amount must be an unsigned decimal number below two to the power of
/// the bet's bit width.
pub fn parse_bet_amount(amount_str: &str) -> (amount: Result<u64, BetError>)
    ensures
        amount == match bet_amount(amount_str@) {
            Some(value) => Ok::<u64, BetError>(value),
            None => Err::<u64, BetError>(BetError::InvalidAmount),
        },
        amount matches Ok(value) ==> amount_fits(value, RANGE_BIT_SIZE),
{
    match parse_decimal(amount_str, MAX_BET_AMOUNT) {
        Some(value) => {
            proof {
                lemma_bet_amounts_fit(value);
            }
            Ok(value)
        },
        None => Err(BetError::InvalidAmount),
    }
}

} // verus!
