//! Brightness as the operator gives it (a percentage written in decimal) and
//! as the bridge takes it (0 to 255).

use vstd::prelude::*;
use vstd::string::*;
use crate::text::{
    all_digits, decimal, digit_value, digits_value, is_digit, lemma_decimal_round_trip,
};

verus! {

/// The largest percentage an operator may ask for.
pub const MAX_PERCENT: u8 = 100;

/// Why a text is not a brightness.
#[derive(Clone, Copy, Debug, PartialEq, Eq, Structural)]
pub enum BrightnessError {
    /// The text is empty.
    Empty,
    /// The text holds something other than decimal digits after an optional
    /// leading plus sign, or nothing but the sign.
    InvalidDigit,
    /// The digits stand for a number above 255.
    TooLarge,
    /// The number is above 100.
    OutOfRange,
}

/// What the line for a text that is no brightness says of it.
pub open spec fn spec_brightness_reason(error: BrightnessError) -> Seq<char> {
    match error {
        BrightnessError::Empty => "cannot parse integer from empty string"@,
        BrightnessError::InvalidDigit => "invalid digit found in string"@,
        BrightnessError::TooLarge => "number too large to fit in target type"@,
        BrightnessError::OutOfRange => "Brightness value not between 0 and 100"@,
    }
}

/// The line that tells the operator that a text is no brightness.
pub open spec fn spec_brightness_message(error: BrightnessError) -> Seq<char> {
    "Unable to set brightness: "@ + spec_brightness_reason(error)
}

impl BrightnessError {
    /// What is wrong with the text, in words.
    pub fn reason(&self) -> (reason: &'static str)
        ensures
            reason@ == spec_brightness_reason(*self),
    {
        match self {
            BrightnessError::Empty => "cannot parse integer from empty string",
            BrightnessError::InvalidDigit => "invalid digit found in string",
            BrightnessError::TooLarge => "number too large to fit in target type",
            BrightnessError::OutOfRange => "Brightness value not between 0 and 100",
        }
    }

    /// The line that tells the operator that the text is no brightness.
    pub fn message(&self) -> (line: String)
        ensures
            line@ == spec_brightness_message(*self),
    {
        let mut line = String::from_str("Unable to set brightness: ");
        line.append(self.reason());
        line
    }
}

/// The text without its leading plus sign, if it has one.
pub open spec fn unsigned_part(text: Seq<char>) -> Seq<char> {
    if text.len() > 0 && text[0] == '+' {
        text.skip(1)
    } else {
        text
    }
}

/// How many characters at the start of `digits` are decimal digits.
pub open spec fn digit_prefix_len(digits: Seq<char>) -> nat
    decreases digits.len(),
{
    if digits.len() == 0 || !is_digit(digits[0]) {
        0
    } else {
        1 + digit_prefix_len(digits.skip(1))
    }
}

/// What a text means as a brightness percentage.
///
/// A percentage is written as decimal digits, with an optional plus sign in
/// front. A number that does not fit in eight bits is reported as too large
/// as soon as its leading digits exceed 255, whatever follows them.
pub open spec fn spec_brightness(text: Seq<char>) -> Result<u8, BrightnessError> {
    let digits = unsigned_part(text);
    let leading = digits.take(digit_prefix_len(digits) as int);
    if text.len() == 0 {
        Err(BrightnessError::Empty)
    } else if digits.len() == 0 {
        Err(BrightnessError::InvalidDigit)
    } else if digits_value(leading) > 255 {
        Err(BrightnessError::TooLarge)
    } else if leading.len() < digits.len() {
        Err(BrightnessError::InvalidDigit)
    } else if digits_value(digits) > MAX_PERCENT {
        Err(BrightnessError::OutOfRange)
    } else {
        Ok(digits_value(digits) as u8)
    }
}

/// Whether `text` is a whole number from 0 to 100 in decimal, with an
/// optional plus sign in front.
pub open spec fn is_percentage(text: Seq<char>) -> bool {
    let digits = unsigned_part(text);
    digits.len() > 0 && all_digits(digits) && digits_value(digits) <= MAX_PERCENT
}

/// The leading digits of a text are a prefix of it that holds only digits
/// and stops at the first character that is none.
pub proof fn lemma_digit_prefix(digits: Seq<char>)
    ensures
        digit_prefix_len(digits) <= digits.len(),
        all_digits(digits.take(digit_prefix_len(digits) as int)),
        digit_prefix_len(digits) < digits.len() ==> !is_digit(
            digits[digit_prefix_len(digits) as int],
        ),
    decreases digits.len(),
{
    if digits.len() == 0 || !is_digit(digits[0]) {
    } else {
        let rest = digits.skip(1);
        lemma_digit_prefix(rest);
        let n = digit_prefix_len(digits) as int;
        assert forall|i: int| 0 <= i < n implies is_digit(#[trigger] digits.take(n)[i]) by {
            if i > 0 {
                assert(digits.take(n)[i] == rest.take(n - 1)[i - 1]);
            }
        }
        if n < digits.len() {
            assert(digits[n] == rest[n - 1]);
        }
    }
}

/// A text whose first `n` characters are digits, and which ends there or goes
/// on with something else, has exactly `n` leading digits.
pub proof fn lemma_digit_prefix_is(digits: Seq<char>, n: int)
    requires
        0 <= n <= digits.len(),
        all_digits(digits.take(n)),
        n < digits.len() ==> !is_digit(digits[n]),
    ensures
        digit_prefix_len(digits) == n,
    decreases digits.len(),
{
    if n == 0 {
    } else {
        assert(digits.take(n)[0] == digits[0]);
        let rest = digits.skip(1);
        assert forall|i: int| 0 <= i < n - 1 implies is_digit(#[trigger] rest.take(n - 1)[i]) by {
            assert(rest.take(n - 1)[i] == digits.take(n)[i + 1]);
        }
        if n - 1 < rest.len() {
            assert(rest[n - 1] == digits[n]);
        }
        lemma_digit_prefix_is(rest, n - 1);
    }
}

/// Reading more digits never gives a smaller number.
pub proof fn lemma_digits_value_grows(digits: Seq<char>, shorter: int)
    requires
        all_digits(digits),
        0 <= shorter <= digits.len(),
    ensures
        digits_value(digits.take(shorter)) <= digits_value(digits),
    decreases digits.len(),
{
    if shorter == digits.len() {
        assert(digits.take(shorter) =~= digits);
    } else {
        let front = digits.drop_last();
        assert forall|i: int| 0 <= i < front.len() implies is_digit(#[trigger] front[i]) by {
            assert(front[i] == digits[i]);
        }
        lemma_digits_value_grows(front, shorter);
        assert(front.take(shorter) =~= digits.take(shorter));
        assert(is_digit(digits.last()));
    }
}

/// A text is accepted exactly when it is a percentage, and then as the number
/// it stands for.
pub proof fn lemma_brightness_accepts(text: Seq<char>)
    ensures
        spec_brightness(text) is Ok <==> is_percentage(text),
        spec_brightness(text) is Ok ==> spec_brightness(text)->Ok_0 == digits_value(
            unsigned_part(text),
        ),
{
    let digits = unsigned_part(text);
    let n = digit_prefix_len(digits) as int;
    lemma_digit_prefix(digits);
    if n == digits.len() {
        assert(digits.take(n) =~= digits);
    } else {
        assert(!is_digit(digits[n]));
    }
    if text.len() == 0 {
        assert(digits.len() == 0);
    }
}

/// A percentage written in decimal is read as that percentage, and a larger
/// number written in decimal is turned down.
pub proof fn lemma_written_number_is_read(n: nat)
    ensures
        n <= MAX_PERCENT ==> spec_brightness(decimal(n)) == Ok::<u8, BrightnessError>(n as u8),
        MAX_PERCENT < n <= 255 ==> spec_brightness(decimal(n)) == Err::<u8, BrightnessError>(
            BrightnessError::OutOfRange,
        ),
        n > 255 ==> spec_brightness(decimal(n)) == Err::<u8, BrightnessError>(
            BrightnessError::TooLarge,
        ),
{
    let text = decimal(n);
    lemma_decimal_round_trip(n);
    assert(is_digit(text[0]));
    assert(unsigned_part(text) == text);
    assert(text.take(text.len() as int) =~= text);
    lemma_digit_prefix_is(text, text.len() as int);
}

/// Reads a brightness percentage from what the operator typed.
#[verifier::loop_isolation(false)]
pub fn validate_bri_value(value: &str) -> (result: Result<u8, BrightnessError>)
    ensures
        result == spec_brightness(value@),
        result is Ok <==> is_percentage(value@),
{
    proof {
        lemma_brightness_accepts(value@);
    }
    let len = value.unicode_len();
    if len == 0 {
        return Err(BrightnessError::Empty);
    }
    let start: usize = if value.get_char(0) == '+' {
        1
    } else {
        0
    };
    let ghost digits = unsigned_part(value@);
    assert(digits =~= value@.skip(start as int));
    if start == len {
        return Err(BrightnessError::InvalidDigit);
    }
    let count: usize = len - start;
    let mut total: u16 = 0;
    let mut i: usize = 0;
    while i < count
        invariant
            start + count == len,
            len == value@.len(),
            digits == value@.skip(start as int),
            digits.len() == count,
            i <= count,
            all_digits(digits.take(i as int)),
            total == digits_value(digits.take(i as int)),
            total <= 255,
        decreases count - i,
    {
        let c = value.get_char(start + i);
        assert(c == digits[i as int]);
        let ghost longer = digits.take(i + 1);
        proof {
            assert(longer.drop_last() =~= digits.take(i as int));
            assert(longer.last() == c);
        }
        if !(c >= '0' && c <= '9') {
            proof {
                lemma_digit_prefix_is(digits, i as int);
            }
            return Err(BrightnessError::InvalidDigit);
        }
        let digit: u16 = (c as u32 - '0' as u32) as u16;
        assert(digit == digit_value(c));
        assert forall|k: int| 0 <= k < longer.len() implies is_digit(#[trigger] longer[k]) by {
            if k < i {
                assert(longer[k] == digits.take(i as int)[k]);
            }
        }
        let next: u16 = total * 10 + digit;
        assert(next == digits_value(longer));
        if next > 255 {
            proof {
                lemma_digit_prefix(digits);
                let n = digit_prefix_len(digits) as int;
                let leading = digits.take(n);
                if n <= i {
                    assert(!is_digit(digits[n]));
                    assert(digits[n] == longer[n]);
                }
                assert(leading.take(i + 1) =~= longer);
                lemma_digits_value_grows(leading, i + 1);
            }
            return Err(BrightnessError::TooLarge);
        }
        total = next;
        i += 1;
    }
    proof {
        assert(digits.take(count as int) =~= digits);
        lemma_digit_prefix_is(digits, count as int);
    }
    if total > MAX_PERCENT as u16 {
        Err(BrightnessError::OutOfRange)
    } else {
        Ok(total as u8)
    }
}

/// The bridge's own brightness for a percentage: the percentage rescaled to
/// 0..=255 and rounded down.
pub open spec fn spec_bridge_brightness(percent: int) -> int {
    percent * 255 / 100
}

/// Rescales a percentage to the bridge's brightness scale, rounding down.
pub fn bridge_brightness(percent: u8) -> (level: u16)
    ensures
        level == spec_bridge_brightness(percent as int),
        percent <= MAX_PERCENT ==> level <= 255,
{
    let wide: u16 = percent as u16;
    wide * 255 / 100
}

} // verus!
