//! Whole numbers as decimal texts.
use vstd::prelude::*;

use crate::text::chars::to_chars;

verus! {

/// The decimal digit with the given value.
pub open spec fn digit_char(value: nat) -> char {
    (0x30 + value) as char
}

/// The decimal text of a natural number.
pub open spec fn decimal(n: nat) -> Seq<char>
    decreases n,
{
    if n < 10 {
        seq![digit_char(n)]
    } else {
        decimal(n / 10).push(digit_char(n % 10))
    }
}

/// The decimal text of an integer.
pub open spec fn signed_decimal(n: int) -> Seq<char> {
    if n < 0 {
        seq!['-'] + decimal((-n) as nat)
    } else {
        decimal(n as nat)
    }
}

/// Why a text is no number of the type asked for.
#[derive(Clone, Copy, Debug, PartialEq, Eq, Structural)]
pub enum NumberError {
    Empty,
    InvalidDigit,
    TooLarge,
}

impl NumberError {
    pub open spec fn text(self) -> Seq<char> {
        match self {
            NumberError::Empty => "cannot parse integer from empty string"@,
            NumberError::InvalidDigit => "invalid digit found in string"@,
            NumberError::TooLarge => "number too large to fit in target type"@,
        }
    }

    pub fn describe(self) -> (out: &'static str)
        ensures
            out@ == self.text(),
    {
        match self {
            NumberError::Empty => "cannot parse integer from empty string",
            NumberError::InvalidDigit => "invalid digit found in string",
            NumberError::TooLarge => "number too large to fit in target type",
        }
    }
}

pub open spec fn is_digit(c: char) -> bool {
    0x30 <= c as u32 <= 0x39
}

pub open spec fn digit_value(c: char) -> nat {
    (c as u32 - 0x30) as nat
}

/// Reads the digits of a text from the left, behind digits already worth
/// `value`. The first character at which the number stops being one decides.
pub open spec fn read_digits(text: Seq<char>, value: nat, max: nat) -> Result<nat, NumberError>
    decreases text.len(),
{
    if text.len() == 0 {
        Ok(value)
    } else if !is_digit(text.first()) {
        Err(NumberError::InvalidDigit)
    } else if value * 10 + digit_value(text.first()) > max {
        Err(NumberError::TooLarge)
    } else {
        read_digits(text.drop_first(), value * 10 + digit_value(text.first()), max)
    }
}

/// The number that a text stands for, if it is at most `max`: decimal digits,
/// with a plus sign before them or without.
pub open spec fn read_number(text: Seq<char>, max: nat) -> Result<nat, NumberError> {
    if text.len() == 0 {
        Err(NumberError::Empty)
    } else if text.first() == '+' && text.len() > 1 {
        read_digits(text.drop_first(), 0, max)
    } else {
        read_digits(text, 0, max)
    }
}

/// The decimal text of an unsigned number.
pub fn decimal_text(n: u64) -> (out: String)
    ensures
        out@ == decimal(n as nat),
    decreases n,
{
    let digit: char = digit_for(n % 10);
    if n < 10 {
        let mut out = String::new();
        out.push(digit);
        assert(out@ =~= seq![digit_char(n as nat)]);
        out
    } else {
        let mut out = decimal_text(n / 10);
        out.push(digit);
        out
    }
}

fn digit_for(value: u64) -> (out: char)
    requires
        value < 10,
    ensures
        out == digit_char(value as nat),
{
    let code: u8 = 0x30 + value as u8;
    code as char
}

/// The decimal text of an integer.
pub fn signed_decimal_text(n: i64) -> (out: String)
    ensures
        out@ == signed_decimal(n as int),
{
    if n < 0 {
        let size: u64 = if n == i64::MIN {
            0x8000_0000_0000_0000
        } else {
            (-n) as u64
        };
        let mut out = String::new();
        out.push('-');
        let digits = decimal_text(size);
        out.append(digits.as_str());
        assert(out@ =~= signed_decimal(n as int));
        out
    } else {
        decimal_text(n as u64)
    }
}

/// The number that a text stands for, if it is at most `max`.
pub fn parse_number(text: &str, max: u64) -> (out: Result<u64, NumberError>)
    ensures
        match out {
            Ok(n) => read_number(text@, max as nat) == Ok::<nat, NumberError>(n as nat) && n <= max,
            Err(error) => read_number(text@, max as nat) == Err::<nat, NumberError>(error),
        },
{
    let chars = to_chars(text);
    if chars.len() == 0 {
        return Err(NumberError::Empty);
    }
    let mut i: usize = 0;
    if chars[0] == '+' && chars.len() > 1 {
        i = 1;
    }
    let mut value: u64 = 0;
    assert(chars@.skip(0) =~= chars@);
    assert(chars@.skip(1) =~= chars@.drop_first());
    while i < chars.len()
        invariant
            i <= chars@.len(),
            chars@ == text@,
            value <= max,
            read_number(text@, max as nat) == read_digits(
                chars@.skip(i as int),
                value as nat,
                max as nat,
            ),
        decreases chars@.len() - i,
    {
        let code: u32 = chars[i] as u32;
        assert(chars@.skip(i as int).first() == chars@[i as int]);
        assert(chars@.skip(i as int).drop_first() =~= chars@.skip(i + 1));
        if code < 0x30 || code > 0x39 {
            return Err(NumberError::InvalidDigit);
        }
        let digit: u64 = (code - 0x30) as u64;
        if value > max / 10 || digit > max - value * 10 {
            return Err(NumberError::TooLarge);
        }
        value = value * 10 + digit;
        i += 1;
    }
    Ok(value)
}

} // verus!
