//! Numbers as text: upper-case hexadecimal and decimal digits.

use vstd::prelude::*;
use vstd::string::StringExecFns;

verus! {

/// The character of a digit below 16: `0` to `9`, then `A` to `F`.
pub open spec fn digit_char(digit: int) -> char {
    if digit == 0 {
        '0'
    } else if digit == 1 {
        '1'
    } else if digit == 2 {
        '2'
    } else if digit == 3 {
        '3'
    } else if digit == 4 {
        '4'
    } else if digit == 5 {
        '5'
    } else if digit == 6 {
        '6'
    } else if digit == 7 {
        '7'
    } else if digit == 8 {
        '8'
    } else if digit == 9 {
        '9'
    } else if digit == 10 {
        'A'
    } else if digit == 11 {
        'B'
    } else if digit == 12 {
        'C'
    } else if digit == 13 {
        'D'
    } else if digit == 14 {
        'E'
    } else {
        'F'
    }
}

/// A byte as two hexadecimal digits.
pub open spec fn hex_byte_text(value: u8) -> Seq<char> {
    seq![digit_char(value as int / 16), digit_char(value as int % 16)]
}

/// A word as four hexadecimal digits.
pub open spec fn hex_word_text(value: u16) -> Seq<char> {
    hex_byte_text((value / 256) as u8) + hex_byte_text((value % 256) as u8)
}

/// A number below 1000 as three decimal digits, with leading zeros.
pub open spec fn decimal3_text(value: int) -> Seq<char> {
    seq![digit_char(value / 100), digit_char(value / 10 % 10), digit_char(value % 10)]
}

/// A number below 100000 as decimal digits, four at least: with leading zeros
/// below 1000, and with five digits from 10000 on.
pub open spec fn decimal4_text(value: int) -> Seq<char> {
    if value >= 10000 {
        seq![digit_char(value / 10000), digit_char(value / 1000 % 10)] + decimal3_text(
            value % 1000,
        )
    } else {
        seq![digit_char(value / 1000)] + decimal3_text(value % 1000)
    }
}

/// A byte as decimal digits without leading zeros.
pub open spec fn decimal_text(value: u8) -> Seq<char> {
    if value >= 100 {
        decimal3_text(value as int)
    } else if value >= 10 {
        seq![digit_char(value as int / 10), digit_char(value as int % 10)]
    } else {
        seq![digit_char(value as int)]
    }
}

/// The text of one digit below 16.
pub fn digit(value: u8) -> (text: &'static str)
    requires
        value < 16,
    ensures
        text@ == seq![digit_char(value as int)],
{
    proof {
        reveal_strlit("0");
        reveal_strlit("1");
        reveal_strlit("2");
        reveal_strlit("3");
        reveal_strlit("4");
        reveal_strlit("5");
        reveal_strlit("6");
        reveal_strlit("7");
        reveal_strlit("8");
        reveal_strlit("9");
        reveal_strlit("A");
        reveal_strlit("B");
        reveal_strlit("C");
        reveal_strlit("D");
        reveal_strlit("E");
        reveal_strlit("F");
    }
    let text = match value {
        0 => "0",
        1 => "1",
        2 => "2",
        3 => "3",
        4 => "4",
        5 => "5",
        6 => "6",
        7 => "7",
        8 => "8",
        9 => "9",
        10 => "A",
        11 => "B",
        12 => "C",
        13 => "D",
        14 => "E",
        _ => "F",
    };
    assert(text@ =~= seq![digit_char(value as int)]);
    text
}

/// Adds the two hexadecimal digits of a byte to a text.
pub fn push_hex_byte(text: &mut String, value: u8)
    ensures
        final(text)@ == old(text)@ + hex_byte_text(value),
{
    text.append(digit(value / 16));
    text.append(digit(value % 16));
    assert(text@ =~= old(text)@ + hex_byte_text(value));
}

/// A byte as two hexadecimal digits.
pub fn format_hex_byte(value: u8) -> (text: String)
    ensures
        text@ == hex_byte_text(value),
{
    let mut text = String::new();
    push_hex_byte(&mut text, value);
    assert(text@ =~= hex_byte_text(value));
    text
}

/// Adds the four hexadecimal digits of a word to a text.
pub fn push_hex_word(text: &mut String, value: u16)
    ensures
        final(text)@ == old(text)@ + hex_word_text(value),
{
    push_hex_byte(text, (value / 256) as u8);
    push_hex_byte(text, (value % 256) as u8);
    assert(text@ =~= old(text)@ + hex_word_text(value));
}

/// A word as four hexadecimal digits.
pub fn format_hex_word(value: u16) -> (text: String)
    ensures
        text@ == hex_word_text(value),
{
    let mut text = String::new();
    push_hex_word(&mut text, value);
    assert(text@ =~= hex_word_text(value));
    text
}

/// A byte as three decimal digits, with leading zeros.
pub fn format_decimal3(value: u8) -> (text: String)
    ensures
        text@ == decimal3_text(value as int),
{
    let mut text = String::new();
    text.append(digit(value / 100));
    text.append(digit(value / 10 % 10));
    text.append(digit(value % 10));
    assert(text@ =~= decimal3_text(value as int));
    text
}

/// A word as decimal digits, four at least, with leading zeros.
pub fn format_decimal4(value: u16) -> (text: String)
    ensures
        text@ == decimal4_text(value as int),
{
    let mut text = String::new();
    if value >= 10000 {
        text.append(digit((value / 10000) as u8));
    }
    text.append(digit((value / 1000 % 10) as u8));
    text.append(digit((value % 1000 / 100) as u8));
    text.append(digit((value % 1000 / 10 % 10) as u8));
    text.append(digit((value % 1000 % 10) as u8));
    assert(text@ =~= decimal4_text(value as int));
    text
}

/// Adds the decimal digits of a byte, without leading zeros, to a text.
pub fn push_decimal(text: &mut String, value: u8)
    ensures
        final(text)@ == old(text)@ + decimal_text(value),
{
    if value >= 100 {
        text.append(digit(value / 100));
    }
    if value >= 10 {
        text.append(digit(value / 10 % 10));
    }
    text.append(digit(value % 10));
    assert(text@ =~= old(text)@ + decimal_text(value));
}

} // verus!
