//! Bytes written out as two upper-case hexadecimal digits.

use vstd::prelude::*;

verus! {

/// `String::push` of std appends one character to the end of the string.
pub assume_specification[ String::push ](s: &mut String, ch: char)
    ensures
        final(s)@ == old(s)@.push(ch),
;

/// The hexadecimal digit for a number below 16.
pub open spec fn hex_digit(nibble: u8) -> char {
    if nibble == 0 {
        '0'
    } else if nibble == 1 {
        '1'
    } else if nibble == 2 {
        '2'
    } else if nibble == 3 {
        '3'
    } else if nibble == 4 {
        '4'
    } else if nibble == 5 {
        '5'
    } else if nibble == 6 {
        '6'
    } else if nibble == 7 {
        '7'
    } else if nibble == 8 {
        '8'
    } else if nibble == 9 {
        '9'
    } else if nibble == 10 {
        'A'
    } else if nibble == 11 {
        'B'
    } else if nibble == 12 {
        'C'
    } else if nibble == 13 {
        'D'
    } else if nibble == 14 {
        'E'
    } else {
        'F'
    }
}

/// The two hexadecimal digits of a byte, the high one first.
pub open spec fn hex_byte(byte: u8) -> Seq<char> {
    seq![hex_digit(byte / 16), hex_digit(byte % 16)]
}

/// Four bytes in hexadecimal, separated by spaces, in round brackets.
pub open spec fn hex_quad(bytes: (u8, u8, u8, u8)) -> Seq<char> {
    seq!['('] + hex_byte(bytes.0) + seq![' '] + hex_byte(bytes.1) + seq![' '] + hex_byte(bytes.2)
        + seq![' '] + hex_byte(bytes.3) + seq![')']
}

fn digit(nibble: u8) -> (ch: char)
    requires
        nibble < 16,
    ensures
        ch == hex_digit(nibble),
{
    if nibble == 0 {
        '0'
    } else if nibble == 1 {
        '1'
    } else if nibble == 2 {
        '2'
    } else if nibble == 3 {
        '3'
    } else if nibble == 4 {
        '4'
    } else if nibble == 5 {
        '5'
    } else if nibble == 6 {
        '6'
    } else if nibble == 7 {
        '7'
    } else if nibble == 8 {
        '8'
    } else if nibble == 9 {
        '9'
    } else if nibble == 10 {
        'A'
    } else if nibble == 11 {
        'B'
    } else if nibble == 12 {
        'C'
    } else if nibble == 13 {
        'D'
    } else if nibble == 14 {
        'E'
    } else {
        'F'
    }
}

/// Appends the two hexadecimal digits of `byte` to `text`.
pub fn push_hex(text: &mut String, byte: u8)
    ensures
        final(text)@ == old(text)@ + hex_byte(byte),
{
    text.push(digit(byte / 16));
    text.push(digit(byte % 16));
    assert(text@ =~= old(text)@ + hex_byte(byte));
}

/// Four bytes in hexadecimal, separated by spaces, in round brackets.
pub fn format_quad(b0: u8, b1: u8, b2: u8, b3: u8) -> (text: String)
    ensures
        text@ == hex_quad((b0, b1, b2, b3)),
{
    let mut text: String = String::new();
    text.push('(');
    push_hex(&mut text, b0);
    text.push(' ');
    push_hex(&mut text, b1);
    text.push(' ');
    push_hex(&mut text, b2);
    text.push(' ');
    push_hex(&mut text, b3);
    text.push(')');
    assert(text@ =~= hex_quad((b0, b1, b2, b3)));
    text
}

/// A 16-bit value in hexadecimal: as many digits as it needs, and two
/// at the least.
pub open spec fn hex_short(value: u16) -> Seq<char> {
    if value < 0x100 {
        hex_byte(value as u8)
    } else if value < 0x1000 {
        seq![hex_digit((value / 0x100) as u8)] + hex_byte((value % 0x100) as u8)
    } else {
        hex_byte((value / 0x100) as u8) + hex_byte((value % 0x100) as u8)
    }
}

/// A 16-bit value in four hexadecimal digits.
pub open spec fn hex_word(value: u16) -> Seq<char> {
    hex_byte((value / 0x100) as u8) + hex_byte((value % 0x100) as u8)
}

/// Appends `value` in hexadecimal, with two digits at the least.
pub fn push_hex_short(text: &mut String, value: u16)
    ensures
        final(text)@ == old(text)@ + hex_short(value),
{
    if value < 0x100 {
        push_hex(text, value as u8);
    } else if value < 0x1000 {
        text.push(digit((value / 0x100) as u8));
        push_hex(text, (value % 0x100) as u8);
    } else {
        push_hex(text, (value / 0x100) as u8);
        push_hex(text, (value % 0x100) as u8);
    }
    assert(text@ =~= old(text)@ + hex_short(value));
}

/// Appends `value` in four hexadecimal digits.
pub fn push_hex_word(text: &mut String, value: u16)
    ensures
        final(text)@ == old(text)@ + hex_word(value),
{
    push_hex(text, (value / 0x100) as u8);
    push_hex(text, (value % 0x100) as u8);
    assert(text@ =~= old(text)@ + hex_word(value));
}

} // verus!
