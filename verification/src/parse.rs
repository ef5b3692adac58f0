//! The hex parser: prefix stripping, length dispatch, and case-insensitive
//! byte decoding of a hex color literal.

use vstd::prelude::*;

use crate::color::{Color, ParseError, parse_error_text};

verus! {

/// Whether `c` is a hexadecimal digit, lower or upper case.
pub open spec fn is_hex_digit(c: char) -> bool {
    ||| ('0' as u32) <= (c as u32) && (c as u32) <= ('9' as u32)
    ||| ('a' as u32) <= (c as u32) && (c as u32) <= ('f' as u32)
    ||| ('A' as u32) <= (c as u32) && (c as u32) <= ('F' as u32)
}

/// The value of the hex digit `c`, in `[0, 16)` when `is_hex_digit(c)`.
pub open spec fn hex_val(c: char) -> int {
    if ('0' as u32) <= (c as u32) && (c as u32) <= ('9' as u32) {
        (c as u32) - ('0' as u32)
    } else if ('a' as u32) <= (c as u32) && (c as u32) <= ('f' as u32) {
        (c as u32) - ('a' as u32) + 10
    } else {
        (c as u32) - ('A' as u32) + 10
    }
}

/// The uppercase normalization of a hex digit: the character that renders
/// the same digit value in uppercase.
pub open spec fn upper_hex_char(c: char) -> char {
    crate::text::digit_char(hex_val(c))
}

/// The hex body of a raw input: the remainder after stripping at most one
/// recognized prefix, checked in the order `0x`, `0X`, `#`. Only a single
/// prefix is stripped even if the remainder itself begins with another one.
pub open spec fn hex_body(s: Seq<char>) -> Seq<char> {
    if s.len() >= 2 && s[0] == '0' && (s[1] == 'x' || s[1] == 'X') {
        s.skip(2)
    } else if s.len() >= 1 && s[0] == '#' {
        s.skip(1)
    } else {
        s
    }
}

/// Whether every character of `s` is a hex digit.
pub open spec fn all_hex_digits(s: Seq<char>) -> bool {
    forall|i: int| 0 <= i < s.len() ==> is_hex_digit(#[trigger] s[i])
}

/// The value of the `k`-th 2-character byte group of `s`.
pub open spec fn byte_group(s: Seq<char>, k: int) -> int {
    16 * hex_val(s[2 * k]) + hex_val(s[2 * k + 1])
}

/// The color denoted by a valid hex body: byte groups in the order R, G, B,
/// then the alpha byte when the body has 8 characters.
pub open spec fn color_of_body(body: Seq<char>) -> Color {
    Color {
        r: byte_group(body, 0) as u8,
        g: byte_group(body, 1) as u8,
        b: byte_group(body, 2) as u8,
        alpha: if body.len() == 8 {
            Some(byte_group(body, 3) as u8)
        } else {
            None
        },
    }
}

/// What parsing a raw string yields: `InvalidLength` unless the hex body has
/// exactly 6 or 8 characters, `InvalidDigits` when the length is right but
/// some character is not a hex digit, and otherwise the decoded color.
pub open spec fn parse_result(s: Seq<char>) -> Result<Color, ParseError> {
    let body = hex_body(s);
    if body.len() != 6 && body.len() != 8 {
        Err(ParseError::InvalidLength)
    } else if !all_hex_digits(body) {
        Err(ParseError::InvalidDigits)
    } else {
        Ok(color_of_body(body))
    }
}

/// The value of `c` as a hex digit, or `None` when `c` is not one.
fn hex_digit_value(c: char) -> (r: Option<u8>)
    ensures
        r is Some <==> is_hex_digit(c),
        r matches Some(v) ==> v == hex_val(c) && v < 16,
{
    let u = c as u32;
    if 48 <= u && u <= 57 {
        Some((u - 48) as u8)
    } else if 97 <= u && u <= 102 {
        Some((u - 97 + 10) as u8)
    } else if 65 <= u && u <= 70 {
        Some((u - 65 + 10) as u8)
    } else {
        None
    }
}

/// Decodes the 2-character hex group of `s` starting at `at`.
fn decode_byte(s: &str, at: usize) -> (r: u8)
    requires
        at + 1 < s@.len(),
        s@.len() <= usize::MAX,
        is_hex_digit(s@[at as int]),
        is_hex_digit(s@[at as int + 1]),
    ensures
        r == 16 * hex_val(s@[at as int]) + hex_val(s@[at as int + 1]),
{
    let hi = hex_digit_value(s.get_char(at)).unwrap();
    let lo = hex_digit_value(s.get_char(at + 1)).unwrap();
    16 * hi + lo
}

/// Parses a hex color literal: strips at most one `0x`, `0X` or `#` prefix,
/// requires a 6- or 8-character hex body, and decodes its byte groups
/// case-insensitively into a [`Color`].
pub fn parse(input: &str) -> (r: Result<Color, ParseError>)
    ensures
        r == parse_result(input@),
{
    let n = input.unicode_len();

    // Where the hex body starts: after at most one recognized prefix.
    let start: usize = if n >= 2 && input.get_char(0) == '0' && (input.get_char(1) == 'x'
        || input.get_char(1) == 'X') {
        2
    } else if n >= 1 && input.get_char(0) == '#' {
        1
    } else {
        0
    };
    assert(hex_body(input@) =~= input@.skip(start as int));

    let body_len = n - start;
    if body_len != 6 && body_len != 8 {
        return Err(ParseError::InvalidLength);
    }

    // Validate every character of the body before decoding; the error carries
    // no position, so checking all groups and short-circuiting agree.
    let ghost body = input@.skip(start as int);
    let mut i: usize = 0;
    while i < body_len
        invariant
            i <= body_len,
            start + body_len == n,
            n == input@.len(),
            body == input@.skip(start as int),
            body == hex_body(input@),
            body.len() == body_len,
            body_len == 6 || body_len == 8,
            forall|j: int| 0 <= j < i ==> is_hex_digit(#[trigger] body[j]),
        decreases body_len - i,
    {
        if hex_digit_value(input.get_char(start + i)).is_none() {
            assert(!is_hex_digit(body[i as int]));
            return Err(ParseError::InvalidDigits);
        }
        i += 1;
    }
    assert(all_hex_digits(body));

    let r = decode_byte(input, start);
    let g = decode_byte(input, start + 2);
    let b = decode_byte(input, start + 4);
    let alpha = if body_len == 8 {
        Some(decode_byte(input, start + 6))
    } else {
        None
    };
    Ok(Color { r, g, b, alpha })
}

/// Parses a hex color literal into its raw parts: the RGB triple and the
/// optional alpha byte, with errors as display text.
pub fn parse_hex(hex: &str) -> (r: Result<([u8; 3], Option<u8>), &'static str>)
    ensures
        match parse_result(hex@) {
            Ok(c) => {
                &&& r matches Ok(parts)
                &&& parts.0@ == seq![c.r, c.g, c.b]
                &&& parts.1 == c.alpha
            },
            Err(e) => r matches Err(m) && m@ == parse_error_text(e),
        },
{
    match parse(hex) {
        Ok(c) => {
            let parts = ([c.r, c.g, c.b], c.alpha);
            assert(parts.0@ =~= seq![c.r, c.g, c.b]);
            Ok(parts)
        },
        Err(e) => Err(e.message()),
    }
}

} // verus!
