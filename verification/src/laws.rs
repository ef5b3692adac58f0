//! Laws that relate the parser and the renderer, proved once for all inputs.

use vstd::prelude::*;

use crate::color::Color;
use crate::parse::{
    all_hex_digits, byte_group, color_of_body, hex_body, hex_val, is_hex_digit, parse_result,
    upper_hex_char,
};
use crate::render::{render_text, OutputFormat};
use crate::text::{dec_str, frac2, hex2};

verus! {

/// A 2-character hex group splits back into its digits.
proof fn lemma_byte_split(h0: int, h1: int)
    requires
        0 <= h0 < 16,
        0 <= h1 < 16,
    ensures
        (16 * h0 + h1) / 16 == h0,
        (16 * h0 + h1) % 16 == h1,
{
    assert((16 * h0 + h1) / 16 == h0 && (16 * h0 + h1) % 16 == h1) by (nonlinear_arith)
        requires
            0 <= h0 < 16,
            0 <= h1 < 16,
    ;
}

/// A string of hex digits carries no recognized prefix, so it is its own hex
/// body.
pub proof fn lemma_hex_body_of_digits(body: Seq<char>)
    requires
        all_hex_digits(body),
    ensures
        hex_body(body) == body,
{
    if body.len() >= 2 && body[0] == '0' && (body[1] == 'x' || body[1] == 'X') {
        assert(is_hex_digit(body[1]));
        assert(false);
    }
    if body.len() >= 1 && body[0] == '#' {
        assert(is_hex_digit(body[0]));
        assert(false);
    }
}

/// Round-trip: any valid 6-digit hex body parses, and rendering the result
/// in the `hex` format reproduces the uppercase-normalized input behind `#`.
pub proof fn lemma_hex_round_trip(body: Seq<char>)
    requires
        body.len() == 6,
        all_hex_digits(body),
    ensures
        parse_result(body) matches Ok(c) && render_text(c, OutputFormat::Hex) == seq!['#']
            + body.map_values(|ch: char| upper_hex_char(ch)),
{
    lemma_hex_body_of_digits(body);
    let c = color_of_body(body);
    assert(parse_result(body) == Ok::<Color, crate::color::ParseError>(c));

    assert forall|k: int| 0 <= k < 3 implies hex2(byte_group(body, k)) =~= seq![
        upper_hex_char(body[2 * k]),
        upper_hex_char(body[2 * k + 1]),
    ] by {
        lemma_byte_split(hex_val(body[2 * k]), hex_val(body[2 * k + 1]));
    }
    assert(c.r == byte_group(body, 0));
    assert(c.g == byte_group(body, 1));
    assert(c.b == byte_group(body, 2));

    reveal_strlit("#");
    assert(render_text(c, OutputFormat::Hex) =~= seq!['#'] + body.map_values(
        |ch: char| upper_hex_char(ch),
    ));
}

/// The channel texts shared by the decimal formats, glued with a separator:
/// the base-10 channels in the order R, G, B, then the two-decimal alpha
/// fraction when present.
pub open spec fn channel_body(c: Color, sep: Seq<char>) -> Seq<char> {
    dec_str(c.r as int) + sep + dec_str(c.g as int) + sep + dec_str(c.b as int) + match c.alpha {
        None => Seq::<char>::empty(),
        Some(a) => sep + frac2(a as int),
    }
}

/// Format consistency: for a fixed color, the four decimal formats show the
/// identical channel texts — the same base-10 digits and the same alpha
/// fraction — and differ only in the punctuation and casing around them.
pub proof fn lemma_format_consistency(c: Color)
    ensures
        render_text(c, OutputFormat::Standard) == (if c.alpha is Some {
            "RGBA("@
        } else {
            "RGB("@
        }) + channel_body(c, ", "@) + ")"@,
        render_text(c, OutputFormat::Css) == (if c.alpha is Some {
            "rgba("@
        } else {
            "rgb("@
        }) + channel_body(c, ", "@) + ")"@,
        render_text(c, OutputFormat::Compact) == channel_body(c, ","@),
        render_text(c, OutputFormat::Json) == "{\"r\": "@ + dec_str(c.r as int) + ", \"g\": "@
            + dec_str(c.g as int) + ", \"b\": "@ + dec_str(c.b as int) + (match c.alpha {
            None => Seq::<char>::empty(),
            Some(a) => ", \"a\": "@ + frac2(a as int),
        }) + "}"@,
{
    assert(render_text(c, OutputFormat::Standard) =~= (if c.alpha is Some {
        "RGBA("@
    } else {
        "RGB("@
    }) + channel_body(c, ", "@) + ")"@);
    assert(render_text(c, OutputFormat::Css) =~= (if c.alpha is Some {
        "rgba("@
    } else {
        "rgb("@
    }) + channel_body(c, ", "@) + ")"@);
    assert(render_text(c, OutputFormat::Compact) =~= channel_body(c, ","@));
    assert(render_text(c, OutputFormat::Json) =~= "{\"r\": "@ + dec_str(c.r as int) + ", \"g\": "@
        + dec_str(c.g as int) + ", \"b\": "@ + dec_str(c.b as int) + (match c.alpha {
        None => Seq::<char>::empty(),
        Some(a) => ", \"a\": "@ + frac2(a as int),
    }) + "}"@);
}

/// Prefix equivalence: a bare hex body parses the same whether it comes
/// plain or behind a single `#`, `0x` or `0X` prefix.
pub proof fn lemma_prefix_equivalence(body: Seq<char>)
    requires
        hex_body(body) == body,
    ensures
        parse_result(seq!['#'] + body) == parse_result(body),
        parse_result(seq!['0', 'x'] + body) == parse_result(body),
        parse_result(seq!['0', 'X'] + body) == parse_result(body),
{
    let hash = seq!['#'] + body;
    assert(hash[0] == '#');
    assert(hex_body(hash) =~= body);

    let lower = seq!['0', 'x'] + body;
    assert(lower[0] == '0' && lower[1] == 'x');
    assert(hex_body(lower) =~= body);

    let upper = seq!['0', 'X'] + body;
    assert(upper[0] == '0' && upper[1] == 'X');
    assert(hex_body(upper) =~= body);
}

} // verus!
