//! The parse-and-format pipeline: one call from a raw hex string and a format
//! selector to the formatted output, and the legacy display-text entry point.

use vstd::prelude::*;

use crate::color::parse_error_text;
use crate::parse::{parse, parse_result};
use crate::render::{format_of_token, render, render_text, OutputFormat};

verus! {

/// Parses `hex` and renders it in the format the selector `format` names.
/// Parsing is tried first, so a bad input is reported even when the selector
/// is bad too; every error is returned as its display text.
pub fn convert_hex_to_format(hex: &str, format: &str) -> (r: Result<String, String>)
    ensures
        match parse_result(hex@) {
            Err(e) => r matches Err(m) && m@ == parse_error_text(e),
            Ok(c) => match format_of_token(format@) {
                Some(f) => r matches Ok(s) && s@ == render_text(c, f),
                None => r matches Err(m) && m@ == "Unknown format: "@ + format@,
            },
        },
{
    let color = match parse(hex) {
        Ok(c) => c,
        Err(e) => {
            return Err(e.message().to_owned());
        },
    };
    match render(&color, format) {
        Ok(s) => Ok(s),
        Err(e) => Err(e.message()),
    }
}

/// Converts a hex color string to its default display form, the `standard`
/// format; parse errors come back as their display text in place of a result.
pub fn hextorgb(hex: &str) -> (r: String)
    ensures
        match parse_result(hex@) {
            Ok(c) => r@ == render_text(c, OutputFormat::Standard),
            Err(e) => r@ == parse_error_text(e),
        },
{
    match parse(hex) {
        Ok(c) => c.to_string(),
        Err(e) => e.message().to_owned(),
    }
}

} // verus!
