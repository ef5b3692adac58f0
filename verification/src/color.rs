//! The color value produced by parsing, and the error taxonomy of the
//! parse-and-render pipeline.

use vstd::prelude::*;

verus! {

/// A decoded color: three 8-bit channels, plus the 8-bit alpha source value
/// when the input carried 8 hex digits.
///
/// The alpha fraction shown by the renderers is `alpha / 255`, so it is one
/// of 256 discrete values in `[0, 1]`; storing the source byte keeps that
/// fraction exact.
#[derive(Clone, Copy, Debug, PartialEq, Eq)]
pub struct Color {
    pub r: u8,
    pub g: u8,
    pub b: u8,
    pub alpha: Option<u8>,
}

/// Why a raw string failed to parse as a color.
#[derive(Clone, Copy, Debug, PartialEq, Eq)]
pub enum ParseError {
    /// The hex body (after prefix stripping) is not exactly 6 or 8 characters.
    InvalidLength,
    /// The hex body has the right length but holds a non-hex character.
    InvalidDigits,
}

/// The display text of a parse error.
pub open spec fn parse_error_text(e: ParseError) -> Seq<char> {
    match e {
        ParseError::InvalidLength => "Invalid hex length"@,
        ParseError::InvalidDigits => "Invalid hex"@,
    }
}

impl ParseError {
    /// The error as display text, for callers that report rather than branch.
    pub fn message(&self) -> (r: &'static str)
        ensures
            r@ == parse_error_text(*self),
    {
        match self {
            ParseError::InvalidLength => "Invalid hex length",
            ParseError::InvalidDigits => "Invalid hex",
        }
    }
}

/// Why rendering failed: the requested format selector is not one of the
/// five known tokens. Carries the rejected selector.
#[derive(Debug, PartialEq, Eq)]
pub enum FormatError {
    UnknownFormat(String),
}

/// The display text of a format error.
pub open spec fn format_error_text(e: FormatError) -> Seq<char> {
    "Unknown format: "@ + e->UnknownFormat_0@
}

impl FormatError {
    /// The error as display text, for callers that report rather than branch.
    pub fn message(&self) -> (r: String)
        ensures
            r@ == format_error_text(*self),
    {
        let mut out = String::new();
        out.append("Unknown format: ");
        match self {
            FormatError::UnknownFormat(name) => {
                out.append(name.as_str());
            },
        }
        out
    }
}

} // verus!
