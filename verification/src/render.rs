//! The format renderer: the closed set of output formats, the exact text each
//! one produces, and the dispatch on a format selector token.

use vstd::prelude::*;

use crate::color::{Color, FormatError};
use crate::text::{dec_str, frac2, hex2, push_dec, push_frac2, push_hex2, str_eq};

verus! {

/// The closed set of output formats.
#[derive(Clone, Copy, Debug, PartialEq, Eq)]
pub enum OutputFormat {
    Standard,
    Css,
    Json,
    Hex,
    Compact,
}

/// The selector token of each format.
pub open spec fn format_token(f: OutputFormat) -> Seq<char> {
    match f {
        OutputFormat::Standard => "standard"@,
        OutputFormat::Css => "css"@,
        OutputFormat::Json => "json"@,
        OutputFormat::Hex => "hex"@,
        OutputFormat::Compact => "compact"@,
    }
}

/// The format a selector token names, if any. Tokens are exact: lower-case,
/// case-sensitive.
pub open spec fn format_of_token(name: Seq<char>) -> Option<OutputFormat> {
    if name == "standard"@ {
        Some(OutputFormat::Standard)
    } else if name == "css"@ {
        Some(OutputFormat::Css)
    } else if name == "json"@ {
        Some(OutputFormat::Json)
    } else if name == "hex"@ {
        Some(OutputFormat::Hex)
    } else if name == "compact"@ {
        Some(OutputFormat::Compact)
    } else {
        None
    }
}

/// The exact text that rendering `c` in format `f` produces. Integer channels
/// render as plain base-10 digits; the alpha fraction as two decimals; the
/// `hex` format re-encodes every channel, alpha included, as two uppercase
/// hex digits.
pub open spec fn render_text(c: Color, f: OutputFormat) -> Seq<char> {
    match f {
        OutputFormat::Standard => match c.alpha {
            None => "RGB("@ + dec_str(c.r as int) + ", "@ + dec_str(c.g as int) + ", "@
                + dec_str(c.b as int) + ")"@,
            Some(a) => "RGBA("@ + dec_str(c.r as int) + ", "@ + dec_str(c.g as int) + ", "@
                + dec_str(c.b as int) + ", "@ + frac2(a as int) + ")"@,
        },
        OutputFormat::Css => match c.alpha {
            None => "rgb("@ + dec_str(c.r as int) + ", "@ + dec_str(c.g as int) + ", "@
                + dec_str(c.b as int) + ")"@,
            Some(a) => "rgba("@ + dec_str(c.r as int) + ", "@ + dec_str(c.g as int) + ", "@
                + dec_str(c.b as int) + ", "@ + frac2(a as int) + ")"@,
        },
        OutputFormat::Json => match c.alpha {
            None => "{\"r\": "@ + dec_str(c.r as int) + ", \"g\": "@ + dec_str(c.g as int)
                + ", \"b\": "@ + dec_str(c.b as int) + "}"@,
            Some(a) => "{\"r\": "@ + dec_str(c.r as int) + ", \"g\": "@ + dec_str(c.g as int)
                + ", \"b\": "@ + dec_str(c.b as int) + ", \"a\": "@ + frac2(a as int) + "}"@,
        },
        OutputFormat::Hex => match c.alpha {
            None => "#"@ + hex2(c.r as int) + hex2(c.g as int) + hex2(c.b as int),
            Some(a) => "#"@ + hex2(c.r as int) + hex2(c.g as int) + hex2(c.b as int) + hex2(
                a as int,
            ),
        },
        OutputFormat::Compact => match c.alpha {
            None => dec_str(c.r as int) + ","@ + dec_str(c.g as int) + ","@ + dec_str(c.b as int),
            Some(a) => dec_str(c.r as int) + ","@ + dec_str(c.g as int) + ","@ + dec_str(
                c.b as int,
            ) + ","@ + frac2(a as int),
        },
    }
}

impl OutputFormat {
    /// The selector token of this format.
    pub fn as_str(&self) -> (r: &'static str)
        ensures
            r@ == format_token(*self),
    {
        match self {
            OutputFormat::Standard => "standard",
            OutputFormat::Css => "css",
            OutputFormat::Json => "json",
            OutputFormat::Hex => "hex",
            OutputFormat::Compact => "compact",
        }
    }

    /// The format a selector token names, or `None` for any other token.
    pub fn from_token(name: &str) -> (r: Option<OutputFormat>)
        ensures
            r == format_of_token(name@),
    {
        if str_eq(name, "standard") {
            Some(OutputFormat::Standard)
        } else if str_eq(name, "css") {
            Some(OutputFormat::Css)
        } else if str_eq(name, "json") {
            Some(OutputFormat::Json)
        } else if str_eq(name, "hex") {
            Some(OutputFormat::Hex)
        } else if str_eq(name, "compact") {
            Some(OutputFormat::Compact)
        } else {
            None
        }
    }
}

/// Renders `c` in the format `f`; the output is exactly [`render_text`].
pub fn render_format(c: &Color, f: OutputFormat) -> (r: String)
    ensures
        r@ == render_text(*c, f),
{
    let mut out = String::new();
    match f {
        OutputFormat::Standard => match c.alpha {
            None => {
                out.append("RGB(");
                push_dec(&mut out, c.r);
                out.append(", ");
                push_dec(&mut out, c.g);
                out.append(", ");
                push_dec(&mut out, c.b);
                out.append(")");
            },
            Some(a) => {
                out.append("RGBA(");
                push_dec(&mut out, c.r);
                out.append(", ");
                push_dec(&mut out, c.g);
                out.append(", ");
                push_dec(&mut out, c.b);
                out.append(", ");
                push_frac2(&mut out, a);
                out.append(")");
            },
        },
        OutputFormat::Css => match c.alpha {
            None => {
                out.append("rgb(");
                push_dec(&mut out, c.r);
                out.append(", ");
                push_dec(&mut out, c.g);
                out.append(", ");
                push_dec(&mut out, c.b);
                out.append(")");
            },
            Some(a) => {
                out.append("rgba(");
                push_dec(&mut out, c.r);
                out.append(", ");
                push_dec(&mut out, c.g);
                out.append(", ");
                push_dec(&mut out, c.b);
                out.append(", ");
                push_frac2(&mut out, a);
                out.append(")");
            },
        },
        OutputFormat::Json => match c.alpha {
            None => {
                out.append("{\"r\": ");
                push_dec(&mut out, c.r);
                out.append(", \"g\": ");
                push_dec(&mut out, c.g);
                out.append(", \"b\": ");
                push_dec(&mut out, c.b);
                out.append("}");
            },
            Some(a) => {
                out.append("{\"r\": ");
                push_dec(&mut out, c.r);
                out.append(", \"g\": ");
                push_dec(&mut out, c.g);
                out.append(", \"b\": ");
                push_dec(&mut out, c.b);
                out.append(", \"a\": ");
                push_frac2(&mut out, a);
                out.append("}");
            },
        },
        OutputFormat::Hex => {
            out.append("#");
            push_hex2(&mut out, c.r);
            push_hex2(&mut out, c.g);
            push_hex2(&mut out, c.b);
            match c.alpha {
                None => {},
                Some(a) => {
                    push_hex2(&mut out, a);
                },
            }
        },
        OutputFormat::Compact => {
            push_dec(&mut out, c.r);
            out.append(",");
            push_dec(&mut out, c.g);
            out.append(",");
            push_dec(&mut out, c.b);
            match c.alpha {
                None => {},
                Some(a) => {
                    out.append(",");
                    push_frac2(&mut out, a);
                },
            }
        },
    }
    assert(out@ =~= render_text(*c, f));
    out
}

/// Renders `c` in the format the selector `format` names, or reports an
/// unknown selector, carrying it, when the token is not one of the five.
pub fn render(c: &Color, format: &str) -> (r: Result<String, FormatError>)
    ensures
        match format_of_token(format@) {
            Some(f) => r matches Ok(s) && s@ == render_text(*c, f),
            None => r matches Err(e) && e->UnknownFormat_0@ == format@,
        },
{
    match OutputFormat::from_token(format) {
        Some(f) => Ok(render_format(c, f)),
        None => Err(FormatError::UnknownFormat(format.to_owned())),
    }
}

impl Color {
    /// The default display form of a color: the `standard` format.
    pub fn to_string(&self) -> (r: String)
        ensures
            r@ == render_text(*self, OutputFormat::Standard),
    {
        render_format(self, OutputFormat::Standard)
    }
}

} // verus!
