//! Hexadecimal color literals: parsing into typed RGB(+alpha) components and
//! rendering those components in a handful of text formats.
//!
//! The crate is a pure text transformation: every function is deterministic,
//! side-effect free, and carries a contract that pins its result down exactly.

pub mod color;
pub mod convert;
pub mod laws;
pub mod parse;
pub mod render;
pub mod text;

pub use color::{Color, FormatError, ParseError};
pub use convert::{convert_hex_to_format, hextorgb};
pub use parse::{parse, parse_hex};
pub use render::{render, OutputFormat};
