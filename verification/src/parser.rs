//! The compact interface to the parsers.
//!
//! The one-pass parser is here under the short names [`Parser`], [`Error`],
//! [`ErrorReason`] and [`NumberError`]; [`crate::Version::parse`] uses it.
//! [`builder::Parser`] is the staged parser with errors that are plain codes,
//! [`error::ParseError`], for callers that branch on the kind of failure and
//! need neither the byte that was found nor a message.

pub use crate::parsers::original::{
    ErrorReason, NumberError, OriginalParserError as Error, Parser,
};

pub mod builder;
pub mod component;
pub mod error;
