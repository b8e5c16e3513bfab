//! Populates records from the named capture groups of a regular expression.
//!
//! A struct is registered once, as a [`StructSpec`]: a name, one pattern and
//! the fields in the order of declaration, each with its converter. Every
//! extraction then matches the compiled pattern against an input, hands each
//! field the text of the capture group of its name, and returns either a
//! record with every field converted or the first failure.

pub mod backend;
pub mod captures;
pub mod error;
pub mod field;
pub mod laws;
pub mod number;
pub mod outcome;
pub mod pattern;
pub mod record;
pub mod structure;
pub mod text;
pub mod value;

pub use crate::captures::CaptureSet;
pub use crate::error::{ConfigError, ConversionError, ExtractionError};
pub use crate::field::{Converter, FieldSpec};
pub use crate::number::NumberFault;
pub use crate::pattern::{Pattern, PatternError};
pub use crate::record::Record;
pub use crate::structure::StructSpec;
pub use crate::value::{Kind, Reason, Value};
