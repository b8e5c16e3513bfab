//! The errors of registration and of extraction.

use crate::pattern::PatternError;
use crate::value::{Reason, ReasonView};
use vstd::prelude::*;

verus! {

/// One field's text could not be converted.
#[derive(Clone, Debug, PartialEq, Eq)]
pub struct ConversionError {
    /// The field's name.
    pub field: String,
    /// The text that was handed to the field's converter.
    pub raw: String,
    /// What the converter found wrong with it.
    pub reason: Reason,
}

/// A `ConversionError` with its texts as sequences of characters.
pub struct ConversionErrorView {
    pub field: Seq<char>,
    pub raw: Seq<char>,
    pub reason: ReasonView,
}

impl View for ConversionError {
    type V = ConversionErrorView;

    open spec fn view(&self) -> ConversionErrorView {
        ConversionErrorView { field: self.field@, raw: self.raw@, reason: self.reason@ }
    }
}

/// Why an input gave no record.
#[derive(Clone, Debug, PartialEq, Eq)]
pub enum ExtractionError {
    /// The pattern matches nowhere in the input.
    NoMatch { struct_name: String },
    /// The pattern matched, and this field is the first, in the order of
    /// declaration, whose text could not be converted.
    FieldFailed { struct_name: String, field_name: String, cause: ConversionError },
}

/// An `ExtractionError` with its texts as sequences of characters.
pub enum ExtractionErrorView {
    NoMatch { struct_name: Seq<char> },
    FieldFailed { struct_name: Seq<char>, field_name: Seq<char>, cause: ConversionErrorView },
}

impl View for ExtractionError {
    type V = ExtractionErrorView;

    open spec fn view(&self) -> ExtractionErrorView {
        match *self {
            ExtractionError::NoMatch { struct_name } => ExtractionErrorView::NoMatch {
                struct_name: struct_name@,
            },
            ExtractionError::FieldFailed {
                struct_name,
                field_name,
                cause,
            } => ExtractionErrorView::FieldFailed {
                struct_name: struct_name@,
                field_name: field_name@,
                cause: cause@,
            },
        }
    }
}

/// Why a record's description was refused at registration.
#[derive(Clone, Debug, PartialEq, Eq)]
pub enum ConfigError {
    /// The pattern is no regular expression that the `regex` crate compiles.
    MalformedPattern(PatternError),
    /// Two fields have this name.
    DuplicateField { struct_name: String, field_name: String },
    /// This field needs a capture group of its name, and the pattern has
    /// none.
    MissingGroup { struct_name: String, field_name: String },
}

} // verus!
