//! The values that a record holds, and reading one from captured text.

use crate::number::{parse_signed, parse_unsigned, signed_outcome, unsigned_outcome, NumberFault};
use crate::text::same_text;
use vstd::prelude::*;

verus! {

/// The types that a field can be read as without a converter of its own.
#[derive(Clone, Copy, Debug, PartialEq, Eq, Structural)]
pub enum Kind {
    /// The captured text itself.
    Text,
    /// A `u32` in decimal notation.
    Unsigned,
    /// An `i32` in decimal notation.
    Signed,
    /// `true` or `false`.
    Flag,
}

/// The value of one field. `T` is what the caller's own converters produce.
#[derive(Clone, Debug, PartialEq, Eq)]
pub enum Value<T> {
    /// The captured text itself.
    Text(String),
    /// A number read from decimal notation.
    Unsigned(u32),
    /// A number read from decimal notation with an optional sign.
    Signed(i32),
    /// `true` or `false`.
    Flag(bool),
    /// What a converter of the caller made of the text.
    Custom(T),
}

/// A `Value` with its text as a sequence of characters.
pub enum ValueView<T> {
    Text(Seq<char>),
    Unsigned(u32),
    Signed(i32),
    Flag(bool),
    Custom(T),
}

impl<T> View for Value<T> {
    type V = ValueView<T>;

    open spec fn view(&self) -> ValueView<T> {
        match *self {
            Value::Text(s) => ValueView::Text(s@),
            Value::Unsigned(n) => ValueView::Unsigned(n),
            Value::Signed(n) => ValueView::Signed(n),
            Value::Flag(b) => ValueView::Flag(b),
            Value::Custom(t) => ValueView::Custom(t),
        }
    }
}

/// Why a captured text could not be converted.
#[derive(Clone, Debug, PartialEq, Eq)]
pub enum Reason {
    /// The text is not the decimal notation of a number of the field's type.
    Number(NumberFault),
    /// The text is neither `true` nor `false`.
    NotBoolean,
    /// The field's own converter refused the text, with this message.
    Rejected(String),
}

/// A `Reason` with its message as a sequence of characters.
pub enum ReasonView {
    Number(NumberFault),
    NotBoolean,
    Rejected(Seq<char>),
}

impl View for Reason {
    type V = ReasonView;

    open spec fn view(&self) -> ReasonView {
        match *self {
            Reason::Number(f) => ReasonView::Number(f),
            Reason::NotBoolean => ReasonView::NotBoolean,
            Reason::Rejected(m) => ReasonView::Rejected(m@),
        }
    }
}

/// The text `true`.
pub open spec fn true_text() -> Seq<char> {
    seq!['t', 'r', 'u', 'e']
}

/// The text `false`.
pub open spec fn false_text() -> Seq<char> {
    seq!['f', 'a', 'l', 's', 'e']
}

/// What reading `raw` as a value of kind `kind` gives.
pub open spec fn parsed_outcome<T>(kind: Kind, raw: Seq<char>) -> Result<ValueView<T>, ReasonView> {
    match kind {
        Kind::Text => Ok(ValueView::Text(raw)),
        Kind::Unsigned => match unsigned_outcome(raw) {
            Ok(n) => Ok(ValueView::Unsigned(n)),
            Err(f) => Err(ReasonView::Number(f)),
        },
        Kind::Signed => match signed_outcome(raw) {
            Ok(n) => Ok(ValueView::Signed(n)),
            Err(f) => Err(ReasonView::Number(f)),
        },
        Kind::Flag => if raw == true_text() {
            Ok(ValueView::Flag(true))
        } else if raw == false_text() {
            Ok(ValueView::Flag(false))
        } else {
            Err(ReasonView::NotBoolean)
        },
    }
}

/// The view of a conversion's result.
pub open spec fn parsed_view<T>(r: Result<Value<T>, Reason>) -> Result<ValueView<T>, ReasonView> {
    match r {
        Ok(v) => Ok(v@),
        Err(e) => Err(e@),
    }
}

/// Reads `raw` as `true` or `false`.
pub fn parse_flag(raw: &str) -> (r: Option<bool>)
    ensures
        r == (if raw@ == true_text() {
            Some(true)
        } else if raw@ == false_text() {
            Some(false)
        } else {
            None
        }),
{
    proof {
        reveal_strlit("true");
        reveal_strlit("false");
        assert("true"@ =~= true_text());
        assert("false"@ =~= false_text());
    }
    if same_text(raw, "true") {
        Some(true)
    } else if same_text(raw, "false") {
        Some(false)
    } else {
        None
    }
}

/// Reads `raw` as a value of kind `kind`: the conversion of a field that has
/// no converter of its own.
pub fn parse_as<T>(kind: Kind, raw: &str) -> (r: Result<Value<T>, Reason>)
    ensures
        parsed_view(r) == parsed_outcome::<T>(kind, raw@),
{
    match kind {
        Kind::Text => Ok(Value::Text(raw.to_owned())),
        Kind::Unsigned => match parse_unsigned(raw) {
            Ok(n) => Ok(Value::Unsigned(n)),
            Err(f) => Err(Reason::Number(f)),
        },
        Kind::Signed => match parse_signed(raw) {
            Ok(n) => Ok(Value::Signed(n)),
            Err(f) => Err(Reason::Number(f)),
        },
        Kind::Flag => match parse_flag(raw) {
            Some(b) => Ok(Value::Flag(b)),
            None => Err(Reason::NotBoolean),
        },
    }
}

} // verus!
