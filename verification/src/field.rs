//! The fields of a record and how each is converted.

use crate::error::{ConversionError, ConversionErrorView};
use crate::value::{parse_as, parsed_outcome, Kind, Reason, ReasonView, Value, ValueView};
use std::marker::PhantomData;
use vstd::prelude::*;

verus! {

/// How the text captured for a field becomes its value.
pub enum Converter<C> {
    /// Read the text as a value of this kind.
    Parse(Kind),
    /// Hand the text to a function of the caller. An `optional` field needs
    /// no capture group in the pattern: without one its function is handed
    /// the empty text on every match.
    Custom { optional: bool, func: C },
}

/// Whether `func` can be called on every text.
pub open spec fn accepts_any_text<T, C: Fn(&str) -> Result<T, String>>(func: C) -> bool {
    forall|s: &str| #[trigger] func.requires((s,))
}

/// Whether `r`, with its message as a sequence of characters, is something
/// that `func` may return on the text `raw`.
pub open spec fn custom_outcome<T, C: Fn(&str) -> Result<T, String>>(
    func: C,
    raw: Seq<char>,
    r: Result<T, Seq<char>>,
) -> bool {
    exists|s: &str, x: Result<T, String>|
        s@ == raw && #[trigger] func.ensures((s,), x) && r == match x {
            Ok(t) => Ok::<T, Seq<char>>(t),
            Err(m) => Err(m@),
        }
}

/// The view of a conversion's result.
pub open spec fn conversion_view<T>(r: Result<Value<T>, ConversionError>) -> Result<
    ValueView<T>,
    ConversionErrorView,
> {
    match r {
        Ok(v) => Ok(v@),
        Err(e) => Err(e@),
    }
}

/// One field of a record: its name, which is also the name of its capture
/// group, and its converter. `T` is what the custom converters produce.
#[verifier::reject_recursive_types(T)]
pub struct FieldSpec<T, C: Fn(&str) -> Result<T, String>> {
    name: String,
    converter: Converter<C>,
    produces: PhantomData<T>,
}

impl<T, C: Fn(&str) -> Result<T, String>> FieldSpec<T, C> {
    /// A custom converter can be called on whatever was captured.
    #[verifier::type_invariant]
    closed spec fn callable(&self) -> bool {
        self.converter matches Converter::Custom { func, .. } ==> accepts_any_text(func)
    }

    /// The field's name.
    pub closed spec fn name(&self) -> Seq<char> {
        self.name@
    }

    /// The field's converter.
    pub closed spec fn converter(&self) -> Converter<C> {
        self.converter
    }

    /// Whether the pattern must have a capture group of the field's name.
    pub open spec fn needs_group(&self) -> bool {
        !(self.converter() matches Converter::Custom { optional: true, .. })
    }

    /// Whether `r` is a result of converting the text `raw` for this field.
    /// A parsed field has one result. For a custom field it is whatever the
    /// function returns, wrapped: its value as `Custom`, its message as the
    /// reason `Rejected`, with the field's name and the text beside it.
    pub open spec fn converts(
        &self,
        raw: Seq<char>,
        r: Result<ValueView<T>, ConversionErrorView>,
    ) -> bool {
        match self.converter() {
            Converter::Parse(kind) => r == match parsed_outcome::<T>(kind, raw) {
                Ok(v) => Ok::<ValueView<T>, ConversionErrorView>(v),
                Err(reason) => Err(ConversionErrorView { field: self.name(), raw, reason }),
            },
            Converter::Custom { func, .. } => match r {
                Ok(ValueView::Custom(t)) => custom_outcome(func, raw, Ok(t)),
                Ok(_) => false,
                Err(e) => {
                    &&& e.field == self.name()
                    &&& e.raw == raw
                    &&& e.reason matches ReasonView::Rejected(m)
                    &&& custom_outcome(func, raw, Err(m))
                },
            },
        }
    }

    /// A field that is read as a value of kind `kind`.
    pub fn parsed(name: &str, kind: Kind) -> (r: Self)
        ensures
            r.name() == name@,
            r.converter() == Converter::<C>::Parse(kind),
    {
        FieldSpec { name: name.to_owned(), converter: Converter::Parse(kind), produces: PhantomData }
    }

    /// A field that `func` converts, whose capture group the pattern must
    /// have.
    pub fn custom(name: &str, func: C) -> (r: Self)
        requires
            accepts_any_text(func),
        ensures
            r.name() == name@,
            r.converter() == (Converter::Custom { optional: false, func }),
    {
        FieldSpec {
            name: name.to_owned(),
            converter: Converter::Custom { optional: false, func },
            produces: PhantomData,
        }
    }

    /// A field that `func` converts, and that the pattern need not have a
    /// capture group for.
    pub fn optional(name: &str, func: C) -> (r: Self)
        requires
            accepts_any_text(func),
        ensures
            r.name() == name@,
            r.converter() == (Converter::Custom { optional: true, func }),
    {
        FieldSpec {
            name: name.to_owned(),
            converter: Converter::Custom { optional: true, func },
            produces: PhantomData,
        }
    }

    /// The field's name.
    pub fn field_name(&self) -> (r: &str)
        ensures
            r@ == self.name(),
    {
        self.name.as_str()
    }

    /// Whether the pattern must have a capture group of the field's name.
    pub fn requires_group(&self) -> (r: bool)
        ensures
            r == self.needs_group(),
    {
        match &self.converter {
            Converter::Parse(_) => true,
            Converter::Custom { optional, .. } => !*optional,
        }
    }

    /// Converts the text `raw` that was captured for this field.
    pub fn convert(&self, raw: &str) -> (r: Result<Value<T>, ConversionError>)
        ensures
            self.converts(raw@, conversion_view(r)),
    {
        proof {
            use_type_invariant(self);
        }
        match &self.converter {
            Converter::Parse(kind) => match parse_as(*kind, raw) {
                Ok(v) => Ok(v),
                Err(reason) => Err(
                    ConversionError { field: self.name.clone(), raw: raw.to_owned(), reason },
                ),
            },
            Converter::Custom { func, .. } => {
                let x = func(raw);
                match x {
                    Ok(t) => {
                        assert(custom_outcome(*func, raw@, Ok(t)));
                        Ok(Value::Custom(t))
                    },
                    Err(m) => {
                        assert(custom_outcome(*func, raw@, Err(m@)));
                        Err(
                            ConversionError {
                                field: self.name.clone(),
                                raw: raw.to_owned(),
                                reason: Reason::Rejected(m),
                            },
                        )
                    },
                }
            },
        }
    }
}

} // verus!
