//! What registration and extraction give, stated over texts, maps and
//! sequences.

use crate::backend::{regex_groups, regex_names};
use crate::captures::raw_text;
use crate::error::{ConversionErrorView, ExtractionError, ExtractionErrorView};
use crate::field::FieldSpec;
use crate::pattern::named;
use crate::record::{Record, RecordView};
use crate::value::ValueView;
use vstd::prelude::*;

verus! {

/// The names of `fields`, in the order of declaration.
pub open spec fn field_names<T, C: Fn(&str) -> Result<T, String>>(
    fields: Seq<FieldSpec<T, C>>,
) -> Seq<Seq<char>> {
    fields.map_values(|f: FieldSpec<T, C>| f.name())
}

/// Whether no name occurs twice.
pub open spec fn names_distinct(names: Seq<Seq<char>>) -> bool {
    forall|i: int, j: int| 0 <= i < j < names.len() ==> names[i] != names[j]
}

/// Whether the name at `at` has occurred before.
pub open spec fn repeats_at(names: Seq<Seq<char>>, at: int) -> bool {
    &&& 0 <= at < names.len()
    &&& exists|i: int| 0 <= i < at && #[trigger] names[i] == names[at]
}

/// Whether `at` is the first place whose name has occurred before.
pub open spec fn first_repeat(names: Seq<Seq<char>>, at: int) -> bool {
    &&& repeats_at(names, at)
    &&& forall|k: int| 0 <= k < at ==> !repeats_at(names, k)
}

/// The names of the named groups of a regex compiled from `pattern`.
pub open spec fn pattern_groups(pattern: Seq<char>) -> Seq<Seq<char>> {
    named(regex_names(pattern))
}

/// Whether `field` needs a capture group and `groups` has none of its name.
pub open spec fn lacks_group<T, C: Fn(&str) -> Result<T, String>>(
    groups: Seq<Seq<char>>,
    field: FieldSpec<T, C>,
) -> bool {
    field.needs_group() && !groups.contains(field.name())
}

/// Whether the field at `at` is the first that lacks its group.
pub open spec fn first_lacking<T, C: Fn(&str) -> Result<T, String>>(
    groups: Seq<Seq<char>>,
    fields: Seq<FieldSpec<T, C>>,
    at: int,
) -> bool {
    &&& 0 <= at < fields.len()
    &&& lacks_group(groups, fields[at])
    &&& forall|k: int| 0 <= k < at ==> !lacks_group(groups, #[trigger] fields[k])
}

/// Whether the fields fit a pattern with the named groups `groups`: no two
/// fields share a name, and each field that needs a capture group has one.
pub open spec fn consistent<T, C: Fn(&str) -> Result<T, String>>(
    groups: Seq<Seq<char>>,
    fields: Seq<FieldSpec<T, C>>,
) -> bool {
    &&& names_distinct(field_names(fields))
    &&& forall|k: int| 0 <= k < fields.len() ==> !lacks_group(groups, #[trigger] fields[k])
}

/// The text that the field at `at` is converted from.
pub open spec fn field_text<T, C: Fn(&str) -> Result<T, String>>(
    fields: Seq<FieldSpec<T, C>>,
    groups: Map<Seq<char>, Seq<char>>,
    at: int,
) -> Seq<char> {
    raw_text(groups, fields[at].name())
}

/// Whether the field at `at` can be converted to some value.
pub open spec fn convertible<T, C: Fn(&str) -> Result<T, String>>(
    fields: Seq<FieldSpec<T, C>>,
    groups: Map<Seq<char>, Seq<char>>,
    at: int,
) -> bool {
    exists|v: ValueView<T>| #[trigger] fields[at].converts(field_text(fields, groups, at), Ok(v))
}

/// Whether the field at `at` fails with `cause` and every field before it
/// can be converted.
pub open spec fn fails_first_at<T, C: Fn(&str) -> Result<T, String>>(
    fields: Seq<FieldSpec<T, C>>,
    groups: Map<Seq<char>, Seq<char>>,
    at: int,
    cause: ConversionErrorView,
) -> bool {
    &&& 0 <= at < fields.len()
    &&& fields[at].converts(field_text(fields, groups, at), Err(cause))
    &&& forall|i: int| 0 <= i < at ==> #[trigger] convertible(fields, groups, i)
}

/// Whether `r` is a result of converting `fields` from the groups of one
/// match: a record with every field converted in the order of declaration,
/// or the failure of the first field that cannot be converted.
pub open spec fn assembled<T, C: Fn(&str) -> Result<T, String>>(
    struct_name: Seq<char>,
    fields: Seq<FieldSpec<T, C>>,
    groups: Map<Seq<char>, Seq<char>>,
    r: Result<RecordView<T>, ExtractionErrorView>,
) -> bool {
    match r {
        Ok(record) => {
            &&& record.struct_name == struct_name
            &&& record.names == field_names(fields)
            &&& record.values.len() == fields.len()
            &&& forall|i: int|
                0 <= i < fields.len() ==> (#[trigger] fields[i]).converts(
                    field_text(fields, groups, i),
                    Ok(record.values[i]),
                )
        },
        Err(ExtractionErrorView::NoMatch { .. }) => false,
        Err(ExtractionErrorView::FieldFailed { struct_name: of, field_name, cause }) => {
            &&& of == struct_name
            &&& cause.field == field_name
            &&& exists|at: int|
                #![trigger fields[at]]
                fails_first_at(fields, groups, at, cause) && field_name == fields[at].name()
        },
    }
}

/// Whether `r` is a result of extracting a record from `input`: `NoMatch`
/// exactly where the pattern matches nowhere, else what converting the
/// fields from the groups of the leftmost match gives.
pub open spec fn extracted<T, C: Fn(&str) -> Result<T, String>>(
    struct_name: Seq<char>,
    pattern: Seq<char>,
    fields: Seq<FieldSpec<T, C>>,
    input: Seq<char>,
    r: Result<RecordView<T>, ExtractionErrorView>,
) -> bool {
    match regex_groups(pattern, input) {
        None => r == Err::<RecordView<T>, ExtractionErrorView>(
            ExtractionErrorView::NoMatch { struct_name },
        ),
        Some(groups) => assembled(struct_name, fields, groups, r),
    }
}

/// The view of an extraction's result.
pub open spec fn extraction_view<T>(r: Result<Record<T>, ExtractionError>) -> Result<
    RecordView<T>,
    ExtractionErrorView,
> {
    match r {
        Ok(record) => Ok(record@),
        Err(e) => Err(e@),
    }
}

} // verus!
