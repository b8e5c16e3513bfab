//! What holds of every extraction, proved from the definitions in `outcome`.

use crate::backend::{regex_groups, regex_names};
use crate::error::{ConversionErrorView, ExtractionErrorView};
use crate::field::{custom_outcome, Converter, FieldSpec};
use crate::outcome::{
    assembled, consistent, convertible, extracted, fails_first_at, field_text, pattern_groups,
};
use crate::pattern::{has_group, named_holds_the_names};
use crate::record::RecordView;
use crate::value::ValueView;
use vstd::prelude::*;

verus! {

/// In an accepted description, each field that needs a capture group has one
/// of its name in the pattern.
pub proof fn accepted_fields_have_groups<T, C: Fn(&str) -> Result<T, String>>(
    pattern: Seq<char>,
    fields: Seq<FieldSpec<T, C>>,
    at: int,
)
    requires
        consistent(pattern_groups(pattern), fields),
        0 <= at < fields.len(),
        fields[at].needs_group(),
    ensures
        has_group(pattern, fields[at].name()),
{
    named_holds_the_names(regex_names(pattern), fields[at].name());
}

/// Whether the conversion of `field` has one result for each text: always
/// so for a parsed field; for a custom one, where its function returns the
/// same for the same text.
pub open spec fn single_valued<T, C: Fn(&str) -> Result<T, String>>(field: FieldSpec<T, C>) -> bool {
    field.converter() matches Converter::Custom { func, .. } ==> forall|
        raw: Seq<char>,
        a: Result<T, Seq<char>>,
        b: Result<T, Seq<char>>,
    |
        #![trigger custom_outcome(func, raw, a), custom_outcome(func, raw, b)]
        custom_outcome(func, raw, a) && custom_outcome(func, raw, b) ==> a == b
}

/// Whether the field at `at` cannot fail on the text captured for it.
pub open spec fn never_fails<T, C: Fn(&str) -> Result<T, String>>(
    fields: Seq<FieldSpec<T, C>>,
    groups: Map<Seq<char>, Seq<char>>,
    at: int,
) -> bool {
    forall|cause: ConversionErrorView| !(#[trigger] fields[at].converts(
        field_text(fields, groups, at),
        Err(cause),
    ))
}

/// What a custom function returned, read back from the result that it was
/// wrapped into.
spec fn returned<T>(r: Result<ValueView<T>, ConversionErrorView>) -> Result<T, Seq<char>>
    recommends
        r matches Ok(v) ==> v is Custom,
        r matches Err(e) ==> e.reason is Rejected,
{
    match r {
        Ok(v) => Ok(v->Custom_0),
        Err(e) => Err(e.reason->Rejected_0),
    }
}

/// A single-valued field has at most one result for a text.
pub proof fn conversion_is_a_function<T, C: Fn(&str) -> Result<T, String>>(
    field: FieldSpec<T, C>,
    raw: Seq<char>,
    a: Result<ValueView<T>, ConversionErrorView>,
    b: Result<ValueView<T>, ConversionErrorView>,
)
    requires
        single_valued(field),
        field.converts(raw, a),
        field.converts(raw, b),
    ensures
        a == b,
{
    match field.converter() {
        Converter::Parse(_) => {},
        Converter::Custom { func, .. } => {
            assert(custom_outcome(func, raw, returned(a)));
            assert(custom_outcome(func, raw, returned(b)));
            assert(returned(a) == returned(b));
        },
    }
}

/// Where the pattern matches and no field can fail on its text, extraction
/// gives a record, and each of its values is a conversion of the text
/// captured for its field.
pub proof fn convertible_input_gives_record<T, C: Fn(&str) -> Result<T, String>>(
    struct_name: Seq<char>,
    pattern: Seq<char>,
    fields: Seq<FieldSpec<T, C>>,
    input: Seq<char>,
    r: Result<RecordView<T>, ExtractionErrorView>,
)
    requires
        extracted(struct_name, pattern, fields, input, r),
        regex_groups(pattern, input) is Some,
        forall|i: int|
            0 <= i < fields.len() ==> #[trigger] never_fails(
                fields,
                regex_groups(pattern, input)->0,
                i,
            ),
    ensures
        r is Ok,
        r->Ok_0.values.len() == fields.len(),
        forall|i: int|
            0 <= i < fields.len() ==> (#[trigger] fields[i]).converts(
                field_text(fields, regex_groups(pattern, input)->0, i),
                Ok(r->Ok_0.values[i]),
            ),
{
    let groups = regex_groups(pattern, input)->0;
    if let Err(ExtractionErrorView::FieldFailed { cause, .. }) = r {
        let at = choose|at: int| #![trigger fields[at]] fails_first_at(fields, groups, at, cause);
        assert(never_fails(fields, groups, at));
    }
}

/// Where the pattern matches nowhere in the input, extraction gives
/// `NoMatch` and nothing else; where it matches, it never gives `NoMatch`.
pub proof fn no_match_exactly_without_a_match<T, C: Fn(&str) -> Result<T, String>>(
    struct_name: Seq<char>,
    pattern: Seq<char>,
    fields: Seq<FieldSpec<T, C>>,
    input: Seq<char>,
    r: Result<RecordView<T>, ExtractionErrorView>,
)
    requires
        extracted(struct_name, pattern, fields, input, r),
    ensures
        regex_groups(pattern, input) is None <==> r == Err::<RecordView<T>, ExtractionErrorView>(
            ExtractionErrorView::NoMatch { struct_name },
        ),
        regex_groups(pattern, input) is None <==> (r matches Err(e) && e is NoMatch),
{
}

/// Where the field at `at` cannot be converted and no field before it can
/// fail, every result of the conversion is the failure of that field, under
/// its name.
pub proof fn failing_field_is_named<T, C: Fn(&str) -> Result<T, String>>(
    struct_name: Seq<char>,
    fields: Seq<FieldSpec<T, C>>,
    groups: Map<Seq<char>, Seq<char>>,
    at: int,
    r: Result<RecordView<T>, ExtractionErrorView>,
)
    requires
        assembled(struct_name, fields, groups, r),
        0 <= at < fields.len(),
        !convertible(fields, groups, at),
        forall|i: int| 0 <= i < at ==> #[trigger] never_fails(fields, groups, i),
    ensures
        r matches Err(ExtractionErrorView::FieldFailed { struct_name: of, field_name, cause })
            && of == struct_name && field_name == fields[at].name() && cause.field
            == fields[at].name() && fields[at].converts(field_text(fields, groups, at), Err(cause)),
{
    match r {
        Ok(record) => {
            assert(fields[at].converts(field_text(fields, groups, at), Ok(record.values[at])));
        },
        Err(ExtractionErrorView::NoMatch { .. }) => {},
        Err(ExtractionErrorView::FieldFailed { cause, .. }) => {
            let k = choose|k: int| #![trigger fields[k]] fails_first_at(fields, groups, k, cause);
            if k < at {
                assert(never_fails(fields, groups, k));
            } else if k > at {
                assert(convertible(fields, groups, at));
            }
        },
    }
}

/// A failure is decided by the fields up to the one that failed: the same
/// failure results whatever fields are declared after it.
pub proof fn later_fields_are_not_consulted<T, C: Fn(&str) -> Result<T, String>>(
    struct_name: Seq<char>,
    fields: Seq<FieldSpec<T, C>>,
    others: Seq<FieldSpec<T, C>>,
    groups: Map<Seq<char>, Seq<char>>,
    at: int,
    e: ExtractionErrorView,
)
    requires
        e matches ExtractionErrorView::FieldFailed { struct_name: of, field_name, cause } && of
            == struct_name && field_name == fields[at].name() && cause.field == field_name
            && fails_first_at(fields, groups, at, cause),
        at < others.len(),
        others.take(at + 1) == fields.take(at + 1),
    ensures
        assembled(struct_name, fields, groups, Err::<RecordView<T>, ExtractionErrorView>(e)),
        assembled(struct_name, others, groups, Err::<RecordView<T>, ExtractionErrorView>(e)),
{
    assert forall|i: int| 0 <= i <= at implies others[i] == fields[i] by {
        assert(others[i] == others.take(at + 1)[i]);
        assert(fields[i] == fields.take(at + 1)[i]);
    }
    assert(others[at] == fields[at]);
    assert forall|i: int| 0 <= i < at implies #[trigger] convertible(others, groups, i) by {
        assert(convertible(fields, groups, i));
        assert(others[i] == fields[i]);
        let v = choose|v: ValueView<T>| #[trigger]
            fields[i].converts(field_text(fields, groups, i), Ok(v));
        assert(others[i].converts(field_text(others, groups, i), Ok(v)));
    }
    assert(fails_first_at(others, groups, at, e->cause));
}

/// A field whose group took no part in the match is converted from the
/// empty text: its value in the record is what its converter makes of that.
pub proof fn absent_group_reads_as_empty<T, C: Fn(&str) -> Result<T, String>>(
    struct_name: Seq<char>,
    fields: Seq<FieldSpec<T, C>>,
    groups: Map<Seq<char>, Seq<char>>,
    record: RecordView<T>,
    at: int,
)
    requires
        assembled(struct_name, fields, groups, Ok::<RecordView<T>, ExtractionErrorView>(record)),
        0 <= at < fields.len(),
        !groups.contains_key(fields[at].name()),
    ensures
        fields[at].converts(Seq::empty(), Ok(record.values[at])),
{
    assert(fields[at].converts(field_text(fields, groups, at), Ok(record.values[at])));
}

/// Extracting twice from the same input with the same registered struct
/// gives the same result, where each converter is a function of its text.
pub proof fn extraction_is_repeatable<T, C: Fn(&str) -> Result<T, String>>(
    struct_name: Seq<char>,
    pattern: Seq<char>,
    fields: Seq<FieldSpec<T, C>>,
    input: Seq<char>,
    first: Result<RecordView<T>, ExtractionErrorView>,
    second: Result<RecordView<T>, ExtractionErrorView>,
)
    requires
        forall|i: int| 0 <= i < fields.len() ==> single_valued(#[trigger] fields[i]),
        extracted(struct_name, pattern, fields, input, first),
        extracted(struct_name, pattern, fields, input, second),
    ensures
        first == second,
{
    match regex_groups(pattern, input) {
        None => {},
        Some(groups) => {
            match (first, second) {
                (Ok(a), Ok(b)) => {
                    assert forall|i: int| 0 <= i < fields.len() implies a.values[i]
                        == b.values[i] by {
                        conversion_is_a_function(
                            fields[i],
                            field_text(fields, groups, i),
                            Ok(a.values[i]),
                            Ok(b.values[i]),
                        );
                    }
                    assert(a.values =~= b.values);
                },
                (Ok(a), Err(e)) => {
                    record_excludes_failure(struct_name, fields, groups, a, e);
                },
                (Err(e), Ok(b)) => {
                    record_excludes_failure(struct_name, fields, groups, b, e);
                },
                (
                    Err(ExtractionErrorView::FieldFailed { cause: c1, .. }),
                    Err(ExtractionErrorView::FieldFailed { cause: c2, .. }),
                ) => {
                    let k1 = choose|k: int|
                        #![trigger fields[k]]
                        fails_first_at(fields, groups, k, c1) && first->Err_0->field_name
                            == fields[k].name();
                    let k2 = choose|k: int|
                        #![trigger fields[k]]
                        fails_first_at(fields, groups, k, c2) && second->Err_0->field_name
                            == fields[k].name();
                    if k1 < k2 {
                        success_excludes_failure(fields, groups, k1, c1);
                        assert(convertible(fields, groups, k1));
                    } else if k2 < k1 {
                        success_excludes_failure(fields, groups, k2, c2);
                        assert(convertible(fields, groups, k2));
                    } else {
                        conversion_is_a_function(
                            fields[k1],
                            field_text(fields, groups, k1),
                            Err(c1),
                            Err(c2),
                        );
                    }
                },
                _ => {},
            }
        },
    }
}

/// A single-valued field that fails on its text cannot also be converted
/// from it.
proof fn success_excludes_failure<T, C: Fn(&str) -> Result<T, String>>(
    fields: Seq<FieldSpec<T, C>>,
    groups: Map<Seq<char>, Seq<char>>,
    at: int,
    cause: ConversionErrorView,
)
    requires
        0 <= at < fields.len(),
        single_valued(fields[at]),
        fields[at].converts(field_text(fields, groups, at), Err(cause)),
    ensures
        !convertible(fields, groups, at),
{
    if convertible(fields, groups, at) {
        let v = choose|v: ValueView<T>| #[trigger]
            fields[at].converts(field_text(fields, groups, at), Ok(v));
        conversion_is_a_function(fields[at], field_text(fields, groups, at), Ok(v), Err(cause));
    }
}

/// With single-valued fields, the same groups cannot give both a record and
/// a failure.
proof fn record_excludes_failure<T, C: Fn(&str) -> Result<T, String>>(
    struct_name: Seq<char>,
    fields: Seq<FieldSpec<T, C>>,
    groups: Map<Seq<char>, Seq<char>>,
    record: RecordView<T>,
    e: ExtractionErrorView,
)
    requires
        forall|i: int| 0 <= i < fields.len() ==> single_valued(#[trigger] fields[i]),
        assembled(struct_name, fields, groups, Ok::<RecordView<T>, ExtractionErrorView>(record)),
    ensures
        !assembled(struct_name, fields, groups, Err::<RecordView<T>, ExtractionErrorView>(e)),
{
    if assembled(struct_name, fields, groups, Err::<RecordView<T>, ExtractionErrorView>(e)) {
        let cause = e->cause;
        let k = choose|k: int| #![trigger fields[k]] fails_first_at(fields, groups, k, cause);
        success_excludes_failure(fields, groups, k, cause);
        assert(fields[k].converts(field_text(fields, groups, k), Ok(record.values[k])));
    }
}

} // verus!
