//! A registered struct: its pattern, its fields, and extraction.

use crate::backend::regex_accepts;
use crate::captures::CaptureSet;
use crate::error::{ConfigError, ExtractionError};
use crate::field::FieldSpec;
use crate::laws::accepted_fields_have_groups;
use crate::text::{find_name, name_views, same_text};
use crate::outcome::{
    assembled, consistent, convertible, extracted, extraction_view, fails_first_at, field_names,
    field_text, first_lacking, first_repeat, lacks_group, names_distinct, pattern_groups,
    repeats_at,
};
use crate::pattern::{has_group, Pattern};
use crate::record::{value_views, Record};
use crate::value::Value;
use vstd::prelude::*;

verus! {

/// The first field, in the order of declaration, whose name an earlier field
/// has.
pub fn first_repeated_field<T, C: Fn(&str) -> Result<T, String>>(
    fields: &Vec<FieldSpec<T, C>>,
) -> (r: Option<usize>)
    ensures
        match r {
            Some(at) => first_repeat(field_names(fields@), at as int),
            None => names_distinct(field_names(fields@)),
        },
{
    let ghost names = field_names(fields@);
    let mut j: usize = 0;
    while j < fields.len()
        invariant
            j <= fields.len(),
            names == field_names(fields@),
            forall|k: int| 0 <= k < j ==> !repeats_at(names, k),
        decreases fields.len() - j,
    {
        let mut i: usize = 0;
        while i < j
            invariant
                i <= j < fields.len(),
                names == field_names(fields@),
                forall|k: int| 0 <= k < j ==> !repeats_at(names, k),
                forall|k: int| 0 <= k < i ==> names[k] != names[j as int],
            decreases j - i,
        {
            if same_text(fields[i].field_name(), fields[j].field_name()) {
                assert(names[i as int] == names[j as int]);
                return Some(j);
            }
            i += 1;
        }
        j += 1;
    }
    assert forall|i: int, j: int| 0 <= i < j < names.len() implies names[i] != names[j] by {
        assert(!repeats_at(names, j));
    }
    None
}

/// The first field, in the order of declaration, that needs a capture group
/// and has none of its name among `groups`.
pub fn first_lacking_field<T, C: Fn(&str) -> Result<T, String>>(
    fields: &Vec<FieldSpec<T, C>>,
    groups: &Vec<String>,
) -> (r: Option<usize>)
    ensures
        match r {
            Some(at) => first_lacking(name_views(groups@), fields@, at as int),
            None => forall|k: int|
                0 <= k < fields.len() ==> !lacks_group(name_views(groups@), #[trigger] fields@[k]),
        },
{
    let mut k: usize = 0;
    while k < fields.len()
        invariant
            k <= fields.len(),
            forall|i: int| 0 <= i < k ==> !lacks_group(name_views(groups@), #[trigger] fields@[i]),
        decreases fields.len() - k,
    {
        if fields[k].requires_group() && find_name(groups, fields[k].field_name()).is_none() {
            return Some(k);
        }
        k += 1;
    }
    None
}

/// A struct's description, checked once: a name, one compiled pattern, and
/// the fields in the order of declaration. It is never changed afterwards,
/// and every extraction reads it through a shared reference.
#[verifier::reject_recursive_types(T)]
pub struct StructSpec<T, C: Fn(&str) -> Result<T, String>> {
    name: String,
    pattern: Pattern,
    fields: Vec<FieldSpec<T, C>>,
}

impl<T, C: Fn(&str) -> Result<T, String>> StructSpec<T, C> {
    /// No two fields share a name, and each field that needs a capture group
    /// has one in the pattern.
    #[verifier::type_invariant]
    closed spec fn fitted(&self) -> bool {
        consistent(pattern_groups(self.pattern@), self.fields@)
    }

    /// The struct's name.
    pub closed spec fn name(&self) -> Seq<char> {
        self.name@
    }

    /// The text of the pattern.
    pub closed spec fn pattern(&self) -> Seq<char> {
        self.pattern@
    }

    /// The fields, in the order of declaration.
    pub closed spec fn fields(&self) -> Seq<FieldSpec<T, C>> {
        self.fields@
    }

    /// Whether `r` is what checking `fields` against a compiled pattern
    /// gives. The names are judged first, then the groups; of several
    /// offending fields the first in the order of declaration is named.
    pub open spec fn checked(
        name: Seq<char>,
        pattern: Seq<char>,
        fields: Seq<FieldSpec<T, C>>,
        r: Result<Self, ConfigError>,
    ) -> bool {
        match r {
            Ok(spec) => {
                &&& consistent(pattern_groups(pattern), fields)
                &&& spec.name() == name
                &&& spec.pattern() == pattern
                &&& spec.fields() == fields
            },
            Err(ConfigError::MalformedPattern(_)) => false,
            Err(ConfigError::DuplicateField { struct_name, field_name }) => {
                &&& struct_name@ == name
                &&& exists|at: int|
                    first_repeat(field_names(fields), at) && field_name@ == #[trigger] fields[at].name()
            },
            Err(ConfigError::MissingGroup { struct_name, field_name }) => {
                &&& names_distinct(field_names(fields))
                &&& struct_name@ == name
                &&& exists|at: int|
                    first_lacking(pattern_groups(pattern), fields, at) && field_name@
                        == #[trigger] fields[at].name()
            },
        }
    }

    /// Whether `r` is what registering the description gives:
    /// `MalformedPattern` exactly where the `regex` crate refuses the
    /// pattern, else what checking the fields against it gives.
    pub open spec fn registered(
        name: Seq<char>,
        pattern: Seq<char>,
        fields: Seq<FieldSpec<T, C>>,
        r: Result<Self, ConfigError>,
    ) -> bool {
        if regex_accepts(pattern) {
            Self::checked(name, pattern, fields, r)
        } else {
            r matches Err(ConfigError::MalformedPattern(e)) && e.pattern@ == pattern
        }
    }

    /// Checks `fields` against a compiled pattern.
    pub fn with_pattern(name: &str, pattern: Pattern, fields: Vec<FieldSpec<T, C>>) -> (r: Result<
        Self,
        ConfigError,
    >)
        ensures
            Self::checked(name@, pattern@, fields@, r),
    {
        match first_repeated_field(&fields) {
            Some(at) => {
                return Err(
                    ConfigError::DuplicateField {
                        struct_name: name.to_owned(),
                        field_name: fields[at].field_name().to_owned(),
                    },
                );
            },
            None => {},
        }
        match first_lacking_field(&fields, pattern.group_list()) {
            Some(at) => {
                return Err(
                    ConfigError::MissingGroup {
                        struct_name: name.to_owned(),
                        field_name: fields[at].field_name().to_owned(),
                    },
                );
            },
            None => {},
        }
        Ok(StructSpec { name: name.to_owned(), pattern, fields })
    }

    /// Registers a struct: compiles `pattern` and checks `fields` against it.
    pub fn new(name: &str, pattern: &str, fields: Vec<FieldSpec<T, C>>) -> (r: Result<
        Self,
        ConfigError,
    >)
        ensures
            Self::registered(name@, pattern@, fields@, r),
    {
        match Pattern::compile(pattern) {
            Ok(compiled) => Self::with_pattern(name, compiled, fields),
            Err(e) => Err(ConfigError::MalformedPattern(e)),
        }
    }

    /// The struct's name.
    pub fn struct_name(&self) -> (r: &str)
        ensures
            r@ == self.name(),
    {
        self.name.as_str()
    }

    /// The text of the pattern.
    pub fn pattern_text(&self) -> (r: &str)
        ensures
            r@ == self.pattern(),
    {
        self.pattern.as_str()
    }

    /// The number of fields. No two of them share a name.
    pub fn field_count(&self) -> (r: usize)
        ensures
            r == self.fields().len(),
            names_distinct(field_names(self.fields())),
    {
        proof {
            use_type_invariant(self);
        }
        self.fields.len()
    }

    /// The field at `index`, counting from zero in the order of declaration.
    /// Where it needs a capture group, the pattern has one of its name.
    pub fn field(&self, index: usize) -> (r: Option<&FieldSpec<T, C>>)
        ensures
            match r {
                Some(field) => {
                    &&& index < self.fields().len()
                    &&& *field == self.fields()[index as int]
                    &&& field.needs_group() ==> has_group(self.pattern(), field.name())
                },
                None => index >= self.fields().len(),
            },
    {
        if index < self.fields.len() {
            proof {
                use_type_invariant(self);
                if self.fields@[index as int].needs_group() {
                    accepted_fields_have_groups(self.pattern@, self.fields@, index as int);
                }
            }
            Some(&self.fields[index])
        } else {
            None
        }
    }

    /// Converts the fields, in the order of declaration, from the groups of
    /// one match, and stops at the first field that cannot be converted.
    pub fn assemble(&self, captures: &CaptureSet) -> (r: Result<Record<T>, ExtractionError>)
        ensures
            assembled(self.name(), self.fields(), captures@, extraction_view(r)),
    {
        let mut names: Vec<String> = Vec::new();
        let mut values: Vec<Value<T>> = Vec::new();
        let mut i: usize = 0;
        while i < self.fields.len()
            invariant
                i <= self.fields.len(),
                names.len() == i,
                values.len() == i,
                name_views(names@) == field_names(self.fields@).take(i as int),
                forall|j: int|
                    0 <= j < i ==> (#[trigger] self.fields@[j]).converts(
                        field_text(self.fields@, captures@, j),
                        Ok(values@[j]@),
                    ),
            decreases self.fields.len() - i,
        {
            let field = &self.fields[i];
            let raw = captures.text(field.field_name());
            match field.convert(raw) {
                Ok(value) => {
                    let ghost before = name_views(names@);
                    names.push(field.field_name().to_owned());
                    values.push(value);
                    proof {
                        assert(name_views(names@) =~= before.push(field.name()));
                        assert(field_names(self.fields@).take(i + 1) =~= field_names(
                            self.fields@,
                        ).take(i as int).push(field.name()));
                    }
                },
                Err(cause) => {
                    proof {
                        assert forall|j: int| 0 <= j < i implies #[trigger] convertible(
                            self.fields@,
                            captures@,
                            j,
                        ) by {
                            assert(self.fields@[j].converts(
                                field_text(self.fields@, captures@, j),
                                Ok(values@[j]@),
                            ));
                        }
                        assert(fails_first_at(self.fields@, captures@, i as int, cause@));
                    }
                    return Err(
                        ExtractionError::FieldFailed {
                            struct_name: self.name.clone(),
                            field_name: field.field_name().to_owned(),
                            cause,
                        },
                    );
                },
            }
            i += 1;
        }
        proof {
            assert(field_names(self.fields@).take(i as int) =~= field_names(self.fields@));
            assert(value_views(values@).len() == self.fields@.len());
        }
        Ok(Record::from_parts(self.name.clone(), names, values))
    }

    /// Extracts a record from `input`: matches the pattern, then converts
    /// each field from its capture group.
    pub fn parse(&self, input: &str) -> (r: Result<Record<T>, ExtractionError>)
        ensures
            extracted(self.name(), self.pattern(), self.fields(), input@, extraction_view(r)),
    {
        match self.pattern.match_input(input) {
            None => Err(ExtractionError::NoMatch { struct_name: self.name.clone() }),
            Some(captures) => self.assemble(&captures),
        }
    }
}

} // verus!
