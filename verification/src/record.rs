//! A populated record.

use crate::text::{find_name, first_at, name_views};
use crate::value::{Value, ValueView};
use vstd::prelude::*;

verus! {

/// What a `Record` holds: the name of its struct and, field by field in the
/// order of declaration, a name and a value.
pub struct RecordView<T> {
    pub struct_name: Seq<char>,
    pub names: Seq<Seq<char>>,
    pub values: Seq<ValueView<T>>,
}

/// The values of `values`, each by its view.
pub open spec fn value_views<T>(values: Seq<Value<T>>) -> Seq<ValueView<T>> {
    values.map_values(|v: Value<T>| v@)
}

/// A record with every field converted. There is no record with a field
/// missing: a failed conversion gives an error in place of the record.
#[derive(Debug, PartialEq, Eq)]
pub struct Record<T> {
    struct_name: String,
    names: Vec<String>,
    values: Vec<Value<T>>,
}

impl<T> View for Record<T> {
    type V = RecordView<T>;

    closed spec fn view(&self) -> RecordView<T> {
        RecordView {
            struct_name: self.struct_name@,
            names: name_views(self.names@),
            values: value_views(self.values@),
        }
    }
}

impl<T> Record<T> {
    /// Each value has its name.
    #[verifier::type_invariant]
    closed spec fn paired(&self) -> bool {
        self.names.len() == self.values.len()
    }

    /// A record of the struct `struct_name` whose field `names[i]` holds
    /// `values[i]`; `None` where the two lists differ in length.
    pub fn new(struct_name: String, names: Vec<String>, values: Vec<Value<T>>) -> (r: Option<Self>)
        ensures
            r is Some <==> names.len() == values.len(),
            r matches Some(record) ==> record@ == (RecordView {
                struct_name: struct_name@,
                names: name_views(names@),
                values: value_views(values@),
            }),
    {
        if names.len() == values.len() {
            Some(Record { struct_name, names, values })
        } else {
            None
        }
    }

    /// A record from lists that are known to pair up.
    pub(crate) fn from_parts(struct_name: String, names: Vec<String>, values: Vec<Value<T>>) -> (r:
        Self)
        requires
            names.len() == values.len(),
        ensures
            r@ == (RecordView {
                struct_name: struct_name@,
                names: name_views(names@),
                values: value_views(values@),
            }),
    {
        Record { struct_name, names, values }
    }

    /// The name of the struct that the record is an instance of.
    pub fn struct_name(&self) -> (r: &str)
        ensures
            r@ == self@.struct_name,
    {
        self.struct_name.as_str()
    }

    /// The number of fields.
    pub fn len(&self) -> (r: usize)
        ensures
            r == self@.values.len(),
            r == self@.names.len(),
    {
        proof {
            use_type_invariant(self);
        }
        self.values.len()
    }

    /// The value of the first field called `name`.
    pub fn get(&self, name: &str) -> (r: Option<&Value<T>>)
        ensures
            match r {
                Some(value) => exists|at: int|
                    #![trigger self@.values[at]]
                    first_at(self@.names, name@, at) && at < self@.values.len() && value@
                        == self@.values[at],
                None => !self@.names.contains(name@),
            },
    {
        proof {
            use_type_invariant(self);
        }
        match find_name(&self.names, name) {
            Some(at) => {
                assert(self.values[at as int]@ == self@.values[at as int]);
                Some(&self.values[at])
            },
            None => None,
        }
    }

    /// The value of the field at `index`, counting from zero in the order of
    /// declaration.
    pub fn value_at(&self, index: usize) -> (r: Option<&Value<T>>)
        ensures
            match r {
                Some(value) => index < self@.values.len() && value@ == self@.values[index as int],
                None => index >= self@.values.len(),
            },
    {
        if index < self.values.len() {
            Some(&self.values[index])
        } else {
            None
        }
    }

    /// The values alone, in the order of declaration.
    pub fn into_values(self) -> (r: Vec<Value<T>>)
        ensures
            value_views(r@) == self@.values,
    {
        self.values
    }
}

} // verus!
