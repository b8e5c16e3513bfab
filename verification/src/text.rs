//! Comparing texts and finding a name in a list.

use vstd::prelude::*;
use vstd::std_specs::iter::IteratorSpec;

verus! {

/// The texts of `names`.
pub open spec fn name_views(names: Seq<String>) -> Seq<Seq<char>> {
    names.map_values(|n: String| n@)
}

/// Whether `at` is the first place where `names` holds `name`.
pub open spec fn first_at(names: Seq<Seq<char>>, name: Seq<char>, at: int) -> bool {
    &&& 0 <= at < names.len()
    &&& names[at] == name
    &&& forall|j: int| 0 <= j < at ==> names[j] != name
}

/// Whether `a` and `b` are the same text.
pub fn same_text(a: &str, b: &str) -> (r: bool)
    ensures
        r == (a@ == b@),
{
    let mut rest = b.chars();
    for c in it: a.chars()
        invariant
            it.seq() == a@,
            rest.obeys_prophetic_iter_laws(),
            it.index() <= b@.len(),
            rest.remaining() == b@.skip(it.index()),
            a@.take(it.index()) == b@.take(it.index()),
    {
        let ghost at = it.index();
        match rest.next() {
            Some(d) => {
                if c != d {
                    assert(a@[at] != b@[at]);
                    return false;
                }
                assert(b@.skip(at).drop_first() =~= b@.skip(at + 1));
                assert(a@.take(at + 1) =~= a@.take(at).push(c));
                assert(b@.take(at + 1) =~= b@.take(at).push(d));
            },
            None => {
                assert(b@.len() == at);
                return false;
            },
        }
    }
    assert(a@.take(a@.len() as int) =~= a@);
    match rest.next() {
        Some(_) => false,
        None => {
            assert(b@.take(b@.len() as int) =~= b@);
            true
        },
    }
}

/// The first place where `names` holds `name`.
pub fn find_name(names: &Vec<String>, name: &str) -> (r: Option<usize>)
    ensures
        match r {
            Some(at) => first_at(name_views(names@), name@, at as int),
            None => !name_views(names@).contains(name@),
        },
{
    let mut i: usize = 0;
    while i < names.len()
        invariant
            i <= names.len(),
            forall|j: int| 0 <= j < i ==> name_views(names@)[j] != name@,
        decreases names.len() - i,
    {
        if same_text(names[i].as_str(), name) {
            return Some(i);
        }
        i += 1;
    }
    None
}

} // verus!
