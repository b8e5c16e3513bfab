//! A compiled pattern and the names of its groups.

use crate::backend::{
    captured, compile_regex, error_text, find_captures, group_names, group_text, regex_accepts,
    regex_groups, regex_is_plain, regex_names, regex_source, regex_text,
};
use crate::captures::CaptureSet;
use crate::text::{find_name, name_views};
use vstd::prelude::*;

verus! {

/// Whether a regex compiled from `pattern` has a capture group called `name`.
pub open spec fn has_group(pattern: Seq<char>, name: Seq<char>) -> bool {
    regex_names(pattern).contains(Some(name))
}

/// The names among `listed`, in the same order: a group without a name is
/// left out.
pub open spec fn named(listed: Seq<Option<Seq<char>>>) -> Seq<Seq<char>>
    decreases listed.len(),
{
    if listed.len() == 0 {
        Seq::empty()
    } else {
        match listed.last() {
            Some(name) => named(listed.drop_last()).push(name),
            None => named(listed.drop_last()),
        }
    }
}

/// The texts of `listed`.
pub open spec fn listed_views(listed: Seq<Option<String>>) -> Seq<Option<Seq<char>>> {
    listed.map_values(
        |o: Option<String>|
            match o {
                Some(name) => Some(name@),
                None => None,
            },
    )
}

/// What is left of `found` when only the groups called as in `names` are
/// kept.
pub open spec fn kept(found: Map<Seq<char>, Seq<char>>, names: Seq<Seq<char>>) -> Map<
    Seq<char>,
    Seq<char>,
> {
    found.restrict(Set::new(|name: Seq<char>| names.contains(name)))
}

/// The view of what a match returns.
pub open spec fn groups_view(r: Option<CaptureSet>) -> Option<Map<Seq<char>, Seq<char>>> {
    match r {
        Some(set) => Some(set@),
        None => None,
    }
}

/// `named` keeps each name and adds none.
pub proof fn named_holds_the_names(listed: Seq<Option<Seq<char>>>, name: Seq<char>)
    ensures
        named(listed).contains(name) <==> listed.contains(Some(name)),
    decreases listed.len(),
{
    if listed.len() > 0 {
        let front = listed.drop_last();
        named_holds_the_names(front, name);
        assert(listed =~= front.push(listed.last()));
        vstd::seq_lib::lemma_seq_contains_after_push(front, listed.last(), Some(name));
        match listed.last() {
            Some(last) => {
                vstd::seq_lib::lemma_seq_contains_after_push(named(front), last, name);
            },
            None => {},
        }
    }
}

/// The names among `listed`, in the same order.
pub fn named_groups(listed: &Vec<Option<String>>) -> (r: Vec<String>)
    ensures
        name_views(r@) == named(listed_views(listed@)),
{
    let mut groups: Vec<String> = Vec::new();
    let mut i: usize = 0;
    assert(listed_views(listed@).take(0) =~= Seq::empty());
    while i < listed.len()
        invariant
            i <= listed.len(),
            name_views(groups@) == named(listed_views(listed@).take(i as int)),
        decreases listed.len() - i,
    {
        let ghost before = name_views(groups@);
        let ghost seen = listed_views(listed@).take(i as int);
        assert(listed_views(listed@).take(i + 1).drop_last() =~= seen);
        match &listed[i] {
            Some(name) => {
                groups.push(name.clone());
                assert(name_views(groups@) =~= before.push(name@));
            },
            None => {},
        }
        i += 1;
    }
    assert(listed_views(listed@).take(i as int) =~= listed_views(listed@));
    groups
}

/// Copies out of `caps` the text of each group called as in `names`.
pub fn collect_groups(caps: &regex::Captures, names: &Vec<String>) -> (r: CaptureSet)
    ensures
        r@ == kept(captured(*caps), name_views(names@)),
{
    let ghost found = captured(*caps);
    let ghost all = name_views(names@);
    let mut set = CaptureSet::new();
    let mut i: usize = 0;
    while i < names.len()
        invariant
            i <= names.len(),
            found == captured(*caps),
            all == name_views(names@),
            forall|name: Seq<char>| #[trigger]
                set@.contains_key(name) <==> (found.contains_key(name) && all.take(
                    i as int,
                ).contains(name)),
            forall|name: Seq<char>| #[trigger] set@.contains_key(name) ==> set@[name] == found[name],
        decreases names.len() - i,
    {
        let ghost before = set@;
        let ghost name_i = all[i as int];
        assert(name_i == names@[i as int]@);
        match group_text(caps, names[i].as_str()) {
            Some(text) => {
                set.insert(names[i].as_str(), text);
                assert(set@ == before.insert(name_i, found[name_i]));
            },
            None => {
                assert(set@ == before);
                assert(!found.contains_key(name_i));
            },
        }
        proof {
            assert(all.take(i + 1) =~= all.take(i as int).push(name_i));
            assert forall|name: Seq<char>| #[trigger]
                set@.contains_key(name) <==> (found.contains_key(name) && all.take(i + 1).contains(
                    name,
                )) by {
                vstd::seq_lib::lemma_seq_contains_after_push(all.take(i as int), name_i, name);
            }
        }
        i += 1;
    }
    proof {
        assert(all.take(i as int) =~= all);
        assert(set@ =~= kept(found, all));
    }
    set
}

/// A pattern that the `regex` crate refused.
#[derive(Clone, Debug, PartialEq, Eq)]
pub struct PatternError {
    /// The pattern as it was given.
    pub pattern: String,
    /// What the `regex` crate says is wrong with it.
    pub message: String,
}

/// One compiled regular expression, with the names of its groups.
#[derive(Debug)]
pub struct Pattern {
    compiled: regex::Regex,
    groups: Vec<String>,
}

impl View for Pattern {
    type V = Seq<char>;

    /// The text that the pattern was compiled from.
    closed spec fn view(&self) -> Seq<char> {
        regex_source(self.compiled)
    }
}

impl Pattern {
    /// The regex is as `Regex::new` made it, and the names held are those of
    /// its named groups, in the order of their opening parentheses.
    #[verifier::type_invariant]
    closed spec fn listed(&self) -> bool {
        &&& regex_is_plain(self.compiled)
        &&& name_views(self.groups@) == named(regex_names(regex_source(self.compiled)))
    }

    /// Compiles `pattern`. This is the only place where a regex is compiled:
    /// a `Pattern` is then matched as often as wanted.
    pub fn compile(pattern: &str) -> (r: Result<Pattern, PatternError>)
        ensures
            r is Ok <==> regex_accepts(pattern@),
            r matches Ok(p) ==> p@ == pattern@,
            r matches Err(e) ==> e.pattern@ == pattern@,
    {
        match compile_regex(pattern) {
            Err(error) => Err(
                PatternError { pattern: pattern.to_owned(), message: error_text(&error) },
            ),
            Ok(compiled) => {
                let listed = group_names(&compiled);
                assert(listed_views(listed@) =~= regex_names(regex_source(compiled)));
                let groups = named_groups(&listed);
                Ok(Pattern { compiled, groups })
            },
        }
    }

    /// The text that the pattern was compiled from.
    pub fn as_str(&self) -> (r: &str)
        ensures
            r@ == self@,
    {
        regex_text(&self.compiled)
    }

    /// The names of the pattern's named groups, in the order of their
    /// opening parentheses.
    pub fn group_list(&self) -> (r: &Vec<String>)
        ensures
            name_views(r@) == named(regex_names(self@)),
    {
        proof {
            use_type_invariant(self);
        }
        &self.groups
    }

    /// Whether the pattern has a capture group called `name`.
    pub fn has_group(&self, name: &str) -> (r: bool)
        ensures
            r == has_group(self@, name@),
    {
        proof {
            use_type_invariant(self);
            named_holds_the_names(regex_names(self@), name@);
        }
        find_name(&self.groups, name).is_some()
    }

    /// Searches `input` for the leftmost match of the pattern and copies out
    /// the text of each named group that took part in it.
    pub fn match_input(&self, input: &str) -> (r: Option<CaptureSet>)
        ensures
            groups_view(r) == regex_groups(self@, input@),
    {
        proof {
            use_type_invariant(self);
        }
        match find_captures(&self.compiled, input) {
            None => None,
            Some(caps) => {
                let set = collect_groups(&caps, &self.groups);
                proof {
                    let found = captured(caps);
                    assert forall|name: Seq<char>| #[trigger]
                        found.contains_key(name) implies name_views(self.groups@).contains(
                        name,
                    ) by {
                        named_holds_the_names(regex_names(self@), name);
                    }
                    assert(set@ =~= found);
                }
                Some(set)
            },
        }
    }
}

} // verus!
