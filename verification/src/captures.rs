//! The named groups of one match, as plain text.

use crate::text::same_text;
use vstd::prelude::*;

verus! {

/// The map that a list of name and text pairs stands for: a later pair
/// replaces an earlier one of the same name.
pub open spec fn pairs_map(pairs: Seq<(Seq<char>, Seq<char>)>) -> Map<Seq<char>, Seq<char>>
    decreases pairs.len(),
{
    if pairs.len() == 0 {
        Map::empty()
    } else {
        pairs_map(pairs.drop_last()).insert(pairs.last().0, pairs.last().1)
    }
}

/// The text that a field reads from `groups`: that of the group called
/// `name`, or the empty text where no such group took part in the match.
pub open spec fn raw_text(groups: Map<Seq<char>, Seq<char>>, name: Seq<char>) -> Seq<char> {
    if groups.contains_key(name) {
        groups[name]
    } else {
        Seq::empty()
    }
}

/// The last pair of a name decides what the map holds for it.
proof fn pairs_map_found(pairs: Seq<(Seq<char>, Seq<char>)>, name: Seq<char>, at: int)
    requires
        0 <= at < pairs.len(),
        pairs[at].0 == name,
        forall|j: int| at < j < pairs.len() ==> pairs[j].0 != name,
    ensures
        pairs_map(pairs).contains_key(name),
        pairs_map(pairs)[name] == pairs[at].1,
    decreases pairs.len(),
{
    if at < pairs.len() - 1 {
        pairs_map_found(pairs.drop_last(), name, at);
    }
}

/// A name that no pair has is not in the map.
proof fn pairs_map_missing(pairs: Seq<(Seq<char>, Seq<char>)>, name: Seq<char>)
    requires
        forall|j: int| 0 <= j < pairs.len() ==> pairs[j].0 != name,
    ensures
        !pairs_map(pairs).contains_key(name),
    decreases pairs.len(),
{
    if pairs.len() > 0 {
        pairs_map_missing(pairs.drop_last(), name);
    }
}

/// The text of each named group that took part in a match.
#[derive(Clone, Debug)]
pub struct CaptureSet {
    entries: Vec<(String, String)>,
}

impl CaptureSet {
    /// The entries as pairs of texts, in the order in which they were added.
    pub closed spec fn pairs(&self) -> Seq<(Seq<char>, Seq<char>)> {
        self.entries@.map_values(|e: (String, String)| (e.0@, e.1@))
    }

    /// A set with no group in it.
    pub fn new() -> (r: CaptureSet)
        ensures
            r@ == Map::<Seq<char>, Seq<char>>::empty(),
    {
        let r = CaptureSet { entries: Vec::new() };
        assert(r.pairs() =~= Seq::empty());
        r
    }

    /// Records that the group `name` matched `text`.
    pub fn insert(&mut self, name: &str, text: &str)
        ensures
            final(self)@ == old(self)@.insert(name@, text@),
    {
        let ghost before = self.pairs();
        self.entries.push((name.to_owned(), text.to_owned()));
        proof {
            assert(self.pairs().drop_last() =~= before);
            assert(self.pairs().last() == (name@, text@));
        }
    }

    /// The text of the group `name`, where it took part in the match.
    pub fn get(&self, name: &str) -> (r: Option<&str>)
        ensures
            match r {
                Some(text) => self@.contains_key(name@) && self@[name@] == text@,
                None => !self@.contains_key(name@),
            },
    {
        let mut i: usize = self.entries.len();
        while i > 0
            invariant
                i <= self.entries.len(),
                forall|j: int| i <= j < self.pairs().len() ==> self.pairs()[j].0 != name@,
            decreases i,
        {
            i -= 1;
            if same_text(self.entries[i].0.as_str(), name) {
                proof {
                    pairs_map_found(self.pairs(), name@, i as int);
                }
                return Some(self.entries[i].1.as_str());
            }
        }
        proof {
            pairs_map_missing(self.pairs(), name@);
        }
        None
    }

    /// The text that a field called `name` is converted from: that of its
    /// group, or the empty text where the group took no part in the match.
    pub fn text(&self, name: &str) -> (r: &str)
        ensures
            r@ == raw_text(self@, name@),
    {
        match self.get(name) {
            Some(text) => text,
            None => {
                proof {
                    reveal_strlit("");
                }
                assert(""@ =~= Seq::<char>::empty());
                ""
            },
        }
    }
}

impl View for CaptureSet {
    type V = Map<Seq<char>, Seq<char>>;

    closed spec fn view(&self) -> Map<Seq<char>, Seq<char>> {
        pairs_map(self.pairs())
    }
}

} // verus!
