//! What this library takes on trust from the `regex` crate.
//!
//! Nothing in this file is proved. Each item states, as a contract, what the
//! crate's documentation and source say of one of its functions; the rest of
//! the library is verified against these contracts.

use vstd::prelude::*;

verus! {

/// A compiled regular expression, opaque to the verifier.
#[verifier::external_type_specification]
#[verifier::external_body]
pub struct ExRegex(regex::Regex);

/// The groups of one match, opaque to the verifier.
#[verifier::external_type_specification]
#[verifier::external_body]
pub struct ExCaptures<'h>(regex::Captures<'h>);

/// Why a pattern could not be compiled, opaque to the verifier.
#[verifier::external_type_specification]
#[verifier::external_body]
pub struct ExError(regex::Error);

/// The pattern text that `re` was compiled from: what `Regex::as_str`
/// returns.
pub uninterp spec fn regex_source(re: regex::Regex) -> Seq<char>;

/// Whether `re` is as `Regex::new` makes a regex from its pattern text: no
/// option of a `RegexBuilder` was set on it.
pub uninterp spec fn regex_is_plain(re: regex::Regex) -> bool;

/// Whether `Regex::new` accepts `pattern`.
pub uninterp spec fn regex_accepts(pattern: Seq<char>) -> bool;

/// What `Regex::capture_names` yields for a regex that `Regex::new` compiled
/// from `pattern`: one item for each capture group in the order of their
/// opening parentheses, the group's name where it has one.
pub uninterp spec fn regex_names(pattern: Seq<char>) -> Seq<Option<Seq<char>>>;

/// What `Regex::captures` finds when a regex that `Regex::new` compiled from
/// `pattern` searches `input`: nothing where there is no match, else for the
/// leftmost match the text of each named group that took part in it.
pub uninterp spec fn regex_groups(pattern: Seq<char>, input: Seq<char>) -> Option<
    Map<Seq<char>, Seq<char>>,
>;

/// What `caps` holds: the text of each named group that took part in the
/// match, by the group's name.
pub uninterp spec fn captured(caps: regex::Captures) -> Map<Seq<char>, Seq<char>>;

/// Calls `Regex::new`. Success is a function of the pattern alone, and a
/// compiled regex remembers the text it was compiled from.
#[verifier::external_body]
pub(crate) fn compile_regex(pattern: &str) -> (r: Result<regex::Regex, regex::Error>)
    ensures
        r is Ok <==> regex_accepts(pattern@),
        r matches Ok(re) ==> regex_is_plain(re) && regex_source(re) == pattern@,
{
    regex::Regex::new(pattern)
}

/// Calls `Regex::as_str`, which returns the pattern text.
#[verifier::external_body]
pub(crate) fn regex_text(re: &regex::Regex) -> (r: &str)
    ensures
        r@ == regex_source(*re),
{
    re.as_str()
}

/// Calls `Regex::capture_names` and copies each name. The groups of a plain
/// regex are a function of its pattern text.
#[verifier::external_body]
pub(crate) fn group_names(re: &regex::Regex) -> (r: Vec<Option<String>>)
    requires
        regex_is_plain(*re),
    ensures
        r@.len() == regex_names(regex_source(*re)).len(),
        forall|i: int|
            0 <= i < r@.len() ==> (match #[trigger] r@[i] {
                Some(name) => regex_names(regex_source(*re))[i] == Some(name@),
                None => regex_names(regex_source(*re))[i] is None,
            }),
{
    re.capture_names().map(|name| name.map(|s| s.to_string())).collect()
}

/// Calls `Regex::captures`. What a plain regex finds is a function of its
/// pattern text and the input alone, and only groups of the pattern can take
/// part in a match.
#[verifier::external_body]
pub(crate) fn find_captures<'h>(re: &regex::Regex, input: &'h str) -> (r: Option<
    regex::Captures<'h>,
>)
    requires
        regex_is_plain(*re),
    ensures
        match r {
            Some(caps) => {
                &&& regex_groups(regex_source(*re), input@) == Some(captured(caps))
                &&& forall|name: Seq<char>| #[trigger]
                    captured(caps).contains_key(name) ==> regex_names(regex_source(*re)).contains(
                        Some(name),
                    )
            },
            None => regex_groups(regex_source(*re), input@) is None,
        },
{
    re.captures(input)
}

/// Calls `Captures::name`, and `Match::as_str` on what it finds: the text of
/// the group `name` where that group took part in the match.
#[verifier::external_body]
pub(crate) fn group_text<'h>(caps: &regex::Captures<'h>, name: &str) -> (r: Option<&'h str>)
    ensures
        match r {
            Some(text) => captured(*caps).contains_key(name@) && captured(*caps)[name@] == text@,
            None => !captured(*caps).contains_key(name@),
        },
{
    caps.name(name).map(|m| m.as_str())
}

/// Formats a `regex::Error` through its `Display` impl.
#[verifier::external_body]
pub(crate) fn error_text(error: &regex::Error) -> (r: String) {
    error.to_string()
}

} // verus!
