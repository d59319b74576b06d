//! Searching a text with a regular expression of the `regex` crate.
//!
//! Nothing in this file is proved. It states what the rest of the library takes
//! on trust from the `regex` crate: that compiling a pattern and searching a text
//! with it depend on the pattern and the text alone.
use vstd::prelude::*;

verus! {

/// The error of `regex::Regex::new`. Nothing is read from it.
#[verifier::external_type_specification]
#[verifier::external_body]
pub struct ExRegexError(regex::Error);

/// Whether `regex::Regex::new` accepts `pattern`.
pub uninterp spec fn regex_accepts(pattern: Seq<char>) -> bool;

/// What `regex::Regex::captures` finds in `text` with the expression compiled
/// from `pattern`: `None` where nothing matches, else the capture groups of the
/// leftmost match. Group 0, the whole match, comes first, then the groups in the
/// order of their opening parentheses; a group that took no part in the match is
/// `None`, every other one is the part of `text` that it matched.
pub uninterp spec fn regex_captures(pattern: Seq<char>, text: Seq<char>) -> Option<
    Seq<Option<Seq<char>>>,
>;

/// The capture groups as sequences of characters.
pub open spec fn groups_view(groups: Seq<Option<String>>) -> Seq<Option<Seq<char>>> {
    Seq::new(
        groups.len(),
        |i: int|
            match groups[i] {
                Some(text) => Some(text@),
                None => None,
            },
    )
}

/// The outcome of a search as sequences of characters.
pub open spec fn search_view(found: Option<Vec<Option<String>>>) -> Option<Seq<Option<Seq<char>>>> {
    match found {
        Some(groups) => Some(groups_view(groups@)),
        None => None,
    }
}

/// Compiles `pattern` with `regex::Regex::new` and searches `text` with
/// `regex::Regex::captures`.
///
/// Trusted: the call fails exactly on the patterns that `regex::Regex::new`
/// refuses, and otherwise returns the capture groups that
/// `regex::Regex::captures` reports, each copied out of `text`. Neither outside
/// function panics.
#[verifier::external_body]
pub(crate) fn search(pattern: &str, text: &str) -> (found: Result<
    Option<Vec<Option<String>>>,
    regex::Error,
>)
    ensures
        found is Ok <==> regex_accepts(pattern@),
        found matches Ok(groups) ==> search_view(groups) == regex_captures(pattern@, text@),
{
    let re = regex::Regex::new(pattern)?;
    let found = re.captures(text);
    Ok(found.map(|caps| caps.iter().map(|group| group.map(|m| m.as_str().to_owned())).collect()))
}

} // verus!
