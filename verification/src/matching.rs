//! The regular-expression engine, as the classifier sees it.
//!
//! Matching is done by the `regex` crate. Nothing here is proved of the engine:
//! its answer is given a name, and the rest of the library reasons from that name.

use vstd::prelude::*;

verus! {

/// The capture groups that the `regex` crate finds for `pattern` in `haystack`.
///
/// `Some(groups)` is the leftmost match: `groups[0]` is the whole match and
/// `groups[i]` the text of the `i`-th group, or `None` where that group took no
/// part in the match. The value is `None` where nothing matches, and also where
/// the engine rejects the pattern.
pub uninterp spec fn regex_captures(pattern: Seq<char>, haystack: Seq<char>) -> Option<Seq<Option<Seq<char>>>>;

/// Compiles `pattern` with `regex::Regex::new` and searches `haystack` with
/// `Regex::captures`, copying out the text of every group.
///
/// Trusted: the result is taken to be a function of the two strings alone. The
/// pattern is compiled with the engine's default settings on every call, so no
/// other state enters. A pattern that does not compile yields `None`.
#[verifier::external_body]
pub(crate) fn find_captures(pattern: &str, haystack: &str) -> (found: Option<Vec<Option<String>>>)
    ensures
        found.deep_view() == regex_captures(pattern@, haystack@),
{
    match regex::Regex::new(pattern) {
        Ok(compiled) => compiled.captures(haystack).map(
            |groups| groups.iter().map(|group| group.map(|m| m.as_str().to_owned())).collect(),
        ),
        Err(_) => None,
    }
}

} // verus!
