//! Validation of the names that configuration authors give to targets.

use regex::Regex;
use vstd::prelude::*;

verus! {

/// What searching `haystack` with the regular expression `pattern` gives:
/// `None` where the pattern does not compile, else whether a match exists.
pub uninterp spec fn regex_search(pattern: Seq<char>, haystack: Seq<char>) -> Option<bool>;

/// Compiles `pattern` with `regex::Regex::new` and searches `haystack` with
/// `Regex::is_match`. Both depend on their arguments alone; nothing is
/// claimed here about which texts a pattern matches.
#[verifier::external_body]
fn search_with_regex(pattern: &str, haystack: &str) -> (r: Option<bool>)
    ensures
        r == regex_search(pattern@, haystack@),
{
    match Regex::new(pattern) {
        Ok(compiled) => Some(compiled.is_match(haystack)),
        Err(_) => None,
    }
}

/// The pattern that a target name must match: one or more letters, digits,
/// hyphens or underscores, and nothing else.
pub open spec fn target_name_pattern() -> Seq<char> {
    "^[-_a-zA-Z0-9]+$"@
}

/// Whether a search outcome means that the name is accepted.
pub open spec fn accepts_target_name(search: Option<bool>) -> bool {
    search == Some(true)
}

/// Whether `name` may be used as a target name.
pub open spec fn name_accepted(name: Seq<char>) -> bool {
    accepts_target_name(regex_search(target_name_pattern(), name))
}

/// Turns the outcome of the pattern search into the validator's answer.
pub fn target_name_verdict(search: Option<bool>) -> (valid: bool)
    ensures
        valid == accepts_target_name(search),
{
    match search {
        Some(found) => found,
        None => false,
    }
}

/// Whether `name` may be used as a target name.
pub fn is_valid_target_name(name: &str) -> (valid: bool)
    ensures
        valid == name_accepted(name@),
{
    target_name_verdict(search_with_regex("^[-_a-zA-Z0-9]+$", name))
}

} // verus!
