//! Searching a text with a regular expression.
use regex::Regex;
use vstd::prelude::*;

verus! {

/// A compiled regular expression.
#[verifier::external_type_specification]
#[verifier::external_body]
pub struct ExRegex(Regex);

/// Why a pattern did not compile.
#[verifier::external_type_specification]
#[verifier::external_body]
pub struct ExRegexError(regex::Error);

/// Whether `Regex::new` accepts a pattern.
pub uninterp spec fn regex_compiles(pattern: Seq<char>) -> bool;

/// The pattern that a compiled expression was built from, as `Regex::as_str`
/// gives it.
pub uninterp spec fn regex_pattern(re: Regex) -> Seq<char>;

/// Whether an expression is as `Regex::new` builds it: compiled from its
/// pattern alone, with no option changed.
pub uninterp spec fn regex_by_new(re: Regex) -> bool;

/// What `Regex::captures` finds for a pattern in a text: nothing where the
/// pattern matches nowhere, else the groups of the leftmost match, the whole
/// match first, each with the text it matched or nothing where it took no
/// part in the match.
pub uninterp spec fn regex_captures(pattern: Seq<char>, haystack: Seq<char>) -> Option<
    Seq<Option<Seq<char>>>,
>;

/// The groups of a match, each by its view.
pub open spec fn groups_view(groups: Seq<Option<String>>) -> Seq<Option<Seq<char>>> {
    groups.map_values(
        |g: Option<String>|
            match g {
                Some(text) => Some(text@),
                None => None,
            },
    )
}

/// What was found in a text, by its view.
pub open spec fn found_view(found: Option<Vec<Option<String>>>) -> Option<Seq<Option<Seq<char>>>> {
    match found {
        Some(groups) => Some(groups_view(groups@)),
        None => None,
    }
}

/// Calls `Regex::new`. The contract names whether the pattern compiles and
/// says that the expression remembers the pattern it was built from and was
/// built with no option changed.
#[verifier::external_body]
pub(crate) fn compile(pattern: &str) -> (res: Result<Regex, regex::Error>)
    ensures
        res.is_ok() == regex_compiles(pattern@),
        res matches Ok(re) ==> regex_pattern(re) == pattern@ && regex_by_new(re),
{
    Regex::new(pattern)
}

/// Calls `Regex::captures` and copies the text of each group out of the
/// match. The contract only names the result, and holds of an expression
/// that `Regex::new` built: options can change what a pattern matches.
#[verifier::external_body]
pub(crate) fn captures(re: &Regex, haystack: &str) -> (found: Option<Vec<Option<String>>>)
    requires
        regex_by_new(*re),
    ensures
        found_view(found) == regex_captures(regex_pattern(*re), haystack@),
{
    re.captures(haystack).map(|caps| caps.iter().map(|g| g.map(|m| m.as_str().to_string())).collect())
}

} // verus!
