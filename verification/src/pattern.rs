//! Regular-expression patterns, compiled and matched by the `regex` crate.

use vstd::prelude::*;
use regex::Regex;

verus! {

/// Makes the error of `regex::Regex::new` known as an opaque type.
#[verifier::external_type_specification]
#[verifier::external_body]
pub struct ExRegexError(regex::Error);

/// Whether `regex::Regex::new` accepts `pattern`.
pub uninterp spec fn pattern_compiles(pattern: Seq<char>) -> bool;

/// Whether the regex compiled from `pattern` by `regex::Regex::new` has a
/// match anywhere in `text` (`regex::Regex::is_match`).
pub uninterp spec fn pattern_matches(pattern: Seq<char>, text: Seq<char>) -> bool;

/// Compiles `pattern` with `regex::Regex::new` and searches `text` with
/// `regex::Regex::is_match`. The error is the one `Regex::new` reports; it
/// comes exactly for the patterns that do not compile. Both outcomes depend
/// on the two strings alone.
#[verifier::external_body]
pub(crate) fn search(pattern: &str, text: &str) -> (r: Result<bool, regex::Error>)
    ensures
        r is Ok == pattern_compiles(pattern@),
        r matches Ok(found) ==> found == pattern_matches(pattern@, text@),
{
    match Regex::new(pattern) {
        Ok(re) => Ok(re.is_match(text)),
        Err(e) => Err(e),
    }
}

/// Whether `pattern` compiles to a regular expression.
pub fn is_valid_pattern(pattern: &str) -> (r: bool)
    ensures
        r == pattern_compiles(pattern@),
{
    search(pattern, "").is_ok()
}

/// What a search reports as a plain truth value: a pattern that does not
/// compile matches nothing.
pub open spec fn spec_found(outcome: Result<bool, regex::Error>) -> bool {
    match outcome {
        Ok(found) => found,
        Err(_) => false,
    }
}

/// Reads the outcome of a search; a pattern that does not compile matches
/// nothing.
pub fn found(outcome: Result<bool, regex::Error>) -> (r: bool)
    ensures
        r == spec_found(outcome),
{
    match outcome {
        Ok(found) => found,
        Err(_) => false,
    }
}

/// Whether `pattern` compiles and matches somewhere in `text`.
pub fn matches_pattern(pattern: &str, text: &str) -> (r: bool)
    ensures
        r == (pattern_compiles(pattern@) && pattern_matches(pattern@, text@)),
{
    found(search(pattern, text))
}

} // verus!
