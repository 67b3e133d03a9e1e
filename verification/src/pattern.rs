//! Searching a text with a regular expression.
//!
//! The search itself is the `regex` crate's. What it finds for a pattern in a
//! text is named here and not defined: the contracts that rest on it say so
//! by using the names.

use regex::Regex;
use vstd::prelude::*;

verus! {

/// The `regex` crate's error for a pattern that does not compile, carried
/// through without a look inside.
#[verifier::external_type_specification]
#[verifier::external_body]
pub struct ExRegexError(regex::Error);

/// Whether `regex::Regex::new` compiles the pattern.
pub uninterp spec fn regex_accepts(pattern: Seq<char>) -> bool;

/// The part of `haystack` that `regex::Regex::find` reports as the first
/// match of the compiled pattern, or `None` where it reports no match.
pub uninterp spec fn regex_find(pattern: Seq<char>, haystack: Seq<char>) -> Option<Seq<char>>;

/// Compiles `pattern` with `regex::Regex::new` and searches `haystack` with
/// `regex::Regex::find`, handing back the text of the match that `find`
/// reports. Trusted: the compile error is the crate's own, a pattern compiles
/// or fails alike every time, and the match found for a pattern in a text is
/// the same every time; what that match is, is left to the crate.
#[verifier::external_body]
pub(crate) fn first_match(pattern: &str, haystack: &str) -> (found: Result<
    Option<String>,
    regex::Error,
>)
    ensures
        found is Ok <==> regex_accepts(pattern@),
        found matches Ok(Some(text)) ==> regex_find(pattern@, haystack@) == Some(text@),
        found matches Ok(None) ==> regex_find(pattern@, haystack@) is None,
{
    let compiled = Regex::new(pattern)?;
    Ok(compiled.find(haystack).map(|m| m.as_str().to_string()))
}

} // verus!
