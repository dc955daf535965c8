//! Search by regular expression, done by the `regex` crate. Nothing in this
//! file is proved: it states what the rest of the library takes on trust.

use vstd::prelude::*;

verus! {

/// The error with which `regex::Regex::new` refuses a pattern. Nothing is
/// known of what it holds.
#[verifier::external_type_specification]
#[verifier::external_body]
pub struct ExRegexError(regex::Error);

/// What `regex::Regex::captures` finds when the expression compiled from
/// `pattern` is searched for in `haystack`: nothing where no part of the
/// haystack matches, else the capture groups of the first match, in the
/// order of their opening brackets and with the whole match first, each as
/// the text that it matched or as nothing where it took no part.
pub uninterp spec fn regex_captures(pattern: Seq<char>, haystack: Seq<char>) -> Option<
    Seq<Option<Seq<char>>>,
>;

/// Compiles `pattern` with `regex::Regex::new` and searches `haystack` with
/// `regex::Regex::captures`. Where the pattern is refused, the error of the
/// crate comes back, and nothing is claimed of when that happens. Where it
/// compiles, the groups that come back are those of `regex_captures`, read
/// off one by one with `regex::Captures::iter` and `regex::Match::as_str`.
#[verifier::external_body]
pub(crate) fn captures(pattern: &str, haystack: &str) -> (r: Result<
    Option<Vec<Option<String>>>,
    regex::Error,
>)
    ensures
        r matches Ok(found) ==> found.deep_view() == regex_captures(pattern@, haystack@),
{
    match regex::Regex::new(pattern) {
        Ok(re) => Ok(
            re.captures(haystack).map(
                |groups| groups.iter().map(|group| group.map(|m| m.as_str().to_string())).collect(),
            ),
        ),
        Err(error) => Err(error),
    }
}

} // verus!
