//! Regular-expression checks, delegated to the `regex` crate.

use vstd::prelude::*;

verus! {

/// What `regex::Regex::new` gives for a pattern: `None` when the pattern
/// compiles, otherwise the text of the error it reports.
pub uninterp spec fn regex_compile_error(pattern: Seq<char>) -> Option<Seq<char>>;

/// What `regex::Regex::is_match` answers for a compiled pattern and a text.
pub uninterp spec fn regex_is_match(pattern: Seq<char>, text: Seq<char>) -> bool;

/// Compiles `pattern` with `regex::Regex::new` and reports the error text,
/// if any. The result is whatever the regex crate decides for this pattern.
#[verifier::external_body]
pub(crate) fn regex_check(pattern: &str) -> (r: Option<String>)
    ensures
        r is Some <==> regex_compile_error(pattern@) is Some,
        r matches Some(m) ==> m@ == regex_compile_error(pattern@)->0,
{
    match regex::Regex::new(pattern) {
        Ok(_) => None,
        Err(e) => Some(e.to_string()),
    }
}

/// Compiles `pattern` with `regex::Regex::new` and answers
/// `regex::Regex::is_match` on `text`.
#[verifier::external_body]
pub(crate) fn regex_matches(pattern: &str, text: &str) -> (r: bool)
    requires
        regex_compile_error(pattern@) is None,
    ensures
        r == regex_is_match(pattern@, text@),
{
    match regex::Regex::new(pattern) {
        Ok(re) => re.is_match(text),
        Err(_) => false,
    }
}

} // verus!
