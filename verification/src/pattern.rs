//! Trusted boundary around the `regex` crate.
//!
//! A compiled pattern is opaque to the verifier, so the pattern text a
//! value was compiled from is given a name, [`regex_source`], and the
//! behaviour of matching and substitution is named as a function of that
//! text alone: whether a pattern compiles, whether it matches a haystack
//! anywhere, and what rewriting the first match with a template yields.
//! Every contract of the resolver is stated over these names.

use regex::Regex;
use vstd::prelude::*;

verus! {

#[verifier::external_type_specification]
#[verifier::external_body]
pub struct ExRegex(Regex);

#[verifier::external_type_specification]
#[verifier::external_body]
pub struct ExRegexError(regex::Error);

/// The pattern text a compiled `Regex` value was built from.
pub uninterp spec fn regex_source(re: Regex) -> Seq<char>;

/// Whether `pattern` is a valid expression, i.e. whether compiling it
/// succeeds.
pub uninterp spec fn pattern_compiles(pattern: Seq<char>) -> bool;

/// Whether `pattern` matches anywhere in `haystack`.
pub uninterp spec fn pattern_matches(pattern: Seq<char>, haystack: Seq<char>) -> bool;

/// The result of rewriting the first match of `pattern` in `haystack`
/// with `template`, expanding capture-group references in the template.
pub uninterp spec fn pattern_replace_first(
    pattern: Seq<char>,
    haystack: Seq<char>,
    template: Seq<char>,
) -> Seq<char>;

/// Relies on `regex::Regex::new`: compiling succeeds exactly when the
/// pattern is a valid expression, and the compiled value keeps the
/// pattern text (`Regex::as_str` returns it).
#[verifier::external_body]
pub(crate) fn regex_compile(pattern: &str) -> (r: Result<Regex, regex::Error>)
    ensures
        r is Ok <==> pattern_compiles(pattern@),
        (r matches Ok(re) ==> regex_source(re) == pattern@),
{
    Regex::new(pattern)
}

/// Relies on `regex::Regex::is_match`: true exactly when there is a
/// match for the pattern anywhere in the haystack.
#[verifier::external_body]
pub(crate) fn regex_is_match(re: &Regex, haystack: &str) -> (r: bool)
    ensures
        r == pattern_matches(regex_source(*re), haystack@),
{
    re.is_match(haystack)
}

/// Relies on `regex::Regex::replace`: rewrites the first match with the
/// template (expanding `$`-references to capture groups) and, when there
/// is no match, returns the haystack unchanged.
#[verifier::external_body]
pub(crate) fn regex_replace(re: &Regex, haystack: &str, template: &str) -> (r: String)
    ensures
        r@ == pattern_replace_first(regex_source(*re), haystack@, template@),
        !pattern_matches(regex_source(*re), haystack@) ==> r@ == haystack@,
{
    re.replace(haystack, template).to_string()
}

/// Relies on `regex::Regex::new` accepting `.*`, a valid expression per
/// the crate's syntax, so compiling it cannot fail.
#[verifier::external_body]
pub(crate) fn regex_compile_wildcard() -> (r: Regex)
    ensures
        regex_source(r) == ".*"@,
        pattern_compiles(regex_source(r)),
{
    Regex::new(".*").unwrap()
}

/// Relies on `regex::Regex::as_str`: returns the pattern text the value
/// was compiled from.
#[verifier::external_body]
pub(crate) fn regex_pattern_text(re: &Regex) -> (r: &str)
    ensures
        r@ == regex_source(*re),
{
    re.as_str()
}

} // verus!
