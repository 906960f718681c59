//! The boundary to the regex engine. The route matcher treats a compiled
//! regular expression as an opaque value that remembers the pattern text it
//! was built from; what compiling and matching return is named here and
//! believed of the regex crate.

use vstd::prelude::*;

verus! {

#[verifier::external_type_specification]
#[verifier::external_body]
pub struct ExRegex(regex::Regex);

#[verifier::external_type_specification]
#[verifier::external_body]
pub struct ExRegexError(regex::Error);

/// Whether the regex engine accepts `pattern` as a valid regular
/// expression. Acceptance depends on the pattern text alone.
pub uninterp spec fn regex_compiles(pattern: Seq<char>) -> bool;

/// The pattern text a compiled regular expression was built from.
pub uninterp spec fn regex_source(re: regex::Regex) -> Seq<char>;

/// What matching `pattern` against `path` returns: `None` when the pattern
/// does not match, otherwise the capture groups beyond the whole match, in
/// order of their opening parentheses (`None` for a group that did not
/// participate). The result depends on the pattern and the path alone.
pub uninterp spec fn regex_caps(pattern: Seq<char>, path: Seq<char>) -> Option<
    Seq<Option<Seq<char>>>,
>;

/// Relies on regex::Regex::new: compiles the pattern text, succeeding for
/// exactly the patterns the engine accepts, and the compiled value keeps
/// that pattern text (regex::Regex::as_str returns it unchanged).
#[verifier::external_body]
pub fn regex_new(pattern: &str) -> (res: Result<regex::Regex, regex::Error>)
    ensures
        res is Ok <==> regex_compiles(pattern@),
        res is Ok ==> regex_source(res->Ok_0) == pattern@,
{
    regex::Regex::new(pattern)
}

/// Relies on regex::Regex::captures: returns the leftmost match of the
/// compiled pattern in `path`, or `None` when it does not match; group `k`
/// of the result is capture group `k + 1` (regex::Captures::get), with the
/// matched substring taken by regex::Match::as_str.
#[verifier::external_body]
pub fn regex_find_captures(re: &regex::Regex, path: &str) -> (res: Option<Vec<Option<String>>>)
    ensures
        res.deep_view() == regex_caps(regex_source(*re), path@),
{
    match re.captures(path) {
        Some(caps) => {
            let mut groups: Vec<Option<String>> = Vec::new();
            for k in 1..caps.len() {
                groups.push(caps.get(k).map(|m| m.as_str().to_string()));
            }
            Some(groups)
        },
        None => None,
    }
}

} // verus!
