//! What the library takes from the `regex` crate: compiling a pattern,
//! finding its first match in a text, and finding the groups of that match.
//!
//! Nothing here is proved. What a compiled pattern matches is not written out:
//! each result has a name, and the rest of the library states what it does with
//! the named results.

use vstd::prelude::*;
use regex::Regex;

verus! {

/// `regex::Regex`, a compiled pattern. Nothing of what it holds is seen here.
#[verifier::external_type_specification]
#[verifier::external_body]
pub struct ExRegex(regex::Regex);

/// `regex::Error`, what `Regex::new` returns for a pattern text that it does
/// not compile. Nothing of what it holds is seen here.
#[verifier::external_type_specification]
#[verifier::external_body]
pub struct ExRegexError(regex::Error);

/// What `Regex::new` returns for a pattern text.
pub uninterp spec fn regex_new(source: Seq<char>) -> Result<Regex, regex::Error>;

/// What `Regex::find` returns for a text: the byte positions of the two ends
/// of the first match, or `None` where the pattern matches nowhere in it.
pub uninterp spec fn regex_find(re: Regex, text: Seq<char>) -> Option<(usize, usize)>;

/// What `Regex::captures` returns for a text: for the first match, the byte
/// positions of the two ends of each group that took part in it, group 0 being
/// the whole match; or `None` where the pattern matches nowhere in the text.
pub uninterp spec fn regex_captures(re: Regex, text: Seq<char>) -> Option<
    Seq<Option<(usize, usize)>>,
>;

/// Whether a pattern text compiles.
pub open spec fn pattern_valid(source: Seq<char>) -> bool {
    regex_new(source) is Ok
}

/// The compiled form of a pattern text that compiles.
pub open spec fn compiled(source: Seq<char>) -> Regex
    recommends
        pattern_valid(source),
{
    regex_new(source)->Ok_0
}

/// Whether the pattern matches somewhere in the text.
pub open spec fn matches_in(re: Regex, text: Seq<char>) -> bool {
    regex_find(re, text) is Some
}

/// Calls `Regex::new`. A pattern text always gives the same result, compiled
/// pattern or error.
#[verifier::external_body]
pub(crate) fn compile_pattern(source: &str) -> (r: Result<Regex, regex::Error>)
    ensures
        r == regex_new(source@),
{
    Regex::new(source)
}

/// Calls `Regex::find`, and hands out the two ends of the match that
/// `Match::start` and `Match::end` give.
#[verifier::external_body]
pub(crate) fn find_span(re: &Regex, text: &str) -> (span: Option<(usize, usize)>)
    ensures
        span == regex_find(*re, text@),
{
    re.find(text).map(|m| (m.start(), m.end()))
}

/// Calls `Regex::captures`, and hands out for each group, in the order of
/// `Captures::iter`, the two ends that `Match::start` and `Match::end` give.
#[verifier::external_body]
pub(crate) fn capture_spans(re: &Regex, text: &str) -> (groups: Option<Vec<Option<(usize, usize)>>>)
    ensures
        groups is Some <==> regex_captures(*re, text@) is Some,
        groups is Some ==> groups->0@ == regex_captures(*re, text@)->0,
{
    re.captures(text).map(|caps| caps.iter().map(|g| g.map(|m| (m.start(), m.end()))).collect())
}

} // verus!
