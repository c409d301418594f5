//! Compiling benchmark patterns and counting their matches over a corpus.
use vstd::prelude::*;

use crate::patterns::Pattern;

verus! {

#[verifier::external_type_specification]
#[verifier::external_body]
pub struct ExRegex(regex::Regex);

#[verifier::external_type_specification]
#[verifier::external_body]
pub struct ExRegexError(regex::Error);

/// Whether the `regex` crate, with its default settings, accepts the pattern
/// source `pattern`: it is valid syntax and fits the default size limit.
pub uninterp spec fn compiles(pattern: Seq<char>) -> bool;

/// The number of successive non-overlapping matches that the `regex` crate
/// finds when the pattern source `pattern` is compiled with its default
/// settings and searched over `text`, left to right.
pub uninterp spec fn match_count(pattern: Seq<char>, text: Seq<char>) -> nat;

/// A pattern compiled by the regex engine, kept with the source it was
/// compiled from. Only `compile` builds one.
pub struct Matcher {
    regex: regex::Regex,
    source: &'static str,
}

impl Matcher {
    /// The source this matcher was compiled from.
    pub closed spec fn source(&self) -> Seq<char> {
        self.source@
    }
}

/// Relies on `regex::Regex::new`: it compiles `pattern` with the default
/// settings, and fails exactly when the source is not a valid pattern or
/// exceeds the default size limit, which depends on the source alone.
#[verifier::external_body]
fn compile(pattern: &'static str) -> (r: Result<Matcher, regex::Error>)
    ensures
        r is Ok <==> compiles(pattern@),
        r matches Ok(m) ==> m.source() == pattern@,
{
    match regex::Regex::new(pattern) {
        Ok(regex) => Ok(Matcher { regex, source: pattern }),
        Err(e) => Err(e),
    }
}

/// Relies on `regex::Regex::find_iter`, whose iterator yields the successive
/// non-overlapping matches over `text`, and on counting that iterator. The
/// matcher's regex was compiled from its source by `compile`.
#[verifier::external_body]
fn find_count(m: &Matcher, text: &str) -> (n: usize)
    ensures
        n as nat == match_count(m.source(), text@),
{
    m.regex.find_iter(text).count()
}

/// Why a pattern could not be measured.
#[derive(Clone, Copy, Debug, PartialEq, Eq)]
pub enum MeasureError {
    /// The pattern's source does not compile; holds the pattern's name.
    InvalidPattern(&'static str),
}

impl Matcher {
    /// Compile the source of `pattern`; when the engine refuses it the error
    /// names the pattern.
    pub fn new(pattern: &Pattern) -> (r: Result<Matcher, MeasureError>)
        ensures
            r is Ok <==> compiles(pattern.source@),
            r matches Ok(m) ==> m.source() == pattern.source@,
            r matches Err(e) ==> e == MeasureError::InvalidPattern(pattern.name),
    {
        match compile(pattern.source) {
            Ok(m) => Ok(m),
            Err(_) => Err(MeasureError::InvalidPattern(pattern.name)),
        }
    }

    /// Count the non-overlapping matches of this matcher over `corpus`.
    pub fn count(&self, corpus: &str) -> (n: usize)
        ensures
            n as nat == match_count(self.source(), corpus@),
    {
        find_count(self, corpus)
    }
}

/// Count the non-overlapping matches of `pattern` over `corpus`: a count
/// exactly when the source compiles, otherwise an error naming the pattern.
pub fn count_matches(pattern: &Pattern, corpus: &str) -> (r: Result<usize, MeasureError>)
    ensures
        r is Ok <==> compiles(pattern.source@),
        r matches Ok(n) ==> n as nat == match_count(pattern.source@, corpus@),
        r matches Err(e) ==> e == MeasureError::InvalidPattern(pattern.name),
{
    match Matcher::new(pattern) {
        Ok(m) => Ok(m.count(corpus)),
        Err(e) => Err(e),
    }
}

/// Match counts are reproducible: every count that `count_matches` can report
/// for one pattern source and one corpus is the same number.
pub proof fn lemma_match_count_reproducible(pattern: Seq<char>, text: Seq<char>, first: nat, second: nat)
    requires
        first == match_count(pattern, text),
        second == match_count(pattern, text),
    ensures
        first == second,
{
}

} // verus!
