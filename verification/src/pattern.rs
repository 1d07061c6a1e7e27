//! Regular expressions, compiled and run by the `regex` crate.
//!
//! What a regular expression matches is not restated here: the result of
//! compiling a pattern and of matching a haystack against it are given names,
//! and the value types are specified over those names.

use vstd::prelude::*;

verus! {

/// The compiled regular expression type of the `regex` crate.
#[verifier::external_type_specification]
#[verifier::external_body]
pub struct ExRegex(regex::Regex);

/// The error that `regex::Regex::new` returns for a pattern it rejects.
#[verifier::external_type_specification]
#[verifier::external_body]
pub struct ExRegexError(regex::Error);

/// Whether `regex::Regex::new` accepts `pattern` (with the crate's default
/// configuration, which includes its default size limit).
pub uninterp spec fn regex_compiles(pattern: Seq<char>) -> bool;

/// Whether the regular expression compiled from `pattern` finds a match
/// anywhere in `haystack` (`regex::Regex::is_match`).
pub uninterp spec fn regex_is_match(pattern: Seq<char>, haystack: Seq<char>) -> bool;

/// A regular expression together with the pattern it was compiled from.
///
/// Only [`IdPattern::compile`] builds a value of this type, so the pattern
/// that the view gives is always the one the regular expression came from.
pub struct IdPattern {
    regex: regex::Regex,
    source: Ghost<Seq<char>>,
}

impl View for IdPattern {
    type V = Seq<char>;

    closed spec fn view(&self) -> Seq<char> {
        self.source@
    }
}

/// Error returned when a pattern could not be compiled; it holds the error
/// that the `regex` crate reported.
#[derive(Debug)]
pub struct InvalidPatternError(pub regex::Error);

impl IdPattern {
    /// Trusted: calls `regex::Regex::new`. The result is `Ok` exactly when
    /// the crate accepts the pattern, and an `Ok` value remembers the pattern
    /// it was compiled from. Nothing is said of the error value.
    #[verifier::external_body]
    fn compile_regex(pattern: &str) -> (r: Result<IdPattern, regex::Error>)
        ensures
            r is Ok <==> regex_compiles(pattern@),
            r matches Ok(p) ==> p@ == pattern@,
    {
        match regex::Regex::new(pattern) {
            Ok(regex) => Ok(IdPattern { regex, source: Ghost(pattern@) }),
            Err(e) => Err(e),
        }
    }

    /// Trusted: calls `regex::Regex::is_match`, whose result is named
    /// [`regex_is_match`] of the pattern and the haystack.
    #[verifier::external_body]
    fn regex_matches(&self, haystack: &str) -> (r: bool)
        ensures
            r == regex_is_match(self@, haystack@),
    {
        self.regex.is_match(haystack)
    }

    /// Compile `pattern` into a regular expression.
    pub fn compile(pattern: &str) -> (r: Result<IdPattern, InvalidPatternError>)
        ensures
            r is Ok <==> regex_compiles(pattern@),
            r matches Ok(p) ==> p@ == pattern@,
    {
        match IdPattern::compile_regex(pattern) {
            Ok(p) => Ok(p),
            Err(e) => Err(InvalidPatternError(e)),
        }
    }

    /// Whether this regular expression matches somewhere in `haystack`.
    pub fn is_match(&self, haystack: &str) -> (r: bool)
        ensures
            r == regex_is_match(self@, haystack@),
    {
        self.regex_matches(haystack)
    }
}

} // verus!
