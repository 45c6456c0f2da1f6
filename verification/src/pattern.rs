//! Compiled regular expressions, kept together with the text they were compiled from.

use vstd::prelude::*;

verus! {

/// The regular expression type of the `regex` crate.
#[verifier::external_type_specification]
#[verifier::external_body]
pub struct ExRegex(regex::Regex);

/// The error type that `regex::Regex::new` reports.
#[verifier::external_type_specification]
#[verifier::external_body]
pub struct ExRegexError(regex::Error);

/// Whether `regex::Regex::new` accepts `pattern` (with the crate's default
/// size limits, on this target): a syntactically valid pattern whose compiled
/// form stays within those limits.
pub uninterp spec fn regex_compiles(pattern: Seq<char>) -> bool;

/// What `is_match` of the regex compiled from `pattern` answers for `haystack`:
/// whether the pattern matches anywhere in it.
pub uninterp spec fn regex_is_match(pattern: Seq<char>, haystack: Seq<char>) -> bool;

/// A regular expression compiled from `source`.
///
/// Values are made only by the two trusted functions `compile_pattern` (which
/// compiles `source` itself) and `copy_pattern` (which copies both fields), so
/// `regex` is always the compiled form of `source`; no verified code puts the two
/// fields together.
#[derive(Debug)]
pub struct Pattern {
    source: String,
    regex: regex::Regex,
}

/// A pattern that `regex::Regex::new` refused, with the crate's error.
#[derive(Debug)]
pub struct InvalidPattern {
    pub pattern: String,
    pub cause: regex::Error,
}

/// Calls `regex::Regex::new` on `source` and keeps the compiled regex together
/// with `source`. The contract claims that it succeeds exactly when the pattern
/// compiles, and that a result holds `source` as its text.
#[verifier::external_body]
fn compile_pattern(source: &str) -> (res: Result<Pattern, regex::Error>)
    ensures
        res is Ok <==> regex_compiles(source@),
        res matches Ok(p) ==> p@ == source@,
{
    match regex::Regex::new(source) {
        Ok(regex) => Ok(Pattern { source: source.to_owned(), regex }),
        Err(e) => Err(e),
    }
}

/// Calls `Clone::clone` of `regex::Regex` (derived by the crate: it copies the
/// compiled regex) and of the source text. The contract claims that the copy
/// holds the same text.
#[verifier::external_body]
fn copy_pattern(p: &Pattern) -> (res: Pattern)
    ensures
        res@ == p@,
{
    Pattern { source: p.source.clone(), regex: p.regex.clone() }
}

impl View for Pattern {
    type V = Seq<char>;

    closed spec fn view(&self) -> Seq<char> {
        self.source@
    }
}

impl Pattern {
    /// Compiles `source`; fails exactly when the regex crate refuses it.
    pub fn new(source: &str) -> (res: Result<Pattern, InvalidPattern>)
        ensures
            match res {
                Ok(p) => p@ == source@ && regex_compiles(source@),
                Err(e) => e.pattern@ == source@ && !regex_compiles(source@),
            },
    {
        match compile_pattern(source) {
            Ok(p) => Ok(p),
            Err(cause) => Err(InvalidPattern { pattern: source.to_owned(), cause }),
        }
    }

    /// The text the pattern was compiled from.
    pub fn as_str(&self) -> (res: &str)
        ensures
            res@ == self@,
    {
        self.source.as_str()
    }

    /// Calls `regex::Regex::is_match` on the compiled form of `self@`. The
    /// contract claims that the answer is the one named `regex_is_match` for the
    /// pattern's text and the haystack.
    #[verifier::external_body]
    pub(crate) fn is_match(&self, haystack: &str) -> (res: bool)
        ensures
            res == regex_is_match(self@, haystack@),
    {
        self.regex.is_match(haystack)
    }
}

impl Clone for Pattern {
    fn clone(&self) -> (res: Self)
        ensures
            res@ == self@,
    {
        copy_pattern(self)
    }
}

} // verus!
