//! Finding the year of a date written in a file name.
//!
//! The search is done by the `regex` crate. What it finds is not proved
//! here: it is given a name, `regex_capture`, and the contracts speak of it.

use regex::Regex;
use vstd::prelude::*;

use crate::file_name::text_of;

verus! {

/// A compiled regular expression of the `regex` crate.
#[verifier::external_type_specification]
#[verifier::external_body]
pub struct ExRegex(regex::Regex);

/// The error that the `regex` crate gives for a pattern it cannot compile.
#[verifier::external_type_specification]
#[verifier::external_body]
pub struct ExRegexError(regex::Error);

/// Whether `Regex::new` accepts `pattern`: whether it returns a compiled
/// expression and not an error.
pub uninterp spec fn regex_compiles(pattern: Seq<char>) -> bool;

/// Whether a compiled expression was built by `Regex::new`, with the options
/// that `Regex::new` sets and no others. An expression built with other
/// options may keep the same pattern and search differently.
pub uninterp spec fn built_plainly(re: Regex) -> bool;

/// The pattern that `Regex::new` built a compiled expression from: what
/// `Regex::as_str` returns.
pub uninterp spec fn regex_source(re: Regex) -> Seq<char>;

/// What the capture group `group` holds in the leftmost match of `pattern`
/// in `text`, as `Regex::captures` finds it for an expression that
/// `Regex::new` built from `pattern`: `None` where nothing in `text` matches
/// or the group took no part in the match.
pub uninterp spec fn regex_capture(pattern: Seq<char>, text: Seq<char>, group: usize) -> Option<
    Seq<char>,
>;

/// Calls `Regex::new`. Assumed: whether it succeeds depends on the pattern
/// alone, as `regex_compiles` names it; a compiled expression is built with
/// the options of `Regex::new` and keeps the pattern it was built from.
/// Nothing is assumed about which patterns compile.
#[verifier::external_body]
fn compile(pattern: &str) -> (compiled: Result<Regex, regex::Error>)
    ensures
        compiled is Ok <==> regex_compiles(pattern@),
        compiled matches Ok(re) ==> built_plainly(re) && regex_source(re) == pattern@,
{
    Regex::new(pattern)
}

/// Calls `Regex::captures` and then `Captures::get`. Assumed, of an
/// expression that `Regex::new` built: the text handed back is the one that
/// `regex_capture` names for the expression's pattern, the text searched and
/// the group asked for.
#[verifier::external_body]
fn capture(re: &Regex, text: &str, group: usize) -> (found: Option<String>)
    requires
        built_plainly(*re),
    ensures
        text_of(found) == regex_capture(regex_source(*re), text@, group),
{
    re.captures(text).and_then(|groups| groups.get(group)).map(|m| m.as_str().to_string())
}

/// The date pattern: a year that begins with `20`, a two-digit month and a
/// two-digit day, each pair of them separated by `-`, by `_` or by nothing.
/// Only the shape counts: the month and the day may be any two digits. The
/// year is the first capture group.
pub const DATE_PATTERN: &'static str = "(?i)(20\\d{2})[-_]?(\\d{2})[-_]?(\\d{2})";

/// The capture group of `DATE_PATTERN` that holds the year.
pub const YEAR_GROUP: usize = 1;

/// The year of the first date in `name`, if `name` holds a date.
pub open spec fn year_in(name: Seq<char>) -> Option<Seq<char>> {
    regex_capture(DATE_PATTERN@, name, YEAR_GROUP)
}

/// The date pattern could not be compiled.
#[derive(Clone, Copy, Debug, PartialEq, Eq, Structural)]
pub struct PatternRejected;

/// The date pattern, compiled and ready to search file names.
pub struct DatePattern {
    re: Regex,
}

impl DatePattern {
    #[verifier::type_invariant]
    spec fn holds_date_pattern(&self) -> bool {
        built_plainly(self.re) && regex_source(self.re) == DATE_PATTERN@
    }

    /// The pattern that this value searches for.
    pub closed spec fn source(&self) -> Seq<char> {
        regex_source(self.re)
    }

    /// Compiles the date pattern.
    ///
    /// The value is made exactly when the `regex` crate accepts the date
    /// pattern; where it does not, the error is `PatternRejected`.
    pub fn new() -> (made: Result<DatePattern, PatternRejected>)
        ensures
            made is Ok <==> regex_compiles(DATE_PATTERN@),
            made matches Ok(pattern) ==> pattern.source() == DATE_PATTERN@,
    {
        DatePattern::from_compiled(compile(DATE_PATTERN))
    }

    /// Searches `name` for a date and returns its year, as it is written.
    pub fn find_year(&self, name: &str) -> (year: Option<String>)
        ensures
            text_of(year) == year_in(name@),
    {
        proof {
            use_type_invariant(self);
        }
        capture(&self.re, name, YEAR_GROUP)
    }

    /// Makes the value out of what compiling the date pattern gave: a
    /// compiled expression is kept as it is, and an error of the `regex`
    /// crate, whichever it is, becomes `PatternRejected`.
    fn from_compiled(compiled: Result<Regex, regex::Error>) -> (made: Result<
        DatePattern,
        PatternRejected,
    >)
        requires
            compiled matches Ok(re) ==> built_plainly(re) && regex_source(re) == DATE_PATTERN@,
        ensures
            match compiled {
                Ok(re) => made matches Ok(pattern) && pattern.re == re,
                Err(_) => made is Err,
            },
    {
        match compiled {
            Ok(re) => Ok(DatePattern { re }),
            Err(_) => Err(PatternRejected),
        }
    }
}

} // verus!
