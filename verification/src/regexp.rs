//! Regular-expression support. Compilation and matching are done by the regex
//! crate behind two trusted wrappers; everything downstream speaks of the two
//! named results `regex_valid` and `regex_matches`. The `regexp_predicate`
//! function is the scalar predicate registered with the storage engine so that
//! filtering runs inside the query.

use vstd::prelude::*;

verus! {

/// Whether `pattern` compiles as a regular expression: a function of the
/// pattern text alone.
pub uninterp spec fn regex_valid(pattern: Seq<char>) -> bool;

/// Whether the regular expression `pattern` matches somewhere in `text`: a
/// function of the two texts alone. Meaningful only when `regex_valid(pattern)`
/// holds.
pub uninterp spec fn regex_matches(pattern: Seq<char>, text: Seq<char>) -> bool;

/// Relies on `regex::Regex::new`: whether a pattern compiles is determined by
/// the pattern text alone.
#[verifier::external_body]
pub(crate) fn regex_compiles(pattern: &str) -> (b: bool)
    ensures
        b == regex_valid(pattern@),
{
    regex::Regex::new(pattern).is_ok()
}

/// Relies on `regex::Regex::new` and `regex::Regex::is_match`: for a pattern
/// that compiles, whether it matches is determined by the pattern and the
/// haystack alone.
#[verifier::external_body]
fn regex_is_match(pattern: &str, text: &str) -> (b: bool)
    requires
        regex_valid(pattern@),
    ensures
        b == regex_matches(pattern@, text@),
{
    match regex::Regex::new(pattern) {
        Ok(re) => re.is_match(text),
        Err(_) => false,
    }
}

/// A malformed pattern reached predicate evaluation: a hard execution error,
/// unlike the query builder's own silent skip of invalid filters.
pub enum RegexpError {
    InvalidPattern,
}

/// The two-argument predicate callable from within a query: matches `pattern`
/// against a stringified column value. A null or unusable value (`text` is
/// `None`) is a non-match, never an error; an invalid pattern with a usable
/// value is an error.
pub fn regexp_predicate(pattern: &str, text: Option<String>) -> (r: Result<bool, RegexpError>)
    ensures
        text is None ==> r == Ok::<bool, RegexpError>(false),
        text is Some && !regex_valid(pattern@) ==> r is Err,
        text is Some && regex_valid(pattern@) ==> r == Ok::<bool, RegexpError>(
            regex_matches(pattern@, text.unwrap()@),
        ),
{
    match text {
        None => Ok(false),
        Some(t) => {
            if regex_compiles(pattern) {
                Ok(regex_is_match(pattern, t.as_str()))
            } else {
                Err(RegexpError::InvalidPattern)
            }
        },
    }
}

} // verus!
