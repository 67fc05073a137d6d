//! The password rule of registration and login requests.

use vstd::prelude::*;

verus! {

/// Whether `fancy_regex` finds `pattern` in `text`: `Some(found)`, or `None`
/// where the pattern is refused or the search gives up. It depends on the two
/// texts alone.
pub uninterp spec fn regex_search(pattern: Seq<char>, text: Seq<char>) -> Option<bool>;

/// Relies on `fancy_regex::Regex::new` and `Regex::is_match`: compiles the
/// pattern and searches the text for a match anywhere in it.
#[verifier::external_body]
fn pattern_search(pattern: &str, text: &str) -> (r: Option<bool>)
    ensures
        r == regex_search(pattern@, text@),
{
    match fancy_regex::Regex::new(pattern) {
        Ok(re) => re.is_match(text).ok(),
        Err(_) => None,
    }
}

/// A digit.
pub const DIGIT_PATTERN: &'static str = "\\d";

/// A character that is neither a digit nor an ASCII letter.
pub const SPECIAL_PATTERN: &'static str = "[^\\da-zA-Z]";

/// Seven characters in a row, none a line break.
pub const LENGTH_PATTERN: &'static str = ".{7,}";

/// The password breaks the rule.
#[derive(Debug, Clone, Copy, PartialEq, Eq, Structural)]
pub struct InvalidPassword;

/// The rule on the outcomes of the three searches: each must have found a match.
pub fn password_checks_pass(digit: Option<bool>, special: Option<bool>, length: Option<bool>) -> (r: Result<(), InvalidPassword>)
    ensures
        r is Ok <==> (digit == Some(true) && special == Some(true) && length == Some(true)),
{
    match (digit, special, length) {
        (Some(true), Some(true), Some(true)) => Ok(()),
        _ => Err(InvalidPassword),
    }
}

/// A password must hold a digit and a special character and run to seven
/// characters on one line.
pub fn validate_password(value: &str) -> (r: Result<(), InvalidPassword>)
    ensures
        r is Ok <==> (regex_search(DIGIT_PATTERN@, value@) == Some(true) && regex_search(
            SPECIAL_PATTERN@,
            value@,
        ) == Some(true) && regex_search(LENGTH_PATTERN@, value@) == Some(true)),
{
    let digit = pattern_search(DIGIT_PATTERN, value);
    let special = pattern_search(SPECIAL_PATTERN, value);
    let length = pattern_search(LENGTH_PATTERN, value);
    password_checks_pass(digit, special, length)
}

} // verus!
