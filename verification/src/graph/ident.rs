//! The text of the identifiers that nodes, predicates and triples carry:
//! a fixed prefix such as `sg:N`, then decimal digits.

use vstd::prelude::*;
use vstd::string::StringExecFns;
use crate::error::{Error, ErrorCode};

verus! {

/// The pattern of the identifier of a node.
pub const NODE_PATTERN: &'static str = r"^sg:N\d+$";

/// The pattern of the identifier of a predicate.
pub const PREDICATE_PATTERN: &'static str = r"^sg:P\d+$";

/// The pattern of the identifier of a triple.
pub const TRIPLE_PATTERN: &'static str = r"^sg:T\d+$";

/// Whether the regular expression `pattern` finds a match somewhere in
/// `text`; `None` where `pattern` is no regular expression that can be
/// compiled.
pub uninterp spec fn regex_search(pattern: Seq<char>, text: Seq<char>) -> Option<bool>;

/// `pattern` is one of the three patterns of identifiers.
pub open spec fn known_pattern(pattern: Seq<char>) -> bool {
    pattern == NODE_PATTERN@ || pattern == PREDICATE_PATTERN@ || pattern == TRIPLE_PATTERN@
}

/// Compiles `pattern`, one of the three patterns of identifiers, and
/// searches `text` for a match.
///
/// Wraps `regex::Regex::new`, which compiles a pattern or reports why it
/// cannot, and `regex::Regex::is_match`, which says whether the compiled
/// expression matches anywhere in the text.
#[verifier::external_body]
pub(crate) fn search(pattern: &str, text: &str) -> (r: Option<bool>)
    requires
        known_pattern(pattern@),
    ensures
        r == regex_search(pattern@, text@),
{
    match regex::Regex::new(pattern) {
        Ok(re) => Some(re.is_match(text)),
        Err(_) => None,
    }
}

/// The text of the identifier that follows `text`: the same with the digit
/// `1` added.
pub open spec fn successor(text: Seq<char>) -> Seq<char> {
    text + "1"@
}

/// The text `s`, where the search found it to have the form asked for, and
/// the error of a text of another form where it did not.
pub fn accept(s: &str, found: Option<bool>, line: usize, column: usize) -> (r: Result<String, Error>)
    ensures
        match r {
            Ok(text) => found == Some(true) && text@ == s@,
            Err(e) => found != Some(true) && e.code is RegexParser && e.line == line && e.column
                == column,
        },
{
    match found {
        Some(true) => Ok(s.to_owned()),
        _ => Err(Error::syntax(ErrorCode::RegexParser, line, column)),
    }
}

/// The text that follows `text`.
pub fn successor_text(text: &String) -> (r: String)
    ensures
        r@ == successor(text@),
{
    text.clone().concat("1")
}

} // verus!
