//! Regular expressions, as far as the lexer needs them: the patterns of
//! the lexemes that no fixed text describes, and the search for a match.

use vstd::prelude::*;
use regex::Regex;

verus! {

/// A line comment: `//` and the rest of the line.
pub const COMMENT_PATTERN: &'static str = "^//.*";

/// A number literal: decimal digits, with an optional minus sign.
pub const NUMBER_PATTERN: &'static str = "^[-]?\\d+";

/// An identifier: a letter, then letters, digits and underscores.
pub const SYMBOL_PATTERN: &'static str = "^[A-Za-z][A-Za-z0-9_]*";

/// A type annotation: a colon, a space, then letters and digits.
pub const TYPE_PATTERN: &'static str = "^: [0-9A-Za-z]+";

/// A string literal between double quotes.
pub const STRING_PATTERN: &'static str = "^\"([^\"]|\\\\\")*\"";

/// The first match of the regular expression `pattern` in `text`: `None`
/// where nothing in `text` matches, and where `pattern` is no regular
/// expression.
pub uninterp spec fn regex_find(pattern: Seq<char>, text: Seq<char>) -> Option<Seq<char>>;

/// The text of the first match of `pattern` in `text`.
///
/// Compiles `pattern` with `regex::Regex::new` and searches `text` with
/// `Regex::find`. What the search finds is a function of the pattern and the
/// text alone; it is named [`regex_find`], not spelled out, and nothing
/// more is claimed of it.
#[verifier::external_body]
pub(crate) fn find(pattern: &str, text: &str) -> (found: Option<String>)
    ensures
        match found {
            Some(part) => regex_find(pattern@, text@) == Some(part@),
            None => regex_find(pattern@, text@) is None,
        },
{
    match Regex::new(pattern) {
        Ok(regex) => match regex.find(text) {
            Some(found) => Some(found.as_str().to_string()),
            None => None,
        },
        Err(_) => None,
    }
}

} // verus!
