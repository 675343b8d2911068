//! A lexical analyzer for a small C-like scripting language.
//!
//! Source text is scanned left to right, one character of lookahead,
//! into a stream of tokens ending in a single end-of-file token.

pub mod lexer;
pub mod repl;
pub mod token;

use vstd::prelude::*;

verus! {

/// A character that may start or continue an identifier:
/// an ASCII letter or an underscore.
pub open spec fn is_letter_char(c: char) -> bool {
    ('a' <= c && c <= 'z') || ('A' <= c && c <= 'Z') || c == '_'
}

/// An ASCII decimal digit.
pub open spec fn is_digit_char(c: char) -> bool {
    '0' <= c && c <= '9'
}

/// A character the scanner drops before classifying a token.
pub open spec fn is_whitespace_char(c: char) -> bool {
    c == ' ' || c == '\t' || c == '\n' || c == '\r'
}

/// Decides whether `ch` may appear in an identifier.
///
/// Identifiers consist of ASCII letters and underscores only; a digit
/// ends an identifier and starts an integer literal of its own.
pub fn is_letter(ch: &char) -> (r: bool)
    ensures
        r == is_letter_char(*ch),
{
    ('a' <= *ch && *ch <= 'z') || ('A' <= *ch && *ch <= 'Z') || *ch == '_'
}

/// Decides whether `ch` is an ASCII decimal digit.
pub fn is_digit(ch: &char) -> (r: bool)
    ensures
        r == is_digit_char(*ch),
{
    '0' <= *ch && *ch <= '9'
}

} // verus!
