//! Character classes of the language.
//!
//! Each class is a spec predicate on a single character together with an
//! executable function that computes it.

use vstd::prelude::*;

verus! {

/// Letters are the ASCII letters and the underscore.
pub open spec fn spec_is_letter(ch: char) -> bool {
    'a' <= ch <= 'z' || 'A' <= ch <= 'Z' || ch == '_'
}

/// Digits are the ASCII decimal digits.
pub open spec fn spec_is_digit(ch: char) -> bool {
    '0' <= ch <= '9'
}

/// Whitespace is space, tab, line feed and carriage return.
pub open spec fn spec_is_whitespace(ch: char) -> bool {
    ch == ' ' || ch == '\t' || ch == '\n' || ch == '\r'
}

#[verifier::when_used_as_spec(spec_is_letter)]
pub fn is_letter(ch: char) -> (b: bool)
    ensures
        b == spec_is_letter(ch),
{
    'a' <= ch && ch <= 'z' || 'A' <= ch && ch <= 'Z' || ch == '_'
}

#[verifier::when_used_as_spec(spec_is_digit)]
pub fn is_digit(ch: char) -> (b: bool)
    ensures
        b == spec_is_digit(ch),
{
    '0' <= ch && ch <= '9'
}

#[verifier::when_used_as_spec(spec_is_whitespace)]
pub fn is_whitespace(ch: char) -> (b: bool)
    ensures
        b == spec_is_whitespace(ch),
{
    ch == ' ' || ch == '\t' || ch == '\n' || ch == '\r'
}

/// The classes of characters that the lexer consumes as a run.
#[derive(Clone, Copy, Debug, PartialEq, Eq)]
pub enum CharClass {
    /// Characters skipped between tokens.
    Whitespace,
    /// Characters that continue an identifier or keyword: letters and digits.
    Word,
    /// Characters of an integer literal.
    Digit,
}

impl CharClass {
    /// Whether `ch` belongs to the class.
    pub open spec fn spec_contains(self, ch: char) -> bool {
        match self {
            CharClass::Whitespace => is_whitespace(ch),
            CharClass::Word => is_letter(ch) || is_digit(ch),
            CharClass::Digit => is_digit(ch),
        }
    }

    #[verifier::when_used_as_spec(spec_contains)]
    pub fn contains(self, ch: char) -> (b: bool)
        ensures
            b == self.spec_contains(ch),
    {
        match self {
            CharClass::Whitespace => is_whitespace(ch),
            CharClass::Word => is_letter(ch) || is_digit(ch),
            CharClass::Digit => is_digit(ch),
        }
    }
}

} // verus!
