//! The lexical grammar as a mathematical function on character sequences.
//!
//! [`scan`] says which token a cursor at a given index meets next and where
//! the cursor stands once the token has been read; [`nth_token`] says what a
//! sequence of calls returns. The lexer's contracts are stated over them, and
//! the proof functions of this module say what they imply.

use crate::chars::{is_digit, is_letter, is_whitespace, CharClass};
use crate::token::{fn_keyword, let_keyword, symbol_token, word_token, SpecToken};
use vstd::prelude::*;

verus! {

/// The character at index `i` of `s`, or `None` past its end.
pub open spec fn char_at(s: Seq<char>, i: nat) -> Option<char> {
    if i < s.len() {
        Some(s[i as int])
    } else {
        None
    }
}

/// The index just past the longest run of characters of `class` that starts at
/// `from`. It is `from` itself where no such character stands at `from`.
pub open spec fn run_end(s: Seq<char>, from: nat, class: CharClass) -> nat
    decreases s.len() - from,
{
    if from < s.len() && class.contains(s[from as int]) {
        run_end(s, from + 1, class)
    } else {
        from
    }
}

/// The index of the first character at or after `from` that is not whitespace.
pub open spec fn token_start(s: Seq<char>, from: nat) -> nat {
    run_end(s, from, CharClass::Whitespace)
}

/// The token that a cursor at `from` meets next, and the index at which the
/// cursor stands after it.
///
/// Whitespace is skipped first. At the end of the input the token is `EOF` and
/// the cursor stays. An operator or punctuation mark is one character long. A
/// letter starts a word, which runs as far as letters and digits go; a digit
/// starts an integer literal, which runs as far as digits go. Any other
/// character is `ILLEGAL` and one character long.
pub open spec fn scan(s: Seq<char>, from: nat) -> (SpecToken, nat) {
    let start = token_start(s, from);
    match char_at(s, start) {
        None => (SpecToken::EOF, start),
        Some(ch) => {
            if symbol_token(ch) is Some {
                (symbol_token(ch).unwrap(), start + 1)
            } else if is_letter(ch) {
                let end = run_end(s, start, CharClass::Word);
                (word_token(s.subrange(start as int, end as int)), end)
            } else if is_digit(ch) {
                let end = run_end(s, start, CharClass::Digit);
                (SpecToken::INT(s.subrange(start as int, end as int)), end)
            } else {
                (SpecToken::ILLEGAL, start + 1)
            }
        },
    }
}

/// The index at which a cursor that started at `from` stands after `calls`
/// tokens have been read.
pub open spec fn position_after(s: Seq<char>, from: nat, calls: nat) -> nat
    decreases calls,
{
    if calls == 0 {
        from
    } else {
        scan(s, position_after(s, from, (calls - 1) as nat)).1
    }
}

/// The token that call number `n`, counted from zero, returns to a caller
/// whose cursor started at `from`.
pub open spec fn nth_token(s: Seq<char>, from: nat, n: nat) -> SpecToken {
    scan(s, position_after(s, from, n)).0
}

/// A run ends inside the input, holds only characters of its class, and stops
/// only at the end of the input or before a character outside the class.
pub proof fn lemma_run_is_maximal(s: Seq<char>, from: nat, class: CharClass)
    requires
        from <= s.len(),
    ensures
        from <= run_end(s, from, class) <= s.len(),
        forall|i: int| from <= i < run_end(s, from, class) ==> class.contains(#[trigger] s[i]),
        run_end(s, from, class) < s.len() ==> !class.contains(
            s[run_end(s, from, class) as int],
        ),
    decreases s.len() - from,
{
    if from < s.len() && class.contains(s[from as int]) {
        lemma_run_is_maximal(s, from + 1, class);
    }
}

/// There is one maximal run from an index: an index `to` that is reached
/// through characters of the class alone, and at which the input ends or a
/// character outside the class stands, is the end of the run.
pub proof fn lemma_run_end_is_unique(s: Seq<char>, from: nat, to: nat, class: CharClass)
    requires
        from <= to <= s.len(),
        forall|i: int| from <= i < to ==> class.contains(#[trigger] s[i]),
        to < s.len() ==> !class.contains(s[to as int]),
    ensures
        run_end(s, from, class) == to,
    decreases to - from,
{
    if from < to {
        lemma_run_end_is_unique(s, from + 1, to, class);
    }
}

/// Every call makes progress: the cursor never moves back, a token other than
/// `EOF` moves it forward by at least one character and never past the end of
/// the input, and `EOF` is returned exactly when nothing but whitespace is
/// left.
pub proof fn lemma_scan_makes_progress(s: Seq<char>, from: nat)
    ensures
        from <= token_start(s, from) <= scan(s, from).1,
        scan(s, from).0 != SpecToken::EOF ==> token_start(s, from) < scan(s, from).1 <= s.len(),
        scan(s, from).0 == SpecToken::EOF <==> token_start(s, from) >= s.len(),
        scan(s, from).0 == SpecToken::EOF ==> scan(s, from).1 == token_start(s, from),
{
    let start = token_start(s, from);
    if from <= s.len() {
        lemma_run_is_maximal(s, from, CharClass::Whitespace);
    }
    if start < s.len() {
        lemma_run_is_maximal(s, start, CharClass::Word);
        lemma_run_is_maximal(s, start, CharClass::Digit);
        lemma_word_token_carries_word(
            s.subrange(start as int, run_end(s, start, CharClass::Word) as int),
        );
    }
}

/// The token of a word carries the word and is neither of the two markers.
proof fn lemma_word_token_carries_word(word: Seq<char>)
    ensures
        word_token(word) != SpecToken::EOF,
        word_token(word) != SpecToken::ILLEGAL,
        word_token(word).text() == word,
{
}

/// What a token carries is a part of the input: the characters from the first
/// one after the whitespace up to the cursor's new position, of which there is
/// at least one. The two markers carry nothing.
pub proof fn lemma_token_text_is_input_slice(s: Seq<char>, from: nat)
    ensures
        scan(s, from).0 == SpecToken::EOF || scan(s, from).0 == SpecToken::ILLEGAL
            ==> scan(s, from).0.text().len() == 0,
        scan(s, from).0 != SpecToken::EOF && scan(s, from).0 != SpecToken::ILLEGAL ==> {
            &&& token_start(s, from) < scan(s, from).1 <= s.len()
            &&& scan(s, from).0.text() == s.subrange(
                token_start(s, from) as int,
                scan(s, from).1 as int,
            )
        },
{
    let start = token_start(s, from);
    lemma_scan_makes_progress(s, from);
    if start < s.len() {
        let ch = s[start as int];
        if symbol_token(ch) is Some {
            assert(symbol_token(ch).unwrap().text() =~= s.subrange(start as int, (start + 1) as int));
        } else if is_letter(ch) {
            lemma_word_token_carries_word(
                s.subrange(start as int, run_end(s, start, CharClass::Word) as int),
            );
        }
    }
}

/// The reserved words are `let` and `fn`. A word is classified by its text
/// alone, and the token carries that text: `LET` for the first, `FUNCTION` for
/// the second, `IDENT` for every other word.
pub proof fn lemma_keywords(word: Seq<char>)
    ensures
        word == let_keyword() ==> word_token(word) == SpecToken::LET(word),
        word == fn_keyword() ==> word_token(word) == SpecToken::FUNCTION(word),
        word != let_keyword() && word != fn_keyword() ==> word_token(word) == SpecToken::IDENT(
            word,
        ),
{
}

/// A word is read whole. Where, after whitespace, a letter stands at `start`
/// and letters and digits run from there up to `end` and no further, one call
/// yields the token of the text between `start` and `end` and leaves the cursor
/// at `end`.
pub proof fn lemma_word_is_read_whole(s: Seq<char>, from: nat, start: nat, end: nat)
    requires
        from <= start < end <= s.len(),
        forall|i: int| from <= i < start ==> is_whitespace(#[trigger] s[i]),
        is_letter(s[start as int]),
        forall|i: int| start <= i < end ==> is_letter(#[trigger] s[i]) || is_digit(s[i]),
        end < s.len() ==> !is_letter(s[end as int]) && !is_digit(s[end as int]),
    ensures
        scan(s, from) == (word_token(s.subrange(start as int, end as int)), end),
{
    lemma_run_end_is_unique(s, from, start, CharClass::Whitespace);
    lemma_run_end_is_unique(s, start, end, CharClass::Word);
}

/// An integer literal is read whole. Where, after whitespace, digits run from
/// `start` up to `end` and no further, one call yields `INT` with the text
/// between `start` and `end` and leaves the cursor at `end`.
pub proof fn lemma_number_is_read_whole(s: Seq<char>, from: nat, start: nat, end: nat)
    requires
        from <= start < end <= s.len(),
        forall|i: int| from <= i < start ==> is_whitespace(#[trigger] s[i]),
        forall|i: int| start <= i < end ==> is_digit(#[trigger] s[i]),
        end < s.len() ==> !is_digit(s[end as int]),
    ensures
        scan(s, from) == (SpecToken::INT(s.subrange(start as int, end as int)), end),
{
    lemma_run_end_is_unique(s, from, start, CharClass::Whitespace);
    lemma_run_end_is_unique(s, start, end, CharClass::Digit);
}

/// An operator or punctuation mark is one character long: where, after
/// whitespace, one stands at `start`, one call yields its token and leaves the
/// cursor just behind it.
pub proof fn lemma_symbol_is_one_character(s: Seq<char>, from: nat, start: nat)
    requires
        from <= start < s.len(),
        forall|i: int| from <= i < start ==> is_whitespace(#[trigger] s[i]),
        symbol_token(s[start as int]) is Some,
    ensures
        scan(s, from) == (symbol_token(s[start as int]).unwrap(), start + 1),
{
    lemma_run_end_is_unique(s, from, start, CharClass::Whitespace);
}

/// A character that starts no token is passed over. Where, after whitespace,
/// a character stands at `start` that is no operator or punctuation mark, no
/// letter and no digit, one call yields `ILLEGAL` and leaves the cursor just
/// behind that character, so that the next call starts beyond it.
pub proof fn lemma_illegal_character_is_passed(s: Seq<char>, from: nat, start: nat)
    requires
        from <= start < s.len(),
        forall|i: int| from <= i < start ==> is_whitespace(#[trigger] s[i]),
        !is_whitespace(s[start as int]),
        symbol_token(s[start as int]) is None,
        !is_letter(s[start as int]),
        !is_digit(s[start as int]),
    ensures
        scan(s, from) == (SpecToken::ILLEGAL, start + 1),
        token_start(s, scan(s, from).1) > start,
{
    lemma_run_end_is_unique(s, from, start, CharClass::Whitespace);
    lemma_run_is_maximal(s, start + 1, CharClass::Whitespace);
}

/// Where nothing but whitespace is left from the cursor on, one call yields
/// `EOF` and leaves the cursor at the end of the input.
pub proof fn lemma_eof_after_whitespace(s: Seq<char>, from: nat)
    requires
        from <= s.len(),
        forall|i: int| from <= i < s.len() ==> is_whitespace(#[trigger] s[i]),
    ensures
        scan(s, from) == (SpecToken::EOF, s.len()),
{
    lemma_run_end_is_unique(s, from, s.len(), CharClass::Whitespace);
}

/// `EOF` repeats: the call after one that returned `EOF` returns `EOF` again
/// and leaves the cursor where it was.
pub proof fn lemma_eof_repeats(s: Seq<char>, from: nat)
    requires
        scan(s, from).0 == SpecToken::EOF,
    ensures
        scan(s, scan(s, from).1) == scan(s, from),
{
    lemma_scan_makes_progress(s, from);
}

/// After `calls` calls the cursor has not moved back, and it has either moved
/// forward by at least `calls` characters or reached the state in which every
/// call returns `EOF`.
pub proof fn lemma_position_after_calls(s: Seq<char>, from: nat, calls: nat)
    ensures
        from <= position_after(s, from, calls),
        from + calls <= position_after(s, from, calls) || nth_token(s, from, calls)
            == SpecToken::EOF,
    decreases calls,
{
    if calls > 0 {
        let before = position_after(s, from, (calls - 1) as nat);
        lemma_position_after_calls(s, from, (calls - 1) as nat);
        lemma_scan_makes_progress(s, before);
        if scan(s, before).0 == SpecToken::EOF {
            lemma_eof_repeats(s, before);
        }
    }
}

/// The lexer terminates: once as many calls have been made as the input has
/// characters from the cursor's first position on, every call returns `EOF`.
/// From the start of the input, `EOF` is reached after at most `s.len() + 1`
/// calls.
pub proof fn lemma_eof_within_input_length(s: Seq<char>, from: nat, n: nat)
    requires
        from + n >= s.len(),
    ensures
        nth_token(s, from, n) == SpecToken::EOF,
{
    lemma_position_after_calls(s, from, n);
    lemma_scan_makes_progress(s, position_after(s, from, n));
}

/// `EOF` is final: once a call has returned `EOF`, every later call returns
/// `EOF` too, and the cursor no longer moves.
pub proof fn lemma_eof_is_final(s: Seq<char>, from: nat, n: nat, m: nat)
    requires
        n <= m,
        nth_token(s, from, n) == SpecToken::EOF,
    ensures
        nth_token(s, from, m) == SpecToken::EOF,
        position_after(s, from, m + 1) == position_after(s, from, n + 1),
    decreases m - n,
{
    if n < m {
        lemma_eof_is_final(s, from, n, (m - 1) as nat);
        lemma_eof_repeats(s, position_after(s, from, (m - 1) as nat));
    }
}

} // verus!
