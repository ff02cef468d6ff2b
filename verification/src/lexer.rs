//! The lexer: a forward-only cursor over the input that yields one token per
//! call.

use crate::chars::{is_digit, is_letter, is_whitespace, CharClass};
use crate::grammar::{char_at, run_end, scan, token_start};
use crate::token::Token;
use vstd::prelude::*;

verus! {

/// The mathematical state of a [`Lexer`]: the input and the cursor over it.
pub struct Cursor {
    /// The whole input.
    pub input: Seq<char>,
    /// The index of the character under examination.
    pub position: nat,
    /// The index of the character that is read next.
    pub read_position: nat,
    /// The character under examination; `None` before the first advance and
    /// past the end of the input.
    pub ch: Option<char>,
}

impl Cursor {
    /// The state of a cursor over `input` that has advanced onto `position`.
    pub open spec fn at(input: Seq<char>, position: nat) -> Cursor {
        Cursor {
            input,
            position,
            read_position: position + 1,
            ch: char_at(input, position),
        }
    }

    /// The state before the first advance.
    pub open spec fn unprimed(input: Seq<char>) -> Cursor {
        Cursor { input, position: 0, read_position: 0, ch: None }
    }

    /// Whether at least one advance has been made: the read position is one
    /// past the position, and the character is the one at the position.
    pub open spec fn primed(self) -> bool {
        self == Cursor::at(self.input, self.position)
    }
}

/// A lexer over a sequence of characters.
pub struct Lexer {
    input: Vec<char>,
    position: usize,
    read_position: usize,
    ch: Option<char>,
}

impl View for Lexer {
    type V = Cursor;

    closed spec fn view(&self) -> Cursor {
        Cursor {
            input: self.input@,
            position: self.position as nat,
            read_position: self.read_position as nat,
            ch: self.ch,
        }
    }
}

impl Lexer {
    /// A lexer over `input` whose cursor has not advanced yet. Advance once
    /// with [`Lexer::read_char`] before the first [`Lexer::next_token`].
    pub fn new(input: Vec<char>) -> (lexer: Lexer)
        ensures
            lexer@ == Cursor::unprimed(input@),
    {
        Lexer { input, position: 0, read_position: 0, ch: None }
    }

    /// Advances the cursor by one character: the read position becomes the
    /// position, and the character there, if any, the current one. Past the end
    /// of the input the cursor keeps moving and the current character is
    /// `None`.
    ///
    /// The new read position has to fit in `usize`.
    pub fn read_char(&mut self)
        requires
            old(self)@.read_position < usize::MAX,
        ensures
            final(self)@ == Cursor::at(old(self)@.input, old(self)@.read_position),
    {
        if self.read_position >= self.input.len() {
            self.ch = None;
        } else {
            self.ch = Some(self.input[self.read_position]);
        }
        self.position = self.read_position;
        self.read_position = self.read_position + 1;
    }

    /// The character that the next advance makes current, without advancing.
    pub fn peek_char(&self) -> (ch: Option<char>)
        ensures
            ch == char_at(self@.input, self@.read_position),
    {
        if self.read_position >= self.input.len() {
            None
        } else {
            Some(self.input[self.read_position])
        }
    }

    /// Advances past the whitespace at the cursor.
    fn skip_whitespace(&mut self)
        requires
            old(self)@.primed(),
            old(self)@.input.len() < usize::MAX,
        ensures
            final(self)@ == Cursor::at(
                old(self)@.input,
                token_start(old(self)@.input, old(self)@.position),
            ),
    {
        loop
            invariant
                self@.primed(),
                self@.input == old(self)@.input,
                self@.input.len() < usize::MAX,
                old(self)@.position <= self@.position,
                token_start(self@.input, self@.position) == token_start(
                    old(self)@.input,
                    old(self)@.position,
                ),
            ensures
                self@.position == token_start(old(self)@.input, old(self)@.position),
            decreases self@.input.len() - self@.position,
        {
            match self.ch {
                Some(ch) => {
                    if is_whitespace(ch) {
                        self.read_char();
                    } else {
                        break ;
                    }
                },
                None => {
                    break ;
                },
            }
        }
    }

    /// Reads the run of characters of `class` that starts with `first`, the
    /// character under the cursor, and leaves the cursor on the first character
    /// after the run.
    fn read_run(&mut self, first: char, class: CharClass) -> (text: Vec<char>)
        requires
            old(self)@.primed(),
            old(self)@.input.len() < usize::MAX,
            old(self)@.ch == Some(first),
            class.contains(first),
        ensures
            final(self)@ == Cursor::at(
                old(self)@.input,
                run_end(old(self)@.input, old(self)@.position, class),
            ),
            text@ == old(self)@.input.subrange(
                old(self)@.position as int,
                run_end(old(self)@.input, old(self)@.position, class) as int,
            ),
    {
        let ghost input = self@.input;
        let ghost start = self@.position;
        let mut text: Vec<char> = Vec::new();
        text.push(first);
        loop
            invariant
                self@.primed(),
                self@.input == input,
                input.len() < usize::MAX,
                start <= self@.position < input.len(),
                class.contains(input[self@.position as int]),
                run_end(input, self@.position, class) == run_end(input, start, class),
                text@ == input.subrange(start as int, (self@.position + 1) as int),
            ensures
                self@.primed(),
                self@.input == input,
                self@.position + 1 == run_end(input, start, class),
                text@ == input.subrange(start as int, (self@.position + 1) as int),
            decreases input.len() - self@.position,
        {
            match self.peek_char() {
                Some(next) => {
                    if class.contains(next) {
                        self.read_char();
                        text.push(next);
                    } else {
                        assert(run_end(input, self@.position + 1, class) == self@.position + 1);
                        break ;
                    }
                },
                None => {
                    assert(run_end(input, self@.position + 1, class) == self@.position + 1);
                    break ;
                },
            }
        }
        self.read_char();
        text
    }

    /// Reads the next token and leaves the cursor on the first character after
    /// it. At the end of the input the token is `EOF` and the cursor stays.
    ///
    /// The cursor has to be primed, and the input shorter than `usize::MAX`, so
    /// that the read position just past its end fits in `usize`.
    pub fn next_token(&mut self) -> (token: Token)
        requires
            old(self)@.primed(),
            old(self)@.input.len() < usize::MAX,
        ensures
            token@ == scan(old(self)@.input, old(self)@.position).0,
            final(self)@ == Cursor::at(
                old(self)@.input,
                scan(old(self)@.input, old(self)@.position).1,
            ),
    {
        self.skip_whitespace();
        match self.ch {
            None => Token::EOF,
            Some(ch) => {
                match Token::from_symbol(ch) {
                    Some(token) => {
                        self.read_char();
                        token
                    },
                    None => {
                        if is_letter(ch) {
                            Token::from_word(self.read_run(ch, CharClass::Word))
                        } else if is_digit(ch) {
                            Token::INT(self.read_run(ch, CharClass::Digit))
                        } else {
                            self.read_char();
                            Token::ILLEGAL
                        }
                    },
                }
            },
        }
    }
}

} // verus!
