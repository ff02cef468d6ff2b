//! Tokens and their classification.

use vstd::prelude::*;

verus! {

/// A classified unit of the input.
///
/// Punctuation and operators carry the character they were read from; words and
/// integer literals carry their text.
#[derive(Debug, PartialEq, Eq)]
pub enum Token {
    /// A character that starts no token of the language. The character itself
    /// is dropped.
    ILLEGAL,
    /// The end of the input.
    EOF,
    /// An identifier, with its text.
    IDENT(Vec<char>),
    /// An integer literal, with its digits.
    INT(Vec<char>),
    /// `=`
    EQUAL(char),
    /// `+`
    PLUS(char),
    /// `,`
    COMMA(char),
    /// `;`
    SEMICOLON(char),
    /// `(`
    LPAREN(char),
    /// `)`
    RPAREN(char),
    /// `{`
    LBRACE(char),
    /// `}`
    RBRACE(char),
    /// The keyword `fn`.
    FUNCTION(Vec<char>),
    /// The keyword `let`.
    LET(Vec<char>),
}

/// The mathematical value of a [`Token`]: the same variants, with texts as
/// sequences.
pub enum SpecToken {
    ILLEGAL,
    EOF,
    IDENT(Seq<char>),
    INT(Seq<char>),
    EQUAL(char),
    PLUS(char),
    COMMA(char),
    SEMICOLON(char),
    LPAREN(char),
    RPAREN(char),
    LBRACE(char),
    RBRACE(char),
    FUNCTION(Seq<char>),
    LET(Seq<char>),
}

impl View for Token {
    type V = SpecToken;

    open spec fn view(&self) -> SpecToken {
        match *self {
            Token::ILLEGAL => SpecToken::ILLEGAL,
            Token::EOF => SpecToken::EOF,
            Token::IDENT(text) => SpecToken::IDENT(text@),
            Token::INT(text) => SpecToken::INT(text@),
            Token::EQUAL(ch) => SpecToken::EQUAL(ch),
            Token::PLUS(ch) => SpecToken::PLUS(ch),
            Token::COMMA(ch) => SpecToken::COMMA(ch),
            Token::SEMICOLON(ch) => SpecToken::SEMICOLON(ch),
            Token::LPAREN(ch) => SpecToken::LPAREN(ch),
            Token::RPAREN(ch) => SpecToken::RPAREN(ch),
            Token::LBRACE(ch) => SpecToken::LBRACE(ch),
            Token::RBRACE(ch) => SpecToken::RBRACE(ch),
            Token::FUNCTION(text) => SpecToken::FUNCTION(text@),
            Token::LET(text) => SpecToken::LET(text@),
        }
    }
}

impl Clone for Token {
    fn clone(&self) -> (token: Token)
        ensures
            token@ == self@,
    {
        match self {
            Token::ILLEGAL => Token::ILLEGAL,
            Token::EOF => Token::EOF,
            Token::IDENT(text) => Token::IDENT(text.clone()),
            Token::INT(text) => Token::INT(text.clone()),
            Token::EQUAL(ch) => Token::EQUAL(*ch),
            Token::PLUS(ch) => Token::PLUS(*ch),
            Token::COMMA(ch) => Token::COMMA(*ch),
            Token::SEMICOLON(ch) => Token::SEMICOLON(*ch),
            Token::LPAREN(ch) => Token::LPAREN(*ch),
            Token::RPAREN(ch) => Token::RPAREN(*ch),
            Token::LBRACE(ch) => Token::LBRACE(*ch),
            Token::RBRACE(ch) => Token::RBRACE(*ch),
            Token::FUNCTION(text) => Token::FUNCTION(text.clone()),
            Token::LET(text) => Token::LET(text.clone()),
        }
    }
}

impl SpecToken {
    /// The characters that the token carries, in order; empty for the two
    /// markers.
    pub open spec fn text(self) -> Seq<char> {
        match self {
            SpecToken::ILLEGAL | SpecToken::EOF => Seq::empty(),
            SpecToken::IDENT(text)
            | SpecToken::INT(text)
            | SpecToken::FUNCTION(text)
            | SpecToken::LET(text) => text,
            SpecToken::EQUAL(ch)
            | SpecToken::PLUS(ch)
            | SpecToken::COMMA(ch)
            | SpecToken::SEMICOLON(ch)
            | SpecToken::LPAREN(ch)
            | SpecToken::RPAREN(ch)
            | SpecToken::LBRACE(ch)
            | SpecToken::RBRACE(ch) => seq![ch],
        }
    }
}

/// The text of the keyword that introduces a binding.
pub open spec fn let_keyword() -> Seq<char> {
    seq!['l', 'e', 't']
}

/// The text of the keyword that introduces a function literal.
pub open spec fn fn_keyword() -> Seq<char> {
    seq!['f', 'n']
}

/// The token of a single-character operator or punctuation mark, if `ch` is one.
pub open spec fn symbol_token(ch: char) -> Option<SpecToken> {
    if ch == '=' {
        Some(SpecToken::EQUAL(ch))
    } else if ch == '+' {
        Some(SpecToken::PLUS(ch))
    } else if ch == ',' {
        Some(SpecToken::COMMA(ch))
    } else if ch == ';' {
        Some(SpecToken::SEMICOLON(ch))
    } else if ch == '(' {
        Some(SpecToken::LPAREN(ch))
    } else if ch == ')' {
        Some(SpecToken::RPAREN(ch))
    } else if ch == '{' {
        Some(SpecToken::LBRACE(ch))
    } else if ch == '}' {
        Some(SpecToken::RBRACE(ch))
    } else {
        None
    }
}

/// The token of a word: a keyword where the word is reserved, an identifier
/// otherwise. The token carries the word either way.
pub open spec fn word_token(word: Seq<char>) -> SpecToken {
    if word =~= let_keyword() {
        SpecToken::LET(word)
    } else if word =~= fn_keyword() {
        SpecToken::FUNCTION(word)
    } else {
        SpecToken::IDENT(word)
    }
}

impl Token {
    /// Classifies a single character as an operator or punctuation mark.
    pub fn from_symbol(ch: char) -> (token: Option<Token>)
        ensures
            match token {
                Some(t) => symbol_token(ch) == Some(t@),
                None => symbol_token(ch) is None,
            },
    {
        if ch == '=' {
            Some(Token::EQUAL(ch))
        } else if ch == '+' {
            Some(Token::PLUS(ch))
        } else if ch == ',' {
            Some(Token::COMMA(ch))
        } else if ch == ';' {
            Some(Token::SEMICOLON(ch))
        } else if ch == '(' {
            Some(Token::LPAREN(ch))
        } else if ch == ')' {
            Some(Token::RPAREN(ch))
        } else if ch == '{' {
            Some(Token::LBRACE(ch))
        } else if ch == '}' {
            Some(Token::RBRACE(ch))
        } else {
            None
        }
    }

    /// Classifies a word as a keyword or an identifier.
    pub fn from_word(word: Vec<char>) -> (token: Token)
        ensures
            token@ == word_token(word@),
    {
        if word.len() == 3 && word[0] == 'l' && word[1] == 'e' && word[2] == 't' {
            Token::LET(word)
        } else if word.len() == 2 && word[0] == 'f' && word[1] == 'n' {
            Token::FUNCTION(word)
        } else {
            Token::IDENT(word)
        }
    }
}

} // verus!
