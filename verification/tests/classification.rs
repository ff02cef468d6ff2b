use lexer::chars::{is_digit, is_letter, is_whitespace, CharClass};
use lexer::token::Token;

fn chars(text: &str) -> Vec<char> {
    text.chars().collect()
}

#[test]
fn letters_are_ascii_letters_and_underscore() {
    for ch in ['a', 'm', 'z', 'A', 'M', 'Z', '_'] {
        assert!(is_letter(ch), "{:?}", ch);
    }
    for ch in ['0', '9', ' ', '`', '{', '@', '[', '-', '\u{e9}', '\u{3bb}', '\u{0}'] {
        assert!(!is_letter(ch), "{:?}", ch);
    }
}

#[test]
fn digits_are_ascii_decimal_digits() {
    for ch in ['0', '1', '5', '9'] {
        assert!(is_digit(ch), "{:?}", ch);
    }
    for ch in ['/', ':', 'a', '_', ' ', '\u{664}', '\u{b2}'] {
        assert!(!is_digit(ch), "{:?}", ch);
    }
}

#[test]
fn whitespace_is_four_characters() {
    for ch in [' ', '\t', '\n', '\r'] {
        assert!(is_whitespace(ch), "{:?}", ch);
    }
    for ch in ['\u{b}', '\u{c}', '\u{a0}', '\u{2028}', 'a', '0', '_'] {
        assert!(!is_whitespace(ch), "{:?}", ch);
    }
}

#[test]
fn classes_hold_their_characters() {
    assert!(CharClass::Whitespace.contains(' '));
    assert!(!CharClass::Whitespace.contains('a'));
    assert!(CharClass::Word.contains('a'));
    assert!(CharClass::Word.contains('_'));
    assert!(CharClass::Word.contains('7'));
    assert!(!CharClass::Word.contains('-'));
    assert!(!CharClass::Word.contains(' '));
    assert!(CharClass::Digit.contains('7'));
    assert!(!CharClass::Digit.contains('a'));
    assert!(!CharClass::Digit.contains('_'));
}

#[test]
fn symbols_carry_their_character() {
    assert_eq!(Token::from_symbol('='), Some(Token::EQUAL('=')));
    assert_eq!(Token::from_symbol('+'), Some(Token::PLUS('+')));
    assert_eq!(Token::from_symbol(','), Some(Token::COMMA(',')));
    assert_eq!(Token::from_symbol(';'), Some(Token::SEMICOLON(';')));
    assert_eq!(Token::from_symbol('('), Some(Token::LPAREN('(')));
    assert_eq!(Token::from_symbol(')'), Some(Token::RPAREN(')')));
    assert_eq!(Token::from_symbol('{'), Some(Token::LBRACE('{')));
    assert_eq!(Token::from_symbol('}'), Some(Token::RBRACE('}')));
}

#[test]
fn other_characters_are_no_symbols() {
    for ch in ['a', '0', ' ', '-', '*', '[', ']', '<', '@', '_'] {
        assert_eq!(Token::from_symbol(ch), None, "{:?}", ch);
    }
}

#[test]
fn words_are_classified_by_their_text() {
    assert_eq!(Token::from_word(chars("let")), Token::LET(chars("let")));
    assert_eq!(Token::from_word(chars("fn")), Token::FUNCTION(chars("fn")));
    for word in ["five", "result", "le", "lex", "letx", "f", "fm", "fnn", "Let", "FN", "tel", "nf"] {
        assert_eq!(Token::from_word(chars(word)), Token::IDENT(chars(word)), "{:?}", word);
    }
}

#[test]
fn clone_keeps_the_token() {
    let all = [
        Token::ILLEGAL,
        Token::EOF,
        Token::IDENT(chars("five")),
        Token::INT(chars("10")),
        Token::EQUAL('='),
        Token::PLUS('+'),
        Token::COMMA(','),
        Token::SEMICOLON(';'),
        Token::LPAREN('('),
        Token::RPAREN(')'),
        Token::LBRACE('{'),
        Token::RBRACE('}'),
        Token::FUNCTION(chars("fn")),
        Token::LET(chars("let")),
    ];
    for token in all.iter() {
        assert_eq!(token.clone(), *token);
    }
}

#[test]
fn tokens_of_different_kinds_differ() {
    assert_ne!(Token::IDENT(chars("let")), Token::LET(chars("let")));
    assert_ne!(Token::IDENT(chars("fn")), Token::FUNCTION(chars("fn")));
    assert_ne!(Token::INT(chars("1")), Token::IDENT(chars("1")));
    assert_ne!(Token::EOF, Token::ILLEGAL);
    assert_ne!(Token::LPAREN('('), Token::RPAREN('('));
}
