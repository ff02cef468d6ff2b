//! A tokenizer for a small C-like scripting language.
//!
//! [`Lexer`] walks a sequence of characters and yields one [`Token`] per call
//! of [`Lexer::next_token`]. What each call returns, and where it leaves the
//! cursor, is the function [`grammar::scan`] of the input and the cursor's
//! position; the laws proved in [`grammar`] say what follows from that for
//! words, integer literals, illegal characters and the end of the input.

pub mod chars;
pub mod grammar;
pub mod lexer;
pub mod token;

pub use crate::lexer::Lexer;
pub use crate::token::Token;
