//! A tokenizer for a small expression and statement language.
//!
//! The source text is held as a sequence of characters with a cursor into it.
//! [`lexer::Lexer::next`] skips whitespace and consumes one token;
//! [`lexer::Lexer::get_token`] reports the same token without consuming it.
//! Token offsets and the cursor count characters, not bytes.
//!
//! What a token is, is defined once, mathematically, in [`grammar`]; the
//! executable scanner in [`lexer`] is proved to compute exactly that, and
//! [`laws`] proves what follows for every source. [`token`] holds the tokens
//! and errors, [`text`] the two standard-library functions that are taken on
//! trust, [`parser`] and [`ast`] what a parser starts from.

pub mod ast;
pub mod grammar;
pub mod laws;
pub mod lexer;
pub mod parser;
pub mod text;
pub mod token;

pub use crate::parser::Parser;
pub use crate::token::Error;
