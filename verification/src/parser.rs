//! The parser's hold on the token stream: a lexer, and the two ways of
//! drawing a token from it that a parser needs.

use vstd::prelude::*;
use crate::grammar::{next_token, peek_token};
use crate::lexer::Lexer;
use crate::token::Token;

verus! {

/// A parser over one source text.
pub struct Parser {
    lexer: Lexer,
}

impl Parser {
    /// The lexer that the parser draws its tokens from.
    pub closed spec fn lexer(&self) -> Lexer {
        self.lexer
    }

    /// A parser over `source`, about to read its first token.
    pub fn from_source(source: &str) -> (parser: Parser)
        ensures
            parser.lexer().source@ == source@,
            parser.lexer().current == 0,
    {
        Parser::from_lexer(Lexer::new(source))
    }

    /// A parser that goes on where `lexer` stands.
    pub fn from_lexer(lexer: Lexer) -> (parser: Parser)
        ensures
            parser.lexer() == lexer,
    {
        Parser { lexer }
    }

    /// Consumes the next token and returns it, or `None` where the scan
    /// fails. The cursor moves as [`Lexer::next`] moves it in either case.
    pub fn advance(&mut self) -> (token: Option<Token>)
        ensures
            final(self).lexer().source == old(self).lexer().source,
            final(self).lexer().current == next_token(
                old(self).lexer().source@,
                old(self).lexer().current as int,
            ).end,
            match token {
                Some(t) => next_token(
                    old(self).lexer().source@,
                    old(self).lexer().current as int,
                ).result == Ok::<_, crate::token::Error>(t@),
                None => next_token(
                    old(self).lexer().source@,
                    old(self).lexer().current as int,
                ).result is Err,
            },
    {
        match self.lexer.next() {
            Ok(tk) => Some(tk),
            Err(_) => None,
        }
    }

    /// Returns the next token without consuming it, or `None` where the scan
    /// fails. The lexer is left as it was.
    pub fn peek(&mut self) -> (token: Option<Token>)
        ensures
            final(self).lexer().source == old(self).lexer().source,
            final(self).lexer().current == peek_token(
                old(self).lexer().source@,
                old(self).lexer().current as int,
            ).end,
            match token {
                Some(t) => peek_token(
                    old(self).lexer().source@,
                    old(self).lexer().current as int,
                ).result == Ok::<_, crate::token::Error>(t@),
                None => peek_token(
                    old(self).lexer().source@,
                    old(self).lexer().current as int,
                ).result is Err,
            },
    {
        match self.lexer.get_token() {
            Ok(tk) => Some(tk),
            Err(_) => None,
        }
    }
}

} // verus!
