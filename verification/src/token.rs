//! Tokens, their kinds, lexical errors, and the mathematical view of each.

use vstd::prelude::*;
use vstd::std_specs::cmp::PartialEqSpecImpl;

verus! {

/// Why a scan failed. Every failure ends the current scan only: the cursor
/// stands just past the offending characters and scanning may go on.
#[derive(Debug, Clone, Copy, PartialEq, Eq, Structural)]
pub enum Error {
    /// A character that starts no token.
    UnknownCodepoint,
    /// The input ended inside a string literal or inside an escape sequence.
    UnterminatedString,
    /// A backslash followed by a character that names no escape.
    InvalidEscapeSequence,
    /// A `!` that is not followed by `=`.
    InvalidOperator,
    /// A raw line feed or carriage return inside a string literal.
    InvalidMultiLineString,
    /// An integer literal whose value does not fit in an `i64`.
    IntegerOverflow,
}

/// The lexical category of a token, with its decoded payload. Two kinds are
/// equal when they are of the same category and carry the same payload.
#[derive(Clone, Debug)]
pub enum TokenKind {
    /// A name that is not a keyword; carries its text.
    Identifier(String),
    /// A string literal; carries the decoded text, escapes resolved.
    String(String),
    /// An integer literal; carries its value.
    Integer(i64),
    /// Reserved; the scanner never produces it.
    Constant,
    Plus,
    Minus,
    Star,
    Slash,
    Modulo,
    ShiftRight,
    ShiftLeft,
    Tilde,
    And,
    Or,
    Equal,
    NotEqual,
    Gt,
    GtEq,
    Lt,
    LtEq,
    Assign,
    Dot,
    Semicolon,
    Colon,
    Comma,
    ParenOpen,
    ParenClose,
    SquareOpen,
    SquareClose,
    CurlyOpen,
    CurlyClose,
    Fn,
    If,
    Else,
    Let,
    EndOfFile,
}

/// What a [`TokenKind`] stands for: the same categories, with texts as
/// character sequences and the integer as a mathematical integer.
pub ghost enum KindView {
    Identifier(Seq<char>),
    String(Seq<char>),
    Integer(int),
    Constant,
    Plus,
    Minus,
    Star,
    Slash,
    Modulo,
    ShiftRight,
    ShiftLeft,
    Tilde,
    And,
    Or,
    Equal,
    NotEqual,
    Gt,
    GtEq,
    Lt,
    LtEq,
    Assign,
    Dot,
    Semicolon,
    Colon,
    Comma,
    ParenOpen,
    ParenClose,
    SquareOpen,
    SquareClose,
    CurlyOpen,
    CurlyClose,
    Fn,
    If,
    Else,
    Let,
    EndOfFile,
}

impl View for TokenKind {
    type V = KindView;

    open spec fn view(&self) -> KindView {
        match *self {
            TokenKind::Identifier(text) => KindView::Identifier(text@),
            TokenKind::String(text) => KindView::String(text@),
            TokenKind::Integer(value) => KindView::Integer(value as int),
            TokenKind::Constant => KindView::Constant,
            TokenKind::Plus => KindView::Plus,
            TokenKind::Minus => KindView::Minus,
            TokenKind::Star => KindView::Star,
            TokenKind::Slash => KindView::Slash,
            TokenKind::Modulo => KindView::Modulo,
            TokenKind::ShiftRight => KindView::ShiftRight,
            TokenKind::ShiftLeft => KindView::ShiftLeft,
            TokenKind::Tilde => KindView::Tilde,
            TokenKind::And => KindView::And,
            TokenKind::Or => KindView::Or,
            TokenKind::Equal => KindView::Equal,
            TokenKind::NotEqual => KindView::NotEqual,
            TokenKind::Gt => KindView::Gt,
            TokenKind::GtEq => KindView::GtEq,
            TokenKind::Lt => KindView::Lt,
            TokenKind::LtEq => KindView::LtEq,
            TokenKind::Assign => KindView::Assign,
            TokenKind::Dot => KindView::Dot,
            TokenKind::Semicolon => KindView::Semicolon,
            TokenKind::Colon => KindView::Colon,
            TokenKind::Comma => KindView::Comma,
            TokenKind::ParenOpen => KindView::ParenOpen,
            TokenKind::ParenClose => KindView::ParenClose,
            TokenKind::SquareOpen => KindView::SquareOpen,
            TokenKind::SquareClose => KindView::SquareClose,
            TokenKind::CurlyOpen => KindView::CurlyOpen,
            TokenKind::CurlyClose => KindView::CurlyClose,
            TokenKind::Fn => KindView::Fn,
            TokenKind::If => KindView::If,
            TokenKind::Else => KindView::Else,
            TokenKind::Let => KindView::Let,
            TokenKind::EndOfFile => KindView::EndOfFile,
        }
    }
}

impl PartialEq for TokenKind {
    fn eq(&self, other: &TokenKind) -> (r: bool) {
        match self {
            TokenKind::Identifier(a) => match other {
                TokenKind::Identifier(b) => *a == *b,
                _ => false,
            },
            TokenKind::String(a) => match other {
                TokenKind::String(b) => *a == *b,
                _ => false,
            },
            TokenKind::Integer(a) => match other {
                TokenKind::Integer(b) => *a == *b,
                _ => false,
            },
            TokenKind::Constant => matches!(other, TokenKind::Constant),
            TokenKind::Plus => matches!(other, TokenKind::Plus),
            TokenKind::Minus => matches!(other, TokenKind::Minus),
            TokenKind::Star => matches!(other, TokenKind::Star),
            TokenKind::Slash => matches!(other, TokenKind::Slash),
            TokenKind::Modulo => matches!(other, TokenKind::Modulo),
            TokenKind::ShiftRight => matches!(other, TokenKind::ShiftRight),
            TokenKind::ShiftLeft => matches!(other, TokenKind::ShiftLeft),
            TokenKind::Tilde => matches!(other, TokenKind::Tilde),
            TokenKind::And => matches!(other, TokenKind::And),
            TokenKind::Or => matches!(other, TokenKind::Or),
            TokenKind::Equal => matches!(other, TokenKind::Equal),
            TokenKind::NotEqual => matches!(other, TokenKind::NotEqual),
            TokenKind::Gt => matches!(other, TokenKind::Gt),
            TokenKind::GtEq => matches!(other, TokenKind::GtEq),
            TokenKind::Lt => matches!(other, TokenKind::Lt),
            TokenKind::LtEq => matches!(other, TokenKind::LtEq),
            TokenKind::Assign => matches!(other, TokenKind::Assign),
            TokenKind::Dot => matches!(other, TokenKind::Dot),
            TokenKind::Semicolon => matches!(other, TokenKind::Semicolon),
            TokenKind::Colon => matches!(other, TokenKind::Colon),
            TokenKind::Comma => matches!(other, TokenKind::Comma),
            TokenKind::ParenOpen => matches!(other, TokenKind::ParenOpen),
            TokenKind::ParenClose => matches!(other, TokenKind::ParenClose),
            TokenKind::SquareOpen => matches!(other, TokenKind::SquareOpen),
            TokenKind::SquareClose => matches!(other, TokenKind::SquareClose),
            TokenKind::CurlyOpen => matches!(other, TokenKind::CurlyOpen),
            TokenKind::CurlyClose => matches!(other, TokenKind::CurlyClose),
            TokenKind::Fn => matches!(other, TokenKind::Fn),
            TokenKind::If => matches!(other, TokenKind::If),
            TokenKind::Else => matches!(other, TokenKind::Else),
            TokenKind::Let => matches!(other, TokenKind::Let),
            TokenKind::EndOfFile => matches!(other, TokenKind::EndOfFile),
        }
    }
}

impl PartialEqSpecImpl for TokenKind {
    open spec fn obeys_eq_spec() -> bool {
        true
    }

    open spec fn eq_spec(&self, other: &TokenKind) -> bool {
        self@ == other@
    }
}

/// One token: its kind and the index of its first character in the source.
/// Two tokens are equal when their kinds and their offsets are.
#[derive(Clone, Debug)]
pub struct Token {
    pub kind: TokenKind,
    pub offset: usize,
}

/// What a [`Token`] stands for.
pub ghost struct TokenView {
    pub kind: KindView,
    pub offset: int,
}

impl View for Token {
    type V = TokenView;

    open spec fn view(&self) -> TokenView {
        TokenView { kind: self.kind@, offset: self.offset as int }
    }
}

impl PartialEq for Token {
    fn eq(&self, other: &Token) -> (r: bool) {
        self.kind == other.kind && self.offset == other.offset
    }
}

impl PartialEqSpecImpl for Token {
    open spec fn obeys_eq_spec() -> bool {
        true
    }

    open spec fn eq_spec(&self, other: &Token) -> bool {
        self@ == other@
    }
}

impl Token {
    /// A token of the given kind that starts at `offset`.
    pub fn new(kind: TokenKind, offset: usize) -> (token: Token)
        ensures
            token.kind == kind,
            token.offset == offset,
    {
        Token { kind, offset }
    }
}

} // verus!
