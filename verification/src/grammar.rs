//! The lexical grammar, as mathematics.
//!
//! Everything here is a function of the source, a sequence of characters, and
//! of a position in it. [`token_at`] says which token starts at a position
//! and where it ends; [`next_token`] first steps over whitespace. The
//! executable scanner is specified against these two functions.

use vstd::prelude::*;
use crate::text::unicode_whitespace;
use crate::token::{Error, KindView, TokenView};

verus! {

/// The outcome of scanning one item: what was recognised, or why not, and the
/// position just past the characters that were consumed either way.
pub ghost struct Scan<T> {
    pub result: Result<T, Error>,
    pub end: int,
}

/// The three kinds of character run that the scanner consumes greedily.
pub ghost enum CharClass {
    /// Characters skipped between tokens.
    Whitespace,
    /// Characters of identifiers and keywords.
    Identifier,
    /// Characters of integer literals: digits and the `_` separator.
    Number,
}

/// The decimal digits `0` to `9`.
pub open spec fn is_digit(c: char) -> bool {
    '0' <= c <= '9'
}

/// ASCII letters, decimal digits and the underscore.
pub open spec fn is_identifier_char(c: char) -> bool {
    ('a' <= c <= 'z') || ('A' <= c <= 'Z') || is_digit(c) || c == '_'
}

/// Whether `c` belongs to `class`.
pub open spec fn in_class(class: CharClass, c: char) -> bool {
    match class {
        CharClass::Whitespace => unicode_whitespace(c),
        CharClass::Identifier => is_identifier_char(c),
        CharClass::Number => is_digit(c) || c == '_',
    }
}

/// Where the longest run of `class` characters that starts at `from` ends:
/// the first position from `from` on that holds no character of `class`.
pub open spec fn run_end(s: Seq<char>, class: CharClass, from: int) -> int
    decreases s.len() - from,
{
    if 0 <= from < s.len() && in_class(class, s[from]) {
        run_end(s, class, from + 1)
    } else {
        from
    }
}

/// The value of one decimal digit.
pub open spec fn digit_value(c: char) -> int {
    c as int - '0' as int
}

/// The number that a run of digits and `_` separators writes in base ten.
/// A separator adds nothing to the value.
pub open spec fn decimal_value(run: Seq<char>) -> int
    decreases run.len(),
{
    if run.len() == 0 {
        0
    } else if run.last() == '_' {
        decimal_value(run.drop_last())
    } else {
        10 * decimal_value(run.drop_last()) + digit_value(run.last())
    }
}

/// The keyword table: the kind of `text` if it is exactly a keyword.
pub open spec fn keyword(text: Seq<char>) -> Option<KindView> {
    if text == seq!['i', 'f'] {
        Some(KindView::If)
    } else if text == seq!['e', 'l', 's', 'e'] {
        Some(KindView::Else)
    } else if text == seq!['l', 'e', 't'] {
        Some(KindView::Let)
    } else if text == seq!['f', 'n'] {
        Some(KindView::Fn)
    } else {
        None
    }
}

/// The kind of a run of identifier characters: a keyword on an exact match
/// with the table, else an identifier that carries the text.
pub open spec fn word_kind(text: Seq<char>) -> KindView {
    match keyword(text) {
        Some(kind) => kind,
        None => KindView::Identifier(text),
    }
}

/// The escape table: the character that a backslash followed by `c` stands
/// for, if there is one.
pub open spec fn escape(c: char) -> Option<char> {
    if c == 'r' {
        Some('\r')
    } else if c == 'n' {
        Some('\n')
    } else if c == 't' {
        Some('\t')
    } else if c == 'e' {
        Some('\x1B')
    } else if c == '"' || c == '\'' || c == '\\' {
        Some(c)
    } else {
        None
    }
}

/// A string literal's body from `at` on, up to and including the closing
/// quote; `decoded` is what the body before `at` has decoded to.
///
/// A backslash takes the next character with it, which must name an escape.
/// A raw line feed or carriage return is refused. The input may not end
/// before the closing quote, nor directly after a backslash.
pub open spec fn string_body(s: Seq<char>, at: int, decoded: Seq<char>) -> Scan<Seq<char>>
    decreases s.len() - at,
{
    if at < 0 || at >= s.len() {
        Scan { result: Err(Error::UnterminatedString), end: at }
    } else if s[at] == '\\' {
        if at + 1 >= s.len() {
            Scan { result: Err(Error::UnterminatedString), end: at + 1 }
        } else {
            match escape(s[at + 1]) {
                Some(c) => string_body(s, at + 2, decoded.push(c)),
                None => Scan { result: Err(Error::InvalidEscapeSequence), end: at + 2 },
            }
        }
    } else if s[at] == '\n' || s[at] == '\r' {
        Scan { result: Err(Error::InvalidMultiLineString), end: at + 1 }
    } else if s[at] == '"' {
        Scan { result: Ok(decoded), end: at + 1 }
    } else {
        string_body(s, at + 1, decoded.push(s[at]))
    }
}

/// Operators and punctuation of one character that no second character can
/// extend.
pub open spec fn single_char_kind(c: char) -> Option<KindView> {
    if c == '.' {
        Some(KindView::Dot)
    } else if c == ':' {
        Some(KindView::Colon)
    } else if c == ',' {
        Some(KindView::Comma)
    } else if c == ';' {
        Some(KindView::Semicolon)
    } else if c == '(' {
        Some(KindView::ParenOpen)
    } else if c == ')' {
        Some(KindView::ParenClose)
    } else if c == '[' {
        Some(KindView::SquareOpen)
    } else if c == ']' {
        Some(KindView::SquareClose)
    } else if c == '{' {
        Some(KindView::CurlyOpen)
    } else if c == '}' {
        Some(KindView::CurlyClose)
    } else if c == '+' {
        Some(KindView::Plus)
    } else if c == '-' {
        Some(KindView::Minus)
    } else if c == '*' {
        Some(KindView::Star)
    } else if c == '/' {
        Some(KindView::Slash)
    } else if c == '%' {
        Some(KindView::Modulo)
    } else if c == '~' {
        Some(KindView::Tilde)
    } else if c == '|' {
        Some(KindView::Or)
    } else if c == '&' {
        Some(KindView::And)
    } else {
        None
    }
}

/// Whether the character at `at` is `c`.
pub open spec fn has_char_at(s: Seq<char>, at: int, c: char) -> bool {
    0 <= at < s.len() && s[at] == c
}

/// The operator or punctuation mark whose first character is `lead`, given
/// that `lead` stands at `at - 1` and is already consumed. The longest match
/// wins: `!`, `=`, `<` and `>` look at the one character that follows them.
pub open spec fn operator_after(s: Seq<char>, lead: char, at: int) -> Scan<KindView> {
    if lead == '!' {
        if has_char_at(s, at, '=') {
            Scan { result: Ok(KindView::NotEqual), end: at + 1 }
        } else {
            Scan { result: Err(Error::InvalidOperator), end: at }
        }
    } else if lead == '=' {
        if has_char_at(s, at, '=') {
            Scan { result: Ok(KindView::Equal), end: at + 1 }
        } else {
            Scan { result: Ok(KindView::Assign), end: at }
        }
    } else if lead == '>' {
        if has_char_at(s, at, '=') {
            Scan { result: Ok(KindView::GtEq), end: at + 1 }
        } else if has_char_at(s, at, '>') {
            Scan { result: Ok(KindView::ShiftRight), end: at + 1 }
        } else {
            Scan { result: Ok(KindView::Gt), end: at }
        }
    } else if lead == '<' {
        if has_char_at(s, at, '=') {
            Scan { result: Ok(KindView::LtEq), end: at + 1 }
        } else if has_char_at(s, at, '<') {
            Scan { result: Ok(KindView::ShiftLeft), end: at + 1 }
        } else {
            Scan { result: Ok(KindView::Lt), end: at }
        }
    } else {
        match single_char_kind(lead) {
            Some(kind) => Scan { result: Ok(kind), end: at },
            None => Scan { result: Err(Error::UnknownCodepoint), end: at },
        }
    }
}

/// A scan outcome turned into a token that starts at `offset`.
pub open spec fn as_token(scan: Scan<KindView>, offset: int) -> Scan<TokenView> {
    Scan {
        result: match scan.result {
            Ok(kind) => Ok(TokenView { kind, offset }),
            Err(error) => Err(error),
        },
        end: scan.end,
    }
}

/// The integer literal that starts at `at`: the longest run of digits and
/// separators, with the value it writes, which must fit in an `i64`.
pub open spec fn integer_at(s: Seq<char>, at: int) -> Scan<KindView> {
    let end: int = run_end(s, CharClass::Number, at);
    let value: int = decimal_value(s.subrange(at, end));
    Scan {
        result: if value <= i64::MAX {
            Ok(KindView::Integer(value))
        } else {
            Err(Error::IntegerOverflow)
        },
        end,
    }
}

/// The identifier or keyword that starts at `at`: the longest run of
/// identifier characters.
pub open spec fn word_at(s: Seq<char>, at: int) -> Scan<KindView> {
    let end: int = run_end(s, CharClass::Identifier, at);
    Scan { result: Ok(word_kind(s.subrange(at, end))), end }
}

/// The string literal whose opening quote stands at `at`.
pub open spec fn string_at(s: Seq<char>, at: int) -> Scan<KindView> {
    let body: Scan<Seq<char>> = string_body(s, at + 1, Seq::empty());
    Scan {
        result: match body.result {
            Ok(text) => Ok(KindView::String(text)),
            Err(error) => Err(error),
        },
        end: body.end,
    }
}

/// The token that starts exactly at `at`, with no whitespace skipped.
///
/// At or past the end of the source this is `EndOfFile`, and nothing is
/// consumed. Otherwise the first character decides: a digit starts an
/// integer literal, any other identifier character a word, a double quote a
/// string literal, and everything else is read as an operator.
pub open spec fn token_at(s: Seq<char>, at: int) -> Scan<TokenView> {
    if at < 0 || at >= s.len() {
        Scan { result: Ok(TokenView { kind: KindView::EndOfFile, offset: at }), end: at }
    } else if is_digit(s[at]) {
        as_token(integer_at(s, at), at)
    } else if is_identifier_char(s[at]) {
        as_token(word_at(s, at), at)
    } else if s[at] == '"' {
        as_token(string_at(s, at), at)
    } else {
        as_token(operator_after(s, s[at], at + 1), at)
    }
}

/// Where the next token starts when the cursor stands at `cursor`: just past
/// the whitespace that starts there.
pub open spec fn token_start(s: Seq<char>, cursor: int) -> int {
    run_end(s, CharClass::Whitespace, cursor)
}

/// The next token as seen from `cursor`: whitespace is skipped, then the
/// token at that place is scanned.
pub open spec fn next_token(s: Seq<char>, cursor: int) -> Scan<TokenView> {
    token_at(s, token_start(s, cursor))
}

/// A look at the next token from `cursor` that consumes nothing: the same
/// result as [`next_token`], with the cursor left where it was.
pub open spec fn peek_token(s: Seq<char>, cursor: int) -> Scan<TokenView> {
    Scan { result: next_token(s, cursor).result, end: cursor }
}

/// Every position of a run holds a character of the run's class, the run
/// stays inside the source, and the character after it, if any, is of
/// another class.
pub proof fn lemma_run_end(s: Seq<char>, class: CharClass, from: int)
    requires
        0 <= from <= s.len(),
    ensures
        from <= run_end(s, class, from) <= s.len(),
        forall|i: int| from <= i < run_end(s, class, from) ==> in_class(class, #[trigger] s[i]),
        run_end(s, class, from) < s.len() ==> !in_class(class, s[run_end(s, class, from)]),
    decreases s.len() - from,
{
    if from < s.len() && in_class(class, s[from]) {
        lemma_run_end(s, class, from + 1);
    }
}

/// A run of digits and separators writes a number that is not negative and
/// not less than the number that any of its prefixes writes.
pub proof fn lemma_decimal_value_grows(run: Seq<char>, k: int)
    requires
        0 <= k <= run.len(),
        forall|i: int| 0 <= i < run.len() ==> in_class(CharClass::Number, #[trigger] run[i]),
    ensures
        0 <= decimal_value(run.take(k)) <= decimal_value(run),
    decreases run.len(),
{
    if k == run.len() {
        assert(run.take(k) =~= run);
        if run.len() > 0 {
            lemma_decimal_value_grows(run.drop_last(), k - 1);
        }
    } else {
        assert(run.drop_last().take(k) =~= run.take(k));
        lemma_decimal_value_grows(run.drop_last(), k);
    }
}

} // verus!
