//! The executable scanner.
//!
//! A [`Lexer`] owns the source as a vector of characters and a cursor, the
//! index of the next character that no token has consumed yet. Each scanning
//! function is proved to return what [`crate::grammar`] defines and to leave
//! the cursor where the grammar says the scan ends.

use vstd::prelude::*;
use vstd::string::*;
use crate::grammar::{
    as_token, decimal_value, escape, has_char_at, in_class, integer_at, is_digit,
    is_identifier_char, keyword, lemma_decimal_value_grows, lemma_run_end, next_token,
    peek_token, run_end, string_at, string_body, token_at, token_start, word_at, CharClass,
    Scan,
};
use crate::laws::{lemma_next_progress, lemma_token_at_progress};
use crate::token::{Error, Token, TokenKind, TokenView};

verus! {

/// The source text and the cursor into it.
pub struct Lexer {
    /// The characters of the source; never changed after construction.
    pub source: Vec<char>,
    /// The index of the next unconsumed character; the source's length once
    /// the input is exhausted.
    pub current: usize,
}

/// What a scanning function returns, as the grammar speaks of it.
pub open spec fn outcome(result: Result<Token, Error>) -> Result<TokenView, Error> {
    match result {
        Ok(token) => Ok(token@),
        Err(error) => Err(error),
    }
}

/// Whether `c` is one of the decimal digits `0` to `9`.
pub fn is_decimal_digit(c: char) -> (r: bool)
    ensures
        r == is_digit(c),
{
    '0' <= c && c <= '9'
}

/// Whether `c` may stand in an identifier.
pub fn is_part_of_identifier(c: char) -> (r: bool)
    ensures
        r == is_identifier_char(c),
{
    match c {
        'a'..='z' | 'A'..='Z' | '0'..='9' | '_' => true,
        _ => false,
    }
}

/// The character that a backslash followed by `c` stands for in a string
/// literal, if `c` names an escape.
pub fn escape_sequence(c: char) -> (r: Option<char>)
    ensures
        r == escape(c),
{
    match c {
        'r' => Some('\r'),
        'n' => Some('\n'),
        't' => Some('\t'),
        'e' => Some('\x1B'),
        '"' => Some('"'),
        '\'' => Some('\''),
        '\\' => Some('\\'),
        _ => None,
    }
}

/// The keyword that `s` spells, if it spells one exactly.
pub fn as_keyword(s: &str) -> (r: Option<TokenKind>)
    ensures
        match r {
            Some(kind) => keyword(s@) == Some(kind@),
            None => keyword(s@) is None,
        },
{
    let n: usize = s.unicode_len();
    if n == 2 {
        let a: char = s.get_char(0);
        let b: char = s.get_char(1);
        if a == 'i' && b == 'f' {
            assert(s@ =~= seq!['i', 'f']);
            return Some(TokenKind::If);
        }
        if a == 'f' && b == 'n' {
            assert(s@ =~= seq!['f', 'n']);
            return Some(TokenKind::Fn);
        }
        assert(s@[0] != 'i' || s@[1] != 'f');
        assert(s@[0] != 'f' || s@[1] != 'n');
    } else if n == 3 {
        if s.get_char(0) == 'l' && s.get_char(1) == 'e' && s.get_char(2) == 't' {
            assert(s@ =~= seq!['l', 'e', 't']);
            return Some(TokenKind::Let);
        }
        assert(s@[0] != 'l' || s@[1] != 'e' || s@[2] != 't');
    } else if n == 4 {
        if s.get_char(0) == 'e' && s.get_char(1) == 'l' && s.get_char(2) == 's' && s.get_char(3)
            == 'e' {
            assert(s@ =~= seq!['e', 'l', 's', 'e']);
            return Some(TokenKind::Else);
        }
        assert(s@[0] != 'e' || s@[1] != 'l' || s@[2] != 's' || s@[3] != 'e');
    }
    None
}

impl Lexer {
    /// The cursor stands inside the source or at its end.
    pub open spec fn wf(&self) -> bool {
        self.current <= self.source.len()
    }

    /// A lexer over the characters of `source`, with the cursor at the start.
    pub fn new(source: &str) -> (lexer: Lexer)
        ensures
            lexer.source@ == source@,
            lexer.current == 0,
            lexer.wf(),
    {
        let mut chars: Vec<char> = Vec::new();
        for c in it: source.chars()
            invariant
                it.seq() == source@,
                chars@ == it.seq().take(it.index() as int),
        {
            chars.push(c);
        }
        Lexer { source: chars, current: 0 }
    }

    /// The text between two positions of the source.
    fn make_lexeme(&self, start: usize, end: usize) -> (lexeme: String)
        requires
            start <= end <= self.source.len(),
        ensures
            lexeme@ == self.source@.subrange(start as int, end as int),
    {
        let mut lexeme = String::new();
        let mut i: usize = start;
        while i < end
            invariant
                start <= i <= end <= self.source.len(),
                lexeme@ == self.source@.subrange(start as int, i as int),
            decreases end - i,
        {
            lexeme.push(self.source[i]);
            i += 1;
            assert(self.source@.subrange(start as int, i as int) =~= self.source@.subrange(
                start as int,
                i - 1,
            ).push(self.source@[i - 1]));
        }
        lexeme
    }

    /// Consumes one character and returns it; at the end of the source there
    /// is none and nothing changes.
    fn advance(&mut self) -> (c: Option<char>)
        ensures
            final(self).source == old(self).source,
            old(self).current < old(self).source.len() ==> c == Some(
                old(self).source[old(self).current as int],
            ) && final(self).current == old(self).current + 1,
            old(self).current >= old(self).source.len() ==> c is None && final(self).current
                == old(self).current,
    {
        if self.current >= self.source.len() {
            return None;
        }
        self.current += 1;
        Some(self.source[self.current - 1])
    }

    /// The character under the cursor, if the source has not ended.
    fn peek(&self) -> (c: Option<char>)
        ensures
            self.current < self.source.len() ==> c == Some(self.source[self.current as int]),
            self.current >= self.source.len() ==> c is None,
    {
        if self.current >= self.source.len() {
            return None;
        }
        Some(self.source[self.current])
    }

    /// Consumes the character under the cursor if it is `target`, and says
    /// whether it did.
    fn match_advance(&mut self, target: char) -> (matched: bool)
        ensures
            final(self).source == old(self).source,
            matched == has_char_at(old(self).source@, old(self).current as int, target),
            final(self).current == old(self).current + if matched {
                1int
            } else {
                0int
            },
    {
        if let Some(c) = self.peek() {
            if c == target {
                self.current += 1;
            }
            return c == target;
        }
        false
    }

    /// Moves the cursor past the whitespace that starts at it.
    fn skip_whitespace(&mut self)
        ensures
            final(self).source == old(self).source,
            final(self).current == token_start(old(self).source@, old(self).current as int),
    {
        loop
            invariant
                self.source == old(self).source,
                token_start(self.source@, self.current as int) == token_start(
                    old(self).source@,
                    old(self).current as int,
                ),
            ensures
                self.current == token_start(self.source@, self.current as int),
            decreases self.source.len() - self.current,
        {
            let c: char = match self.advance() {
                Some(c) => c,
                None => break,
            };
            if !c.is_whitespace() {
                self.current -= 1;
                break;
            }
        }
    }

    /// Scans the identifier or keyword that starts at the cursor.
    fn scan_identifier(&mut self) -> (token: Token)
        requires
            old(self).current < old(self).source.len(),
            is_identifier_char(old(self).source[old(self).current as int]),
        ensures
            final(self).source == old(self).source,
            final(self).current == word_at(old(self).source@, old(self).current as int).end,
            Ok::<TokenView, Error>(token@) == as_token(
                word_at(old(self).source@, old(self).current as int),
                old(self).current as int,
            ).result,
    {
        let start: usize = self.current;
        loop
            invariant
                self.source == old(self).source,
                start <= self.current <= self.source.len(),
                run_end(self.source@, CharClass::Identifier, self.current as int) == run_end(
                    self.source@,
                    CharClass::Identifier,
                    start as int,
                ),
            ensures
                self.current == run_end(self.source@, CharClass::Identifier, start as int),
            decreases self.source.len() - self.current,
        {
            let c: char = match self.advance() {
                Some(c) => c,
                None => break,
            };
            if !is_part_of_identifier(c) {
                self.current -= 1;
                break;
            }
        }
        let lexeme: String = self.make_lexeme(start, self.current);
        let kind: TokenKind = match as_keyword(lexeme.as_str()) {
            Some(keyword_kind) => keyword_kind,
            None => TokenKind::Identifier(lexeme),
        };
        Token::new(kind, start)
    }

    /// The value of the digits between two positions of the source, or
    /// `None` if it is too large for an `i64`.
    fn parse_integer(&self, start: usize, end: usize) -> (value: Option<i64>)
        requires
            start <= end <= self.source.len(),
            forall|i: int| start <= i < end ==> in_class(CharClass::Number, #[trigger] self.source@[i]),
        ensures
            match value {
                Some(v) => v == decimal_value(self.source@.subrange(start as int, end as int)),
                None => decimal_value(self.source@.subrange(start as int, end as int)) > i64::MAX,
            },
    {
        let ghost run: Seq<char> = self.source@.subrange(start as int, end as int);
        let mut value: i64 = 0;
        let mut i: usize = start;
        while i < end
            invariant
                start <= i <= end <= self.source.len(),
                run == self.source@.subrange(start as int, end as int),
                forall|k: int| 0 <= k < run.len() ==> in_class(CharClass::Number, #[trigger] run[k]),
                value == decimal_value(run.take(i - start)),
                0 <= value,
            decreases end - i,
        {
            let c: char = self.source[i];
            proof {
                assert(run.take(i + 1 - start).drop_last() =~= run.take(i - start));
                assert(run.take(i + 1 - start).last() == c);
                assert(in_class(CharClass::Number, run[i - start]));
                lemma_decimal_value_grows(run, i + 1 - start);
            }
            if c != '_' {
                let digit: i64 = (c as u32 - '0' as u32) as i64;
                let shifted: i64 = match value.checked_mul(10) {
                    Some(shifted) => shifted,
                    None => return None,
                };
                value = match shifted.checked_add(digit) {
                    Some(sum) => sum,
                    None => return None,
                };
            }
            i += 1;
        }
        assert(run.take(end - start) =~= run);
        Some(value)
    }

    /// Scans the integer literal that starts at the cursor.
    fn scan_decimal_integer(&mut self) -> (r: Result<Token, Error>)
        requires
            old(self).current < old(self).source.len(),
            is_digit(old(self).source[old(self).current as int]),
        ensures
            final(self).source == old(self).source,
            final(self).current == integer_at(old(self).source@, old(self).current as int).end,
            outcome(r) == as_token(
                integer_at(old(self).source@, old(self).current as int),
                old(self).current as int,
            ).result,
    {
        let offset: usize = self.current;
        loop
            invariant
                self.source == old(self).source,
                offset <= self.current <= self.source.len(),
                run_end(self.source@, CharClass::Number, self.current as int) == run_end(
                    self.source@,
                    CharClass::Number,
                    offset as int,
                ),
            ensures
                self.current == run_end(self.source@, CharClass::Number, offset as int),
            decreases self.source.len() - self.current,
        {
            let c: char = match self.advance() {
                Some(c) => c,
                None => break,
            };
            if !is_decimal_digit(c) && c != '_' {
                self.current -= 1;
                break;
            }
        }
        proof {
            lemma_run_end(self.source@, CharClass::Number, offset as int);
        }
        match self.parse_integer(offset, self.current) {
            Some(value) => Ok(Token::new(TokenKind::Integer(value), offset)),
            None => Err(Error::IntegerOverflow),
        }
    }

    /// Scans the string literal whose opening quote is under the cursor.
    fn scan_string(&mut self) -> (r: Result<Token, Error>)
        requires
            old(self).current < old(self).source.len(),
            old(self).source[old(self).current as int] == '"',
        ensures
            final(self).source == old(self).source,
            final(self).current == string_at(old(self).source@, old(self).current as int).end,
            outcome(r) == as_token(
                string_at(old(self).source@, old(self).current as int),
                old(self).current as int,
            ).result,
    {
        let offset: usize = self.current;
        self.current += 1;
        let mut buf = String::new();
        loop
            invariant_except_break
                string_body(self.source@, self.current as int, buf@) == string_body(
                    self.source@,
                    offset + 1,
                    Seq::empty(),
                ),
            invariant
                self.source == old(self).source,
                offset == old(self).current,
                offset < self.current <= self.source.len(),
            ensures
                self.source == old(self).source,
                string_body(self.source@, offset + 1, Seq::empty()) == (Scan {
                    result: Ok(buf@),
                    end: self.current as int,
                }),
            decreases self.source.len() - self.current,
        {
            let c: char = match self.advance() {
                Some(c) => c,
                None => return Err(Error::UnterminatedString),
            };
            if c == '\\' {
                let next_char: char = match self.advance() {
                    Some(c) => c,
                    None => return Err(Error::UnterminatedString),
                };
                let escaped: char = match escape_sequence(next_char) {
                    Some(c) => c,
                    None => return Err(Error::InvalidEscapeSequence),
                };
                buf.push(escaped);
            } else if c == '\n' || c == '\r' {
                return Err(Error::InvalidMultiLineString);
            } else if c == '"' {
                break;
            } else {
                buf.push(c);
            }
        }
        Ok(Token::new(TokenKind::String(buf), offset))
    }

    /// Scans the token that starts exactly at the cursor; whitespace is not
    /// skipped. The cursor ends just past what was consumed, whether a token
    /// or an error comes back; at the end of the source nothing is consumed
    /// and the token is `EndOfFile`.
    pub fn scan_token(&mut self) -> (r: Result<Token, Error>)
        ensures
            final(self).source == old(self).source,
            final(self).current == token_at(old(self).source@, old(self).current as int).end,
            outcome(r) == token_at(old(self).source@, old(self).current as int).result,
            old(self).current <= final(self).current,
            old(self).wf() ==> final(self).wf(),
    {
        proof {
            if self.wf() {
                lemma_token_at_progress(self.source@, self.current as int);
            }
        }
        let offset: usize = self.current;
        let c: char = match self.peek() {
            Some(c) => c,
            None => return Ok(Token::new(TokenKind::EndOfFile, offset)),
        };
        if is_decimal_digit(c) {
            return self.scan_decimal_integer();
        }
        if is_part_of_identifier(c) {
            return Ok(self.scan_identifier());
        }
        if c == '"' {
            return self.scan_string();
        }
        let _ = self.advance();
        let kind: TokenKind = match c {
            '.' => TokenKind::Dot,
            ':' => TokenKind::Colon,
            ',' => TokenKind::Comma,
            ';' => TokenKind::Semicolon,
            '(' => TokenKind::ParenOpen,
            ')' => TokenKind::ParenClose,
            '[' => TokenKind::SquareOpen,
            ']' => TokenKind::SquareClose,
            '{' => TokenKind::CurlyOpen,
            '}' => TokenKind::CurlyClose,
            '+' => TokenKind::Plus,
            '-' => TokenKind::Minus,
            '*' => TokenKind::Star,
            '/' => TokenKind::Slash,
            '%' => TokenKind::Modulo,
            '~' => TokenKind::Tilde,
            '|' => TokenKind::Or,
            '&' => TokenKind::And,
            '!' => if self.match_advance('=') {
                TokenKind::NotEqual
            } else {
                return Err(Error::InvalidOperator);
            },
            '=' => if self.match_advance('=') {
                TokenKind::Equal
            } else {
                TokenKind::Assign
            },
            '>' => if self.match_advance('=') {
                TokenKind::GtEq
            } else if self.match_advance('>') {
                TokenKind::ShiftRight
            } else {
                TokenKind::Gt
            },
            '<' => if self.match_advance('=') {
                TokenKind::LtEq
            } else if self.match_advance('<') {
                TokenKind::ShiftLeft
            } else {
                TokenKind::Lt
            },
            _ => return Err(Error::UnknownCodepoint),
        };
        Ok(Token::new(kind, offset))
    }

    /// Reports the next token without consuming it: the result of
    /// [`Lexer::next`], with the cursor back where it was, also when the
    /// result is an error.
    pub fn get_token(&mut self) -> (r: Result<Token, Error>)
        ensures
            final(self).source == old(self).source,
            final(self).current == peek_token(old(self).source@, old(self).current as int).end,
            outcome(r) == peek_token(old(self).source@, old(self).current as int).result,
            final(self).current == old(self).current,
    {
        let restore: usize = self.current;
        let res: Result<Token, Error> = self.next();
        self.current = restore;
        res
    }

    /// Skips whitespace, then consumes and returns the token that follows.
    ///
    /// Once nothing but whitespace is left the token is `EndOfFile`, now and
    /// on every later call. After an error the cursor stands just past the
    /// characters that the failed scan consumed, so the next call goes on
    /// from there.
    pub fn next(&mut self) -> (r: Result<Token, Error>)
        ensures
            final(self).source == old(self).source,
            final(self).current == next_token(old(self).source@, old(self).current as int).end,
            outcome(r) == next_token(old(self).source@, old(self).current as int).result,
            old(self).current <= final(self).current,
            old(self).wf() ==> final(self).wf(),
    {
        proof {
            if self.wf() {
                lemma_next_progress(self.source@, self.current as int);
            }
        }
        self.skip_whitespace();
        self.scan_token()
    }
}

} // verus!
