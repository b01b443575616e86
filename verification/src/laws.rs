//! What holds of every source and every cursor position.
//!
//! The scanner's functions are specified by [`next_token`] and
//! [`peek_token`]; the laws below are stated over those two, so each of them
//! holds of the executable scanner as well.

use vstd::prelude::*;
use crate::grammar::{
    escape, in_class, lemma_run_end, next_token, peek_token, string_body, token_at, token_start,
    CharClass, Scan,
};
use crate::token::{Error, KindView, TokenView};

verus! {

/// Whether a scan's result is the `EndOfFile` token.
pub open spec fn is_end_of_file(result: Result<TokenView, Error>) -> bool {
    result matches Ok(token) && token.kind == KindView::EndOfFile
}

/// Whether the source holds nothing but whitespace from `cursor` on.
pub open spec fn is_blank_from(s: Seq<char>, cursor: int) -> bool {
    forall|i: int| cursor <= i < s.len() ==> in_class(CharClass::Whitespace, #[trigger] s[i])
}

/// Where the cursor stands after `n` tokens have been taken one after the
/// other, starting from `cursor`.
pub open spec fn cursor_after(s: Seq<char>, cursor: int, n: nat) -> int
    decreases n,
{
    if n == 0 {
        cursor
    } else {
        next_token(s, cursor_after(s, cursor, (n - 1) as nat)).end
    }
}

/// Whether, starting from `cursor`, every take from the `n`-th on yields
/// `EndOfFile`.
pub open spec fn end_of_file_from(s: Seq<char>, cursor: int, n: nat) -> bool {
    forall|m: nat| m >= n ==> is_end_of_file(next_token(s, #[trigger] cursor_after(s, cursor, m)).result)
}

/// A string literal's body is scanned forwards and inside the source. Where
/// it scans, it took at least the closing quote, which is the last character
/// it consumed. Where it is found unterminated, the source is used up.
pub proof fn lemma_string_body_end(s: Seq<char>, at: int, decoded: Seq<char>)
    requires
        0 <= at <= s.len(),
    ensures
        ({
            let scan = string_body(s, at, decoded);
            &&& at <= scan.end <= s.len()
            &&& scan.result is Ok ==> at < scan.end && s[scan.end - 1] == '"'
            &&& scan.result == Err::<Seq<char>, Error>(Error::UnterminatedString) ==> scan.end
                == s.len()
        }),
    decreases s.len() - at,
{
    if at < s.len() {
        if s[at] == '\\' {
            if at + 1 < s.len() {
                match escape(s[at + 1]) {
                    Some(c) => lemma_string_body_end(s, at + 2, decoded.push(c)),
                    None => {},
                }
            }
        } else if s[at] != '\n' && s[at] != '\r' && s[at] != '"' {
            lemma_string_body_end(s, at + 1, decoded.push(s[at]));
        }
    }
}

/// A scan that starts exactly at `at` tells the truth about where it
/// started and never goes backwards or beyond the source. It yields
/// `EndOfFile` exactly at the end of the source; anywhere else it consumes
/// at least one character, whether it yields a token or an error.
pub proof fn lemma_token_at_progress(s: Seq<char>, at: int)
    requires
        0 <= at <= s.len(),
    ensures
        at <= token_at(s, at).end <= s.len(),
        is_end_of_file(token_at(s, at).result) <==> at == s.len(),
        at < s.len() ==> at < token_at(s, at).end,
        token_at(s, at).result matches Ok(token) ==> token.offset == at,
{
    if at < s.len() {
        lemma_run_end(s, CharClass::Number, at);
        lemma_run_end(s, CharClass::Identifier, at);
        lemma_string_body_end(s, at + 1, Seq::empty());
    }
}

/// The source is cut into tokens without gaps or overlap. From a cursor
/// inside the source, the next token starts just past the whitespace at the
/// cursor, at the offset it reports, and the cursor ends where that token
/// ends: never before its start, never beyond the source, and strictly past
/// its start unless the token is `EndOfFile`.
pub proof fn lemma_next_progress(s: Seq<char>, cursor: int)
    requires
        0 <= cursor <= s.len(),
    ensures
        cursor <= token_start(s, cursor) <= next_token(s, cursor).end <= s.len(),
        forall|i: int|
            cursor <= i < token_start(s, cursor) ==> in_class(CharClass::Whitespace, #[trigger] s[i]),
        token_start(s, cursor) < s.len() ==> !in_class(
            CharClass::Whitespace,
            s[token_start(s, cursor)],
        ),
        next_token(s, cursor).result matches Ok(token) ==> token.offset == token_start(s, cursor),
        is_end_of_file(next_token(s, cursor).result) <==> token_start(s, cursor) == s.len(),
        !is_end_of_file(next_token(s, cursor).result) ==> token_start(s, cursor) < next_token(
            s,
            cursor,
        ).end,
{
    lemma_run_end(s, CharClass::Whitespace, cursor);
    lemma_token_at_progress(s, token_start(s, cursor));
}

/// On a source that holds nothing but whitespace from the cursor on, the
/// next token is `EndOfFile`, placed at the end of the source, and the
/// cursor moves to the end. Conversely `EndOfFile` comes only when nothing
/// but whitespace is left.
pub proof fn lemma_blank_input_is_end_of_file(s: Seq<char>, cursor: int)
    requires
        0 <= cursor <= s.len(),
    ensures
        is_blank_from(s, cursor) <==> is_end_of_file(next_token(s, cursor).result),
        is_blank_from(s, cursor) ==> next_token(s, cursor) == (Scan {
            result: Ok(TokenView { kind: KindView::EndOfFile, offset: s.len() as int }),
            end: s.len() as int,
        }),
{
    lemma_next_progress(s, cursor);
    let start: int = token_start(s, cursor);
    if is_blank_from(s, cursor) {
        if start < s.len() {
            assert(in_class(CharClass::Whitespace, s[start]));
        }
    }
}

/// A peek leaves the cursor where it was, so a second peek sees what the
/// first one saw, and so does the take that follows a peek.
pub proof fn lemma_peek_is_idempotent(s: Seq<char>, cursor: int)
    ensures
        peek_token(s, cursor).end == cursor,
        peek_token(s, peek_token(s, cursor).end) == peek_token(s, cursor),
        next_token(s, peek_token(s, cursor).end).result == peek_token(s, cursor).result,
{
}

/// Taking `n + 1` tokens from `cursor` is taking one and then `n` more.
proof fn lemma_cursor_after_first(s: Seq<char>, cursor: int, n: nat)
    ensures
        cursor_after(s, cursor, n + 1) == cursor_after(s, next_token(s, cursor).end, n),
    decreases n,
{
    let end: int = next_token(s, cursor).end;
    assert(cursor_after(s, cursor, n + 1) == next_token(s, cursor_after(s, cursor, n)).end);
    if n == 0 {
        assert(cursor_after(s, cursor, 0) == cursor);
    } else {
        lemma_cursor_after_first(s, cursor, (n - 1) as nat);
        assert(cursor_after(s, end, n) == next_token(s, cursor_after(s, end, (n - 1) as nat)).end);
    }
}

/// Once a take has yielded `EndOfFile`, every later one does.
proof fn lemma_end_of_file_stays(s: Seq<char>, cursor: int, n: nat)
    requires
        0 <= cursor <= s.len(),
        is_end_of_file(next_token(s, cursor).result),
    ensures
        is_end_of_file(next_token(s, cursor_after(s, cursor, n)).result),
        n > 0 ==> cursor_after(s, cursor, n) == s.len(),
    decreases n,
{
    lemma_next_progress(s, cursor);
    lemma_next_progress(s, s.len() as int);
    if n > 0 {
        lemma_end_of_file_stays(s, cursor, (n - 1) as nat);
        lemma_next_progress(s, cursor_after(s, cursor, (n - 1) as nat));
    }
}

/// Taking tokens one after the other reaches `EndOfFile`, whatever errors
/// come on the way, and from then on every take yields `EndOfFile`. The
/// number of takes before that, which is returned, is at most the number of
/// characters from the cursor to the end of the source.
pub proof fn lemma_end_of_file_is_reached(s: Seq<char>, cursor: int) -> (n: nat)
    requires
        0 <= cursor <= s.len(),
    ensures
        n <= s.len() - cursor,
        end_of_file_from(s, cursor, n),
    decreases s.len() - cursor,
{
    lemma_next_progress(s, cursor);
    if is_end_of_file(next_token(s, cursor).result) {
        assert forall|m: nat| m >= 0 implies is_end_of_file(
            next_token(s, #[trigger] cursor_after(s, cursor, m)).result,
        ) by {
            lemma_end_of_file_stays(s, cursor, m);
        }
        0
    } else {
        let end: int = next_token(s, cursor).end;
        let rest: nat = lemma_end_of_file_is_reached(s, end);
        assert forall|m: nat| m >= rest + 1 implies is_end_of_file(
            next_token(s, #[trigger] cursor_after(s, cursor, m)).result,
        ) by {
            lemma_cursor_after_first(s, cursor, (m - 1) as nat);
            assert(cursor_after(s, cursor, m) == cursor_after(s, end, (m - 1) as nat));
        }
        rest + 1
    }
}

} // verus!
