//! What the lexer reads, stated over the bytes of the input.
use vstd::prelude::*;
use vstd::utf8::{length_of_first_scalar, pop_first_scalar, valid_utf8};

use core::ops::Range;

use crate::defs::directive::Directive;
use crate::defs::instruction::InstructionKind;
use crate::defs::numeral::{digits_value, first_non_digit};
use crate::defs::register::Register;
use crate::defs::text::chars_of;
use crate::defs::token::{TokenKind, TokenKindView, TokenView};
use crate::errors::{LexerError, LexerErrorKind};

verus! {

/// An ASCII letter or digit.
pub open spec fn is_alnum(b: u8) -> bool {
    let c = b as char;
    ('0' <= c && c <= '9') || ('a' <= c && c <= 'z') || ('A' <= c && c <= 'Z')
}

/// An ASCII letter.
pub open spec fn is_letter(b: u8) -> bool {
    let c = b as char;
    ('a' <= c && c <= 'z') || ('A' <= c && c <= 'Z')
}

/// An ASCII decimal digit.
pub open spec fn is_decimal(b: u8) -> bool {
    let c = b as char;
    '0' <= c && c <= '9'
}

/// ASCII whitespace other than the line feed: space, tab, form feed, carriage return.
pub open spec fn is_blank(b: u8) -> bool {
    let c = b as char;
    c == ' ' || c == '\t' || c == '\x0C' || c == '\r'
}

/// Where the cursor stops when it skips blanks and comments from `i`; `in_comment` tells
/// whether `i` lies inside a comment. A comment runs from `#` up to and with the next line
/// feed. A line feed outside a comment stops the cursor: it is a token.
pub open spec fn skip_trivia(s: Seq<u8>, i: int, in_comment: bool) -> int
    decreases s.len() - i,
{
    if i < 0 || i >= s.len() {
        i
    } else if in_comment {
        skip_trivia(s, i + 1, s[i] as char != '\n')
    } else if is_blank(s[i]) {
        skip_trivia(s, i + 1, false)
    } else if s[i] as char == '#' {
        skip_trivia(s, i + 1, true)
    } else {
        i
    }
}

/// The end of the longest run of ASCII letters and digits that starts at `i`.
pub open spec fn run_end(s: Seq<u8>, i: int) -> int
    decreases s.len() - i,
{
    if 0 <= i < s.len() && is_alnum(s[i]) {
        run_end(s, i + 1)
    } else {
        i
    }
}

/// The body of a string literal that starts at `i`, just after its opening quote: the text,
/// with each backslash removed and the byte after it taken as it is, and the index of the
/// closing quote. `None` when the input ends first.
pub open spec fn string_body(s: Seq<u8>, i: int) -> Option<(Seq<char>, int)>
    decreases s.len() - i,
{
    if i < 0 || i >= s.len() {
        None
    } else if s[i] as char == '"' {
        Some((Seq::empty(), i))
    } else if s[i] as char == '\\' {
        if i + 1 >= s.len() {
            None
        } else {
            match string_body(s, i + 2) {
                Some((text, end)) => Some((seq![s[i + 1] as char] + text, end)),
                None => None,
            }
        }
    } else {
        match string_body(s, i + 1) {
            Some((text, end)) => Some((seq![s[i] as char] + text, end)),
            None => None,
        }
    }
}

/// The radix that the prefix of a number literal selects (`0x`, `0b`, `0o`, else decimal),
/// and the number of characters of that prefix.
pub open spec fn radix_of(w: Seq<char>) -> (nat, int) {
    if w.len() >= 2 && w[0] == '0' && w[1] == 'x' {
        (16, 2)
    } else if w.len() >= 2 && w[0] == '0' && w[1] == 'b' {
        (2, 2)
    } else if w.len() >= 2 && w[0] == '0' && w[1] == 'o' {
        (8, 2)
    } else {
        (10, 0)
    }
}

/// The largest value of the 16-bit signed number of a literal.
pub open spec fn number_max() -> nat {
    32767
}

/// The value of a number literal, or its error. The digits after the prefix are read from
/// left to right until the first one that is not a digit in the radix: where those digits
/// already exceed 32767 the number is out of range; else a character that is not a digit, or
/// no digit at all, makes it invalid.
pub open spec fn number_of(w: Seq<char>) -> Result<i16, LexerErrorKind> {
    let (radix, prefix) = radix_of(w);
    let d = w.subrange(prefix, w.len() as int);
    let valid = first_non_digit(d, radix, 0);
    if d.len() == 0 {
        Err(LexerErrorKind::NumberParseError)
    } else if digits_value(d.take(valid), radix) > number_max() {
        Err(LexerErrorKind::NumberOutOfRange)
    } else if valid < d.len() {
        Err(LexerErrorKind::NumberParseError)
    } else {
        Ok(digits_value(d, radix) as i16)
    }
}

/// The number of bytes of a UTF-8 character from its leading byte.
pub open spec fn utf8_width(b: u8) -> int {
    if b <= 0xDF {
        2
    } else if b <= 0xEF {
        3
    } else {
        4
    }
}

/// A token of the given kind over the bytes `start..end`.
pub open spec fn token(kind: TokenKindView, start: int, end: int) -> TokenView {
    TokenView { kind, span: Range { start: start as usize, end: end as usize } }
}

/// An error of the given kind over the bytes `start..end`.
pub open spec fn error(kind: LexerErrorKind, start: int, end: int) -> LexerError {
    LexerError { kind, span: Range { start: start as usize, end: end as usize } }
}

/// The token that starts at `p`, where no blank or comment is left to skip, or the error
/// found there.
pub open spec fn token_at(s: Seq<u8>, p: int) -> Result<TokenView, LexerError> {
    if p >= s.len() {
        Ok(token(TokenKindView::Eof, p, p + 1))
    } else {
        let b = s[p];
        let c = b as char;
        if c == '\n' {
            Ok(token(TokenKindView::Newline, p, p + 1))
        } else if TokenKind::punctuation_spec(c) is Some {
            Ok(token(TokenKind::punctuation_spec(c).unwrap(), p, p + 1))
        } else if c == '"' {
            match string_body(s, p + 1) {
                Some((text, close)) => Ok(token(TokenKindView::String(text), p, close + 1)),
                None => Err(error(LexerErrorKind::ExpectedStringEnd, p, s.len() as int)),
            }
        } else if c == '.' {
            let end = run_end(s, p + 1);
            match Directive::from_text(chars_of(s.subrange(p + 1, end))) {
                Some(d) => Ok(token(TokenKindView::Directive(d), p, end)),
                None => Ok(token(TokenKindView::Dot, p, p + 1)),
            }
        } else if is_letter(b) {
            let end = run_end(s, p);
            let w = chars_of(s.subrange(p, end));
            match InstructionKind::from_text(w) {
                Some(k) => Ok(token(TokenKindView::Instruction(k), p, end)),
                None => Ok(token(TokenKindView::Ident(w), p, end)),
            }
        } else if is_decimal(b) {
            let end = run_end(s, p);
            match number_of(chars_of(s.subrange(p, end))) {
                Ok(n) => Ok(token(TokenKindView::Number(n), p, end)),
                Err(e) => Err(error(e, p, end)),
            }
        } else if c == '$' {
            let end = run_end(s, p + 1);
            match Register::parse_spec(chars_of(s.subrange(p + 1, end))) {
                Ok(r) => Ok(token(TokenKindView::Register(r), p, end)),
                Err(e) => Err(error(LexerErrorKind::Register(e), p, end)),
            }
        } else if b >= 0x80 {
            Err(error(LexerErrorKind::NonAsciiChar, p, p + utf8_width(b)))
        } else {
            Err(error(LexerErrorKind::InvalidToken(c), p, p + 1))
        }
    }
}

/// The next token from the cursor `pos`, or the error found there.
pub open spec fn next_token_spec(s: Seq<u8>, pos: int) -> Result<TokenView, LexerError> {
    token_at(s, skip_trivia(s, pos, false))
}

/// Where the cursor stands after a token: past its bytes; at the end for `Eof`.
pub open spec fn cursor_after(t: TokenView) -> int {
    if t.kind is Eof {
        t.span.start as int
    } else {
        t.span.end as int
    }
}

/// Prepends tokens to a result of lexing; an error stays as it is.
pub open spec fn prepend(
    tokens: Seq<TokenView>,
    r: Result<Seq<TokenView>, LexerError>,
) -> Result<Seq<TokenView>, LexerError> {
    match r {
        Ok(rest) => Ok(tokens + rest),
        Err(e) => Err(e),
    }
}

/// The tokens from the cursor `pos` up to and with `Eof`, or the first error.
pub open spec fn lex_from(s: Seq<u8>, pos: int) -> Result<Seq<TokenView>, LexerError>
    decreases s.len() - pos,
    when 0 <= pos <= s.len() && s.len() < usize::MAX
{
    match next_token_spec(s, pos) {
        Err(e) => Err(e),
        Ok(t) => if t.kind is Eof {
            Ok(seq![t])
        } else {
            proof {
                lemma_next_token_advances(s, pos);
            }
            prepend(seq![t], lex_from(s, t.span.end as int))
        },
    }
}

/// The tokens of a whole input, up to and with `Eof`, or its first error.
pub open spec fn lex_spec(s: Seq<u8>) -> Result<Seq<TokenView>, LexerError> {
    lex_from(s, 0)
}

/// Whether a cursor at `i` stands at the start of a character: at either end of the input,
/// or just after an ASCII byte.
pub open spec fn after_ascii(s: Seq<u8>, i: int) -> bool {
    i == 0 || i == s.len() || (0 < i <= s.len() && s[i - 1] < 0x80)
}

pub proof fn lemma_skip_trivia(s: Seq<u8>, i: int, in_comment: bool)
    requires
        0 <= i <= s.len(),
    ensures
        i <= skip_trivia(s, i, in_comment) <= s.len(),
        skip_trivia(s, i, in_comment) < s.len() ==> !in_comment || skip_trivia(
            s,
            i,
            in_comment,
        ) > i,
        skip_trivia(s, i, in_comment) == i || after_ascii(s, skip_trivia(s, i, in_comment)),
        skip_trivia(s, i, in_comment) < s.len() ==> {
            let b = s[skip_trivia(s, i, in_comment)];
            !is_blank(b) && b as char != '#'
        },
    decreases s.len() - i,
{
    if i < s.len() {
        if in_comment {
            lemma_skip_trivia(s, i + 1, s[i] as char != '\n');
            if s[i] as char == '\n' && skip_trivia(s, i + 1, false) == i + 1 {
                assert(s[i] < 0x80);
            }
        } else if is_blank(s[i]) || s[i] as char == '#' {
            lemma_skip_trivia(s, i + 1, s[i] as char == '#');
        }
    }
}

pub proof fn lemma_run_end(s: Seq<u8>, i: int)
    requires
        0 <= i <= s.len(),
    ensures
        i <= run_end(s, i) <= s.len(),
        forall|k: int| i <= k < run_end(s, i) ==> is_alnum(#[trigger] s[k]),
        run_end(s, i) < s.len() ==> !is_alnum(s[run_end(s, i)]),
        run_end(s, i) > i ==> s[run_end(s, i) - 1] < 0x80,
    decreases s.len() - i,
{
    if i < s.len() && is_alnum(s[i]) {
        lemma_run_end(s, i + 1);
    }
}

pub proof fn lemma_string_body(s: Seq<u8>, i: int)
    requires
        0 <= i,
    ensures
        string_body(s, i) matches Some((text, close)) ==> i <= close < s.len() && s[close] as char
            == '"',
    decreases s.len() - i,
{
    if 0 <= i < s.len() && s[i] as char != '"' {
        if s[i] as char == '\\' {
            if i + 1 < s.len() {
                lemma_string_body(s, i + 2);
            }
        } else {
            lemma_string_body(s, i + 1);
        }
    }
}

/// A token other than `Eof` moves the cursor forward, and not past the end.
pub proof fn lemma_next_token_advances(s: Seq<u8>, pos: int)
    requires
        0 <= pos <= s.len(),
        s.len() < usize::MAX,
    ensures
        next_token_spec(s, pos) matches Ok(t) ==> {
            &&& pos <= t.span.start <= s.len()
            &&& (t.kind is Eof ==> t.span.start == s.len())
            &&& (!(t.kind is Eof) ==> pos < t.span.end <= s.len() && t.span.start < t.span.end)
        },
{
    let p = skip_trivia(s, pos, false);
    lemma_skip_trivia(s, pos, false);
    if p < s.len() {
        lemma_run_end(s, p);
        lemma_run_end(s, p + 1);
        lemma_string_body(s, p + 1);
    }
}

/// In valid UTF-8, a byte at the start of the input or just after an ASCII byte begins a
/// character: it is ASCII, or a leading byte whose character ends within the input.
pub proof fn lemma_leading_byte(s: Seq<u8>, p: int)
    requires
        valid_utf8(s),
        0 <= p < s.len(),
        p == 0 || s[p - 1] < 0x80,
    ensures
        s[p] < 0x80 || (0xC0 <= s[p] <= 0xF7 && p + utf8_width(s[p]) <= s.len()),
    decreases s.len(),
{
    let first = length_of_first_scalar(s);
    if p >= first {
        let rest = pop_first_scalar(s);
        assert(rest[p - first] == s[p]);
        if p - first > 0 {
            assert(rest[p - first - 1] == s[p - 1]);
        }
        lemma_leading_byte(rest, p - first);
    }
}

} // verus!
