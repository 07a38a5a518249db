//! Properties of the lexer that hold of every input.
use vstd::prelude::*;

use crate::defs::directive::Directive;
use crate::defs::numeral::{all_digits, digits_value, first_non_digit, u8_of};
use crate::defs::register::{
    prefix_max, Register, RegisterName, RegisterParseError, RegisterPrefixedName,
};
use crate::defs::text::chars_of;
use crate::defs::token::{TokenKind, TokenKindView, TokenView};
use crate::errors::LexerErrorKind;
use crate::lexer::grammar::{
    error, lemma_next_token_advances, lemma_run_end, lemma_skip_trivia, lemma_string_body,
    lex_from, lex_spec, next_token_spec, number_of, prepend, radix_of, run_end, skip_trivia,
    string_body, token, token_at,
};

verus! {

/// The prefix that selects a radix in a number literal: `0x`, `0b`, `0o`, or none for 10.
pub open spec fn radix_prefix(radix: nat) -> Seq<char> {
    if radix == 16 {
        seq!['0', 'x']
    } else if radix == 2 {
        seq!['0', 'b']
    } else if radix == 8 {
        seq!['0', 'o']
    } else {
        Seq::empty()
    }
}

/// The decimal digit of `d`, which is below 10.
pub open spec fn decimal_char(d: u8) -> char {
    seq!['0', '1', '2', '3', '4', '5', '6', '7', '8', '9'][d as int]
}

/// `n`, below 100, written in decimal without leading zeros.
pub open spec fn decimal_text(n: u8) -> Seq<char> {
    if n < 10 {
        seq![decimal_char(n)]
    } else {
        seq![decimal_char(n / 10), decimal_char(n % 10)]
    }
}

/// The decimal digit of `d` has the value `d`.
proof fn lemma_decimal_char(d: u8)
    requires
        d < 10,
    ensures
        crate::defs::numeral::digit_value(decimal_char(d)) == d,
        '0' <= decimal_char(d) <= '9',
{
    let digits = seq!['0', '1', '2', '3', '4', '5', '6', '7', '8', '9'];
    assert(digits[0] == '0' && digits[1] == '1' && digits[2] == '2' && digits[3] == '3');
    assert(digits[4] == '4' && digits[5] == '5' && digits[6] == '6' && digits[7] == '7');
    assert(digits[8] == '8' && digits[9] == '9');
}

/// A one-byte punctuation mark alone lexes to its token, followed by `Eof`.
pub proof fn lemma_single_punctuation(b: u8)
    requires
        TokenKind::punctuation_spec(b as char) is Some,
    ensures
        lex_spec(seq![b]) == Ok::<_, crate::errors::LexerError>(
            seq![
                token(TokenKind::punctuation_spec(b as char).unwrap(), 0, 1),
                token(TokenKindView::Eof, 1, 2),
            ],
        ),
{
    let s = seq![b];
    assert(skip_trivia(s, 1, false) == 1);
    assert(lex_from(s, 1) == Ok::<_, crate::errors::LexerError>(seq![token(TokenKindView::Eof, 1, 2)]));
    assert(skip_trivia(s, 0, false) == 0);
    assert(seq![token(TokenKind::punctuation_spec(b as char).unwrap(), 0, 1)] + seq![
        token(TokenKindView::Eof, 1, 2),
    ] =~= seq![
        token(TokenKind::punctuation_spec(b as char).unwrap(), 0, 1),
        token(TokenKindView::Eof, 1, 2),
    ]);
}

/// Every character of a digit string is a digit: the search for a non-digit finds none.
proof fn lemma_no_non_digit(d: Seq<char>, radix: nat, i: int)
    requires
        0 <= i <= d.len(),
        all_digits(d, radix),
    ensures
        first_non_digit(d, radix, i) == d.len(),
    decreases d.len() - i,
{
    if i < d.len() {
        lemma_no_non_digit(d, radix, i + 1);
    }
}

/// A literal of digits in radix 2, 8, 10 or 16, behind that radix's prefix, whose value fits
/// in 16 signed bits, reads as that value, whatever the radix.
pub proof fn lemma_number_literal(radix: nat, digits: Seq<char>)
    requires
        radix == 2 || radix == 8 || radix == 10 || radix == 16,
        digits.len() > 0,
        all_digits(digits, radix),
        digits_value(digits, radix) <= 32767,
    ensures
        number_of(radix_prefix(radix) + digits) == Ok::<i16, LexerErrorKind>(
            digits_value(digits, radix) as i16,
        ),
{
    let w = radix_prefix(radix) + digits;
    let prefix = radix_prefix(radix).len() as int;
    if radix == 10 {
        assert(crate::defs::numeral::is_digit(digits[0], 10));
        if digits.len() >= 2 {
            assert(crate::defs::numeral::is_digit(digits[1], 10));
        }
    }
    assert(radix_of(w) == (radix, prefix));
    assert(w.subrange(prefix, w.len() as int) =~= digits);
    lemma_no_non_digit(digits, radix, 0);
    assert(digits.take(digits.len() as int) =~= digits);
}

/// A run of letters and digits that reaches the end of the input ends there.
proof fn lemma_run_to_end(s: Seq<u8>, i: int)
    requires
        0 <= i <= s.len(),
        forall|k: int| i <= k < s.len() ==> crate::lexer::grammar::is_alnum(#[trigger] s[k]),
    ensures
        run_end(s, i) == s.len(),
    decreases s.len() - i,
{
    if i < s.len() {
        lemma_run_to_end(s, i + 1);
    }
}

/// Such a literal, as the whole input, lexes to one `Number` token of that value, then `Eof`.
pub proof fn lemma_number_token(radix: nat, digits: Seq<char>, s: Seq<u8>)
    requires
        radix == 2 || radix == 8 || radix == 10 || radix == 16,
        digits.len() > 0,
        all_digits(digits, radix),
        digits_value(digits, radix) <= 32767,
        chars_of(s) == radix_prefix(radix) + digits,
        s.len() < usize::MAX,
    ensures
        ({
            let n = s.len() as int;
            lex_spec(s) == Ok::<_, crate::errors::LexerError>(
                seq![
                    token(TokenKindView::Number(digits_value(digits, radix) as i16), 0, n),
                    token(TokenKindView::Eof, n, n + 1),
                ],
            )
        }),
{
    let n = s.len() as int;
    let w = radix_prefix(radix) + digits;
    let prefix = radix_prefix(radix).len() as int;
    assert forall|k: int| 0 <= k < s.len() implies crate::lexer::grammar::is_alnum(
        #[trigger] s[k],
    ) by {
        assert(chars_of(s)[k] == s[k] as char);
        if k >= prefix {
            assert(w[k] == digits[k - prefix]);
            assert(crate::defs::numeral::is_digit(digits[k - prefix], radix));
        }
    }
    lemma_run_to_end(s, 0);
    assert(chars_of(s)[0] == s[0] as char);
    if radix == 10 {
        assert(crate::defs::numeral::is_digit(digits[0], 10));
    }
    assert(skip_trivia(s, 0, false) == 0);
    assert(s.subrange(0, n) =~= s);
    lemma_number_literal(radix, digits);
    assert(skip_trivia(s, n, false) == n);
    assert(lex_from(s, n) == Ok::<_, crate::errors::LexerError>(
        seq![token(TokenKindView::Eof, n, n + 1)],
    ));
    assert(seq![token(TokenKindView::Number(digits_value(digits, radix) as i16), 0, n)] + seq![
        token(TokenKindView::Eof, n, n + 1),
    ] =~= seq![
        token(TokenKindView::Number(digits_value(digits, radix) as i16), 0, n),
        token(TokenKindView::Eof, n, n + 1),
    ]);
}

/// Two characters made of a class letter (`v`, `a`, `t`, `s`, `k`) and a decimal digit name
/// that prefixed register when the digit is within the class's range, and are out of range
/// otherwise.
pub proof fn lemma_prefixed_register(prefix: char, digit: char)
    requires
        prefix_max(prefix) is Some,
        '0' <= digit <= '9',
    ensures
        ({
            let index = (digit as u32 - '0' as u32) as u8;
            Register::parse_spec(seq![prefix, digit]) == if index <= prefix_max(prefix).unwrap() {
                Ok(Register::PrefixedNumber(RegisterPrefixedName { prefix, index }))
            } else {
                Err(RegisterParseError::OutOfRange(index))
            }
        }),
{
    let t = seq![prefix, digit];
    assert forall|n: RegisterName| n.text() != t by {
        assert(n.text()[1] != t[1]);
    }
    assert(!crate::defs::numeral::is_digit(t[0], 10));
    assert(u8_of(t) is None);
}

/// An input made of `$` and a run of ASCII letters and digits lexes to the register that the
/// run names, then `Eof`, or fails over the whole input with the reason it names none.
pub proof fn lemma_register_token(text: Seq<char>, s: Seq<u8>)
    requires
        chars_of(s) == seq!['$'] + text,
        forall|k: int| 1 <= k < s.len() ==> crate::lexer::grammar::is_alnum(#[trigger] s[k]),
        s.len() < usize::MAX,
    ensures
        ({
            let n = s.len() as int;
            lex_spec(s) == match Register::parse_spec(text) {
                Ok(r) => Ok(
                    seq![
                        token(TokenKindView::Register(r), 0, n),
                        token(TokenKindView::Eof, n, n + 1),
                    ],
                ),
                Err(e) => Err(error(LexerErrorKind::Register(e), 0, n)),
            }
        }),
{
    let n = s.len() as int;
    assert(chars_of(s).len() == s.len());
    assert((seq!['$'] + text).len() == text.len() + 1);
    assert(chars_of(s)[0] == s[0] as char);
    lemma_run_to_end(s, 1);
    assert(skip_trivia(s, 0, false) == 0);
    assert forall|k: int| 0 <= k < text.len() implies chars_of(s.subrange(1, n))[k]
        == text[k] by {
        assert(chars_of(s)[k + 1] == (seq!['$'] + text)[k + 1]);
    }
    assert(chars_of(s.subrange(1, n)) =~= text);
    assert(skip_trivia(s, n, false) == n);
    assert(lex_from(s, n) == Ok::<_, crate::errors::LexerError>(
        seq![token(TokenKindView::Eof, n, n + 1)],
    ));
    if let Ok(r) = Register::parse_spec(text) {
        assert(seq![token(TokenKindView::Register(r), 0, n)] + seq![
            token(TokenKindView::Eof, n, n + 1),
        ] =~= seq![token(TokenKindView::Register(r), 0, n), token(TokenKindView::Eof, n, n + 1)]);
    }
}

/// `$0` to `$31` name the registers of those numbers.
pub proof fn lemma_numbered_register(n: u8)
    requires
        n < 32,
    ensures
        Register::parse_spec(decimal_text(n)) == Ok::<Register, RegisterParseError>(
            Register::Number(n),
        ),
{
    let t = decimal_text(n);
    assert forall|m: RegisterName| m.text() != t by {
        assert(m.text()[0] != t[0]);
    }
    if n < 10 {
        lemma_decimal_char(n);
        assert(t.drop_last() =~= Seq::<char>::empty());
        assert(digits_value(t.drop_last(), 10) == 0);
        assert(t.last() == decimal_char(n));
        assert(all_digits(t, 10));
        assert(digits_value(t, 10) == n);
    } else {
        lemma_decimal_char(n / 10);
        lemma_decimal_char(n % 10);
        assert(t.drop_last() =~= seq![decimal_char(n / 10)]);
        assert(t.drop_last().drop_last() =~= Seq::<char>::empty());
        assert(digits_value(t.drop_last().drop_last(), 10) == 0);
        assert(digits_value(t.drop_last(), 10) == n / 10);
        assert(t.last() == decimal_char(n % 10));
        assert(all_digits(t, 10));
        assert(digits_value(t, 10) == n);
    }
}

/// No closing quote before the end: the body of a string literal is missing.
proof fn lemma_unclosed_body(s: Seq<u8>, i: int)
    requires
        0 <= i,
        forall|k: int| i <= k < s.len() ==> s[k] as char != '"',
    ensures
        string_body(s, i) is None,
    decreases s.len() - i,
{
    if i < s.len() {
        if s[i] as char == '\\' {
            if i + 1 < s.len() {
                lemma_unclosed_body(s, i + 2);
            }
        } else {
            lemma_unclosed_body(s, i + 1);
        }
    }
}

/// An input that starts with `"` and has no other `"` fails with `ExpectedStringEnd`, over
/// the whole input.
pub proof fn lemma_unclosed_string(s: Seq<u8>)
    requires
        0 < s.len() < usize::MAX,
        s[0] as char == '"',
        forall|k: int| 1 <= k < s.len() ==> s[k] as char != '"',
    ensures
        lex_spec(s) == Err::<Seq<TokenView>, _>(
            error(LexerErrorKind::ExpectedStringEnd, 0, s.len() as int),
        ),
{
    lemma_unclosed_body(s, 1);
    assert(skip_trivia(s, 0, false) == 0);
}

/// A `.` that no directive name follows is a `Dot` token over that byte alone; lexing goes on
/// from the byte after it.
pub proof fn lemma_bare_dot(s: Seq<u8>, p: int)
    requires
        0 <= p < s.len() < usize::MAX,
        s[p] as char == '.',
        Directive::from_text(chars_of(s.subrange(p + 1, run_end(s, p + 1)))) is None,
    ensures
        token_at(s, p) == Ok::<TokenView, crate::errors::LexerError>(
            token(TokenKindView::Dot, p, p + 1),
        ),
        skip_trivia(s, p, false) == p ==> lex_from(s, p) == prepend(
            seq![token(TokenKindView::Dot, p, p + 1)],
            lex_from(s, p + 1),
        ),
{
}

/// A run of letters and digits ends at the same place within a piece of the input that ends
/// where the run does.
proof fn lemma_run_end_piece(s: Seq<u8>, a: int, i: int, e: int)
    requires
        0 <= a <= i <= e <= s.len(),
        run_end(s, i) == e,
    ensures
        run_end(s.subrange(a, e), i - a) == e - a,
    decreases e - i,
{
    lemma_run_end(s, i);
    if i < e {
        lemma_run_end_piece(s, a, i + 1, e);
    }
}

/// A string literal's body reads the same within a piece of the input that ends at its
/// closing quote.
proof fn lemma_string_body_piece(s: Seq<u8>, a: int, i: int)
    requires
        0 <= a <= i,
        string_body(s, i) is Some,
    ensures
        ({
            let (text, close) = string_body(s, i).unwrap();
            string_body(s.subrange(a, close + 1), i - a) == Some((text, close - a))
        }),
    decreases s.len() - i,
{
    lemma_string_body(s, i);
    let piece = s.subrange(a, string_body(s, i).unwrap().1 + 1);
    if s[i] as char != '"' {
        if s[i] as char == '\\' {
            lemma_string_body_piece(s, a, i + 2);
            lemma_string_body(s, i + 2);
            assert(piece[i - a] == s[i] && piece[i + 1 - a] == s[i + 1]);
        } else {
            lemma_string_body_piece(s, a, i + 1);
            lemma_string_body(s, i + 1);
            assert(piece[i - a] == s[i]);
        }
    }
}

/// Lexing on its own the piece of the input that a token covers gives a token of the same
/// kind over the whole piece, then `Eof`.
pub proof fn lemma_relex_token(s: Seq<u8>, pos: int)
    requires
        0 <= pos <= s.len() < usize::MAX,
        next_token_spec(s, pos) matches Ok(t) && !(t.kind is Eof),
    ensures
        ({
            let t = next_token_spec(s, pos).unwrap();
            let piece = s.subrange(t.span.start as int, t.span.end as int);
            lex_spec(piece) == Ok::<_, crate::errors::LexerError>(
                seq![
                    token(t.kind, 0, piece.len() as int),
                    token(TokenKindView::Eof, piece.len() as int, piece.len() as int + 1),
                ],
            )
        }),
{
    let t = next_token_spec(s, pos).unwrap();
    let p = skip_trivia(s, pos, false);
    lemma_skip_trivia(s, pos, false);
    lemma_next_token_advances(s, pos);
    let e = t.span.end as int;
    let piece = s.subrange(p, e);
    let n = piece.len() as int;
    assert(t.span.start == p);
    assert(piece[0] == s[p]);
    assert(skip_trivia(piece, 0, false) == 0);
    let b = s[p];
    let c = b as char;
    if c == '\n' || TokenKind::punctuation_spec(c) is Some {
    } else if c == '"' {
        lemma_string_body(s, p + 1);
        lemma_string_body_piece(s, p, p + 1);
    } else if c == '.' {
        let end = run_end(s, p + 1);
        lemma_run_end(s, p + 1);
        if Directive::from_text(chars_of(s.subrange(p + 1, end))) is Some {
            lemma_run_end_piece(s, p, p + 1, end);
            assert(piece.subrange(1, n) =~= s.subrange(p + 1, end));
        } else {
            assert(run_end(piece, 1) == 1);
            assert(chars_of(piece.subrange(1, 1)) =~= Seq::<char>::empty());
            assert forall|d: Directive| d.text() != Seq::<char>::empty() by {
                assert(d.text().len() > 0);
            }
        }
    } else if crate::lexer::grammar::is_letter(b) || crate::lexer::grammar::is_decimal(b) {
        lemma_run_end(s, p);
        lemma_run_end_piece(s, p, p, e);
        assert(piece.subrange(0, n) =~= piece);
    } else {
        lemma_run_end(s, p + 1);
        lemma_run_end_piece(s, p, p + 1, e);
        assert(piece.subrange(1, n) =~= s.subrange(p + 1, e));
    }
    assert(token_at(piece, 0) == Ok::<_, crate::errors::LexerError>(token(t.kind, 0, n)));
    assert(skip_trivia(piece, n, false) == n);
    assert(lex_from(piece, n) == Ok::<_, crate::errors::LexerError>(
        seq![token(TokenKindView::Eof, n, n + 1)],
    ));
    assert(seq![token(t.kind, 0, n)] + seq![token(TokenKindView::Eof, n, n + 1)] =~= seq![
        token(t.kind, 0, n),
        token(TokenKindView::Eof, n, n + 1),
    ]);
}

} // verus!
