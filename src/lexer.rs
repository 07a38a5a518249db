use vstd::prelude::*;
use vstd::string::StringSliceAdditionalSpecFns;
use vstd::utf8::{encode_utf8_valid_utf8, valid_utf8};

use crate::defs::directive::Directive;
use crate::defs::instruction::InstructionKind;
use crate::defs::numeral::{
    all_digits, digit_value, digits_value, first_non_digit, is_digit, lemma_prefix_value_le,
    lemma_value_step,
};
use crate::defs::register::Register;
use crate::defs::text::{chars_of, string_from_chars};
use crate::defs::token::{tokens_view, Token, TokenKind, TokenKindView, TokenView};
use crate::errors::{LexerError, LexerErrorKind};
use grammar::{
    after_ascii, cursor_after, lemma_leading_byte, lemma_next_token_advances, lemma_run_end,
    lemma_skip_trivia, lex_from, next_token_spec, number_max, number_of, prepend, radix_of,
    run_end, skip_trivia, string_body, token, token_at,
};

pub mod grammar;
pub mod laws;

verus! {

/// What a token reader returned, seen through [`TokenView`].
pub open spec fn outcome(r: Result<Token, LexerError>) -> Result<TokenView, LexerError> {
    match r {
        Ok(t) => Ok(t@),
        Err(e) => Err(e),
    }
}

/// What [`Lexer::lex`] returned, seen through [`TokenView`].
pub open spec fn lexed(r: Result<Vec<Token>, LexerError>) -> Result<Seq<TokenView>, LexerError> {
    match r {
        Ok(v) => Ok(tokens_view(v@)),
        Err(e) => Err(e),
    }
}

/// A cursor over the bytes of a source text, which reads them as tokens.
#[derive(Debug)]
pub struct Lexer<'a> {
    pos: usize,
    input: &'a [u8],
}

impl<'a> Lexer<'a> {
    /// The bytes of the source text.
    pub closed spec fn source(&self) -> Seq<u8> {
        self.input@
    }

    /// The offset of the next byte to read.
    pub closed spec fn cursor(&self) -> int {
        self.pos as int
    }

    /// The input is UTF-8 and the cursor stands within it, at the start of a character.
    pub closed spec fn wf(&self) -> bool {
        &&& valid_utf8(self.input@)
        &&& self.input@.len() < usize::MAX
        &&& self.pos <= self.input@.len()
        &&& after_ascii(self.input@, self.pos as int)
    }

    pub fn new(input: &'a str) -> (r: Self)
        requires
            input.spec_bytes().len() < usize::MAX,
        ensures
            r.wf(),
            r.source() == input.spec_bytes(),
            r.cursor() == 0,
    {
        proof {
            encode_utf8_valid_utf8(input@);
        }
        Lexer { pos: 0, input: input.as_bytes() }
    }

    /// Returns all the tokens from the cursor on, up to and with `Eof`, or the first error.
    pub fn lex(&mut self) -> (r: Result<Vec<Token>, LexerError>)
        requires
            old(self).wf(),
        ensures
            final(self).wf(),
            final(self).source() == old(self).source(),
            lexed(r) == lex_from(old(self).source(), old(self).cursor()),
    {
        let ghost s = self.input@;
        let ghost start = self.pos as int;
        let mut res: Vec<Token> = Vec::new();
        loop
            invariant
                self.wf(),
                self.input@ == s,
                s == old(self).input@,
                start == old(self).pos as int,
                0 <= start <= s.len(),
                lex_from(s, start) == prepend(tokens_view(res@), lex_from(s, self.pos as int)),
            decreases s.len() - self.pos,
        {
            let ghost before = self.pos as int;
            let tok = match self.next_token() {
                Ok(tok) => tok,
                Err(e) => return Err(e),
            };
            proof {
                lemma_next_token_advances(s, before);
                assert(tokens_view(res@.push(tok)) =~= tokens_view(res@) + seq![tok@]);
                lemma_prepend_concat(tokens_view(res@), seq![tok@], lex_from(s, self.pos as int));
            }
            if matches!(tok.kind, TokenKind::Eof) {
                res.push(tok);
                return Ok(res);
            }
            res.push(tok);
        }
    }

    /// Reads one token from the cursor on, after blanks and comments, or the error found there.
    pub fn next_token(&mut self) -> (r: Result<Token, LexerError>)
        requires
            old(self).wf(),
        ensures
            final(self).wf(),
            final(self).source() == old(self).source(),
            outcome(r) == next_token_spec(old(self).source(), old(self).cursor()),
            r matches Ok(t) ==> final(self).cursor() == cursor_after(t@),
    {
        self.skip_whitespace();
        let p = self.pos;
        let ghost s = self.input@;
        let Some(curr) = self.peek() else {
            return Ok(Token::new(TokenKind::Eof, p..p + 1));
        };
        let c = curr as char;
        if c == '\n' {
            self.read_next();
            return Ok(Token::new(TokenKind::Newline, p..p + 1));
        }
        if let Some(kind) = TokenKind::punctuation(curr) {
            self.read_next();
            return Ok(Token::new(kind, p..p + 1));
        }
        if c == '"' {
            return self.read_string();
        }
        if c == '.' {
            if let Ok(tok) = self.read_directive() {
                return Ok(tok);
            }
            self.read_next();
            return Ok(Token::new(TokenKind::Dot, p..p + 1));
        }
        if ('a' <= c && c <= 'z') || ('A' <= c && c <= 'Z') {
            return self.read_ident_or_instruction();
        }
        if '0' <= c && c <= '9' {
            return self.read_number();
        }
        if c == '$' {
            return self.read_register();
        }
        if curr >= 0x80 {
            proof {
                lemma_leading_byte(s, p as int);
            }
            // the length of the character, from its leading byte
            let length: usize = if curr <= 0xDF {
                2
            } else if curr <= 0xEF {
                3
            } else {
                4
            };
            return Err(LexerError::new(LexerErrorKind::NonAsciiChar, p..p + length));
        }
        Err(LexerError::new(LexerErrorKind::InvalidToken(c), p..p + 1))
    }

    /// Moves the cursor past blanks and comments; it stops at a line feed, which is a token.
    fn skip_whitespace(&mut self)
        requires
            old(self).wf(),
        ensures
            final(self).wf(),
            final(self).input == old(self).input,
            final(self).pos == skip_trivia(old(self).input@, old(self).pos as int, false),
    {
        let ghost s = self.input@;
        let ghost start = self.pos as int;
        proof {
            lemma_skip_trivia(s, start, false);
        }
        let mut in_comment = false;
        loop
            invariant
                self.input@ == s,
                valid_utf8(s),
                s.len() < usize::MAX,
                after_ascii(s, start),
                0 <= start <= self.pos <= s.len(),
                start == old(self).pos,
                self.input == old(self).input,
                skip_trivia(s, start, false) == skip_trivia(s, self.pos as int, in_comment),
                skip_trivia(s, start, false) == start || after_ascii(
                    s,
                    skip_trivia(s, start, false),
                ),
            decreases s.len() - self.pos,
        {
            let Some(curr) = self.peek() else {
                return;
            };
            let c = curr as char;
            if in_comment {
                in_comment = c != '\n';
            } else if c == ' ' || c == '\t' || c == '\x0C' || c == '\r' {
            } else if c == '#' {
                in_comment = true;
            } else {
                return;
            }
            self.read_next();
        }
    }

    /// Returns the byte that would be read next without altering the state of the Lexer.
    fn peek(&self) -> (r: Option<u8>)
        ensures
            r == (if self.pos < self.input@.len() {
                Some(self.input@[self.pos as int])
            } else {
                None
            }),
    {
        if self.pos >= self.input.len() {
            None
        } else {
            Some(self.input[self.pos])
        }
    }

    /// Reads the next byte and moves the cursor past it.
    fn read_next(&mut self) -> (r: Option<u8>)
        ensures
            final(self).input == old(self).input,
            old(self).pos < old(self).input@.len() ==> r == Some(
                old(self).input@[old(self).pos as int],
            ) && final(self).pos == old(self).pos + 1,
            old(self).pos >= old(self).input@.len() ==> r is None && final(self).pos == old(
                self,
            ).pos,
    {
        if self.pos >= self.input.len() {
            None
        } else {
            self.pos += 1;
            Some(self.input[self.pos - 1])
        }
    }

    /// Reads the longest run of ASCII letters and digits from the cursor on.
    fn read_alphanumeric(&mut self) -> (word: Vec<char>)
        requires
            old(self).pos <= old(self).input@.len(),
        ensures
            final(self).input == old(self).input,
            final(self).pos == run_end(old(self).input@, old(self).pos as int),
            word@ == chars_of(old(self).input@.subrange(old(self).pos as int, final(self).pos as int)),
    {
        let ghost s = self.input@;
        let ghost start = self.pos as int;
        let mut word: Vec<char> = Vec::new();
        loop
            invariant
                self.input@ == s,
                self.input == old(self).input,
                0 <= start <= self.pos <= s.len(),
                start == old(self).pos,
                run_end(s, start) == run_end(s, self.pos as int),
                word@ == chars_of(s.subrange(start, self.pos as int)),
            ensures
                self.input@ == s,
                self.input == old(self).input,
                self.pos == run_end(s, start),
                word@ == chars_of(s.subrange(start, self.pos as int)),
            decreases s.len() - self.pos,
        {
            let Some(curr) = self.peek() else {
                break;
            };
            let c = curr as char;
            if !(('0' <= c && c <= '9') || ('a' <= c && c <= 'z') || ('A' <= c && c <= 'Z')) {
                break;
            }
            word.push(c);
            self.read_next();
            assert(s.subrange(start, self.pos as int) =~= s.subrange(start, self.pos - 1).push(
                curr,
            ));
            assert(chars_of(s.subrange(start, self.pos as int)) =~= chars_of(
                s.subrange(start, self.pos - 1),
            ).push(c));
        }
        word
    }

    /// Reads a string, stops when a non escaped closing quote is found, returns an error if the
    /// closing delimiter doesn't exist.
    fn read_string(&mut self) -> (r: Result<Token, LexerError>)
        requires
            old(self).wf(),
            old(self).pos < old(self).input@.len(),
            old(self).input@[old(self).pos as int] as char == '"',
        ensures
            final(self).wf(),
            final(self).input == old(self).input,
            outcome(r) == token_at(old(self).input@, old(self).pos as int),
            r matches Ok(t) ==> final(self).cursor() == cursor_after(t@),
    {
        let ghost s = self.input@;
        let start = self.pos;
        let mut text: Vec<char> = Vec::new();
        // skip the " that starts the string
        self.read_next();
        loop
            invariant
                self.input@ == s,
                self.input == old(self).input,
                valid_utf8(s),
                s.len() < usize::MAX,
                start < self.pos <= s.len(),
                start == old(self).pos,
                s[start as int] as char == '"',
                string_body(s, start + 1) == match string_body(s, self.pos as int) {
                    Some((rest, close)) => Some((text@ + rest, close)),
                    None => None,
                },
            decreases s.len() - self.pos,
        {
            let Some(curr) = self.read_next() else {
                return Err(LexerError::new(LexerErrorKind::ExpectedStringEnd, start..self.pos));
            };
            let c = curr as char;
            if c == '"' {
                proof {
                    assert(text@ + Seq::empty() =~= text@);
                }
                let string = string_from_chars(text.as_slice());
                return Ok(Token::new(TokenKind::String(string), start..self.pos));
            } else if c == '\\' {
                // the escaped byte is taken as it is
                let Some(escaped) = self.read_next() else {
                    return Err(
                        LexerError::new(LexerErrorKind::ExpectedStringEnd, start..self.pos),
                    );
                };
                proof {
                    let ghost tail = string_body(s, self.pos as int);
                    if let Some((rest, close)) = tail {
                        assert(text@.push(escaped as char) + rest =~= text@ + (seq![
                            escaped as char,
                        ] + rest));
                    }
                }
                text.push(escaped as char);
            } else {
                proof {
                    let ghost tail = string_body(s, self.pos as int);
                    if let Some((rest, close)) = tail {
                        assert(text@.push(c) + rest =~= text@ + (seq![c] + rest));
                    }
                }
                text.push(c);
            }
        }
    }

    /// Reads an identifier, or the instruction that it names.
    fn read_ident_or_instruction(&mut self) -> (r: Result<Token, LexerError>)
        requires
            old(self).wf(),
            old(self).pos < old(self).input@.len(),
            grammar::is_letter(old(self).input@[old(self).pos as int]),
        ensures
            final(self).wf(),
            final(self).input == old(self).input,
            outcome(r) == token_at(old(self).input@, old(self).pos as int),
            r matches Ok(t) ==> final(self).cursor() == cursor_after(t@),
    {
        let start = self.pos;
        proof {
            lemma_run_end(self.input@, start as int);
        }
        let word = self.read_alphanumeric();
        let span = start..self.pos;
        // try the word as an instruction; if it names none, it is an identifier
        match InstructionKind::from_chars(word.as_slice()) {
            Some(instruction) => Ok(Token::new(TokenKind::Instruction(instruction), span)),
            None => Ok(Token::new(TokenKind::Ident(string_from_chars(word.as_slice())), span)),
        }
    }

    /// Reads a `.` and the directive that follows it; when no directive follows, the cursor
    /// goes back to the `.`.
    fn read_directive(&mut self) -> (r: Result<Token, ()>)
        requires
            old(self).wf(),
            old(self).pos < old(self).input@.len(),
            old(self).input@[old(self).pos as int] as char == '.',
        ensures
            final(self).wf(),
            final(self).input == old(self).input,
            ({
                let s = old(self).input@;
                let p = old(self).pos as int;
                let end = run_end(s, p + 1);
                match Directive::from_text(chars_of(s.subrange(p + 1, end))) {
                    Some(d) => r matches Ok(t) && t@ == token(
                        TokenKindView::Directive(d),
                        p,
                        end,
                    ) && final(self).pos == end,
                    None => r is Err && final(self).pos == old(self).pos,
                }
            }),
    {
        let start = self.pos;
        // skip the `.`
        self.read_next();
        proof {
            lemma_run_end(self.input@, start + 1);
        }
        let word = self.read_alphanumeric();
        // a directive when the word names one; else go back to the `.`
        if let Some(directive) = Directive::from_chars(word.as_slice()) {
            Ok(Token::new(TokenKind::Directive(directive), start..self.pos))
        } else {
            self.pos = start;
            Err(())
        }
    }

    /// Reads a number literal, in the radix that its prefix selects.
    fn read_number(&mut self) -> (r: Result<Token, LexerError>)
        requires
            old(self).wf(),
            old(self).pos < old(self).input@.len(),
            grammar::is_decimal(old(self).input@[old(self).pos as int]),
        ensures
            final(self).wf(),
            final(self).input == old(self).input,
            outcome(r) == token_at(old(self).input@, old(self).pos as int),
            r matches Ok(t) ==> final(self).cursor() == cursor_after(t@),
    {
        let start = self.pos;
        proof {
            lemma_run_end(self.input@, start as int);
        }
        let word = self.read_alphanumeric();
        let span = start..self.pos;
        match number_value(word.as_slice()) {
            Ok(num) => Ok(Token::new(TokenKind::Number(num), span)),
            Err(kind) => Err(LexerError::new(kind, span)),
        }
    }

    /// Reads a register starting from a dollar sign, returning a [`TokenKind::Register`],
    /// containing the representation of the register following the $.
    fn read_register(&mut self) -> (r: Result<Token, LexerError>)
        requires
            old(self).wf(),
            old(self).pos < old(self).input@.len(),
            old(self).input@[old(self).pos as int] as char == '$',
        ensures
            final(self).wf(),
            final(self).input == old(self).input,
            outcome(r) == token_at(old(self).input@, old(self).pos as int),
            r matches Ok(t) ==> final(self).cursor() == cursor_after(t@),
    {
        let start = self.pos;
        // skip the $ itself
        self.read_next();
        proof {
            lemma_run_end(self.input@, start + 1);
        }
        let chars = self.read_alphanumeric();
        let span = start..self.pos;
        match Register::parse(chars.as_slice()) {
            Ok(register) => Ok(Token::new(TokenKind::Register(register), span)),
            Err(err) => Err(LexerError::new(LexerErrorKind::Register(err), span)),
        }
    }
}

/// The value of a number literal, or why it has none.
fn number_value(w: &[char]) -> (r: Result<i16, LexerErrorKind>)
    ensures
        r == number_of(w@),
{
    // parse the number with the radix that its prefix selects
    let (radix, prefix): (u32, usize) = if w.len() >= 2 && w[0] == '0' && w[1] == 'x' {
        (16, 2)
    } else if w.len() >= 2 && w[0] == '0' && w[1] == 'b' {
        (2, 2)
    } else if w.len() >= 2 && w[0] == '0' && w[1] == 'o' {
        (8, 2)
    } else {
        (10, 0)
    };
    let ghost d = w@.subrange(prefix as int, w@.len() as int);
    assert(radix_of(w@) == (radix as nat, prefix as int));
    if prefix == w.len() {
        return Err(LexerErrorKind::NumberParseError);
    }
    let mut acc: u32 = 0;
    let mut i: usize = prefix;
    while i < w.len()
        invariant
            prefix <= i <= w.len(),
            prefix < w.len(),
            2 <= radix <= 16,
            radix_of(w@) == (radix as nat, prefix as int),
            d == w@.subrange(prefix as int, w@.len() as int),
            first_non_digit(d, radix as nat, 0) == first_non_digit(d, radix as nat, i - prefix),
            acc == digits_value(d.take(i - prefix), radix as nat),
            acc <= number_max(),
        decreases w.len() - i,
    {
        let c = w[i];
        let Some(digit) = digit_in(c, radix) else {
            return Err(LexerErrorKind::NumberParseError);
        };
        proof {
            lemma_value_step(d, radix as nat, i - prefix);
            assert(acc * radix <= 32767 * 16) by (nonlinear_arith)
                requires
                    acc <= 32767,
                    radix <= 16,
            ;
        }
        acc = acc * radix + digit;
        i += 1;
        if acc > 32767 {
            proof {
                let valid = first_non_digit(d, radix as nat, 0);
                lemma_first_non_digit(d, radix as nat, i - prefix);
                lemma_prefix_value_le(d.take(valid), radix as nat, i - prefix);
                assert(d.take(valid).take(i - prefix) =~= d.take(i - prefix));
            }
            return Err(LexerErrorKind::NumberOutOfRange);
        }
    }
    proof {
        lemma_all_digits(d, radix as nat);
        assert(d.take(i - prefix) =~= d);
    }
    Ok(acc as i16)
}

/// The value of `c` as a digit in `radix`, as `char::to_digit` gives it.
fn digit_in(c: char, radix: u32) -> (r: Option<u32>)
    requires
        2 <= radix <= 36,
    ensures
        r == (if is_digit(c, radix as nat) {
            Some(digit_value(c) as u32)
        } else {
            None
        }),
{
    let value: u32 = if '0' <= c && c <= '9' {
        c as u32 - '0' as u32
    } else if 'a' <= c && c <= 'z' {
        c as u32 - 'a' as u32 + 10
    } else if 'A' <= c && c <= 'Z' {
        c as u32 - 'A' as u32 + 10
    } else {
        36
    };
    if value < radix {
        Some(value)
    } else {
        None
    }
}

/// The first non-digit lies at or after where the search starts, and within the text.
proof fn lemma_first_non_digit(d: Seq<char>, radix: nat, i: int)
    requires
        0 <= i <= d.len(),
    ensures
        i <= first_non_digit(d, radix, i) <= d.len(),
    decreases d.len() - i,
{
    if i < d.len() && is_digit(d[i], radix) {
        lemma_first_non_digit(d, radix, i + 1);
    }
}

/// When the search for a non-digit from the end finds none, every character is a digit.
proof fn lemma_all_digits(d: Seq<char>, radix: nat)
    requires
        first_non_digit(d, radix, 0) == d.len(),
    ensures
        all_digits(d, radix),
{
    assert forall|k: int| 0 <= k < d.len() implies is_digit(#[trigger] d[k], radix) by {
        lemma_digits_before(d, radix, 0, k);
    }
}

/// Every character between the start of the search and the first non-digit is a digit.
proof fn lemma_digits_before(d: Seq<char>, radix: nat, i: int, k: int)
    requires
        0 <= i <= k < first_non_digit(d, radix, i),
    ensures
        is_digit(d[k], radix),
    decreases d.len() - i,
{
    if i < d.len() && is_digit(d[i], radix) && i < k {
        lemma_digits_before(d, radix, i + 1, k);
    }
}

/// Prepending two runs of tokens one after the other prepends their concatenation.
pub proof fn lemma_prepend_concat(
    a: Seq<TokenView>,
    b: Seq<TokenView>,
    r: Result<Seq<TokenView>, LexerError>,
)
    ensures
        prepend(a, prepend(b, r)) == prepend(a + b, r),
{
    if let Ok(rest) = r {
        assert(a + (b + rest) =~= (a + b) + rest);
    }
}

} // verus!
