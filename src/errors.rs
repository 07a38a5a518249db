use vstd::prelude::*;

use core::ops::Range;

use crate::defs::register::RegisterParseError;
use crate::defs::text::string_from_chars;
use vstd::string::StringExecFns;

verus! {

/// An error that stops the compilation of a program.
#[derive(Debug, PartialEq, Eq)]
pub enum CompileError {
    Lexer(LexerError),
}

/// The first lexical error of an input, with the bytes that caused it.
#[derive(Debug, PartialEq, Eq)]
pub struct LexerError {
    pub kind: LexerErrorKind,
    /// The span of bytes that caused the error.
    pub span: Range<usize>,
}

impl LexerError {
    pub fn new(kind: LexerErrorKind, span: Range<usize>) -> (r: Self)
        ensures
            r.kind == kind,
            r.span == span,
    {
        Self { kind, span }
    }
}

#[derive(Debug, PartialEq, Eq)]
pub enum LexerErrorKind {
    Register(RegisterParseError),
    InvalidToken(char),
    NonAsciiChar,
    ExpectedStringEnd,
    NumberParseError,
    NumberOutOfRange,
}

impl LexerErrorKind {
    /// The title of the error.
    pub open spec fn message_spec(&self) -> Seq<char> {
        match self {
            LexerErrorKind::Register(e) => "Invalid register: "@ + e.message_spec() + "."@,
            LexerErrorKind::InvalidToken(c) => "Invalid token: \""@ + seq![*c] + "\"."@,
            LexerErrorKind::NonAsciiChar => "Non ascii character."@,
            LexerErrorKind::ExpectedStringEnd => "Expected string closing delimiter."@,
            LexerErrorKind::NumberParseError => "Number literal is invalid."@,
            LexerErrorKind::NumberOutOfRange => "Number out of range."@,
        }
    }

    /// The text of the label that marks the offending bytes.
    pub open spec fn label_spec(&self) -> Seq<char> {
        match self {
            LexerErrorKind::Register(e) => e.label_spec(),
            LexerErrorKind::InvalidToken(_) => "This token is invalid"@,
            LexerErrorKind::NonAsciiChar => "This token is invalid as its not ascii"@,
            LexerErrorKind::ExpectedStringEnd => "The string should be closed"@,
            LexerErrorKind::NumberParseError => "This number/address is not valid"@,
            LexerErrorKind::NumberOutOfRange => "This number is out of range"@,
        }
    }

    /// The note to add after the code snippet, for the errors that have one.
    pub open spec fn note_spec(&self) -> Option<Seq<char>> {
        match self {
            LexerErrorKind::Register(e) => Some(e.note_spec()),
            LexerErrorKind::ExpectedStringEnd => Some(
                "The quote that should close the string is missing."@,
            ),
            LexerErrorKind::NumberOutOfRange => Some(
                "The number is represented with 16 bits, therefore it must be between -32768 and 32767"@,
            ),
            _ => None,
        }
    }

    pub fn general_message(&self) -> (r: String)
        ensures
            r@ == self.message_spec(),
    {
        match self {
            LexerErrorKind::Register(e) => {
                let mut m = "Invalid register: ".to_owned();
                m.append(e.general_message().as_str());
                m.append(".");
                m
            },
            LexerErrorKind::InvalidToken(c) => {
                let mut m = "Invalid token: \"".to_owned();
                m.append(string_from_chars(&[*c]).as_str());
                m.append("\".");
                m
            },
            LexerErrorKind::NonAsciiChar => "Non ascii character.".to_owned(),
            LexerErrorKind::ExpectedStringEnd => "Expected string closing delimiter.".to_owned(),
            LexerErrorKind::NumberParseError => "Number literal is invalid.".to_owned(),
            LexerErrorKind::NumberOutOfRange => "Number out of range.".to_owned(),
        }
    }

    pub fn label(&self) -> (r: String)
        ensures
            r@ == self.label_spec(),
    {
        match self {
            LexerErrorKind::Register(err) => err.label(),
            LexerErrorKind::InvalidToken(_) => "This token is invalid".to_owned(),
            LexerErrorKind::NonAsciiChar => "This token is invalid as its not ascii".to_owned(),
            LexerErrorKind::ExpectedStringEnd => "The string should be closed".to_owned(),
            LexerErrorKind::NumberParseError => "This number/address is not valid".to_owned(),
            LexerErrorKind::NumberOutOfRange => "This number is out of range".to_owned(),
        }
    }

    pub fn note(&self) -> (r: Option<String>)
        ensures
            match r {
                Some(n) => self.note_spec() == Some(n@),
                None => self.note_spec() is None,
            },
    {
        match self {
            LexerErrorKind::Register(err) => err.note(),
            LexerErrorKind::ExpectedStringEnd => Some(
                "The quote that should close the string is missing.".to_owned(),
            ),
            LexerErrorKind::NumberOutOfRange => Some(
                "The number is represented with 16 bits, therefore it must be between -32768 and 32767".to_owned(),
            ),
            _ => None,
        }
    }
}

impl CompileError {
    /// The note to add after the code snippet, if any.
    pub fn get_note(&self) -> (r: Option<String>)
        ensures
            match (self, r) {
                (CompileError::Lexer(err), Some(n)) => err.kind.note_spec() == Some(n@),
                (CompileError::Lexer(err), None) => err.kind.note_spec() is None,
            },
    {
        match self {
            CompileError::Lexer(err) => err.kind.note(),
        }
    }

    /// The title of the error.
    pub fn general_message(&self) -> (r: String)
        ensures
            match self {
                CompileError::Lexer(err) => r@ == err.kind.message_spec(),
            },
    {
        match self {
            CompileError::Lexer(err) => err.kind.general_message(),
        }
    }

    /// The bytes of the source that the error points at.
    pub fn get_span(&self) -> (r: Range<usize>)
        ensures
            match self {
                CompileError::Lexer(err) => r == err.span,
            },
    {
        match self {
            CompileError::Lexer(err) => err.span.start..err.span.end,
        }
    }

    /// The text of the label on the code snippet.
    pub fn label_message(&self) -> (r: String)
        ensures
            match self {
                CompileError::Lexer(err) => r@ == err.kind.label_spec(),
            },
    {
        match self {
            CompileError::Lexer(err) => err.kind.label(),
        }
    }
}

} // verus!
