use vstd::prelude::*;

use core::ops::Range;

use crate::defs::directive::Directive;
use crate::defs::instruction::InstructionKind;
use crate::defs::register::Register;

verus! {

/// A token and the half-open range of bytes of the input that it was read from.
#[derive(Debug, PartialEq, Eq)]
pub struct Token {
    pub kind: TokenKind,
    pub span: Range<usize>,
}

impl Token {
    pub fn new(kind: TokenKind, span: Range<usize>) -> (r: Self)
        ensures
            r.kind == kind,
            r.span == span,
    {
        Self { kind, span }
    }
}

#[derive(Debug, PartialEq, Eq)]
pub enum TokenKind {
    Eof,
    Newline,
    // parenthesis
    LParen,  // (
    RParen,  // )
    // punctuation and operators
    SingleQuote,  // \'
    Plus,  // +
    Minus,  // -
    Comma,  // ,
    Dot,  // .
    Colon,  // :
    Register(Register),
    Instruction(InstructionKind),
    Directive(Directive),
    Ident(String),
    String(String),
    Number(i16),
}

/// A [`TokenKind`] with the text of identifiers and strings as character sequences.
pub enum TokenKindView {
    Eof,
    Newline,
    LParen,
    RParen,
    SingleQuote,
    Plus,
    Minus,
    Comma,
    Dot,
    Colon,
    Register(Register),
    Instruction(InstructionKind),
    Directive(Directive),
    Ident(Seq<char>),
    String(Seq<char>),
    Number(i16),
}

impl View for TokenKind {
    type V = TokenKindView;

    open spec fn view(&self) -> TokenKindView {
        match self {
            TokenKind::Eof => TokenKindView::Eof,
            TokenKind::Newline => TokenKindView::Newline,
            TokenKind::LParen => TokenKindView::LParen,
            TokenKind::RParen => TokenKindView::RParen,
            TokenKind::SingleQuote => TokenKindView::SingleQuote,
            TokenKind::Plus => TokenKindView::Plus,
            TokenKind::Minus => TokenKindView::Minus,
            TokenKind::Comma => TokenKindView::Comma,
            TokenKind::Dot => TokenKindView::Dot,
            TokenKind::Colon => TokenKindView::Colon,
            TokenKind::Register(r) => TokenKindView::Register(*r),
            TokenKind::Instruction(k) => TokenKindView::Instruction(*k),
            TokenKind::Directive(d) => TokenKindView::Directive(*d),
            TokenKind::Ident(s) => TokenKindView::Ident(s@),
            TokenKind::String(s) => TokenKindView::String(s@),
            TokenKind::Number(n) => TokenKindView::Number(*n),
        }
    }
}

/// A [`Token`] seen through [`TokenKindView`].
pub struct TokenView {
    pub kind: TokenKindView,
    pub span: Range<usize>,
}

impl View for Token {
    type V = TokenView;

    open spec fn view(&self) -> TokenView {
        TokenView { kind: self.kind@, span: self.span }
    }
}

/// The views of a sequence of tokens.
pub open spec fn tokens_view(tokens: Seq<Token>) -> Seq<TokenView> {
    tokens.map_values(|t: Token| t@)
}

impl TokenKind {
    /// The token of a one-byte punctuation mark: `(`, `)`, `'`, `+`, `-`, `,` or `:`.
    pub open spec fn punctuation_spec(c: char) -> Option<TokenKindView> {
        if c == '(' {
            Some(TokenKindView::LParen)
        } else if c == ')' {
            Some(TokenKindView::RParen)
        } else if c == '\'' {
            Some(TokenKindView::SingleQuote)
        } else if c == '+' {
            Some(TokenKindView::Plus)
        } else if c == '-' {
            Some(TokenKindView::Minus)
        } else if c == ',' {
            Some(TokenKindView::Comma)
        } else if c == ':' {
            Some(TokenKindView::Colon)
        } else {
            None
        }
    }

    /// The token that a one-byte punctuation mark stands for, if `b` is one.
    pub fn punctuation(b: u8) -> (r: Option<TokenKind>)
        ensures
            match r {
                Some(k) => TokenKind::punctuation_spec(b as char) == Some(k@),
                None => TokenKind::punctuation_spec(b as char) is None,
            },
    {
        let c = b as char;
        if c == '(' {
            Some(TokenKind::LParen)
        } else if c == ')' {
            Some(TokenKind::RParen)
        } else if c == '\'' {
            Some(TokenKind::SingleQuote)
        } else if c == '+' {
            Some(TokenKind::Plus)
        } else if c == '-' {
            Some(TokenKind::Minus)
        } else if c == ',' {
            Some(TokenKind::Comma)
        } else if c == ':' {
            Some(TokenKind::Colon)
        } else {
            None
        }
    }
}

} // verus!
