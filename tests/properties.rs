use mips_parser::defs::directive::Directive;
use mips_parser::defs::register::{Register, RegisterParseError, RegisterPrefixedName};
use mips_parser::defs::token::{Token, TokenKind};
use mips_parser::errors::{CompileError, LexerError, LexerErrorKind};
use mips_parser::lexer::Lexer;
use mips_parser::MipsCompiler;

fn lex(input: &str) -> Result<Vec<Token>, LexerError> {
    Lexer::new(input).lex()
}

fn kinds(input: &str) -> Vec<TokenKind> {
    lex(input).unwrap().into_iter().map(|t| t.kind).collect()
}

fn err(kind: LexerErrorKind, span: std::ops::Range<usize>) -> Result<Vec<Token>, LexerError> {
    Err(LexerError::new(kind, span))
}

#[test]
fn single_punctuation_then_eof() {
    let cases = [
        ("(", TokenKind::LParen),
        (")", TokenKind::RParen),
        ("'", TokenKind::SingleQuote),
        ("+", TokenKind::Plus),
        ("-", TokenKind::Minus),
        (",", TokenKind::Comma),
        (":", TokenKind::Colon),
        (".", TokenKind::Dot),
    ];
    for (s, kind) in cases {
        assert_eq!(
            lex(s),
            Ok(vec![Token::new(kind, 0..1), Token::new(TokenKind::Eof, 1..2)])
        );
    }
}

#[test]
fn radix_prefixes_give_same_value() {
    for s in ["0x1f", "0b11111", "0o37", "31", "0X1F".to_lowercase().as_str()] {
        assert_eq!(
            lex(s),
            Ok(vec![
                Token::new(TokenKind::Number(31), 0..s.len()),
                Token::new(TokenKind::Eof, s.len()..s.len() + 1)
            ])
        );
    }
    assert_eq!(kinds("0x1F"), vec![TokenKind::Number(31), TokenKind::Eof]);
    assert_eq!(kinds("32767"), vec![TokenKind::Number(32767), TokenKind::Eof]);
    assert_eq!(kinds("0x7fff"), vec![TokenKind::Number(32767), TokenKind::Eof]);
    assert_eq!(kinds("007"), vec![TokenKind::Number(7), TokenKind::Eof]);
    assert_eq!(kinds("0"), vec![TokenKind::Number(0), TokenKind::Eof]);
}

#[test]
fn number_errors() {
    assert_eq!(lex("32768"), err(LexerErrorKind::NumberOutOfRange, 0..5));
    assert_eq!(lex("3a"), err(LexerErrorKind::NumberParseError, 0..2));
    assert_eq!(lex("0x1h"), err(LexerErrorKind::NumberParseError, 0..4));
    assert_eq!(lex("0x8000"), err(LexerErrorKind::NumberOutOfRange, 0..6));
    assert_eq!(lex("0x"), err(LexerErrorKind::NumberParseError, 0..2));
    assert_eq!(lex("0b102"), err(LexerErrorKind::NumberParseError, 0..5));
    assert_eq!(lex("99999a"), err(LexerErrorKind::NumberOutOfRange, 0..6));
    assert_eq!(lex("3276a"), err(LexerErrorKind::NumberParseError, 0..5));
    assert_eq!(lex("x 12 0o8"), err(LexerErrorKind::NumberParseError, 5..8));
}

#[test]
fn prefixed_registers_within_and_beyond_range() {
    let maxima = [('v', 1u8), ('a', 3), ('t', 9), ('s', 7), ('k', 1)];
    for (prefix, max) in maxima {
        for index in 0u8..10 {
            let text = format!("${}{}", prefix, index);
            let expected = if index <= max {
                Ok(vec![
                    Token::new(
                        TokenKind::Register(Register::PrefixedNumber(RegisterPrefixedName {
                            prefix,
                            index,
                        })),
                        0..3,
                    ),
                    Token::new(TokenKind::Eof, 3..4),
                ])
            } else {
                err(
                    LexerErrorKind::Register(RegisterParseError::OutOfRange(index)),
                    0..3,
                )
            };
            assert_eq!(lex(&text), expected);
        }
    }
}

#[test]
fn numbered_registers() {
    assert_eq!(
        lex("$32"),
        err(LexerErrorKind::Register(RegisterParseError::OutOfRange(32)), 0..3)
    );
    for n in 0u8..32 {
        let text = format!("${}", n);
        assert_eq!(
            kinds(&text),
            vec![TokenKind::Register(Register::Number(n)), TokenKind::Eof]
        );
    }
    assert_eq!(
        lex("$"),
        err(LexerErrorKind::Register(RegisterParseError::Other), 0..1)
    );
    assert_eq!(
        lex("$x9"),
        err(LexerErrorKind::Register(RegisterParseError::InvalidPrefix('x')), 0..3)
    );
}

#[test]
fn strings_with_escapes() {
    let input = r#""a \" b""#;
    assert_eq!(
        lex(input),
        Ok(vec![
            Token::new(TokenKind::String("a \" b".into()), 0..8),
            Token::new(TokenKind::Eof, 8..9)
        ])
    );
    assert_eq!(lex("\"abc"), err(LexerErrorKind::ExpectedStringEnd, 0..4));
    assert_eq!(lex("x \"ab\\"), err(LexerErrorKind::ExpectedStringEnd, 2..6));
    assert_eq!(lex("\"ab\\\""), err(LexerErrorKind::ExpectedStringEnd, 0..5));
    assert_eq!(
        kinds("\"\\\\\""),
        vec![TokenKind::String("\\".into()), TokenKind::Eof]
    );
    assert_eq!(
        kinds("\"\""),
        vec![TokenKind::String("".into()), TokenKind::Eof]
    );
    // each byte of the literal becomes the character of the same code
    assert_eq!(
        kinds("\"è\""),
        vec![TokenKind::String("\u{c3}\u{a8}".into()), TokenKind::Eof]
    );
}

#[test]
fn directives_and_bare_dots() {
    assert_eq!(
        lex("x: .word 7"),
        Ok(vec![
            Token::new(TokenKind::Ident("x".into()), 0..1),
            Token::new(TokenKind::Colon, 1..2),
            Token::new(TokenKind::Directive(Directive::Word), 3..8),
            Token::new(TokenKind::Number(7), 9..10),
            Token::new(TokenKind::Eof, 10..11)
        ])
    );
    assert_eq!(
        lex(". x"),
        Ok(vec![
            Token::new(TokenKind::Dot, 0..1),
            Token::new(TokenKind::Ident("x".into()), 2..3),
            Token::new(TokenKind::Eof, 3..4)
        ])
    );
    assert_eq!(
        lex(".foo"),
        Ok(vec![
            Token::new(TokenKind::Dot, 0..1),
            Token::new(TokenKind::Ident("foo".into()), 1..4),
            Token::new(TokenKind::Eof, 4..5)
        ])
    );
    assert_eq!(
        kinds(".Word"),
        vec![TokenKind::Dot, TokenKind::Ident("Word".into()), TokenKind::Eof]
    );
    assert_eq!(lex(".end_macro"), err(LexerErrorKind::InvalidToken('_'), 4..5));
}

#[test]
fn full_line() {
    assert_eq!(
        lex("la $s0 x"),
        Ok(vec![
            Token::new(TokenKind::Ident("la".into()), 0..2),
            Token::new(
                TokenKind::Register(Register::PrefixedNumber(RegisterPrefixedName {
                    prefix: 's',
                    index: 0
                })),
                3..6
            ),
            Token::new(TokenKind::Ident("x".into()), 7..8),
            Token::new(TokenKind::Eof, 8..9)
        ])
    );
}

#[test]
fn relexing_a_token_gives_its_kind() {
    let input = ".data\nx: .word 7 # note\nla $s0 \"a \\\" b\" 0x1f ( ) + - , : ' . foo syscall\n";
    let tokens = lex(input).unwrap();
    assert!(tokens.len() > 10);
    for t in tokens.iter().filter(|t| t.kind != TokenKind::Eof) {
        let piece = &input[t.span.clone()];
        let again = lex(piece).unwrap();
        assert_eq!(again.len(), 2);
        assert_eq!(again[0].kind, t.kind);
        assert_eq!(again[0].span, 0..piece.len());
    }
}

#[test]
fn blanks_comments_and_end() {
    assert_eq!(lex(""), Ok(vec![Token::new(TokenKind::Eof, 0..1)]));
    assert_eq!(
        lex("x\t\r\x0C y"),
        Ok(vec![
            Token::new(TokenKind::Ident("x".into()), 0..1),
            Token::new(TokenKind::Ident("y".into()), 5..6),
            Token::new(TokenKind::Eof, 6..7)
        ])
    );
    // a comment takes its line feed with it
    assert_eq!(
        kinds("x # c è\ny\n"),
        vec![
            TokenKind::Ident("x".into()),
            TokenKind::Ident("y".into()),
            TokenKind::Newline,
            TokenKind::Eof
        ]
    );
    // a vertical tab is no blank
    assert_eq!(lex("\x0B"), err(LexerErrorKind::InvalidToken('\x0B'), 0..1));
}

#[test]
fn eof_repeats_at_the_end() {
    let mut lexer = Lexer::new("x");
    assert_eq!(
        lexer.next_token(),
        Ok(Token::new(TokenKind::Ident("x".into()), 0..1))
    );
    assert_eq!(lexer.next_token(), Ok(Token::new(TokenKind::Eof, 1..2)));
    assert_eq!(lexer.next_token(), Ok(Token::new(TokenKind::Eof, 1..2)));
}

#[test]
fn error_messages() {
    let e = LexerErrorKind::Register(RegisterParseError::InvalidPrefix('x'));
    assert_eq!(
        e.general_message(),
        "Invalid register: \"x\" is not a valid register prefix."
    );
    assert_eq!(e.label(), "Prefix for this register is invalid");
    assert!(e.note().unwrap().starts_with("Prefix must be one of"));
    let e = LexerErrorKind::InvalidToken('~');
    assert_eq!(e.general_message(), "Invalid token: \"~\".");
    assert_eq!(e.label(), "This token is invalid");
    assert_eq!(e.note(), None);
    assert_eq!(
        LexerErrorKind::NumberOutOfRange.note(),
        Some(
            "The number is represented with 16 bits, therefore it must be between -32768 and 32767"
                .to_string()
        )
    );
    assert_eq!(
        RegisterParseError::InvalidIndex("q".into()).general_message(),
        "\"q\" is not a valid register index"
    );
    assert_eq!(
        RegisterParseError::Other.note(),
        Some("Register must be one of $0-$31 or $a0-$a3,$t0-$t9,$s0-$s7,$k0-$k1,$v0-$v1 or $ra,$at,$gp,$sp,$fp.".to_string())
    );
}

#[test]
fn compile_reports_the_first_error() {
    assert_eq!(MipsCompiler::new("li $v0 4\nsyscall\n").compile(), Ok(()));
    let r = MipsCompiler::new("li $v9 4").compile();
    let expected = LexerError::new(
        LexerErrorKind::Register(RegisterParseError::OutOfRange(9)),
        3..6,
    );
    assert_eq!(r, Err(CompileError::Lexer(expected)));
    let e = r.unwrap_err();
    assert_eq!(e.get_span(), 3..6);
    assert_eq!(e.general_message(), "Invalid register: Register number is out of range.");
    assert_eq!(e.label_message(), "Index for this register is out of range");
    assert!(e.get_note().is_some());
}
