//! Lexer for MIPS assembly source text.
use vstd::prelude::*;
use vstd::string::StringSliceAdditionalSpecFns;

pub mod defs;
pub mod errors;
pub mod lexer;
pub mod parser;

use crate::errors::CompileError;
use crate::lexer::grammar::lex_spec;
use crate::lexer::Lexer;
use crate::parser::Parser;

verus! {

/// Compiles a MIPS program, given as source text.
pub struct MipsCompiler<'a> {
    input: &'a str,
}

impl<'a> MipsCompiler<'a> {
    /// The bytes of the program's source text.
    pub closed spec fn source(&self) -> Seq<u8> {
        self.input.spec_bytes()
    }

    pub fn new(input: &'a str) -> (r: Self)
        ensures
            r.source() == input.spec_bytes(),
    {
        Self { input }
    }

    /// Reads the program; fails with the first lexical error of its source text.
    pub fn compile(self) -> (r: Result<(), CompileError>)
        requires
            self.source().len() < usize::MAX,
        ensures
            match r {
                Ok(()) => lex_spec(self.source()) is Ok,
                Err(CompileError::Lexer(e)) => lex_spec(self.source()) == Err::<
                    Seq<crate::defs::token::TokenView>,
                    _,
                >(e),
            },
    {
        let mut lexer = Lexer::new(self.input);
        let tokens = match lexer.lex() {
            Ok(tokens) => tokens,
            Err(e) => return Err(CompileError::Lexer(e)),
        };
        let _parser = Parser::new(tokens.as_slice());
        Ok(())
    }
}

} // verus!
