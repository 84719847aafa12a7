//! An interpreter for a small imperative scripting language: source text in,
//! the program's printed output or a parse or runtime failure out.
//!
//! The pipeline is lexer, parser, syntax tree, interpreter. The meaning of a
//! program is stated in `semantics` as a model interpreter, and the
//! interpreter in `interpreter` is proved to follow it step for step.
use vstd::prelude::*;

pub mod ast;
pub mod grammar;
pub mod interpreter;
pub mod laws;
pub mod lexer;
pub mod literal;
pub mod ops;
pub mod parser;
pub mod semantics;
pub mod text;
pub mod value;

use crate::ast::Stmt;
use crate::interpreter::Interpreter;
use crate::lexer::Lexer;
use crate::ops::runtime_message;
use crate::parser::{parse_message, ParseError, Parser};
use crate::semantics::run_program;

verus! {

/// The number of evaluation steps a run may take before it fails with a
/// step-limit error, so that every run ends.
pub const STEP_BUDGET: u64 = 50_000_000;

/// The program that source text parses to, or the fault that stops parsing.
pub open spec fn parse_source(src: Seq<char>) -> Result<Seq<crate::ast::SStmt>, ParseError> {
    crate::grammar::parse_from(crate::grammar::start(src), crate::parser::PARSE_BUDGET as nat)
}

/// How a run failed: the program could not be parsed, or it failed while
/// running. Each carries a message.
#[derive(Debug)]
pub enum FinnLangError {
    ParseError(String),
    RuntimeError(String),
}

impl FinnLangError {
    /// The message with the kind of failure in front of it.
    pub fn describe(&self) -> (r: String)
        ensures
            r@ == match self {
                FinnLangError::ParseError(msg) => "Parse Error: "@ + msg@,
                FinnLangError::RuntimeError(msg) => "Runtime Error: "@ + msg@,
            },
    {
        let mut m: Vec<char> = Vec::new();
        match self {
            FinnLangError::ParseError(msg) => {
                crate::text::push_lit("Parse Error: ", &mut m);
                crate::text::push_lit(msg.as_str(), &mut m);
            },
            FinnLangError::RuntimeError(msg) => {
                crate::text::push_lit("Runtime Error: ", &mut m);
                crate::text::push_lit(msg.as_str(), &mut m);
            },
        }
        string_of(&m)
    }
}

/// Relies on `FromIterator<char>` for `String`: the string of those
/// characters, in order.
#[verifier::external_body]
fn string_of(chars: &Vec<char>) -> (r: String)
    ensures
        r@ == chars@,
{
    chars.iter().collect()
}

/// Parses source text into the statements that parse.
pub fn parse_program(source: &str) -> (r: Result<Vec<Stmt>, ParseError>)
    ensures
        match r {
            Ok(v) => parse_source(source@) == Ok::<Seq<crate::ast::SStmt>, ParseError>(crate::ast::block_view(&v)),
            Err(e) => parse_source(source@) == Err::<Seq<crate::ast::SStmt>, ParseError>(e),
        },
{
    let lexer = Lexer::new(source);
    let mut parser = Parser::new(lexer);
    parser.parse()
}

/// Runs a parsed program with the standard step budget: its output, or the
/// runtime failure that stopped it.
pub fn run_parsed(program: &Vec<Stmt>) -> (r: Result<String, FinnLangError>)
    ensures
        match run_program(crate::ast::block_view(program), STEP_BUDGET as nat) {
            Ok(out) => r is Ok && r->Ok_0@ == out,
            Err(e) => r is Err && r->Err_0 is RuntimeError && r->Err_0->RuntimeError_0@ == runtime_message(e),
        },
{
    let mut interpreter = Interpreter::new();
    match interpreter.run(program, STEP_BUDGET) {
        Ok(out) => Ok(string_of(&out)),
        Err(e) => Err(FinnLangError::RuntimeError(string_of(&e.message()))),
    }
}

/// Parses and runs source text: the output, lines joined by newlines, or the
/// failure. The result is a function of the source text alone: each call
/// starts afresh and nothing is kept between calls.
///
/// Doubles are fixed-point decimals with six fractional digits: digits
/// beyond the sixth are dropped from literals and from results (`3.14159265`
/// prints as `3.141592`, `0.1 + 0.2` as `0.3`). A run may take at most
/// `STEP_BUDGET` evaluation steps; one that takes more, an endless loop
/// among them, fails with "Step limit exceeded".
pub fn run_finn_code(source: &str) -> (r: Result<String, FinnLangError>)
    ensures
        match parse_source(source@) {
            Err(e) => r is Err && r->Err_0 is ParseError && r->Err_0->ParseError_0@ == parse_message(e),
            Ok(p) => match run_program(p, STEP_BUDGET as nat) {
                Ok(out) => r is Ok && r->Ok_0@ == out,
                Err(e) => r is Err && r->Err_0 is RuntimeError && r->Err_0->RuntimeError_0@ == runtime_message(e),
            },
        },
{
    match parse_program(source) {
        Err(e) => Err(FinnLangError::ParseError(string_of(&e.message()))),
        Ok(program) => run_parsed(&program),
    }
}

} // verus!
