//! A compiler front end for a small C-like language: a maximal-munch
//! tokenizer, a recursive-descent parser with precedence climbing, and a
//! tree-walking code generator that targets a small SSA-style instruction
//! builder, together with an interpreter for the generated code. Every
//! stage is specified against a mathematical function of its input, so
//! compilation is provably a function of the source text alone.

pub mod ast;
pub mod codegen;
pub mod interp;
pub mod ir;
pub mod lexer;
pub mod parser;
pub mod token;

use vstd::prelude::*;
use crate::codegen::spec_emit_program;
use crate::ir::{CodeGenError, CodeGenErrorView, Emitter, EmitterView, Module, ModuleView};
use crate::lexer::{spec_tokenize, Lexer};
use crate::parser::{parser, spec_parse_program};
use crate::token::ParseError;

verus! {

/// Everything that can make a compilation fail, keeping parse time and
/// code generation time failures apart.
#[derive(Debug, PartialEq)]
pub enum CompileError {
    Parse(ParseError),
    CodeGen(CodeGenError),
}

/// The mathematical value of a `CompileError`.
pub enum CompileErrorView {
    Parse(ParseError),
    CodeGen(CodeGenErrorView),
}

impl View for CompileError {
    type V = CompileErrorView;

    open spec fn view(&self) -> CompileErrorView {
        match self {
            CompileError::Parse(e) => CompileErrorView::Parse(*e),
            CompileError::CodeGen(e) => CompileErrorView::CodeGen(e@),
        }
    }
}

/// The builder state every compilation starts from: no functions emitted
/// and nothing bound.
pub open spec fn spec_initial_emitter() -> EmitterView {
    EmitterView { module: ModuleView { functions: Seq::empty() }, env: Seq::empty() }
}

/// What compiling a source text produces: tokenize, parse, then emit; the
/// first failure aborts the whole compilation with its one diagnostic.
pub open spec fn spec_compile(code: Seq<char>) -> Result<ModuleView, CompileErrorView> {
    match spec_parse_program(spec_tokenize(code)) {
        Ok((node, rest)) => match spec_emit_program(node, spec_initial_emitter()) {
            Ok(em) => Ok(em.module),
            Err(e) => Err(CompileErrorView::CodeGen(e)),
        },
        Err(e) => Err(CompileErrorView::Parse(e)),
    }
}

/// Compiles one translation unit: either a fully emitted module or exactly
/// one diagnostic. The result is a function of the source text alone.
pub fn compile(code: String) -> (r: Result<Module, CompileError>)
    ensures
        match r {
            Ok(m) => spec_compile(code@) == Ok::<_, CompileErrorView>(m@),
            Err(e) => spec_compile(code@) == Err::<ModuleView, _>(e@),
        },
{
    let lexer = Lexer::new();
    let mut tokens = lexer.lex(code);
    let node = match parser(&mut tokens) {
        Ok(node) => node,
        Err(e) => {
            return Err(CompileError::Parse(e));
        },
    };
    let mut emitter = Emitter::new();
    proof {
        assert(emitter@ =~~= spec_initial_emitter());
    }
    match emitter.emit(&node) {
        Ok(_) => Ok(emitter.module),
        Err(e) => Err(CompileError::CodeGen(e)),
    }
}

} // verus!
