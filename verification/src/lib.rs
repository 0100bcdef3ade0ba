use vstd::prelude::*;

pub mod ast;
pub mod cfg;
pub mod code_gen;
pub mod eval;
pub mod ir;
pub mod laws;
pub mod parser;
pub mod text;
pub mod tokens;
pub mod type_analyzer;

use crate::cfg::{CfgModule, CfgModuleV};
use crate::code_gen::{spec_generate, CodeGen};
use crate::parser::{spec_module_from, Parser, ParsingError, ParsingErrorV};
use crate::tokens::{spec_tokenize, Tokenizer, TokenizerError, TokenizerErrorV};
use crate::type_analyzer::{spec_resolve, Analyzer, TypeError};

verus! {

/// Flags that callers of the compiler may set.  The dump flags and the
/// optimization toggle are acted on by the surrounding program: dumping
/// is output, and optimization belongs to the native toolchain that
/// consumes the module artifact.
pub struct CompilerOptions {
    pub dont_optimize: bool,
    pub output_tokens: bool,
    pub output_ast: bool,
    pub output_ir: bool,
    pub output_llvm: bool,
}

/// A failure of any front-end or middle-end stage, labelled with the
/// stage it came from.
#[derive(Debug)]
pub enum CompileError {
    Tokenizer(TokenizerError),
    Parsing(ParsingError),
    Type(TypeError),
}

/// Mathematical model of a compile failure.
pub enum CompileErrorV {
    Tokenizer(TokenizerErrorV),
    Parsing(ParsingErrorV),
    Type(Seq<char>),
}

impl View for CompileError {
    type V = CompileErrorV;

    open spec fn view(&self) -> CompileErrorV {
        match self {
            CompileError::Tokenizer(e) => CompileErrorV::Tokenizer(e@),
            CompileError::Parsing(e) => CompileErrorV::Parsing(e@),
            CompileError::Type(e) => CompileErrorV::Type(e@),
        }
    }
}

/// The parse of a source text: its tokens, then its module.
pub open spec fn spec_parse_source(cs: Seq<char>) -> Result<ast::ModuleV, CompileErrorV> {
    match spec_tokenize(cs) {
        Err(e) => Err(CompileErrorV::Tokenizer(e)),
        Ok(ts) => match spec_module_from(ts, 0) {
            Err(e) => Err(CompileErrorV::Parsing(e)),
            Ok(m) => Ok(m),
        },
    }
}

/// The full compilation of a source text: tokens, syntax tree, typed
/// intermediate representation, and the module artifact.
pub open spec fn spec_build(cs: Seq<char>) -> Result<(ir::ModuleV, CfgModuleV), CompileErrorV> {
    match spec_parse_source(cs) {
        Err(e) => Err(e),
        Ok(m) => match spec_resolve(m) {
            Err(msg) => Err(CompileErrorV::Type(msg)),
            Ok(im) => Ok((im, spec_generate(im))),
        },
    }
}

/// Tokenize and parse a source text.
pub fn parse(code: &str) -> (r: Result<ast::Module, CompileError>)
    ensures
        match r {
            Ok(m) => spec_parse_source(code@) == Ok::<_, CompileErrorV>(m@),
            Err(e) => spec_parse_source(code@) == Err::<ast::ModuleV, _>(e@),
        },
{
    let tokenizer = Tokenizer::new(code);
    let tokens = match tokenizer.tokenize() {
        Ok(ts) => ts,
        Err(e) => {
            return Err(CompileError::Tokenizer(e));
        },
    };
    let parser = Parser::new(tokens);
    match parser.module() {
        Ok(m) => Ok(m),
        Err(e) => Err(CompileError::Parsing(e)),
    }
}

/// What a successful compilation hands back: the typed intermediate
/// representation and the module artifact.  Lowering the artifact to a
/// native object and binary is the work of an external toolchain.
pub struct BuildOutput {
    pub ir: ir::Module,
    pub artifact: CfgModule,
}

/// Compile a source text through every stage: tokenize, parse, resolve,
/// and generate the module artifact.  The first failure of any stage
/// aborts the compilation.
pub fn build(code: &str) -> (r: Result<BuildOutput, CompileError>)
    ensures
        match r {
            Ok(out) => spec_build(code@) == Ok::<_, CompileErrorV>((out.ir@, out.artifact@)),
            Err(e) => spec_build(code@) == Err::<(ir::ModuleV, CfgModuleV), _>(e@),
        },
{
    let module = match parse(code) {
        Ok(m) => m,
        Err(e) => {
            return Err(e);
        },
    };
    let mut analyzer = Analyzer::new();
    let ir_module = match analyzer.resolve_module(&module) {
        Ok(im) => im,
        Err(e) => {
            return Err(CompileError::Type(e));
        },
    };
    let mut code_gen = CodeGen::new();
    code_gen.compile_module(&ir_module);
    let artifact = code_gen.into_module();
    Ok(BuildOutput { ir: ir_module, artifact })
}

} // verus!
