//! Compiler for a small declarative language describing finite state
//! machines with typed state payloads.
//!
//! The pipeline has three stages, each a total function over plain
//! data: a grammar parser that turns a token tree into a machine
//! description, a semantic validator that checks referential
//! integrity of that description, and a code generator that emits the
//! token tree of the runtime machine type. A separate module gives
//! the dispatch semantics that the generated machine implements, with
//! proofs of its laws. The host toolchain's glue — tokenizing real
//! input and splicing the output back — lives outside the library.

use vstd::prelude::*;

pub mod error;
pub mod events;
pub mod generate;
pub mod handlers;
pub mod machine;
pub mod runtime;
pub mod semantic;
pub mod states;
pub mod syntax;
pub mod token;
pub mod transitions;

pub use token::Delim;
pub use token::TokV;
pub use token::Token;

use crate::error::Diagnostic;
use crate::error::DiagnosticV;
use crate::error::SemanticWarning;
use crate::error::SemanticWarningV;
use crate::error::StateMachineError;
use crate::error::StateMachineErrorV;
use crate::error::StateMachineResult;
use crate::error::sp_semantic_message;
use crate::error::sp_semantic_span;
use crate::generate::sp_generate;
use crate::semantic::sp_validate;
use crate::syntax::sp_parse_syntax;

verus! {

/// The whole compilation: parse, validate, generate. On success the
/// emitted token tree and the advisory warnings come back; on the
/// first fatal finding, its diagnostic and nothing else.
pub open spec fn sp_state_machine(toks: Seq<TokV>) -> Result<
    (Seq<TokV>, Seq<SemanticWarningV>),
    StateMachineErrorV,
> {
    match sp_parse_syntax(toks) {
        Err(e) => Err(
            StateMachineErrorV::CompilationFailure(
                DiagnosticV { message: e.message, span: e.span },
            ),
        ),
        Ok(m) => match sp_validate(m) {
            Err(e) => Err(
                StateMachineErrorV::CompilationFailure(
                    DiagnosticV { message: sp_semantic_message(e), span: sp_semantic_span(e) },
                ),
            ),
            Ok(ws) => Ok((sp_generate(m), ws)),
        },
    }
}

/// Compiles one machine definition: the whole pipeline over a token
/// stream. Deterministic: the result is a function of the input
/// tokens alone.
pub fn state_machine(tokens: Vec<Token>) -> (r: StateMachineResult<
    (Vec<Token>, Vec<SemanticWarning>),
>)
    ensures
        match r {
            Ok((out, ws)) => sp_state_machine(tokens.deep_view()) == Ok::<
                _,
                StateMachineErrorV,
            >((out.deep_view(), ws.deep_view())),
            Err(e) => sp_state_machine(tokens.deep_view()) == Err::<
                (Seq<TokV>, Seq<SemanticWarningV>),
                _,
            >(e.deep_view()),
        },
{
    let machine = match crate::syntax::parse_syntax(&tokens) {
        Ok(m) => m,
        Err(e) => {
            let d = e.to_diagnostic();
            return Err(StateMachineError::from(d));
        },
    };
    let (machine, warnings) = match crate::semantic::parse_semantic(machine) {
        Ok(p) => p,
        Err(e) => {
            let d = e.to_diagnostic();
            return Err(StateMachineError::from(d));
        },
    };
    let out = crate::generate::generate(machine);
    Ok((out, warnings))
}

/// Compilation is deterministic: identical token input yields
/// identical generated output, identical warnings, or the identical
/// diagnostic — the pipeline is a function of the input stream
/// alone.
pub proof fn lemma_compilation_deterministic(t1: Seq<TokV>, t2: Seq<TokV>)
    requires
        t1 == t2,
    ensures
        sp_state_machine(t1) == sp_state_machine(t2),
{
}

} // verus!
