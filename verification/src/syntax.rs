//! The entry of the grammar stage: a whole token stream in, a
//! machine description out.
//!
//! The stream must hold exactly one `machine <name> { ... }` form;
//! anything after it is a syntax error. Failures are immediately
//! fatal and carry the offending token's position; the parser does
//! not recover or collect several errors.

use vstd::prelude::*;

use crate::error::SyntaxError;
use crate::error::SyntaxErrorV;
use crate::machine::sp_machine;
use crate::machine::Machine;
use crate::machine::MachineV;
use crate::token::span_of;
use crate::token::tok_span;
use crate::token::TokV;
use crate::token::Token;

verus! {

broadcast use crate::token::lemma_deep_view_is_toks_view;

/// The whole grammar stage: one machine form, then the end of the
/// stream. An error at the very end of the input points at position
/// zero, the host's anchor for the whole invocation.
pub open spec fn sp_parse_syntax(toks: Seq<TokV>) -> Result<MachineV, SyntaxErrorV> {
    match sp_machine(toks, 0, 0) {
        Err(e) => Err(e),
        Ok((m, next)) => {
            if next < toks.len() {
                Err(SyntaxErrorV { message: "unexpected token"@, span: span_of(toks[next]) })
            } else {
                Ok(m)
            }
        },
    }
}

/// Parses a token stream into a machine description, or fails on the
/// first malformed token.
pub fn parse_syntax(tokens: &Vec<Token>) -> (r: Result<Machine, SyntaxError>)
    ensures
        match r {
            Ok(m) => sp_parse_syntax(tokens.deep_view()) == Ok::<_, SyntaxErrorV>(m.deep_view()),
            Err(e) => sp_parse_syntax(tokens.deep_view()) == Err::<MachineV, _>(e.deep_view()),
        },
{
    match Machine::parse(tokens, 0, 0) {
        Err(e) => Err(e),
        Ok((m, next)) => {
            if next < tokens.len() {
                Err(SyntaxError::new("unexpected token", tok_span(&tokens[next])))
            } else {
                Ok(m)
            }
        },
    }
}

} // verus!
