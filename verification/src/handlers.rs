//! Handler declarations: `handler name(param: Type, ...) { body }`.
//!
//! A handler is a named block of host code invoked on a successful
//! transition. Its body is captured opaquely — a single balanced
//! brace group — and reproduced verbatim in the generated output; the
//! compiler never parses it further.

use vstd::prelude::*;

use crate::error::SyntaxError;
use crate::error::SyntaxErrorV;
use crate::events::parse_params;
use crate::events::sp_params;
use crate::events::Param;
use crate::events::ParamV;
use crate::token::copy_token;
use crate::token::is_ident;
use crate::token::span_of;
use crate::token::tok_is_ident;
use crate::token::tok_span;
use crate::token::Delim;
use crate::token::Name;
use crate::token::NameV;
use crate::token::TokV;
use crate::token::Token;

verus! {

broadcast use crate::token::lemma_deep_view_is_toks_view;

/// A declared handler: a name, its parameters, and its opaque body,
/// stored as the brace group it arrived in.
#[derive(Debug)]
pub struct Handler {
    pub name: Name,
    pub params: Vec<Param>,
    pub body: Token,
}

/// The mathematical shape of a handler declaration.
pub struct HandlerV {
    pub name: NameV,
    pub params: Seq<ParamV>,
    pub body: TokV,
}

impl DeepView for Handler {
    type V = HandlerV;

    open spec fn deep_view(&self) -> HandlerV {
        HandlerV {
            name: self.name.deep_view(),
            params: self.params.deep_view(),
            body: self.body.deep_view(),
        }
    }
}

/// The handler-declaration grammar: the `handler` keyword, a name, a
/// parenthesized parameter list, and a brace-delimited body.
pub open spec fn sp_handler(toks: Seq<TokV>, pos: int, end_span: u32) -> Result<
    (HandlerV, int),
    SyntaxErrorV,
> {
    if !(pos < toks.len() && is_ident(toks[pos], "handler"@)) {
        Err(
            SyntaxErrorV {
                message: "expected `handler`"@,
                span: if pos < toks.len() {
                    span_of(toks[pos])
                } else {
                    end_span
                },
            },
        )
    } else {
        let p1 = pos + 1;
        if !(p1 < toks.len() && toks[p1] is Ident) {
            Err(
                SyntaxErrorV {
                    message: "expected identifier"@,
                    span: if p1 < toks.len() {
                        span_of(toks[p1])
                    } else {
                        end_span
                    },
                },
            )
        } else {
            let name = NameV { text: toks[p1]->Ident_text, span: toks[p1]->Ident_span };
            let p2 = p1 + 1;
            if !(p2 < toks.len() && toks[p2] matches TokV::Group { delim: Delim::Paren, .. }) {
                Err(
                    SyntaxErrorV {
                        message: "expected parentheses"@,
                        span: if p2 < toks.len() {
                            span_of(toks[p2])
                        } else {
                            end_span
                        },
                    },
                )
            } else {
                match sp_params(toks[p2]->Group_tokens, 0, toks[p2]->Group_span) {
                    Err(e) => Err(e),
                    Ok(params) => {
                        let p3 = p2 + 1;
                        if !(p3 < toks.len() && toks[p3] matches TokV::Group {
                            delim: Delim::Brace,
                            ..
                        }) {
                            Err(
                                SyntaxErrorV {
                                    message: "expected curly braces"@,
                                    span: if p3 < toks.len() {
                                        span_of(toks[p3])
                                    } else {
                                        end_span
                                    },
                                },
                            )
                        } else {
                            Ok((HandlerV { name, params, body: toks[p3] }, p3 + 1))
                        }
                    },
                }
            }
        }
    }
}

impl Handler {
    /// Parses one handler declaration starting at `pos`; returns it
    /// and the position just past the body.
    pub fn parse(toks: &Vec<Token>, pos: usize, end_span: u32) -> (r: Result<
        (Handler, usize),
        SyntaxError,
    >)
        requires
            pos <= toks@.len(),
        ensures
            match r {
                Ok((h, next)) => sp_handler(toks.deep_view(), pos as int, end_span) == Ok::<
                    _,
                    SyntaxErrorV,
                >((h.deep_view(), next as int)) && pos < next <= toks@.len(),
                Err(e) => sp_handler(toks.deep_view(), pos as int, end_span) == Err::<
                    (HandlerV, int),
                    _,
                >(e.deep_view()),
            },
    {
        let kw: String = "handler".to_owned();
        if !(pos < toks.len() && tok_is_ident(&toks[pos], &kw)) {
            let sp = if pos < toks.len() {
                tok_span(&toks[pos])
            } else {
                end_span
            };
            return Err(SyntaxError::new("expected `handler`", sp));
        }
        let p1 = pos + 1;
        let name: Name;
        if p1 >= toks.len() {
            return Err(SyntaxError::new("expected identifier", end_span));
        }
        match &toks[p1] {
            Token::Ident { text, span } => {
                name = Name { text: text.clone(), span: *span };
            },
            _ => {
                return Err(SyntaxError::new("expected identifier", tok_span(&toks[p1])));
            },
        }
        let p2 = p1 + 1;
        if p2 >= toks.len() {
            return Err(SyntaxError::new("expected parentheses", end_span));
        }
        match &toks[p2] {
            Token::Group { delim: Delim::Paren, tokens, span } => {
                let params = match parse_params(tokens, 0, *span) {
                    Ok(ps) => ps,
                    Err(e) => {
                        return Err(e);
                    },
                };
                let p3 = p2 + 1;
                if p3 >= toks.len() {
                    return Err(SyntaxError::new("expected curly braces", end_span));
                }
                match &toks[p3] {
                    Token::Group { delim: Delim::Brace, .. } => {
                        let body = copy_token(&toks[p3]);
                        Ok((Handler { name, params, body }, p3 + 1))
                    },
                    _ => Err(SyntaxError::new("expected curly braces", tok_span(&toks[p3]))),
                }
            },
            _ => Err(SyntaxError::new("expected parentheses", tok_span(&toks[p2]))),
        }
    }
}

} // verus!
