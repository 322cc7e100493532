//! Event declarations: `event Name(param: Type, ...);`.
//!
//! An event names a callable signature that triggers dispatch at run
//! time. This module also holds the parameter-list grammar that
//! handler declarations share: a comma-separated list of
//! `name: Type` entries, the type being an opaque token run up to the
//! next top-level comma.

use vstd::prelude::*;

use crate::error::SyntaxError;
use crate::error::SyntaxErrorV;
use crate::token::is_ident;
use crate::token::is_punct;
use crate::token::span_of;
use crate::token::copy_range;
use crate::token::tok_is_punct;
use crate::token::Delim;
use crate::token::Name;
use crate::token::NameV;
use crate::token::TokV;
use crate::token::Token;

verus! {

broadcast use crate::token::lemma_deep_view_is_toks_view;

/// One declared parameter: a name and its opaque type tokens.
#[derive(Debug)]
pub struct Param {
    pub name: Name,
    pub ty: Vec<Token>,
}

/// The mathematical shape of a parameter.
pub struct ParamV {
    pub name: NameV,
    pub ty: Seq<TokV>,
}

impl DeepView for Param {
    type V = ParamV;

    open spec fn deep_view(&self) -> ParamV {
        ParamV { name: self.name.deep_view(), ty: self.ty.deep_view() }
    }
}

/// A declared event: a name and its call parameters.
#[derive(Debug)]
pub struct Event {
    pub name: Name,
    pub params: Vec<Param>,
}

/// The mathematical shape of an event declaration.
pub struct EventV {
    pub name: NameV,
    pub params: Seq<ParamV>,
}

impl DeepView for Event {
    type V = EventV;

    open spec fn deep_view(&self) -> EventV {
        EventV { name: self.name.deep_view(), params: self.params.deep_view() }
    }
}

/// The position of the next top-level comma at or after `i`, or the
/// end of the sequence if there is none.
pub open spec fn scan_comma(toks: Seq<TokV>, i: int) -> int
    decreases toks.len() - i,
{
    if i >= toks.len() {
        toks.len() as int
    } else if is_punct(toks[i], ',') {
        i
    } else {
        scan_comma(toks, i + 1)
    }
}

/// `scan_comma` stays between its argument and the end of the input.
pub proof fn lemma_scan_comma(toks: Seq<TokV>, i: int)
    requires
        i <= toks.len(),
    ensures
        i <= scan_comma(toks, i) <= toks.len(),
    decreases toks.len() - i,
{
    if i < toks.len() && !is_punct(toks[i], ',') {
        lemma_scan_comma(toks, i + 1);
    }
}

/// The parameter-list grammar, over the contents of a parenthesis
/// group: `name: Type` entries separated by commas, a trailing comma
/// allowed. `end_span` is the position an error at the end of the
/// group points at.
pub open spec fn sp_params(toks: Seq<TokV>, pos: int, end_span: u32) -> Result<
    Seq<ParamV>,
    SyntaxErrorV,
>
    decreases toks.len() - pos,
{
    if pos >= toks.len() {
        Ok(Seq::empty())
    } else {
        match toks[pos] {
            TokV::Ident { text, span } => {
                let p1 = pos + 1;
                if p1 < toks.len() && is_punct(toks[p1], ':') {
                    let c = scan_comma(toks, p1 + 1);
                    if c == p1 + 1 {
                        Err(
                            SyntaxErrorV {
                                message: "expected type"@,
                                span: if c < toks.len() {
                                    span_of(toks[c])
                                } else {
                                    end_span
                                },
                            },
                        )
                    } else {
                        let param = ParamV {
                            name: NameV { text, span },
                            ty: toks.subrange(p1 + 1, c),
                        };
                        if c >= toks.len() {
                            Ok(seq![param])
                        } else {
                            proof {
                                lemma_scan_comma(toks, p1 + 1);
                            }
                            match sp_params(toks, c + 1, end_span) {
                                Ok(rest) => Ok(seq![param] + rest),
                                Err(e) => Err(e),
                            }
                        }
                    }
                } else {
                    Err(
                        SyntaxErrorV {
                            message: "expected `:`"@,
                            span: if p1 < toks.len() {
                                span_of(toks[p1])
                            } else {
                                end_span
                            },
                        },
                    )
                }
            },
            _ => Err(SyntaxErrorV { message: "expected identifier"@, span: span_of(toks[pos]) }),
        }
    }
}

/// The event-declaration grammar: the `event` keyword, a name, a
/// parenthesized parameter list, and a closing semicolon.
pub open spec fn sp_event(toks: Seq<TokV>, pos: int, end_span: u32) -> Result<
    (EventV, int),
    SyntaxErrorV,
> {
    if !(pos < toks.len() && is_ident(toks[pos], "event"@)) {
        Err(
            SyntaxErrorV {
                message: "expected `event`"@,
                span: if pos < toks.len() {
                    span_of(toks[pos])
                } else {
                    end_span
                },
            },
        )
    } else {
        let p1 = pos + 1;
        if !(p1 < toks.len() && toks[p1] is Ident) {
            Err(
                SyntaxErrorV {
                    message: "expected identifier"@,
                    span: if p1 < toks.len() {
                        span_of(toks[p1])
                    } else {
                        end_span
                    },
                },
            )
        } else {
            let name = NameV { text: toks[p1]->Ident_text, span: toks[p1]->Ident_span };
            let p2 = p1 + 1;
            if !(p2 < toks.len() && toks[p2] matches TokV::Group { delim: Delim::Paren, .. }) {
                Err(
                    SyntaxErrorV {
                        message: "expected parentheses"@,
                        span: if p2 < toks.len() {
                            span_of(toks[p2])
                        } else {
                            end_span
                        },
                    },
                )
            } else {
                match sp_params(toks[p2]->Group_tokens, 0, toks[p2]->Group_span) {
                    Err(e) => Err(e),
                    Ok(params) => {
                        let p3 = p2 + 1;
                        if !(p3 < toks.len() && is_punct(toks[p3], ';')) {
                            Err(
                                SyntaxErrorV {
                                    message: "expected `;`"@,
                                    span: if p3 < toks.len() {
                                        span_of(toks[p3])
                                    } else {
                                        end_span
                                    },
                                },
                            )
                        } else {
                            Ok((EventV { name, params }, p3 + 1))
                        }
                    },
                }
            }
        }
    }
}

/// The exec position of the next top-level comma at or after `i`.
pub fn scan_comma_exec(toks: &Vec<Token>, i: usize) -> (r: usize)
    requires
        i <= toks@.len(),
    ensures
        r as int == scan_comma(toks.deep_view(), i as int),
        i <= r <= toks@.len(),
{
    let mut pos: usize = i;
    while pos < toks.len() && !tok_is_punct(&toks[pos], ',')
        invariant
            i <= pos <= toks@.len(),
            scan_comma(toks.deep_view(), i as int) == scan_comma(toks.deep_view(), pos as int),
        decreases toks@.len() - pos,
    {
        pos = pos + 1;
    }
    pos
}

/// Parses a parameter list from the contents of a parenthesis group.
pub fn parse_params(toks: &Vec<Token>, pos: usize, end_span: u32) -> (r: Result<
    Vec<Param>,
    SyntaxError,
>)
    requires
        pos <= toks@.len(),
    ensures
        match r {
            Ok(ps) => sp_params(toks.deep_view(), pos as int, end_span) == Ok::<_, SyntaxErrorV>(
                ps.deep_view(),
            ),
            Err(e) => sp_params(toks.deep_view(), pos as int, end_span) == Err::<Seq<ParamV>, _>(
                e.deep_view(),
            ),
        },
    decreases toks@.len() - pos,
{
    if pos >= toks.len() {
        let ps: Vec<Param> = Vec::new();
        proof {
            assert(ps.deep_view() =~= Seq::<ParamV>::empty());
        }
        return Ok(ps);
    }
    match &toks[pos] {
        Token::Ident { text, span } => {
            let p1 = pos + 1;
            if p1 < toks.len() && tok_is_punct(&toks[p1], ':') {
                let c = scan_comma_exec(toks, p1 + 1);
                if c == p1 + 1 {
                    let sp = if c < toks.len() {
                        crate::token::tok_span(&toks[c])
                    } else {
                        end_span
                    };
                    Err(SyntaxError::new("expected type", sp))
                } else {
                    let param = Param {
                        name: Name { text: text.clone(), span: *span },
                        ty: copy_range(toks, p1 + 1, c),
                    };
                    if c >= toks.len() {
                        let mut ps: Vec<Param> = Vec::new();
                        ps.push(param);
                        proof {
                            assert(ps.deep_view() =~= seq![param.deep_view()]);
                        }
                        Ok(ps)
                    } else {
                        match parse_params(toks, c + 1, end_span) {
                            Ok(rest) => {
                                let mut ps = rest;
                                ps.insert(0, param);
                                proof {
                                    assert(ps.deep_view() =~= seq![param.deep_view()]
                                        + rest.deep_view());
                                }
                                Ok(ps)
                            },
                            Err(e) => Err(e),
                        }
                    }
                }
            } else {
                let sp = if p1 < toks.len() {
                    crate::token::tok_span(&toks[p1])
                } else {
                    end_span
                };
                Err(SyntaxError::new("expected `:`", sp))
            }
        },
        _ => Err(SyntaxError::new("expected identifier", crate::token::tok_span(&toks[pos]))),
    }
}

impl Event {
    /// Parses one event declaration starting at `pos`; returns it and
    /// the position just past the semicolon.
    pub fn parse(toks: &Vec<Token>, pos: usize, end_span: u32) -> (r: Result<
        (Event, usize),
        SyntaxError,
    >)
        requires
            pos <= toks@.len(),
        ensures
            match r {
                Ok((ev, next)) => sp_event(toks.deep_view(), pos as int, end_span) == Ok::<
                    _,
                    SyntaxErrorV,
                >((ev.deep_view(), next as int)) && pos < next <= toks@.len(),
                Err(e) => sp_event(toks.deep_view(), pos as int, end_span) == Err::<
                    (EventV, int),
                    _,
                >(e.deep_view()),
            },
    {
        let kw: String = "event".to_owned();
        if !(pos < toks.len() && crate::token::tok_is_ident(&toks[pos], &kw)) {
            let sp = if pos < toks.len() {
                crate::token::tok_span(&toks[pos])
            } else {
                end_span
            };
            return Err(SyntaxError::new("expected `event`", sp));
        }
        let p1 = pos + 1;
        let name: Name;
        if p1 >= toks.len() {
            return Err(SyntaxError::new("expected identifier", end_span));
        }
        match &toks[p1] {
            Token::Ident { text, span } => {
                name = Name { text: text.clone(), span: *span };
            },
            _ => {
                return Err(
                    SyntaxError::new("expected identifier", crate::token::tok_span(&toks[p1])),
                );
            },
        }
        let p2 = p1 + 1;
        if p2 >= toks.len() {
            return Err(SyntaxError::new("expected parentheses", end_span));
        }
        match &toks[p2] {
            Token::Group { delim: Delim::Paren, tokens, span } => {
                let params = match parse_params(tokens, 0, *span) {
                    Ok(ps) => ps,
                    Err(e) => {
                        return Err(e);
                    },
                };
                let p3 = p2 + 1;
                if !(p3 < toks.len() && tok_is_punct(&toks[p3], ';')) {
                    let sp = if p3 < toks.len() {
                        crate::token::tok_span(&toks[p3])
                    } else {
                        end_span
                    };
                    return Err(SyntaxError::new("expected `;`", sp));
                }
                Ok((Event { name, params }, p3 + 1))
            },
            _ => Err(SyntaxError::new("expected parentheses", crate::token::tok_span(&toks[p2]))),
        }
    }
}

} // verus!
