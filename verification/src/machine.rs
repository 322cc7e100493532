//! The top of the grammar: `machine <name> { <block>* }`.
//!
//! A machine body holds four kinds of blocks, in any order: `event`
//! and `handler` declarations accumulate, while a later `states` or
//! `transitions` block replaces an earlier one. A machine without a
//! `states` block or without a `transitions` block is malformed.

use vstd::prelude::*;

use crate::error::SyntaxError;
use crate::error::SyntaxErrorV;
use crate::events::sp_event;
use crate::events::Event;
use crate::events::EventV;
use crate::handlers::sp_handler;
use crate::handlers::Handler;
use crate::handlers::HandlerV;
use crate::states::sp_states;
use crate::states::States;
use crate::states::StatesV;
use crate::token::is_ident;
use crate::token::span_of;
use crate::token::tok_is_ident;
use crate::token::tok_span;
use crate::token::Delim;
use crate::token::Name;
use crate::token::NameV;
use crate::token::TokV;
use crate::token::Token;
use crate::transitions::sp_transitions;
use crate::transitions::Transitions;
use crate::transitions::TransitionsV;

verus! {

broadcast use crate::token::lemma_deep_view_is_toks_view;

/// The parsed machine description: everything later stages consume.
#[derive(Debug)]
pub struct Machine {
    pub name: Name,
    pub events: Vec<Event>,
    pub handlers: Vec<Handler>,
    pub transitions: Transitions,
    pub states: States,
}

/// The mathematical shape of a machine description.
pub struct MachineV {
    pub name: NameV,
    pub events: Seq<EventV>,
    pub handlers: Seq<HandlerV>,
    pub transitions: TransitionsV,
    pub states: StatesV,
}

impl DeepView for Machine {
    type V = MachineV;

    open spec fn deep_view(&self) -> MachineV {
        MachineV {
            name: self.name.deep_view(),
            events: self.events.deep_view(),
            handlers: self.handlers.deep_view(),
            transitions: self.transitions.deep_view(),
            states: self.states.deep_view(),
        }
    }
}

/// What the block loop has gathered so far.
pub struct BlocksAccV {
    pub events: Seq<EventV>,
    pub handlers: Seq<HandlerV>,
    pub states: Option<StatesV>,
    pub transitions: Option<TransitionsV>,
}

/// A parsed event declaration ends after its starting position and
/// within the input.
pub proof fn lemma_sp_event_progress(toks: Seq<TokV>, pos: int, end_span: u32)
    ensures
        sp_event(toks, pos, end_span) matches Ok(p) ==> pos < p.1 <= toks.len(),
{
}

/// A parsed handler declaration ends after its starting position and
/// within the input.
pub proof fn lemma_sp_handler_progress(toks: Seq<TokV>, pos: int, end_span: u32)
    ensures
        sp_handler(toks, pos, end_span) matches Ok(p) ==> pos < p.1 <= toks.len(),
{
}

/// A parsed states block ends after its starting position and within
/// the input.
pub proof fn lemma_sp_states_progress(toks: Seq<TokV>, pos: int, end_span: u32)
    ensures
        sp_states(toks, pos, end_span) matches Ok(p) ==> pos < p.1 <= toks.len(),
{
}

/// A parsed transitions block ends after its starting position and
/// within the input.
pub proof fn lemma_sp_transitions_progress(toks: Seq<TokV>, pos: int, end_span: u32)
    ensures
        sp_transitions(toks, pos, end_span) matches Ok(p) ==> pos < p.1 <= toks.len(),
{
}

/// The block loop of a machine body: blocks of the four kinds in any
/// order until the input ends.
pub open spec fn sp_blocks(toks: Seq<TokV>, pos: int, end_span: u32, acc: BlocksAccV) -> Result<
    BlocksAccV,
    SyntaxErrorV,
>
    decreases toks.len() - pos,
{
    if pos >= toks.len() {
        Ok(acc)
    } else if is_ident(toks[pos], "event"@) {
        match sp_event(toks, pos, end_span) {
            Err(e) => Err(e),
            Ok((ev, next)) => {
                proof {
                    lemma_sp_event_progress(toks, pos, end_span);
                }
                sp_blocks(
                    toks,
                    next,
                    end_span,
                    BlocksAccV { events: acc.events.push(ev), ..acc },
                )
            },
        }
    } else if is_ident(toks[pos], "handler"@) {
        match sp_handler(toks, pos, end_span) {
            Err(e) => Err(e),
            Ok((h, next)) => {
                proof {
                    lemma_sp_handler_progress(toks, pos, end_span);
                }
                sp_blocks(
                    toks,
                    next,
                    end_span,
                    BlocksAccV { handlers: acc.handlers.push(h), ..acc },
                )
            },
        }
    } else if is_ident(toks[pos], "states"@) {
        match sp_states(toks, pos, end_span) {
            Err(e) => Err(e),
            Ok((st, next)) => {
                proof {
                    lemma_sp_states_progress(toks, pos, end_span);
                }
                sp_blocks(toks, next, end_span, BlocksAccV { states: Some(st), ..acc })
            },
        }
    } else if is_ident(toks[pos], "transitions"@) {
        match sp_transitions(toks, pos, end_span) {
            Err(e) => Err(e),
            Ok((tr, next)) => {
                proof {
                    lemma_sp_transitions_progress(toks, pos, end_span);
                }
                sp_blocks(toks, next, end_span, BlocksAccV { transitions: Some(tr), ..acc })
            },
        }
    } else {
        Err(
            SyntaxErrorV {
                message: "expected 'event', 'handler', 'states', or 'transition' keyword"@,
                span: span_of(toks[pos]),
            },
        )
    }
}

/// The machine grammar: the `machine` keyword, the machine's name,
/// and a braced body holding the blocks, of which `states` and
/// `transitions` must each occur. Returns the machine and the
/// position just past the body.
pub open spec fn sp_machine(toks: Seq<TokV>, pos: int, end_span: u32) -> Result<
    (MachineV, int),
    SyntaxErrorV,
> {
    if !(pos < toks.len() && is_ident(toks[pos], "machine"@)) {
        Err(
            SyntaxErrorV {
                message: "expected `machine`"@,
                span: if pos < toks.len() {
                    span_of(toks[pos])
                } else {
                    end_span
                },
            },
        )
    } else {
        let p1 = pos + 1;
        if !(p1 < toks.len() && toks[p1] is Ident) {
            Err(
                SyntaxErrorV {
                    message: "expected identifier"@,
                    span: if p1 < toks.len() {
                        span_of(toks[p1])
                    } else {
                        end_span
                    },
                },
            )
        } else {
            let name = NameV { text: toks[p1]->Ident_text, span: toks[p1]->Ident_span };
            let p2 = p1 + 1;
            if !(p2 < toks.len() && toks[p2] matches TokV::Group { delim: Delim::Brace, .. }) {
                Err(
                    SyntaxErrorV {
                        message: "expected curly braces"@,
                        span: if p2 < toks.len() {
                            span_of(toks[p2])
                        } else {
                            end_span
                        },
                    },
                )
            } else {
                let gspan = toks[p2]->Group_span;
                let acc0 = BlocksAccV {
                    events: Seq::empty(),
                    handlers: Seq::empty(),
                    states: None,
                    transitions: None,
                };
                match sp_blocks(toks[p2]->Group_tokens, 0, gspan, acc0) {
                    Err(e) => Err(e),
                    Ok(acc) => {
                        if acc.states is None {
                            Err(
                                SyntaxErrorV {
                                    message: "expected at least one 'states' block!"@,
                                    span: gspan,
                                },
                            )
                        } else if acc.transitions is None {
                            Err(
                                SyntaxErrorV {
                                    message: "expected at least one 'transitions' block!"@,
                                    span: gspan,
                                },
                            )
                        } else {
                            Ok(
                                (
                                    MachineV {
                                        name,
                                        events: acc.events,
                                        handlers: acc.handlers,
                                        transitions: acc.transitions->0,
                                        states: acc.states->0,
                                    },
                                    p2 + 1,
                                ),
                            )
                        }
                    },
                }
            }
        }
    }
}

/// The view of the exec block accumulator.
pub open spec fn acc_view(
    events: Vec<Event>,
    handlers: Vec<Handler>,
    states: Option<States>,
    transitions: Option<Transitions>,
) -> BlocksAccV {
    BlocksAccV {
        events: events.deep_view(),
        handlers: handlers.deep_view(),
        states: states.deep_view(),
        transitions: transitions.deep_view(),
    }
}

impl Machine {
    /// Parses a whole machine starting at `pos`; returns it and the
    /// position just past the body.
    #[verifier::loop_isolation(false)]
    pub fn parse(toks: &Vec<Token>, pos: usize, end_span: u32) -> (r: Result<
        (Machine, usize),
        SyntaxError,
    >)
        requires
            pos <= toks@.len(),
        ensures
            match r {
                Ok((m, next)) => sp_machine(toks.deep_view(), pos as int, end_span) == Ok::<
                    _,
                    SyntaxErrorV,
                >((m.deep_view(), next as int)) && pos < next <= toks@.len(),
                Err(e) => sp_machine(toks.deep_view(), pos as int, end_span) == Err::<
                    (MachineV, int),
                    _,
                >(e.deep_view()),
            },
    {
        let kw: String = "machine".to_owned();
        if !(pos < toks.len() && tok_is_ident(&toks[pos], &kw)) {
            let sp = if pos < toks.len() {
                tok_span(&toks[pos])
            } else {
                end_span
            };
            return Err(SyntaxError::new("expected `machine`", sp));
        }
        let p1 = pos + 1;
        if p1 >= toks.len() {
            return Err(SyntaxError::new("expected identifier", end_span));
        }
        let name: Name;
        match &toks[p1] {
            Token::Ident { text, span } => {
                name = Name { text: text.clone(), span: *span };
            },
            _ => {
                return Err(SyntaxError::new("expected identifier", tok_span(&toks[p1])));
            },
        }
        let p2 = p1 + 1;
        if p2 >= toks.len() {
            return Err(SyntaxError::new("expected curly braces", end_span));
        }
        match &toks[p2] {
            Token::Group { delim: Delim::Brace, tokens, span } => {
                let gspan = *span;
                let kw_event: String = "event".to_owned();
                let kw_handler: String = "handler".to_owned();
                let kw_states: String = "states".to_owned();
                let kw_transitions: String = "transitions".to_owned();
                let mut events: Vec<Event> = Vec::new();
                let mut handlers: Vec<Handler> = Vec::new();
                let mut states: Option<States> = None;
                let mut transitions: Option<Transitions> = None;
                let ghost acc0 = BlocksAccV {
                    events: Seq::empty(),
                    handlers: Seq::empty(),
                    states: None,
                    transitions: None,
                };
                proof {
                    assert(acc_view(events, handlers, states, transitions).events =~= acc0.events);
                    assert(acc_view(events, handlers, states, transitions).handlers
                        =~= acc0.handlers);
                }
                let mut p: usize = 0;
                while p < tokens.len()
                    invariant
                        p <= tokens@.len(),
                        sp_blocks(tokens.deep_view(), 0, gspan, acc0) == sp_blocks(
                            tokens.deep_view(),
                            p as int,
                            gspan,
                            acc_view(events, handlers, states, transitions),
                        ),
                        kw_event@ == "event"@,
                        kw_handler@ == "handler"@,
                        kw_states@ == "states"@,
                        kw_transitions@ == "transitions"@,
                    decreases tokens@.len() - p,
                {
                    let ghost accp = acc_view(events, handlers, states, transitions);
                    if tok_is_ident(&tokens[p], &kw_event) {
                        match Event::parse(tokens, p, gspan) {
                            Ok((ev, next)) => {
                                let ghost evv = ev.deep_view();
                                events.push(ev);
                                p = next;
                                proof {
                                    assert(events.deep_view() =~= accp.events.push(evv));
                                    assert(acc_view(events, handlers, states, transitions)
                                        == (BlocksAccV { events: accp.events.push(evv), ..accp }));
                                }
                            },
                            Err(e) => {
                                return Err(e);
                            },
                        }
                    } else if tok_is_ident(&tokens[p], &kw_handler) {
                        match Handler::parse(tokens, p, gspan) {
                            Ok((h, next)) => {
                                let ghost hv = h.deep_view();
                                handlers.push(h);
                                p = next;
                                proof {
                                    assert(handlers.deep_view() =~= accp.handlers.push(hv));
                                    assert(acc_view(events, handlers, states, transitions)
                                        == (BlocksAccV {
                                        handlers: accp.handlers.push(hv),
                                        ..accp
                                    }));
                                }
                            },
                            Err(e) => {
                                return Err(e);
                            },
                        }
                    } else if tok_is_ident(&tokens[p], &kw_states) {
                        match States::parse(tokens, p, gspan) {
                            Ok((st, next)) => {
                                states = Some(st);
                                p = next;
                            },
                            Err(e) => {
                                return Err(e);
                            },
                        }
                    } else if tok_is_ident(&tokens[p], &kw_transitions) {
                        match crate::transitions::parse_transitions(tokens, p, gspan) {
                            Ok((tr, next)) => {
                                transitions = Some(tr);
                                p = next;
                            },
                            Err(e) => {
                                return Err(e);
                            },
                        }
                    } else {
                        return Err(
                            SyntaxError::new(
                                "expected 'event', 'handler', 'states', or 'transition' keyword",
                                tok_span(&tokens[p]),
                            ),
                        );
                    }
                }
                let st = match states {
                    Some(st) => st,
                    None => {
                        return Err(
                            SyntaxError::new("expected at least one 'states' block!", gspan),
                        );
                    },
                };
                let tr = match transitions {
                    Some(tr) => tr,
                    None => {
                        return Err(
                            SyntaxError::new("expected at least one 'transitions' block!", gspan),
                        );
                    },
                };
                let m = Machine { name, events, handlers, transitions: tr, states: st };
                Ok((m, p2 + 1))
            },
            _ => Err(SyntaxError::new("expected curly braces", tok_span(&toks[p2]))),
        }
    }
}

} // verus!
