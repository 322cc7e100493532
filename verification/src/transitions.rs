//! The `transitions { ... }` block: the machine's transition table.
//!
//! Each rule reads
//! `<from-pattern> => To : event(args) [{ guard }] [-> handler] ;`.
//! Rules are grouped by event, then by from-state, in first-occurrence
//! order; within one (event, from-state) pair the declared order is
//! kept, because dispatch takes the first rule whose pattern matches
//! and whose guard holds.

use vstd::prelude::*;

use crate::error::SyntaxError;
use crate::error::SyntaxErrorV;
use crate::token::copy_token;
use crate::token::is_ident;
use crate::token::is_punct;
use crate::token::push_group;
use crate::token::push_name;
use crate::token::push_punct;
use crate::token::span_of;
use crate::token::tok_is_ident;
use crate::token::tok_is_punct;
use crate::token::tok_span;
use crate::token::Delim;
use crate::token::Name;
use crate::token::NameV;
use crate::token::TokV;
use crate::token::Token;

verus! {

broadcast use crate::token::lemma_deep_view_is_toks_view;

/// One element of a tuple pattern: a binder (`_` is an ordinary
/// identifier in the token model) or the `..` rest marker.
#[derive(Debug)]
pub enum TuplePatItem {
    Bind(Name),
    Rest { span: u32 },
}

/// The mathematical shape of a tuple-pattern element.
pub enum TuplePatItemV {
    Bind(NameV),
    Rest { span: u32 },
}

impl DeepView for TuplePatItem {
    type V = TuplePatItemV;

    open spec fn deep_view(&self) -> TuplePatItemV {
        match self {
            TuplePatItem::Bind(n) => TuplePatItemV::Bind(n.deep_view()),
            TuplePatItem::Rest { span } => TuplePatItemV::Rest { span: *span },
        }
    }
}

/// A from-state pattern: a struct pattern `Name { field, .. }`, a
/// tuple pattern `Name(a, ..)`, or a bare identifier for a unit
/// state. It both names the from-state and destructures its payload.
#[derive(Debug)]
pub enum StatePat {
    Struct { name: Name, fields: Vec<Name>, has_rest: bool },
    Tuple { name: Name, items: Vec<TuplePatItem> },
    Unit { name: Name },
}

/// The mathematical shape of a from-state pattern.
pub enum StatePatV {
    Struct { name: NameV, fields: Seq<NameV>, has_rest: bool },
    Tuple { name: NameV, items: Seq<TuplePatItemV> },
    Unit { name: NameV },
}

impl DeepView for StatePat {
    type V = StatePatV;

    open spec fn deep_view(&self) -> StatePatV {
        match self {
            StatePat::Struct { name, fields, has_rest } => StatePatV::Struct {
                name: name.deep_view(),
                fields: fields.deep_view(),
                has_rest: *has_rest,
            },
            StatePat::Tuple { name, items } => StatePatV::Tuple {
                name: name.deep_view(),
                items: items.deep_view(),
            },
            StatePat::Unit { name } => StatePatV::Unit { name: name.deep_view() },
        }
    }
}

/// The state name a pattern is about.
pub open spec fn sp_pat_ident(p: StatePatV) -> NameV {
    match p {
        StatePatV::Struct { name, .. } => name,
        StatePatV::Tuple { name, .. } => name,
        StatePatV::Unit { name } => name,
    }
}

impl StatePat {
    /// The state name this pattern is about. Every parsed pattern
    /// carries exactly one identifier, so this cannot fail.
    pub fn ident(&self) -> (r: &Name)
        ensures
            r.deep_view() == sp_pat_ident(self.deep_view()),
    {
        match self {
            StatePat::Struct { name, .. } => name,
            StatePat::Tuple { name, .. } => name,
            StatePat::Unit { name } => name,
        }
    }
}

/// The emitted payload part of a struct pattern: the bound fields,
/// comma separated, with `..` last when the pattern has a rest.
pub open spec fn sp_struct_pat_inner(fields: Seq<NameV>, has_rest: bool) -> Seq<TokV>
    decreases fields.len(),
{
    if fields.len() == 0 {
        if has_rest {
            seq![TokV::Punct { ch: '.', span: 0 }, TokV::Punct { ch: '.', span: 0 }]
        } else {
            Seq::empty()
        }
    } else if fields.len() == 1 && !has_rest {
        seq![TokV::Ident { text: fields[0].text, span: fields[0].span }]
    } else {
        seq![
            TokV::Ident { text: fields[0].text, span: fields[0].span },
            TokV::Punct { ch: ',', span: 0 },
        ] + sp_struct_pat_inner(fields.drop_first(), has_rest)
    }
}

/// The emitted payload part of a tuple pattern: its elements, comma
/// separated.
pub open spec fn sp_tuple_pat_inner(items: Seq<TuplePatItemV>) -> Seq<TokV>
    decreases items.len(),
{
    if items.len() == 0 {
        Seq::empty()
    } else {
        let head = match items[0] {
            TuplePatItemV::Bind(n) => seq![TokV::Ident { text: n.text, span: n.span }],
            TuplePatItemV::Rest { span } => seq![
                TokV::Punct { ch: '.', span },
                TokV::Punct { ch: '.', span },
            ],
        };
        if items.len() == 1 {
            head
        } else {
            head + seq![TokV::Punct { ch: ',', span: 0 }] + sp_tuple_pat_inner(
                items.drop_first(),
            )
        }
    }
}

/// What a pattern contributes to generated output, after the variant
/// name: a brace group for a struct pattern, a parenthesis group for
/// a tuple pattern, nothing for a unit pattern.
pub open spec fn sp_pat_tokens(p: StatePatV) -> Seq<TokV> {
    match p {
        StatePatV::Struct { fields, has_rest, .. } => seq![
            TokV::Group {
                delim: Delim::Brace,
                tokens: sp_struct_pat_inner(fields, has_rest),
                span: 0,
            },
        ],
        StatePatV::Tuple { items, .. } => seq![
            TokV::Group { delim: Delim::Paren, tokens: sp_tuple_pat_inner(items), span: 0 },
        ],
        StatePatV::Unit { .. } => Seq::empty(),
    }
}

impl StatePat {
    /// Appends this pattern's payload tokens to `tokens`.
    #[verifier::loop_isolation(false)]
    pub fn to_tokens(&self, tokens: &mut Vec<Token>)
        ensures
            final(tokens).deep_view() == old(tokens).deep_view() + sp_pat_tokens(
                self.deep_view(),
            ),
    {
        match self {
            StatePat::Struct { fields, has_rest, .. } => {
                let mut inner: Vec<Token> = Vec::new();
                let mut i: usize = 0;
                proof {
                    assert(fields.deep_view().skip(0) =~= fields.deep_view());
                    assert(inner.deep_view() =~= Seq::<TokV>::empty());
                    assert(inner.deep_view() + sp_struct_pat_inner(
                        fields.deep_view(),
                        *has_rest,
                    ) =~= sp_struct_pat_inner(fields.deep_view(), *has_rest));
                }
                while i < fields.len()
                    invariant
                        i <= fields@.len(),
                        sp_struct_pat_inner(fields.deep_view(), *has_rest) == inner.deep_view()
                            + sp_struct_pat_inner(
                            fields.deep_view().skip(i as int),
                            *has_rest,
                        ),
                    decreases fields@.len() - i,
                {
                    let ghost rest = fields.deep_view().skip(i as int);
                    push_name(&mut inner, &fields[i]);
                    if i + 1 < fields.len() || *has_rest {
                        push_punct(&mut inner, ',', 0);
                    }
                    i = i + 1;
                    proof {
                        assert(rest.drop_first() =~= fields.deep_view().skip(i as int));
                        assert(rest[0] == fields.deep_view()[i - 1]);
                    }
                }
                if *has_rest {
                    push_punct(&mut inner, '.', 0);
                    push_punct(&mut inner, '.', 0);
                }
                proof {
                    assert(fields.deep_view().skip(fields@.len() as int)
                        =~= Seq::<NameV>::empty());
                    assert(inner.deep_view() =~= sp_struct_pat_inner(
                        fields.deep_view(),
                        *has_rest,
                    ));
                }
                push_group(tokens, Delim::Brace, inner, 0);
            },
            StatePat::Tuple { items, .. } => {
                let mut inner: Vec<Token> = Vec::new();
                let mut i: usize = 0;
                proof {
                    assert(items.deep_view().skip(0) =~= items.deep_view());
                    assert(inner.deep_view() =~= Seq::<TokV>::empty());
                    assert(inner.deep_view() + sp_tuple_pat_inner(items.deep_view())
                        =~= sp_tuple_pat_inner(items.deep_view()));
                }
                while i < items.len()
                    invariant
                        i <= items@.len(),
                        sp_tuple_pat_inner(items.deep_view()) == inner.deep_view()
                            + sp_tuple_pat_inner(items.deep_view().skip(i as int)),
                    decreases items@.len() - i,
                {
                    let ghost rest = items.deep_view().skip(i as int);
                    match &items[i] {
                        TuplePatItem::Bind(n) => {
                            push_name(&mut inner, n);
                        },
                        TuplePatItem::Rest { span } => {
                            push_punct(&mut inner, '.', *span);
                            push_punct(&mut inner, '.', *span);
                        },
                    }
                    if i + 1 < items.len() {
                        push_punct(&mut inner, ',', 0);
                    }
                    i = i + 1;
                    proof {
                        assert(rest.drop_first() =~= items.deep_view().skip(i as int));
                        assert(rest[0] == items.deep_view()[i - 1]);
                    }
                }
                proof {
                    assert(items.deep_view().skip(items@.len() as int)
                        =~= Seq::<TuplePatItemV>::empty());
                    assert(inner.deep_view() =~= sp_tuple_pat_inner(items.deep_view()));
                }
                push_group(tokens, Delim::Paren, inner, 0);
            },
            StatePat::Unit { .. } => {
                proof {
                    assert(tokens.deep_view() =~= old(tokens).deep_view() + sp_pat_tokens(
                        self.deep_view(),
                    ));
                }
            },
        }
    }
}

/// The struct-pattern payload grammar, over the contents of a brace
/// group: bound field names separated by commas, with an optional
/// final `..` rest marker.
pub open spec fn sp_struct_pat_fields(toks: Seq<TokV>, pos: int) -> Result<
    (Seq<NameV>, bool),
    SyntaxErrorV,
>
    decreases toks.len() - pos,
{
    if pos >= toks.len() {
        Ok((Seq::empty(), false))
    } else if toks[pos] is Ident {
        let name = NameV { text: toks[pos]->Ident_text, span: toks[pos]->Ident_span };
        let p1 = pos + 1;
        if p1 >= toks.len() {
            Ok((seq![name], false))
        } else if is_punct(toks[p1], ',') {
            match sp_struct_pat_fields(toks, p1 + 1) {
                Ok((rest, has_rest)) => Ok((seq![name] + rest, has_rest)),
                Err(e) => Err(e),
            }
        } else {
            Err(
                SyntaxErrorV {
                    message: "expected struct pattern '{a, b: y, ..}'"@,
                    span: span_of(toks[p1]),
                },
            )
        }
    } else if is_punct(toks[pos], '.') && pos + 1 < toks.len() && is_punct(toks[pos + 1], '.')
        && pos + 2 >= toks.len() {
        Ok((Seq::empty(), true))
    } else {
        Err(
            SyntaxErrorV {
                message: "expected struct pattern '{a, b: y, ..}'"@,
                span: span_of(toks[pos]),
            },
        )
    }
}

/// The tuple-pattern payload grammar, over the contents of a
/// parenthesis group: binders and `..` markers separated by commas.
pub open spec fn sp_tuple_pat_items(toks: Seq<TokV>, pos: int) -> Result<
    Seq<TuplePatItemV>,
    SyntaxErrorV,
>
    decreases toks.len() - pos,
{
    if pos >= toks.len() {
        Ok(Seq::empty())
    } else {
        let item: Result<(TuplePatItemV, int), SyntaxErrorV> = if toks[pos] is Ident {
            Ok(
                (
                    TuplePatItemV::Bind(
                        NameV { text: toks[pos]->Ident_text, span: toks[pos]->Ident_span },
                    ),
                    pos + 1,
                ),
            )
        } else if is_punct(toks[pos], '.') && pos + 1 < toks.len() && is_punct(
            toks[pos + 1],
            '.',
        ) {
            Ok((TuplePatItemV::Rest { span: span_of(toks[pos]) }, pos + 2))
        } else {
            Err(
                SyntaxErrorV {
                    message: "expected tuple pattern '(a, _, ..)'"@,
                    span: span_of(toks[pos]),
                },
            )
        };
        match item {
            Err(e) => Err(e),
            Ok((it, p1)) => {
                if p1 >= toks.len() {
                    Ok(seq![it])
                } else if is_punct(toks[p1], ',') {
                    match sp_tuple_pat_items(toks, p1 + 1) {
                        Ok(rest) => Ok(seq![it] + rest),
                        Err(e) => Err(e),
                    }
                } else {
                    Err(
                        SyntaxErrorV {
                            message: "expected tuple pattern '(a, _, ..)'"@,
                            span: span_of(toks[p1]),
                        },
                    )
                }
            },
        }
    }
}

/// The from-pattern grammar: an identifier, optionally followed by a
/// brace group (struct pattern) or a parenthesis group (tuple
/// pattern).
pub open spec fn sp_state_pat(toks: Seq<TokV>, pos: int, end_span: u32) -> Result<
    (StatePatV, int),
    SyntaxErrorV,
> {
    if !(pos < toks.len() && toks[pos] is Ident) {
        Err(
            SyntaxErrorV {
                message: "expected identifier"@,
                span: if pos < toks.len() {
                    span_of(toks[pos])
                } else {
                    end_span
                },
            },
        )
    } else {
        let name = NameV { text: toks[pos]->Ident_text, span: toks[pos]->Ident_span };
        let p1 = pos + 1;
        if p1 < toks.len() && toks[p1] matches TokV::Group { delim: Delim::Brace, .. } {
            match sp_struct_pat_fields(toks[p1]->Group_tokens, 0) {
                Ok((fields, has_rest)) => Ok(
                    (StatePatV::Struct { name, fields, has_rest }, p1 + 1),
                ),
                Err(e) => Err(e),
            }
        } else if p1 < toks.len() && toks[p1] matches TokV::Group { delim: Delim::Paren, .. } {
            match sp_tuple_pat_items(toks[p1]->Group_tokens, 0) {
                Ok(items) => Ok((StatePatV::Tuple { name, items }, p1 + 1)),
                Err(e) => Err(e),
            }
        } else {
            Ok((StatePatV::Unit { name }, pos + 1))
        }
    }
}

/// Parses the payload of a struct pattern from the contents of its
/// brace group.
pub fn parse_struct_pat_fields(toks: &Vec<Token>, pos: usize) -> (r: Result<
    (Vec<Name>, bool),
    SyntaxError,
>)
    requires
        pos <= toks@.len(),
    ensures
        match r {
            Ok((fields, has_rest)) => sp_struct_pat_fields(toks.deep_view(), pos as int)
                == Ok::<_, SyntaxErrorV>((fields.deep_view(), has_rest)),
            Err(e) => sp_struct_pat_fields(toks.deep_view(), pos as int) == Err::<
                (Seq<NameV>, bool),
                _,
            >(e.deep_view()),
        },
    decreases toks@.len() - pos,
{
    if pos >= toks.len() {
        let fields: Vec<Name> = Vec::new();
        proof {
            assert(fields.deep_view() =~= Seq::<NameV>::empty());
        }
        return Ok((fields, false));
    }
    match &toks[pos] {
        Token::Ident { text, span } => {
            let name = Name { text: text.clone(), span: *span };
            let p1 = pos + 1;
            if p1 >= toks.len() {
                let mut fields: Vec<Name> = Vec::new();
                fields.push(name);
                proof {
                    assert(fields.deep_view() =~= seq![fields@[0].deep_view()]);
                }
                Ok((fields, false))
            } else if tok_is_punct(&toks[p1], ',') {
                match parse_struct_pat_fields(toks, p1 + 1) {
                    Ok((rest, has_rest)) => {
                        let mut fields = rest;
                        fields.insert(0, name);
                        proof {
                            assert(fields.deep_view() =~= seq![fields@[0].deep_view()]
                                + rest.deep_view());
                        }
                        Ok((fields, has_rest))
                    },
                    Err(e) => Err(e),
                }
            } else {
                Err(
                    SyntaxError::new(
                        "expected struct pattern '{a, b: y, ..}'",
                        tok_span(&toks[p1]),
                    ),
                )
            }
        },
        _ => {
            if tok_is_punct(&toks[pos], '.') && pos + 1 < toks.len() && tok_is_punct(
                &toks[pos + 1],
                '.',
            ) && pos + 2 >= toks.len() {
                let fields: Vec<Name> = Vec::new();
                proof {
                    assert(fields.deep_view() =~= Seq::<NameV>::empty());
                }
                Ok((fields, true))
            } else {
                Err(
                    SyntaxError::new(
                        "expected struct pattern '{a, b: y, ..}'",
                        tok_span(&toks[pos]),
                    ),
                )
            }
        },
    }
}

/// Parses the payload of a tuple pattern from the contents of its
/// parenthesis group.
pub fn parse_tuple_pat_items(toks: &Vec<Token>, pos: usize) -> (r: Result<
    Vec<TuplePatItem>,
    SyntaxError,
>)
    requires
        pos <= toks@.len(),
    ensures
        match r {
            Ok(items) => sp_tuple_pat_items(toks.deep_view(), pos as int) == Ok::<
                _,
                SyntaxErrorV,
            >(items.deep_view()),
            Err(e) => sp_tuple_pat_items(toks.deep_view(), pos as int) == Err::<
                Seq<TuplePatItemV>,
                _,
            >(e.deep_view()),
        },
    decreases toks@.len() - pos,
{
    if pos >= toks.len() {
        let items: Vec<TuplePatItem> = Vec::new();
        proof {
            assert(items.deep_view() =~= Seq::<TuplePatItemV>::empty());
        }
        return Ok(items);
    }
    let item: TuplePatItem;
    let p1: usize;
    match &toks[pos] {
        Token::Ident { text, span } => {
            item = TuplePatItem::Bind(Name { text: text.clone(), span: *span });
            p1 = pos + 1;
        },
        _ => {
            if tok_is_punct(&toks[pos], '.') && pos + 1 < toks.len() && tok_is_punct(
                &toks[pos + 1],
                '.',
            ) {
                item = TuplePatItem::Rest { span: tok_span(&toks[pos]) };
                p1 = pos + 2;
            } else {
                return Err(
                    SyntaxError::new("expected tuple pattern '(a, _, ..)'", tok_span(&toks[pos])),
                );
            }
        },
    }
    if p1 >= toks.len() {
        let mut items: Vec<TuplePatItem> = Vec::new();
        items.push(item);
        proof {
            assert(items.deep_view() =~= seq![items@[0].deep_view()]);
        }
        Ok(items)
    } else if tok_is_punct(&toks[p1], ',') {
        match parse_tuple_pat_items(toks, p1 + 1) {
            Ok(rest) => {
                let mut items2 = rest;
                items2.insert(0, item);
                proof {
                    assert(items2.deep_view() =~= seq![item.deep_view()] + rest.deep_view());
                }
                Ok(items2)
            },
            Err(e) => Err(e),
        }
    } else {
        Err(SyntaxError::new("expected tuple pattern '(a, _, ..)'", tok_span(&toks[p1])))
    }
}

impl StatePat {
    /// Parses one from-pattern starting at `pos`; returns it and the
    /// position just past it.
    pub fn parse(toks: &Vec<Token>, pos: usize, end_span: u32) -> (r: Result<
        (StatePat, usize),
        SyntaxError,
    >)
        requires
            pos <= toks@.len(),
        ensures
            match r {
                Ok((p, next)) => sp_state_pat(toks.deep_view(), pos as int, end_span) == Ok::<
                    _,
                    SyntaxErrorV,
                >((p.deep_view(), next as int)) && pos < next <= toks@.len(),
                Err(e) => sp_state_pat(toks.deep_view(), pos as int, end_span) == Err::<
                    (StatePatV, int),
                    _,
                >(e.deep_view()),
            },
    {
        if pos >= toks.len() {
            return Err(SyntaxError::new("expected identifier", end_span));
        }
        let name: Name;
        match &toks[pos] {
            Token::Ident { text, span } => {
                name = Name { text: text.clone(), span: *span };
            },
            _ => {
                return Err(SyntaxError::new("expected identifier", tok_span(&toks[pos])));
            },
        }
        let p1 = pos + 1;
        if p1 < toks.len() {
            match &toks[p1] {
                Token::Group { delim: Delim::Brace, tokens, .. } => {
                    return match parse_struct_pat_fields(tokens, 0) {
                        Ok((fields, has_rest)) => Ok(
                            (StatePat::Struct { name, fields, has_rest }, p1 + 1),
                        ),
                        Err(e) => Err(e),
                    };
                },
                Token::Group { delim: Delim::Paren, tokens, .. } => {
                    return match parse_tuple_pat_items(tokens, 0) {
                        Ok(items) => Ok((StatePat::Tuple { name, items }, p1 + 1)),
                        Err(e) => Err(e),
                    };
                },
                _ => {},
            }
        }
        Ok((StatePat::Unit { name }, pos + 1))
    }
}

/// One transition rule: the from-pattern, the destination state, the
/// names that rebind the event's parameters, an optional guard block
/// (kept opaque), and an optional handler to invoke.
#[derive(Debug)]
pub struct Transition {
    pub from_pat: StatePat,
    pub to_ident: Name,
    pub event_params: Vec<Name>,
    pub predicate: Option<Token>,
    pub handler: Option<Name>,
}

/// The mathematical shape of a transition rule.
pub struct TransitionV {
    pub from_pat: StatePatV,
    pub to_ident: NameV,
    pub event_params: Seq<NameV>,
    pub predicate: Option<TokV>,
    pub handler: Option<NameV>,
}

impl DeepView for Transition {
    type V = TransitionV;

    open spec fn deep_view(&self) -> TransitionV {
        TransitionV {
            from_pat: self.from_pat.deep_view(),
            to_ident: self.to_ident.deep_view(),
            event_params: self.event_params.deep_view(),
            predicate: self.predicate.deep_view(),
            handler: self.handler.deep_view(),
        }
    }
}

/// The rules declared for one from-state, in declaration order.
#[derive(Debug)]
pub struct FromRow {
    pub from: Name,
    pub list: Vec<Transition>,
}

/// The mathematical shape of a from-state row.
pub struct FromRowV {
    pub from: NameV,
    pub list: Seq<TransitionV>,
}

impl DeepView for FromRow {
    type V = FromRowV;

    open spec fn deep_view(&self) -> FromRowV {
        FromRowV { from: self.from.deep_view(), list: self.list.deep_view() }
    }
}

/// The from-state rows declared for one event, in first-occurrence
/// order.
#[derive(Debug)]
pub struct EventRow {
    pub event: Name,
    pub froms: Vec<FromRow>,
}

/// The mathematical shape of an event row.
pub struct EventRowV {
    pub event: NameV,
    pub froms: Seq<FromRowV>,
}

impl DeepView for EventRow {
    type V = EventRowV;

    open spec fn deep_view(&self) -> EventRowV {
        EventRowV { event: self.event.deep_view(), froms: self.froms.deep_view() }
    }
}

/// The whole transition table: event rows in first-occurrence order.
#[derive(Debug)]
pub struct Transitions {
    pub rows: Vec<EventRow>,
}

/// The mathematical shape of the transition table.
pub struct TransitionsV {
    pub rows: Seq<EventRowV>,
}

impl DeepView for Transitions {
    type V = TransitionsV;

    open spec fn deep_view(&self) -> TransitionsV {
        TransitionsV { rows: self.rows.deep_view() }
    }
}

/// The index of the first row for an event of that spelling, or -1.
pub open spec fn find_event(rows: Seq<EventRowV>, text: Seq<char>) -> int
    decreases rows.len(),
{
    if rows.len() == 0 {
        -1
    } else if rows[0].event.text == text {
        0
    } else {
        let r = find_event(rows.drop_first(), text);
        if r < 0 {
            -1
        } else {
            r + 1
        }
    }
}

/// The index of the first row for a from-state of that spelling, or
/// -1.
pub open spec fn find_from(froms: Seq<FromRowV>, text: Seq<char>) -> int
    decreases froms.len(),
{
    if froms.len() == 0 {
        -1
    } else if froms[0].from.text == text {
        0
    } else {
        let r = find_from(froms.drop_first(), text);
        if r < 0 {
            -1
        } else {
            r + 1
        }
    }
}

/// What `find_event` returns when the first `i` rows do not match
/// and row `i` does (or `i` is the end).
pub proof fn lemma_find_event_at(rows: Seq<EventRowV>, text: Seq<char>, i: int)
    requires
        0 <= i <= rows.len(),
        forall|k: int| 0 <= k < i ==> rows[k].event.text != text,
        i < rows.len() ==> rows[i].event.text == text,
    ensures
        find_event(rows, text) == if i == rows.len() {
            -1int
        } else {
            i
        },
    decreases i,
{
    if i > 0 {
        assert(forall|k: int|
            0 <= k < i - 1 ==> rows.drop_first()[k].event.text != text) by {
            assert(forall|k: int| 0 <= k < i - 1 ==> rows.drop_first()[k] == rows[k + 1]);
        }
        lemma_find_event_at(rows.drop_first(), text, i - 1);
    }
}

/// What `find_from` returns when the first `i` rows do not match and
/// row `i` does (or `i` is the end).
pub proof fn lemma_find_from_at(froms: Seq<FromRowV>, text: Seq<char>, i: int)
    requires
        0 <= i <= froms.len(),
        forall|k: int| 0 <= k < i ==> froms[k].from.text != text,
        i < froms.len() ==> froms[i].from.text == text,
    ensures
        find_from(froms, text) == if i == froms.len() {
            -1int
        } else {
            i
        },
    decreases i,
{
    if i > 0 {
        assert(forall|k: int|
            0 <= k < i - 1 ==> froms.drop_first()[k].from.text != text) by {
            assert(forall|k: int| 0 <= k < i - 1 ==> froms.drop_first()[k] == froms[k + 1]);
        }
        lemma_find_from_at(froms.drop_first(), text, i - 1);
    }
}

/// Appends one parsed rule to the table: a new event row at the end
/// for a first-seen event, a new from-state row at the end of its
/// event for a first-seen from-state, and otherwise the end of the
/// existing list, so that declaration order is kept everywhere.
pub open spec fn sp_insert(
    table: TransitionsV,
    event: NameV,
    from: NameV,
    t: TransitionV,
) -> TransitionsV {
    let i = find_event(table.rows, event.text);
    if i < 0 {
        TransitionsV {
            rows: table.rows.push(
                EventRowV { event, froms: seq![FromRowV { from, list: seq![t] }] },
            ),
        }
    } else {
        let row = table.rows[i];
        let j = find_from(row.froms, from.text);
        if j < 0 {
            TransitionsV {
                rows: table.rows.update(
                    i,
                    EventRowV {
                        event: row.event,
                        froms: row.froms.push(FromRowV { from, list: seq![t] }),
                    },
                ),
            }
        } else {
            TransitionsV {
                rows: table.rows.update(
                    i,
                    EventRowV {
                        event: row.event,
                        froms: row.froms.update(
                            j,
                            FromRowV {
                                from: row.froms[j].from,
                                list: row.froms[j].list.push(t),
                            },
                        ),
                    },
                ),
            }
        }
    }
}

/// The exec index of the first matching event row, or the row count.
#[verifier::loop_isolation(false)]
pub fn find_event_row(rows: &Vec<EventRow>, text: &String) -> (r: usize)
    ensures
        r <= rows@.len(),
        find_event(rows.deep_view(), text@) < rows@.len(),
        ({
            let f = find_event(rows.deep_view(), text@);
            r as int == if f < 0 {
                rows@.len() as int
            } else {
                f
            }
        }),
{
    let mut i: usize = 0;
    while i < rows.len()
        invariant
            i <= rows@.len(),
            forall|k: int| 0 <= k < i as int ==> rows.deep_view()[k].event.text != text@,
        decreases rows@.len() - i,
    {
        if crate::token::str_eq(&rows[i].event.text, text) {
            proof {
                lemma_find_event_at(rows.deep_view(), text@, i as int);
            }
            return i;
        }
        i = i + 1;
    }
    proof {
        lemma_find_event_at(rows.deep_view(), text@, rows@.len() as int);
    }
    i
}

/// The exec index of the first matching from-state row, or the row
/// count.
#[verifier::loop_isolation(false)]
pub fn find_from_row(froms: &Vec<FromRow>, text: &String) -> (r: usize)
    ensures
        r <= froms@.len(),
        find_from(froms.deep_view(), text@) < froms@.len(),
        ({
            let f = find_from(froms.deep_view(), text@);
            r as int == if f < 0 {
                froms@.len() as int
            } else {
                f
            }
        }),
{
    let mut i: usize = 0;
    while i < froms.len()
        invariant
            i <= froms@.len(),
            forall|k: int| 0 <= k < i as int ==> froms.deep_view()[k].from.text != text@,
        decreases froms@.len() - i,
    {
        if crate::token::str_eq(&froms[i].from.text, text) {
            proof {
                lemma_find_from_at(froms.deep_view(), text@, i as int);
            }
            return i;
        }
        i = i + 1;
    }
    proof {
        lemma_find_from_at(froms.deep_view(), text@, froms@.len() as int);
    }
    i
}

impl Transitions {
    /// Appends one parsed rule to the table, keeping declaration
    /// order.
    pub fn insert(&mut self, event: Name, from: Name, t: Transition)
        ensures
            final(self).deep_view() == sp_insert(
                old(self).deep_view(),
                event.deep_view(),
                from.deep_view(),
                t.deep_view(),
            ),
    {
        let ghost rows0 = self.rows.deep_view();
        let ghost goal = sp_insert(
            old(self).deep_view(),
            event.deep_view(),
            from.deep_view(),
            t.deep_view(),
        );
        let idx = find_event_row(&self.rows, &event.text);
        if idx == self.rows.len() {
            let mut list: Vec<Transition> = Vec::new();
            list.push(t);
            let mut froms: Vec<FromRow> = Vec::new();
            let ghost listv = list.deep_view();
            froms.push(FromRow { from, list });
            let ghost fromsv = froms.deep_view();
            self.rows.push(EventRow { event, froms });
            proof {
                assert(listv =~= seq![t.deep_view()]);
                assert(fromsv =~= seq![
                    FromRowV { from: from.deep_view(), list: seq![t.deep_view()] },
                ]);
                assert(self.rows.deep_view() =~~= goal.rows);
                assert(self.deep_view() == goal);
            }
        } else {
            let mut row = self.rows.remove(idx);
            let ghost row0 = row.deep_view();
            proof {
                assert(row0 == rows0[idx as int]);
            }
            let j = find_from_row(&row.froms, &from.text);
            if j == row.froms.len() {
                let mut list: Vec<Transition> = Vec::new();
                list.push(t);
                let ghost listv = list.deep_view();
                row.froms.push(FromRow { from, list });
                proof {
                    assert(listv =~= seq![t.deep_view()]);
                    assert(row.froms.deep_view() =~~= row0.froms.push(
                        FromRowV { from: from.deep_view(), list: seq![t.deep_view()] },
                    ));
                }
            } else {
                let mut fr = row.froms.remove(j);
                let ghost fr0 = fr.deep_view();
                proof {
                    assert(fr0 == row0.froms[j as int]);
                }
                fr.list.push(t);
                proof {
                    assert(fr.list.deep_view() =~= fr0.list.push(t.deep_view()));
                }
                row.froms.insert(j, fr);
                proof {
                    assert(row.froms.deep_view() =~~= row0.froms.update(
                        j as int,
                        FromRowV {
                            from: row0.froms[j as int].from,
                            list: row0.froms[j as int].list.push(t.deep_view()),
                        },
                    ));
                }
            }
            self.rows.insert(idx, row);
            proof {
                assert(self.rows.deep_view() =~~= goal.rows);
                assert(self.deep_view() == goal);
            }
        }
    }
}

/// The event-argument rename list, over the contents of a
/// parenthesis group: identifiers separated by commas, a trailing
/// comma allowed.
pub open spec fn sp_ident_list(toks: Seq<TokV>, pos: int) -> Result<Seq<NameV>, SyntaxErrorV>
    decreases toks.len() - pos,
{
    if pos >= toks.len() {
        Ok(Seq::empty())
    } else if toks[pos] is Ident {
        let name = NameV { text: toks[pos]->Ident_text, span: toks[pos]->Ident_span };
        let p1 = pos + 1;
        if p1 >= toks.len() {
            Ok(seq![name])
        } else if is_punct(toks[p1], ',') {
            match sp_ident_list(toks, p1 + 1) {
                Ok(rest) => Ok(seq![name] + rest),
                Err(e) => Err(e),
            }
        } else {
            Err(SyntaxErrorV { message: "expected `,`"@, span: span_of(toks[p1]) })
        }
    } else {
        Err(SyntaxErrorV { message: "expected identifier"@, span: span_of(toks[pos]) })
    }
}

/// Parses the event-argument rename list from the contents of its
/// parenthesis group.
pub fn parse_ident_list(toks: &Vec<Token>, pos: usize) -> (r: Result<Vec<Name>, SyntaxError>)
    requires
        pos <= toks@.len(),
    ensures
        match r {
            Ok(ns) => sp_ident_list(toks.deep_view(), pos as int) == Ok::<_, SyntaxErrorV>(
                ns.deep_view(),
            ),
            Err(e) => sp_ident_list(toks.deep_view(), pos as int) == Err::<Seq<NameV>, _>(
                e.deep_view(),
            ),
        },
    decreases toks@.len() - pos,
{
    if pos >= toks.len() {
        let ns: Vec<Name> = Vec::new();
        proof {
            assert(ns.deep_view() =~= Seq::<NameV>::empty());
        }
        return Ok(ns);
    }
    match &toks[pos] {
        Token::Ident { text, span } => {
            let name = Name { text: text.clone(), span: *span };
            let p1 = pos + 1;
            if p1 >= toks.len() {
                let mut ns: Vec<Name> = Vec::new();
                ns.push(name);
                proof {
                    assert(ns.deep_view() =~= seq![ns@[0].deep_view()]);
                }
                Ok(ns)
            } else if tok_is_punct(&toks[p1], ',') {
                match parse_ident_list(toks, p1 + 1) {
                    Ok(rest) => {
                        let mut ns = rest;
                        ns.insert(0, name);
                        proof {
                            assert(ns.deep_view() =~= seq![ns@[0].deep_view()]
                                + rest.deep_view());
                        }
                        Ok(ns)
                    },
                    Err(e) => Err(e),
                }
            } else {
                Err(SyntaxError::new("expected `,`", tok_span(&toks[p1])))
            }
        },
        _ => Err(SyntaxError::new("expected identifier", tok_span(&toks[pos]))),
    }
}

/// The trailing handler reference of a rule: `-> name ;`.
pub open spec fn sp_handler_ref(toks: Seq<TokV>, pos: int, end_span: u32) -> Result<
    (NameV, int),
    SyntaxErrorV,
> {
    if !(pos < toks.len() && is_punct(toks[pos], '-') && pos + 1 < toks.len() && is_punct(
        toks[pos + 1],
        '>',
    )) {
        Err(
            SyntaxErrorV {
                message: "expected `->`"@,
                span: if pos < toks.len() {
                    span_of(toks[pos])
                } else {
                    end_span
                },
            },
        )
    } else {
        let p2 = pos + 2;
        if !(p2 < toks.len() && toks[p2] is Ident) {
            Err(
                SyntaxErrorV {
                    message: "expected identifier"@,
                    span: if p2 < toks.len() {
                        span_of(toks[p2])
                    } else {
                        end_span
                    },
                },
            )
        } else {
            let name = NameV { text: toks[p2]->Ident_text, span: toks[p2]->Ident_span };
            let p3 = p2 + 1;
            if !(p3 < toks.len() && is_punct(toks[p3], ';')) {
                Err(
                    SyntaxErrorV {
                        message: "expected `;`"@,
                        span: if p3 < toks.len() {
                            span_of(toks[p3])
                        } else {
                            end_span
                        },
                    },
                )
            } else {
                Ok((name, p3 + 1))
            }
        }
    }
}

/// One whole rule of the transitions block: returns the event name,
/// the from-state name, the transition, and the position just past
/// the closing semicolon.
pub open spec fn sp_rule(toks: Seq<TokV>, pos: int, end_span: u32) -> Result<
    ((NameV, NameV, TransitionV), int),
    SyntaxErrorV,
> {
    match sp_state_pat(toks, pos, end_span) {
        Err(e) => Err(e),
        Ok((pat, q0)) => {
            let from = sp_pat_ident(pat);
            if !(q0 < toks.len() && is_punct(toks[q0], '=') && q0 + 1 < toks.len() && is_punct(
                toks[q0 + 1],
                '>',
            )) {
                Err(
                    SyntaxErrorV {
                        message: "expected `=>`"@,
                        span: if q0 < toks.len() {
                            span_of(toks[q0])
                        } else {
                            end_span
                        },
                    },
                )
            } else {
                let q1 = q0 + 2;
                if !(q1 < toks.len() && toks[q1] is Ident) {
                    Err(
                        SyntaxErrorV {
                            message: "expected identifier"@,
                            span: if q1 < toks.len() {
                                span_of(toks[q1])
                            } else {
                                end_span
                            },
                        },
                    )
                } else {
                    let to_ident = NameV {
                        text: toks[q1]->Ident_text,
                        span: toks[q1]->Ident_span,
                    };
                    let q2 = q1 + 1;
                    if !(q2 < toks.len() && is_punct(toks[q2], ':')) {
                        Err(
                            SyntaxErrorV {
                                message: "expected `:`"@,
                                span: if q2 < toks.len() {
                                    span_of(toks[q2])
                                } else {
                                    end_span
                                },
                            },
                        )
                    } else {
                        let q3 = q2 + 1;
                        if !(q3 < toks.len() && toks[q3] is Ident) {
                            Err(
                                SyntaxErrorV {
                                    message: "expected identifier"@,
                                    span: if q3 < toks.len() {
                                        span_of(toks[q3])
                                    } else {
                                        end_span
                                    },
                                },
                            )
                        } else {
                            let event = NameV {
                                text: toks[q3]->Ident_text,
                                span: toks[q3]->Ident_span,
                            };
                            let q4 = q3 + 1;
                            if !(q4 < toks.len() && toks[q4] matches TokV::Group {
                                delim: Delim::Paren,
                                ..
                            }) {
                                Err(
                                    SyntaxErrorV {
                                        message: "expected parentheses"@,
                                        span: if q4 < toks.len() {
                                            span_of(toks[q4])
                                        } else {
                                            end_span
                                        },
                                    },
                                )
                            } else {
                                match sp_ident_list(toks[q4]->Group_tokens, 0) {
                                    Err(e) => Err(e),
                                    Ok(event_params) => sp_rule_tail(
                                        toks,
                                        q4 + 1,
                                        end_span,
                                        event,
                                        from,
                                        pat,
                                        to_ident,
                                        event_params,
                                    ),
                                }
                            }
                        }
                    }
                }
            }
        },
    }
}

/// The tail of a rule after the event-argument list: an optional
/// guard block, an optional `-> handler`, and the closing semicolon.
pub open spec fn sp_rule_tail(
    toks: Seq<TokV>,
    pos: int,
    end_span: u32,
    event: NameV,
    from: NameV,
    pat: StatePatV,
    to_ident: NameV,
    event_params: Seq<NameV>,
) -> Result<((NameV, NameV, TransitionV), int), SyntaxErrorV> {
    if pos >= toks.len() {
        Err(SyntaxErrorV { message: "expected `;`"@, span: end_span })
    } else if is_punct(toks[pos], ';') {
        Ok(
            (
                (
                    event,
                    from,
                    TransitionV {
                        from_pat: pat,
                        to_ident,
                        event_params,
                        predicate: None,
                        handler: None,
                    },
                ),
                pos + 1,
            ),
        )
    } else if is_punct(toks[pos], '-') {
        match sp_handler_ref(toks, pos, end_span) {
            Err(e) => Err(e),
            Ok((h, next)) => Ok(
                (
                    (
                        event,
                        from,
                        TransitionV {
                            from_pat: pat,
                            to_ident,
                            event_params,
                            predicate: None,
                            handler: Some(h),
                        },
                    ),
                    next,
                ),
            ),
        }
    } else if toks[pos] matches TokV::Group { delim: Delim::Brace, .. } {
        let pred = Some(toks[pos]);
        let q = pos + 1;
        if q >= toks.len() {
            Err(SyntaxErrorV { message: "expected `;`"@, span: end_span })
        } else if is_punct(toks[q], ';') {
            Ok(
                (
                    (
                        event,
                        from,
                        TransitionV {
                            from_pat: pat,
                            to_ident,
                            event_params,
                            predicate: pred,
                            handler: None,
                        },
                    ),
                    q + 1,
                ),
            )
        } else if is_punct(toks[q], '-') {
            match sp_handler_ref(toks, q, end_span) {
                Err(e) => Err(e),
                Ok((h, next)) => Ok(
                    (
                        (
                            event,
                            from,
                            TransitionV {
                                from_pat: pat,
                                to_ident,
                                event_params,
                                predicate: pred,
                                handler: Some(h),
                            },
                        ),
                        next,
                    ),
                ),
            }
        } else {
            Err(SyntaxErrorV { message: "expected `;`"@, span: span_of(toks[q]) })
        }
    } else {
        Err(SyntaxErrorV { message: "expected curly braces"@, span: span_of(toks[pos]) })
    }
}

/// A parsed pattern ends after its starting position and within the
/// input.
pub proof fn lemma_sp_state_pat_progress(toks: Seq<TokV>, pos: int, end_span: u32)
    ensures
        sp_state_pat(toks, pos, end_span) matches Ok(p) ==> pos < p.1 <= toks.len(),
{
}

/// A parsed rule ends after its starting position and within the
/// input.
pub proof fn lemma_sp_rule_progress(toks: Seq<TokV>, pos: int, end_span: u32)
    ensures
        sp_rule(toks, pos, end_span) matches Ok(p) ==> pos < p.1 <= toks.len(),
{
    lemma_sp_state_pat_progress(toks, pos, end_span);
}

/// The rule list of the transitions block, folded into the table in
/// declaration order.
pub open spec fn sp_rules(toks: Seq<TokV>, pos: int, end_span: u32, acc: TransitionsV) -> Result<
    TransitionsV,
    SyntaxErrorV,
>
    decreases toks.len() - pos,
{
    if pos >= toks.len() {
        Ok(acc)
    } else {
        match sp_rule(toks, pos, end_span) {
            Err(e) => Err(e),
            Ok(((event, from, t), next)) => {
                proof {
                    lemma_sp_rule_progress(toks, pos, end_span);
                }
                sp_rules(toks, next, end_span, sp_insert(acc, event, from, t))
            },
        }
    }
}

/// The transitions-block grammar: the `transitions` keyword and a
/// braced rule list.
pub open spec fn sp_transitions(toks: Seq<TokV>, pos: int, end_span: u32) -> Result<
    (TransitionsV, int),
    SyntaxErrorV,
> {
    if !(pos < toks.len() && is_ident(toks[pos], "transitions"@)) {
        Err(
            SyntaxErrorV {
                message: "expected `transitions`"@,
                span: if pos < toks.len() {
                    span_of(toks[pos])
                } else {
                    end_span
                },
            },
        )
    } else {
        let p1 = pos + 1;
        if !(p1 < toks.len() && toks[p1] matches TokV::Group { delim: Delim::Brace, .. }) {
            Err(
                SyntaxErrorV {
                    message: "expected curly braces"@,
                    span: if p1 < toks.len() {
                        span_of(toks[p1])
                    } else {
                        end_span
                    },
                },
            )
        } else {
            match sp_rules(
                toks[p1]->Group_tokens,
                0,
                toks[p1]->Group_span,
                TransitionsV { rows: Seq::empty() },
            ) {
                Err(e) => Err(e),
                Ok(table) => Ok((table, p1 + 1)),
            }
        }
    }
}

/// Parses the trailing `-> name ;` of a rule.
pub fn parse_handler_ref(toks: &Vec<Token>, pos: usize, end_span: u32) -> (r: Result<
    (Name, usize),
    SyntaxError,
>)
    requires
        pos <= toks@.len(),
    ensures
        match r {
            Ok((h, next)) => sp_handler_ref(toks.deep_view(), pos as int, end_span) == Ok::<
                _,
                SyntaxErrorV,
            >((h.deep_view(), next as int)) && pos < next <= toks@.len(),
            Err(e) => sp_handler_ref(toks.deep_view(), pos as int, end_span) == Err::<
                (NameV, int),
                _,
            >(e.deep_view()),
        },
{
    if !(pos < toks.len() && tok_is_punct(&toks[pos], '-') && pos + 1 < toks.len()
        && tok_is_punct(&toks[pos + 1], '>')) {
        let sp = if pos < toks.len() {
            tok_span(&toks[pos])
        } else {
            end_span
        };
        return Err(SyntaxError::new("expected `->`", sp));
    }
    let p2 = pos + 2;
    if p2 >= toks.len() {
        return Err(SyntaxError::new("expected identifier", end_span));
    }
    match &toks[p2] {
        Token::Ident { text, span } => {
            let name = Name { text: text.clone(), span: *span };
            let p3 = p2 + 1;
            if !(p3 < toks.len() && tok_is_punct(&toks[p3], ';')) {
                let sp = if p3 < toks.len() {
                    tok_span(&toks[p3])
                } else {
                    end_span
                };
                return Err(SyntaxError::new("expected `;`", sp));
            }
            Ok((name, p3 + 1))
        },
        _ => Err(SyntaxError::new("expected identifier", tok_span(&toks[p2]))),
    }
}

/// Parses one whole rule starting at `pos`.
pub fn parse_rule(toks: &Vec<Token>, pos: usize, end_span: u32) -> (r: Result<
    ((Name, Name, Transition), usize),
    SyntaxError,
>)
    requires
        pos <= toks@.len(),
    ensures
        match r {
            Ok(((event, from, t), next)) => sp_rule(toks.deep_view(), pos as int, end_span)
                == Ok::<_, SyntaxErrorV>(
                ((event.deep_view(), from.deep_view(), t.deep_view()), next as int),
            ) && pos < next <= toks@.len(),
            Err(e) => sp_rule(toks.deep_view(), pos as int, end_span) == Err::<
                ((NameV, NameV, TransitionV), int),
                _,
            >(e.deep_view()),
        },
{
    let (pat, q0) = match StatePat::parse(toks, pos, end_span) {
        Ok(p) => p,
        Err(e) => {
            return Err(e);
        },
    };
    let from = pat.ident().copy();
    if !(q0 < toks.len() && tok_is_punct(&toks[q0], '=') && q0 + 1 < toks.len() && tok_is_punct(
        &toks[q0 + 1],
        '>',
    )) {
        let sp = if q0 < toks.len() {
            tok_span(&toks[q0])
        } else {
            end_span
        };
        return Err(SyntaxError::new("expected `=>`", sp));
    }
    let q1 = q0 + 2;
    if q1 >= toks.len() {
        return Err(SyntaxError::new("expected identifier", end_span));
    }
    let to_ident: Name;
    match &toks[q1] {
        Token::Ident { text, span } => {
            to_ident = Name { text: text.clone(), span: *span };
        },
        _ => {
            return Err(SyntaxError::new("expected identifier", tok_span(&toks[q1])));
        },
    }
    let q2 = q1 + 1;
    if !(q2 < toks.len() && tok_is_punct(&toks[q2], ':')) {
        let sp = if q2 < toks.len() {
            tok_span(&toks[q2])
        } else {
            end_span
        };
        return Err(SyntaxError::new("expected `:`", sp));
    }
    let q3 = q2 + 1;
    if q3 >= toks.len() {
        return Err(SyntaxError::new("expected identifier", end_span));
    }
    let event: Name;
    match &toks[q3] {
        Token::Ident { text, span } => {
            event = Name { text: text.clone(), span: *span };
        },
        _ => {
            return Err(SyntaxError::new("expected identifier", tok_span(&toks[q3])));
        },
    }
    let q4 = q3 + 1;
    if q4 >= toks.len() {
        return Err(SyntaxError::new("expected parentheses", end_span));
    }
    let event_params: Vec<Name>;
    match &toks[q4] {
        Token::Group { delim: Delim::Paren, tokens, .. } => {
            event_params = match parse_ident_list(tokens, 0) {
                Ok(ns) => ns,
                Err(e) => {
                    return Err(e);
                },
            };
        },
        _ => {
            return Err(SyntaxError::new("expected parentheses", tok_span(&toks[q4])));
        },
    }
    let q5 = q4 + 1;
    if q5 >= toks.len() {
        return Err(SyntaxError::new("expected `;`", end_span));
    }
    if tok_is_punct(&toks[q5], ';') {
        let t = Transition { from_pat: pat, to_ident, event_params, predicate: None, handler: None };
        return Ok(((event, from, t), q5 + 1));
    }
    if tok_is_punct(&toks[q5], '-') {
        let (h, next) = match parse_handler_ref(toks, q5, end_span) {
            Ok(p) => p,
            Err(e) => {
                return Err(e);
            },
        };
        let t = Transition {
            from_pat: pat,
            to_ident,
            event_params,
            predicate: None,
            handler: Some(h),
        };
        return Ok(((event, from, t), next));
    }
    match &toks[q5] {
        Token::Group { delim: Delim::Brace, .. } => {},
        _ => {
            return Err(SyntaxError::new("expected curly braces", tok_span(&toks[q5])));
        },
    }
    let pred = copy_token(&toks[q5]);
    let q6 = q5 + 1;
    if q6 >= toks.len() {
        return Err(SyntaxError::new("expected `;`", end_span));
    }
    if tok_is_punct(&toks[q6], ';') {
        let t = Transition {
            from_pat: pat,
            to_ident,
            event_params,
            predicate: Some(pred),
            handler: None,
        };
        return Ok(((event, from, t), q6 + 1));
    }
    if tok_is_punct(&toks[q6], '-') {
        let (h, next) = match parse_handler_ref(toks, q6, end_span) {
            Ok(p) => p,
            Err(e) => {
                return Err(e);
            },
        };
        let t = Transition {
            from_pat: pat,
            to_ident,
            event_params,
            predicate: Some(pred),
            handler: Some(h),
        };
        return Ok(((event, from, t), next));
    }
    Err(SyntaxError::new("expected `;`", tok_span(&toks[q6])))
}

/// Parses the whole transitions block starting at `pos`; returns the
/// table and the position just past the brace group.
#[verifier::loop_isolation(false)]
pub fn parse_transitions(toks: &Vec<Token>, pos: usize, end_span: u32) -> (r: Result<
    (Transitions, usize),
    SyntaxError,
>)
    requires
        pos <= toks@.len(),
    ensures
        match r {
            Ok((tr, next)) => sp_transitions(toks.deep_view(), pos as int, end_span) == Ok::<
                _,
                SyntaxErrorV,
            >((tr.deep_view(), next as int)) && pos < next <= toks@.len(),
            Err(e) => sp_transitions(toks.deep_view(), pos as int, end_span) == Err::<
                (TransitionsV, int),
                _,
            >(e.deep_view()),
        },
{
    let kw: String = "transitions".to_owned();
    if !(pos < toks.len() && tok_is_ident(&toks[pos], &kw)) {
        let sp = if pos < toks.len() {
            tok_span(&toks[pos])
        } else {
            end_span
        };
        return Err(SyntaxError::new("expected `transitions`", sp));
    }
    let p1 = pos + 1;
    if p1 >= toks.len() {
        return Err(SyntaxError::new("expected curly braces", end_span));
    }
    match &toks[p1] {
        Token::Group { delim: Delim::Brace, tokens, span } => {
            let gspan = *span;
            let mut table = Transitions { rows: Vec::new() };
            proof {
                assert(table.deep_view().rows =~= Seq::<EventRowV>::empty());
            }
            let mut p: usize = 0;
            while p < tokens.len()
                invariant
                    p <= tokens@.len(),
                    sp_rules(
                        tokens.deep_view(),
                        0,
                        gspan,
                        TransitionsV { rows: Seq::empty() },
                    ) == sp_rules(tokens.deep_view(), p as int, gspan, table.deep_view()),
                decreases tokens@.len() - p,
            {
                match parse_rule(tokens, p, gspan) {
                    Ok(((event, from, t), next)) => {
                        table.insert(event, from, t);
                        p = next;
                    },
                    Err(e) => {
                        return Err(e);
                    },
                }
            }
            Ok((table, p1 + 1))
        },
        _ => Err(SyntaxError::new("expected curly braces", tok_span(&toks[p1]))),
    }
}

} // verus!
