//! The `states { ... }` block: the machine's state variants.
//!
//! Each variant is a name plus a payload shape — no payload, a
//! positional list of types, or named fields — written like the
//! variants of a tagged union. The first declared variant is the
//! initial state. Parsing also synthesizes, per variant, the default
//! value expression that pre-populates that state's storage slot:
//! every payload field is set to its type's canonical default.

use vstd::prelude::*;

use crate::error::SyntaxError;
use crate::error::SyntaxErrorV;
use crate::events::lemma_scan_comma;
use crate::events::parse_params;
use crate::events::scan_comma;
use crate::events::scan_comma_exec;
use crate::events::sp_params;
use crate::events::Param;
use crate::events::ParamV;
use crate::token::copy_range;
use crate::token::is_ident;
use crate::token::is_punct;
use crate::token::push_group;
use crate::token::push_ident;
use crate::token::push_name;
use crate::token::push_path_sep;
use crate::token::push_punct;
use crate::token::push_tokens;
use crate::token::sp_path_sep;
use crate::token::span_of;
use crate::token::tok_is_ident;
use crate::token::tok_is_punct;
use crate::token::tok_span;
use crate::token::Delim;
use crate::token::Name;
use crate::token::NameV;
use crate::token::TokV;
use crate::token::Token;

verus! {

broadcast use crate::token::lemma_deep_view_is_toks_view;

/// The payload shape of one state variant.
#[derive(Debug)]
pub enum Fields {
    Unit,
    Unnamed(Vec<Vec<Token>>),
    Named(Vec<Param>),
}

/// The mathematical shape of a payload shape.
pub enum FieldsV {
    Unit,
    Unnamed(Seq<Seq<TokV>>),
    Named(Seq<ParamV>),
}

impl DeepView for Fields {
    type V = FieldsV;

    open spec fn deep_view(&self) -> FieldsV {
        match self {
            Fields::Unit => FieldsV::Unit,
            Fields::Unnamed(ts) => FieldsV::Unnamed(ts.deep_view()),
            Fields::Named(fs) => FieldsV::Named(fs.deep_view()),
        }
    }
}

/// One declared state variant.
#[derive(Debug)]
pub struct Variant {
    pub name: Name,
    pub fields: Fields,
}

/// The mathematical shape of a state variant.
pub struct VariantV {
    pub name: NameV,
    pub fields: FieldsV,
}

impl DeepView for Variant {
    type V = VariantV;

    open spec fn deep_view(&self) -> VariantV {
        VariantV { name: self.name.deep_view(), fields: self.fields.deep_view() }
    }
}

/// The synthesized default-value expression of one state.
#[derive(Debug)]
pub struct StateDefault {
    pub name: Name,
    pub expr: Vec<Token>,
}

/// The mathematical shape of a synthesized default.
pub struct StateDefaultV {
    pub name: NameV,
    pub expr: Seq<TokV>,
}

impl DeepView for StateDefault {
    type V = StateDefaultV;

    open spec fn deep_view(&self) -> StateDefaultV {
        StateDefaultV { name: self.name.deep_view(), expr: self.expr.deep_view() }
    }
}

/// The parsed `states` block: the initial state, the declared
/// variants in order, and one synthesized default per variant.
#[derive(Debug)]
pub struct States {
    pub initial: Name,
    pub definition: Vec<Variant>,
    pub defaults: Vec<StateDefault>,
}

/// The mathematical shape of a `states` block.
pub struct StatesV {
    pub initial: NameV,
    pub definition: Seq<VariantV>,
    pub defaults: Seq<StateDefaultV>,
}

impl DeepView for States {
    type V = StatesV;

    open spec fn deep_view(&self) -> StatesV {
        StatesV {
            initial: self.initial.deep_view(),
            definition: self.definition.deep_view(),
            defaults: self.defaults.deep_view(),
        }
    }
}

/// The canonical-default call for one payload type:
/// `<Type as core::default::Default>::default()`.
pub open spec fn sp_default_call(ty: Seq<TokV>) -> Seq<TokV> {
    seq![TokV::Punct { ch: '<', span: 0 }] + ty + seq![TokV::Ident { text: "as"@, span: 0 }]
        + seq![TokV::Ident { text: "core"@, span: 0 }] + sp_path_sep() + seq![
        TokV::Ident { text: "default"@, span: 0 },
    ] + sp_path_sep() + seq![
        TokV::Ident { text: "Default"@, span: 0 },
        TokV::Punct { ch: '>', span: 0 },
    ] + sp_path_sep() + seq![
        TokV::Ident { text: "default"@, span: 0 },
        TokV::Group { delim: Delim::Paren, tokens: Seq::empty(), span: 0 },
    ]
}

/// The comma-terminated default calls of a positional payload.
pub open spec fn sp_tuple_defaults(types: Seq<Seq<TokV>>) -> Seq<TokV>
    decreases types.len(),
{
    if types.len() == 0 {
        Seq::empty()
    } else {
        sp_tuple_defaults(types.drop_last()) + sp_default_call(types.last()) + seq![
            TokV::Punct { ch: ',', span: 0 },
        ]
    }
}

/// The comma-terminated `field: default` entries of a named payload.
pub open spec fn sp_named_defaults(fields: Seq<ParamV>) -> Seq<TokV>
    decreases fields.len(),
{
    if fields.len() == 0 {
        Seq::empty()
    } else {
        sp_named_defaults(fields.drop_last()) + seq![
            TokV::Ident { text: fields.last().name.text, span: fields.last().name.span },
            TokV::Punct { ch: ':', span: 0 },
        ] + sp_default_call(fields.last().ty) + seq![TokV::Punct { ch: ',', span: 0 }]
    }
}

/// The synthesized default-value expression of one variant, by its
/// shape: the bare variant, each positional field defaulted, or each
/// named field defaulted.
pub open spec fn sp_default_expr(v: VariantV) -> Seq<TokV> {
    let head = seq![TokV::Ident { text: "State"@, span: 0 }] + sp_path_sep() + seq![
        TokV::Ident { text: v.name.text, span: v.name.span },
    ];
    match v.fields {
        FieldsV::Unit => head,
        FieldsV::Unnamed(ts) => head + seq![
            TokV::Group { delim: Delim::Paren, tokens: sp_tuple_defaults(ts), span: 0 },
        ],
        FieldsV::Named(fs) => head + seq![
            TokV::Group { delim: Delim::Brace, tokens: sp_named_defaults(fs), span: 0 },
        ],
    }
}

/// One synthesized default per declared variant, in declaration
/// order.
pub open spec fn sp_defaults(variants: Seq<VariantV>) -> Seq<StateDefaultV> {
    Seq::new(
        variants.len(),
        |i: int| StateDefaultV { name: variants[i].name, expr: sp_default_expr(variants[i]) },
    )
}

/// The type-list grammar of a positional payload: comma-separated
/// opaque type runs, a trailing comma allowed.
pub open spec fn sp_type_list(toks: Seq<TokV>, pos: int, end_span: u32) -> Result<
    Seq<Seq<TokV>>,
    SyntaxErrorV,
>
    decreases toks.len() - pos,
{
    if pos >= toks.len() {
        Ok(Seq::empty())
    } else {
        let c = scan_comma(toks, pos);
        if c == pos {
            Err(SyntaxErrorV { message: "expected type"@, span: span_of(toks[pos]) })
        } else {
            let ty = toks.subrange(pos, c);
            if c >= toks.len() {
                Ok(seq![ty])
            } else {
                proof {
                    lemma_scan_comma(toks, pos);
                }
                match sp_type_list(toks, c + 1, end_span) {
                    Ok(rest) => Ok(seq![ty] + rest),
                    Err(e) => Err(e),
                }
            }
        }
    }
}

/// The variant-list grammar of the `states` block: named variants
/// with an optional payload group, separated by commas.
pub open spec fn sp_variants(toks: Seq<TokV>, pos: int, end_span: u32) -> Result<
    Seq<VariantV>,
    SyntaxErrorV,
>
    decreases toks.len() - pos,
{
    if pos >= toks.len() {
        Ok(Seq::empty())
    } else if !(toks[pos] is Ident) {
        Err(SyntaxErrorV { message: "expected identifier"@, span: span_of(toks[pos]) })
    } else {
        let name = NameV { text: toks[pos]->Ident_text, span: toks[pos]->Ident_span };
        let p1 = pos + 1;
        if p1 >= toks.len() {
            Ok(seq![VariantV { name, fields: FieldsV::Unit }])
        } else if is_punct(toks[p1], ',') {
            match sp_variants(toks, p1 + 1, end_span) {
                Ok(rest) => Ok(seq![VariantV { name, fields: FieldsV::Unit }] + rest),
                Err(e) => Err(e),
            }
        } else if toks[p1] matches TokV::Group { delim: Delim::Paren, .. } {
            match sp_type_list(toks[p1]->Group_tokens, 0, toks[p1]->Group_span) {
                Err(e) => Err(e),
                Ok(types) => {
                    let v = VariantV { name, fields: FieldsV::Unnamed(types) };
                    let p2 = p1 + 1;
                    if p2 >= toks.len() {
                        Ok(seq![v])
                    } else if is_punct(toks[p2], ',') {
                        match sp_variants(toks, p2 + 1, end_span) {
                            Ok(rest) => Ok(seq![v] + rest),
                            Err(e) => Err(e),
                        }
                    } else {
                        Err(SyntaxErrorV { message: "expected `,`"@, span: span_of(toks[p2]) })
                    }
                },
            }
        } else if toks[p1] matches TokV::Group { delim: Delim::Brace, .. } {
            match sp_params(toks[p1]->Group_tokens, 0, toks[p1]->Group_span) {
                Err(e) => Err(e),
                Ok(fs) => {
                    let v = VariantV { name, fields: FieldsV::Named(fs) };
                    let p2 = p1 + 1;
                    if p2 >= toks.len() {
                        Ok(seq![v])
                    } else if is_punct(toks[p2], ',') {
                        match sp_variants(toks, p2 + 1, end_span) {
                            Ok(rest) => Ok(seq![v] + rest),
                            Err(e) => Err(e),
                        }
                    } else {
                        Err(SyntaxErrorV { message: "expected `,`"@, span: span_of(toks[p2]) })
                    }
                },
            }
        } else {
            Err(SyntaxErrorV { message: "expected `,`"@, span: span_of(toks[p1]) })
        }
    }
}

/// The `states` block grammar: the `states` keyword and a braced
/// variant list with at least one variant, the first being the
/// initial state.
pub open spec fn sp_states(toks: Seq<TokV>, pos: int, end_span: u32) -> Result<
    (StatesV, int),
    SyntaxErrorV,
> {
    if !(pos < toks.len() && is_ident(toks[pos], "states"@)) {
        Err(
            SyntaxErrorV {
                message: "expected `states`"@,
                span: if pos < toks.len() {
                    span_of(toks[pos])
                } else {
                    end_span
                },
            },
        )
    } else {
        let p1 = pos + 1;
        if !(p1 < toks.len() && toks[p1] matches TokV::Group { delim: Delim::Brace, .. }) {
            Err(
                SyntaxErrorV {
                    message: "expected curly braces"@,
                    span: if p1 < toks.len() {
                        span_of(toks[p1])
                    } else {
                        end_span
                    },
                },
            )
        } else {
            let gspan = toks[p1]->Group_span;
            match sp_variants(toks[p1]->Group_tokens, 0, gspan) {
                Err(e) => Err(e),
                Ok(variants) => {
                    if variants.len() == 0 {
                        Err(SyntaxErrorV { message: "expected identifier"@, span: gspan })
                    } else {
                        Ok(
                            (
                                StatesV {
                                    initial: variants[0].name,
                                    definition: variants,
                                    defaults: sp_defaults(variants),
                                },
                                p1 + 1,
                            ),
                        )
                    }
                },
            }
        }
    }
}

/// Builds the canonical-default call for one payload type.
pub fn default_call(ty: &Vec<Token>) -> (r: Vec<Token>)
    ensures
        r.deep_view() == sp_default_call(ty.deep_view()),
{
    let mut out: Vec<Token> = Vec::new();
    push_punct(&mut out, '<', 0);
    push_tokens(&mut out, ty);
    push_ident(&mut out, "as", 0);
    push_ident(&mut out, "core", 0);
    push_path_sep(&mut out);
    push_ident(&mut out, "default", 0);
    push_path_sep(&mut out);
    push_ident(&mut out, "Default", 0);
    push_punct(&mut out, '>', 0);
    push_path_sep(&mut out);
    push_ident(&mut out, "default", 0);
    push_group(&mut out, Delim::Paren, Vec::new(), 0);
    proof {
        assert(out.deep_view() =~= sp_default_call(ty.deep_view()));
    }
    out
}

/// Builds the synthesized default-value expression of one variant.
#[verifier::loop_isolation(false)]
pub fn build_default_expr(v: &Variant) -> (r: Vec<Token>)
    ensures
        r.deep_view() == sp_default_expr(v.deep_view()),
{
    let mut out: Vec<Token> = Vec::new();
    push_ident(&mut out, "State", 0);
    push_path_sep(&mut out);
    push_name(&mut out, &v.name);
    match &v.fields {
        Fields::Unit => {
            proof {
                assert(out.deep_view() =~= sp_default_expr(v.deep_view()));
            }
            out
        },
        Fields::Unnamed(ts) => {
            let mut inner: Vec<Token> = Vec::new();
            let mut i: usize = 0;
            while i < ts.len()
                invariant
                    i <= ts@.len(),
                    inner.deep_view() == sp_tuple_defaults(ts.deep_view().take(i as int)),
                decreases ts@.len() - i,
            {
                let ghost prefix = ts.deep_view().take(i as int);
                let mut dc = default_call(&ts[i]);
                inner.append(&mut dc);
                push_punct(&mut inner, ',', 0);
                i = i + 1;
                proof {
                    let prefix2 = ts.deep_view().take(i as int);
                    assert(prefix2.drop_last() =~= prefix);
                    assert(prefix2.last() == ts.deep_view()[i - 1]);
                    assert(inner.deep_view() =~= sp_tuple_defaults(prefix2));
                }
            }
            proof {
                assert(ts.deep_view().take(ts@.len() as int) =~= ts.deep_view());
            }
            push_group(&mut out, Delim::Paren, inner, 0);
            proof {
                assert(out.deep_view() =~= sp_default_expr(v.deep_view()));
            }
            out
        },
        Fields::Named(fs) => {
            let mut inner: Vec<Token> = Vec::new();
            let mut i: usize = 0;
            while i < fs.len()
                invariant
                    i <= fs@.len(),
                    inner.deep_view() == sp_named_defaults(fs.deep_view().take(i as int)),
                decreases fs@.len() - i,
            {
                let ghost prefix = fs.deep_view().take(i as int);
                push_name(&mut inner, &fs[i].name);
                push_punct(&mut inner, ':', 0);
                let mut dc = default_call(&fs[i].ty);
                let ghost before = inner.deep_view();
                let ghost dcv = dc.deep_view();
                inner.append(&mut dc);
                proof {
                    assert(inner.deep_view() =~= before + dcv);
                }
                push_punct(&mut inner, ',', 0);
                i = i + 1;
                proof {
                    let prefix2 = fs.deep_view().take(i as int);
                    assert(prefix2.drop_last() =~= prefix);
                    assert(prefix2.last() == fs.deep_view()[i - 1]);
                    assert(sp_named_defaults(prefix2) == sp_named_defaults(prefix) + seq![
                        TokV::Ident {
                            text: fs.deep_view()[i - 1].name.text,
                            span: fs.deep_view()[i - 1].name.span,
                        },
                        TokV::Punct { ch: ':', span: 0 },
                    ] + sp_default_call(fs.deep_view()[i - 1].ty) + seq![
                        TokV::Punct { ch: ',', span: 0 },
                    ]);
                    assert(fs.deep_view()[i - 1] == fs@[i - 1].deep_view());
                    assert(inner.deep_view() =~= sp_named_defaults(prefix2));
                }
            }
            proof {
                assert(fs.deep_view().take(fs@.len() as int) =~= fs.deep_view());
            }
            push_group(&mut out, Delim::Brace, inner, 0);
            proof {
                assert(out.deep_view() =~= sp_default_expr(v.deep_view()));
            }
            out
        },
    }
}

/// Parses a positional payload's type list from the contents of a
/// parenthesis group.
pub fn parse_type_list(toks: &Vec<Token>, pos: usize, end_span: u32) -> (r: Result<
    Vec<Vec<Token>>,
    SyntaxError,
>)
    requires
        pos <= toks@.len(),
    ensures
        match r {
            Ok(ts) => sp_type_list(toks.deep_view(), pos as int, end_span) == Ok::<
                _,
                SyntaxErrorV,
            >(ts.deep_view()),
            Err(e) => sp_type_list(toks.deep_view(), pos as int, end_span) == Err::<
                Seq<Seq<TokV>>,
                _,
            >(e.deep_view()),
        },
    decreases toks@.len() - pos,
{
    if pos >= toks.len() {
        let ts: Vec<Vec<Token>> = Vec::new();
        proof {
            assert(ts.deep_view() =~= Seq::<Seq<TokV>>::empty());
        }
        return Ok(ts);
    }
    let c = scan_comma_exec(toks, pos);
    if c == pos {
        return Err(SyntaxError::new("expected type", tok_span(&toks[pos])));
    }
    let ty = copy_range(toks, pos, c);
    if c >= toks.len() {
        let mut ts: Vec<Vec<Token>> = Vec::new();
        ts.push(ty);
        proof {
            assert(ts.deep_view() =~= seq![ty.deep_view()]);
        }
        Ok(ts)
    } else {
        match parse_type_list(toks, c + 1, end_span) {
            Ok(rest) => {
                let mut ts = rest;
                ts.insert(0, ty);
                proof {
                    assert(ts.deep_view() =~= seq![ty.deep_view()] + rest.deep_view());
                }
                Ok(ts)
            },
            Err(e) => Err(e),
        }
    }
}

/// Parses the variant list from the contents of the `states` brace
/// group.
pub fn parse_variants(toks: &Vec<Token>, pos: usize, end_span: u32) -> (r: Result<
    Vec<Variant>,
    SyntaxError,
>)
    requires
        pos <= toks@.len(),
    ensures
        match r {
            Ok(vs) => sp_variants(toks.deep_view(), pos as int, end_span) == Ok::<
                _,
                SyntaxErrorV,
            >(vs.deep_view()),
            Err(e) => sp_variants(toks.deep_view(), pos as int, end_span) == Err::<
                Seq<VariantV>,
                _,
            >(e.deep_view()),
        },
    decreases toks@.len() - pos,
{
    if pos >= toks.len() {
        let vs: Vec<Variant> = Vec::new();
        proof {
            assert(vs.deep_view() =~= Seq::<VariantV>::empty());
        }
        return Ok(vs);
    }
    let name: Name;
    match &toks[pos] {
        Token::Ident { text, span } => {
            name = Name { text: text.clone(), span: *span };
        },
        _ => {
            return Err(SyntaxError::new("expected identifier", tok_span(&toks[pos])));
        },
    }
    let p1 = pos + 1;
    if p1 >= toks.len() {
        let mut vs: Vec<Variant> = Vec::new();
        vs.push(Variant { name, fields: Fields::Unit });
        proof {
            assert(vs.deep_view() =~= seq![
                VariantV { name: vs@[0].name.deep_view(), fields: FieldsV::Unit },
            ]);
        }
        return Ok(vs);
    }
    if tok_is_punct(&toks[p1], ',') {
        let v = Variant { name, fields: Fields::Unit };
        match parse_variants(toks, p1 + 1, end_span) {
            Ok(rest) => {
                let mut vs = rest;
                vs.insert(0, v);
                proof {
                    assert(vs.deep_view() =~= seq![v.deep_view()] + rest.deep_view());
                }
                Ok(vs)
            },
            Err(e) => Err(e),
        }
    } else {
        match &toks[p1] {
            Token::Group { delim: Delim::Paren, tokens, span } => {
                let types = match parse_type_list(tokens, 0, *span) {
                    Ok(ts) => ts,
                    Err(e) => {
                        return Err(e);
                    },
                };
                let v = Variant { name, fields: Fields::Unnamed(types) };
                let p2 = p1 + 1;
                if p2 >= toks.len() {
                    let mut vs: Vec<Variant> = Vec::new();
                    vs.push(v);
                    proof {
                        assert(vs.deep_view() =~= seq![vs@[0].deep_view()]);
                    }
                    Ok(vs)
                } else if tok_is_punct(&toks[p2], ',') {
                    match parse_variants(toks, p2 + 1, end_span) {
                        Ok(rest) => {
                            let mut vs = rest;
                            vs.insert(0, v);
                            proof {
                                assert(vs.deep_view() =~= seq![v.deep_view()]
                                    + rest.deep_view());
                            }
                            Ok(vs)
                        },
                        Err(e) => Err(e),
                    }
                } else {
                    Err(SyntaxError::new("expected `,`", tok_span(&toks[p2])))
                }
            },
            Token::Group { delim: Delim::Brace, tokens, span } => {
                let fs = match parse_params(tokens, 0, *span) {
                    Ok(ps) => ps,
                    Err(e) => {
                        return Err(e);
                    },
                };
                let v = Variant { name, fields: Fields::Named(fs) };
                let p2 = p1 + 1;
                if p2 >= toks.len() {
                    let mut vs: Vec<Variant> = Vec::new();
                    vs.push(v);
                    proof {
                        assert(vs.deep_view() =~= seq![vs@[0].deep_view()]);
                    }
                    Ok(vs)
                } else if tok_is_punct(&toks[p2], ',') {
                    match parse_variants(toks, p2 + 1, end_span) {
                        Ok(rest) => {
                            let mut vs = rest;
                            vs.insert(0, v);
                            proof {
                                assert(vs.deep_view() =~= seq![v.deep_view()]
                                    + rest.deep_view());
                            }
                            Ok(vs)
                        },
                        Err(e) => Err(e),
                    }
                } else {
                    Err(SyntaxError::new("expected `,`", tok_span(&toks[p2])))
                }
            },
            _ => Err(SyntaxError::new("expected `,`", tok_span(&toks[p1]))),
        }
    }
}

impl States {
    /// Parses the whole `states` block starting at `pos`; returns it
    /// and the position just past the brace group.
    #[verifier::loop_isolation(false)]
    pub fn parse(toks: &Vec<Token>, pos: usize, end_span: u32) -> (r: Result<
        (States, usize),
        SyntaxError,
    >)
        requires
            pos <= toks@.len(),
        ensures
            match r {
                Ok((st, next)) => sp_states(toks.deep_view(), pos as int, end_span) == Ok::<
                    _,
                    SyntaxErrorV,
                >((st.deep_view(), next as int)) && pos < next <= toks@.len(),
                Err(e) => sp_states(toks.deep_view(), pos as int, end_span) == Err::<
                    (StatesV, int),
                    _,
                >(e.deep_view()),
            },
    {
        let kw: String = "states".to_owned();
        if !(pos < toks.len() && tok_is_ident(&toks[pos], &kw)) {
            let sp = if pos < toks.len() {
                tok_span(&toks[pos])
            } else {
                end_span
            };
            return Err(SyntaxError::new("expected `states`", sp));
        }
        let p1 = pos + 1;
        if p1 >= toks.len() {
            return Err(SyntaxError::new("expected curly braces", end_span));
        }
        match &toks[p1] {
            Token::Group { delim: Delim::Brace, tokens, span } => {
                let variants = match parse_variants(tokens, 0, *span) {
                    Ok(vs) => vs,
                    Err(e) => {
                        return Err(e);
                    },
                };
                if variants.len() == 0 {
                    return Err(SyntaxError::new("expected identifier", *span));
                }
                let initial = variants[0].name.copy();
                let mut defaults: Vec<StateDefault> = Vec::new();
                let mut i: usize = 0;
                while i < variants.len()
                    invariant
                        i <= variants@.len(),
                        defaults@.len() == i as int,
                        forall|j: int|
                            0 <= j < i as int ==> defaults.deep_view()[j] == sp_defaults(
                                variants.deep_view(),
                            )[j],
                    decreases variants@.len() - i,
                {
                    let ghost prev = defaults.deep_view();
                    let d = StateDefault {
                        name: variants[i].name.copy(),
                        expr: build_default_expr(&variants[i]),
                    };
                    defaults.push(d);
                    i = i + 1;
                    proof {
                        assert(defaults.deep_view() =~= prev.push(d.deep_view()));
                        assert(variants.deep_view()[i - 1] == variants@[i - 1].deep_view());
                        assert(d.deep_view() == sp_defaults(variants.deep_view())[i - 1]);
                    }
                }
                proof {
                    assert(defaults.deep_view() =~= sp_defaults(variants.deep_view()));
                }
                let st = States { initial, definition: variants, defaults };
                Ok((st, p1 + 1))
            },
            _ => Err(SyntaxError::new("expected curly braces", tok_span(&toks[p1]))),
        }
    }
}

} // verus!
