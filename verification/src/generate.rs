//! The code generator.
//!
//! A validated machine description is turned into the token tree of
//! its runtime: a `State` tagged union matching the declared
//! variants, a `StateIdentifier` discriminant, a `Machine` record
//! holding the discriminant and one pre-populated storage slot per
//! state, a constructor, the handlers verbatim, and one dispatch
//! function per event implementing first-match-wins over the
//! transition table. Generation is total and deterministic: the
//! output is a function of the description alone, emitted in
//! declaration order throughout.

use vstd::prelude::*;

use crate::events::EventV;
use crate::events::Event;
use crate::events::ParamV;
use crate::machine::Machine;
use crate::machine::MachineV;
use crate::states::StateDefaultV;
use crate::states::StatesV;
use crate::states::VariantV;
use crate::states::FieldsV;
use crate::states::Fields;
use crate::states::Variant;
use crate::handlers::HandlerV;
use crate::handlers::Handler;
use crate::token::copy_token;
use crate::token::push_group;
use crate::token::push_ident;
use crate::token::push_name;
use crate::token::push_path_sep;
use crate::token::push_punct;
use crate::token::push_tokens;
use crate::token::sp_path_sep;
use crate::token::Delim;
use crate::token::Name;
use crate::token::NameV;
use crate::token::TokV;
use crate::token::Token;
use crate::transitions::find_event;
use crate::transitions::find_event_row;
use crate::transitions::sp_pat_tokens;
use crate::transitions::FromRowV;
use crate::transitions::TransitionV;
use crate::transitions::TransitionsV;

verus! {

broadcast use crate::token::lemma_deep_view_is_toks_view;

/// What lowercasing does to a spelling. The generator derives each
/// state's slot name from the state's name this way.
pub uninterp spec fn lower_of(s: Seq<char>) -> Seq<char>;

/// Relies on str::to_lowercase: the result depends on the characters
/// of the input alone.
#[verifier::external_body]
fn to_lowercase(s: &String) -> (r: String)
    ensures
        r@ == lower_of(s@),
{
    s.as_str().to_lowercase()
}

/// The slot identifier a state name yields: its lowercased spelling,
/// at the same source position.
pub open spec fn sp_lower(n: NameV) -> TokV {
    TokV::Ident { text: lower_of(n.text), span: n.span }
}

/// The lowercased twin of an identifier, used to name storage slots.
pub fn as_name(ident: &Name) -> (r: Name)
    ensures
        r.deep_view() == (NameV { text: lower_of(ident.text@), span: ident.span }),
{
    Name { text: to_lowercase(&ident.text), span: ident.span }
}

/// Appends the lowercased twin of `n`.
fn push_lower(out: &mut Vec<Token>, n: &Name)
    ensures
        final(out).deep_view() == old(out).deep_view() + seq![sp_lower(n.deep_view())],
{
    let low = as_name(n);
    push_name(out, &low);
}

/// An attribute of one word applied to one word:
/// `#[name(argument)]`.
pub open spec fn sp_attr(name: Seq<char>, arg: Seq<char>) -> Seq<TokV> {
    seq![
        TokV::Punct { ch: '#', span: 0 },
        TokV::Group {
            delim: Delim::Bracket,
            tokens: seq![
                TokV::Ident { text: name, span: 0 },
                TokV::Group {
                    delim: Delim::Paren,
                    tokens: seq![TokV::Ident { text: arg, span: 0 }],
                    span: 0,
                },
            ],
            span: 0,
        },
    ]
}

/// Appends `#[name(arg)]`.
fn push_attr(out: &mut Vec<Token>, name: &str, arg: &str)
    ensures
        final(out).deep_view() == old(out).deep_view() + sp_attr(name@, arg@),
{
    let mut inner: Vec<Token> = Vec::new();
    push_ident(&mut inner, arg, 0);
    proof {
        assert(inner.deep_view() =~= seq![TokV::Ident { text: arg@, span: 0 }]);
    }
    let mut brk: Vec<Token> = Vec::new();
    push_ident(&mut brk, name, 0);
    push_group(&mut brk, Delim::Paren, inner, 0);
    proof {
        assert(brk.deep_view() =~= seq![
            TokV::Ident { text: name@, span: 0 },
            TokV::Group {
                delim: Delim::Paren,
                tokens: seq![TokV::Ident { text: arg@, span: 0 }],
                span: 0,
            },
        ]);
    }
    push_punct(out, '#', 0);
    push_group(out, Delim::Bracket, brk, 0);
    proof {
        assert(out.deep_view() =~= old(out).deep_view() + sp_attr(name@, arg@));
    }
}

/// One type followed by a comma, for each positional payload type.
pub open spec fn sp_ty_commas(ts: Seq<Seq<TokV>>) -> Seq<TokV>
    decreases ts.len(),
{
    if ts.len() == 0 {
        Seq::empty()
    } else {
        sp_ty_commas(ts.drop_last()) + ts.last() + seq![TokV::Punct { ch: ',', span: 0 }]
    }
}

/// `name: Type,` for each field or parameter.
pub open spec fn sp_field_commas(fs: Seq<ParamV>) -> Seq<TokV>
    decreases fs.len(),
{
    if fs.len() == 0 {
        Seq::empty()
    } else {
        sp_field_commas(fs.drop_last()) + seq![
            TokV::Ident { text: fs.last().name.text, span: fs.last().name.span },
            TokV::Punct { ch: ':', span: 0 },
        ] + fs.last().ty + seq![TokV::Punct { ch: ',', span: 0 }]
    }
}

/// One variant of the emitted `State` union: its name, its payload
/// shape, and a trailing comma.
pub open spec fn sp_variant_tokens(v: VariantV) -> Seq<TokV> {
    seq![TokV::Ident { text: v.name.text, span: v.name.span }] + (match v.fields {
        FieldsV::Unit => Seq::<TokV>::empty(),
        FieldsV::Unnamed(ts) => seq![
            TokV::Group { delim: Delim::Paren, tokens: sp_ty_commas(ts), span: 0 },
        ],
        FieldsV::Named(fs) => seq![
            TokV::Group { delim: Delim::Brace, tokens: sp_field_commas(fs), span: 0 },
        ],
    }) + seq![TokV::Punct { ch: ',', span: 0 }]
}

/// All variants of the emitted `State` union.
pub open spec fn sp_cat_variants(vs: Seq<VariantV>) -> Seq<TokV>
    decreases vs.len(),
{
    if vs.len() == 0 {
        Seq::empty()
    } else {
        sp_cat_variants(vs.drop_last()) + sp_variant_tokens(vs.last())
    }
}

/// `Name,` for each state, for the discriminant type.
pub open spec fn sp_cat_idents(vs: Seq<VariantV>) -> Seq<TokV>
    decreases vs.len(),
{
    if vs.len() == 0 {
        Seq::empty()
    } else {
        sp_cat_idents(vs.drop_last()) + seq![
            TokV::Ident { text: vs.last().name.text, span: vs.last().name.span },
            TokV::Punct { ch: ',', span: 0 },
        ]
    }
}

/// `slot: State,` for each state, for the machine record.
pub open spec fn sp_cat_slot_fields(vs: Seq<VariantV>) -> Seq<TokV>
    decreases vs.len(),
{
    if vs.len() == 0 {
        Seq::empty()
    } else {
        sp_cat_slot_fields(vs.drop_last()) + seq![
            sp_lower(vs.last().name),
            TokV::Punct { ch: ':', span: 0 },
            TokV::Ident { text: "State"@, span: 0 },
            TokV::Punct { ch: ',', span: 0 },
        ]
    }
}

/// `slot: <default>,` for each state, for the constructor.
pub open spec fn sp_cat_slot_inits(ds: Seq<StateDefaultV>) -> Seq<TokV>
    decreases ds.len(),
{
    if ds.len() == 0 {
        Seq::empty()
    } else {
        sp_cat_slot_inits(ds.drop_last()) + seq![
            sp_lower(ds.last().name),
            TokV::Punct { ch: ':', span: 0 },
        ] + ds.last().expr + seq![TokV::Punct { ch: ',', span: 0 }]
    }
}

/// The emitted `State` union: one constructor per declared variant,
/// shapes kept exactly.
pub open spec fn sp_state_enum(states: StatesV) -> Seq<TokV> {
    sp_attr_derive() + seq![
        TokV::Ident { text: "pub"@, span: 0 },
        TokV::Ident { text: "enum"@, span: 0 },
        TokV::Ident { text: "State"@, span: 0 },
        TokV::Group { delim: Delim::Brace, tokens: sp_cat_variants(states.definition), span: 0 },
    ]
}

/// `#[derive(Debug, Clone)]`.
pub open spec fn sp_attr_derive() -> Seq<TokV> {
    seq![
        TokV::Punct { ch: '#', span: 0 },
        TokV::Group {
            delim: Delim::Bracket,
            tokens: seq![
                TokV::Ident { text: "derive"@, span: 0 },
                TokV::Group {
                    delim: Delim::Paren,
                    tokens: seq![
                        TokV::Ident { text: "Debug"@, span: 0 },
                        TokV::Punct { ch: ',', span: 0 },
                        TokV::Ident { text: "Clone"@, span: 0 },
                    ],
                    span: 0,
                },
            ],
            span: 0,
        },
    ]
}

/// The emitted discriminant type: one bare value per state name.
pub open spec fn sp_stateid_enum(states: StatesV) -> Seq<TokV> {
    sp_attr("allow"@, "dead_code"@) + seq![
        TokV::Ident { text: "enum"@, span: 0 },
        TokV::Ident { text: "StateIdentifier"@, span: 0 },
        TokV::Group { delim: Delim::Brace, tokens: sp_cat_idents(states.definition), span: 0 },
    ]
}

/// The emitted machine record: the discriminant and one slot per
/// state.
pub open spec fn sp_machine_struct(states: StatesV) -> Seq<TokV> {
    seq![
        TokV::Ident { text: "pub"@, span: 0 },
        TokV::Ident { text: "struct"@, span: 0 },
        TokV::Ident { text: "Machine"@, span: 0 },
        TokV::Group {
            delim: Delim::Brace,
            tokens: seq![
                TokV::Ident { text: "current_state"@, span: 0 },
                TokV::Punct { ch: ':', span: 0 },
                TokV::Ident { text: "StateIdentifier"@, span: 0 },
                TokV::Punct { ch: ',', span: 0 },
            ] + sp_cat_slot_fields(states.definition),
            span: 0,
        },
    ]
}

/// The emitted constructor: the initial discriminant, every slot at
/// its synthesized default.
pub open spec fn sp_new_fn(states: StatesV) -> Seq<TokV> {
    seq![
        TokV::Ident { text: "pub"@, span: 0 },
        TokV::Ident { text: "fn"@, span: 0 },
        TokV::Ident { text: "new"@, span: 0 },
        TokV::Group { delim: Delim::Paren, tokens: Seq::empty(), span: 0 },
        TokV::Punct { ch: '-', span: 0 },
        TokV::Punct { ch: '>', span: 0 },
        TokV::Ident { text: "Self"@, span: 0 },
        TokV::Group {
            delim: Delim::Brace,
            tokens: seq![
                TokV::Ident { text: "Self"@, span: 0 },
                TokV::Group {
                    delim: Delim::Brace,
                    tokens: seq![
                        TokV::Ident { text: "current_state"@, span: 0 },
                        TokV::Punct { ch: ':', span: 0 },
                        TokV::Ident { text: "StateIdentifier"@, span: 0 },
                    ] + sp_path_sep() + seq![
                        TokV::Ident { text: states.initial.text, span: states.initial.span },
                        TokV::Punct { ch: ',', span: 0 },
                    ] + sp_cat_slot_inits(states.defaults),
                    span: 0,
                },
            ],
            span: 0,
        },
    ]
}

/// Appends `name: Type,` for each entry.
#[verifier::loop_isolation(false)]
fn emit_field_commas(out: &mut Vec<Token>, fs: &Vec<crate::events::Param>)
    ensures
        final(out).deep_view() == old(out).deep_view() + sp_field_commas(fs.deep_view()),
{
    let mut i: usize = 0;
    proof {
        assert(fs.deep_view().take(0) =~= Seq::<ParamV>::empty());
        assert(out.deep_view() + sp_field_commas(fs.deep_view().take(0)) =~= out.deep_view());
    }
    while i < fs.len()
        invariant
            i <= fs@.len(),
            out.deep_view() == old(out).deep_view() + sp_field_commas(
                fs.deep_view().take(i as int),
            ),
        decreases fs@.len() - i,
    {
        let ghost prefix = fs.deep_view().take(i as int);
        push_name(out, &fs[i].name);
        push_punct(out, ':', 0);
        push_tokens(out, &fs[i].ty);
        push_punct(out, ',', 0);
        i = i + 1;
        proof {
            let prefix2 = fs.deep_view().take(i as int);
            assert(prefix2.drop_last() =~= prefix);
            assert(prefix2.last() == fs.deep_view()[i - 1]);
            assert(fs.deep_view()[i - 1] == fs@[i - 1].deep_view());
            assert(out.deep_view() =~= old(out).deep_view() + sp_field_commas(prefix2));
        }
    }
    proof {
        assert(fs.deep_view().take(fs@.len() as int) =~= fs.deep_view());
    }
}

/// Appends one variant of the `State` union.
fn emit_variant(out: &mut Vec<Token>, v: &Variant)
    ensures
        final(out).deep_view() == old(out).deep_view() + sp_variant_tokens(v.deep_view()),
{
    push_name(out, &v.name);
    match &v.fields {
        Fields::Unit => {},
        Fields::Unnamed(ts) => {
            let mut inner: Vec<Token> = Vec::new();
            let mut i: usize = 0;
            proof {
                assert(ts.deep_view().take(0) =~= Seq::<Seq<TokV>>::empty());
                assert(inner.deep_view() =~= Seq::<TokV>::empty());
            }
            while i < ts.len()
                invariant
                    i <= ts@.len(),
                    inner.deep_view() == sp_ty_commas(ts.deep_view().take(i as int)),
                decreases ts@.len() - i,
            {
                let ghost prefix = ts.deep_view().take(i as int);
                push_tokens(&mut inner, &ts[i]);
                push_punct(&mut inner, ',', 0);
                i = i + 1;
                proof {
                    let prefix2 = ts.deep_view().take(i as int);
                    assert(prefix2.drop_last() =~= prefix);
                    assert(prefix2.last() == ts.deep_view()[i - 1]);
                    assert(inner.deep_view() =~= sp_ty_commas(prefix2));
                }
            }
            proof {
                assert(ts.deep_view().take(ts@.len() as int) =~= ts.deep_view());
            }
            push_group(out, Delim::Paren, inner, 0);
        },
        Fields::Named(fs) => {
            let mut inner: Vec<Token> = Vec::new();
            emit_field_commas(&mut inner, fs);
            push_group(out, Delim::Brace, inner, 0);
        },
    }
    push_punct(out, ',', 0);
    proof {
        assert(out.deep_view() =~= old(out).deep_view() + sp_variant_tokens(v.deep_view()));
    }
}

/// Appends the whole `State` union.
#[verifier::loop_isolation(false)]
fn emit_state_enum(out: &mut Vec<Token>, states: &crate::states::States)
    ensures
        final(out).deep_view() == old(out).deep_view() + sp_state_enum(states.deep_view()),
{
    let mut inner: Vec<Token> = Vec::new();
    let mut i: usize = 0;
    proof {
        assert(states.definition.deep_view().take(0) =~= Seq::<VariantV>::empty());
        assert(inner.deep_view() =~= Seq::<TokV>::empty());
    }
    while i < states.definition.len()
        invariant
            i <= states.definition@.len(),
            inner.deep_view() == sp_cat_variants(states.definition.deep_view().take(i as int)),
        decreases states.definition@.len() - i,
    {
        let ghost prefix = states.definition.deep_view().take(i as int);
        emit_variant(&mut inner, &states.definition[i]);
        i = i + 1;
        proof {
            let prefix2 = states.definition.deep_view().take(i as int);
            assert(prefix2.drop_last() =~= prefix);
            assert(prefix2.last() == states.definition.deep_view()[i - 1]);
            assert(inner.deep_view() =~= sp_cat_variants(prefix2));
        }
    }
    proof {
        assert(states.definition.deep_view().take(states.definition@.len() as int)
            =~= states.definition.deep_view());
    }
    let mut der: Vec<Token> = Vec::new();
    push_ident(&mut der, "Debug", 0);
    push_punct(&mut der, ',', 0);
    push_ident(&mut der, "Clone", 0);
    proof {
        assert(der.deep_view() =~= seq![
            TokV::Ident { text: "Debug"@, span: 0 },
            TokV::Punct { ch: ',', span: 0 },
            TokV::Ident { text: "Clone"@, span: 0 },
        ]);
    }
    let mut brk: Vec<Token> = Vec::new();
    push_ident(&mut brk, "derive", 0);
    push_group(&mut brk, Delim::Paren, der, 0);
    proof {
        assert(brk.deep_view() =~= sp_attr_derive()[1]->Group_tokens);
    }
    push_punct(out, '#', 0);
    push_group(out, Delim::Bracket, brk, 0);
    push_ident(out, "pub", 0);
    push_ident(out, "enum", 0);
    push_ident(out, "State", 0);
    push_group(out, Delim::Brace, inner, 0);
    proof {
        assert(out.deep_view() =~= old(out).deep_view() + sp_state_enum(states.deep_view()));
    }
}

/// Appends the discriminant type.
#[verifier::loop_isolation(false)]
fn emit_stateid_enum(out: &mut Vec<Token>, states: &crate::states::States)
    ensures
        final(out).deep_view() == old(out).deep_view() + sp_stateid_enum(states.deep_view()),
{
    let mut inner: Vec<Token> = Vec::new();
    let mut i: usize = 0;
    proof {
        assert(states.definition.deep_view().take(0) =~= Seq::<VariantV>::empty());
        assert(inner.deep_view() =~= Seq::<TokV>::empty());
    }
    while i < states.definition.len()
        invariant
            i <= states.definition@.len(),
            inner.deep_view() == sp_cat_idents(states.definition.deep_view().take(i as int)),
        decreases states.definition@.len() - i,
    {
        let ghost prefix = states.definition.deep_view().take(i as int);
        push_name(&mut inner, &states.definition[i].name);
        push_punct(&mut inner, ',', 0);
        i = i + 1;
        proof {
            let prefix2 = states.definition.deep_view().take(i as int);
            assert(prefix2.drop_last() =~= prefix);
            assert(prefix2.last() == states.definition.deep_view()[i - 1]);
            assert(inner.deep_view() =~= sp_cat_idents(prefix2));
        }
    }
    proof {
        assert(states.definition.deep_view().take(states.definition@.len() as int)
            =~= states.definition.deep_view());
    }
    push_attr(out, "allow", "dead_code");
    push_ident(out, "enum", 0);
    push_ident(out, "StateIdentifier", 0);
    push_group(out, Delim::Brace, inner, 0);
    proof {
        assert(out.deep_view() =~~= old(out).deep_view() + sp_stateid_enum(states.deep_view()));
    }
}

/// Appends the machine record.
#[verifier::loop_isolation(false)]
fn emit_machine_struct(out: &mut Vec<Token>, states: &crate::states::States)
    ensures
        final(out).deep_view() == old(out).deep_view() + sp_machine_struct(states.deep_view()),
{
    let mut inner: Vec<Token> = Vec::new();
    push_ident(&mut inner, "current_state", 0);
    push_punct(&mut inner, ':', 0);
    push_ident(&mut inner, "StateIdentifier", 0);
    push_punct(&mut inner, ',', 0);
    let ghost head = inner.deep_view();
    let mut i: usize = 0;
    proof {
        assert(states.definition.deep_view().take(0) =~= Seq::<VariantV>::empty());
        assert(head + sp_cat_slot_fields(states.definition.deep_view().take(0)) =~= head);
    }
    while i < states.definition.len()
        invariant
            i <= states.definition@.len(),
            inner.deep_view() == head + sp_cat_slot_fields(
                states.definition.deep_view().take(i as int),
            ),
        decreases states.definition@.len() - i,
    {
        let ghost prefix = states.definition.deep_view().take(i as int);
        push_lower(&mut inner, &states.definition[i].name);
        push_punct(&mut inner, ':', 0);
        push_ident(&mut inner, "State", 0);
        push_punct(&mut inner, ',', 0);
        i = i + 1;
        proof {
            let prefix2 = states.definition.deep_view().take(i as int);
            assert(prefix2.drop_last() =~= prefix);
            assert(prefix2.last() == states.definition.deep_view()[i - 1]);
            assert(inner.deep_view() =~= head + sp_cat_slot_fields(prefix2));
        }
    }
    proof {
        assert(states.definition.deep_view().take(states.definition@.len() as int)
            =~= states.definition.deep_view());
    }
    proof {
        assert(inner.deep_view() =~= sp_machine_struct(states.deep_view())[3]->Group_tokens);
    }
    push_ident(out, "pub", 0);
    push_ident(out, "struct", 0);
    push_ident(out, "Machine", 0);
    push_group(out, Delim::Brace, inner, 0);
    proof {
        assert(out.deep_view() =~= old(out).deep_view() + sp_machine_struct(
            states.deep_view(),
        ));
    }
}

/// Appends the constructor.
#[verifier::loop_isolation(false)]
fn emit_new_fn(out: &mut Vec<Token>, states: &crate::states::States)
    ensures
        final(out).deep_view() == old(out).deep_view() + sp_new_fn(states.deep_view()),
{
    let mut fields: Vec<Token> = Vec::new();
    push_ident(&mut fields, "current_state", 0);
    push_punct(&mut fields, ':', 0);
    push_ident(&mut fields, "StateIdentifier", 0);
    push_path_sep(&mut fields);
    push_name(&mut fields, &states.initial);
    push_punct(&mut fields, ',', 0);
    let ghost head = fields.deep_view();
    let mut i: usize = 0;
    proof {
        assert(states.defaults.deep_view().take(0) =~= Seq::<StateDefaultV>::empty());
        assert(head + sp_cat_slot_inits(states.defaults.deep_view().take(0)) =~= head);
    }
    while i < states.defaults.len()
        invariant
            i <= states.defaults@.len(),
            fields.deep_view() == head + sp_cat_slot_inits(
                states.defaults.deep_view().take(i as int),
            ),
        decreases states.defaults@.len() - i,
    {
        let ghost prefix = states.defaults.deep_view().take(i as int);
        push_lower(&mut fields, &states.defaults[i].name);
        push_punct(&mut fields, ':', 0);
        push_tokens(&mut fields, &states.defaults[i].expr);
        push_punct(&mut fields, ',', 0);
        i = i + 1;
        proof {
            let prefix2 = states.defaults.deep_view().take(i as int);
            assert(prefix2.drop_last() =~= prefix);
            assert(prefix2.last() == states.defaults.deep_view()[i - 1]);
            assert(fields.deep_view() =~= head + sp_cat_slot_inits(prefix2));
        }
    }
    proof {
        assert(states.defaults.deep_view().take(states.defaults@.len() as int)
            =~= states.defaults.deep_view());
    }
    proof {
        assert(fields.deep_view() =~= sp_new_fn(
            states.deep_view(),
        )[7]->Group_tokens[1]->Group_tokens);
    }
    let mut body: Vec<Token> = Vec::new();
    push_ident(&mut body, "Self", 0);
    push_group(&mut body, Delim::Brace, fields, 0);
    proof {
        assert(body.deep_view() =~= sp_new_fn(states.deep_view())[7]->Group_tokens);
    }
    let empty_parens: Vec<Token> = Vec::new();
    push_ident(out, "pub", 0);
    push_ident(out, "fn", 0);
    push_ident(out, "new", 0);
    push_group(out, Delim::Paren, empty_parens, 0);
    push_punct(out, '-', 0);
    push_punct(out, '>', 0);
    push_ident(out, "Self", 0);
    push_group(out, Delim::Brace, body, 0);
    proof {
        assert(empty_parens.deep_view() =~= Seq::<TokV>::empty());
        assert(out.deep_view() =~= old(out).deep_view() + sp_new_fn(states.deep_view()));
    }
}


/// The emitted name of a handler: `handle_` before its declared
/// name, at the declared name's position.
pub open spec fn sp_handler_ident(n: NameV) -> TokV {
    TokV::Ident { text: "handle_"@ + n.text, span: n.span }
}

/// Appends the emitted name of a handler.
fn push_handler_ident(out: &mut Vec<Token>, n: &Name)
    ensures
        final(out).deep_view() == old(out).deep_view() + seq![sp_handler_ident(n.deep_view())],
{
    let mut s: String = "handle_".to_owned();
    s.append(n.text.as_str());
    out.push(Token::Ident { text: s, span: n.span });
    proof {
        assert(out.deep_view() =~= old(out).deep_view() + seq![
            sp_handler_ident(n.deep_view()),
        ]);
    }
}

/// One emitted handler: a plain method whose parameters and body are
/// reproduced verbatim.
pub open spec fn sp_handler_fn(h: HandlerV) -> Seq<TokV> {
    seq![
        TokV::Ident { text: "fn"@, span: 0 },
        sp_handler_ident(h.name),
        TokV::Group { delim: Delim::Paren, tokens: sp_field_commas(h.params), span: 0 },
        h.body,
    ]
}

/// All emitted handlers, in declaration order.
pub open spec fn sp_cat_handler_fns(hs: Seq<HandlerV>) -> Seq<TokV>
    decreases hs.len(),
{
    if hs.len() == 0 {
        Seq::empty()
    } else {
        sp_cat_handler_fns(hs.drop_last()) + sp_handler_fn(hs.last())
    }
}

/// Appends one emitted handler.
fn emit_handler_fn(out: &mut Vec<Token>, h: &Handler)
    ensures
        final(out).deep_view() == old(out).deep_view() + sp_handler_fn(h.deep_view()),
{
    push_ident(out, "fn", 0);
    push_handler_ident(out, &h.name);
    let mut params: Vec<Token> = Vec::new();
    emit_field_commas(&mut params, &h.params);
    push_group(out, Delim::Paren, params, 0);
    let ghost before = out.deep_view();
    out.push(copy_token(&h.body));
    proof {
        assert(out.deep_view() =~= before + seq![h.body.deep_view()]);
        assert(out.deep_view() =~= old(out).deep_view() + sp_handler_fn(h.deep_view()));
    }
}

/// `let <rename> = <declared>;` for each event argument a rule
/// rebinds, paired in order for as long as both lists run.
pub open spec fn sp_param_inits(renames: Seq<NameV>, declared: Seq<ParamV>, k: int) -> Seq<TokV>
    decreases renames.len() - k,
{
    if k < 0 || k >= renames.len() || k >= declared.len() {
        Seq::empty()
    } else {
        seq![
            TokV::Ident { text: "let"@, span: 0 },
            TokV::Ident { text: renames[k].text, span: renames[k].span },
            TokV::Punct { ch: '=', span: 0 },
            TokV::Ident { text: declared[k].name.text, span: declared[k].name.span },
            TokV::Punct { ch: ';', span: 0 },
        ] + sp_param_inits(renames, declared, k + 1)
    }
}

/// Appends the rebinding statements of one rule.
#[verifier::loop_isolation(false)]
fn emit_param_inits(out: &mut Vec<Token>, renames: &Vec<Name>, declared: &Vec<crate::events::Param>)
    ensures
        final(out).deep_view() == old(out).deep_view() + sp_param_inits(
            renames.deep_view(),
            declared.deep_view(),
            0,
        ),
{
    let ghost rv = renames.deep_view();
    let ghost dv = declared.deep_view();
    let mut k: usize = 0;
    proof {
        assert(out.deep_view() + sp_param_inits(rv, dv, 0) =~= old(out).deep_view()
            + sp_param_inits(rv, dv, 0));
    }
    while k < renames.len() && k < declared.len()
        invariant
            k <= rv.len(),
            old(out).deep_view() + sp_param_inits(rv, dv, 0) == out.deep_view()
                + sp_param_inits(rv, dv, k as int),
        decreases rv.len() - k,
    {
        push_ident(out, "let", 0);
        push_name(out, &renames[k]);
        push_punct(out, '=', 0);
        push_name(out, &declared[k].name);
        push_punct(out, ';', 0);
        k = k + 1;
        proof {
            assert(rv[k - 1] == renames@[k - 1].deep_view());
            assert(dv[k - 1] == declared@[k - 1].deep_view());
            assert(old(out).deep_view() + sp_param_inits(rv, dv, 0) =~= out.deep_view()
                + sp_param_inits(rv, dv, k as int));
        }
    }
    proof {
        assert(sp_param_inits(rv, dv, k as int) =~= Seq::<TokV>::empty());
        assert(out.deep_view() =~= old(out).deep_view() + sp_param_inits(rv, dv, 0));
    }
}

/// The handler's first argument: `None` on a self-transition, a
/// reference to the from-slot otherwise.
pub open spec fn sp_from_arg(from: NameV, to: NameV) -> Seq<TokV> {
    if from.text == to.text {
        seq![TokV::Ident { text: "None"@, span: 0 }]
    } else {
        seq![
            TokV::Ident { text: "Some"@, span: 0 },
            TokV::Group {
                delim: Delim::Paren,
                tokens: seq![
                    TokV::Punct { ch: '&', span: 0 },
                    TokV::Ident { text: "mut"@, span: 0 },
                    TokV::Ident { text: "self"@, span: 0 },
                    TokV::Punct { ch: '.', span: 0 },
                    sp_lower(from),
                ],
                span: 0,
            },
        ]
    }
}

/// `name,` for each declared event parameter, as handed to the
/// handler.
pub open spec fn sp_call_args(declared: Seq<ParamV>, k: int) -> Seq<TokV>
    decreases declared.len() - k,
{
    if k < 0 || k >= declared.len() {
        Seq::empty()
    } else {
        seq![
            TokV::Ident { text: declared[k].name.text, span: declared[k].name.span },
            TokV::Punct { ch: ',', span: 0 },
        ] + sp_call_args(declared, k + 1)
    }
}

/// The emitted handler invocation of one rule, if it names one: the
/// old-state argument, the destination slot, and the event
/// arguments.
pub open spec fn sp_handler_call(t: TransitionV, ev: EventV, from: NameV) -> Seq<TokV> {
    match t.handler {
        None => Seq::empty(),
        Some(h) => seq![TokV::Ident { text: "Self"@, span: 0 }] + sp_path_sep() + seq![
            sp_handler_ident(h),
            TokV::Group {
                delim: Delim::Paren,
                tokens: sp_from_arg(from, t.to_ident) + seq![
                    TokV::Punct { ch: ',', span: 0 },
                    TokV::Punct { ch: '&', span: 0 },
                    TokV::Ident { text: "mut"@, span: 0 },
                    TokV::Ident { text: "self"@, span: 0 },
                    TokV::Punct { ch: '.', span: 0 },
                    sp_lower(t.to_ident),
                    TokV::Punct { ch: ',', span: 0 },
                ] + sp_call_args(ev.params, 0),
                span: 0,
            },
            TokV::Punct { ch: ';', span: 0 },
        ],
    }
}

/// Appends the handler invocation of one rule, if any.
#[verifier::loop_isolation(false)]
fn emit_handler_call(out: &mut Vec<Token>, t: &crate::transitions::Transition, ev: &Event, from: &Name)
    ensures
        final(out).deep_view() == old(out).deep_view() + sp_handler_call(
            t.deep_view(),
            ev.deep_view(),
            from.deep_view(),
        ),
{
    match &t.handler {
        None => {
            proof {
                assert(out.deep_view() =~= old(out).deep_view() + sp_handler_call(
                    t.deep_view(),
                    ev.deep_view(),
                    from.deep_view(),
                ));
            }
        },
        Some(h) => {
            let mut args: Vec<Token> = Vec::new();
            if crate::token::str_eq(&from.text, &t.to_ident.text) {
                push_ident(&mut args, "None", 0);
            } else {
                let mut slot: Vec<Token> = Vec::new();
                push_punct(&mut slot, '&', 0);
                push_ident(&mut slot, "mut", 0);
                push_ident(&mut slot, "self", 0);
                push_punct(&mut slot, '.', 0);
                push_lower(&mut slot, from);
                proof {
                    assert(slot.deep_view() =~= seq![
                        TokV::Punct { ch: '&', span: 0 },
                        TokV::Ident { text: "mut"@, span: 0 },
                        TokV::Ident { text: "self"@, span: 0 },
                        TokV::Punct { ch: '.', span: 0 },
                        sp_lower(from.deep_view()),
                    ]);
                }
                push_ident(&mut args, "Some", 0);
                push_group(&mut args, Delim::Paren, slot, 0);
            }
            proof {
                assert(args.deep_view() =~= sp_from_arg(from.deep_view(), t.to_ident.deep_view()));
            }
            push_punct(&mut args, ',', 0);
            push_punct(&mut args, '&', 0);
            push_ident(&mut args, "mut", 0);
            push_ident(&mut args, "self", 0);
            push_punct(&mut args, '.', 0);
            push_lower(&mut args, &t.to_ident);
            push_punct(&mut args, ',', 0);
            let ghost head = args.deep_view();
            let ghost dv = ev.params.deep_view();
            let mut k: usize = 0;
            proof {
                assert(head + sp_call_args(dv, 0) =~= head + sp_call_args(dv, 0));
            }
            while k < ev.params.len()
                invariant
                    k <= dv.len(),
                    head + sp_call_args(dv, 0) == args.deep_view() + sp_call_args(dv, k as int),
                decreases dv.len() - k,
            {
                push_name(&mut args, &ev.params[k].name);
                push_punct(&mut args, ',', 0);
                k = k + 1;
                proof {
                    assert(dv[k - 1] == ev.params@[k - 1].deep_view());
                    assert(head + sp_call_args(dv, 0) =~= args.deep_view() + sp_call_args(
                        dv,
                        k as int,
                    ));
                }
            }
            proof {
                assert(sp_call_args(dv, k as int) =~= Seq::<TokV>::empty());
                assert(args.deep_view() =~= head + sp_call_args(dv, 0));
            }
            proof {
                assert(args.deep_view() =~= sp_from_arg(from.deep_view(), t.to_ident.deep_view())
                    + seq![
                    TokV::Punct { ch: ',', span: 0 },
                    TokV::Punct { ch: '&', span: 0 },
                    TokV::Ident { text: "mut"@, span: 0 },
                    TokV::Ident { text: "self"@, span: 0 },
                    TokV::Punct { ch: '.', span: 0 },
                    sp_lower(t.to_ident.deep_view()),
                    TokV::Punct { ch: ',', span: 0 },
                ] + sp_call_args(ev.params.deep_view(), 0));
            }
            push_ident(out, "Self", 0);
            push_path_sep(out);
            push_handler_ident(out, h);
            push_group(out, Delim::Paren, args, 0);
            push_punct(out, ';', 0);
            proof {
                assert(out.deep_view() =~= old(out).deep_view() + sp_handler_call(
                    t.deep_view(),
                    ev.deep_view(),
                    from.deep_view(),
                ));
            }
        },
    }
}

/// The emitted guard of one rule, if it has one: the guard block
/// wrapped as an immediately invoked boolean closure.
pub open spec fn sp_pred_prefix(t: TransitionV) -> Seq<TokV> {
    match t.predicate {
        None => Seq::empty(),
        Some(p) => seq![
            TokV::Ident { text: "if"@, span: 0 },
            TokV::Group {
                delim: Delim::Paren,
                tokens: seq![
                    TokV::Punct { ch: '|', span: 0 },
                    TokV::Punct { ch: '|', span: 0 },
                    TokV::Punct { ch: '-', span: 0 },
                    TokV::Punct { ch: '>', span: 0 },
                    TokV::Ident { text: "bool"@, span: 0 },
                    p,
                ],
                span: 0,
            },
            TokV::Group { delim: Delim::Paren, tokens: Seq::empty(), span: 0 },
        ],
    }
}

/// Appends the guard prefix of one rule, if any.
fn emit_pred_prefix(out: &mut Vec<Token>, t: &crate::transitions::Transition)
    ensures
        final(out).deep_view() == old(out).deep_view() + sp_pred_prefix(t.deep_view()),
{
    match &t.predicate {
        None => {
            proof {
                assert(out.deep_view() =~= old(out).deep_view() + sp_pred_prefix(t.deep_view()));
            }
        },
        Some(p) => {
            let mut closure: Vec<Token> = Vec::new();
            push_punct(&mut closure, '|', 0);
            push_punct(&mut closure, '|', 0);
            push_punct(&mut closure, '-', 0);
            push_punct(&mut closure, '>', 0);
            push_ident(&mut closure, "bool", 0);
            let ghost before = closure.deep_view();
            closure.push(copy_token(p));
            proof {
                assert(closure.deep_view() =~= before + seq![p.deep_view()]);
            }
            proof {
                assert(closure.deep_view() =~= seq![
                    TokV::Punct { ch: '|', span: 0 },
                    TokV::Punct { ch: '|', span: 0 },
                    TokV::Punct { ch: '-', span: 0 },
                    TokV::Punct { ch: '>', span: 0 },
                    TokV::Ident { text: "bool"@, span: 0 },
                    t.predicate.deep_view()->0,
                ]);
            }
            push_ident(out, "if", 0);
            push_group(out, Delim::Paren, closure, 0);
            let empty_call: Vec<Token> = Vec::new();
            push_group(out, Delim::Paren, empty_call, 0);
            proof {
                assert(empty_call.deep_view() =~= Seq::<TokV>::empty());
                assert(out.deep_view() =~= old(out).deep_view() + sp_pred_prefix(t.deep_view()));
            }
        },
    }
}

/// The state change, handler invocation and `return true` of one
/// selected rule.
pub open spec fn sp_core(t: TransitionV, ev: EventV, from: NameV) -> Seq<TokV> {
    seq![
        TokV::Ident { text: "self"@, span: 0 },
        TokV::Punct { ch: '.', span: 0 },
        TokV::Ident { text: "current_state"@, span: 0 },
        TokV::Punct { ch: '=', span: 0 },
        TokV::Ident { text: "StateIdentifier"@, span: 0 },
    ] + sp_path_sep() + seq![
        TokV::Ident { text: t.to_ident.text, span: t.to_ident.span },
        TokV::Punct { ch: ';', span: 0 },
    ] + sp_handler_call(t, ev, from) + seq![
        TokV::Ident { text: "return"@, span: 0 },
        TokV::Ident { text: "true"@, span: 0 },
        TokV::Punct { ch: ';', span: 0 },
    ]
}

/// One rule's emitted block: rebind the event arguments, destructure
/// the from-slot against the pattern, test the guard, and on success
/// change state, invoke the handler and return.
pub open spec fn sp_transition_block(t: TransitionV, ev: EventV, from: NameV) -> Seq<TokV> {
    seq![
        TokV::Group {
            delim: Delim::Brace,
            tokens: sp_param_inits(t.event_params, ev.params, 0) + seq![
                TokV::Ident { text: "if"@, span: 0 },
                TokV::Ident { text: "let"@, span: 0 },
                TokV::Ident { text: "State"@, span: 0 },
            ] + sp_path_sep() + seq![TokV::Ident { text: from.text, span: from.span }]
                + sp_pat_tokens(t.from_pat) + seq![
                TokV::Punct { ch: '=', span: 0 },
                TokV::Ident { text: "self"@, span: 0 },
                TokV::Punct { ch: '.', span: 0 },
                sp_lower(from),
                TokV::Group {
                    delim: Delim::Brace,
                    tokens: sp_pred_prefix(t) + seq![
                        TokV::Group {
                            delim: Delim::Brace,
                            tokens: sp_core(t, ev, from),
                            span: 0,
                        },
                    ],
                    span: 0,
                },
            ],
            span: 0,
        },
    ]
}

/// Appends one rule's emitted block.
fn emit_transition_block(
    out: &mut Vec<Token>,
    t: &crate::transitions::Transition,
    ev: &Event,
    from: &Name,
)
    ensures
        final(out).deep_view() == old(out).deep_view() + sp_transition_block(
            t.deep_view(),
            ev.deep_view(),
            from.deep_view(),
        ),
{
    let mut core: Vec<Token> = Vec::new();
    push_ident(&mut core, "self", 0);
    push_punct(&mut core, '.', 0);
    push_ident(&mut core, "current_state", 0);
    push_punct(&mut core, '=', 0);
    push_ident(&mut core, "StateIdentifier", 0);
    push_path_sep(&mut core);
    push_name(&mut core, &t.to_ident);
    push_punct(&mut core, ';', 0);
    emit_handler_call(&mut core, t, ev, from);
    push_ident(&mut core, "return", 0);
    push_ident(&mut core, "true", 0);
    push_punct(&mut core, ';', 0);
    proof {
        assert(core.deep_view() =~= sp_core(t.deep_view(), ev.deep_view(), from.deep_view()));
    }
    let mut guarded: Vec<Token> = Vec::new();
    emit_pred_prefix(&mut guarded, t);
    push_group(&mut guarded, Delim::Brace, core, 0);
    proof {
        assert(guarded.deep_view() =~= sp_pred_prefix(t.deep_view()) + seq![
            TokV::Group {
                delim: Delim::Brace,
                tokens: sp_core(t.deep_view(), ev.deep_view(), from.deep_view()),
                span: 0,
            },
        ]);
    }
    let mut inner: Vec<Token> = Vec::new();
    emit_param_inits(&mut inner, &t.event_params, &ev.params);
    push_ident(&mut inner, "if", 0);
    push_ident(&mut inner, "let", 0);
    push_ident(&mut inner, "State", 0);
    push_path_sep(&mut inner);
    push_name(&mut inner, from);
    t.from_pat.to_tokens(&mut inner);
    push_punct(&mut inner, '=', 0);
    push_ident(&mut inner, "self", 0);
    push_punct(&mut inner, '.', 0);
    push_lower(&mut inner, from);
    push_group(&mut inner, Delim::Brace, guarded, 0);
    proof {
        assert(inner.deep_view() =~= sp_transition_block(
            t.deep_view(),
            ev.deep_view(),
            from.deep_view(),
        )[0]->Group_tokens);
    }
    push_group(out, Delim::Brace, inner, 0);
    proof {
        assert(out.deep_view() =~= old(out).deep_view() + sp_transition_block(
            t.deep_view(),
            ev.deep_view(),
            from.deep_view(),
        ));
    }
}

/// All rule blocks of one (event, from-state) pair, in declaration
/// order.
pub open spec fn sp_cat_transition_blocks(
    list: Seq<TransitionV>,
    ev: EventV,
    from: NameV,
) -> Seq<TokV>
    decreases list.len(),
{
    if list.len() == 0 {
        Seq::empty()
    } else {
        sp_cat_transition_blocks(list.drop_last(), ev, from) + sp_transition_block(
            list.last(),
            ev,
            from,
        )
    }
}

/// One from-state's arm of the dispatch match.
pub open spec fn sp_from_body(row: FromRowV, ev: EventV) -> Seq<TokV> {
    seq![TokV::Ident { text: "StateIdentifier"@, span: 0 }] + sp_path_sep() + seq![
        TokV::Ident { text: row.from.text, span: row.from.span },
        TokV::Punct { ch: '=', span: 0 },
        TokV::Punct { ch: '>', span: 0 },
        TokV::Group {
            delim: Delim::Brace,
            tokens: sp_cat_transition_blocks(row.list, ev, row.from),
            span: 0,
        },
        TokV::Punct { ch: ',', span: 0 },
    ]
}

/// Appends one from-state's arm.
#[verifier::loop_isolation(false)]
fn emit_from_body(out: &mut Vec<Token>, row: &crate::transitions::FromRow, ev: &Event)
    ensures
        final(out).deep_view() == old(out).deep_view() + sp_from_body(
            row.deep_view(),
            ev.deep_view(),
        ),
{
    let mut blocks: Vec<Token> = Vec::new();
    let mut i: usize = 0;
    proof {
        assert(row.list.deep_view().take(0) =~= Seq::<TransitionV>::empty());
        assert(blocks.deep_view() =~= Seq::<TokV>::empty());
    }
    while i < row.list.len()
        invariant
            i <= row.list@.len(),
            blocks.deep_view() == sp_cat_transition_blocks(
                row.list.deep_view().take(i as int),
                ev.deep_view(),
                row.from.deep_view(),
            ),
        decreases row.list@.len() - i,
    {
        let ghost prefix = row.list.deep_view().take(i as int);
        emit_transition_block(&mut blocks, &row.list[i], ev, &row.from);
        i = i + 1;
        proof {
            let prefix2 = row.list.deep_view().take(i as int);
            assert(prefix2.drop_last() =~= prefix);
            assert(prefix2.last() == row.list.deep_view()[i - 1]);
            assert(blocks.deep_view() =~= sp_cat_transition_blocks(
                prefix2,
                ev.deep_view(),
                row.from.deep_view(),
            ));
        }
    }
    proof {
        assert(row.list.deep_view().take(row.list@.len() as int) =~= row.list.deep_view());
    }
    push_ident(out, "StateIdentifier", 0);
    push_path_sep(out);
    push_name(out, &row.from);
    push_punct(out, '=', 0);
    push_punct(out, '>', 0);
    push_group(out, Delim::Brace, blocks, 0);
    push_punct(out, ',', 0);
    proof {
        assert(out.deep_view() =~= old(out).deep_view() + sp_from_body(
            row.deep_view(),
            ev.deep_view(),
        ));
    }
}

/// All from-state arms of one event.
pub open spec fn sp_cat_from_bodies(froms: Seq<FromRowV>, ev: EventV) -> Seq<TokV>
    decreases froms.len(),
{
    if froms.len() == 0 {
        Seq::empty()
    } else {
        sp_cat_from_bodies(froms.drop_last(), ev) + sp_from_body(froms.last(), ev)
    }
}

/// The emitted dispatch body of one event: a match on the current
/// discriminant over the event's from-state arms, falling through to
/// `false` when nothing fires.
pub open spec fn sp_event_body(ev: EventV, table: TransitionsV) -> Seq<TokV> {
    let i = find_event(table.rows, ev.name.text);
    let bodies: Seq<TokV> = if i < 0 {
        Seq::empty()
    } else {
        sp_cat_from_bodies(table.rows[i].froms, ev)
    };
    seq![
        TokV::Ident { text: "match"@, span: 0 },
        TokV::Ident { text: "self"@, span: 0 },
        TokV::Punct { ch: '.', span: 0 },
        TokV::Ident { text: "current_state"@, span: 0 },
        TokV::Group {
            delim: Delim::Brace,
            tokens: bodies + seq![
                TokV::Ident { text: "_"@, span: 0 },
                TokV::Punct { ch: '=', span: 0 },
                TokV::Punct { ch: '>', span: 0 },
                TokV::Group { delim: Delim::Brace, tokens: Seq::empty(), span: 0 },
                TokV::Punct { ch: ',', span: 0 },
            ],
            span: 0,
        },
        TokV::Punct { ch: ';', span: 0 },
        TokV::Ident { text: "false"@, span: 0 },
    ]
}

/// Builds the dispatch body of one event.
#[verifier::loop_isolation(false)]
pub fn build_event_body(ev: &Event, table: &crate::transitions::Transitions) -> (r: Vec<Token>)
    ensures
        r.deep_view() == sp_event_body(ev.deep_view(), table.deep_view()),
{
    let mut bodies: Vec<Token> = Vec::new();
    let idx = find_event_row(&table.rows, &ev.name.text);
    if idx < table.rows.len() {
        let froms = &table.rows[idx].froms;
        let mut j: usize = 0;
        proof {
            assert(froms.deep_view().take(0) =~= Seq::<FromRowV>::empty());
            assert(bodies.deep_view() =~= Seq::<TokV>::empty());
        }
        while j < froms.len()
            invariant
                j <= froms@.len(),
                froms.deep_view() == table.deep_view().rows[find_event(
                    table.deep_view().rows,
                    ev.name.text@,
                )].froms,
                bodies.deep_view() == sp_cat_from_bodies(
                    froms.deep_view().take(j as int),
                    ev.deep_view(),
                ),
            decreases froms@.len() - j,
        {
            let ghost prefix = froms.deep_view().take(j as int);
            emit_from_body(&mut bodies, &froms[j], ev);
            j = j + 1;
            proof {
                let prefix2 = froms.deep_view().take(j as int);
                assert(prefix2.drop_last() =~= prefix);
                assert(prefix2.last() == froms.deep_view()[j - 1]);
                assert(bodies.deep_view() =~= sp_cat_from_bodies(prefix2, ev.deep_view()));
            }
        }
        proof {
            assert(froms.deep_view().take(froms@.len() as int) =~= froms.deep_view());
        }
    } else {
        proof {
            assert(bodies.deep_view() =~= Seq::<TokV>::empty());
        }
    }
    let ghost bodiesv = bodies.deep_view();
    let mut arms: Vec<Token> = bodies;
    push_ident(&mut arms, "_", 0);
    push_punct(&mut arms, '=', 0);
    push_punct(&mut arms, '>', 0);
    let empty_arm: Vec<Token> = Vec::new();
    push_group(&mut arms, Delim::Brace, empty_arm, 0);
    push_punct(&mut arms, ',', 0);
    proof {
        assert(empty_arm.deep_view() =~= Seq::<TokV>::empty());
        assert(arms.deep_view() =~= bodiesv + seq![
            TokV::Ident { text: "_"@, span: 0 },
            TokV::Punct { ch: '=', span: 0 },
            TokV::Punct { ch: '>', span: 0 },
            TokV::Group { delim: Delim::Brace, tokens: Seq::empty(), span: 0 },
            TokV::Punct { ch: ',', span: 0 },
        ]);
    }
    let mut out: Vec<Token> = Vec::new();
    push_ident(&mut out, "match", 0);
    push_ident(&mut out, "self", 0);
    push_punct(&mut out, '.', 0);
    push_ident(&mut out, "current_state", 0);
    push_group(&mut out, Delim::Brace, arms, 0);
    push_punct(&mut out, ';', 0);
    push_ident(&mut out, "false", 0);
    proof {
        assert(out.deep_view() =~= sp_event_body(ev.deep_view(), table.deep_view()));
    }
    out
}

/// One emitted dispatch function: the event's declared signature
/// over `&mut self`, returning whether a transition fired.
pub open spec fn sp_event_fn(ev: EventV, table: TransitionsV) -> Seq<TokV> {
    sp_attr("allow"@, "unreachable_code"@) + seq![
        TokV::Ident { text: "pub"@, span: 0 },
        TokV::Ident { text: "fn"@, span: 0 },
        TokV::Ident { text: ev.name.text, span: ev.name.span },
        TokV::Group {
            delim: Delim::Paren,
            tokens: seq![
                TokV::Punct { ch: '&', span: 0 },
                TokV::Ident { text: "mut"@, span: 0 },
                TokV::Ident { text: "self"@, span: 0 },
                TokV::Punct { ch: ',', span: 0 },
            ] + sp_field_commas(ev.params),
            span: 0,
        },
        TokV::Punct { ch: '-', span: 0 },
        TokV::Punct { ch: '>', span: 0 },
        TokV::Ident { text: "bool"@, span: 0 },
        TokV::Group { delim: Delim::Brace, tokens: sp_event_body(ev, table), span: 0 },
    ]
}

/// Appends one emitted dispatch function, its body prebuilt.
fn emit_event_fn(out: &mut Vec<Token>, ev: &Event, body: Vec<Token>, Ghost(table): Ghost<TransitionsV>)
    requires
        body.deep_view() == sp_event_body(ev.deep_view(), table),
    ensures
        final(out).deep_view() == old(out).deep_view() + sp_event_fn(ev.deep_view(), table),
{
    push_attr(out, "allow", "unreachable_code");
    push_ident(out, "pub", 0);
    push_ident(out, "fn", 0);
    push_name(out, &ev.name);
    let mut sig: Vec<Token> = Vec::new();
    push_punct(&mut sig, '&', 0);
    push_ident(&mut sig, "mut", 0);
    push_ident(&mut sig, "self", 0);
    push_punct(&mut sig, ',', 0);
    emit_field_commas(&mut sig, &ev.params);
    proof {
        assert(sig.deep_view() =~= seq![
            TokV::Punct { ch: '&', span: 0 },
            TokV::Ident { text: "mut"@, span: 0 },
            TokV::Ident { text: "self"@, span: 0 },
            TokV::Punct { ch: ',', span: 0 },
        ] + sp_field_commas(ev.params.deep_view()));
    }
    push_group(out, Delim::Paren, sig, 0);
    push_punct(out, '-', 0);
    push_punct(out, '>', 0);
    push_ident(out, "bool", 0);
    push_group(out, Delim::Brace, body, 0);
    proof {
        assert(out.deep_view() =~= old(out).deep_view() + sp_event_fn(ev.deep_view(), table));
    }
}

/// All emitted dispatch functions, in declaration order.
pub open spec fn sp_cat_event_fns(events: Seq<EventV>, table: TransitionsV) -> Seq<TokV>
    decreases events.len(),
{
    if events.len() == 0 {
        Seq::empty()
    } else {
        sp_cat_event_fns(events.drop_last(), table) + sp_event_fn(events.last(), table)
    }
}


/// The whole emitted output: a module named after the machine,
/// holding the state union, the discriminant, the machine record,
/// and its impl — the constructor, the handlers, and one dispatch
/// function per event, all in declaration order.
pub open spec fn sp_generate(m: MachineV) -> Seq<TokV> {
    seq![
        TokV::Ident { text: "mod"@, span: 0 },
        TokV::Ident { text: m.name.text, span: m.name.span },
        TokV::Group {
            delim: Delim::Brace,
            tokens: sp_state_enum(m.states) + sp_stateid_enum(m.states) + sp_machine_struct(
                m.states,
            ) + seq![
                TokV::Ident { text: "impl"@, span: 0 },
                TokV::Ident { text: "Machine"@, span: 0 },
                TokV::Group {
                    delim: Delim::Brace,
                    tokens: sp_new_fn(m.states) + sp_cat_handler_fns(m.handlers)
                        + sp_cat_event_fns(m.events, m.transitions),
                    span: 0,
                },
            ],
            span: 0,
        },
    ]
}

/// The intermediate tables the generator works from: the lowercased
/// slot name of every state, the emitted name of every handler, and
/// the prebuilt dispatch body of every event, all in declaration
/// order and each aligned with its source by position.
pub struct Prepared {
    pub state_names: Vec<Name>,
    pub handler_names: Vec<Name>,
    pub event_body: Vec<Vec<Token>>,
}

/// Builds the generator's intermediate tables from the machine
/// description.
#[verifier::loop_isolation(false)]
pub fn prepare(machine: &Machine) -> (r: Prepared)
    ensures
        r.state_names@.len() == machine.states.definition@.len(),
        forall|i: int|
            0 <= i < r.state_names@.len() ==> r.state_names.deep_view()[i] == (NameV {
                text: lower_of(machine.states.definition.deep_view()[i].name.text),
                span: machine.states.definition.deep_view()[i].name.span,
            }),
        r.handler_names@.len() == machine.handlers@.len(),
        forall|i: int|
            0 <= i < r.handler_names@.len() ==> r.handler_names.deep_view()[i] == (NameV {
                text: "handle_"@ + machine.handlers.deep_view()[i].name.text,
                span: machine.handlers.deep_view()[i].name.span,
            }),
        r.event_body@.len() == machine.events@.len(),
        forall|i: int|
            0 <= i < r.event_body@.len() ==> r.event_body.deep_view()[i] == sp_event_body(
                machine.events.deep_view()[i],
                machine.transitions.deep_view(),
            ),
{
    let mut state_names: Vec<Name> = Vec::new();
    let mut i: usize = 0;
    while i < machine.states.definition.len()
        invariant
            i <= machine.states.definition@.len(),
            state_names@.len() == i as int,
            forall|k: int|
                0 <= k < i as int ==> state_names.deep_view()[k] == (NameV {
                    text: lower_of(machine.states.definition.deep_view()[k].name.text),
                    span: machine.states.definition.deep_view()[k].name.span,
                }),
        decreases machine.states.definition@.len() - i,
    {
        let ghost prev = state_names.deep_view();
        let n = as_name(&machine.states.definition[i].name);
        state_names.push(n);
        i = i + 1;
        proof {
            assert(state_names.deep_view() =~= prev.push(n.deep_view()));
        }
    }
    let mut handler_names: Vec<Name> = Vec::new();
    let mut i: usize = 0;
    while i < machine.handlers.len()
        invariant
            i <= machine.handlers@.len(),
            handler_names@.len() == i as int,
            forall|k: int|
                0 <= k < i as int ==> handler_names.deep_view()[k] == (NameV {
                    text: "handle_"@ + machine.handlers.deep_view()[k].name.text,
                    span: machine.handlers.deep_view()[k].name.span,
                }),
        decreases machine.handlers@.len() - i,
    {
        let h = &machine.handlers[i];
        let mut s: String = "handle_".to_owned();
        s.append(h.name.text.as_str());
        proof {
            assert(s@ == "handle_"@ + machine.handlers.deep_view()[i as int].name.text);
        }
        let ghost prev = handler_names.deep_view();
        let hn = Name { text: s, span: h.name.span };
        handler_names.push(hn);
        i = i + 1;
        proof {
            assert(handler_names.deep_view() =~= prev.push(hn.deep_view()));
            assert(handler_names.deep_view()[i - 1] == (NameV {
                text: "handle_"@ + machine.handlers.deep_view()[i - 1].name.text,
                span: machine.handlers.deep_view()[i - 1].name.span,
            }));
        }
    }
    let mut event_body: Vec<Vec<Token>> = Vec::new();
    let mut i: usize = 0;
    while i < machine.events.len()
        invariant
            i <= machine.events@.len(),
            event_body@.len() == i as int,
            forall|k: int|
                0 <= k < i as int ==> event_body.deep_view()[k] == sp_event_body(
                    machine.events.deep_view()[k],
                    machine.transitions.deep_view(),
                ),
        decreases machine.events@.len() - i,
    {
        let b = build_event_body(&machine.events[i], &machine.transitions);
        let ghost prev = event_body.deep_view();
        let ghost bv = b.deep_view();
        event_body.push(b);
        i = i + 1;
        proof {
            assert(event_body.deep_view() =~= prev.push(bv));
            assert(event_body.deep_view()[i - 1] == sp_event_body(
                machine.events.deep_view()[i - 1],
                machine.transitions.deep_view(),
            ));
        }
    }
    Prepared { state_names, handler_names, event_body }
}

/// Turns a machine description into the token tree of its runtime.
/// Total and deterministic: the output is a function of the
/// description alone.
#[verifier::loop_isolation(false)]
pub fn generate(machine: Machine) -> (r: Vec<Token>)
    ensures
        r.deep_view() == sp_generate(machine.deep_view()),
{
    let prepared = prepare(&machine);
    let mut event_bodies = prepared.event_body;
    let ghost all_bodies = event_bodies.deep_view();

    let mut inner: Vec<Token> = Vec::new();
    emit_state_enum(&mut inner, &machine.states);
    emit_stateid_enum(&mut inner, &machine.states);
    emit_machine_struct(&mut inner, &machine.states);

    let mut impl_body: Vec<Token> = Vec::new();
    emit_new_fn(&mut impl_body, &machine.states);
    let ghost after_new = impl_body.deep_view();
    let mut i: usize = 0;
    proof {
        assert(machine.handlers.deep_view().take(0) =~= Seq::<HandlerV>::empty());
        assert(after_new + sp_cat_handler_fns(machine.handlers.deep_view().take(0))
            =~= after_new);
    }
    while i < machine.handlers.len()
        invariant
            i <= machine.handlers@.len(),
            impl_body.deep_view() == after_new + sp_cat_handler_fns(
                machine.handlers.deep_view().take(i as int),
            ),
        decreases machine.handlers@.len() - i,
    {
        let ghost prefix = machine.handlers.deep_view().take(i as int);
        emit_handler_fn(&mut impl_body, &machine.handlers[i]);
        i = i + 1;
        proof {
            let prefix2 = machine.handlers.deep_view().take(i as int);
            assert(prefix2.drop_last() =~= prefix);
            assert(prefix2.last() == machine.handlers.deep_view()[i - 1]);
            assert(impl_body.deep_view() =~= after_new + sp_cat_handler_fns(prefix2));
        }
    }
    proof {
        assert(machine.handlers.deep_view().take(machine.handlers@.len() as int)
            =~= machine.handlers.deep_view());
    }
    let ghost after_handlers = impl_body.deep_view();
    let mut i: usize = 0;
    proof {
        assert(machine.events.deep_view().take(0) =~= Seq::<EventV>::empty());
        assert(after_handlers + sp_cat_event_fns(
            machine.events.deep_view().take(0),
            machine.transitions.deep_view(),
        ) =~= after_handlers);
    }
    while i < machine.events.len()
        invariant
            i <= machine.events@.len(),
            machine.events@.len() == all_bodies.len(),
            event_bodies.deep_view() == all_bodies.skip(i as int),
            forall|k: int|
                0 <= k < all_bodies.len() ==> all_bodies[k] == sp_event_body(
                    machine.events.deep_view()[k],
                    machine.transitions.deep_view(),
                ),
            impl_body.deep_view() == after_handlers + sp_cat_event_fns(
                machine.events.deep_view().take(i as int),
                machine.transitions.deep_view(),
            ),
        decreases machine.events@.len() - i,
    {
        let ghost prefix = machine.events.deep_view().take(i as int);
        let ghost remaining = event_bodies.deep_view();
        let ghost rem_sh = event_bodies@;
        let body = event_bodies.remove(0);
        proof {
            assert(body == rem_sh[0]);
            assert(body.deep_view() == remaining[0]);
            assert(remaining[0] == all_bodies.skip(i as int)[0]);
            assert(body.deep_view() == all_bodies[i as int]);
            assert(event_bodies@ =~= rem_sh.remove(0));
            assert forall|k: int| 0 <= k < event_bodies@.len() implies event_bodies.deep_view()[k]
                == all_bodies.skip(i as int + 1)[k] by {
                assert(event_bodies@[k] == rem_sh[k + 1]);
                assert(event_bodies.deep_view()[k] == remaining[k + 1]);
            }
            assert(event_bodies.deep_view() =~= all_bodies.skip(i as int + 1));
        }
        emit_event_fn(
            &mut impl_body,
            &machine.events[i],
            body,
            Ghost(machine.transitions.deep_view()),
        );
        i = i + 1;
        proof {
            let prefix2 = machine.events.deep_view().take(i as int);
            assert(prefix2.drop_last() =~= prefix);
            assert(prefix2.last() == machine.events.deep_view()[i - 1]);
            assert(impl_body.deep_view() =~= after_handlers + sp_cat_event_fns(
                prefix2,
                machine.transitions.deep_view(),
            ));
        }
    }
    proof {
        assert(machine.events.deep_view().take(machine.events@.len() as int)
            =~= machine.events.deep_view());
    }
    push_ident(&mut inner, "impl", 0);
    push_ident(&mut inner, "Machine", 0);
    push_group(&mut inner, Delim::Brace, impl_body, 0);
    proof {
        assert(inner.deep_view() =~= sp_generate(machine.deep_view())[2]->Group_tokens);
    }
    let mut out: Vec<Token> = Vec::new();
    push_ident(&mut out, "mod", 0);
    push_name(&mut out, &machine.name);
    push_group(&mut out, Delim::Brace, inner, 0);
    proof {
        assert(out.deep_view() =~= sp_generate(machine.deep_view()));
    }
    out
}

} // verus!
