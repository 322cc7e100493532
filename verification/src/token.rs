//! The token model of the compiler.
//!
//! The host toolchain hands the compiler a pre-tokenized stream; this
//! module is its shape inside the library: identifiers, punctuation,
//! literal bodies and delimited groups, each tagged with an opaque
//! source position. The same shape carries the generated output back
//! out.

use vstd::prelude::*;

verus! {

broadcast use vstd::seq::axiom_seq_index_decreases, vstd::seq::axiom_seq_subrange_decreases, vstd::std_specs::vec::axiom_vec_decreases_to_view;

/// The three delimiter kinds a token group can carry.
#[derive(Clone, Copy, PartialEq, Eq, Structural, Debug)]
pub enum Delim {
    Brace,
    Paren,
    Bracket,
}

/// One node of a token tree. `span` is an opaque source-position tag,
/// assigned by whoever produced the stream and carried through into
/// diagnostics; the compiler never interprets it.
#[derive(Debug, PartialEq)]
pub enum Token {
    Ident { text: String, span: u32 },
    Punct { ch: char, span: u32 },
    Literal { text: String, span: u32 },
    Group { delim: Delim, tokens: Vec<Token>, span: u32 },
}

/// The mathematical shape of a token: strings become character
/// sequences, group contents become sequences of token shapes.
#[verifier::ext_equal]
pub enum TokV {
    Ident { text: Seq<char>, span: u32 },
    Punct { ch: char, span: u32 },
    Literal { text: Seq<char>, span: u32 },
    Group { delim: Delim, tokens: Seq<TokV>, span: u32 },
}

/// The shape of one token.
pub open spec fn tok_view(t: Token) -> TokV
    decreases t, 0int,
{
    match t {
        Token::Ident { text, span } => TokV::Ident { text: text@, span },
        Token::Punct { ch, span } => TokV::Punct { ch, span },
        Token::Literal { text, span } => TokV::Literal { text: text@, span },
        Token::Group { delim, tokens, span } => TokV::Group {
            delim,
            tokens: toks_view(tokens@),
            span,
        },
    }
}

/// The shape of a token sequence, element by element.
pub open spec fn toks_view(s: Seq<Token>) -> Seq<TokV>
    decreases s, s.len(),
{
    if s.len() == 0 {
        Seq::empty()
    } else {
        seq![tok_view(s[0])] + toks_view(s.subrange(1, s.len() as int))
    }
}

/// `toks_view` is the element-by-element image of `tok_view`.
pub proof fn lemma_toks_view(s: Seq<Token>)
    ensures
        toks_view(s).len() == s.len(),
        forall|i: int| 0 <= i < s.len() ==> toks_view(s)[i] == tok_view(s[i]),
    decreases s.len(),
{
    if s.len() > 0 {
        lemma_toks_view(s.subrange(1, s.len() as int));
    }
}

/// The deep view of a token vector is `toks_view` of its sequence.
pub broadcast proof fn lemma_deep_view_is_toks_view(v: Vec<Token>)
    ensures
        #[trigger] v.deep_view() == toks_view(v@),
{
    lemma_toks_view(v@);
    assert(v.deep_view() =~= toks_view(v@));
}

/// An identifier with its source position.
#[derive(Debug, PartialEq)]
pub struct Name {
    pub text: String,
    pub span: u32,
}

/// The mathematical shape of an identifier.
pub struct NameV {
    pub text: Seq<char>,
    pub span: u32,
}

impl DeepView for Name {
    type V = NameV;

    open spec fn deep_view(&self) -> NameV {
        NameV { text: self.text@, span: self.span }
    }
}

impl Name {
    /// An exact copy.
    pub fn copy(&self) -> (r: Name)
        ensures
            r.deep_view() == self.deep_view(),
    {
        Name { text: self.text.clone(), span: self.span }
    }
}

/// Whether a token is the identifier spelled `s`.
pub open spec fn is_ident(t: TokV, s: Seq<char>) -> bool {
    t matches TokV::Ident { text, .. } && text == s
}

/// Whether a token is the punctuation character `c`.
pub open spec fn is_punct(t: TokV, c: char) -> bool {
    t matches TokV::Punct { ch, .. } && ch == c
}

/// The source position of a token shape.
pub open spec fn span_of(t: TokV) -> u32 {
    match t {
        TokV::Ident { span, .. } => span,
        TokV::Punct { span, .. } => span,
        TokV::Literal { span, .. } => span,
        TokV::Group { span, .. } => span,
    }
}

/// The source position of a token.
pub fn tok_span(t: &Token) -> (r: u32)
    ensures
        r == span_of(t.deep_view()),
{
    match t {
        Token::Ident { span, .. } => *span,
        Token::Punct { span, .. } => *span,
        Token::Literal { span, .. } => *span,
        Token::Group { span, .. } => *span,
    }
}

/// Whether `t` is the identifier spelled like `kw`.
pub fn tok_is_ident(t: &Token, kw: &String) -> (r: bool)
    ensures
        r == is_ident(t.deep_view(), kw@),
{
    match t {
        Token::Ident { text, .. } => str_eq(text, kw),
        _ => false,
    }
}

/// Whether `t` is the punctuation character `c`.
pub fn tok_is_punct(t: &Token, c: char) -> (r: bool)
    ensures
        r == is_punct(t.deep_view(), c),
{
    match t {
        Token::Punct { ch, .. } => *ch == c,
        _ => false,
    }
}

impl DeepView for Token {
    type V = TokV;

    open spec fn deep_view(&self) -> TokV {
        tok_view(*self)
    }
}

impl View for Token {
    type V = TokV;

    open spec fn view(&self) -> TokV {
        tok_view(*self)
    }
}

/// String equality, stated over the character sequences.
pub fn str_eq(a: &String, b: &String) -> (r: bool)
    ensures
        r == (a@ == b@),
{
    *a == *b
}

/// An exact copy of a token tree.
#[verifier::loop_isolation(false)]
pub fn copy_token(t: &Token) -> (r: Token)
    ensures
        tok_view(r) == tok_view(*t),
    decreases t,
{
    match t {
        Token::Ident { text, span } => Token::Ident { text: text.clone(), span: *span },
        Token::Punct { ch, span } => Token::Punct { ch: *ch, span: *span },
        Token::Literal { text, span } => Token::Literal { text: text.clone(), span: *span },
        Token::Group { delim, tokens, span } => {
            let mut copied: Vec<Token> = Vec::new();
            let mut i: usize = 0;
            while i < tokens.len()
                invariant
                    i <= tokens.len(),
                    copied@.len() == i as int,
                    forall|j: int|
                        0 <= j < i as int ==> tok_view(copied@[j]) == tok_view(tokens@[j]),
                decreases tokens.len() - i,
            {
                proof {
                    assert(decreases_to!(*t => *tokens));
                    assert(decreases_to!(*tokens => tokens@[i as int]));
                }
                copied.push(copy_token(&tokens[i]));
                i = i + 1;
            }
            proof {
                lemma_toks_view(copied@);
                lemma_toks_view(tokens@);
                assert(toks_view(copied@) =~= toks_view(tokens@));
            }
            Token::Group { delim: *delim, tokens: copied, span: *span }
        },
    }
}

/// An exact copy of the tokens from position `from` up to `to`.
#[verifier::loop_isolation(false)]
pub fn copy_range(v: &Vec<Token>, from: usize, to: usize) -> (r: Vec<Token>)
    requires
        from <= to <= v@.len(),
    ensures
        r.deep_view() == v.deep_view().subrange(from as int, to as int),
{
    let mut copied: Vec<Token> = Vec::new();
    let mut i: usize = from;
    while i < to
        invariant
            from <= i <= to,
            copied@.len() == i - from,
            forall|j: int| 0 <= j < i - from ==> tok_view(copied@[j]) == tok_view(v@[from + j]),
        decreases to - i,
    {
        copied.push(copy_token(&v[i]));
        i = i + 1;
    }
    proof {
        assert(copied.deep_view() =~= v.deep_view().subrange(from as int, to as int));
    }
    copied
}

/// Appends an identifier token spelled like `text`.
pub fn push_ident(out: &mut Vec<Token>, text: &str, span: u32)
    ensures
        final(out).deep_view() == old(out).deep_view() + seq![TokV::Ident { text: text@, span }],
{
    out.push(Token::Ident { text: text.to_owned(), span });
    proof {
        assert(out.deep_view() =~= old(out).deep_view() + seq![
            TokV::Ident { text: text@, span },
        ]);
    }
}

/// Appends a punctuation token.
pub fn push_punct(out: &mut Vec<Token>, ch: char, span: u32)
    ensures
        final(out).deep_view() == old(out).deep_view() + seq![TokV::Punct { ch, span }],
{
    out.push(Token::Punct { ch, span });
    proof {
        assert(out.deep_view() =~= old(out).deep_view() + seq![TokV::Punct { ch, span }]);
    }
}

/// The shape of a `::` path separator with synthesized positions.
pub open spec fn sp_path_sep() -> Seq<TokV> {
    seq![TokV::Punct { ch: ':', span: 0 }, TokV::Punct { ch: ':', span: 0 }]
}

/// Appends a `::` path separator with synthesized positions.
pub fn push_path_sep(out: &mut Vec<Token>)
    ensures
        final(out).deep_view() == old(out).deep_view() + sp_path_sep(),
{
    push_punct(out, ':', 0);
    push_punct(out, ':', 0);
    proof {
        assert(out.deep_view() =~= old(out).deep_view() + sp_path_sep());
    }
}

/// Appends the identifier a `Name` holds, keeping its position.
pub fn push_name(out: &mut Vec<Token>, n: &Name)
    ensures
        final(out).deep_view() == old(out).deep_view() + seq![
            TokV::Ident { text: n.text@, span: n.span },
        ],
{
    out.push(Token::Ident { text: n.text.clone(), span: n.span });
    proof {
        assert(out.deep_view() =~= old(out).deep_view() + seq![
            TokV::Ident { text: n.text@, span: n.span },
        ]);
    }
}

/// Appends a copy of every token of `v`.
#[verifier::loop_isolation(false)]
pub fn push_tokens(out: &mut Vec<Token>, v: &Vec<Token>)
    ensures
        final(out).deep_view() == old(out).deep_view() + v.deep_view(),
{
    let mut i: usize = 0;
    while i < v.len()
        invariant
            i <= v@.len(),
            out.deep_view() == old(out).deep_view() + v.deep_view().subrange(0, i as int),
        decreases v@.len() - i,
    {
        let ghost prev = out.deep_view();
        out.push(copy_token(&v[i]));
        i = i + 1;
        proof {
            assert(out.deep_view() =~= prev + seq![tok_view(v@[i - 1])]);
            assert(out.deep_view() =~= old(out).deep_view() + v.deep_view().subrange(
                0,
                i as int,
            ));
        }
    }
    proof {
        assert(v.deep_view().subrange(0, v@.len() as int) =~= v.deep_view());
    }
}

/// Appends a group token holding `tokens`.
pub fn push_group(out: &mut Vec<Token>, delim: Delim, tokens: Vec<Token>, span: u32)
    ensures
        final(out).deep_view() == old(out).deep_view() + seq![
            TokV::Group { delim, tokens: tokens.deep_view(), span },
        ],
{
    let ghost inner = tokens.deep_view();
    proof {
        lemma_deep_view_is_toks_view(tokens);
    }
    out.push(Token::Group { delim, tokens, span });
    proof {
        assert(out.deep_view() =~= old(out).deep_view() + seq![
            TokV::Group { delim, tokens: inner, span },
        ]);
    }
}

} // verus!
