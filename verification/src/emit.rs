//! Building token trees for generated code: each builder adds tokens to the
//! end of a sequence and says exactly which, as token models.
use vstd::prelude::*;
use vstd::string::StringExecFns;
use crate::tokens::{Tok, TokModel, Delim, tok_model, toks_model, lemma_toks_model_push};

verus! {

/// An identifier token with the text `s`.
pub open spec fn id(s: Seq<char>) -> TokModel {
    TokModel::Ident(s)
}

/// A punctuation token `c` that stands alone.
pub open spec fn pa(c: char) -> TokModel {
    TokModel::Punct(c, false)
}

/// A punctuation token `c` joined to the next one (the first character of
/// `::`, `->`, `=>`, `||` and the like).
pub open spec fn pj(c: char) -> TokModel {
    TokModel::Punct(c, true)
}

/// A literal token written `s`.
pub open spec fn lit(s: Seq<char>) -> TokModel {
    TokModel::Literal(s)
}

/// A group with delimiter `d` around `inner`.
pub open spec fn grp(d: Delim, inner: Seq<TokModel>) -> TokModel {
    TokModel::Group(d, inner)
}

/// Adds one token.
pub fn push_tok(out: &mut Vec<Tok>, t: Tok)
    ensures
        toks_model(final(out)@) == toks_model(old(out)@).push(tok_model(t)),
{
    let ghost before = out@;
    out.push(t);
    proof { lemma_toks_model_push(before, t); }
}

/// Adds the identifier `s`.
pub fn push_ident(out: &mut Vec<Tok>, s: &str)
    ensures
        toks_model(final(out)@) == toks_model(old(out)@).push(id(s@)),
{
    push_tok(out, Tok::Ident(String::from_str(s)));
}

/// Adds the punctuation `c`, joined to the next token or not.
pub fn push_punct(out: &mut Vec<Tok>, c: char, joint: bool)
    ensures
        toks_model(final(out)@) == toks_model(old(out)@).push(TokModel::Punct(c, joint)),
{
    push_tok(out, Tok::Punct(c, joint));
}

/// Adds the literal written `s`.
pub fn push_literal(out: &mut Vec<Tok>, s: &str)
    ensures
        toks_model(final(out)@) == toks_model(old(out)@).push(lit(s@)),
{
    push_tok(out, Tok::Literal(String::from_str(s)));
}

/// Adds a group with delimiter `d` around `inner`.
pub fn push_group(out: &mut Vec<Tok>, d: Delim, inner: Vec<Tok>)
    ensures
        toks_model(final(out)@) == toks_model(old(out)@).push(grp(d, toks_model(inner@))),
{
    push_tok(out, Tok::Group(d, inner));
}

/// Adds all of `v`, in order.
pub fn push_all(out: &mut Vec<Tok>, v: Vec<Tok>)
    ensures
        toks_model(final(out)@) == toks_model(old(out)@) + toks_model(v@),
{
    let mut v = v;
    let ghost o0 = toks_model(out@);
    let ghost v0 = toks_model(v@);
    assert(toks_model(out@) + toks_model(v@) =~= o0 + v0);
    while v.len() > 0
        invariant
            toks_model(out@) + toks_model(v@) == o0 + v0,
        decreases v.len(),
    {
        let ghost before = v@;
        let ghost prev = toks_model(out@);
        let t = v.remove(0);
        assert(v@ =~= before.drop_first());
        push_tok(out, t);
        assert(toks_model(before) == seq![tok_model(t)] + toks_model(v@));
        assert(toks_model(out@) + toks_model(v@) =~= prev + toks_model(before));
    }
    assert(toks_model(v@) =~= Seq::<TokModel>::empty());
    assert(toks_model(out@) =~= toks_model(out@) + toks_model(v@));
}

/// A copy of a token tree.
pub fn copy_tok(t: &Tok) -> (r: Tok)
    ensures
        tok_model(r) == tok_model(*t),
    decreases t,
{
    match t {
        Tok::Ident(s) => Tok::Ident(s.clone()),
        Tok::Punct(c, j) => Tok::Punct(*c, *j),
        Tok::Literal(s) => Tok::Literal(s.clone()),
        Tok::Group(d, v) => {
            proof { vstd::std_specs::vec::axiom_vec_decreases_to_view(*v); }
            Tok::Group(*d, copy_toks(v))
        },
    }
}

/// A copy of a token sequence.
pub fn copy_toks(v: &Vec<Tok>) -> (r: Vec<Tok>)
    ensures
        toks_model(r@) == toks_model(v@),
    decreases v,
{
    proof { vstd::std_specs::vec::axiom_vec_decreases_to_view(*v); }
    let mut out: Vec<Tok> = Vec::new();
    let mut i: usize = 0;
    assert(v@.take(0) =~= Seq::<Tok>::empty());
    assert(toks_model(out@) =~= Seq::<TokModel>::empty());
    while i < v.len()
        invariant
            i <= v@.len(),
            toks_model(out@) == toks_model(v@.take(i as int)),
            decreases_to!(v => v@),
        decreases v@.len() - i,
    {
        assert(decreases_to!(v => v@[i as int]));
        let t = copy_tok(&v[i]);
        let ghost prev = out@;
        push_tok(&mut out, t);
        proof {
            assert(v@.take(i + 1) =~= v@.take(i as int).push(v@[i as int]));
            lemma_toks_model_push(v@.take(i as int), v@[i as int]);
        }
        i += 1;
    }
    assert(v@.take(i as int) =~= v@);
    out
}

} // verus!
