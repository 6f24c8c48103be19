//! Name rules and code-shape decisions of the `store!` front end.
use vstd::prelude::*;
use std::collections::VecDeque;
use crate::tokens::{
    Tok, TokModel, tok_model, toks_model, lemma_toks_model_push, text_eq, punct_at, cursor_of,
};
use crate::store_parse::{TypedState, TypedTransition, StateModel, TransitionModel, states_model, transitions_model};
use crate::text::{
    is_ascii_char, is_ascii_lower, is_ascii_upper, concat_text, chars_of, uppercase_of, lowercase_of, is_uppercase, string_from_chars, upper_mapping,
    lower_mapping, uppercase_property,
};

verus! {

/// PascalCase as the store front end forms it: `_` is dropped and marks the
/// next character, which is replaced by the first character of its uppercase
/// mapping; the first character of the name is marked too.
pub open spec fn store_pascal_case(s: Seq<char>, at_piece_start: bool) -> Seq<char>
    decreases s.len(),
{
    if s.len() == 0 {
        Seq::empty()
    } else if s[0] == '_' {
        store_pascal_case(s.drop_first(), true)
    } else if at_piece_start {
        seq![upper_mapping(s[0])[0]] + store_pascal_case(s.drop_first(), false)
    } else {
        seq![s[0]] + store_pascal_case(s.drop_first(), false)
    }
}

/// snake_case of a PascalCase name: every uppercase character becomes the first
/// character of its lowercase mapping, preceded by `_` unless it is the first
/// character of the name; other characters are kept.
pub open spec fn snake_case(s: Seq<char>, at_name_start: bool) -> Seq<char>
    decreases s.len(),
{
    if s.len() == 0 {
        Seq::empty()
    } else if uppercase_property(s[0]) {
        (if at_name_start { Seq::empty() } else { seq!['_'] }) + seq![lower_mapping(s[0])[0]]
            + snake_case(s.drop_first(), false)
    } else {
        seq![s[0]] + snake_case(s.drop_first(), false)
    }
}

/// Every character is ASCII.
pub open spec fn ascii_text(s: Seq<char>) -> bool {
    forall|i: int| 0 <= i < s.len() ==> is_ascii_char(#[trigger] s[i])
}

/// No character is uppercase.
pub open spec fn no_uppercase(s: Seq<char>) -> bool {
    forall|i: int| 0 <= i < s.len() ==> !uppercase_property(#[trigger] s[i])
}

/// ASCII text in which every `_` is followed by a lowercase ASCII letter,
/// with no uppercase letter.
pub open spec fn snake_tail(s: Seq<char>) -> bool {
    &&& ascii_text(s)
    &&& no_uppercase(s)
    &&& forall|i: int| 0 <= i < s.len() && #[trigger] s[i] == '_' ==> i + 1 < s.len() && is_ascii_lower(s[i + 1])
}

/// A snake_case name of ASCII characters (such as `mark_in_doubt`): no
/// uppercase letter, no `_` at the front, and each `_` followed by a
/// lowercase letter.
pub open spec fn ascii_snake_name(s: Seq<char>) -> bool {
    snake_tail(s) && (s.len() > 0 ==> s[0] != '_')
}

proof fn lemma_case_round_trip_char(c: char)
    ensures
        is_ascii_upper(c) ==> upper_mapping(lower_mapping(c)[0])[0] == c,
        is_ascii_upper(c) ==> is_ascii_lower(lower_mapping(c)[0]),
        is_ascii_lower(c) ==> lower_mapping(upper_mapping(c)[0])[0] == c,
        is_ascii_lower(c) ==> is_ascii_upper(upper_mapping(c)[0]) && uppercase_property(upper_mapping(c)[0]),
        is_ascii_char(c) && !is_ascii_lower(c) ==> upper_mapping(c) == seq![c],
        is_ascii_char(c) && !is_ascii_upper(c) ==> lower_mapping(c) == seq![c],
        is_ascii_char(c) ==> upper_mapping(c).len() == 1 && is_ascii_char(upper_mapping(c)[0]),
        is_ascii_char(c) ==> is_ascii_char(lower_mapping(c)[0]) && !uppercase_property(lower_mapping(c)[0]),
        is_ascii_lower(c) ==> !uppercase_property(c),
        is_ascii_upper(c) ==> uppercase_property(c),
{
    if is_ascii_upper(c) {
        let l = ((c as u32) + 32) as char;
        assert(l as u32 == (c as u32) + 32);
        assert(is_ascii_lower(l));
        assert((((l as u32) - 32) as char) == c);
    }
    if is_ascii_lower(c) {
        let u = ((c as u32) - 32) as char;
        assert(u as u32 == (c as u32) - 32);
        assert(is_ascii_upper(u));
        assert((((u as u32) + 32) as char) == c);
    }
}

proof fn lemma_tail_facts(s: Seq<char>)
    requires
        s.len() > 0,
    ensures
        ascii_text(s) ==> ascii_text(s.drop_first()) && is_ascii_char(s[0]),
        no_uppercase(s) ==> no_uppercase(s.drop_first()) && !uppercase_property(s[0]),
        snake_tail(s) ==> snake_tail(s.drop_first()),
{
    let r = s.drop_first();
    assert forall|i: int| 0 <= i < r.len() implies #[trigger] r[i] == s[i + 1] by {}
    if ascii_text(s) {
        assert(is_ascii_char(s[0]));
        assert forall|i: int| 0 <= i < r.len() implies is_ascii_char(#[trigger] r[i]) by {
            assert(is_ascii_char(s[i + 1]));
        }
    }
    if no_uppercase(s) {
        assert(!uppercase_property(s[0]));
        assert forall|i: int| 0 <= i < r.len() implies !uppercase_property(#[trigger] r[i]) by {
            assert(!uppercase_property(s[i + 1]));
        }
    }
    if snake_tail(s) {
        assert forall|i: int| 0 <= i < r.len() && #[trigger] r[i] == '_' implies i + 1 < r.len() && is_ascii_lower(r[i + 1]) by {
            assert(s[i + 1] == '_');
            assert(r[i + 1] == s[i + 2]);
        }
    }
}

proof fn lemma_snake_case_output(s: Seq<char>, b: bool)
    requires
        ascii_text(s),
    ensures
        ascii_text(snake_case(s, b)),
        no_uppercase(snake_case(s, b)),
    decreases s.len(),
{
    if s.len() > 0 {
        lemma_tail_facts(s);
        lemma_snake_case_output(s.drop_first(), false);
        lemma_case_round_trip_char(s[0]);
        let r = snake_case(s.drop_first(), false);
        let h: Seq<char> = if uppercase_property(s[0]) {
            (if b { Seq::empty() } else { seq!['_'] }) + seq![lower_mapping(s[0])[0]]
        } else {
            seq![s[0]]
        };
        assert(snake_case(s, b) =~= h + r);
        assert forall|i: int| 0 <= i < (h + r).len() implies is_ascii_char(#[trigger] (h + r)[i]) && !uppercase_property((h + r)[i]) by {
            if i >= h.len() {
                assert((h + r)[i] == r[i - h.len()]);
            }
        }
    }
}

/// snake_case leaves a name without uppercase letters as it is (`in_flight`
/// stays `in_flight`).
pub proof fn law_snake_case_keeps_names_without_uppercase(s: Seq<char>, b: bool)
    requires
        no_uppercase(s),
    ensures
        snake_case(s, b) == s,
    decreases s.len(),
{
    if s.len() > 0 {
        lemma_tail_facts(s);
        law_snake_case_keeps_names_without_uppercase(s.drop_first(), false);
        assert(s =~= seq![s[0]] + s.drop_first());
    }
}

/// snake_case is idempotent on ASCII text: applied to its own result it
/// changes nothing.
pub proof fn law_snake_case_is_idempotent(s: Seq<char>)
    requires
        ascii_text(s),
    ensures
        snake_case(snake_case(s, true), true) == snake_case(s, true),
{
    lemma_snake_case_output(s, true);
    law_snake_case_keeps_names_without_uppercase(snake_case(s, true), true);
}

/// The two PascalCase rules, the store front end's (first character of the
/// uppercase mapping) and the machine front end's (the whole mapping), agree
/// on ASCII text.
pub proof fn law_pascal_case_rules_agree(s: Seq<char>, b: bool)
    requires
        ascii_text(s),
    ensures
        crate::machine_codegen::pascal_case(s, b) == store_pascal_case(s, b),
    decreases s.len(),
{
    if s.len() > 0 {
        lemma_tail_facts(s);
        lemma_case_round_trip_char(s[0]);
        law_pascal_case_rules_agree(s.drop_first(), true);
        law_pascal_case_rules_agree(s.drop_first(), false);
        assert(upper_mapping(s[0]) =~= seq![upper_mapping(s[0])[0]]);
    }
}

proof fn lemma_pascal_of_snake_inner(s: Seq<char>)
    requires
        ascii_text(s),
        !s.contains('_'),
    ensures
        store_pascal_case(snake_case(s, false), false) == s,
    decreases s.len(),
{
    if s.len() > 0 {
        let c = s[0];
        let rest = s.drop_first();
        lemma_tail_facts(s);
        assert(!rest.contains('_')) by {
            if rest.contains('_') {
                let i = choose|i: int| 0 <= i < rest.len() && rest[i] == '_';
                assert(s[i + 1] == '_');
            }
        }
        assert(c != '_') by {
            assert(s[0] == c);
        }
        lemma_pascal_of_snake_inner(rest);
        lemma_case_round_trip_char(c);
        let r = snake_case(rest, false);
        if is_ascii_upper(c) {
            let l = lower_mapping(c)[0];
            let t = seq!['_'] + seq![l] + r;
            assert(snake_case(s, false) =~= t);
            assert(t.drop_first() =~= seq![l] + r);
            assert((seq![l] + r).drop_first() =~= r);
            assert(store_pascal_case(t, false) == store_pascal_case(seq![l] + r, true));
            assert(l != '_');
            assert(store_pascal_case(seq![l] + r, true) =~= seq![c] + rest);
        } else {
            assert(snake_case(s, false) =~= seq![c] + r);
            assert((seq![c] + r).drop_first() =~= r);
            assert(store_pascal_case(seq![c] + r, false) =~= seq![c] + rest);
        }
        assert(s =~= seq![c] + rest);
    }
}

/// An ASCII name without `_` that does not start with a lowercase letter
/// (such as a state name, `InFlight`) is given back by the PascalCase rule
/// from its snake_case form (`in_flight`).
pub proof fn law_pascal_of_snake(s: Seq<char>)
    requires
        ascii_text(s),
        !s.contains('_'),
        s.len() > 0 ==> !is_ascii_lower(s[0]),
    ensures
        store_pascal_case(snake_case(s, true), true) == s,
{
    if s.len() > 0 {
        let c = s[0];
        let rest = s.drop_first();
        lemma_tail_facts(s);
        assert(!rest.contains('_')) by {
            if rest.contains('_') {
                let i = choose|i: int| 0 <= i < rest.len() && rest[i] == '_';
                assert(s[i + 1] == '_');
            }
        }
        assert(c != '_') by {
            assert(s[0] == c);
        }
        lemma_pascal_of_snake_inner(rest);
        lemma_case_round_trip_char(c);
        let r = snake_case(rest, false);
        if is_ascii_upper(c) {
            let l = lower_mapping(c)[0];
            assert(snake_case(s, true) =~= seq![l] + r);
            assert((seq![l] + r).drop_first() =~= r);
            assert(l != '_');
            assert(store_pascal_case(seq![l] + r, true) =~= seq![c] + rest);
        } else {
            assert(snake_case(s, true) =~= seq![c] + r);
            assert((seq![c] + r).drop_first() =~= r);
            assert(store_pascal_case(seq![c] + r, true) =~= seq![c] + rest);
        }
        assert(s =~= seq![c] + rest);
    }
}

proof fn lemma_snake_of_pascal_inner(s: Seq<char>)
    requires
        snake_tail(s),
    ensures
        snake_case(store_pascal_case(s, false), false) == s,
    decreases s.len(),
{
    if s.len() > 0 {
        let c = s[0];
        lemma_tail_facts(s);
        if c == '_' {
            let t = s.drop_first();
            assert(is_ascii_lower(s[1]));
            assert(t[0] == s[1]);
            lemma_tail_facts(t);
            let rest = t.drop_first();
            lemma_snake_of_pascal_inner(rest);
            lemma_case_round_trip_char(s[1]);
            let u = upper_mapping(s[1])[0];
            let p = store_pascal_case(rest, false);
            assert(store_pascal_case(s, false) == store_pascal_case(t, true));
            assert(store_pascal_case(t, true) =~= seq![u] + p);
            assert((seq![u] + p).drop_first() =~= p);
            assert(snake_case(seq![u] + p, false) =~= seq!['_'] + seq![s[1]] + snake_case(p, false));
            assert(s =~= seq!['_'] + seq![s[1]] + rest) by {
                assert(t =~= seq![t[0]] + rest);
            }
        } else {
            let rest = s.drop_first();
            lemma_snake_of_pascal_inner(rest);
            let p = store_pascal_case(rest, false);
            assert(store_pascal_case(s, false) =~= seq![c] + p);
            assert((seq![c] + p).drop_first() =~= p);
            assert(snake_case(seq![c] + p, false) =~= seq![c] + snake_case(p, false));
            assert(s =~= seq![c] + rest);
        }
    }
}

/// A snake_case ASCII name (such as `mark_in_doubt`) is given back by
/// snake_case from its PascalCase form (`MarkInDoubt`).
pub proof fn law_snake_of_pascal(s: Seq<char>)
    requires
        ascii_snake_name(s),
    ensures
        snake_case(store_pascal_case(s, true), true) == s,
{
    if s.len() > 0 {
        let c = s[0];
        let rest = s.drop_first();
        lemma_tail_facts(s);
        lemma_snake_of_pascal_inner(rest);
        lemma_case_round_trip_char(c);
        let u = upper_mapping(c)[0];
        let p = store_pascal_case(rest, false);
        assert(store_pascal_case(s, true) =~= seq![u] + p);
        assert((seq![u] + p).drop_first() =~= p);
        if is_ascii_lower(c) {
            assert(snake_case(seq![u] + p, true) =~= seq![c] + snake_case(p, false));
        } else {
            assert(u == c);
            assert(snake_case(seq![u] + p, true) =~= seq![c] + snake_case(p, false));
        }
        assert(s =~= seq![c] + rest);
    }
}

/// Converts snake_case to PascalCase (`in_flight` becomes `InFlight`).
pub fn to_pascal_case(s: &str) -> (r: String)
    ensures
        r@ == store_pascal_case(s@, true),
{
    let cs = chars_of(s);
    let mut out: Vec<char> = Vec::new();
    let mut at_start = true;
    let mut i: usize = 0;
    proof {
        assert(cs@.skip(0) =~= cs@);
        assert(out@ + store_pascal_case(s@, true) =~= store_pascal_case(s@, true));
    }
    while i < cs.len()
        invariant
            i <= cs@.len(),
            cs@ == s@,
            out@ + store_pascal_case(cs@.skip(i as int), at_start) == store_pascal_case(s@, true),
        decreases cs.len() - i,
    {
        let c = cs[i];
        proof {
            assert(cs@.skip(i as int).drop_first() =~= cs@.skip(i + 1));
        }
        let ghost prev = out@;
        if c == '_' {
            at_start = true;
        } else if at_start {
            let up = uppercase_of(c);
            out.push(up[0]);
            proof {
                assert(out@ + store_pascal_case(cs@.skip(i + 1), false) =~= prev + (seq![
                    upper_mapping(c)[0]] + store_pascal_case(cs@.skip(i + 1), false)));
            }
            at_start = false;
        } else {
            out.push(c);
            proof {
                assert(out@ + store_pascal_case(cs@.skip(i + 1), false) =~= prev + (seq![c]
                    + store_pascal_case(cs@.skip(i + 1), false)));
            }
        }
        i += 1;
    }
    proof {
        assert(cs@.skip(i as int) =~= Seq::<char>::empty());
        assert(out@ + Seq::<char>::empty() =~= out@);
    }
    string_from_chars(&out)
}

/// Converts PascalCase to snake_case (`InFlight` becomes `in_flight`).
pub fn to_snake_case(s: &str) -> (r: String)
    ensures
        r@ == snake_case(s@, true),
{
    let cs = chars_of(s);
    let mut out: Vec<char> = Vec::new();
    let mut i: usize = 0;
    proof {
        assert(cs@.skip(0) =~= cs@);
        assert(out@ + snake_case(s@, true) =~= snake_case(s@, true));
    }
    while i < cs.len()
        invariant
            i <= cs@.len(),
            cs@ == s@,
            out@ + snake_case(cs@.skip(i as int), i == 0) == snake_case(s@, true),
        decreases cs.len() - i,
    {
        let c = cs[i];
        proof {
            assert(cs@.skip(i as int).drop_first() =~= cs@.skip(i + 1));
        }
        let ghost prev = out@;
        if is_uppercase(c) {
            if i > 0 {
                out.push('_');
            }
            let low = lowercase_of(c);
            out.push(low[0]);
            proof {
                let rest = snake_case(cs@.skip(i + 1), false);
                let lead: Seq<char> = if i == 0 { Seq::empty() } else { seq!['_'] };
                assert(out@ =~= prev + lead + seq![lower_mapping(c)[0]]);
                assert(out@ + rest =~= prev + (lead + seq![lower_mapping(c)[0]] + rest));
            }
        } else {
            out.push(c);
            proof {
                assert(out@ + snake_case(cs@.skip(i + 1), false) =~= prev + (seq![c]
                    + snake_case(cs@.skip(i + 1), false)));
            }
        }
        i += 1;
    }
    proof {
        assert(cs@.skip(i as int) =~= Seq::<char>::empty());
        assert(out@ + Seq::<char>::empty() =~= out@);
    }
    string_from_chars(&out)
}

/// The token is `.`.
pub open spec fn is_dot(t: TokModel) -> bool {
    t matches TokModel::Punct(c, _) && c == '.'
}

/// Every `self` followed by `.` becomes `item`, inside groups too: a guard or
/// a field value written over the item's fields (`self.leader`) is read
/// against the item a handle holds.
pub open spec fn rewrite_model(s: Seq<TokModel>) -> Seq<TokModel>
    decreases s,
{
    if s.len() == 0 {
        Seq::empty()
    } else {
        let head = match s[0] {
            TokModel::Ident(w) => if w == "self"@ && s.len() > 1 && is_dot(s[1]) {
                TokModel::Ident("item"@)
            } else {
                s[0]
            },
            TokModel::Group(d, inner) => TokModel::Group(d, rewrite_model(inner)),
            _ => s[0],
        };
        seq![head] + rewrite_model(s.drop_first())
    }
}

proof fn lemma_rewrite_shape(s: Seq<TokModel>)
    ensures
        rewrite_model(s).len() == s.len(),
        s.len() > 0 ==> (is_dot(rewrite_model(s)[0]) <==> is_dot(s[0])),
        s.len() > 0 ==> rewrite_model(s).drop_first() == rewrite_model(s.drop_first()),
    decreases s,
{
    if s.len() > 0 {
        lemma_rewrite_shape(s.drop_first());
        let r = rewrite_model(s);
        assert(r.drop_first() =~= rewrite_model(s.drop_first()));
    }
}

/// Rewriting `self.` to `item.` a second time changes nothing: no `self`
/// followed by `.` is left after the first time.
pub proof fn law_rewrite_is_idempotent(s: Seq<TokModel>)
    ensures
        rewrite_model(rewrite_model(s)) == rewrite_model(s),
    decreases s,
{
    if s.len() > 0 {
        let r = rewrite_model(s);
        lemma_rewrite_shape(s);
        lemma_rewrite_shape(r);
        law_rewrite_is_idempotent(s.drop_first());
        if s.len() > 1 {
            lemma_rewrite_shape(s.drop_first());
            assert(r[1] == rewrite_model(s.drop_first())[0]);
            assert(s[1] == s.drop_first()[0]);
        }
        match s[0] {
            TokModel::Group(d, inner) => {
                law_rewrite_is_idempotent(inner);
            },
            _ => {},
        }
        assert(rewrite_model(r) =~= r);
    }
}

/// Rewrites `self.` to `item.` in a token sequence, at every depth.
pub fn rewrite_self_to_item(tokens: Vec<Tok>) -> (r: Vec<Tok>)
    ensures
        toks_model(r@) == rewrite_model(toks_model(tokens@)),
    decreases tokens,
{
    let ghost orig = tokens;
    proof { vstd::std_specs::vec::axiom_vec_decreases_to_view(orig); }
    let mut s = cursor_of(tokens);
    let mut out: Vec<Tok> = Vec::new();
    let ghost mut k: int = 0;
    assert(orig@.skip(0) =~= orig@);
    assert(toks_model(out@) =~= Seq::<TokModel>::empty());
    while s.len() > 0
        invariant
            0 <= k <= orig@.len(),
            s@ == orig@.skip(k),
            toks_model(out@) + rewrite_model(toks_model(s@)) == rewrite_model(toks_model(orig@)),
            decreases_to!(orig => orig@),
            orig == tokens,
        decreases s@.len(),
    {
        let ghost before = s@;
        let next_is_dot = punct_at(&s, 1, '.');
        let t = s.pop_front().unwrap();
        assert(s@ =~= before.drop_first());
        assert(t == orig@[k]);
        let t2 = match t {
            Tok::Ident(w) => {
                if next_is_dot && text_eq(w.as_str(), "self") {
                    Tok::Ident("item".to_owned())
                } else {
                    Tok::Ident(w)
                }
            },
            Tok::Group(d, v) => {
                assert(decreases_to!(tokens => v));
                Tok::Group(d, rewrite_self_to_item(v))
            },
            other => other,
        };
        proof {
            let m = toks_model(before);
            assert(m == seq![tok_model(t)] + toks_model(s@));
            assert(m.drop_first() =~= toks_model(s@));
            if s@.len() > 0 {
                assert(m[1] == tok_model(s@[0]));
            }
            assert(rewrite_model(m) == seq![tok_model(t2)] + rewrite_model(toks_model(s@)));
            let ghost prev = out@;
            lemma_toks_model_push(prev, t2);
            k = k + 1;
            assert(s@ =~= orig@.skip(k));
        }
        let ghost prev = out@;
        out.push(t2);
        proof {
            lemma_toks_model_push(prev, t2);
            assert(toks_model(out@) + rewrite_model(toks_model(s@)) =~= toks_model(prev) + (seq![tok_model(t2)] + rewrite_model(toks_model(s@))));
        }
    }
    assert(toks_model(s@) =~= Seq::<TokModel>::empty());
    assert(toks_model(out@) + Seq::<TokModel>::empty() =~= toks_model(out@));
    out
}

/// The name of a collection's type for one state: the collection's prefix,
/// then the state's name (`Messages` and `InFlight` give `MessagesInFlight`).
pub fn prefixed_state_name(col_prefix: &str, state_name: &str) -> (r: String)
    ensures
        r@ == col_prefix@ + state_name@,
{
    concat_text(col_prefix, state_name)
}

/// The name of the store field that holds a collection's items in one state:
/// the collection's name, `_`, and the state's name in snake_case
/// (`messages` and `InFlight` give `messages_in_flight`).
pub fn collection_field_name(col_name: &str, state_name: &str) -> (r: String)
    ensures
        r@ == col_name@ + seq!['_'] + snake_case(state_name@, true),
{
    let head = concat_text(col_name, "_");
    let tail = to_snake_case(state_name);
    proof { reveal_strlit("_"); }
    concat_text(head.as_str(), tail.as_str())
}

/// Whether one of a transition's source states is named `state`.
pub open spec fn leaves(t: TransitionModel, state: Seq<char>) -> bool {
    exists|i: int| 0 <= i < t.sources.len() && #[trigger] t.sources[i]@ == state
}

pub(crate) fn transition_leaves(t: &TypedTransition, state: &str) -> (b: bool)
    ensures
        b == leaves(t@, state@),
{
    let mut i: usize = 0;
    while i < t.sources.len()
        invariant
            i <= t.sources@.len(),
            forall|j: int| 0 <= j < i ==> #[trigger] t.sources@[j]@ != state@,
        decreases t.sources.len() - i,
    {
        if text_eq(t.sources[i].as_str(), state) {
            assert(t@.sources[i as int]@ == state@);
            return true;
        }
        i += 1;
    }
    false
}

/// The positions of the transitions that leave `state`, in order: the
/// transitions a handle for that state offers.
pub fn transitions_leaving(transitions: &Vec<TypedTransition>, state: &str) -> (r: Vec<usize>)
    ensures
        forall|a: int, b: int| 0 <= a < b < r@.len() ==> r@[a] < r@[b],
        forall|i: int| 0 <= i < transitions@.len() ==> (r@.contains(i as usize) <==> leaves(
            transitions@[i]@,
            state@,
        )),
        forall|a: int| 0 <= a < r@.len() ==> r@[a] < transitions@.len(),
{
    let mut r: Vec<usize> = Vec::new();
    let mut i: usize = 0;
    while i < transitions.len()
        invariant
            i <= transitions@.len(),
            forall|a: int, b: int| 0 <= a < b < r@.len() ==> r@[a] < r@[b],
            forall|a: int| 0 <= a < r@.len() ==> r@[a] < i,
            forall|j: int| 0 <= j < i ==> (r@.contains(j as usize) <==> leaves(transitions@[j]@, state@)),
        decreases transitions.len() - i,
    {
        let ghost prev = r@;
        if transition_leaves(&transitions[i], state) {
            r.push(i);
            assert(r@[r@.len() - 1] == i);
        }
        assert forall|j: int| 0 <= j < i + 1 implies (r@.contains(j as usize) <==> leaves(transitions@[j]@, state@)) by {
            if j < i {
                if prev.contains(j as usize) {
                    let k = choose|k: int| 0 <= k < prev.len() && prev[k] == j as usize;
                    assert(r@[k] == j as usize);
                }
                if r@.contains(j as usize) {
                    let k = choose|k: int| 0 <= k < r@.len() && r@[k] == j as usize;
                    if k == prev.len() {
                        assert(r@[k] == i);
                    } else {
                        assert(prev[k] == j as usize);
                    }
                }
            } else {
                if r@.contains(j as usize) {
                    let k = choose|k: int| 0 <= k < r@.len() && r@[k] == j as usize;
                    if k < prev.len() {
                        assert(prev[k] < i);
                    }
                }
                if leaves(transitions@[j]@, state@) {
                    assert(r@[r@.len() - 1] == i);
                }
            }
        }
        i += 1;
    }
    r
}

/// The target states of the transitions that leave `state`, each once, in
/// the order of their first transition: the collections a handle for that
/// state can move an item into.
pub open spec fn distinct_targets(ts: Seq<TransitionModel>, state: Seq<char>, seen: Seq<Seq<char>>) -> Seq<Seq<char>>
    decreases ts.len(),
{
    if ts.len() == 0 {
        seen
    } else {
        let t = ts[0];
        let seen = if leaves(t, state) && !seen.contains(t.target@) { seen.push(t.target@) } else { seen };
        distinct_targets(ts.drop_first(), state, seen)
    }
}

/// The texts of a list of names.
pub open spec fn texts(v: Seq<String>) -> Seq<Seq<char>> {
    v.map_values(|s: String| s@)
}

fn contains_text(v: &Vec<String>, w: &str) -> (b: bool)
    ensures
        b == texts(v@).contains(w@),
{
    let mut i: usize = 0;
    while i < v.len()
        invariant
            i <= v@.len(),
            forall|j: int| 0 <= j < i ==> v@[j]@ != w@,
        decreases v.len() - i,
    {
        if text_eq(v[i].as_str(), w) {
            assert(texts(v@)[i as int] == w@);
            return true;
        }
        i += 1;
    }
    assert forall|j: int| 0 <= j < texts(v@).len() implies texts(v@)[j] != w@ by {
        assert(texts(v@)[j] == v@[j]@);
    }
    false
}

/// The targets a handle for `state` moves items into (see [`distinct_targets`]).
pub fn handle_targets(transitions: &Vec<TypedTransition>, state: &str) -> (r: Vec<String>)
    ensures
        texts(r@) == distinct_targets(transitions_model(transitions@), state@, Seq::empty()),
{
    let ghost ts = transitions_model(transitions@);
    let mut r: Vec<String> = Vec::new();
    let mut i: usize = 0;
    assert(ts.skip(0) =~= ts);
    assert(texts(r@) =~= Seq::<Seq<char>>::empty());
    while i < transitions.len()
        invariant
            i <= transitions@.len(),
            ts == transitions_model(transitions@),
            distinct_targets(ts, state@, Seq::empty()) == distinct_targets(ts.skip(i as int), state@, texts(r@)),
        decreases transitions.len() - i,
    {
        let t = &transitions[i];
        assert(ts.skip(i as int)[0] == t@);
        assert(ts.skip(i as int).drop_first() =~= ts.skip(i + 1));
        if transition_leaves(t, state) && !contains_text(&r, t.target.as_str()) {
            let ghost prev = r@;
            r.push(t.target.clone());
            assert(texts(r@) =~= texts(prev).push(t.target@));
        }
        i += 1;
    }
    r
}

/// How a transition builds its target state's data.
#[derive(Debug, Clone, Copy, PartialEq, Eq, Structural)]
pub enum TargetBuild {
    /// The target has no fields (or is not a declared state): a unit value.
    Unit,
    /// The target has fields and the transition assigns none: all default.
    Defaulted,
    /// The target's fields come from the transition's assignments.
    Assigned,
}

/// The state a name refers to; when several states share the name, the last.
pub open spec fn state_named(states: Seq<StateModel>, name: Seq<char>) -> Option<StateModel>
    decreases states.len(),
{
    if states.len() == 0 {
        None
    } else if states.last().name@ == name {
        Some(states.last())
    } else {
        state_named(states.drop_last(), name)
    }
}

/// How the target named `target` is built by a transition with
/// `n_assignments` field assignments.
pub open spec fn target_build(states: Seq<StateModel>, target: Seq<char>, n_assignments: nat) -> TargetBuild {
    match state_named(states, target) {
        None => TargetBuild::Unit,
        Some(st) => if st.fields.len() == 0 {
            TargetBuild::Unit
        } else if n_assignments == 0 {
            TargetBuild::Defaulted
        } else {
            TargetBuild::Assigned
        },
    }
}

/// Decides how a transition builds its target (see [`target_build`]).
pub fn target_build_of(states: &Vec<TypedState>, target: &str, n_assignments: usize) -> (r: TargetBuild)
    ensures
        r == target_build(states_model(states@), target@, n_assignments as nat),
{
    let ghost sm = states_model(states@);
    let mut i: usize = states.len();
    assert(sm.take(i as int) =~= sm);
    while i > 0
        invariant
            i <= states@.len(),
            sm == states_model(states@),
            state_named(sm, target@) == state_named(sm.take(i as int), target@),
        decreases i,
    {
        let st = &states[i - 1];
        assert(sm.take(i as int).last() == st@);
        assert(sm.take(i as int).drop_last() =~= sm.take(i - 1));
        if text_eq(st.name.as_str(), target) {
            if st.fields.len() == 0 {
                return TargetBuild::Unit;
            } else if n_assignments == 0 {
                return TargetBuild::Defaulted;
            } else {
                return TargetBuild::Assigned;
            }
        }
        i -= 1;
    }
    assert(sm.take(0) =~= Seq::<StateModel>::empty());
    TargetBuild::Unit
}


/// Position of the state named `name` (see [`state_named`]).
pub fn state_position(states: &Vec<TypedState>, name: &str) -> (r: Option<usize>)
    ensures
        match state_named(states_model(states@), name@) {
            Some(st) => r matches Some(i) && i < states@.len() && states@[i as int]@ == st,
            None => r is None,
        },
{
    let ghost sm = states_model(states@);
    let mut i: usize = states.len();
    assert(sm.take(i as int) =~= sm);
    while i > 0
        invariant
            i <= states@.len(),
            sm == states_model(states@),
            state_named(sm, name@) == state_named(sm.take(i as int), name@),
        decreases i,
    {
        assert(sm.take(i as int).last() == states@[i - 1]@);
        assert(sm.take(i as int).drop_last() =~= sm.take(i - 1));
        if text_eq(states[i - 1].name.as_str(), name) {
            return Some(i - 1);
        }
        i -= 1;
    }
    assert(sm.take(0) =~= Seq::<StateModel>::empty());
    None
}

} // verus!
