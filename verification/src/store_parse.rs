//! The grammar of the `store!` macro, as a function on token trees.
//!
//! ```text
//! store      := vis name { collection* }
//! collection := name : (Map < type > | Queue) { section* } ,?
//! section    := key name : type ,?
//!             | states { (name ({ field,* })? ,?)* }
//!             | transitions { transition* }
//! transition := name ( field,* ) : (name | ( name,* )) -> name (where guard)?
//!               ({ (name : value ,?)* } | ;)
//! field      := name : type
//! ```
//! A type is a reference, a tuple or parenthesized type, an array or slice
//! type, `!`, or a path with generic arguments. A guard runs up to the body or
//! the `;` of its transition; a field value runs up to the next `,` outside
//! any group. A name is an identifier that is not a reserved word.
use vstd::prelude::*;
use std::collections::VecDeque;
use crate::tokens::{
    Tok, Delim, ParseError, is_punct, is_joint_punct, is_word, is_group, group_inner, ident_text,
    name_result, colon2_at, arrow_at, punct_at, joint_punct_at, word_at, ident_at, group_at,
    colon2_at_pos, arrow_at_pos, skip_tokens, take_tokens, take_name, take_group, text_eq, cursor_of,
};

verus! {

// ---------------------------------------------------------------------------
// Types and expressions: how many tokens they span
// ---------------------------------------------------------------------------

/// Tokens of generic arguments after an opening `<`, through the `>` that
/// closes it; `depth` counts the `<` opened since.
pub open spec fn angle_len(s: Seq<Tok>, depth: nat) -> Option<nat>
    decreases s.len(),
{
    if s.len() == 0 {
        None
    } else if arrow_at(s) {
        match angle_len(s.skip(2), depth) {
            Some(n) => Some(n + 2),
            None => None,
        }
    } else if is_punct(s[0], '>') {
        if depth == 0 {
            Some(1)
        } else {
            match angle_len(s.skip(1), (depth - 1) as nat) {
                Some(n) => Some(n + 1),
                None => None,
            }
        }
    } else if is_punct(s[0], '<') {
        match angle_len(s.skip(1), depth + 1) {
            Some(n) => Some(n + 1),
            None => None,
        }
    } else {
        match angle_len(s.skip(1), depth) {
            Some(n) => Some(n + 1),
            None => None,
        }
    }
}

pub proof fn lemma_angle_len_bounds(s: Seq<Tok>, depth: nat)
    ensures
        angle_len(s, depth) matches Some(n) ==> 1 <= n <= s.len(),
    decreases s.len(),
{
    if s.len() == 0 {
    } else if arrow_at(s) {
        lemma_angle_len_bounds(s.skip(2), depth);
    } else if is_punct(s[0], '>') {
        if depth != 0 {
            lemma_angle_len_bounds(s.skip(1), (depth - 1) as nat);
        }
    } else if is_punct(s[0], '<') {
        lemma_angle_len_bounds(s.skip(1), depth + 1);
    } else {
        lemma_angle_len_bounds(s.skip(1), depth);
    }
}

/// Tokens that continue a path after one of its segments: `::segment` and
/// generic arguments, with or without `::` before them.
pub open spec fn path_rest_len(s: Seq<Tok>) -> Option<nat>
    decreases s.len(),
{
    if s.len() > 0 && is_punct(s[0], '<') {
        match angle_len(s.skip(1), 0) {
            Some(n) => {
                proof { lemma_angle_len_bounds(s.skip(1), 0); }
                match path_rest_len(s.skip(1 + n as int)) {
                    Some(m) => Some(1 + n + m),
                    None => None,
                }
            },
            None => None,
        }
    } else if colon2_at(s) && s.len() > 2 && is_punct(s[2], '<') {
        match angle_len(s.skip(3), 0) {
            Some(n) => {
                proof { lemma_angle_len_bounds(s.skip(3), 0); }
                match path_rest_len(s.skip(3 + n as int)) {
                    Some(m) => Some(3 + n + m),
                    None => None,
                }
            },
            None => None,
        }
    } else if colon2_at(s) && s.len() > 2 && s[2] is Ident {
        match path_rest_len(s.skip(3)) {
            Some(m) => Some(3 + m),
            None => None,
        }
    } else {
        Some(0)
    }
}

pub proof fn lemma_path_rest_len_bounds(s: Seq<Tok>)
    ensures
        path_rest_len(s) matches Some(n) ==> n <= s.len(),
    decreases s.len(),
{
    if s.len() > 0 && is_punct(s[0], '<') {
        lemma_angle_len_bounds(s.skip(1), 0);
        if let Some(n) = angle_len(s.skip(1), 0) {
            lemma_path_rest_len_bounds(s.skip(1 + n as int));
        }
    } else if colon2_at(s) && s.len() > 2 && is_punct(s[2], '<') {
        lemma_angle_len_bounds(s.skip(3), 0);
        if let Some(n) = angle_len(s.skip(3), 0) {
            lemma_path_rest_len_bounds(s.skip(3 + n as int));
        }
    } else if colon2_at(s) && s.len() > 2 && s[2] is Ident {
        lemma_path_rest_len_bounds(s.skip(3));
    }
}

/// Tokens of the prefix of a reference type before its referent:
/// `&`, then a lifetime if there is one, then `mut` if it is there.
pub open spec fn ref_prefix_len(s: Seq<Tok>) -> nat {
    let a: nat = if s.len() > 2 && is_joint_punct(s[1], '\'') && s[2] is Ident { 3 } else { 1 };
    if s.len() > a && is_word(s[a as int], "mut"@) { a + 1 } else { a }
}

/// Tokens of a path at the front of `s`: a segment, or `::` and a segment,
/// then what continues it.
pub open spec fn path_len(s: Seq<Tok>) -> Option<nat> {
    if colon2_at(s) && s.len() > 2 && s[2] is Ident {
        match path_rest_len(s.skip(3)) {
            Some(m) => Some(3 + m),
            None => None,
        }
    } else if s.len() > 0 && s[0] is Ident {
        match path_rest_len(s.skip(1)) {
            Some(m) => Some(1 + m),
            None => None,
        }
    } else {
        None
    }
}

pub proof fn lemma_path_len_bounds(s: Seq<Tok>)
    ensures
        path_len(s) matches Some(n) ==> 1 <= n <= s.len(),
{
    if colon2_at(s) && s.len() > 2 && s[2] is Ident {
        lemma_path_rest_len_bounds(s.skip(3));
    } else if s.len() > 0 && s[0] is Ident {
        lemma_path_rest_len_bounds(s.skip(1));
    }
}

/// Tokens of one bound of a trait object or an `impl` type: a lifetime, or
/// a path (after `?` if it is there) with its parenthesized arguments if it
/// has them (`Fn(u8)`).
pub open spec fn bound_len(s: Seq<Tok>) -> Option<nat> {
    if s.len() > 1 && is_joint_punct(s[0], '\'') && s[1] is Ident {
        Some(2)
    } else {
        let q: nat = if s.len() > 0 && is_punct(s[0], '?') { 1 } else { 0 };
        let t = s.skip(q as int);
        match path_len(t) {
            Some(n) => if t.len() > n && is_group(t[n as int], Delim::Paren) { Some(q + n + 1) } else { Some(q + n) },
            None => None,
        }
    }
}

pub proof fn lemma_bound_len_bounds(s: Seq<Tok>)
    ensures
        bound_len(s) matches Some(n) ==> 1 <= n <= s.len(),
{
    let q: nat = if s.len() > 0 && is_punct(s[0], '?') { 1 } else { 0 };
    lemma_path_len_bounds(s.skip(q as int));
}

/// Tokens of the bounds of a trait object or an `impl` type: bounds joined
/// by `+`.
pub open spec fn bounds_len(s: Seq<Tok>) -> Option<nat>
    decreases s.len(),
{
    match bound_len(s) {
        Some(n) => {
            if s.len() > n && is_punct(s[n as int], '+') {
                match bounds_len(s.skip(n + 1 as int)) {
                    Some(m) => Some(n + 1 + m),
                    None => None,
                }
            } else {
                Some(n)
            }
        },
        None => None,
    }
}

pub proof fn lemma_bounds_len_bounds(s: Seq<Tok>)
    ensures
        bounds_len(s) matches Some(n) ==> 1 <= n <= s.len(),
    decreases s.len(),
{
    lemma_bound_len_bounds(s);
    if let Some(n) = bound_len(s) {
        if s.len() > n && is_punct(s[n as int], '+') {
            lemma_bounds_len_bounds(s.skip(n + 1 as int));
        }
    }
}

/// Tokens of the type at the front of `s`, if one stands there.
pub open spec fn type_len(s: Seq<Tok>) -> Option<nat>
    decreases s.len(),
{
    if s.len() == 0 {
        None
    } else if is_punct(s[0], '&') {
        let b = ref_prefix_len(s);
        match type_len(s.skip(b as int)) {
            Some(n) => Some(b + n),
            None => None,
        }
    } else if is_group(s[0], Delim::Paren) || is_group(s[0], Delim::Bracket) || is_punct(s[0], '!') {
        Some(1)
    } else if is_word(s[0], "dyn"@) || is_word(s[0], "impl"@) {
        match bounds_len(s.skip(1)) {
            Some(n) => Some(1 + n),
            None => None,
        }
    } else if is_word(s[0], "fn"@) && s.len() > 1 && is_group(s[1], Delim::Paren) {
        if arrow_at(s.skip(2)) {
            match type_len(s.skip(4)) {
                Some(n) => Some(4 + n),
                None => None,
            }
        } else {
            Some(2)
        }
    } else if is_punct(s[0], '<') {
        match angle_len(s.skip(1), 0) {
            Some(n) => {
                proof { lemma_angle_len_bounds(s.skip(1), 0); }
                match path_rest_len(s.skip(1 + n as int)) {
                    Some(m) => Some(1 + n + m),
                    None => None,
                }
            },
            None => None,
        }
    } else if is_punct(s[0], '*') && s.len() > 1 && (is_word(s[1], "const"@) || is_word(s[1], "mut"@)) {
        match type_len(s.skip(2)) {
            Some(n) => Some(2 + n),
            None => None,
        }
    } else if colon2_at(s) && s.len() > 2 && s[2] is Ident {
        match path_rest_len(s.skip(3)) {
            Some(m) => Some(3 + m),
            None => None,
        }
    } else if s[0] is Ident {
        match path_rest_len(s.skip(1)) {
            Some(m) => Some(1 + m),
            None => None,
        }
    } else {
        None
    }
}

pub proof fn lemma_type_len_bounds(s: Seq<Tok>)
    ensures
        type_len(s) matches Some(n) ==> 1 <= n <= s.len(),
    decreases s.len(),
{
    if s.len() == 0 {
    } else if is_punct(s[0], '&') {
        lemma_type_len_bounds(s.skip(ref_prefix_len(s) as int));
    } else if is_group(s[0], Delim::Paren) || is_group(s[0], Delim::Bracket) || is_punct(s[0], '!') {
    } else if is_word(s[0], "dyn"@) || is_word(s[0], "impl"@) {
        lemma_bounds_len_bounds(s.skip(1));
    } else if is_word(s[0], "fn"@) && s.len() > 1 && is_group(s[1], Delim::Paren) {
        if arrow_at(s.skip(2)) {
            lemma_type_len_bounds(s.skip(4));
        }
    } else if is_punct(s[0], '<') {
        lemma_angle_len_bounds(s.skip(1), 0);
        if let Some(n) = angle_len(s.skip(1), 0) {
            lemma_path_rest_len_bounds(s.skip(1 + n as int));
        }
    } else if is_punct(s[0], '*') && s.len() > 1 && (is_word(s[1], "const"@) || is_word(s[1], "mut"@)) {
        lemma_type_len_bounds(s.skip(2));
    } else if colon2_at(s) && s.len() > 2 && s[2] is Ident {
        lemma_path_rest_len_bounds(s.skip(3));
    } else if s[0] is Ident {
        lemma_path_rest_len_bounds(s.skip(1));
    }
}

/// Tokens through the next `|`.
pub open spec fn pipe_len(s: Seq<Tok>) -> Option<nat>
    decreases s.len(),
{
    if s.len() == 0 {
        None
    } else if is_punct(s[0], '|') {
        Some(1)
    } else {
        match pipe_len(s.skip(1)) {
            Some(n) => Some(n + 1),
            None => None,
        }
    }
}

pub proof fn lemma_pipe_len_bounds(s: Seq<Tok>)
    ensures
        pipe_len(s) matches Some(n) ==> 1 <= n <= s.len(),
    decreases s.len(),
{
    if s.len() > 0 && !is_punct(s[0], '|') {
        lemma_pipe_len_bounds(s.skip(1));
    }
}

/// Tokens at the front of a field value that may hold a `,` of their own:
/// a closure's parameters between `|`s (after `move` if it is there), or the
/// `<..>` of a qualified path.
pub open spec fn value_head_len(s: Seq<Tok>) -> nat {
    let m: nat = if s.len() > 0 && is_word(s[0], "move"@) { 1 } else { 0 };
    if s.len() > m && is_punct(s[m as int], '|') && !(s.len() > m + 1 && is_punct(s[m + 1 as int], '|')) {
        match pipe_len(s.skip(m + 1 as int)) {
            Some(n) => m + 1 + n,
            None => 0,
        }
    } else if s.len() > 0 && is_punct(s[0], '<') {
        match angle_len(s.skip(1), 0) {
            Some(n) => 1 + n,
            None => 0,
        }
    } else {
        0
    }
}

pub proof fn lemma_value_head_len_bound(s: Seq<Tok>)
    ensures
        value_head_len(s) <= s.len(),
{
    let m: nat = if s.len() > 0 && is_word(s[0], "move"@) { 1 } else { 0 };
    if s.len() > m {
        lemma_pipe_len_bounds(s.skip(m + 1 as int));
    }
    if s.len() > 0 {
        lemma_angle_len_bounds(s.skip(1), 0);
    }
}

/// Tokens of the rest of a field value: up to the first `,` outside any
/// group and outside the generic arguments of a turbofish (`::<A, B>`).
pub open spec fn value_rest_len(s: Seq<Tok>) -> nat
    decreases s.len(),
{
    if s.len() == 0 || is_punct(s[0], ',') {
        0
    } else if colon2_at(s) && s.len() > 2 && is_punct(s[2], '<') && angle_len(s.skip(3), 0) is Some {
        let n = angle_len(s.skip(3), 0)->Some_0;
        proof { lemma_angle_len_bounds(s.skip(3), 0); }
        3 + n + value_rest_len(s.skip(3 + n as int))
    } else {
        1 + value_rest_len(s.skip(1))
    }
}

pub proof fn lemma_value_rest_len_bound(s: Seq<Tok>)
    ensures
        value_rest_len(s) <= s.len(),
    decreases s.len(),
{
    if s.len() > 0 && !is_punct(s[0], ',') {
        if colon2_at(s) && s.len() > 2 && is_punct(s[2], '<') && angle_len(s.skip(3), 0) is Some {
            let n = angle_len(s.skip(3), 0)->Some_0;
            lemma_angle_len_bounds(s.skip(3), 0);
            lemma_value_rest_len_bound(s.skip(3 + n as int));
        } else {
            lemma_value_rest_len_bound(s.skip(1));
        }
    }
}

/// Tokens of a field value: a closure's parameters or a qualified path's
/// `<..>` at its front, then up to the first `,` outside any group and any
/// turbofish.
pub open spec fn value_len(s: Seq<Tok>) -> nat {
    let h = value_head_len(s);
    h + value_rest_len(s.skip(h as int))
}

pub proof fn lemma_value_len_bound(s: Seq<Tok>)
    ensures
        value_len(s) <= s.len(),
{
    lemma_value_head_len_bound(s);
    lemma_value_rest_len_bound(s.skip(value_head_len(s) as int));
}

/// A keyword whose expression ends in a block (`if c { .. }`, `match e { .. }`):
/// the next brace group after it belongs to the expression.
pub open spec fn block_keyword(t: Tok) -> bool {
    ||| is_word(t, "if"@)
    ||| is_word(t, "match"@)
    ||| is_word(t, "while"@)
    ||| is_word(t, "for"@)
    ||| is_word(t, "loop"@)
    ||| is_word(t, "unsafe"@)
}

/// A punctuation token after which an operand starts (every one but the
/// postfix `?`): a brace group there is a block expression.
pub open spec fn opens_operand(t: Tok) -> bool {
    t is Punct && !is_punct(t, '?')
}

/// Tokens of the rest of a guard, where `want` brace groups are still owed
/// to block keywords and `at_operand` says an operand starts here: up to `;`,
/// or to a brace group that is neither owed nor a block operand.
pub open spec fn guard_scan(s: Seq<Tok>, want: nat, at_operand: bool) -> nat
    decreases s.len(),
{
    if s.len() == 0 || is_punct(s[0], ';') {
        0
    } else if is_group(s[0], Delim::Brace) {
        if want > 0 || at_operand {
            1 + guard_scan(s.skip(1), if want > 0 { (want - 1) as nat } else { 0 }, false)
        } else {
            0
        }
    } else if block_keyword(s[0]) {
        1 + guard_scan(s.skip(1), want + 1, false)
    } else if is_word(s[0], "else"@) {
        1 + guard_scan(s.skip(1), if s.len() > 1 && is_word(s[1], "if"@) { want } else { want + 1 }, false)
    } else {
        1 + guard_scan(s.skip(1), want, opens_operand(s[0]))
    }
}

/// Tokens of a guard: up to `;`, or to the first brace group that belongs
/// to no block expression of the guard (the transition's body).
pub open spec fn guard_len(s: Seq<Tok>) -> nat {
    guard_scan(s, 0, true)
}

/// Tokens of a visibility: `pub` with an optional `(crate)`, `(self)`,
/// `(super)` or `(in path)`, or nothing.
pub open spec fn vis_len(s: Seq<Tok>) -> nat {
    if s.len() > 0 && is_word(s[0], "pub"@) {
        if s.len() > 1 && is_group(s[1], Delim::Paren) && restricted_scope(group_inner(s[1])) {
            2
        } else {
            1
        }
    } else {
        0
    }
}

/// The inside of `pub(..)`: `crate`, `self`, `super`, or `in` and a path.
pub open spec fn restricted_scope(inner: Seq<Tok>) -> bool {
    ||| inner.len() == 1 && (is_word(inner[0], "crate"@) || is_word(inner[0], "self"@) || is_word(inner[0], "super"@))
    ||| inner.len() >= 2 && is_word(inner[0], "in"@)
}

pub(crate) fn angle_len_at(s: &VecDeque<Tok>, i: usize, depth: usize) -> (r: Option<usize>)
    requires
        i <= s@.len(),
        depth <= i,
    ensures
        match angle_len(s@.skip(i as int), depth as nat) {
            Some(n) => r matches Some(k) && k == n && i + k <= s@.len(),
            None => r is None,
        },
    decreases s@.len() - i,
{
    proof { lemma_angle_len_bounds(s@.skip(i as int), depth as nat); }
    if i >= s.len() {
        return None;
    }
    assert(s@.skip(i as int).skip(1) =~= s@.skip(i + 1));
    if arrow_at_pos(s, i) {
        assert(s@.skip(i as int).skip(2) =~= s@.skip(i + 2));
        proof { lemma_angle_len_bounds(s@.skip(i + 2), depth as nat); }
        match angle_len_at(s, i + 2, depth) {
            Some(n) => Some(n + 2),
            None => None,
        }
    } else if punct_at(s, i, '>') {
        if depth == 0 {
            Some(1)
        } else {
            proof { lemma_angle_len_bounds(s@.skip(i + 1), (depth - 1) as nat); }
            match angle_len_at(s, i + 1, depth - 1) {
                Some(n) => Some(n + 1),
                None => None,
            }
        }
    } else if punct_at(s, i, '<') {
        proof { lemma_angle_len_bounds(s@.skip(i + 1), (depth + 1) as nat); }
        match angle_len_at(s, i + 1, depth + 1) {
            Some(n) => Some(n + 1),
            None => None,
        }
    } else {
        proof { lemma_angle_len_bounds(s@.skip(i + 1), depth as nat); }
        match angle_len_at(s, i + 1, depth) {
            Some(n) => Some(n + 1),
            None => None,
        }
    }
}

fn path_rest_len_at(s: &VecDeque<Tok>, i: usize) -> (r: Option<usize>)
    requires
        i <= s@.len(),
    ensures
        match path_rest_len(s@.skip(i as int)) {
            Some(n) => r matches Some(k) && k == n && i + k <= s@.len(),
            None => r is None,
        },
    decreases s@.len() - i,
{
    let ghost t = s@.skip(i as int);
    proof { lemma_path_rest_len_bounds(t); }
    if i >= s.len() {
        return Some(0);
    }
    if punct_at(s, i, '<') {
        assert(t.skip(1) =~= s@.skip(i + 1));
        proof { lemma_angle_len_bounds(t.skip(1), 0); }
        match angle_len_at(s, i + 1, 0) {
            Some(n) => {
                assert(t.skip(1 + n) =~= s@.skip(i + 1 + n));
                proof { lemma_path_rest_len_bounds(s@.skip(i + 1 + n)); }
                match path_rest_len_at(s, i + 1 + n) {
                    Some(m) => Some(1 + n + m),
                    None => None,
                }
            },
            None => None,
        }
    } else if colon2_at_pos(s, i) && punct_at(s, i + 2, '<') {
        assert(t.skip(3) =~= s@.skip(i + 3));
        proof { lemma_angle_len_bounds(t.skip(3), 0); }
        match angle_len_at(s, i + 3, 0) {
            Some(n) => {
                assert(t.skip(3 + n) =~= s@.skip(i + 3 + n));
                proof { lemma_path_rest_len_bounds(s@.skip(i + 3 + n)); }
                match path_rest_len_at(s, i + 3 + n) {
                    Some(m) => Some(3 + n + m),
                    None => None,
                }
            },
            None => None,
        }
    } else if colon2_at_pos(s, i) && ident_at(s, i + 2) {
        assert(t.skip(3) =~= s@.skip(i + 3));
        proof { lemma_path_rest_len_bounds(s@.skip(i + 3)); }
        match path_rest_len_at(s, i + 3) {
            Some(m) => Some(3 + m),
            None => None,
        }
    } else {
        Some(0)
    }
}

fn ref_prefix_len_at(s: &VecDeque<Tok>, i: usize) -> (b: usize)
    requires
        i < s@.len(),
    ensures
        b == ref_prefix_len(s@.skip(i as int)),
        i + b <= s@.len(),
{
    let ghost t = s@.skip(i as int);
    let len = s.len();
    let mut b: usize = 1;
    if len - i > 2 && joint_punct_at(s, i + 1, '\'') && ident_at(s, i + 2) {
        b = 3;
    }
    if len - i > b && word_at(s, i + b, "mut") {
        b = b + 1;
    }
    b
}

#[verifier::rlimit(40)]
fn path_len_at(s: &VecDeque<Tok>, i: usize) -> (r: Option<usize>)
    requires
        i <= s@.len(),
    ensures
        match path_len(s@.skip(i as int)) {
            Some(n) => r matches Some(k) && k == n && i + k <= s@.len(),
            None => r is None,
        },
{
    let ghost t = s@.skip(i as int);
    proof { lemma_path_len_bounds(t); }
    if i >= s.len() {
        return None;
    }
    if colon2_at_pos(s, i) && ident_at(s, i + 2) {
        assert(t.skip(3) =~= s@.skip(i + 3));
        match path_rest_len_at(s, i + 3) {
            Some(m) => Some(3 + m),
            None => None,
        }
    } else if ident_at(s, i) {
        assert(t.skip(1) =~= s@.skip(i + 1));
        match path_rest_len_at(s, i + 1) {
            Some(m) => Some(1 + m),
            None => None,
        }
    } else {
        None
    }
}

#[verifier::rlimit(40)]
fn bound_len_at(s: &VecDeque<Tok>, i: usize) -> (r: Option<usize>)
    requires
        i <= s@.len(),
    ensures
        match bound_len(s@.skip(i as int)) {
            Some(n) => r matches Some(k) && k == n && i + k <= s@.len(),
            None => r is None,
        },
{
    let ghost t = s@.skip(i as int);
    proof { lemma_bound_len_bounds(t); }
    if i >= s.len() {
        return None;
    }
    if joint_punct_at(s, i, '\'') && ident_at(s, i + 1) {
        return Some(2);
    }
    let q: usize = if punct_at(s, i, '?') { 1 } else { 0 };
    assert(t.skip(q as int) =~= s@.skip(i + q));
    match path_len_at(s, i + q) {
        Some(n) => {
            if group_at(s, i + q + n, Delim::Paren) {
                Some(q + n + 1)
            } else {
                Some(q + n)
            }
        },
        None => None,
    }
}

#[verifier::rlimit(40)]
fn bounds_len_at(s: &VecDeque<Tok>, i: usize) -> (r: Option<usize>)
    requires
        i <= s@.len(),
    ensures
        match bounds_len(s@.skip(i as int)) {
            Some(n) => r matches Some(k) && k == n && i + k <= s@.len(),
            None => r is None,
        },
    decreases s@.len() - i,
{
    let ghost t = s@.skip(i as int);
    proof { lemma_bounds_len_bounds(t); }
    if i >= s.len() {
        return None;
    }
    match bound_len_at(s, i) {
        Some(n) => {
            if punct_at(s, i + n, '+') {
                assert(t.skip(n + 1) =~= s@.skip(i + n + 1));
                match bounds_len_at(s, i + n + 1) {
                    Some(m) => Some(n + 1 + m),
                    None => None,
                }
            } else {
                Some(n)
            }
        },
        None => None,
    }
}

#[verifier::spinoff_prover]
#[verifier::rlimit(100)]
pub(crate) fn type_len_at(s: &VecDeque<Tok>, i: usize) -> (r: Option<usize>)
    requires
        i <= s@.len(),
    ensures
        match type_len(s@.skip(i as int)) {
            Some(n) => r matches Some(k) && k == n && i + k <= s@.len(),
            None => r is None,
        },
    decreases s@.len() - i,
{
    let ghost t = s@.skip(i as int);
    proof { lemma_type_len_bounds(t); }
    if i >= s.len() {
        return None;
    }
    if punct_at(s, i, '&') {
        let b = ref_prefix_len_at(s, i);
        assert(t.skip(b as int) =~= s@.skip(i + b));
        proof { lemma_type_len_bounds(s@.skip(i + b)); }
        match type_len_at(s, i + b) {
            Some(n) => Some(b + n),
            None => None,
        }
    } else if group_at(s, i, Delim::Paren) || group_at(s, i, Delim::Bracket) || punct_at(s, i, '!') {
        Some(1)
    } else if word_at(s, i, "dyn") || word_at(s, i, "impl") {
        assert(t.skip(1) =~= s@.skip(i + 1));
        match bounds_len_at(s, i + 1) {
            Some(n) => Some(1 + n),
            None => None,
        }
    } else if word_at(s, i, "fn") && group_at(s, i + 1, Delim::Paren) {
        assert(t.skip(2) =~= s@.skip(i + 2));
        if arrow_at_pos(s, i + 2) {
            assert(t.skip(4) =~= s@.skip(i + 4));
            proof { lemma_type_len_bounds(s@.skip(i + 4)); }
            match type_len_at(s, i + 4) {
                Some(n) => Some(4 + n),
                None => None,
            }
        } else {
            Some(2)
        }
    } else if punct_at(s, i, '<') {
        assert(t.skip(1) =~= s@.skip(i + 1));
        proof { lemma_angle_len_bounds(t.skip(1), 0); }
        match angle_len_at(s, i + 1, 0) {
            Some(n) => {
                assert(t.skip(1 + n) =~= s@.skip(i + 1 + n));
                match path_rest_len_at(s, i + 1 + n) {
                    Some(m) => Some(1 + n + m),
                    None => None,
                }
            },
            None => None,
        }
    } else if punct_at(s, i, '*') && (word_at(s, i + 1, "const") || word_at(s, i + 1, "mut")) {
        assert(t.skip(2) =~= s@.skip(i + 2));
        proof { lemma_type_len_bounds(s@.skip(i + 2)); }
        match type_len_at(s, i + 2) {
            Some(n) => Some(2 + n),
            None => None,
        }
    } else if colon2_at_pos(s, i) && ident_at(s, i + 2) {
        assert(t.skip(3) =~= s@.skip(i + 3));
        proof { lemma_path_rest_len_bounds(s@.skip(i + 3)); }
        match path_rest_len_at(s, i + 3) {
            Some(m) => Some(3 + m),
            None => None,
        }
    } else if ident_at(s, i) {
        assert(t.skip(1) =~= s@.skip(i + 1));
        proof { lemma_path_rest_len_bounds(s@.skip(i + 1)); }
        match path_rest_len_at(s, i + 1) {
            Some(m) => Some(1 + m),
            None => None,
        }
    } else {
        None
    }
}

#[verifier::rlimit(40)]
fn pipe_len_at(s: &VecDeque<Tok>, i: usize) -> (r: Option<usize>)
    requires
        i <= s@.len(),
    ensures
        match pipe_len(s@.skip(i as int)) {
            Some(n) => r matches Some(k) && k == n && i + k <= s@.len(),
            None => r is None,
        },
{
    let mut j: usize = i;
    proof { lemma_pipe_len_bounds(s@.skip(i as int)); }
    while j < s.len() && !punct_at(s, j, '|')
        invariant
            i <= j <= s@.len(),
            pipe_len(s@.skip(i as int)) == match pipe_len(s@.skip(j as int)) {
                Some(n) => Some(((j - i) + n) as nat),
                None => None::<nat>,
            },
        decreases s@.len() - j,
    {
        assert(s@.skip(j as int).skip(1) =~= s@.skip(j + 1));
        j += 1;
    }
    if j < s.len() {
        Some(j - i + 1)
    } else {
        None
    }
}

#[verifier::rlimit(40)]
fn value_head_len_at(s: &VecDeque<Tok>) -> (n: usize)
    ensures
        n == value_head_len(s@),
{
    proof { lemma_value_head_len_bound(s@); }
    if s.len() == 0 {
        return 0;
    }
    let m: usize = if word_at(s, 0, "move") { 1 } else { 0 };
    if punct_at(s, m, '|') && !punct_at(s, m + 1, '|') {
        match pipe_len_at(s, m + 1) {
            Some(n) => m + 1 + n,
            None => 0,
        }
    } else if punct_at(s, 0, '<') {
        assert(s@.skip(1).len() == s@.len() - 1);
        match angle_len_at(s, 1, 0) {
            Some(n) => 1 + n,
            None => 0,
        }
    } else {
        0
    }
}

#[verifier::rlimit(40)]
fn value_len_at(s: &VecDeque<Tok>) -> (n: usize)
    ensures
        n == value_len(s@),
        n <= s@.len(),
{
    proof { lemma_value_len_bound(s@); }
    let h = value_head_len_at(s);
    let mut i: usize = h;
    while i < s.len() && !punct_at(s, i, ',')
        invariant
            h <= i <= s@.len(),
            h == value_head_len(s@),
            value_len(s@) == i + value_rest_len(s@.skip(i as int)),
        decreases s@.len() - i,
    {
        let ghost t = s@.skip(i as int);
        assert(t.skip(1) =~= s@.skip(i + 1));
        if colon2_at_pos(s, i) && punct_at(s, i + 2, '<') {
            assert(t.skip(3) =~= s@.skip(i + 3));
            proof { lemma_angle_len_bounds(t.skip(3), 0); }
            match angle_len_at(s, i + 3, 0) {
                Some(n) => {
                    assert(t.skip(3 + n) =~= s@.skip(i + 3 + n));
                    i = i + 3 + n;
                },
                None => {
                    i = i + 1;
                },
            }
        } else {
            i = i + 1;
        }
    }
    i
}

#[verifier::rlimit(40)]
fn guard_len_at(s: &VecDeque<Tok>) -> (n: usize)
    ensures
        n == guard_len(s@),
        n <= s@.len(),
{
    let mut i: usize = 0;
    let mut want: usize = 0;
    let mut at_operand = true;
    assert(s@.skip(0) =~= s@);
    loop
        invariant
            i <= s@.len(),
            want <= i,
            guard_len(s@) == i + guard_scan(s@.skip(i as int), want as nat, at_operand),
        ensures
            i <= s@.len(),
            guard_len(s@) == i,
        decreases s@.len() - i,
    {
        if i >= s.len() || punct_at(s, i, ';') {
            break;
        }
        let ghost t = s@.skip(i as int);
        assert(t.skip(1) =~= s@.skip(i + 1));
        assert(t[0] == s@[i as int]);
        if group_at(s, i, Delim::Brace) {
            if want > 0 || at_operand {
                if want > 0 {
                    want = want - 1;
                }
                at_operand = false;
                i = i + 1;
            } else {
                break;
            }
        } else if word_at(s, i, "if") || word_at(s, i, "match") || word_at(s, i, "while") || word_at(s, i, "for")
            || word_at(s, i, "loop") || word_at(s, i, "unsafe") {
            want = want + 1;
            at_operand = false;
            i = i + 1;
        } else if word_at(s, i, "else") {
            if word_at(s, i + 1, "if") {
                assert(t[1] == s@[i + 1]);
            } else {
                want = want + 1;
            }
            at_operand = false;
            i = i + 1;
        } else {
            at_operand = match &s[i] {
                Tok::Punct(c, _) => *c != '?',
                _ => false,
            };
            i = i + 1;
        }
    }
    i
}

// ---------------------------------------------------------------------------
// The parsed definition and its model
// ---------------------------------------------------------------------------

/// A field of a state, or a parameter of a transition: a name and a type.
#[derive(Debug)]
pub struct TypedField {
    pub name: String,
    pub ty: Vec<Tok>,
}

/// A state and its fields.
#[derive(Debug)]
pub struct TypedState {
    pub name: String,
    pub fields: Vec<TypedField>,
}

/// An assignment of a target field in a transition's body.
#[derive(Debug)]
pub struct FieldAssignment {
    pub field: String,
    pub value: Vec<Tok>,
}

/// A transition: its parameters, source states, target state, optional
/// guard and the assignments that build the target state's fields.
#[derive(Debug)]
pub struct TypedTransition {
    pub name: String,
    pub params: Vec<TypedField>,
    pub sources: Vec<String>,
    pub target: String,
    pub guard: Option<Vec<Tok>>,
    pub field_assignments: Vec<FieldAssignment>,
}

/// The kind of a collection.
#[derive(Debug)]
pub enum CollectionKind {
    /// Map with a key type the caller provides.
    KeyedMap(Vec<Tok>),
    /// Queue with a generated key field.
    Queue { key_name: String, key_type: Vec<Tok> },
}

/// A collection with its state machine.
#[derive(Debug)]
pub struct TypedCollection {
    pub name: String,
    pub kind: CollectionKind,
    pub states: Vec<TypedState>,
    pub transitions: Vec<TypedTransition>,
}

/// A whole store definition.
#[derive(Debug)]
pub struct TypedStore {
    pub vis: Vec<Tok>,
    pub name: String,
    pub collections: Vec<TypedCollection>,
}

/// Model of a [`TypedField`].
pub struct FieldModel {
    pub name: String,
    pub ty: Seq<Tok>,
}

/// Model of a [`TypedState`].
pub struct StateModel {
    pub name: String,
    pub fields: Seq<FieldModel>,
}

/// Model of a [`FieldAssignment`].
pub struct AssignmentModel {
    pub field: String,
    pub value: Seq<Tok>,
}

/// Model of a [`TypedTransition`].
pub struct TransitionModel {
    pub name: String,
    pub params: Seq<FieldModel>,
    pub sources: Seq<String>,
    pub target: String,
    pub guard: Option<Seq<Tok>>,
    pub field_assignments: Seq<AssignmentModel>,
}

/// Model of a [`CollectionKind`].
pub enum KindModel {
    KeyedMap(Seq<Tok>),
    Queue { key_name: String, key_type: Seq<Tok> },
}

/// Model of a [`TypedCollection`].
pub struct CollectionModel {
    pub name: String,
    pub kind: KindModel,
    pub states: Seq<StateModel>,
    pub transitions: Seq<TransitionModel>,
}

/// Model of a [`TypedStore`].
pub struct StoreModel {
    pub vis: Seq<Tok>,
    pub name: String,
    pub collections: Seq<CollectionModel>,
}

impl View for TypedField {
    type V = FieldModel;

    open spec fn view(&self) -> FieldModel {
        FieldModel { name: self.name, ty: self.ty@ }
    }
}

/// The models of a list of fields.
pub open spec fn fields_model(v: Seq<TypedField>) -> Seq<FieldModel> {
    v.map_values(|f: TypedField| f@)
}

impl View for TypedState {
    type V = StateModel;

    open spec fn view(&self) -> StateModel {
        StateModel { name: self.name, fields: fields_model(self.fields@) }
    }
}

impl View for FieldAssignment {
    type V = AssignmentModel;

    open spec fn view(&self) -> AssignmentModel {
        AssignmentModel { field: self.field, value: self.value@ }
    }
}

impl View for TypedTransition {
    type V = TransitionModel;

    open spec fn view(&self) -> TransitionModel {
        TransitionModel {
            name: self.name,
            params: fields_model(self.params@),
            sources: self.sources@,
            target: self.target,
            guard: match self.guard {
                Some(g) => Some(g@),
                None => None,
            },
            field_assignments: self.field_assignments@.map_values(|a: FieldAssignment| a@),
        }
    }
}

impl View for CollectionKind {
    type V = KindModel;

    open spec fn view(&self) -> KindModel {
        match self {
            CollectionKind::KeyedMap(t) => KindModel::KeyedMap(t@),
            CollectionKind::Queue { key_name, key_type } => KindModel::Queue {
                key_name: *key_name,
                key_type: key_type@,
            },
        }
    }
}

impl View for TypedCollection {
    type V = CollectionModel;

    open spec fn view(&self) -> CollectionModel {
        CollectionModel {
            name: self.name,
            kind: self.kind@,
            states: self.states@.map_values(|st: TypedState| st@),
            transitions: self.transitions@.map_values(|t: TypedTransition| t@),
        }
    }
}

impl View for TypedStore {
    type V = StoreModel;

    open spec fn view(&self) -> StoreModel {
        StoreModel {
            vis: self.vis@,
            name: self.name,
            collections: self.collections@.map_values(|c: TypedCollection| c@),
        }
    }
}

// ---------------------------------------------------------------------------
// The grammar
// ---------------------------------------------------------------------------

/// A field `name : type` at the front of `s`, and how many tokens it spans.
pub open spec fn field_def(s: Seq<Tok>) -> Result<(FieldModel, nat), ParseError> {
    match name_result(s) {
        Err(e) => Err(e),
        Ok(name) => if !(s.len() > 1 && is_punct(s[1], ':')) {
            Err(ParseError::ExpectedPunct(':'))
        } else {
            match type_len(s.skip(2)) {
                None => Err(ParseError::ExpectedType),
                Some(n) => Ok((FieldModel { name, ty: s.skip(2).take(n as int) }, n + 2)),
            }
        },
    }
}

/// All of `s` as fields separated by `,`, with an optional trailing `,`.
pub open spec fn field_list(s: Seq<Tok>) -> Result<Seq<FieldModel>, ParseError>
    decreases s.len(),
{
    if s.len() == 0 {
        Ok(Seq::empty())
    } else {
        match field_def(s) {
            Err(e) => Err(e),
            Ok((f, n)) => {
                proof { lemma_type_len_bounds(s.skip(2)); }
                let rest = s.skip(n as int);
                if rest.len() == 0 {
                    Ok(seq![f])
                } else if !is_punct(rest[0], ',') {
                    Err(ParseError::ExpectedPunct(','))
                } else {
                    match field_list(rest.skip(1)) {
                        Err(e) => Err(e),
                        Ok(fs) => Ok(seq![f] + fs),
                    }
                }
            },
        }
    }
}

/// All of `s` as names separated by `,`, with an optional trailing `,`.
pub open spec fn name_list(s: Seq<Tok>) -> Result<Seq<String>, ParseError>
    decreases s.len(),
{
    if s.len() == 0 {
        Ok(Seq::empty())
    } else {
        match name_result(s) {
            Err(e) => Err(e),
            Ok(name) => {
                let rest = s.skip(1);
                if rest.len() == 0 {
                    Ok(seq![name])
                } else if !is_punct(rest[0], ',') {
                    Err(ParseError::ExpectedPunct(','))
                } else {
                    match name_list(rest.skip(1)) {
                        Err(e) => Err(e),
                        Ok(ns) => Ok(seq![name] + ns),
                    }
                }
            },
        }
    }
}

/// All of `s` as field assignments `name : value`, each with an optional `,`.
pub open spec fn assignment_list(s: Seq<Tok>) -> Result<Seq<AssignmentModel>, ParseError>
    decreases s.len(),
{
    if s.len() == 0 {
        Ok(Seq::empty())
    } else {
        match name_result(s) {
            Err(e) => Err(e),
            Ok(field) => if !(s.len() > 1 && is_punct(s[1], ':')) {
                Err(ParseError::ExpectedPunct(':'))
            } else {
                let n = value_len(s.skip(2));
                if n == 0 {
                    Err(ParseError::ExpectedExpression)
                } else {
                    proof { lemma_value_len_bound(s.skip(2)); }
                    let a = AssignmentModel { field, value: s.skip(2).take(n as int) };
                    let rest = s.skip(2 + n as int);
                    let rest = if rest.len() > 0 && is_punct(rest[0], ',') { rest.skip(1) } else { rest };
                    match assignment_list(rest) {
                        Err(e) => Err(e),
                        Ok(more) => Ok(seq![a] + more),
                    }
                }
            },
        }
    }
}

/// All of `s` as states: a name, its fields in braces if it has any, and an
/// optional `,`.
pub open spec fn state_list(s: Seq<Tok>) -> Result<Seq<StateModel>, ParseError>
    decreases s.len(),
{
    if s.len() == 0 {
        Ok(Seq::empty())
    } else {
        match name_result(s) {
            Err(e) => Err(e),
            Ok(name) => {
                let has_fields = s.len() > 1 && is_group(s[1], Delim::Brace);
                let fields = if has_fields { field_list(group_inner(s[1])) } else { Ok(Seq::empty()) };
                match fields {
                    Err(e) => Err(e),
                    Ok(fields) => {
                        let rest = s.skip(if has_fields { 2 } else { 1 });
                        let rest = if rest.len() > 0 && is_punct(rest[0], ',') { rest.skip(1) } else { rest };
                        match state_list(rest) {
                            Err(e) => Err(e),
                            Ok(more) => Ok(seq![StateModel { name, fields }] + more),
                        }
                    },
                }
            },
        }
    }
}

/// The source states of a transition: one name, or names in parentheses.
pub open spec fn sources_part(s: Seq<Tok>) -> Result<(Seq<String>, nat), ParseError> {
    if s.len() > 0 && is_group(s[0], Delim::Paren) {
        match name_list(group_inner(s[0])) {
            Err(e) => Err(e),
            Ok(ns) => Ok((ns, 1)),
        }
    } else {
        match name_result(s) {
            Err(e) => Err(e),
            Ok(n) => Ok((seq![n], 1)),
        }
    }
}

/// What follows the target of a transition: an optional `where` guard, then
/// the body in braces or `;`.
pub open spec fn transition_tail(s: Seq<Tok>) -> Result<(Option<Seq<Tok>>, Seq<AssignmentModel>, nat), ParseError> {
    let has_guard = s.len() > 0 && is_word(s[0], "where"@);
    let g = if has_guard { guard_len(s.skip(1)) } else { 0 };
    if has_guard && g == 0 {
        Err(ParseError::ExpectedExpression)
    } else {
        let guard = if has_guard { Some(s.skip(1).take(g as int)) } else { None };
        let k: int = if has_guard { 1 + g as int } else { 0 };
        let rest = s.skip(k);
        if rest.len() > 0 && is_group(rest[0], Delim::Brace) {
            match assignment_list(group_inner(rest[0])) {
                Err(e) => Err(e),
                Ok(body) => Ok((guard, body, (k + 1) as nat)),
            }
        } else if rest.len() > 0 && is_punct(rest[0], ';') {
            Ok((guard, Seq::empty(), (k + 1) as nat))
        } else {
            Err(ParseError::ExpectedPunct(';'))
        }
    }
}

/// A transition at the front of `s`, and how many tokens it spans.
pub open spec fn transition_def(s: Seq<Tok>) -> Result<(TransitionModel, nat), ParseError> {
    match name_result(s) {
        Err(e) => Err(e),
        Ok(name) => if !(s.len() > 1 && is_group(s[1], Delim::Paren)) {
            Err(ParseError::ExpectedGroup(Delim::Paren))
        } else {
            match field_list(group_inner(s[1])) {
                Err(e) => Err(e),
                Ok(params) => if !(s.len() > 2 && is_punct(s[2], ':')) {
                    Err(ParseError::ExpectedPunct(':'))
                } else {
                    match sources_part(s.skip(3)) {
                        Err(e) => Err(e),
                        Ok((sources, _)) => if !arrow_at(s.skip(4)) {
                            Err(ParseError::ExpectedArrow)
                        } else {
                            match name_result(s.skip(6)) {
                                Err(e) => Err(e),
                                Ok(target) => match transition_tail(s.skip(7)) {
                                    Err(e) => Err(e),
                                    Ok((guard, assignments, n)) => Ok((
                                        TransitionModel {
                                            name,
                                            params,
                                            sources,
                                            target,
                                            guard,
                                            field_assignments: assignments,
                                        },
                                        7 + n,
                                    )),
                                },
                            }
                        },
                    }
                },
            }
        },
    }
}

pub proof fn lemma_guard_scan_bound(s: Seq<Tok>, want: nat, at_operand: bool)
    ensures
        guard_scan(s, want, at_operand) <= s.len(),
        guard_scan(s, want, at_operand) < s.len() ==> is_group(s[guard_scan(s, want, at_operand) as int], Delim::Brace)
            || is_punct(s[guard_scan(s, want, at_operand) as int], ';'),
    decreases s.len(),
{
    if s.len() > 0 && !is_punct(s[0], ';') {
        let w: nat = if is_group(s[0], Delim::Brace) {
            if want > 0 { (want - 1) as nat } else { 0 }
        } else if block_keyword(s[0]) {
            want + 1
        } else if is_word(s[0], "else"@) {
            if s.len() > 1 && is_word(s[1], "if"@) { want } else { want + 1 }
        } else {
            want
        };
        let a: bool = if is_group(s[0], Delim::Brace) || block_keyword(s[0]) || is_word(s[0], "else"@) { false } else { opens_operand(s[0]) };
        if !(is_group(s[0], Delim::Brace) && !(want > 0 || at_operand)) {
            lemma_guard_scan_bound(s.skip(1), w, a);
            assert(guard_scan(s, want, at_operand) == 1 + guard_scan(s.skip(1), w, a));
            if guard_scan(s.skip(1), w, a) < s.skip(1).len() {
                assert(s[guard_scan(s, want, at_operand) as int] == s.skip(1)[guard_scan(s.skip(1), w, a) as int]);
            }
        }
    }
}

pub proof fn lemma_guard_len_bound(s: Seq<Tok>)
    ensures
        guard_len(s) <= s.len(),
        guard_len(s) < s.len() ==> is_group(s[guard_len(s) as int], Delim::Brace) || is_punct(s[guard_len(s) as int], ';'),
{
    lemma_guard_scan_bound(s, 0, true);
}

pub proof fn lemma_transition_def_bounds(s: Seq<Tok>)
    ensures
        transition_def(s) matches Ok((_, n)) ==> 1 <= n <= s.len(),
{
    if let Ok((_, n)) = transition_def(s) {
        let t = s.skip(7);
        let has_guard = t.len() > 0 && is_word(t[0], "where"@);
        if has_guard {
            lemma_guard_len_bound(t.skip(1));
        }
    }
}

/// All of `s` as transitions.
pub open spec fn transition_list(s: Seq<Tok>) -> Result<Seq<TransitionModel>, ParseError>
    decreases s.len(),
{
    if s.len() == 0 {
        Ok(Seq::empty())
    } else {
        match transition_def(s) {
            Err(e) => Err(e),
            Ok((t, n)) => {
                proof { lemma_transition_def_bounds(s); }
                match transition_list(s.skip(n as int)) {
                    Err(e) => Err(e),
                    Ok(more) => Ok(seq![t] + more),
                }
            },
        }
    }
}

/// What the sections of a collection's body give: its states, its
/// transitions and its key declaration, each from the last section that
/// gives it.
pub struct SectionsModel {
    pub states: Seq<StateModel>,
    pub transitions: Seq<TransitionModel>,
    pub key: Option<(String, Seq<Tok>)>,
}

/// All of `s` as sections, each updating `acc`.
pub open spec fn section_list(s: Seq<Tok>, acc: SectionsModel) -> Result<SectionsModel, ParseError>
    decreases s.len(),
{
    if s.len() == 0 {
        Ok(acc)
    } else {
        match name_result(s) {
            Err(e) => Err(e),
            Ok(section) => if section@ == "key"@ {
                match name_result(s.skip(1)) {
                    Err(e) => Err(e),
                    Ok(key_name) => if !(s.len() > 2 && is_punct(s[2], ':')) {
                        Err(ParseError::ExpectedPunct(':'))
                    } else {
                        match type_len(s.skip(3)) {
                            None => Err(ParseError::ExpectedType),
                            Some(n) => {
                                proof { lemma_type_len_bounds(s.skip(3)); }
                                let rest = s.skip(3 + n as int);
                                let rest = if rest.len() > 0 && is_punct(rest[0], ',') { rest.skip(1) } else { rest };
                                section_list(rest, SectionsModel { key: Some((key_name, s.skip(3).take(n as int))), ..acc })
                            },
                        }
                    },
                }
            } else if section@ == "states"@ {
                if !(s.len() > 1 && is_group(s[1], Delim::Brace)) {
                    Err(ParseError::ExpectedGroup(Delim::Brace))
                } else {
                    match state_list(group_inner(s[1])) {
                        Err(e) => Err(e),
                        Ok(states) => section_list(s.skip(2), SectionsModel { states, ..acc }),
                    }
                }
            } else if section@ == "transitions"@ {
                if !(s.len() > 1 && is_group(s[1], Delim::Brace)) {
                    Err(ParseError::ExpectedGroup(Delim::Brace))
                } else {
                    match transition_list(group_inner(s[1])) {
                        Err(e) => Err(e),
                        Ok(transitions) => section_list(s.skip(2), SectionsModel { transitions, ..acc }),
                    }
                }
            } else {
                Err(ParseError::ExpectedSection)
            },
        }
    }
}

/// The kind part of a collection after its `:`: `Map<type>` or `Queue`,
/// without the key of a queue, and how many tokens it spans.
pub open spec fn kind_part(s: Seq<Tok>) -> Result<(Option<Seq<Tok>>, nat), ParseError> {
    match name_result(s) {
        Err(e) => Err(e),
        Ok(kind) => if kind@ == "Map"@ {
            if !(s.len() > 1 && is_punct(s[1], '<')) {
                Err(ParseError::ExpectedPunct('<'))
            } else {
                match type_len(s.skip(2)) {
                    None => Err(ParseError::ExpectedType),
                    Some(n) => if !(s.len() > 2 + n && is_punct(s[2 + n as int], '>')) {
                        Err(ParseError::ExpectedPunct('>'))
                    } else {
                        Ok((Some(s.skip(2).take(n as int)), n + 3))
                    },
                }
            }
        } else if kind@ == "Queue"@ {
            Ok((None, 1))
        } else {
            Err(ParseError::ExpectedMapOrQueue)
        },
    }
}

/// No sections seen yet.
pub open spec fn no_sections() -> SectionsModel {
    SectionsModel { states: Seq::empty(), transitions: Seq::empty(), key: None }
}

/// A collection at the front of `s`, and how many tokens it spans.
pub open spec fn collection_def(s: Seq<Tok>) -> Result<(CollectionModel, nat), ParseError> {
    match name_result(s) {
        Err(e) => Err(e),
        Ok(name) => if !(s.len() > 1 && is_punct(s[1], ':')) {
            Err(ParseError::ExpectedPunct(':'))
        } else {
            match kind_part(s.skip(2)) {
                Err(e) => Err(e),
                Ok((map_key, k)) => {
                    let j = 2 + k as int;
                    if !(s.len() > j && is_group(s[j], Delim::Brace)) {
                        Err(ParseError::ExpectedGroup(Delim::Brace))
                    } else {
                        match section_list(group_inner(s[j]), no_sections()) {
                            Err(e) => Err(e),
                            Ok(secs) => {
                                let kind = match map_key {
                                    Some(t) => Ok(KindModel::KeyedMap(t)),
                                    None => match secs.key {
                                        Some((key_name, key_type)) => Ok(KindModel::Queue { key_name, key_type }),
                                        None => Err(ParseError::QueueRequiresKey),
                                    },
                                };
                                match kind {
                                    Err(e) => Err(e),
                                    Ok(kind) => {
                                        let n = if s.len() > j + 1 && is_punct(s[j + 1], ',') { j + 2 } else { j + 1 };
                                        Ok((
                                            CollectionModel {
                                                name,
                                                kind,
                                                states: secs.states,
                                                transitions: secs.transitions,
                                            },
                                            n as nat,
                                        ))
                                    },
                                }
                            },
                        }
                    }
                },
            }
        },
    }
}

pub proof fn lemma_collection_def_bounds(s: Seq<Tok>)
    ensures
        collection_def(s) matches Ok((_, n)) ==> 1 <= n <= s.len(),
{
    if let Ok((_, n)) = collection_def(s) {
        if let Some(name) = name_result(s.skip(2)).ok() {
            if name@ == "Map"@ {
                lemma_type_len_bounds(s.skip(2).skip(2));
            }
        }
    }
}

/// All of `s` as collections.
pub open spec fn collection_list(s: Seq<Tok>) -> Result<Seq<CollectionModel>, ParseError>
    decreases s.len(),
{
    if s.len() == 0 {
        Ok(Seq::empty())
    } else {
        match collection_def(s) {
            Err(e) => Err(e),
            Ok((c, n)) => {
                proof { lemma_collection_def_bounds(s); }
                match collection_list(s.skip(n as int)) {
                    Err(e) => Err(e),
                    Ok(more) => Ok(seq![c] + more),
                }
            },
        }
    }
}

/// What the tokens of a `store!` invocation define: the store, or why they
/// do not follow the grammar.
pub open spec fn store_def(s: Seq<Tok>) -> Result<StoreModel, ParseError> {
    let v = vis_len(s) as int;
    match name_result(s.skip(v)) {
        Err(e) => Err(e),
        Ok(name) => if !(s.len() > v + 1 && is_group(s[v + 1], Delim::Brace)) {
            Err(ParseError::ExpectedGroup(Delim::Brace))
        } else {
            match collection_list(group_inner(s[v + 1])) {
                Err(e) => Err(e),
                Ok(collections) => if s.len() > v + 2 {
                    Err(ParseError::UnexpectedToken)
                } else {
                    Ok(StoreModel { vis: s.take(v), name, collections })
                },
            }
        },
    }
}

// ---------------------------------------------------------------------------
// The parser
// ---------------------------------------------------------------------------

pub(crate) fn parse_field_def(s: &mut VecDeque<Tok>) -> (r: Result<TypedField, ParseError>)
    ensures
        match field_def(old(s)@) {
            Ok((m, n)) => r matches Ok(f) && f@ == m && final(s)@ == old(s)@.skip(n as int),
            Err(e) => r == Err::<TypedField, ParseError>(e),
        },
{
    let ghost s0 = s@;
    let name = match take_name(s) {
        Ok(n) => n,
        Err(e) => return Err(e),
    };
    if !punct_at(s, 0, ':') {
        return Err(ParseError::ExpectedPunct(':'));
    }
    skip_tokens(s, 1);
    assert(s@ =~= s0.skip(2));
    assert(s@.skip(0) =~= s@);
    proof { lemma_type_len_bounds(s@); }
    let _ = s.len();
    let n = match type_len_at(s, 0) {
        Some(n) => n,
        None => return Err(ParseError::ExpectedType),
    };
    let ty = take_tokens(s, n);
    assert(s@ =~= s0.skip(n + 2));
    assert(ty@ =~= s0.skip(2).take(n as int));
    assert(is_punct(s0[1], ':'));
    assert(type_len(s0.skip(2)) == Some(n as nat));
    Ok(TypedField { name, ty })
}

pub(crate) fn parse_field_list(s: &mut VecDeque<Tok>) -> (r: Result<Vec<TypedField>, ParseError>)
    ensures
        match field_list(old(s)@) {
            Ok(ms) => r matches Ok(v) && fields_model(v@) == ms,
            Err(e) => r == Err::<Vec<TypedField>, ParseError>(e),
        },
    decreases old(s)@.len(),
{
    let ghost s0 = s@;
    if s.len() == 0 {
        let v: Vec<TypedField> = Vec::new();
        assert(fields_model(v@) =~= Seq::<FieldModel>::empty());
        return Ok(v);
    }
    proof { lemma_type_len_bounds(s0.skip(2)); }
    let f = match parse_field_def(s) {
        Ok(f) => f,
        Err(e) => return Err(e),
    };
    if s.len() == 0 {
        let v = vec![f];
        assert(fields_model(v@) =~= seq![f@]);
        return Ok(v);
    }
    if !punct_at(s, 0, ',') {
        return Err(ParseError::ExpectedPunct(','));
    }
    let ghost rest = s@;
    skip_tokens(s, 1);
    assert(s@ =~= rest.skip(1));
    let mut more = match parse_field_list(s) {
        Ok(v) => v,
        Err(e) => return Err(e),
    };
    let ghost tail = more@;
    more.insert(0, f);
    assert(fields_model(more@) =~= seq![f@] + fields_model(tail));
    Ok(more)
}

fn parse_name_list(s: &mut VecDeque<Tok>) -> (r: Result<Vec<String>, ParseError>)
    ensures
        match name_list(old(s)@) {
            Ok(ns) => r matches Ok(v) && v@ == ns,
            Err(e) => r == Err::<Vec<String>, ParseError>(e),
        },
    decreases old(s)@.len(),
{
    let ghost s0 = s@;
    if s.len() == 0 {
        return Ok(Vec::new());
    }
    let name = match take_name(s) {
        Ok(n) => n,
        Err(e) => return Err(e),
    };
    if s.len() == 0 {
        let v = vec![name];
        assert(v@ =~= seq![name]);
        return Ok(v);
    }
    if !punct_at(s, 0, ',') {
        return Err(ParseError::ExpectedPunct(','));
    }
    let ghost rest = s@;
    skip_tokens(s, 1);
    assert(s@ =~= rest.skip(1));
    let mut more = match parse_name_list(s) {
        Ok(v) => v,
        Err(e) => return Err(e),
    };
    let ghost tail = more@;
    more.insert(0, name);
    assert(more@ =~= seq![name] + tail);
    Ok(more)
}

/// The models of a list of field assignments.
pub open spec fn assignments_model(v: Seq<FieldAssignment>) -> Seq<AssignmentModel> {
    v.map_values(|a: FieldAssignment| a@)
}

fn parse_assignment_list(s: &mut VecDeque<Tok>) -> (r: Result<Vec<FieldAssignment>, ParseError>)
    ensures
        match assignment_list(old(s)@) {
            Ok(ms) => r matches Ok(v) && assignments_model(v@) == ms,
            Err(e) => r == Err::<Vec<FieldAssignment>, ParseError>(e),
        },
    decreases old(s)@.len(),
{
    let ghost s0 = s@;
    if s.len() == 0 {
        let v: Vec<FieldAssignment> = Vec::new();
        assert(assignments_model(v@) =~= Seq::<AssignmentModel>::empty());
        return Ok(v);
    }
    let field = match take_name(s) {
        Ok(n) => n,
        Err(e) => return Err(e),
    };
    if !punct_at(s, 0, ':') {
        return Err(ParseError::ExpectedPunct(':'));
    }
    skip_tokens(s, 1);
    assert(s@ =~= s0.skip(2));
    let n = value_len_at(s);
    if n == 0 {
        return Err(ParseError::ExpectedExpression);
    }
    let value = take_tokens(s, n);
    assert(s@ =~= s0.skip(2 + n as int));
    if punct_at(s, 0, ',') {
        let ghost before = s@;
        skip_tokens(s, 1);
        assert(s@ =~= before.skip(1));
    }
    let mut more = match parse_assignment_list(s) {
        Ok(v) => v,
        Err(e) => return Err(e),
    };
    let ghost tail = more@;
    let a = FieldAssignment { field, value };
    more.insert(0, a);
    assert(assignments_model(more@) =~= seq![a@] + assignments_model(tail));
    Ok(more)
}

/// The models of a list of states.
pub open spec fn states_model(v: Seq<TypedState>) -> Seq<StateModel> {
    v.map_values(|st: TypedState| st@)
}

fn parse_state_list(s: &mut VecDeque<Tok>) -> (r: Result<Vec<TypedState>, ParseError>)
    ensures
        match state_list(old(s)@) {
            Ok(ms) => r matches Ok(v) && states_model(v@) == ms,
            Err(e) => r == Err::<Vec<TypedState>, ParseError>(e),
        },
    decreases old(s)@.len(),
{
    let ghost s0 = s@;
    if s.len() == 0 {
        let v: Vec<TypedState> = Vec::new();
        assert(states_model(v@) =~= Seq::<StateModel>::empty());
        return Ok(v);
    }
    let name = match take_name(s) {
        Ok(n) => n,
        Err(e) => return Err(e),
    };
    let fields = if group_at(s, 0, Delim::Brace) {
        let mut inner = take_group(s);
        assert(s@ =~= s0.skip(2));
        match parse_field_list(&mut inner) {
            Ok(v) => v,
            Err(e) => return Err(e),
        }
    } else {
        let v: Vec<TypedField> = Vec::new();
        assert(fields_model(v@) =~= Seq::<FieldModel>::empty());
        v
    };
    if punct_at(s, 0, ',') {
        let ghost before = s@;
        skip_tokens(s, 1);
        assert(s@ =~= before.skip(1));
    }
    let mut more = match parse_state_list(s) {
        Ok(v) => v,
        Err(e) => return Err(e),
    };
    let ghost tail = more@;
    let st = TypedState { name, fields };
    more.insert(0, st);
    assert(states_model(more@) =~= seq![st@] + states_model(tail));
    Ok(more)
}

fn parse_sources(s: &mut VecDeque<Tok>) -> (r: Result<Vec<String>, ParseError>)
    ensures
        match sources_part(old(s)@) {
            Ok((ns, n)) => r matches Ok(v) && v@ == ns && final(s)@ == old(s)@.skip(n as int),
            Err(e) => r == Err::<Vec<String>, ParseError>(e),
        },
{
    if group_at(s, 0, Delim::Paren) {
        let mut inner = take_group(s);
        parse_name_list(&mut inner)
    } else {
        match take_name(s) {
            Ok(n) => {
                let v = vec![n];
                assert(v@ =~= seq![n]);
                Ok(v)
            },
            Err(e) => Err(e),
        }
    }
}

fn parse_transition_tail(s: &mut VecDeque<Tok>) -> (r: Result<(Option<Vec<Tok>>, Vec<FieldAssignment>), ParseError>)
    ensures
        match transition_tail(old(s)@) {
            Ok((g, body, n)) => r matches Ok((rg, rbody)) && final(s)@ == old(s)@.skip(n as int)
                && n <= old(s)@.len()
                && assignments_model(rbody@) == body && match rg {
                    Some(x) => g == Some(x@),
                    None => g is None,
                },
            Err(e) => r == Err::<(Option<Vec<Tok>>, Vec<FieldAssignment>), ParseError>(e),
        },
{
    let ghost s0 = s@;
    let guard = if word_at(s, 0, "where") {
        skip_tokens(s, 1);
        let g = guard_len_at(s);
        if g == 0 {
            return Err(ParseError::ExpectedExpression);
        }
        let toks = take_tokens(s, g);
        assert(s@ =~= s0.skip(1 + g as int));
        Some(toks)
    } else {
        assert(s@ =~= s0.skip(0));
        None
    };
    let ghost k: int = if guard is Some { 1 + guard_len(s0.skip(1)) as int } else { 0 };
    assert(s@ =~= s0.skip(k));
    if group_at(s, 0, Delim::Brace) {
        let mut inner = take_group(s);
        assert(s@ =~= s0.skip(k + 1));
        match parse_assignment_list(&mut inner) {
            Ok(body) => Ok((guard, body)),
            Err(e) => Err(e),
        }
    } else if punct_at(s, 0, ';') {
        skip_tokens(s, 1);
        assert(s@ =~= s0.skip(k + 1));
        let body: Vec<FieldAssignment> = Vec::new();
        assert(assignments_model(body@) =~= Seq::<AssignmentModel>::empty());
        Ok((guard, body))
    } else {
        Err(ParseError::ExpectedPunct(';'))
    }
}

impl TypedTransition {
    /// Parses one transition from the front of `s`, removing its tokens.
    pub fn parse(s: &mut VecDeque<Tok>) -> (r: Result<TypedTransition, ParseError>)
        ensures
            match transition_def(old(s)@) {
                Ok((m, n)) => r matches Ok(t) && t@ == m && final(s)@ == old(s)@.skip(n as int),
                Err(e) => r == Err::<TypedTransition, ParseError>(e),
            },
    {
        let ghost s0 = s@;
        let name = match take_name(s) {
            Ok(n) => n,
            Err(e) => return Err(e),
        };
        if !group_at(s, 0, Delim::Paren) {
            return Err(ParseError::ExpectedGroup(Delim::Paren));
        }
        let mut inner = take_group(s);
        assert(s@ =~= s0.skip(2));
        let params = match parse_field_list(&mut inner) {
            Ok(v) => v,
            Err(e) => return Err(e),
        };
        if !punct_at(s, 0, ':') {
            return Err(ParseError::ExpectedPunct(':'));
        }
        skip_tokens(s, 1);
        assert(s@ =~= s0.skip(3));
        let sources = match parse_sources(s) {
            Ok(v) => v,
            Err(e) => return Err(e),
        };
        assert(s@ =~= s0.skip(4));
        assert(s@.skip(0) =~= s@);
        if !arrow_at_pos(s, 0) {
            return Err(ParseError::ExpectedArrow);
        }
        skip_tokens(s, 2);
        assert(s@ =~= s0.skip(6));
        let target = match take_name(s) {
            Ok(n) => n,
            Err(e) => return Err(e),
        };
        assert(s@ =~= s0.skip(7));
        let (guard, field_assignments) = match parse_transition_tail(s) {
            Ok(x) => x,
            Err(e) => return Err(e),
        };
        proof {
            if let Ok((_, _, n)) = transition_tail(s0.skip(7)) {
                assert(s0.skip(7).skip(n as int) =~= s0.skip(7 + n as int));
            }
        }
        Ok(TypedTransition { name, params, sources, target, guard, field_assignments })
    }
}

/// The models of a list of transitions.
pub open spec fn transitions_model(v: Seq<TypedTransition>) -> Seq<TransitionModel> {
    v.map_values(|t: TypedTransition| t@)
}

fn parse_transition_list(s: &mut VecDeque<Tok>) -> (r: Result<Vec<TypedTransition>, ParseError>)
    ensures
        match transition_list(old(s)@) {
            Ok(ms) => r matches Ok(v) && transitions_model(v@) == ms,
            Err(e) => r == Err::<Vec<TypedTransition>, ParseError>(e),
        },
    decreases old(s)@.len(),
{
    if s.len() == 0 {
        let v: Vec<TypedTransition> = Vec::new();
        assert(transitions_model(v@) =~= Seq::<TransitionModel>::empty());
        return Ok(v);
    }
    proof { lemma_transition_def_bounds(s@); }
    let t = match TypedTransition::parse(s) {
        Ok(t) => t,
        Err(e) => return Err(e),
    };
    let mut more = match parse_transition_list(s) {
        Ok(v) => v,
        Err(e) => return Err(e),
    };
    let ghost tail = more@;
    more.insert(0, t);
    assert(transitions_model(more@) =~= seq![t@] + transitions_model(tail));
    Ok(more)
}

/// The sections of a collection's body seen so far.
struct Sections {
    states: Vec<TypedState>,
    transitions: Vec<TypedTransition>,
    key: Option<(String, Vec<Tok>)>,
}

impl View for Sections {
    type V = SectionsModel;

    closed spec fn view(&self) -> SectionsModel {
        SectionsModel {
            states: states_model(self.states@),
            transitions: transitions_model(self.transitions@),
            key: match self.key {
                Some((n, t)) => Some((n, t@)),
                None => None,
            },
        }
    }
}

fn parse_section_list(s: &mut VecDeque<Tok>, acc: Sections) -> (r: Result<Sections, ParseError>)
    ensures
        match section_list(old(s)@, acc@) {
            Ok(m) => r matches Ok(x) && x@ == m,
            Err(e) => r matches Err(x) && x == e,
        },
    decreases old(s)@.len(),
{
    let ghost s0 = s@;
    if s.len() == 0 {
        return Ok(acc);
    }
    let section = match take_name(s) {
        Ok(n) => n,
        Err(e) => return Err(e),
    };
    if text_eq(section.as_str(), "key") {
        let key_name = match take_name(s) {
            Ok(n) => n,
            Err(e) => return Err(e),
        };
        assert(s@ =~= s0.skip(2));
        if !punct_at(s, 0, ':') {
            return Err(ParseError::ExpectedPunct(':'));
        }
        skip_tokens(s, 1);
        assert(s@ =~= s0.skip(3));
        assert(s@.skip(0) =~= s@);
        let _ = s.len();
        let n = match type_len_at(s, 0) {
            Some(n) => n,
            None => return Err(ParseError::ExpectedType),
        };
        let key_type = take_tokens(s, n);
        assert(s@ =~= s0.skip(3 + n as int));
        if punct_at(s, 0, ',') {
            let ghost before = s@;
            skip_tokens(s, 1);
            assert(s@ =~= before.skip(1));
        }
        let next = Sections { key: Some((key_name, key_type)), ..acc };
        assert(next@ == SectionsModel { key: Some((key_name, s0.skip(3).take(n as int))), ..acc@ });
        parse_section_list(s, next)
    } else if text_eq(section.as_str(), "states") {
        if !group_at(s, 0, Delim::Brace) {
            return Err(ParseError::ExpectedGroup(Delim::Brace));
        }
        let mut inner = take_group(s);
        assert(s@ =~= s0.skip(2));
        let states = match parse_state_list(&mut inner) {
            Ok(v) => v,
            Err(e) => return Err(e),
        };
        parse_section_list(s, Sections { states, ..acc })
    } else if text_eq(section.as_str(), "transitions") {
        if !group_at(s, 0, Delim::Brace) {
            return Err(ParseError::ExpectedGroup(Delim::Brace));
        }
        let mut inner = take_group(s);
        assert(s@ =~= s0.skip(2));
        let transitions = match parse_transition_list(&mut inner) {
            Ok(v) => v,
            Err(e) => return Err(e),
        };
        parse_section_list(s, Sections { transitions, ..acc })
    } else {
        Err(ParseError::ExpectedSection)
    }
}

fn parse_kind_part(s: &mut VecDeque<Tok>) -> (r: Result<Option<Vec<Tok>>, ParseError>)
    ensures
        match kind_part(old(s)@) {
            Ok((k, n)) => r matches Ok(x) && final(s)@ == old(s)@.skip(n as int) && n <= old(s)@.len()
                && match x {
                    Some(t) => k == Some(t@),
                    None => k is None,
                },
            Err(e) => r == Err::<Option<Vec<Tok>>, ParseError>(e),
        },
{
    let ghost s0 = s@;
    let kind = match take_name(s) {
        Ok(n) => n,
        Err(e) => return Err(e),
    };
    if text_eq(kind.as_str(), "Map") {
        if !punct_at(s, 0, '<') {
            return Err(ParseError::ExpectedPunct('<'));
        }
        skip_tokens(s, 1);
        assert(s@ =~= s0.skip(2));
        assert(s@.skip(0) =~= s@);
        let _ = s.len();
        let n = match type_len_at(s, 0) {
            Some(n) => n,
            None => return Err(ParseError::ExpectedType),
        };
        let key_type = take_tokens(s, n);
        assert(s@ =~= s0.skip(2 + n as int));
        if !punct_at(s, 0, '>') {
            return Err(ParseError::ExpectedPunct('>'));
        }
        skip_tokens(s, 1);
        assert(s@ =~= s0.skip(3 + n as int));
        Ok(Some(key_type))
    } else if text_eq(kind.as_str(), "Queue") {
        Ok(None)
    } else {
        Err(ParseError::ExpectedMapOrQueue)
    }
}

impl TypedCollection {
    /// Parses one collection from the front of `s`, removing its tokens.
    #[verifier::spinoff_prover]
    #[verifier::rlimit(60)]
    pub fn parse(s: &mut VecDeque<Tok>) -> (r: Result<TypedCollection, ParseError>)
        ensures
            match collection_def(old(s)@) {
                Ok((m, n)) => r matches Ok(c) && c@ == m && final(s)@ == old(s)@.skip(n as int),
                Err(e) => r == Err::<TypedCollection, ParseError>(e),
            },
    {
        let ghost s0 = s@;
        let name = match take_name(s) {
            Ok(n) => n,
            Err(e) => return Err(e),
        };
        if !punct_at(s, 0, ':') {
            return Err(ParseError::ExpectedPunct(':'));
        }
        skip_tokens(s, 1);
        assert(s@ =~= s0.skip(2));
        let map_key = match parse_kind_part(s) {
            Ok(k) => k,
            Err(e) => return Err(e),
        };
        let ghost j: int = s0.len() - s@.len();
        proof {
            if let Ok((_, k)) = kind_part(s0.skip(2)) {
                assert(s0.skip(2).skip(k as int) =~= s0.skip(2 + k as int));
                assert(j == 2 + k);
            }
        }
        assert(s@ =~= s0.skip(j));
        if !group_at(s, 0, Delim::Brace) {
            return Err(ParseError::ExpectedGroup(Delim::Brace));
        }
        let mut inner = take_group(s);
        assert(s@ =~= s0.skip(j + 1));
        let empty = Sections { states: Vec::new(), transitions: Vec::new(), key: None };
        assert(empty@ == no_sections()) by {
            assert(states_model(empty.states@) =~= Seq::<StateModel>::empty());
            assert(transitions_model(empty.transitions@) =~= Seq::<TransitionModel>::empty());
        }
        let secs = match parse_section_list(&mut inner, empty) {
            Ok(x) => x,
            Err(e) => return Err(e),
        };
        let Sections { states, transitions, key } = secs;
        let kind = match map_key {
            Some(t) => CollectionKind::KeyedMap(t),
            None => match key {
                Some((key_name, key_type)) => CollectionKind::Queue { key_name, key_type },
                None => return Err(ParseError::QueueRequiresKey),
            },
        };
        if punct_at(s, 0, ',') {
            skip_tokens(s, 1);
            assert(s@ =~= s0.skip(j + 2));
        }
        Ok(TypedCollection { name, kind, states, transitions })
    }
}

/// The models of a list of collections.
pub open spec fn collections_model(v: Seq<TypedCollection>) -> Seq<CollectionModel> {
    v.map_values(|c: TypedCollection| c@)
}

fn parse_collection_list(s: &mut VecDeque<Tok>) -> (r: Result<Vec<TypedCollection>, ParseError>)
    ensures
        match collection_list(old(s)@) {
            Ok(ms) => r matches Ok(v) && collections_model(v@) == ms,
            Err(e) => r == Err::<Vec<TypedCollection>, ParseError>(e),
        },
    decreases old(s)@.len(),
{
    if s.len() == 0 {
        let v: Vec<TypedCollection> = Vec::new();
        assert(collections_model(v@) =~= Seq::<CollectionModel>::empty());
        return Ok(v);
    }
    proof { lemma_collection_def_bounds(s@); }
    let c = match TypedCollection::parse(s) {
        Ok(c) => c,
        Err(e) => return Err(e),
    };
    let mut more = match parse_collection_list(s) {
        Ok(v) => v,
        Err(e) => return Err(e),
    };
    let ghost tail = more@;
    more.insert(0, c);
    assert(collections_model(more@) =~= seq![c@] + collections_model(tail));
    Ok(more)
}

pub(crate) fn vis_len_at(s: &VecDeque<Tok>) -> (n: usize)
    ensures
        n == vis_len(s@),
{
    if word_at(s, 0, "pub") {
        if s.len() > 1 {
            match &s[1] {
                Tok::Group(Delim::Paren, inner) => {
                    let scoped = (inner.len() == 1 && match &inner[0] {
                        Tok::Ident(w) => text_eq(w.as_str(), "crate") || text_eq(w.as_str(), "self")
                            || text_eq(w.as_str(), "super"),
                        _ => false,
                    }) || (inner.len() >= 2 && match &inner[0] {
                        Tok::Ident(w) => text_eq(w.as_str(), "in"),
                        _ => false,
                    });
                    if scoped { 2 } else { 1 }
                },
                _ => 1,
            }
        } else {
            1
        }
    } else {
        0
    }
}

impl TypedStore {
    /// Reads a store definition from the tokens of a `store!` invocation.
    pub fn parse(tokens: Vec<Tok>) -> (r: Result<TypedStore, ParseError>)
        ensures
            match store_def(tokens@) {
                Ok(m) => r matches Ok(st) && st@ == m,
                Err(e) => r == Err::<TypedStore, ParseError>(e),
            },
    {
        let mut s = cursor_of(tokens);
        let ghost s0 = s@;
        let v = vis_len_at(&s);
        let vis = take_tokens(&mut s, v);
        let name = match take_name(&mut s) {
            Ok(n) => n,
            Err(e) => return Err(e),
        };
        assert(s@ =~= s0.skip(v + 1));
        if !group_at(&s, 0, Delim::Brace) {
            return Err(ParseError::ExpectedGroup(Delim::Brace));
        }
        let mut inner = take_group(&mut s);
        let collections = match parse_collection_list(&mut inner) {
            Ok(c) => c,
            Err(e) => return Err(e),
        };
        if s.len() > 0 {
            return Err(ParseError::UnexpectedToken);
        }
        Ok(TypedStore { vis, name, collections })
    }
}

} // verus!
