//! What the generated code of a store does, read off its tokens: a handle's
//! transition checks the guard before it takes the item and moves it into
//! the target's collection; a handle dropped with its item puts the item
//! back (under its key for a map, at the front for a queue); a map store's
//! insert refuses a key that is already there; a queue store's push hands out
//! the counter, stores its wrapping successor and appends the new item.
use vstd::prelude::*;
use crate::tokens::{Tok, TokModel, Delim, toks_model};
use crate::emit::{id, pa, pj, lit, grp};
use crate::store_parse::{StateModel, TransitionModel};
use crate::store_codegen::rewrite_model;
use crate::store_emit::{
    map_method_after, queue_method_after, guard_after, map_value_after, queue_value_after, map_handle_after,
    queue_handle_after, map_store_body_after, queue_store_body_after, initial_value_after, pushed_value_after,
    role_name, handle_name, field_name, map_state_methods_after, map_states_methods_after, queue_state_methods_after,
    queue_states_methods_after,
};

verus! {

/// No tokens.
pub open spec fn no_toks() -> Seq<TokModel> {
    Seq::<TokModel>::empty()
}

/// `()`.
pub open spec fn unit_toks() -> TokModel {
    grp(Delim::Paren, no_toks())
}

/// The guard test of a transition, if it has a guard: `if !(<guard>) {
/// return Err(<err>::GuardFailed); }`, with `self.` in the guard read as
/// `item.`.
pub open spec fn guard_toks(g: Option<Seq<Tok>>, err: Seq<char>) -> Seq<TokModel> {
    match g {
        Some(g) => seq![
            id("if"@), pa('!'), grp(Delim::Paren, no_toks() + rewrite_model(toks_model(g))),
            grp(Delim::Brace, no_toks().push(id("return"@)).push(id("Err"@))
                .push(grp(Delim::Paren, no_toks().push(id(err)).push(pj(':')).push(pa(':')).push(id("GuardFailed"@)))).push(pa(';'))),
        ],
        None => no_toks(),
    }
}

/// `let item = self.item.as_ref().unwrap();`: the held item, still held.
pub open spec fn peek_item() -> Seq<TokModel> {
    seq![id("let"@), id("item"@), pa('='), id("self"@), pa('.'), id("item"@), pa('.'), id("as_ref"@), unit_toks(), pa('.'),
        id("unwrap"@), unit_toks(), pa(';')]
}

/// `let item = self.item.take().unwrap();`: the held item, taken.
pub open spec fn take_item() -> Seq<TokModel> {
    seq![id("let"@), id("item"@), pa('='), id("self"@), pa('.'), id("item"@), pa('.'), id("take"@), unit_toks(), pa('.'),
        id("unwrap"@), unit_toks(), pa(';')]
}

/// `self.<field>.lock().unwrap().<method>`
pub open spec fn locked_call(field: Seq<char>, method: Seq<char>) -> Seq<TokModel> {
    seq![id("self"@), pa('.'), id(field), pa('.'), id("lock"@), unit_toks(), pa('.'), id("unwrap"@), unit_toks(), pa('.'), id(method)]
}

/// `Ok(())`
pub open spec fn ok_toks() -> Seq<TokModel> {
    seq![id("Ok"@), grp(Delim::Paren, no_toks().push(unit_toks()))]
}

/// `self.key.clone(),`
pub open spec fn key_clone_comma() -> Seq<TokModel> {
    no_toks().push(id("self"@)).push(pa('.')).push(id("key"@)).push(pa('.')).push(id("clone"@)).push(unit_toks()).push(pa(','))
}

proof fn lemma_guard_append(o: Seq<TokModel>, g: Option<Seq<Tok>>, err: Seq<char>)
    ensures
        guard_after(o, g, err) == o + guard_toks(g, err),
{
    assert(guard_after(o, g, err) =~= o + guard_toks(g, err));
}

/// A map handle's transition looks at the held item and checks the guard
/// (a failed guard returns `GuardFailed` with the item still held), and only
/// then takes the item and inserts it, under the handle's key, into the
/// target state's map, returning `Ok(())`.
pub proof fn law_map_transition_checks_the_guard_before_taking(o: Seq<TokModel>, t: TransitionModel, prefix: Seq<char>, states: Seq<StateModel>, err: Seq<char>)
    ensures
        map_method_after(o, t, prefix, states, err).last() == grp(Delim::Brace,
            peek_item() + guard_toks(t.guard, err) + take_item()
            + locked_call(role_name("target_"@, t.target@), "insert"@)
            + seq![grp(Delim::Paren, map_value_after(key_clone_comma(), t, prefix, states)), pa(';')] + ok_toks()),
{
    let a = no_toks().push(id("let"@)).push(id("item"@)).push(pa('=')).push(id("self"@)).push(pa('.')).push(id("item"@)).push(pa('.'))
        .push(id("as_ref"@)).push(grp(Delim::Paren, no_toks())).push(pa('.')).push(id("unwrap"@)).push(grp(Delim::Paren, no_toks())).push(pa(';'));
    assert(a =~= peek_item());
    lemma_guard_append(a, t.guard, err);
    let b = guard_after(a, t.guard, err);
    let c = b.push(id("let"@)).push(id("item"@)).push(pa('=')).push(id("self"@)).push(pa('.')).push(id("item"@)).push(pa('.')).push(id("take"@))
        .push(grp(Delim::Paren, no_toks())).push(pa('.')).push(id("unwrap"@)).push(grp(Delim::Paren, no_toks())).push(pa(';'))
        .push(id("self"@)).push(pa('.')).push(id(role_name("target_"@, t.target@))).push(pa('.')).push(id("lock"@)).push(grp(Delim::Paren, no_toks())).push(pa('.'));
    let d = c.push(id("unwrap"@)).push(grp(Delim::Paren, no_toks())).push(pa('.')).push(id("insert"@))
        .push(grp(Delim::Paren, map_value_after(key_clone_comma(), t, prefix, states))).push(pa(';')).push(id("Ok"@))
        .push(grp(Delim::Paren, no_toks().push(grp(Delim::Paren, no_toks()))));
    assert(d =~= peek_item() + guard_toks(t.guard, err) + take_item()
        + locked_call(role_name("target_"@, t.target@), "insert"@)
        + seq![grp(Delim::Paren, map_value_after(key_clone_comma(), t, prefix, states)), pa(';')] + ok_toks());
    assert(map_method_after(o, t, prefix, states, err).last() == grp(Delim::Brace, d));
}

/// A queue handle's transition checks the guard (a failed guard returns
/// `GuardFailed` with the item still held) before it takes the item and
/// pushes it to the back of the target state's queue, returning `Ok(())`.
pub proof fn law_queue_transition_checks_the_guard_before_taking(o: Seq<TokModel>, t: TransitionModel, prefix: Seq<char>, k: Seq<char>, states: Seq<StateModel>, err: Seq<char>)
    ensures
        queue_method_after(o, t, prefix, k, states, err).last() == grp(Delim::Brace,
            peek_item() + guard_toks(t.guard, err) + take_item()
            + locked_call(role_name("target_"@, t.target@), "push_back"@)
            + seq![grp(Delim::Paren, queue_value_after(no_toks(), t, prefix, k, states)), pa(';')] + ok_toks()),
{
    let a = no_toks().push(id("let"@)).push(id("item"@)).push(pa('=')).push(id("self"@)).push(pa('.')).push(id("item"@)).push(pa('.'))
        .push(id("as_ref"@)).push(grp(Delim::Paren, no_toks())).push(pa('.')).push(id("unwrap"@)).push(grp(Delim::Paren, no_toks())).push(pa(';'));
    assert(a =~= peek_item());
    lemma_guard_append(a, t.guard, err);
    let b = guard_after(a, t.guard, err);
    let c = b.push(id("let"@)).push(id("item"@)).push(pa('=')).push(id("self"@)).push(pa('.')).push(id("item"@)).push(pa('.')).push(id("take"@))
        .push(grp(Delim::Paren, no_toks())).push(pa('.')).push(id("unwrap"@)).push(grp(Delim::Paren, no_toks())).push(pa(';'))
        .push(id("self"@)).push(pa('.')).push(id(role_name("target_"@, t.target@))).push(pa('.')).push(id("lock"@)).push(grp(Delim::Paren, no_toks())).push(pa('.'));
    let d = c.push(id("unwrap"@)).push(grp(Delim::Paren, no_toks())).push(pa('.')).push(id("push_back"@))
        .push(grp(Delim::Paren, queue_value_after(no_toks(), t, prefix, k, states))).push(pa(';')).push(id("Ok"@))
        .push(grp(Delim::Paren, no_toks().push(grp(Delim::Paren, no_toks()))));
    assert(d =~= peek_item() + guard_toks(t.guard, err) + take_item()
        + locked_call(role_name("target_"@, t.target@), "push_back"@)
        + seq![grp(Delim::Paren, queue_value_after(no_toks(), t, prefix, k, states)), pa(';')] + ok_toks());
    assert(queue_method_after(o, t, prefix, k, states, err).last() == grp(Delim::Brace, d));
}

/// `fn drop(&mut self) { if let Some(item) = self.item.take() { <put back> } }`
/// where `put_back` puts `item` back into the source collection.
pub open spec fn drop_body(put_back: Seq<TokModel>) -> Seq<TokModel> {
    no_toks().push(id("fn"@)).push(id("drop"@)).push(grp(Delim::Paren, no_toks().push(pa('&')).push(id("mut"@)).push(id("self"@))))
        .push(grp(Delim::Brace, no_toks().push(id("if"@)).push(id("let"@)).push(id("Some"@)).push(grp(Delim::Paren, no_toks().push(id("item"@))))
            .push(pa('=')).push(id("self"@)).push(pa('.')).push(id("item"@)).push(pa('.')).push(id("take"@)).push(unit_toks())
            .push(grp(Delim::Brace, put_back))))
}

/// A map handle dropped while it holds its item inserts the item back into
/// its state's map under the handle's key: the handle's last item is
/// `impl Drop for <Handle> { .. self.source_<state>.lock().unwrap().insert(self.key.clone(), item); .. }`.
pub proof fn law_map_handle_puts_back_under_its_key(o: Seq<TokModel>, s: StateModel, prefix: Seq<char>, kt: Seq<Tok>, ts: Seq<TransitionModel>, states: Seq<StateModel>, err: Seq<char>)
    ensures ({
        let r = map_handle_after(o, s, prefix, kt, ts, states, err);
        &&& r.len() >= 5
        &&& r.subrange(r.len() - 5, r.len() - 1) == seq![id("impl"@), id("Drop"@), id("for"@), id(handle_name(prefix, s.name@))]
        &&& r.last() == grp(Delim::Brace, drop_body(locked_call(role_name("source_"@, s.name@), "insert"@)
                + seq![grp(Delim::Paren, key_clone_comma().push(id("item"@))), pa(';')]))
    }),
{
    let r = map_handle_after(o, s, prefix, kt, ts, states, err);
    let put = locked_call(role_name("source_"@, s.name@), "insert"@) + seq![grp(Delim::Paren, key_clone_comma().push(id("item"@))), pa(';')];
    let p2 = no_toks().push(id("self"@)).push(pa('.')).push(id(role_name("source_"@, s.name@))).push(pa('.')).push(id("lock"@))
        .push(grp(Delim::Paren, no_toks())).push(pa('.')).push(id("unwrap"@)).push(grp(Delim::Paren, no_toks())).push(pa('.')).push(id("insert"@))
        .push(grp(Delim::Paren, no_toks().push(id("self"@)).push(pa('.')).push(id("key"@)).push(pa('.')).push(id("clone"@))
            .push(grp(Delim::Paren, no_toks())).push(pa(',')).push(id("item"@)))).push(pa(';'));
    assert(p2 =~= put);
    assert(r.last() == grp(Delim::Brace, drop_body(p2)));
    assert(r.subrange(r.len() - 5, r.len() - 1) =~= seq![id("impl"@), id("Drop"@), id("for"@), id(handle_name(prefix, s.name@))]);
}

/// A queue handle dropped while it holds its item pushes the item back to
/// the front of its state's queue, so the queue's order is kept.
pub proof fn law_queue_handle_puts_back_at_the_front(o: Seq<TokModel>, s: StateModel, prefix: Seq<char>, k: Seq<char>, kt: Seq<Tok>, ts: Seq<TransitionModel>, states: Seq<StateModel>, err: Seq<char>)
    ensures ({
        let r = queue_handle_after(o, s, prefix, k, kt, ts, states, err);
        &&& r.len() >= 5
        &&& r.subrange(r.len() - 5, r.len() - 1) == seq![id("impl"@), id("Drop"@), id("for"@), id(handle_name(prefix, s.name@))]
        &&& r.last() == grp(Delim::Brace, drop_body(locked_call(role_name("source_"@, s.name@), "push_front"@)
                + seq![grp(Delim::Paren, no_toks().push(id("item"@))), pa(';')]))
    }),
{
    let r = queue_handle_after(o, s, prefix, k, kt, ts, states, err);
    let put = locked_call(role_name("source_"@, s.name@), "push_front"@) + seq![grp(Delim::Paren, no_toks().push(id("item"@))), pa(';')];
    let p2 = no_toks().push(id("self"@)).push(pa('.')).push(id(role_name("source_"@, s.name@))).push(pa('.')).push(id("lock"@))
        .push(grp(Delim::Paren, no_toks())).push(pa('.')).push(id("unwrap"@)).push(grp(Delim::Paren, no_toks())).push(pa('.')).push(id("push_front"@))
        .push(grp(Delim::Paren, no_toks().push(id("item"@)))).push(pa(';'));
    assert(p2 =~= put);
    assert(r.last() == grp(Delim::Brace, drop_body(p2)));
    assert(r.subrange(r.len() - 5, r.len() - 1) =~= seq![id("impl"@), id("Drop"@), id("for"@), id(handle_name(prefix, s.name@))]);
}

proof fn lemma_map_states_methods_keep(o: Seq<TokModel>, items: Seq<StateModel>, col: Seq<char>, prefix: Seq<char>, kt: Seq<Tok>, ts: Seq<TransitionModel>)
    ensures
        o.is_prefix_of(map_states_methods_after(o, items, col, prefix, kt, ts)),
        o.len() <= map_states_methods_after(o, items, col, prefix, kt, ts).len(),
        forall|i: int| 0 <= i < o.len() ==> #[trigger] map_states_methods_after(o, items, col, prefix, kt, ts)[i] == o[i],
    decreases items.len(),
{
    if items.len() > 0 {
        lemma_map_states_methods_keep(o, items.drop_last(), col, prefix, kt, ts);
        let x = map_states_methods_after(o, items.drop_last(), col, prefix, kt, ts);
        let y = map_state_methods_after(x, items.last(), col, prefix, kt, ts);
        assert(y.subrange(0, x.len() as int) =~= x);
        assert(y.subrange(0, o.len() as int) =~= x.subrange(0, o.len() as int));
        assert forall|i: int| 0 <= i < o.len() implies y[i] == o[i] by {
            assert(y.subrange(0, x.len() as int)[i] == y[i]);
            assert(x.subrange(0, o.len() as int)[i] == x[i]);
        }
    } else {
        assert forall|i: int| 0 <= i < o.len() implies o[i] == o[i] by {}
    }
}

proof fn lemma_queue_states_methods_keep(o: Seq<TokModel>, items: Seq<StateModel>, col: Seq<char>, prefix: Seq<char>, ts: Seq<TransitionModel>)
    ensures
        o.is_prefix_of(queue_states_methods_after(o, items, col, prefix, ts)),
        o.len() <= queue_states_methods_after(o, items, col, prefix, ts).len(),
        forall|i: int| 0 <= i < o.len() ==> #[trigger] queue_states_methods_after(o, items, col, prefix, ts)[i] == o[i],
    decreases items.len(),
{
    if items.len() > 0 {
        lemma_queue_states_methods_keep(o, items.drop_last(), col, prefix, ts);
        let x = queue_states_methods_after(o, items.drop_last(), col, prefix, ts);
        let y = queue_state_methods_after(x, items.last(), col, prefix, ts);
        assert(y.subrange(0, x.len() as int) =~= x);
        assert(y.subrange(0, o.len() as int) =~= x.subrange(0, o.len() as int));
        assert forall|i: int| 0 <= i < o.len() implies y[i] == o[i] by {
            assert(y.subrange(0, x.len() as int)[i] == y[i]);
            assert(x.subrange(0, o.len() as int)[i] == x[i]);
        }
    } else {
        assert forall|i: int| 0 <= i < o.len() implies o[i] == o[i] by {}
    }
}

/// A map store's insert is `fn <col>_insert(&self, key: K) -> bool`: it
/// returns `false` at once when the store holds the key in any state (its
/// contains check), and otherwise inserts a new item under the key into the
/// first state's map and returns `true`.
pub proof fn law_map_insert_refuses_a_held_key(o: Seq<TokModel>, col: Seq<char>, prefix: Seq<char>, kt: Seq<Tok>, states: Seq<StateModel>, ts: Seq<TransitionModel>, init: StateModel)
    ensures ({
        let r = map_store_body_after(o, col, prefix, kt, states, ts, init);
        &&& r.len() > o.len() + 9
        &&& r[o.len() + 2int] == id("pub"@)
        &&& r[o.len() + 4int] == id(col + "_insert"@)
        &&& r[o.len() + 5int] == grp(Delim::Paren, seq![pa('&'), id("self"@), pa(','), id("key"@), pa(':')] + toks_model(kt))
        &&& r[o.len() + 8int] == id("bool"@)
        &&& r[o.len() + 9int] == grp(Delim::Brace,
                seq![id("if"@), id("self"@), pa('.'), id(col + "_contains"@), grp(Delim::Paren, no_toks().push(pa('&')).push(id("key"@))),
                    grp(Delim::Brace, no_toks().push(id("return"@)).push(id("false"@)).push(pa(';')))]
                + locked_call(field_name(col, init.name@), "insert"@)
                + seq![grp(Delim::Paren, initial_value_after(no_toks().push(id("key"@)).push(pa(',')), init, prefix)), pa(';'), id("true"@)])
    }),
{
    let r = map_store_body_after(o, col, prefix, kt, states, ts, init);
    assert forall|x: Seq<TokModel>, i: int| 0 <= i < x.len() implies x.len() <= map_states_methods_after(x, states, col, prefix, kt, ts).len()
        && #[trigger] map_states_methods_after(x, states, col, prefix, kt, ts)[i] == x[i] by {
        lemma_map_states_methods_keep(x, states, col, prefix, kt, ts);
    }
    let params = no_toks().push(pa('&')).push(id("self"@)).push(pa(',')).push(id("key"@)).push(pa(':')) + toks_model(kt);
    assert(params =~= seq![pa('&'), id("self"@), pa(','), id("key"@), pa(':')] + toks_model(kt));
    let body = no_toks().push(id("if"@)).push(id("self"@)).push(pa('.')).push(id(col + "_contains"@))
        .push(grp(Delim::Paren, no_toks().push(pa('&')).push(id("key"@))))
        .push(grp(Delim::Brace, no_toks().push(id("return"@)).push(id("false"@)).push(pa(';'))))
        .push(id("self"@)).push(pa('.')).push(id(field_name(col, init.name@))).push(pa('.')).push(id("lock"@)).push(grp(Delim::Paren, no_toks()))
        .push(pa('.')).push(id("unwrap"@)).push(grp(Delim::Paren, no_toks())).push(pa('.')).push(id("insert"@))
        .push(grp(Delim::Paren, initial_value_after(no_toks().push(id("key"@)).push(pa(',')), init, prefix))).push(pa(';')).push(id("true"@));
    assert(body =~= seq![id("if"@), id("self"@), pa('.'), id(col + "_contains"@), grp(Delim::Paren, no_toks().push(pa('&')).push(id("key"@))),
                    grp(Delim::Brace, no_toks().push(id("return"@)).push(id("false"@)).push(pa(';')))]
                + locked_call(field_name(col, init.name@), "insert"@)
                + seq![grp(Delim::Paren, initial_value_after(no_toks().push(id("key"@)).push(pa(',')), init, prefix)), pa(';'), id("true"@)]);
    assert(r[o.len() + 9int] == grp(Delim::Brace, body));
    assert(r[o.len() + 5int] == grp(Delim::Paren, params));
}

/// A queue store's push is `fn <col>_push(&self) -> K`: under the counter's
/// lock it takes the counter as the new id, stores the counter's wrapping
/// successor, appends a new item with that id at the back of the first
/// state's queue, and returns the id.
pub proof fn law_queue_push_hands_out_the_counter(o: Seq<TokModel>, col: Seq<char>, prefix: Seq<char>, k: Seq<char>, kt: Seq<Tok>, states: Seq<StateModel>, ts: Seq<TransitionModel>, init: StateModel)
    ensures ({
        let r = queue_store_body_after(o, col, prefix, k, kt, states, ts, init);
        &&& r.len() > (o.len() + 8 + toks_model(kt).len()) as int
        &&& r[o.len() + 4int] == id(col + "_push"@)
        &&& r[o.len() + 5int] == grp(Delim::Paren, seq![pa('&'), id("self"@)])
        &&& r.subrange(o.len() + 8int, (o.len() + 8 + toks_model(kt).len()) as int) == toks_model(kt)
        &&& r[(o.len() + 8 + toks_model(kt).len()) as int] == grp(Delim::Brace,
                seq![id("let"@), id("mut"@), id("next_id"@), pa('='), id("self"@), pa('.'), id(col + "_next_id"@), pa('.'), id("lock"@),
                    unit_toks(), pa('.'), id("unwrap"@), unit_toks(), pa(';'),
                    id("let"@), id("id"@), pa('='), pa('*'), id("next_id"@), pa(';'),
                    pa('*'), id("next_id"@), pa('='), id("next_id"@), pa('.'), id("wrapping_add"@), grp(Delim::Paren, no_toks().push(lit("1"@))), pa(';')]
                + locked_call(field_name(col, init.name@), "push_back"@)
                + seq![grp(Delim::Paren, pushed_value_after(no_toks(), init, prefix, k)), pa(';'), id("id"@)])
    }),
{
    let r = queue_store_body_after(o, col, prefix, k, kt, states, ts, init);
    assert forall|x: Seq<TokModel>, i: int| 0 <= i < x.len() implies x.len() <= queue_states_methods_after(x, states, col, prefix, ts).len()
        && #[trigger] queue_states_methods_after(x, states, col, prefix, ts)[i] == x[i] by {
        lemma_queue_states_methods_keep(x, states, col, prefix, ts);
    }
    let body = no_toks().push(id("let"@)).push(id("mut"@)).push(id("next_id"@)).push(pa('=')).push(id("self"@)).push(pa('.'))
        .push(id(col + "_next_id"@)).push(pa('.')).push(id("lock"@)).push(grp(Delim::Paren, no_toks())).push(pa('.')).push(id("unwrap"@))
        .push(grp(Delim::Paren, no_toks())).push(pa(';')).push(id("let"@)).push(id("id"@)).push(pa('=')).push(pa('*')).push(id("next_id"@)).push(pa(';'))
        .push(pa('*')).push(id("next_id"@)).push(pa('=')).push(id("next_id"@)).push(pa('.')).push(id("wrapping_add"@))
        .push(grp(Delim::Paren, no_toks().push(lit("1"@)))).push(pa(';')).push(id("self"@)).push(pa('.')).push(id(field_name(col, init.name@)))
        .push(pa('.')).push(id("lock"@)).push(grp(Delim::Paren, no_toks())).push(pa('.')).push(id("unwrap"@)).push(grp(Delim::Paren, no_toks()))
        .push(pa('.')).push(id("push_back"@)).push(grp(Delim::Paren, pushed_value_after(no_toks(), init, prefix, k))).push(pa(';')).push(id("id"@));
    assert(body =~= seq![id("let"@), id("mut"@), id("next_id"@), pa('='), id("self"@), pa('.'), id(col + "_next_id"@), pa('.'), id("lock"@),
                    unit_toks(), pa('.'), id("unwrap"@), unit_toks(), pa(';'),
                    id("let"@), id("id"@), pa('='), pa('*'), id("next_id"@), pa(';'),
                    pa('*'), id("next_id"@), pa('='), id("next_id"@), pa('.'), id("wrapping_add"@), grp(Delim::Paren, no_toks().push(lit("1"@))), pa(';')]
                + locked_call(field_name(col, init.name@), "push_back"@)
                + seq![grp(Delim::Paren, pushed_value_after(no_toks(), init, prefix, k)), pa(';'), id("id"@)]);
    assert(no_toks().push(pa('&')).push(id("self"@)) =~= seq![pa('&'), id("self"@)]);
    assert(r[(o.len() + 8 + toks_model(kt).len()) as int] == grp(Delim::Brace, body));
    assert(r.subrange(o.len() + 8int, (o.len() + 8 + toks_model(kt).len()) as int) =~= toks_model(kt));
}

} // verus!
