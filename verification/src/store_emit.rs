//! The items that the `store!` front end generates, as token trees built
//! from a parsed definition. Every function here says exactly which tokens
//! it builds, as a model over the definition's model; the names come from the
//! name rules of [`crate::store_codegen`].
//!
//! What the generated items do follows from their tokens: a handle takes an
//! item out of its state's collection, its transitions check the guard
//! (returning `GuardFailed` with the item still held) before they move the
//! item into the target's collection, and its `Drop` puts an untaken item back
//! (under its key for a map, at the front for a queue). A map store's insert
//! refuses a key present in any state; its contains, remove and len range over
//! all states; a queue store's push returns its counter, stores the counter's
//! wrapping successor and appends the new item at the back.
use vstd::prelude::*;
use crate::tokens::{Tok, TokModel, Delim, toks_model};
use crate::emit::{id, pa, pj, lit, grp, push_ident, push_punct, push_literal, push_group, push_all, copy_toks};
use crate::text::concat_text;
use crate::store_parse::{
    FieldModel, StateModel, AssignmentModel, TransitionModel, CollectionModel, StoreModel, KindModel,
    TypedField, TypedState, FieldAssignment, TypedTransition, TypedCollection, TypedStore, CollectionKind,
    fields_model, states_model, assignments_model, transitions_model, collections_model,
};
use crate::store_codegen::{
    store_pascal_case, snake_case, rewrite_model, distinct_targets, texts, leaves, state_named,
    target_build, TargetBuild, to_pascal_case, to_snake_case, collection_field_name, prefixed_state_name,
    rewrite_self_to_item, handle_targets, target_build_of, state_position, transition_leaves,
};

verus! {

// ---------------------------------------------------------------------------
// Names
// ---------------------------------------------------------------------------

/// The name `role` followed by a state's name in snake_case (`target_` and
/// `InFlight` give `target_in_flight`).
pub open spec fn role_name(role: Seq<char>, state: Seq<char>) -> Seq<char> {
    role + snake_case(state, true)
}

/// The store field holding a collection's items in one state.
pub open spec fn field_name(col: Seq<char>, state: Seq<char>) -> Seq<char> {
    col + seq!['_'] + snake_case(state, true)
}

/// The handle type of a collection's state.
pub open spec fn handle_name(prefix: Seq<char>, state: Seq<char>) -> Seq<char> {
    prefix + state + "Handle"@
}

fn role_name_of(role: &str, state: &str) -> (r: String)
    ensures
        r@ == role_name(role@, state@),
{
    let s = to_snake_case(state);
    concat_text(role, s.as_str())
}

fn state_type_of(prefix: &str, state: &str) -> (r: String)
    ensures
        r@ == prefix@ + state@,
{
    prefixed_state_name(prefix, state)
}

fn handle_name_of(prefix: &str, state: &str) -> (r: String)
    ensures
        r@ == handle_name(prefix@, state@),
{
    let t = prefixed_state_name(prefix, state);
    concat_text(t.as_str(), "Handle")
}

fn field_name_of(col: &str, state: &str) -> (r: String)
    ensures
        r@ == field_name(col@, state@),
{
    collection_field_name(col, state)
}

fn method_name_of(col: &str, suffix: &str) -> (r: String)
    ensures
        r@ == col@ + suffix@,
{
    concat_text(col, suffix)
}

fn state_method_name_of(col: &str, state: &str, suffix: &str) -> (r: String)
    ensures
        r@ == field_name(col@, state@) + suffix@,
{
    let f = collection_field_name(col, state);
    concat_text(f.as_str(), suffix)
}

fn verb_method_name_of(col: &str, verb: &str, state: &str) -> (r: String)
    ensures
        r@ == col@ + verb@ + snake_case(state@, true),
{
    let head = concat_text(col, verb);
    let s = to_snake_case(state);
    concat_text(head.as_str(), s.as_str())
}

// ---------------------------------------------------------------------------
// Choices
// ---------------------------------------------------------------------------

/// `o` followed by the guard check of a transition, if it has a guard.
pub open spec fn guard_after(o: Seq<TokModel>, g: Option<Seq<Tok>>, err: Seq<char>) -> Seq<TokModel> {
    match g {
        Some(g) => guard_check_after(o, g, err),
        None => o,
    }
}

fn emit_guard(out: &mut Vec<Tok>, g: &Option<Vec<Tok>>, err: &str)
    ensures
        toks_model(final(out)@) == guard_after(toks_model(old(out)@), crate::machine_parse::opt_toks(*g), err@),
{
    match g {
        Some(g) => emit_guard_check(out, g, err),
        None => {},
    }
}

/// `o` followed by the value a map transition moves its item to, built as
/// [`target_build`] says.
pub open spec fn map_value_after(o: Seq<TokModel>, t: TransitionModel, prefix: Seq<char>, states: Seq<StateModel>) -> Seq<TokModel> {
    let tt = prefix + t.target@;
    match target_build(states, t.target@, t.field_assignments.len()) {
        TargetBuild::Unit => unit_value_after(o, tt),
        TargetBuild::Defaulted => default_value_after(o, tt),
        TargetBuild::Assigned => assigned_value_after(o, tt, t.field_assignments),
    }
}

fn emit_map_value(out: &mut Vec<Tok>, t: &TypedTransition, prefix: &str, states: &Vec<TypedState>)
    ensures
        toks_model(final(out)@) == map_value_after(toks_model(old(out)@), t@, prefix@, states_model(states@)),
{
    let tt = state_type_of(prefix, t.target.as_str());
    match target_build_of(states, t.target.as_str(), t.field_assignments.len()) {
        TargetBuild::Unit => emit_unit_value(out, tt.as_str()),
        TargetBuild::Defaulted => emit_default_value(out, tt.as_str()),
        TargetBuild::Assigned => emit_assigned_value(out, tt.as_str(), &t.field_assignments),
    }
}

/// `o` followed by the value a queue transition moves its item to: it
/// carries the item's key, and the rest is built as [`target_build`] says.
pub open spec fn queue_value_after(o: Seq<TokModel>, t: TransitionModel, prefix: Seq<char>, k: Seq<char>, states: Seq<StateModel>) -> Seq<TokModel> {
    let tt = prefix + t.target@;
    match target_build(states, t.target@, t.field_assignments.len()) {
        TargetBuild::Unit => keyed_unit_value_after(o, tt, k),
        TargetBuild::Defaulted => keyed_default_value_after(o, tt, k, state_named(states, t.target@)->Some_0.fields),
        TargetBuild::Assigned => keyed_assigned_value_after(o, tt, k, t.field_assignments),
    }
}

fn emit_queue_value(out: &mut Vec<Tok>, t: &TypedTransition, prefix: &str, k: &str, states: &Vec<TypedState>)
    ensures
        toks_model(final(out)@) == queue_value_after(toks_model(old(out)@), t@, prefix@, k@, states_model(states@)),
{
    let tt = state_type_of(prefix, t.target.as_str());
    match target_build_of(states, t.target.as_str(), t.field_assignments.len()) {
        TargetBuild::Unit => emit_keyed_unit_value(out, tt.as_str(), k),
        TargetBuild::Defaulted => {
            match state_position(states, t.target.as_str()) {
                Some(i) => emit_keyed_default_value(out, tt.as_str(), k, &states[i].fields),
                None => {
                    assert(false);
                },
            }
        },
        TargetBuild::Assigned => emit_keyed_assigned_value(out, tt.as_str(), k, &t.field_assignments),
    }
}

/// `o` followed by the method a map handle for `state` has for transition
/// `t`: none unless `t` leaves `state`.
pub open spec fn map_method_if_after(o: Seq<TokModel>, t: TransitionModel, state: Seq<char>, prefix: Seq<char>, states: Seq<StateModel>, err: Seq<char>) -> Seq<TokModel> {
    if leaves(t, state) { map_method_after(o, t, prefix, states, err) } else { o }
}

fn emit_map_method_if(out: &mut Vec<Tok>, t: &TypedTransition, state: &str, prefix: &str, states: &Vec<TypedState>, err: &str)
    ensures
        toks_model(final(out)@) == map_method_if_after(toks_model(old(out)@), t@, state@, prefix@, states_model(states@), err@),
{
    if transition_leaves(t, state) {
        emit_map_method(out, t, prefix, states, err);
    }
}

/// `o` followed by the method a queue handle for `state` has for transition
/// `t`: none unless `t` leaves `state`.
pub open spec fn queue_method_if_after(o: Seq<TokModel>, t: TransitionModel, state: Seq<char>, prefix: Seq<char>, k: Seq<char>, states: Seq<StateModel>, err: Seq<char>) -> Seq<TokModel> {
    if leaves(t, state) { queue_method_after(o, t, prefix, k, states, err) } else { o }
}

fn emit_queue_method_if(out: &mut Vec<Tok>, t: &TypedTransition, state: &str, prefix: &str, k: &str, states: &Vec<TypedState>, err: &str)
    ensures
        toks_model(final(out)@) == queue_method_if_after(toks_model(old(out)@), t@, state@, prefix@, k@, states_model(states@), err@),
{
    if transition_leaves(t, state) {
        emit_queue_method(out, t, prefix, k, states, err);
    }
}

/// `o` followed by a map state's struct: a unit struct when the state has
/// no fields.
pub open spec fn map_state_after(o: Seq<TokModel>, s: StateModel, prefix: Seq<char>) -> Seq<TokModel> {
    if s.fields.len() == 0 { map_state_unit_after(o, s, prefix) } else { map_state_struct_after(o, s, prefix) }
}

fn emit_map_state(out: &mut Vec<Tok>, s: &TypedState, prefix: &str)
    ensures
        toks_model(final(out)@) == map_state_after(toks_model(old(out)@), s@, prefix@),
{
    if s.fields.len() == 0 {
        emit_map_state_unit(out, s, prefix);
    } else {
        emit_map_state_struct(out, s, prefix);
    }
}

/// `o` followed by the value a new item starts with in state `init`: the
/// unit value when the state has no fields, else its default.
pub open spec fn initial_value_after(o: Seq<TokModel>, init: StateModel, prefix: Seq<char>) -> Seq<TokModel> {
    if init.fields.len() == 0 {
        unit_value_after(o, prefix + init.name@)
    } else {
        default_value_after(o, prefix + init.name@)
    }
}

fn emit_initial_value(out: &mut Vec<Tok>, init: &TypedState, prefix: &str)
    ensures
        toks_model(final(out)@) == initial_value_after(toks_model(old(out)@), init@, prefix@),
{
    let tt = state_type_of(prefix, init.name.as_str());
    if init.fields.len() == 0 {
        emit_unit_value(out, tt.as_str());
    } else {
        emit_default_value(out, tt.as_str());
    }
}

/// `o` followed by a map store's methods: none when it has no states, else
/// those of [`map_store_body_after`] with the first state as the initial one.
pub open spec fn map_methods_of_after(o: Seq<TokModel>, col: Seq<char>, prefix: Seq<char>, kt: Seq<Tok>, states: Seq<StateModel>, ts: Seq<TransitionModel>) -> Seq<TokModel> {
    if states.len() == 0 { o } else { map_store_body_after(o, col, prefix, kt, states, ts, states[0]) }
}

fn emit_map_methods_of(out: &mut Vec<Tok>, col: &str, prefix: &str, kt: &Vec<Tok>, states: &Vec<TypedState>, ts: &Vec<TypedTransition>)
    ensures
        toks_model(final(out)@) == map_methods_of_after(toks_model(old(out)@), col@, prefix@, kt@, states_model(states@), transitions_model(ts@)),
{
    if states.len() > 0 {
        emit_map_store_body(out, col, prefix, kt, states, ts, &states[0]);
    }
}

/// `o` followed by a queue store's methods: none when it has no states,
/// else those of [`queue_store_body_after`] with the first state as the
/// initial one.
pub open spec fn queue_methods_of_after(o: Seq<TokModel>, col: Seq<char>, prefix: Seq<char>, k: Seq<char>, kt: Seq<Tok>, states: Seq<StateModel>, ts: Seq<TransitionModel>) -> Seq<TokModel> {
    if states.len() == 0 { o } else { queue_store_body_after(o, col, prefix, k, kt, states, ts, states[0]) }
}

fn emit_queue_methods_of(out: &mut Vec<Tok>, col: &str, prefix: &str, k: &str, kt: &Vec<Tok>, states: &Vec<TypedState>, ts: &Vec<TypedTransition>)
    ensures
        toks_model(final(out)@) == queue_methods_of_after(toks_model(old(out)@), col@, prefix@, k@, kt@, states_model(states@), transitions_model(ts@)),
{
    if states.len() > 0 {
        emit_queue_store_body(out, col, prefix, k, kt, states, ts, &states[0]);
    }
}

/// `o` followed by the types of collection `c`: the prefix of its type names
/// is its name in PascalCase.
pub open spec fn collection_types_after(o: Seq<TokModel>, c: CollectionModel, err: Seq<char>) -> Seq<TokModel> {
    let prefix = store_pascal_case(c.name@, true);
    match c.kind {
        KindModel::KeyedMap(kt) => map_collection_types_after(o, c.name@, prefix, kt, c.states, c.transitions, err),
        KindModel::Queue { key_name, key_type } =>
            queue_collection_types_after(o, c.name@, prefix, key_name@, key_type, c.states, c.transitions, err),
    }
}

fn emit_collection_types(out: &mut Vec<Tok>, c: &TypedCollection, err: &str)
    ensures
        toks_model(final(out)@) == collection_types_after(toks_model(old(out)@), c@, err@),
{
    let prefix = to_pascal_case(c.name.as_str());
    assert(c@.states == states_model(c.states@));
    assert(c@.transitions == transitions_model(c.transitions@));
    match &c.kind {
        CollectionKind::KeyedMap(kt) => {
            emit_map_collection_types(out, c.name.as_str(), prefix.as_str(), kt, &c.states, &c.transitions, err);
        },
        CollectionKind::Queue { key_name, key_type } => {
            emit_queue_collection_types(out, c.name.as_str(), prefix.as_str(), key_name.as_str(), key_type, &c.states, &c.transitions, err);
        },
    }
}

/// `o` followed by the store fields of collection `c`, each followed by `,`:
/// a map per state, or a queue per state and the key counter.
pub open spec fn collection_fields_after(o: Seq<TokModel>, c: CollectionModel) -> Seq<TokModel> {
    let prefix = store_pascal_case(c.name@, true);
    match c.kind {
        KindModel::KeyedMap(kt) => map_store_fields_after(o, c.states, c.name@, prefix, kt),
        KindModel::Queue { key_name, key_type } => queue_collection_fields_after(o, c.name@, prefix, key_type, c.states),
    }
}

fn emit_collection_fields(out: &mut Vec<Tok>, c: &TypedCollection)
    ensures
        toks_model(final(out)@) == collection_fields_after(toks_model(old(out)@), c@),
{
    let prefix = to_pascal_case(c.name.as_str());
    assert(c@.states == states_model(c.states@));
    match &c.kind {
        CollectionKind::KeyedMap(kt) => {
            emit_map_store_fields(out, &c.states, c.name.as_str(), prefix.as_str(), kt);
        },
        CollectionKind::Queue { key_name, key_type } => {
            emit_queue_collection_fields(out, c.name.as_str(), prefix.as_str(), key_type, &c.states);
        },
    }
}

/// `o` followed by the initialisers of collection `c`'s store fields, each
/// followed by `,`.
pub open spec fn collection_inits_after(o: Seq<TokModel>, c: CollectionModel) -> Seq<TokModel> {
    match c.kind {
        KindModel::KeyedMap(_) => store_inits_after(o, c.states, c.name@),
        KindModel::Queue { .. } => queue_collection_inits_after(o, c.name@, c.states),
    }
}

fn emit_collection_inits(out: &mut Vec<Tok>, c: &TypedCollection)
    ensures
        toks_model(final(out)@) == collection_inits_after(toks_model(old(out)@), c@),
{
    assert(c@.states == states_model(c.states@));
    match &c.kind {
        CollectionKind::KeyedMap(_) => emit_store_inits(out, &c.states, c.name.as_str()),
        CollectionKind::Queue { .. } => emit_queue_collection_inits(out, c.name.as_str(), &c.states),
    }
}

/// `o` followed by the store methods of collection `c` (see
/// [`map_store_methods_model`] and [`queue_store_methods_model`]).
pub open spec fn collection_methods_after(o: Seq<TokModel>, c: CollectionModel) -> Seq<TokModel> {
    let prefix = store_pascal_case(c.name@, true);
    match c.kind {
        KindModel::KeyedMap(kt) => map_methods_of_after(o, c.name@, prefix, kt, c.states, c.transitions),
        KindModel::Queue { key_name, key_type } =>
            queue_methods_of_after(o, c.name@, prefix, key_name@, key_type, c.states, c.transitions),
    }
}

fn emit_collection_methods(out: &mut Vec<Tok>, c: &TypedCollection)
    ensures
        toks_model(final(out)@) == collection_methods_after(toks_model(old(out)@), c@),
{
    let prefix = to_pascal_case(c.name.as_str());
    assert(c@.states == states_model(c.states@));
    assert(c@.transitions == transitions_model(c.transitions@));
    match &c.kind {
        CollectionKind::KeyedMap(kt) => {
            emit_map_methods_of(out, c.name.as_str(), prefix.as_str(), kt, &c.states, &c.transitions);
        },
        CollectionKind::Queue { key_name, key_type } => {
            emit_queue_methods_of(out, c.name.as_str(), prefix.as_str(), key_name.as_str(), key_type, &c.states, &c.transitions);
        },
    }
}

// ---------------------------------------------------------------------------
// What the front end asks for
// ---------------------------------------------------------------------------

/// The name of a store's error type: the store's name and `Error`.
pub open spec fn error_name(store: Seq<char>) -> Seq<char> {
    store + "Error"@
}

/// Every item a store definition generates.
pub open spec fn store_items_model(s: StoreModel) -> Seq<TokModel> {
    store_body_after(Seq::empty(), s.vis, s.name@, s.collections, error_name(s.name@))
}

/// The items a store definition generates: its error type, the state
/// structs and handles of each collection, then one store struct holding the
/// collections of all of them, with `new` and every collection's methods.
pub fn store_items(store: &TypedStore) -> (r: Vec<Tok>)
    ensures
        toks_model(r@) == store_items_model(store@),
{
    let err = concat_text(store.name.as_str(), "Error");
    let mut out: Vec<Tok> = Vec::new();
    assert(store@.collections == collections_model(store.collections@));
    emit_store_body(&mut out, &store.vis, store.name.as_str(), &store.collections, err.as_str());
    out
}

/// The handle of state `s` of collection `c`, in a store named `store`.
pub open spec fn handle_items_model(c: CollectionModel, s: StateModel, store: Seq<char>) -> Seq<TokModel> {
    let prefix = store_pascal_case(c.name@, true);
    match c.kind {
        KindModel::KeyedMap(kt) => map_handle_after(Seq::empty(), s, prefix, kt, c.transitions, c.states, error_name(store)),
        KindModel::Queue { key_name, key_type } =>
            queue_handle_after(Seq::empty(), s, prefix, key_name@, key_type, c.transitions, c.states, error_name(store)),
    }
}

/// The handle type of state `s` of collection `c` in a store named
/// `store_name`: the struct holding the item taken out, its accessors, one
/// method for each transition leaving `s`, and its `Drop`.
pub fn handle_items(c: &TypedCollection, s: &TypedState, store_name: &str) -> (r: Vec<Tok>)
    ensures
        toks_model(r@) == handle_items_model(c@, s@, store_name@),
{
    let prefix = to_pascal_case(c.name.as_str());
    let err = concat_text(store_name, "Error");
    let mut out: Vec<Tok> = Vec::new();
    assert(c@.states == states_model(c.states@));
    assert(c@.transitions == transitions_model(c.transitions@));
    match &c.kind {
        CollectionKind::KeyedMap(kt) => {
            emit_map_handle(&mut out, s, prefix.as_str(), kt, &c.transitions, &c.states, err.as_str());
        },
        CollectionKind::Queue { key_name, key_type } => {
            emit_queue_handle(&mut out, s, prefix.as_str(), key_name.as_str(), key_type, &c.transitions, &c.states, err.as_str());
        },
    }
    out
}

/// The methods of a map collection's store: none for a queue collection or
/// one without states.
pub open spec fn map_store_methods_model(c: CollectionModel) -> Seq<TokModel> {
    match c.kind {
        KindModel::KeyedMap(kt) =>
            map_methods_of_after(Seq::empty(), c.name@, store_pascal_case(c.name@, true), kt, c.states, c.transitions),
        KindModel::Queue { .. } => Seq::empty(),
    }
}

/// The methods of a map collection's store: insert into the first state,
/// contains, remove and len over all states, and each state's handle
/// getter, count and keys.
pub fn map_store_methods(c: &TypedCollection) -> (r: Vec<Tok>)
    ensures
        toks_model(r@) == map_store_methods_model(c@),
{
    let mut out: Vec<Tok> = Vec::new();
    assert(c@.states == states_model(c.states@));
    assert(c@.transitions == transitions_model(c.transitions@));
    match &c.kind {
        CollectionKind::KeyedMap(kt) => {
            let prefix = to_pascal_case(c.name.as_str());
            emit_map_methods_of(&mut out, c.name.as_str(), prefix.as_str(), kt, &c.states, &c.transitions);
        },
        CollectionKind::Queue { .. } => {},
    }
    out
}

/// The methods of a queue collection's store: none for a map collection or
/// one without states.
pub open spec fn queue_store_methods_model(c: CollectionModel) -> Seq<TokModel> {
    match c.kind {
        KindModel::Queue { key_name, key_type } =>
            queue_methods_of_after(Seq::empty(), c.name@, store_pascal_case(c.name@, true), key_name@, key_type, c.states, c.transitions),
        KindModel::KeyedMap(_) => Seq::empty(),
    }
}

/// The methods of a queue collection's store: push into the first state,
/// len over all states, and each state's handle getter, peek and count.
pub fn queue_store_methods(c: &TypedCollection) -> (r: Vec<Tok>)
    ensures
        toks_model(r@) == queue_store_methods_model(c@),
{
    let mut out: Vec<Tok> = Vec::new();
    assert(c@.states == states_model(c.states@));
    assert(c@.transitions == transitions_model(c.transitions@));
    match &c.kind {
        CollectionKind::Queue { key_name, key_type } => {
            let prefix = to_pascal_case(c.name.as_str());
            emit_queue_methods_of(&mut out, c.name.as_str(), prefix.as_str(), key_name.as_str(), key_type, &c.states, &c.transitions);
        },
        CollectionKind::KeyedMap(_) => {},
    }
    out
}

/// `o` followed by the item a queue store's push appends to state `init`:
/// the new key `id`, and every field of the state defaulted.
pub open spec fn pushed_value_after(o: Seq<TokModel>, init: StateModel, prefix: Seq<char>, k: Seq<char>) -> Seq<TokModel> {
    if init.fields.len() == 0 {
        pushed_unit_value_after(o, prefix + init.name@, k)
    } else {
        pushed_default_value_after(o, prefix + init.name@, k, init.fields)
    }
}

fn emit_pushed_value(out: &mut Vec<Tok>, init: &TypedState, prefix: &str, k: &str)
    ensures
        toks_model(final(out)@) == pushed_value_after(toks_model(old(out)@), init@, prefix@, k@),
{
    let tt = state_type_of(prefix, init.name.as_str());
    if init.fields.len() == 0 {
        emit_pushed_unit_value(out, tt.as_str(), k);
    } else {
        emit_pushed_default_value(out, tt.as_str(), k, &init.fields);
    }
}

// ---------------------------------------------------------------------------
// Laws
// ---------------------------------------------------------------------------

/// The transitions of `ts` that leave `state`, in order.
pub open spec fn leaving_transitions(ts: Seq<TransitionModel>, state: Seq<char>) -> Seq<TransitionModel>
    decreases ts.len(),
{
    if ts.len() == 0 {
        ts
    } else if leaves(ts.last(), state) {
        leaving_transitions(ts.drop_last(), state).push(ts.last())
    } else {
        leaving_transitions(ts.drop_last(), state)
    }
}

/// `o` followed by a map handle method for each of `ts`, in order.
pub open spec fn each_map_method_after(o: Seq<TokModel>, ts: Seq<TransitionModel>, prefix: Seq<char>, states: Seq<StateModel>, err: Seq<char>) -> Seq<TokModel>
    decreases ts.len(),
{
    if ts.len() == 0 { o } else { map_method_after(each_map_method_after(o, ts.drop_last(), prefix, states, err), ts.last(), prefix, states, err) }
}

/// `o` followed by a queue handle method for each of `ts`, in order.
pub open spec fn each_queue_method_after(o: Seq<TokModel>, ts: Seq<TransitionModel>, prefix: Seq<char>, k: Seq<char>, states: Seq<StateModel>, err: Seq<char>) -> Seq<TokModel>
    decreases ts.len(),
{
    if ts.len() == 0 { o } else { queue_method_after(each_queue_method_after(o, ts.drop_last(), prefix, k, states, err), ts.last(), prefix, k, states, err) }
}

/// A map handle for `state` offers one method for each transition that
/// leaves `state`, in the order of the definition, and no other.
pub proof fn law_map_handle_offers_the_leaving_transitions(o: Seq<TokModel>, ts: Seq<TransitionModel>, state: Seq<char>, prefix: Seq<char>, states: Seq<StateModel>, err: Seq<char>)
    ensures
        map_methods_after(o, ts, state, prefix, states, err)
            == each_map_method_after(o, leaving_transitions(ts, state), prefix, states, err),
    decreases ts.len(),
{
    if ts.len() > 0 {
        law_map_handle_offers_the_leaving_transitions(o, ts.drop_last(), state, prefix, states, err);
        let l = leaving_transitions(ts.drop_last(), state);
        if leaves(ts.last(), state) {
            assert(l.push(ts.last()).drop_last() =~= l);
        }
    }
}

/// A queue handle for `state` offers one method for each transition that
/// leaves `state`, in the order of the definition, and no other.
pub proof fn law_queue_handle_offers_the_leaving_transitions(o: Seq<TokModel>, ts: Seq<TransitionModel>, state: Seq<char>, prefix: Seq<char>, k: Seq<char>, states: Seq<StateModel>, err: Seq<char>)
    ensures
        queue_methods_after(o, ts, state, prefix, k, states, err)
            == each_queue_method_after(o, leaving_transitions(ts, state), prefix, k, states, err),
    decreases ts.len(),
{
    if ts.len() > 0 {
        law_queue_handle_offers_the_leaving_transitions(o, ts.drop_last(), state, prefix, k, states, err);
        let l = leaving_transitions(ts.drop_last(), state);
        if leaves(ts.last(), state) {
            assert(l.push(ts.last()).drop_last() =~= l);
        }
    }
}
/// A field of a state struct: `pub name: type`.
pub open spec fn field_def_after(o: Seq<TokModel>, e: FieldModel) -> Seq<TokModel> {
    let o = o.push(id("pub"@)).push(id(e.name@)).push(pa(':'));
    let o = o + toks_model(e.ty);
    o
}

fn emit_field_def(out: &mut Vec<Tok>, e: &TypedField)
    ensures
        toks_model(final(out)@) == field_def_after(toks_model(old(out)@), e@),
{
    push_ident(out, "pub");
    push_ident(out, e.name.as_str());
    push_punct(out, ':', false);
    push_all(out, copy_toks(&e.ty));
}

/// The fields of a state struct, separated by `,`.
pub open spec fn field_defs_after(o: Seq<TokModel>, items: Seq<FieldModel>) -> Seq<TokModel>
    decreases items.len(),
{
    if items.len() == 0 {
        o
    } else {
        let o = field_defs_after(o, items.drop_last());
        let o = if items.len() > 1 { o.push(pa(',')) } else { o };
        field_def_after(o, items.last())
    }
}

fn emit_field_defs(out: &mut Vec<Tok>, items: &Vec<TypedField>)
    ensures
        toks_model(final(out)@) == field_defs_after(toks_model(old(out)@), fields_model(items@)),
{
    let ghost o = toks_model(out@);
    let ghost v = fields_model(items@);
    let mut i: usize = 0;
    assert(v.take(0) =~= Seq::<FieldModel>::empty());
    while i < items.len()
        invariant
            i <= items@.len(),
            v == fields_model(items@),
            v.len() == items@.len(),
            toks_model(out@) == field_defs_after(o, v.take(i as int)),
        decreases items.len() - i,
    {
        assert(v.take(i + 1).drop_last() =~= v.take(i as int));
        assert(v.take(i + 1).last() == v[i as int]);
        if i > 0 {
            push_punct(out, ',', false);
        }
        emit_field_def(out, &items[i]);
        i += 1;
    }
    assert(v.take(i as int) =~= v);
}

/// A field of a state struct after the key field: `, pub name: type`.
pub open spec fn comma_field_def_after(o: Seq<TokModel>, e: FieldModel) -> Seq<TokModel> {
    let o = o.push(pa(',')).push(id("pub"@)).push(id(e.name@)).push(pa(':'));
    let o = o + toks_model(e.ty);
    o
}

fn emit_comma_field_def(out: &mut Vec<Tok>, e: &TypedField)
    ensures
        toks_model(final(out)@) == comma_field_def_after(toks_model(old(out)@), e@),
{
    push_punct(out, ',', false);
    push_ident(out, "pub");
    push_ident(out, e.name.as_str());
    push_punct(out, ':', false);
    push_all(out, copy_toks(&e.ty));
}

/// The fields of a state struct after its key field.
pub open spec fn comma_field_defs_after(o: Seq<TokModel>, items: Seq<FieldModel>) -> Seq<TokModel>
    decreases items.len(),
{
    if items.len() == 0 {
        o
    } else {
        let o = comma_field_defs_after(o, items.drop_last());
        comma_field_def_after(o, items.last())
    }
}

fn emit_comma_field_defs(out: &mut Vec<Tok>, items: &Vec<TypedField>)
    ensures
        toks_model(final(out)@) == comma_field_defs_after(toks_model(old(out)@), fields_model(items@)),
{
    let ghost o = toks_model(out@);
    let ghost v = fields_model(items@);
    let mut i: usize = 0;
    assert(v.take(0) =~= Seq::<FieldModel>::empty());
    while i < items.len()
        invariant
            i <= items@.len(),
            v == fields_model(items@),
            v.len() == items@.len(),
            toks_model(out@) == comma_field_defs_after(o, v.take(i as int)),
        decreases items.len() - i,
    {
        assert(v.take(i + 1).drop_last() =~= v.take(i as int));
        assert(v.take(i + 1).last() == v[i as int]);
        emit_comma_field_def(out, &items[i]);
        i += 1;
    }
    assert(v.take(i as int) =~= v);
}

/// A handle method reading a field of the held item.
pub open spec fn accessor_after(o: Seq<TokModel>, e: FieldModel) -> Seq<TokModel> {
    let o = o.push(id("pub"@)).push(id("fn"@)).push(id(e.name@)).push(grp(Delim::Paren, {
        let inner = Seq::<TokModel>::empty();
        let inner = inner.push(pa('&')).push(id("self"@));
        inner
    })).push(pj('-')).push(pa('>')).push(pa('&'));
    let o = o + toks_model(e.ty);
    let o = o.push(grp(Delim::Brace, {
        let inner = Seq::<TokModel>::empty();
        let inner = inner.push(pa('&')).push(id("self"@)).push(pa('.')).push(id("item"@)).push(pa('.')).push(id("as_ref"@)).push(grp(Delim::Paren, {
        let inner = Seq::<TokModel>::empty();

        inner
    })).push(pa('.')).push(id("unwrap"@)).push(grp(Delim::Paren, {
        let inner = Seq::<TokModel>::empty();

        inner
    })).push(pa('.')).push(id(e.name@));
        inner
    }));
    o
}

fn emit_accessor(out: &mut Vec<Tok>, e: &TypedField)
    ensures
        toks_model(final(out)@) == accessor_after(toks_model(old(out)@), e@),
{
    push_ident(out, "pub");
    push_ident(out, "fn");
    push_ident(out, e.name.as_str());
    let mut g1: Vec<Tok> = Vec::new();
    assert(toks_model(g1@) =~= Seq::<TokModel>::empty());
    push_punct(&mut g1, '&', false);
    push_ident(&mut g1, "self");
    push_group(out, Delim::Paren, g1);
    push_punct(out, '-', true);
    push_punct(out, '>', false);
    push_punct(out, '&', false);
    push_all(out, copy_toks(&e.ty));
    let mut g2: Vec<Tok> = Vec::new();
    assert(toks_model(g2@) =~= Seq::<TokModel>::empty());
    push_punct(&mut g2, '&', false);
    push_ident(&mut g2, "self");
    push_punct(&mut g2, '.', false);
    push_ident(&mut g2, "item");
    push_punct(&mut g2, '.', false);
    push_ident(&mut g2, "as_ref");
    let mut g3: Vec<Tok> = Vec::new();
    assert(toks_model(g3@) =~= Seq::<TokModel>::empty());
    push_group(&mut g2, Delim::Paren, g3);
    push_punct(&mut g2, '.', false);
    push_ident(&mut g2, "unwrap");
    let mut g4: Vec<Tok> = Vec::new();
    assert(toks_model(g4@) =~= Seq::<TokModel>::empty());
    push_group(&mut g2, Delim::Paren, g4);
    push_punct(&mut g2, '.', false);
    push_ident(&mut g2, e.name.as_str());
    push_group(out, Delim::Brace, g2);
}

/// A handle's field accessors, one per field.
pub open spec fn accessors_after(o: Seq<TokModel>, items: Seq<FieldModel>) -> Seq<TokModel>
    decreases items.len(),
{
    if items.len() == 0 {
        o
    } else {
        let o = accessors_after(o, items.drop_last());
        accessor_after(o, items.last())
    }
}

fn emit_accessors(out: &mut Vec<Tok>, items: &Vec<TypedField>)
    ensures
        toks_model(final(out)@) == accessors_after(toks_model(old(out)@), fields_model(items@)),
{
    let ghost o = toks_model(out@);
    let ghost v = fields_model(items@);
    let mut i: usize = 0;
    assert(v.take(0) =~= Seq::<FieldModel>::empty());
    while i < items.len()
        invariant
            i <= items@.len(),
            v == fields_model(items@),
            v.len() == items@.len(),
            toks_model(out@) == accessors_after(o, v.take(i as int)),
        decreases items.len() - i,
    {
        assert(v.take(i + 1).drop_last() =~= v.take(i as int));
        assert(v.take(i + 1).last() == v[i as int]);
        emit_accessor(out, &items[i]);
        i += 1;
    }
    assert(v.take(i as int) =~= v);
}

/// A transition parameter: `name: type`.
pub open spec fn param_after(o: Seq<TokModel>, e: FieldModel) -> Seq<TokModel> {
    let o = o.push(id(e.name@)).push(pa(':'));
    let o = o + toks_model(e.ty);
    o
}

fn emit_param(out: &mut Vec<Tok>, e: &TypedField)
    ensures
        toks_model(final(out)@) == param_after(toks_model(old(out)@), e@),
{
    push_ident(out, e.name.as_str());
    push_punct(out, ':', false);
    push_all(out, copy_toks(&e.ty));
}

/// A transition's parameters, separated by `,`.
pub open spec fn params_after(o: Seq<TokModel>, items: Seq<FieldModel>) -> Seq<TokModel>
    decreases items.len(),
{
    if items.len() == 0 {
        o
    } else {
        let o = params_after(o, items.drop_last());
        let o = if items.len() > 1 { o.push(pa(',')) } else { o };
        param_after(o, items.last())
    }
}

fn emit_params(out: &mut Vec<Tok>, items: &Vec<TypedField>)
    ensures
        toks_model(final(out)@) == params_after(toks_model(old(out)@), fields_model(items@)),
{
    let ghost o = toks_model(out@);
    let ghost v = fields_model(items@);
    let mut i: usize = 0;
    assert(v.take(0) =~= Seq::<FieldModel>::empty());
    while i < items.len()
        invariant
            i <= items@.len(),
            v == fields_model(items@),
            v.len() == items@.len(),
            toks_model(out@) == params_after(o, v.take(i as int)),
        decreases items.len() - i,
    {
        assert(v.take(i + 1).drop_last() =~= v.take(i as int));
        assert(v.take(i + 1).last() == v[i as int]);
        if i > 0 {
            push_punct(out, ',', false);
        }
        emit_param(out, &items[i]);
        i += 1;
    }
    assert(v.take(i as int) =~= v);
}

/// A field built with its default: `name: Default::default()`.
pub open spec fn default_init_after(o: Seq<TokModel>, e: FieldModel) -> Seq<TokModel> {
    let o = o.push(id(e.name@)).push(pa(':')).push(id("Default"@)).push(pj(':')).push(pa(':')).push(id("default"@)).push(grp(Delim::Paren, {
        let inner = Seq::<TokModel>::empty();

        inner
    }));
    o
}

fn emit_default_init(out: &mut Vec<Tok>, e: &TypedField)
    ensures
        toks_model(final(out)@) == default_init_after(toks_model(old(out)@), e@),
{
    push_ident(out, e.name.as_str());
    push_punct(out, ':', false);
    push_ident(out, "Default");
    push_punct(out, ':', true);
    push_punct(out, ':', false);
    push_ident(out, "default");
    let mut g1: Vec<Tok> = Vec::new();
    assert(toks_model(g1@) =~= Seq::<TokModel>::empty());
    push_group(out, Delim::Paren, g1);
}

/// Fields built with their defaults, separated by `,`.
pub open spec fn default_inits_after(o: Seq<TokModel>, items: Seq<FieldModel>) -> Seq<TokModel>
    decreases items.len(),
{
    if items.len() == 0 {
        o
    } else {
        let o = default_inits_after(o, items.drop_last());
        let o = if items.len() > 1 { o.push(pa(',')) } else { o };
        default_init_after(o, items.last())
    }
}

fn emit_default_inits(out: &mut Vec<Tok>, items: &Vec<TypedField>)
    ensures
        toks_model(final(out)@) == default_inits_after(toks_model(old(out)@), fields_model(items@)),
{
    let ghost o = toks_model(out@);
    let ghost v = fields_model(items@);
    let mut i: usize = 0;
    assert(v.take(0) =~= Seq::<FieldModel>::empty());
    while i < items.len()
        invariant
            i <= items@.len(),
            v == fields_model(items@),
            v.len() == items@.len(),
            toks_model(out@) == default_inits_after(o, v.take(i as int)),
        decreases items.len() - i,
    {
        assert(v.take(i + 1).drop_last() =~= v.take(i as int));
        assert(v.take(i + 1).last() == v[i as int]);
        if i > 0 {
            push_punct(out, ',', false);
        }
        emit_default_init(out, &items[i]);
        i += 1;
    }
    assert(v.take(i as int) =~= v);
}

/// A field built from a transition's assignment, with `self.` read as `item.`.
pub open spec fn assign_init_after(o: Seq<TokModel>, e: AssignmentModel) -> Seq<TokModel> {
    let o = o.push(id(e.field@)).push(pa(':'));
    let o = o + rewrite_model(toks_model(e.value));
    o
}

fn emit_assign_init(out: &mut Vec<Tok>, e: &FieldAssignment)
    ensures
        toks_model(final(out)@) == assign_init_after(toks_model(old(out)@), e@),
{
    push_ident(out, e.field.as_str());
    push_punct(out, ':', false);
    push_all(out, rewrite_self_to_item(copy_toks(&e.value)));
}

/// Fields built from a transition's assignments, separated by `,`.
pub open spec fn assign_inits_after(o: Seq<TokModel>, items: Seq<AssignmentModel>) -> Seq<TokModel>
    decreases items.len(),
{
    if items.len() == 0 {
        o
    } else {
        let o = assign_inits_after(o, items.drop_last());
        let o = if items.len() > 1 { o.push(pa(',')) } else { o };
        assign_init_after(o, items.last())
    }
}

fn emit_assign_inits(out: &mut Vec<Tok>, items: &Vec<FieldAssignment>)
    ensures
        toks_model(final(out)@) == assign_inits_after(toks_model(old(out)@), assignments_model(items@)),
{
    let ghost o = toks_model(out@);
    let ghost v = assignments_model(items@);
    let mut i: usize = 0;
    assert(v.take(0) =~= Seq::<AssignmentModel>::empty());
    while i < items.len()
        invariant
            i <= items@.len(),
            v == assignments_model(items@),
            v.len() == items@.len(),
            toks_model(out@) == assign_inits_after(o, v.take(i as int)),
        decreases items.len() - i,
    {
        assert(v.take(i + 1).drop_last() =~= v.take(i as int));
        assert(v.take(i + 1).last() == v[i as int]);
        if i > 0 {
            push_punct(out, ',', false);
        }
        emit_assign_init(out, &items[i]);
        i += 1;
    }
    assert(v.take(i as int) =~= v);
}

/// A unit state value: its type's name.
pub open spec fn unit_value_after(o: Seq<TokModel>, tt: Seq<char>) -> Seq<TokModel> {
    let o = o.push(id(tt));
    o
}

fn emit_unit_value(out: &mut Vec<Tok>, tt: &str)
    ensures
        toks_model(final(out)@) == unit_value_after(toks_model(old(out)@), tt@),
{
    push_ident(out, tt);
}

/// A state value with every field defaulted.
pub open spec fn default_value_after(o: Seq<TokModel>, tt: Seq<char>) -> Seq<TokModel> {
    let o = o.push(id(tt)).push(pj(':')).push(pa(':')).push(id("default"@)).push(grp(Delim::Paren, {
        let inner = Seq::<TokModel>::empty();

        inner
    }));
    o
}

fn emit_default_value(out: &mut Vec<Tok>, tt: &str)
    ensures
        toks_model(final(out)@) == default_value_after(toks_model(old(out)@), tt@),
{
    push_ident(out, tt);
    push_punct(out, ':', true);
    push_punct(out, ':', false);
    push_ident(out, "default");
    let mut g1: Vec<Tok> = Vec::new();
    assert(toks_model(g1@) =~= Seq::<TokModel>::empty());
    push_group(out, Delim::Paren, g1);
}

/// A state value built from assignments.
pub open spec fn assigned_value_after(o: Seq<TokModel>, tt: Seq<char>, a: Seq<AssignmentModel>) -> Seq<TokModel> {
    let o = o.push(id(tt)).push(grp(Delim::Brace, {
        let inner = Seq::<TokModel>::empty();
        let inner = assign_inits_after(inner, a);
        inner
    }));
    o
}

fn emit_assigned_value(out: &mut Vec<Tok>, tt: &str, a: &Vec<FieldAssignment>)
    ensures
        toks_model(final(out)@) == assigned_value_after(toks_model(old(out)@), tt@, assignments_model(a@)),
{
    push_ident(out, tt);
    let mut g1: Vec<Tok> = Vec::new();
    assert(toks_model(g1@) =~= Seq::<TokModel>::empty());
    emit_assign_inits(&mut g1, a);
    push_group(out, Delim::Brace, g1);
}

/// A queue state value carrying the item's key and nothing else.
pub open spec fn keyed_unit_value_after(o: Seq<TokModel>, tt: Seq<char>, k: Seq<char>) -> Seq<TokModel> {
    let o = o.push(id(tt)).push(grp(Delim::Brace, {
        let inner = Seq::<TokModel>::empty();
        let inner = inner.push(id(k)).push(pa(':')).push(id("item"@)).push(pa('.')).push(id(k));
        inner
    }));
    o
}

fn emit_keyed_unit_value(out: &mut Vec<Tok>, tt: &str, k: &str)
    ensures
        toks_model(final(out)@) == keyed_unit_value_after(toks_model(old(out)@), tt@, k@),
{
    push_ident(out, tt);
    let mut g1: Vec<Tok> = Vec::new();
    assert(toks_model(g1@) =~= Seq::<TokModel>::empty());
    push_ident(&mut g1, k);
    push_punct(&mut g1, ':', false);
    push_ident(&mut g1, "item");
    push_punct(&mut g1, '.', false);
    push_ident(&mut g1, k);
    push_group(out, Delim::Brace, g1);
}

/// A queue state value carrying the item's key, every other field defaulted.
pub open spec fn keyed_default_value_after(o: Seq<TokModel>, tt: Seq<char>, k: Seq<char>, f: Seq<FieldModel>) -> Seq<TokModel> {
    let o = o.push(id(tt)).push(grp(Delim::Brace, {
        let inner = Seq::<TokModel>::empty();
        let inner = inner.push(id(k)).push(pa(':')).push(id("item"@)).push(pa('.')).push(id(k)).push(pa(','));
        let inner = default_inits_after(inner, f);
        inner
    }));
    o
}

fn emit_keyed_default_value(out: &mut Vec<Tok>, tt: &str, k: &str, f: &Vec<TypedField>)
    ensures
        toks_model(final(out)@) == keyed_default_value_after(toks_model(old(out)@), tt@, k@, fields_model(f@)),
{
    push_ident(out, tt);
    let mut g1: Vec<Tok> = Vec::new();
    assert(toks_model(g1@) =~= Seq::<TokModel>::empty());
    push_ident(&mut g1, k);
    push_punct(&mut g1, ':', false);
    push_ident(&mut g1, "item");
    push_punct(&mut g1, '.', false);
    push_ident(&mut g1, k);
    push_punct(&mut g1, ',', false);
    emit_default_inits(&mut g1, f);
    push_group(out, Delim::Brace, g1);
}

/// A queue state value carrying the item's key, other fields from assignments.
pub open spec fn keyed_assigned_value_after(o: Seq<TokModel>, tt: Seq<char>, k: Seq<char>, a: Seq<AssignmentModel>) -> Seq<TokModel> {
    let o = o.push(id(tt)).push(grp(Delim::Brace, {
        let inner = Seq::<TokModel>::empty();
        let inner = inner.push(id(k)).push(pa(':')).push(id("item"@)).push(pa('.')).push(id(k)).push(pa(','));
        let inner = assign_inits_after(inner, a);
        inner
    }));
    o
}

fn emit_keyed_assigned_value(out: &mut Vec<Tok>, tt: &str, k: &str, a: &Vec<FieldAssignment>)
    ensures
        toks_model(final(out)@) == keyed_assigned_value_after(toks_model(old(out)@), tt@, k@, assignments_model(a@)),
{
    push_ident(out, tt);
    let mut g1: Vec<Tok> = Vec::new();
    assert(toks_model(g1@) =~= Seq::<TokModel>::empty());
    push_ident(&mut g1, k);
    push_punct(&mut g1, ':', false);
    push_ident(&mut g1, "item");
    push_punct(&mut g1, '.', false);
    push_ident(&mut g1, k);
    push_punct(&mut g1, ',', false);
    emit_assign_inits(&mut g1, a);
    push_group(out, Delim::Brace, g1);
}

/// The guard check of a transition: a failed guard returns `GuardFailed` before the item is taken.
pub open spec fn guard_check_after(o: Seq<TokModel>, g: Seq<Tok>, err: Seq<char>) -> Seq<TokModel> {
    let o = o.push(id("if"@)).push(pa('!')).push(grp(Delim::Paren, {
        let inner = Seq::<TokModel>::empty();
        let inner = inner + rewrite_model(toks_model(g));
        inner
    })).push(grp(Delim::Brace, {
        let inner = Seq::<TokModel>::empty();
        let inner = inner.push(id("return"@)).push(id("Err"@)).push(grp(Delim::Paren, {
        let inner = Seq::<TokModel>::empty();
        let inner = inner.push(id(err)).push(pj(':')).push(pa(':')).push(id("GuardFailed"@));
        inner
    })).push(pa(';'));
        inner
    }));
    o
}

fn emit_guard_check(out: &mut Vec<Tok>, g: &Vec<Tok>, err: &str)
    ensures
        toks_model(final(out)@) == guard_check_after(toks_model(old(out)@), g@, err@),
{
    push_ident(out, "if");
    push_punct(out, '!', false);
    let mut g1: Vec<Tok> = Vec::new();
    assert(toks_model(g1@) =~= Seq::<TokModel>::empty());
    push_all(&mut g1, rewrite_self_to_item(copy_toks(g)));
    push_group(out, Delim::Paren, g1);
    let mut g2: Vec<Tok> = Vec::new();
    assert(toks_model(g2@) =~= Seq::<TokModel>::empty());
    push_ident(&mut g2, "return");
    push_ident(&mut g2, "Err");
    let mut g3: Vec<Tok> = Vec::new();
    assert(toks_model(g3@) =~= Seq::<TokModel>::empty());
    push_ident(&mut g3, err);
    push_punct(&mut g3, ':', true);
    push_punct(&mut g3, ':', false);
    push_ident(&mut g3, "GuardFailed");
    push_group(&mut g2, Delim::Paren, g3);
    push_punct(&mut g2, ';', false);
    push_group(out, Delim::Brace, g2);
}

/// A transition method of a map handle: the guard is checked, then the item is taken and inserted, under its key, into the target state's collection.
pub open spec fn map_method_after(o: Seq<TokModel>, t: TransitionModel, prefix: Seq<char>, states: Seq<StateModel>, err: Seq<char>) -> Seq<TokModel> {
    let o = o.push(id("pub"@)).push(id("fn"@)).push(id(t.name@)).push(grp(Delim::Paren, {
        let inner = Seq::<TokModel>::empty();
        let inner = inner.push(id("mut"@)).push(id("self"@)).push(pa(','));
        let inner = params_after(inner, t.params);
        inner
    })).push(pj('-')).push(pa('>')).push(id("Result"@)).push(pa('<')).push(grp(Delim::Paren, {
        let inner = Seq::<TokModel>::empty();

        inner
    })).push(pa(',')).push(id(err)).push(pa('>')).push(grp(Delim::Brace, {
        let inner = Seq::<TokModel>::empty();
        let inner = inner.push(id("let"@)).push(id("item"@)).push(pa('=')).push(id("self"@)).push(pa('.')).push(id("item"@)).push(pa('.')).push(id("as_ref"@)).push(grp(Delim::Paren, {
        let inner = Seq::<TokModel>::empty();

        inner
    })).push(pa('.')).push(id("unwrap"@)).push(grp(Delim::Paren, {
        let inner = Seq::<TokModel>::empty();

        inner
    })).push(pa(';'));
        let inner = guard_after(inner, t.guard, err);
        let inner = inner.push(id("let"@)).push(id("item"@)).push(pa('=')).push(id("self"@)).push(pa('.')).push(id("item"@)).push(pa('.')).push(id("take"@)).push(grp(Delim::Paren, {
        let inner = Seq::<TokModel>::empty();

        inner
    })).push(pa('.')).push(id("unwrap"@)).push(grp(Delim::Paren, {
        let inner = Seq::<TokModel>::empty();

        inner
    })).push(pa(';')).push(id("self"@)).push(pa('.')).push(id(role_name("target_"@, t.target@))).push(pa('.')).push(id("lock"@)).push(grp(Delim::Paren, {
        let inner = Seq::<TokModel>::empty();

        inner
    })).push(pa('.'));
        let inner = inner.push(id("unwrap"@)).push(grp(Delim::Paren, {
        let inner = Seq::<TokModel>::empty();

        inner
    })).push(pa('.')).push(id("insert"@)).push(grp(Delim::Paren, {
        let inner = Seq::<TokModel>::empty();
        let inner = inner.push(id("self"@)).push(pa('.')).push(id("key"@)).push(pa('.')).push(id("clone"@)).push(grp(Delim::Paren, {
        let inner = Seq::<TokModel>::empty();

        inner
    })).push(pa(','));
        let inner = map_value_after(inner, t, prefix, states);
        inner
    })).push(pa(';')).push(id("Ok"@)).push(grp(Delim::Paren, {
        let inner = Seq::<TokModel>::empty();
        let inner = inner.push(grp(Delim::Paren, {
        let inner = Seq::<TokModel>::empty();

        inner
    }));
        inner
    }));
        inner
    }));
    o
}

fn emit_map_method(out: &mut Vec<Tok>, t: &TypedTransition, prefix: &str, states: &Vec<TypedState>, err: &str)
    ensures
        toks_model(final(out)@) == map_method_after(toks_model(old(out)@), t@, prefix@, states_model(states@), err@),
{
    push_ident(out, "pub");
    push_ident(out, "fn");
    push_ident(out, t.name.as_str());
    let mut g1: Vec<Tok> = Vec::new();
    assert(toks_model(g1@) =~= Seq::<TokModel>::empty());
    push_ident(&mut g1, "mut");
    push_ident(&mut g1, "self");
    push_punct(&mut g1, ',', false);
    emit_params(&mut g1, &t.params);
    push_group(out, Delim::Paren, g1);
    push_punct(out, '-', true);
    push_punct(out, '>', false);
    push_ident(out, "Result");
    push_punct(out, '<', false);
    let mut g2: Vec<Tok> = Vec::new();
    assert(toks_model(g2@) =~= Seq::<TokModel>::empty());
    push_group(out, Delim::Paren, g2);
    push_punct(out, ',', false);
    push_ident(out, err);
    push_punct(out, '>', false);
    let mut g3: Vec<Tok> = Vec::new();
    assert(toks_model(g3@) =~= Seq::<TokModel>::empty());
    push_ident(&mut g3, "let");
    push_ident(&mut g3, "item");
    push_punct(&mut g3, '=', false);
    push_ident(&mut g3, "self");
    push_punct(&mut g3, '.', false);
    push_ident(&mut g3, "item");
    push_punct(&mut g3, '.', false);
    push_ident(&mut g3, "as_ref");
    let mut g4: Vec<Tok> = Vec::new();
    assert(toks_model(g4@) =~= Seq::<TokModel>::empty());
    push_group(&mut g3, Delim::Paren, g4);
    push_punct(&mut g3, '.', false);
    push_ident(&mut g3, "unwrap");
    let mut g5: Vec<Tok> = Vec::new();
    assert(toks_model(g5@) =~= Seq::<TokModel>::empty());
    push_group(&mut g3, Delim::Paren, g5);
    push_punct(&mut g3, ';', false);
    emit_guard(&mut g3, &t.guard, err);
    push_ident(&mut g3, "let");
    push_ident(&mut g3, "item");
    push_punct(&mut g3, '=', false);
    push_ident(&mut g3, "self");
    push_punct(&mut g3, '.', false);
    push_ident(&mut g3, "item");
    push_punct(&mut g3, '.', false);
    push_ident(&mut g3, "take");
    let mut g6: Vec<Tok> = Vec::new();
    assert(toks_model(g6@) =~= Seq::<TokModel>::empty());
    push_group(&mut g3, Delim::Paren, g6);
    push_punct(&mut g3, '.', false);
    push_ident(&mut g3, "unwrap");
    let mut g7: Vec<Tok> = Vec::new();
    assert(toks_model(g7@) =~= Seq::<TokModel>::empty());
    push_group(&mut g3, Delim::Paren, g7);
    push_punct(&mut g3, ';', false);
    push_ident(&mut g3, "self");
    push_punct(&mut g3, '.', false);
    push_ident(&mut g3, role_name_of("target_", t.target.as_str()).as_str());
    push_punct(&mut g3, '.', false);
    push_ident(&mut g3, "lock");
    let mut g8: Vec<Tok> = Vec::new();
    assert(toks_model(g8@) =~= Seq::<TokModel>::empty());
    push_group(&mut g3, Delim::Paren, g8);
    push_punct(&mut g3, '.', false);
    push_ident(&mut g3, "unwrap");
    let mut g9: Vec<Tok> = Vec::new();
    assert(toks_model(g9@) =~= Seq::<TokModel>::empty());
    push_group(&mut g3, Delim::Paren, g9);
    push_punct(&mut g3, '.', false);
    push_ident(&mut g3, "insert");
    let mut g10: Vec<Tok> = Vec::new();
    assert(toks_model(g10@) =~= Seq::<TokModel>::empty());
    push_ident(&mut g10, "self");
    push_punct(&mut g10, '.', false);
    push_ident(&mut g10, "key");
    push_punct(&mut g10, '.', false);
    push_ident(&mut g10, "clone");
    let mut g11: Vec<Tok> = Vec::new();
    assert(toks_model(g11@) =~= Seq::<TokModel>::empty());
    push_group(&mut g10, Delim::Paren, g11);
    push_punct(&mut g10, ',', false);
    emit_map_value(&mut g10, t, prefix, states);
    push_group(&mut g3, Delim::Paren, g10);
    push_punct(&mut g3, ';', false);
    push_ident(&mut g3, "Ok");
    let mut g12: Vec<Tok> = Vec::new();
    assert(toks_model(g12@) =~= Seq::<TokModel>::empty());
    let mut g13: Vec<Tok> = Vec::new();
    assert(toks_model(g13@) =~= Seq::<TokModel>::empty());
    push_group(&mut g12, Delim::Paren, g13);
    push_group(&mut g3, Delim::Paren, g12);
    push_group(out, Delim::Brace, g3);
}

/// A transition method of a queue handle: the guard is checked, then the item is taken and pushed to the back of the target state's queue.
pub open spec fn queue_method_after(o: Seq<TokModel>, t: TransitionModel, prefix: Seq<char>, k: Seq<char>, states: Seq<StateModel>, err: Seq<char>) -> Seq<TokModel> {
    let o = o.push(id("pub"@)).push(id("fn"@)).push(id(t.name@)).push(grp(Delim::Paren, {
        let inner = Seq::<TokModel>::empty();
        let inner = inner.push(id("mut"@)).push(id("self"@)).push(pa(','));
        let inner = params_after(inner, t.params);
        inner
    })).push(pj('-')).push(pa('>')).push(id("Result"@)).push(pa('<')).push(grp(Delim::Paren, {
        let inner = Seq::<TokModel>::empty();

        inner
    })).push(pa(',')).push(id(err)).push(pa('>')).push(grp(Delim::Brace, {
        let inner = Seq::<TokModel>::empty();
        let inner = inner.push(id("let"@)).push(id("item"@)).push(pa('=')).push(id("self"@)).push(pa('.')).push(id("item"@)).push(pa('.')).push(id("as_ref"@)).push(grp(Delim::Paren, {
        let inner = Seq::<TokModel>::empty();

        inner
    })).push(pa('.')).push(id("unwrap"@)).push(grp(Delim::Paren, {
        let inner = Seq::<TokModel>::empty();

        inner
    })).push(pa(';'));
        let inner = guard_after(inner, t.guard, err);
        let inner = inner.push(id("let"@)).push(id("item"@)).push(pa('=')).push(id("self"@)).push(pa('.')).push(id("item"@)).push(pa('.')).push(id("take"@)).push(grp(Delim::Paren, {
        let inner = Seq::<TokModel>::empty();

        inner
    })).push(pa('.')).push(id("unwrap"@)).push(grp(Delim::Paren, {
        let inner = Seq::<TokModel>::empty();

        inner
    })).push(pa(';')).push(id("self"@)).push(pa('.')).push(id(role_name("target_"@, t.target@))).push(pa('.')).push(id("lock"@)).push(grp(Delim::Paren, {
        let inner = Seq::<TokModel>::empty();

        inner
    })).push(pa('.'));
        let inner = inner.push(id("unwrap"@)).push(grp(Delim::Paren, {
        let inner = Seq::<TokModel>::empty();

        inner
    })).push(pa('.')).push(id("push_back"@)).push(grp(Delim::Paren, {
        let inner = Seq::<TokModel>::empty();
        let inner = queue_value_after(inner, t, prefix, k, states);
        inner
    })).push(pa(';')).push(id("Ok"@)).push(grp(Delim::Paren, {
        let inner = Seq::<TokModel>::empty();
        let inner = inner.push(grp(Delim::Paren, {
        let inner = Seq::<TokModel>::empty();

        inner
    }));
        inner
    }));
        inner
    }));
    o
}

fn emit_queue_method(out: &mut Vec<Tok>, t: &TypedTransition, prefix: &str, k: &str, states: &Vec<TypedState>, err: &str)
    ensures
        toks_model(final(out)@) == queue_method_after(toks_model(old(out)@), t@, prefix@, k@, states_model(states@), err@),
{
    push_ident(out, "pub");
    push_ident(out, "fn");
    push_ident(out, t.name.as_str());
    let mut g1: Vec<Tok> = Vec::new();
    assert(toks_model(g1@) =~= Seq::<TokModel>::empty());
    push_ident(&mut g1, "mut");
    push_ident(&mut g1, "self");
    push_punct(&mut g1, ',', false);
    emit_params(&mut g1, &t.params);
    push_group(out, Delim::Paren, g1);
    push_punct(out, '-', true);
    push_punct(out, '>', false);
    push_ident(out, "Result");
    push_punct(out, '<', false);
    let mut g2: Vec<Tok> = Vec::new();
    assert(toks_model(g2@) =~= Seq::<TokModel>::empty());
    push_group(out, Delim::Paren, g2);
    push_punct(out, ',', false);
    push_ident(out, err);
    push_punct(out, '>', false);
    let mut g3: Vec<Tok> = Vec::new();
    assert(toks_model(g3@) =~= Seq::<TokModel>::empty());
    push_ident(&mut g3, "let");
    push_ident(&mut g3, "item");
    push_punct(&mut g3, '=', false);
    push_ident(&mut g3, "self");
    push_punct(&mut g3, '.', false);
    push_ident(&mut g3, "item");
    push_punct(&mut g3, '.', false);
    push_ident(&mut g3, "as_ref");
    let mut g4: Vec<Tok> = Vec::new();
    assert(toks_model(g4@) =~= Seq::<TokModel>::empty());
    push_group(&mut g3, Delim::Paren, g4);
    push_punct(&mut g3, '.', false);
    push_ident(&mut g3, "unwrap");
    let mut g5: Vec<Tok> = Vec::new();
    assert(toks_model(g5@) =~= Seq::<TokModel>::empty());
    push_group(&mut g3, Delim::Paren, g5);
    push_punct(&mut g3, ';', false);
    emit_guard(&mut g3, &t.guard, err);
    push_ident(&mut g3, "let");
    push_ident(&mut g3, "item");
    push_punct(&mut g3, '=', false);
    push_ident(&mut g3, "self");
    push_punct(&mut g3, '.', false);
    push_ident(&mut g3, "item");
    push_punct(&mut g3, '.', false);
    push_ident(&mut g3, "take");
    let mut g6: Vec<Tok> = Vec::new();
    assert(toks_model(g6@) =~= Seq::<TokModel>::empty());
    push_group(&mut g3, Delim::Paren, g6);
    push_punct(&mut g3, '.', false);
    push_ident(&mut g3, "unwrap");
    let mut g7: Vec<Tok> = Vec::new();
    assert(toks_model(g7@) =~= Seq::<TokModel>::empty());
    push_group(&mut g3, Delim::Paren, g7);
    push_punct(&mut g3, ';', false);
    push_ident(&mut g3, "self");
    push_punct(&mut g3, '.', false);
    push_ident(&mut g3, role_name_of("target_", t.target.as_str()).as_str());
    push_punct(&mut g3, '.', false);
    push_ident(&mut g3, "lock");
    let mut g8: Vec<Tok> = Vec::new();
    assert(toks_model(g8@) =~= Seq::<TokModel>::empty());
    push_group(&mut g3, Delim::Paren, g8);
    push_punct(&mut g3, '.', false);
    push_ident(&mut g3, "unwrap");
    let mut g9: Vec<Tok> = Vec::new();
    assert(toks_model(g9@) =~= Seq::<TokModel>::empty());
    push_group(&mut g3, Delim::Paren, g9);
    push_punct(&mut g3, '.', false);
    push_ident(&mut g3, "push_back");
    let mut g10: Vec<Tok> = Vec::new();
    assert(toks_model(g10@) =~= Seq::<TokModel>::empty());
    emit_queue_value(&mut g10, t, prefix, k, states);
    push_group(&mut g3, Delim::Paren, g10);
    push_punct(&mut g3, ';', false);
    push_ident(&mut g3, "Ok");
    let mut g11: Vec<Tok> = Vec::new();
    assert(toks_model(g11@) =~= Seq::<TokModel>::empty());
    let mut g12: Vec<Tok> = Vec::new();
    assert(toks_model(g12@) =~= Seq::<TokModel>::empty());
    push_group(&mut g11, Delim::Paren, g12);
    push_group(&mut g3, Delim::Paren, g11);
    push_group(out, Delim::Brace, g3);
}

/// The transition methods of a map handle for `state`: one for each transition that leaves it, in order.
pub open spec fn map_methods_after(o: Seq<TokModel>, items: Seq<TransitionModel>, state: Seq<char>, prefix: Seq<char>, states: Seq<StateModel>, err: Seq<char>) -> Seq<TokModel>
    decreases items.len(),
{
    if items.len() == 0 {
        o
    } else {
        let o = map_methods_after(o, items.drop_last(), state, prefix, states, err);
        map_method_if_after(o, items.last(), state, prefix, states, err)
    }
}

fn emit_map_methods(out: &mut Vec<Tok>, items: &Vec<TypedTransition>, state: &str, prefix: &str, states: &Vec<TypedState>, err: &str)
    ensures
        toks_model(final(out)@) == map_methods_after(toks_model(old(out)@), transitions_model(items@), state@, prefix@, states_model(states@), err@),
{
    let ghost o = toks_model(out@);
    let ghost v = transitions_model(items@);
    let mut i: usize = 0;
    assert(v.take(0) =~= Seq::<TransitionModel>::empty());
    while i < items.len()
        invariant
            i <= items@.len(),
            v == transitions_model(items@),
            v.len() == items@.len(),
            toks_model(out@) == map_methods_after(o, v.take(i as int), state@, prefix@, states_model(states@), err@),
        decreases items.len() - i,
    {
        assert(v.take(i + 1).drop_last() =~= v.take(i as int));
        assert(v.take(i + 1).last() == v[i as int]);
        emit_map_method_if(out, &items[i], state, prefix, states, err);
        i += 1;
    }
    assert(v.take(i as int) =~= v);
}

/// The transition methods of a queue handle for `state`: one for each transition that leaves it, in order.
pub open spec fn queue_methods_after(o: Seq<TokModel>, items: Seq<TransitionModel>, state: Seq<char>, prefix: Seq<char>, k: Seq<char>, states: Seq<StateModel>, err: Seq<char>) -> Seq<TokModel>
    decreases items.len(),
{
    if items.len() == 0 {
        o
    } else {
        let o = queue_methods_after(o, items.drop_last(), state, prefix, k, states, err);
        queue_method_if_after(o, items.last(), state, prefix, k, states, err)
    }
}

fn emit_queue_methods(out: &mut Vec<Tok>, items: &Vec<TypedTransition>, state: &str, prefix: &str, k: &str, states: &Vec<TypedState>, err: &str)
    ensures
        toks_model(final(out)@) == queue_methods_after(toks_model(old(out)@), transitions_model(items@), state@, prefix@, k@, states_model(states@), err@),
{
    let ghost o = toks_model(out@);
    let ghost v = transitions_model(items@);
    let mut i: usize = 0;
    assert(v.take(0) =~= Seq::<TransitionModel>::empty());
    while i < items.len()
        invariant
            i <= items@.len(),
            v == transitions_model(items@),
            v.len() == items@.len(),
            toks_model(out@) == queue_methods_after(o, v.take(i as int), state@, prefix@, k@, states_model(states@), err@),
        decreases items.len() - i,
    {
        assert(v.take(i + 1).drop_last() =~= v.take(i as int));
        assert(v.take(i + 1).last() == v[i as int]);
        emit_queue_method_if(out, &items[i], state, prefix, k, states, err);
        i += 1;
    }
    assert(v.take(i as int) =~= v);
}

/// A handle field holding a target state's map.
pub open spec fn map_target_field_after(o: Seq<TokModel>, e: Seq<char>, prefix: Seq<char>, kt: Seq<Tok>) -> Seq<TokModel> {
    let o = o.push(id(role_name("target_"@, e))).push(pa(':')).push(id("std"@)).push(pj(':')).push(pa(':')).push(id("sync"@)).push(pj(':')).push(pa(':')).push(id("Arc"@)).push(pa('<')).push(id("std"@)).push(pj(':')).push(pa(':')).push(id("sync"@)).push(pj(':')).push(pa(':')).push(id("Mutex"@)).push(pa('<')).push(id("std"@)).push(pj(':'));
    let o = o.push(pa(':')).push(id("collections"@)).push(pj(':')).push(pa(':')).push(id("HashMap"@)).push(pa('<'));
    let o = o + toks_model(kt);
    let o = o.push(pa(',')).push(id(prefix + e)).push(pa('>')).push(pa('>')).push(pa('>')).push(pa(','));
    o
}

fn emit_map_target_field(out: &mut Vec<Tok>, e: &String, prefix: &str, kt: &Vec<Tok>)
    ensures
        toks_model(final(out)@) == map_target_field_after(toks_model(old(out)@), e@, prefix@, kt@),
{
    push_ident(out, role_name_of("target_", e.as_str()).as_str());
    push_punct(out, ':', false);
    push_ident(out, "std");
    push_punct(out, ':', true);
    push_punct(out, ':', false);
    push_ident(out, "sync");
    push_punct(out, ':', true);
    push_punct(out, ':', false);
    push_ident(out, "Arc");
    push_punct(out, '<', false);
    push_ident(out, "std");
    push_punct(out, ':', true);
    push_punct(out, ':', false);
    push_ident(out, "sync");
    push_punct(out, ':', true);
    push_punct(out, ':', false);
    push_ident(out, "Mutex");
    push_punct(out, '<', false);
    push_ident(out, "std");
    push_punct(out, ':', true);
    push_punct(out, ':', false);
    push_ident(out, "collections");
    push_punct(out, ':', true);
    push_punct(out, ':', false);
    push_ident(out, "HashMap");
    push_punct(out, '<', false);
    push_all(out, copy_toks(kt));
    push_punct(out, ',', false);
    push_ident(out, state_type_of(prefix, e.as_str()).as_str());
    push_punct(out, '>', false);
    push_punct(out, '>', false);
    push_punct(out, '>', false);
    push_punct(out, ',', false);
}

/// The handle fields for the target states' maps.
pub open spec fn map_target_fields_after(o: Seq<TokModel>, items: Seq<Seq<char>>, prefix: Seq<char>, kt: Seq<Tok>) -> Seq<TokModel>
    decreases items.len(),
{
    if items.len() == 0 {
        o
    } else {
        let o = map_target_fields_after(o, items.drop_last(), prefix, kt);
        map_target_field_after(o, items.last(), prefix, kt)
    }
}

fn emit_map_target_fields(out: &mut Vec<Tok>, items: &Vec<String>, prefix: &str, kt: &Vec<Tok>)
    ensures
        toks_model(final(out)@) == map_target_fields_after(toks_model(old(out)@), texts(items@), prefix@, kt@),
{
    let ghost o = toks_model(out@);
    let ghost v = texts(items@);
    let mut i: usize = 0;
    assert(v.take(0) =~= Seq::<Seq<char>>::empty());
    while i < items.len()
        invariant
            i <= items@.len(),
            v == texts(items@),
            v.len() == items@.len(),
            toks_model(out@) == map_target_fields_after(o, v.take(i as int), prefix@, kt@),
        decreases items.len() - i,
    {
        assert(v.take(i + 1).drop_last() =~= v.take(i as int));
        assert(v.take(i + 1).last() == v[i as int]);
        emit_map_target_field(out, &items[i], prefix, kt);
        i += 1;
    }
    assert(v.take(i as int) =~= v);
}

/// A handle field holding a target state's queue.
pub open spec fn queue_target_field_after(o: Seq<TokModel>, e: Seq<char>, prefix: Seq<char>) -> Seq<TokModel> {
    let o = o.push(id(role_name("target_"@, e))).push(pa(':')).push(id("std"@)).push(pj(':')).push(pa(':')).push(id("sync"@)).push(pj(':')).push(pa(':')).push(id("Arc"@)).push(pa('<')).push(id("std"@)).push(pj(':')).push(pa(':')).push(id("sync"@)).push(pj(':')).push(pa(':')).push(id("Mutex"@)).push(pa('<')).push(id("std"@)).push(pj(':'));
    let o = o.push(pa(':')).push(id("collections"@)).push(pj(':')).push(pa(':')).push(id("VecDeque"@)).push(pa('<')).push(id(prefix + e)).push(pa('>')).push(pa('>')).push(pa('>')).push(pa(','));
    o
}

fn emit_queue_target_field(out: &mut Vec<Tok>, e: &String, prefix: &str)
    ensures
        toks_model(final(out)@) == queue_target_field_after(toks_model(old(out)@), e@, prefix@),
{
    push_ident(out, role_name_of("target_", e.as_str()).as_str());
    push_punct(out, ':', false);
    push_ident(out, "std");
    push_punct(out, ':', true);
    push_punct(out, ':', false);
    push_ident(out, "sync");
    push_punct(out, ':', true);
    push_punct(out, ':', false);
    push_ident(out, "Arc");
    push_punct(out, '<', false);
    push_ident(out, "std");
    push_punct(out, ':', true);
    push_punct(out, ':', false);
    push_ident(out, "sync");
    push_punct(out, ':', true);
    push_punct(out, ':', false);
    push_ident(out, "Mutex");
    push_punct(out, '<', false);
    push_ident(out, "std");
    push_punct(out, ':', true);
    push_punct(out, ':', false);
    push_ident(out, "collections");
    push_punct(out, ':', true);
    push_punct(out, ':', false);
    push_ident(out, "VecDeque");
    push_punct(out, '<', false);
    push_ident(out, state_type_of(prefix, e.as_str()).as_str());
    push_punct(out, '>', false);
    push_punct(out, '>', false);
    push_punct(out, '>', false);
    push_punct(out, ',', false);
}

/// The handle fields for the target states' queues.
pub open spec fn queue_target_fields_after(o: Seq<TokModel>, items: Seq<Seq<char>>, prefix: Seq<char>) -> Seq<TokModel>
    decreases items.len(),
{
    if items.len() == 0 {
        o
    } else {
        let o = queue_target_fields_after(o, items.drop_last(), prefix);
        queue_target_field_after(o, items.last(), prefix)
    }
}

fn emit_queue_target_fields(out: &mut Vec<Tok>, items: &Vec<String>, prefix: &str)
    ensures
        toks_model(final(out)@) == queue_target_fields_after(toks_model(old(out)@), texts(items@), prefix@),
{
    let ghost o = toks_model(out@);
    let ghost v = texts(items@);
    let mut i: usize = 0;
    assert(v.take(0) =~= Seq::<Seq<char>>::empty());
    while i < items.len()
        invariant
            i <= items@.len(),
            v == texts(items@),
            v.len() == items@.len(),
            toks_model(out@) == queue_target_fields_after(o, v.take(i as int), prefix@),
        decreases items.len() - i,
    {
        assert(v.take(i + 1).drop_last() =~= v.take(i as int));
        assert(v.take(i + 1).last() == v[i as int]);
        emit_queue_target_field(out, &items[i], prefix);
        i += 1;
    }
    assert(v.take(i as int) =~= v);
}

/// A handle field set to the store's collection of a target state.
pub open spec fn target_init_after(o: Seq<TokModel>, e: Seq<char>, col: Seq<char>) -> Seq<TokModel> {
    let o = o.push(id(role_name("target_"@, e))).push(pa(':')).push(id("self"@)).push(pa('.')).push(id(field_name(col, e))).push(pa('.')).push(id("clone"@)).push(grp(Delim::Paren, {
        let inner = Seq::<TokModel>::empty();

        inner
    })).push(pa(','));
    o
}

fn emit_target_init(out: &mut Vec<Tok>, e: &String, col: &str)
    ensures
        toks_model(final(out)@) == target_init_after(toks_model(old(out)@), e@, col@),
{
    push_ident(out, role_name_of("target_", e.as_str()).as_str());
    push_punct(out, ':', false);
    push_ident(out, "self");
    push_punct(out, '.', false);
    push_ident(out, collection_field_name(col, e.as_str()).as_str());
    push_punct(out, '.', false);
    push_ident(out, "clone");
    let mut g1: Vec<Tok> = Vec::new();
    assert(toks_model(g1@) =~= Seq::<TokModel>::empty());
    push_group(out, Delim::Paren, g1);
    push_punct(out, ',', false);
}

/// The handle fields set to the store's target collections.
pub open spec fn target_inits_after(o: Seq<TokModel>, items: Seq<Seq<char>>, col: Seq<char>) -> Seq<TokModel>
    decreases items.len(),
{
    if items.len() == 0 {
        o
    } else {
        let o = target_inits_after(o, items.drop_last(), col);
        target_init_after(o, items.last(), col)
    }
}

fn emit_target_inits(out: &mut Vec<Tok>, items: &Vec<String>, col: &str)
    ensures
        toks_model(final(out)@) == target_inits_after(toks_model(old(out)@), texts(items@), col@),
{
    let ghost o = toks_model(out@);
    let ghost v = texts(items@);
    let mut i: usize = 0;
    assert(v.take(0) =~= Seq::<Seq<char>>::empty());
    while i < items.len()
        invariant
            i <= items@.len(),
            v == texts(items@),
            v.len() == items@.len(),
            toks_model(out@) == target_inits_after(o, v.take(i as int), col@),
        decreases items.len() - i,
    {
        assert(v.take(i + 1).drop_last() =~= v.take(i as int));
        assert(v.take(i + 1).last() == v[i as int]);
        emit_target_init(out, &items[i], col);
        i += 1;
    }
    assert(v.take(i as int) =~= v);
}

/// The handle of a map collection's state `s`: it holds the item taken out of the state's map, offers its key, its fields and the transitions that leave `s`, and when dropped puts the item back into the state's map under its key.
pub open spec fn map_handle_after(o: Seq<TokModel>, s: StateModel, prefix: Seq<char>, kt: Seq<Tok>, ts: Seq<TransitionModel>, states: Seq<StateModel>, err: Seq<char>) -> Seq<TokModel> {
    let o = o.push(id("pub"@)).push(id("struct"@)).push(id(handle_name(prefix, s.name@))).push(grp(Delim::Brace, {
        let inner = Seq::<TokModel>::empty();
        let inner = inner.push(id(role_name("source_"@, s.name@))).push(pa(':')).push(id("std"@)).push(pj(':')).push(pa(':')).push(id("sync"@)).push(pj(':')).push(pa(':')).push(id("Arc"@)).push(pa('<')).push(id("std"@)).push(pj(':')).push(pa(':')).push(id("sync"@)).push(pj(':')).push(pa(':')).push(id("Mutex"@)).push(pa('<')).push(id("std"@)).push(pj(':'));
        let inner = inner.push(pa(':')).push(id("collections"@)).push(pj(':')).push(pa(':')).push(id("HashMap"@)).push(pa('<'));
        let inner = inner + toks_model(kt);
        let inner = inner.push(pa(',')).push(id(prefix + s.name@)).push(pa('>')).push(pa('>')).push(pa('>')).push(pa(','));
        let inner = map_target_fields_after(inner, distinct_targets(ts, s.name@, Seq::empty()), prefix, kt);
        let inner = inner.push(id("key"@)).push(pa(':'));
        let inner = inner + toks_model(kt);
        let inner = inner.push(pa(',')).push(id("item"@)).push(pa(':')).push(id("Option"@)).push(pa('<')).push(id(prefix + s.name@)).push(pa('>')).push(pa(','));
        inner
    })).push(id("impl"@)).push(id(handle_name(prefix, s.name@))).push(grp(Delim::Brace, {
        let inner = Seq::<TokModel>::empty();
        let inner = inner.push(pa('#')).push(grp(Delim::Bracket, {
        let inner = Seq::<TokModel>::empty();
        let inner = inner.push(id("doc"@)).push(pa('=')).push(lit("\" Get the key for this item.\""@));
        inner
    })).push(id("pub"@)).push(id("fn"@)).push(id("key"@)).push(grp(Delim::Paren, {
        let inner = Seq::<TokModel>::empty();
        let inner = inner.push(pa('&')).push(id("self"@));
        inner
    })).push(pj('-')).push(pa('>')).push(pa('&'));
        let inner = inner + toks_model(kt);
        let inner = inner.push(grp(Delim::Brace, {
        let inner = Seq::<TokModel>::empty();
        let inner = inner.push(pa('&')).push(id("self"@)).push(pa('.')).push(id("key"@));
        inner
    }));
        let inner = accessors_after(inner, s.fields);
        let inner = map_methods_after(inner, ts, s.name@, prefix, states, err);
        inner
    })).push(id("impl"@)).push(id("Drop"@)).push(id("for"@)).push(id(handle_name(prefix, s.name@))).push(grp(Delim::Brace, {
        let inner = Seq::<TokModel>::empty();
        let inner = inner.push(id("fn"@)).push(id("drop"@)).push(grp(Delim::Paren, {
        let inner = Seq::<TokModel>::empty();
        let inner = inner.push(pa('&')).push(id("mut"@)).push(id("self"@));
        inner
    })).push(grp(Delim::Brace, {
        let inner = Seq::<TokModel>::empty();
        let inner = inner.push(id("if"@)).push(id("let"@)).push(id("Some"@)).push(grp(Delim::Paren, {
        let inner = Seq::<TokModel>::empty();
        let inner = inner.push(id("item"@));
        inner
    })).push(pa('=')).push(id("self"@)).push(pa('.')).push(id("item"@)).push(pa('.')).push(id("take"@)).push(grp(Delim::Paren, {
        let inner = Seq::<TokModel>::empty();

        inner
    })).push(grp(Delim::Brace, {
        let inner = Seq::<TokModel>::empty();
        let inner = inner.push(id("self"@)).push(pa('.')).push(id(role_name("source_"@, s.name@))).push(pa('.')).push(id("lock"@)).push(grp(Delim::Paren, {
        let inner = Seq::<TokModel>::empty();

        inner
    })).push(pa('.')).push(id("unwrap"@)).push(grp(Delim::Paren, {
        let inner = Seq::<TokModel>::empty();

        inner
    })).push(pa('.')).push(id("insert"@)).push(grp(Delim::Paren, {
        let inner = Seq::<TokModel>::empty();
        let inner = inner.push(id("self"@)).push(pa('.')).push(id("key"@)).push(pa('.')).push(id("clone"@)).push(grp(Delim::Paren, {
        let inner = Seq::<TokModel>::empty();

        inner
    })).push(pa(',')).push(id("item"@));
        inner
    })).push(pa(';'));
        inner
    }));
        inner
    }));
        inner
    }));
    o
}

fn emit_map_handle(out: &mut Vec<Tok>, s: &TypedState, prefix: &str, kt: &Vec<Tok>, ts: &Vec<TypedTransition>, states: &Vec<TypedState>, err: &str)
    ensures
        toks_model(final(out)@) == map_handle_after(toks_model(old(out)@), s@, prefix@, kt@, transitions_model(ts@), states_model(states@), err@),
{
    push_ident(out, "pub");
    push_ident(out, "struct");
    push_ident(out, handle_name_of(prefix, s.name.as_str()).as_str());
    let mut g1: Vec<Tok> = Vec::new();
    assert(toks_model(g1@) =~= Seq::<TokModel>::empty());
    push_ident(&mut g1, role_name_of("source_", s.name.as_str()).as_str());
    push_punct(&mut g1, ':', false);
    push_ident(&mut g1, "std");
    push_punct(&mut g1, ':', true);
    push_punct(&mut g1, ':', false);
    push_ident(&mut g1, "sync");
    push_punct(&mut g1, ':', true);
    push_punct(&mut g1, ':', false);
    push_ident(&mut g1, "Arc");
    push_punct(&mut g1, '<', false);
    push_ident(&mut g1, "std");
    push_punct(&mut g1, ':', true);
    push_punct(&mut g1, ':', false);
    push_ident(&mut g1, "sync");
    push_punct(&mut g1, ':', true);
    push_punct(&mut g1, ':', false);
    push_ident(&mut g1, "Mutex");
    push_punct(&mut g1, '<', false);
    push_ident(&mut g1, "std");
    push_punct(&mut g1, ':', true);
    push_punct(&mut g1, ':', false);
    push_ident(&mut g1, "collections");
    push_punct(&mut g1, ':', true);
    push_punct(&mut g1, ':', false);
    push_ident(&mut g1, "HashMap");
    push_punct(&mut g1, '<', false);
    push_all(&mut g1, copy_toks(kt));
    push_punct(&mut g1, ',', false);
    push_ident(&mut g1, state_type_of(prefix, s.name.as_str()).as_str());
    push_punct(&mut g1, '>', false);
    push_punct(&mut g1, '>', false);
    push_punct(&mut g1, '>', false);
    push_punct(&mut g1, ',', false);
    { let tg = handle_targets(ts, s.name.as_str()); emit_map_target_fields(&mut g1, &tg, prefix, kt); }
    push_ident(&mut g1, "key");
    push_punct(&mut g1, ':', false);
    push_all(&mut g1, copy_toks(kt));
    push_punct(&mut g1, ',', false);
    push_ident(&mut g1, "item");
    push_punct(&mut g1, ':', false);
    push_ident(&mut g1, "Option");
    push_punct(&mut g1, '<', false);
    push_ident(&mut g1, state_type_of(prefix, s.name.as_str()).as_str());
    push_punct(&mut g1, '>', false);
    push_punct(&mut g1, ',', false);
    push_group(out, Delim::Brace, g1);
    push_ident(out, "impl");
    push_ident(out, handle_name_of(prefix, s.name.as_str()).as_str());
    let mut g2: Vec<Tok> = Vec::new();
    assert(toks_model(g2@) =~= Seq::<TokModel>::empty());
    push_punct(&mut g2, '#', false);
    let mut g3: Vec<Tok> = Vec::new();
    assert(toks_model(g3@) =~= Seq::<TokModel>::empty());
    push_ident(&mut g3, "doc");
    push_punct(&mut g3, '=', false);
    push_literal(&mut g3, "\" Get the key for this item.\"");
    push_group(&mut g2, Delim::Bracket, g3);
    push_ident(&mut g2, "pub");
    push_ident(&mut g2, "fn");
    push_ident(&mut g2, "key");
    let mut g4: Vec<Tok> = Vec::new();
    assert(toks_model(g4@) =~= Seq::<TokModel>::empty());
    push_punct(&mut g4, '&', false);
    push_ident(&mut g4, "self");
    push_group(&mut g2, Delim::Paren, g4);
    push_punct(&mut g2, '-', true);
    push_punct(&mut g2, '>', false);
    push_punct(&mut g2, '&', false);
    push_all(&mut g2, copy_toks(kt));
    let mut g5: Vec<Tok> = Vec::new();
    assert(toks_model(g5@) =~= Seq::<TokModel>::empty());
    push_punct(&mut g5, '&', false);
    push_ident(&mut g5, "self");
    push_punct(&mut g5, '.', false);
    push_ident(&mut g5, "key");
    push_group(&mut g2, Delim::Brace, g5);
    emit_accessors(&mut g2, &s.fields);
    emit_map_methods(&mut g2, ts, s.name.as_str(), prefix, states, err);
    push_group(out, Delim::Brace, g2);
    push_ident(out, "impl");
    push_ident(out, "Drop");
    push_ident(out, "for");
    push_ident(out, handle_name_of(prefix, s.name.as_str()).as_str());
    let mut g6: Vec<Tok> = Vec::new();
    assert(toks_model(g6@) =~= Seq::<TokModel>::empty());
    push_ident(&mut g6, "fn");
    push_ident(&mut g6, "drop");
    let mut g7: Vec<Tok> = Vec::new();
    assert(toks_model(g7@) =~= Seq::<TokModel>::empty());
    push_punct(&mut g7, '&', false);
    push_ident(&mut g7, "mut");
    push_ident(&mut g7, "self");
    push_group(&mut g6, Delim::Paren, g7);
    let mut g8: Vec<Tok> = Vec::new();
    assert(toks_model(g8@) =~= Seq::<TokModel>::empty());
    push_ident(&mut g8, "if");
    push_ident(&mut g8, "let");
    push_ident(&mut g8, "Some");
    let mut g9: Vec<Tok> = Vec::new();
    assert(toks_model(g9@) =~= Seq::<TokModel>::empty());
    push_ident(&mut g9, "item");
    push_group(&mut g8, Delim::Paren, g9);
    push_punct(&mut g8, '=', false);
    push_ident(&mut g8, "self");
    push_punct(&mut g8, '.', false);
    push_ident(&mut g8, "item");
    push_punct(&mut g8, '.', false);
    push_ident(&mut g8, "take");
    let mut g10: Vec<Tok> = Vec::new();
    assert(toks_model(g10@) =~= Seq::<TokModel>::empty());
    push_group(&mut g8, Delim::Paren, g10);
    let mut g11: Vec<Tok> = Vec::new();
    assert(toks_model(g11@) =~= Seq::<TokModel>::empty());
    push_ident(&mut g11, "self");
    push_punct(&mut g11, '.', false);
    push_ident(&mut g11, role_name_of("source_", s.name.as_str()).as_str());
    push_punct(&mut g11, '.', false);
    push_ident(&mut g11, "lock");
    let mut g12: Vec<Tok> = Vec::new();
    assert(toks_model(g12@) =~= Seq::<TokModel>::empty());
    push_group(&mut g11, Delim::Paren, g12);
    push_punct(&mut g11, '.', false);
    push_ident(&mut g11, "unwrap");
    let mut g13: Vec<Tok> = Vec::new();
    assert(toks_model(g13@) =~= Seq::<TokModel>::empty());
    push_group(&mut g11, Delim::Paren, g13);
    push_punct(&mut g11, '.', false);
    push_ident(&mut g11, "insert");
    let mut g14: Vec<Tok> = Vec::new();
    assert(toks_model(g14@) =~= Seq::<TokModel>::empty());
    push_ident(&mut g14, "self");
    push_punct(&mut g14, '.', false);
    push_ident(&mut g14, "key");
    push_punct(&mut g14, '.', false);
    push_ident(&mut g14, "clone");
    let mut g15: Vec<Tok> = Vec::new();
    assert(toks_model(g15@) =~= Seq::<TokModel>::empty());
    push_group(&mut g14, Delim::Paren, g15);
    push_punct(&mut g14, ',', false);
    push_ident(&mut g14, "item");
    push_group(&mut g11, Delim::Paren, g14);
    push_punct(&mut g11, ';', false);
    push_group(&mut g8, Delim::Brace, g11);
    push_group(&mut g6, Delim::Brace, g8);
    push_group(out, Delim::Brace, g6);
}

/// The handle of a queue collection's state `s`: it holds the item taken from the front of the state's queue, offers its key field, its fields and the transitions that leave `s`, and when dropped pushes the item back to the front of the state's queue.
pub open spec fn queue_handle_after(o: Seq<TokModel>, s: StateModel, prefix: Seq<char>, k: Seq<char>, kt: Seq<Tok>, ts: Seq<TransitionModel>, states: Seq<StateModel>, err: Seq<char>) -> Seq<TokModel> {
    let o = o.push(id("pub"@)).push(id("struct"@)).push(id(handle_name(prefix, s.name@))).push(grp(Delim::Brace, {
        let inner = Seq::<TokModel>::empty();
        let inner = inner.push(id(role_name("source_"@, s.name@))).push(pa(':')).push(id("std"@)).push(pj(':')).push(pa(':')).push(id("sync"@)).push(pj(':')).push(pa(':')).push(id("Arc"@)).push(pa('<')).push(id("std"@)).push(pj(':')).push(pa(':')).push(id("sync"@)).push(pj(':')).push(pa(':')).push(id("Mutex"@)).push(pa('<')).push(id("std"@)).push(pj(':'));
        let inner = inner.push(pa(':')).push(id("collections"@)).push(pj(':')).push(pa(':')).push(id("VecDeque"@)).push(pa('<')).push(id(prefix + s.name@)).push(pa('>')).push(pa('>')).push(pa('>')).push(pa(','));
        let inner = queue_target_fields_after(inner, distinct_targets(ts, s.name@, Seq::empty()), prefix);
        let inner = inner.push(id("item"@)).push(pa(':')).push(id("Option"@)).push(pa('<')).push(id(prefix + s.name@)).push(pa('>')).push(pa(','));
        inner
    })).push(id("impl"@)).push(id(handle_name(prefix, s.name@))).push(grp(Delim::Brace, {
        let inner = Seq::<TokModel>::empty();
        let inner = inner.push(id("pub"@)).push(id("fn"@)).push(id(k)).push(grp(Delim::Paren, {
        let inner = Seq::<TokModel>::empty();
        let inner = inner.push(pa('&')).push(id("self"@));
        inner
    })).push(pj('-')).push(pa('>')).push(pa('&'));
        let inner = inner + toks_model(kt);
        let inner = inner.push(grp(Delim::Brace, {
        let inner = Seq::<TokModel>::empty();
        let inner = inner.push(pa('&')).push(id("self"@)).push(pa('.')).push(id("item"@)).push(pa('.')).push(id("as_ref"@)).push(grp(Delim::Paren, {
        let inner = Seq::<TokModel>::empty();

        inner
    })).push(pa('.')).push(id("unwrap"@)).push(grp(Delim::Paren, {
        let inner = Seq::<TokModel>::empty();

        inner
    })).push(pa('.')).push(id(k));
        inner
    }));
        let inner = accessors_after(inner, s.fields);
        let inner = queue_methods_after(inner, ts, s.name@, prefix, k, states, err);
        inner
    })).push(id("impl"@)).push(id("Drop"@)).push(id("for"@)).push(id(handle_name(prefix, s.name@))).push(grp(Delim::Brace, {
        let inner = Seq::<TokModel>::empty();
        let inner = inner.push(id("fn"@)).push(id("drop"@)).push(grp(Delim::Paren, {
        let inner = Seq::<TokModel>::empty();
        let inner = inner.push(pa('&')).push(id("mut"@)).push(id("self"@));
        inner
    })).push(grp(Delim::Brace, {
        let inner = Seq::<TokModel>::empty();
        let inner = inner.push(id("if"@)).push(id("let"@)).push(id("Some"@)).push(grp(Delim::Paren, {
        let inner = Seq::<TokModel>::empty();
        let inner = inner.push(id("item"@));
        inner
    })).push(pa('=')).push(id("self"@)).push(pa('.')).push(id("item"@)).push(pa('.')).push(id("take"@)).push(grp(Delim::Paren, {
        let inner = Seq::<TokModel>::empty();

        inner
    })).push(grp(Delim::Brace, {
        let inner = Seq::<TokModel>::empty();
        let inner = inner.push(id("self"@)).push(pa('.')).push(id(role_name("source_"@, s.name@))).push(pa('.')).push(id("lock"@)).push(grp(Delim::Paren, {
        let inner = Seq::<TokModel>::empty();

        inner
    })).push(pa('.')).push(id("unwrap"@)).push(grp(Delim::Paren, {
        let inner = Seq::<TokModel>::empty();

        inner
    })).push(pa('.')).push(id("push_front"@)).push(grp(Delim::Paren, {
        let inner = Seq::<TokModel>::empty();
        let inner = inner.push(id("item"@));
        inner
    })).push(pa(';'));
        inner
    }));
        inner
    }));
        inner
    }));
    o
}

fn emit_queue_handle(out: &mut Vec<Tok>, s: &TypedState, prefix: &str, k: &str, kt: &Vec<Tok>, ts: &Vec<TypedTransition>, states: &Vec<TypedState>, err: &str)
    ensures
        toks_model(final(out)@) == queue_handle_after(toks_model(old(out)@), s@, prefix@, k@, kt@, transitions_model(ts@), states_model(states@), err@),
{
    push_ident(out, "pub");
    push_ident(out, "struct");
    push_ident(out, handle_name_of(prefix, s.name.as_str()).as_str());
    let mut g1: Vec<Tok> = Vec::new();
    assert(toks_model(g1@) =~= Seq::<TokModel>::empty());
    push_ident(&mut g1, role_name_of("source_", s.name.as_str()).as_str());
    push_punct(&mut g1, ':', false);
    push_ident(&mut g1, "std");
    push_punct(&mut g1, ':', true);
    push_punct(&mut g1, ':', false);
    push_ident(&mut g1, "sync");
    push_punct(&mut g1, ':', true);
    push_punct(&mut g1, ':', false);
    push_ident(&mut g1, "Arc");
    push_punct(&mut g1, '<', false);
    push_ident(&mut g1, "std");
    push_punct(&mut g1, ':', true);
    push_punct(&mut g1, ':', false);
    push_ident(&mut g1, "sync");
    push_punct(&mut g1, ':', true);
    push_punct(&mut g1, ':', false);
    push_ident(&mut g1, "Mutex");
    push_punct(&mut g1, '<', false);
    push_ident(&mut g1, "std");
    push_punct(&mut g1, ':', true);
    push_punct(&mut g1, ':', false);
    push_ident(&mut g1, "collections");
    push_punct(&mut g1, ':', true);
    push_punct(&mut g1, ':', false);
    push_ident(&mut g1, "VecDeque");
    push_punct(&mut g1, '<', false);
    push_ident(&mut g1, state_type_of(prefix, s.name.as_str()).as_str());
    push_punct(&mut g1, '>', false);
    push_punct(&mut g1, '>', false);
    push_punct(&mut g1, '>', false);
    push_punct(&mut g1, ',', false);
    { let tg = handle_targets(ts, s.name.as_str()); emit_queue_target_fields(&mut g1, &tg, prefix); }
    push_ident(&mut g1, "item");
    push_punct(&mut g1, ':', false);
    push_ident(&mut g1, "Option");
    push_punct(&mut g1, '<', false);
    push_ident(&mut g1, state_type_of(prefix, s.name.as_str()).as_str());
    push_punct(&mut g1, '>', false);
    push_punct(&mut g1, ',', false);
    push_group(out, Delim::Brace, g1);
    push_ident(out, "impl");
    push_ident(out, handle_name_of(prefix, s.name.as_str()).as_str());
    let mut g2: Vec<Tok> = Vec::new();
    assert(toks_model(g2@) =~= Seq::<TokModel>::empty());
    push_ident(&mut g2, "pub");
    push_ident(&mut g2, "fn");
    push_ident(&mut g2, k);
    let mut g3: Vec<Tok> = Vec::new();
    assert(toks_model(g3@) =~= Seq::<TokModel>::empty());
    push_punct(&mut g3, '&', false);
    push_ident(&mut g3, "self");
    push_group(&mut g2, Delim::Paren, g3);
    push_punct(&mut g2, '-', true);
    push_punct(&mut g2, '>', false);
    push_punct(&mut g2, '&', false);
    push_all(&mut g2, copy_toks(kt));
    let mut g4: Vec<Tok> = Vec::new();
    assert(toks_model(g4@) =~= Seq::<TokModel>::empty());
    push_punct(&mut g4, '&', false);
    push_ident(&mut g4, "self");
    push_punct(&mut g4, '.', false);
    push_ident(&mut g4, "item");
    push_punct(&mut g4, '.', false);
    push_ident(&mut g4, "as_ref");
    let mut g5: Vec<Tok> = Vec::new();
    assert(toks_model(g5@) =~= Seq::<TokModel>::empty());
    push_group(&mut g4, Delim::Paren, g5);
    push_punct(&mut g4, '.', false);
    push_ident(&mut g4, "unwrap");
    let mut g6: Vec<Tok> = Vec::new();
    assert(toks_model(g6@) =~= Seq::<TokModel>::empty());
    push_group(&mut g4, Delim::Paren, g6);
    push_punct(&mut g4, '.', false);
    push_ident(&mut g4, k);
    push_group(&mut g2, Delim::Brace, g4);
    emit_accessors(&mut g2, &s.fields);
    emit_queue_methods(&mut g2, ts, s.name.as_str(), prefix, k, states, err);
    push_group(out, Delim::Brace, g2);
    push_ident(out, "impl");
    push_ident(out, "Drop");
    push_ident(out, "for");
    push_ident(out, handle_name_of(prefix, s.name.as_str()).as_str());
    let mut g7: Vec<Tok> = Vec::new();
    assert(toks_model(g7@) =~= Seq::<TokModel>::empty());
    push_ident(&mut g7, "fn");
    push_ident(&mut g7, "drop");
    let mut g8: Vec<Tok> = Vec::new();
    assert(toks_model(g8@) =~= Seq::<TokModel>::empty());
    push_punct(&mut g8, '&', false);
    push_ident(&mut g8, "mut");
    push_ident(&mut g8, "self");
    push_group(&mut g7, Delim::Paren, g8);
    let mut g9: Vec<Tok> = Vec::new();
    assert(toks_model(g9@) =~= Seq::<TokModel>::empty());
    push_ident(&mut g9, "if");
    push_ident(&mut g9, "let");
    push_ident(&mut g9, "Some");
    let mut g10: Vec<Tok> = Vec::new();
    assert(toks_model(g10@) =~= Seq::<TokModel>::empty());
    push_ident(&mut g10, "item");
    push_group(&mut g9, Delim::Paren, g10);
    push_punct(&mut g9, '=', false);
    push_ident(&mut g9, "self");
    push_punct(&mut g9, '.', false);
    push_ident(&mut g9, "item");
    push_punct(&mut g9, '.', false);
    push_ident(&mut g9, "take");
    let mut g11: Vec<Tok> = Vec::new();
    assert(toks_model(g11@) =~= Seq::<TokModel>::empty());
    push_group(&mut g9, Delim::Paren, g11);
    let mut g12: Vec<Tok> = Vec::new();
    assert(toks_model(g12@) =~= Seq::<TokModel>::empty());
    push_ident(&mut g12, "self");
    push_punct(&mut g12, '.', false);
    push_ident(&mut g12, role_name_of("source_", s.name.as_str()).as_str());
    push_punct(&mut g12, '.', false);
    push_ident(&mut g12, "lock");
    let mut g13: Vec<Tok> = Vec::new();
    assert(toks_model(g13@) =~= Seq::<TokModel>::empty());
    push_group(&mut g12, Delim::Paren, g13);
    push_punct(&mut g12, '.', false);
    push_ident(&mut g12, "unwrap");
    let mut g14: Vec<Tok> = Vec::new();
    assert(toks_model(g14@) =~= Seq::<TokModel>::empty());
    push_group(&mut g12, Delim::Paren, g14);
    push_punct(&mut g12, '.', false);
    push_ident(&mut g12, "push_front");
    let mut g15: Vec<Tok> = Vec::new();
    assert(toks_model(g15@) =~= Seq::<TokModel>::empty());
    push_ident(&mut g15, "item");
    push_group(&mut g12, Delim::Paren, g15);
    push_punct(&mut g12, ';', false);
    push_group(&mut g9, Delim::Brace, g12);
    push_group(&mut g7, Delim::Brace, g9);
    push_group(out, Delim::Brace, g7);
}

/// A map state without fields: a unit struct.
pub open spec fn map_state_unit_after(o: Seq<TokModel>, s: StateModel, prefix: Seq<char>) -> Seq<TokModel> {
    let o = o.push(pa('#')).push(grp(Delim::Bracket, {
        let inner = Seq::<TokModel>::empty();
        let inner = inner.push(id("derive"@)).push(grp(Delim::Paren, {
        let inner = Seq::<TokModel>::empty();
        let inner = inner.push(id("Debug"@)).push(pa(',')).push(id("Clone"@)).push(pa(',')).push(id("Default"@)).push(pa(',')).push(id("PartialEq"@)).push(pa(',')).push(id("serde"@)).push(pj(':')).push(pa(':')).push(id("Serialize"@)).push(pa(',')).push(id("serde"@)).push(pj(':')).push(pa(':')).push(id("Deserialize"@));
        inner
    }));
        inner
    })).push(id("pub"@)).push(id("struct"@)).push(id(prefix + s.name@)).push(pa(';'));
    o
}

fn emit_map_state_unit(out: &mut Vec<Tok>, s: &TypedState, prefix: &str)
    ensures
        toks_model(final(out)@) == map_state_unit_after(toks_model(old(out)@), s@, prefix@),
{
    push_punct(out, '#', false);
    let mut g1: Vec<Tok> = Vec::new();
    assert(toks_model(g1@) =~= Seq::<TokModel>::empty());
    push_ident(&mut g1, "derive");
    let mut g2: Vec<Tok> = Vec::new();
    assert(toks_model(g2@) =~= Seq::<TokModel>::empty());
    push_ident(&mut g2, "Debug");
    push_punct(&mut g2, ',', false);
    push_ident(&mut g2, "Clone");
    push_punct(&mut g2, ',', false);
    push_ident(&mut g2, "Default");
    push_punct(&mut g2, ',', false);
    push_ident(&mut g2, "PartialEq");
    push_punct(&mut g2, ',', false);
    push_ident(&mut g2, "serde");
    push_punct(&mut g2, ':', true);
    push_punct(&mut g2, ':', false);
    push_ident(&mut g2, "Serialize");
    push_punct(&mut g2, ',', false);
    push_ident(&mut g2, "serde");
    push_punct(&mut g2, ':', true);
    push_punct(&mut g2, ':', false);
    push_ident(&mut g2, "Deserialize");
    push_group(&mut g1, Delim::Paren, g2);
    push_group(out, Delim::Bracket, g1);
    push_ident(out, "pub");
    push_ident(out, "struct");
    push_ident(out, state_type_of(prefix, s.name.as_str()).as_str());
    push_punct(out, ';', false);
}

/// A map state with fields: a struct of them.
pub open spec fn map_state_struct_after(o: Seq<TokModel>, s: StateModel, prefix: Seq<char>) -> Seq<TokModel> {
    let o = o.push(pa('#')).push(grp(Delim::Bracket, {
        let inner = Seq::<TokModel>::empty();
        let inner = inner.push(id("derive"@)).push(grp(Delim::Paren, {
        let inner = Seq::<TokModel>::empty();
        let inner = inner.push(id("Debug"@)).push(pa(',')).push(id("Clone"@)).push(pa(',')).push(id("Default"@)).push(pa(',')).push(id("PartialEq"@)).push(pa(',')).push(id("serde"@)).push(pj(':')).push(pa(':')).push(id("Serialize"@)).push(pa(',')).push(id("serde"@)).push(pj(':')).push(pa(':')).push(id("Deserialize"@));
        inner
    }));
        inner
    })).push(id("pub"@)).push(id("struct"@)).push(id(prefix + s.name@)).push(grp(Delim::Brace, {
        let inner = Seq::<TokModel>::empty();
        let inner = field_defs_after(inner, s.fields);
        inner
    }));
    o
}

fn emit_map_state_struct(out: &mut Vec<Tok>, s: &TypedState, prefix: &str)
    ensures
        toks_model(final(out)@) == map_state_struct_after(toks_model(old(out)@), s@, prefix@),
{
    push_punct(out, '#', false);
    let mut g1: Vec<Tok> = Vec::new();
    assert(toks_model(g1@) =~= Seq::<TokModel>::empty());
    push_ident(&mut g1, "derive");
    let mut g2: Vec<Tok> = Vec::new();
    assert(toks_model(g2@) =~= Seq::<TokModel>::empty());
    push_ident(&mut g2, "Debug");
    push_punct(&mut g2, ',', false);
    push_ident(&mut g2, "Clone");
    push_punct(&mut g2, ',', false);
    push_ident(&mut g2, "Default");
    push_punct(&mut g2, ',', false);
    push_ident(&mut g2, "PartialEq");
    push_punct(&mut g2, ',', false);
    push_ident(&mut g2, "serde");
    push_punct(&mut g2, ':', true);
    push_punct(&mut g2, ':', false);
    push_ident(&mut g2, "Serialize");
    push_punct(&mut g2, ',', false);
    push_ident(&mut g2, "serde");
    push_punct(&mut g2, ':', true);
    push_punct(&mut g2, ':', false);
    push_ident(&mut g2, "Deserialize");
    push_group(&mut g1, Delim::Paren, g2);
    push_group(out, Delim::Bracket, g1);
    push_ident(out, "pub");
    push_ident(out, "struct");
    push_ident(out, state_type_of(prefix, s.name.as_str()).as_str());
    let mut g3: Vec<Tok> = Vec::new();
    assert(toks_model(g3@) =~= Seq::<TokModel>::empty());
    emit_field_defs(&mut g3, &s.fields);
    push_group(out, Delim::Brace, g3);
}

/// A queue state: a struct of the key field and the state's fields.
pub open spec fn queue_state_struct_after(o: Seq<TokModel>, s: StateModel, prefix: Seq<char>, k: Seq<char>, kt: Seq<Tok>) -> Seq<TokModel> {
    let o = o.push(pa('#')).push(grp(Delim::Bracket, {
        let inner = Seq::<TokModel>::empty();
        let inner = inner.push(id("derive"@)).push(grp(Delim::Paren, {
        let inner = Seq::<TokModel>::empty();
        let inner = inner.push(id("Debug"@)).push(pa(',')).push(id("Clone"@)).push(pa(',')).push(id("Default"@)).push(pa(',')).push(id("PartialEq"@)).push(pa(',')).push(id("serde"@)).push(pj(':')).push(pa(':')).push(id("Serialize"@)).push(pa(',')).push(id("serde"@)).push(pj(':')).push(pa(':')).push(id("Deserialize"@));
        inner
    }));
        inner
    })).push(id("pub"@)).push(id("struct"@)).push(id(prefix + s.name@)).push(grp(Delim::Brace, {
        let inner = Seq::<TokModel>::empty();
        let inner = inner.push(id("pub"@)).push(id(k)).push(pa(':'));
        let inner = inner + toks_model(kt);
        let inner = comma_field_defs_after(inner, s.fields);
        inner
    }));
    o
}

fn emit_queue_state_struct(out: &mut Vec<Tok>, s: &TypedState, prefix: &str, k: &str, kt: &Vec<Tok>)
    ensures
        toks_model(final(out)@) == queue_state_struct_after(toks_model(old(out)@), s@, prefix@, k@, kt@),
{
    push_punct(out, '#', false);
    let mut g1: Vec<Tok> = Vec::new();
    assert(toks_model(g1@) =~= Seq::<TokModel>::empty());
    push_ident(&mut g1, "derive");
    let mut g2: Vec<Tok> = Vec::new();
    assert(toks_model(g2@) =~= Seq::<TokModel>::empty());
    push_ident(&mut g2, "Debug");
    push_punct(&mut g2, ',', false);
    push_ident(&mut g2, "Clone");
    push_punct(&mut g2, ',', false);
    push_ident(&mut g2, "Default");
    push_punct(&mut g2, ',', false);
    push_ident(&mut g2, "PartialEq");
    push_punct(&mut g2, ',', false);
    push_ident(&mut g2, "serde");
    push_punct(&mut g2, ':', true);
    push_punct(&mut g2, ':', false);
    push_ident(&mut g2, "Serialize");
    push_punct(&mut g2, ',', false);
    push_ident(&mut g2, "serde");
    push_punct(&mut g2, ':', true);
    push_punct(&mut g2, ':', false);
    push_ident(&mut g2, "Deserialize");
    push_group(&mut g1, Delim::Paren, g2);
    push_group(out, Delim::Bracket, g1);
    push_ident(out, "pub");
    push_ident(out, "struct");
    push_ident(out, state_type_of(prefix, s.name.as_str()).as_str());
    let mut g3: Vec<Tok> = Vec::new();
    assert(toks_model(g3@) =~= Seq::<TokModel>::empty());
    push_ident(&mut g3, "pub");
    push_ident(&mut g3, k);
    push_punct(&mut g3, ':', false);
    push_all(&mut g3, copy_toks(kt));
    emit_comma_field_defs(&mut g3, &s.fields);
    push_group(out, Delim::Brace, g3);
}

/// The state structs of a map collection.
pub open spec fn map_states_after(o: Seq<TokModel>, items: Seq<StateModel>, prefix: Seq<char>) -> Seq<TokModel>
    decreases items.len(),
{
    if items.len() == 0 {
        o
    } else {
        let o = map_states_after(o, items.drop_last(), prefix);
        map_state_after(o, items.last(), prefix)
    }
}

fn emit_map_states(out: &mut Vec<Tok>, items: &Vec<TypedState>, prefix: &str)
    ensures
        toks_model(final(out)@) == map_states_after(toks_model(old(out)@), states_model(items@), prefix@),
{
    let ghost o = toks_model(out@);
    let ghost v = states_model(items@);
    let mut i: usize = 0;
    assert(v.take(0) =~= Seq::<StateModel>::empty());
    while i < items.len()
        invariant
            i <= items@.len(),
            v == states_model(items@),
            v.len() == items@.len(),
            toks_model(out@) == map_states_after(o, v.take(i as int), prefix@),
        decreases items.len() - i,
    {
        assert(v.take(i + 1).drop_last() =~= v.take(i as int));
        assert(v.take(i + 1).last() == v[i as int]);
        emit_map_state(out, &items[i], prefix);
        i += 1;
    }
    assert(v.take(i as int) =~= v);
}

/// The state structs of a queue collection.
pub open spec fn queue_states_after(o: Seq<TokModel>, items: Seq<StateModel>, prefix: Seq<char>, k: Seq<char>, kt: Seq<Tok>) -> Seq<TokModel>
    decreases items.len(),
{
    if items.len() == 0 {
        o
    } else {
        let o = queue_states_after(o, items.drop_last(), prefix, k, kt);
        queue_state_struct_after(o, items.last(), prefix, k, kt)
    }
}

fn emit_queue_states(out: &mut Vec<Tok>, items: &Vec<TypedState>, prefix: &str, k: &str, kt: &Vec<Tok>)
    ensures
        toks_model(final(out)@) == queue_states_after(toks_model(old(out)@), states_model(items@), prefix@, k@, kt@),
{
    let ghost o = toks_model(out@);
    let ghost v = states_model(items@);
    let mut i: usize = 0;
    assert(v.take(0) =~= Seq::<StateModel>::empty());
    while i < items.len()
        invariant
            i <= items@.len(),
            v == states_model(items@),
            v.len() == items@.len(),
            toks_model(out@) == queue_states_after(o, v.take(i as int), prefix@, k@, kt@),
        decreases items.len() - i,
    {
        assert(v.take(i + 1).drop_last() =~= v.take(i as int));
        assert(v.take(i + 1).last() == v[i as int]);
        emit_queue_state_struct(out, &items[i], prefix, k, kt);
        i += 1;
    }
    assert(v.take(i as int) =~= v);
}

/// A map store field holding one state's items by key.
pub open spec fn map_store_field_after(o: Seq<TokModel>, s: StateModel, col: Seq<char>, prefix: Seq<char>, kt: Seq<Tok>) -> Seq<TokModel> {
    let o = o.push(id(field_name(col, s.name@))).push(pa(':')).push(id("std"@)).push(pj(':')).push(pa(':')).push(id("sync"@)).push(pj(':')).push(pa(':')).push(id("Arc"@)).push(pa('<')).push(id("std"@)).push(pj(':')).push(pa(':')).push(id("sync"@)).push(pj(':')).push(pa(':')).push(id("Mutex"@)).push(pa('<')).push(id("std"@)).push(pj(':'));
    let o = o.push(pa(':')).push(id("collections"@)).push(pj(':')).push(pa(':')).push(id("HashMap"@)).push(pa('<'));
    let o = o + toks_model(kt);
    let o = o.push(pa(',')).push(id(prefix + s.name@)).push(pa('>')).push(pa('>')).push(pa('>')).push(pa(','));
    o
}

fn emit_map_store_field(out: &mut Vec<Tok>, s: &TypedState, col: &str, prefix: &str, kt: &Vec<Tok>)
    ensures
        toks_model(final(out)@) == map_store_field_after(toks_model(old(out)@), s@, col@, prefix@, kt@),
{
    push_ident(out, field_name_of(col, s.name.as_str()).as_str());
    push_punct(out, ':', false);
    push_ident(out, "std");
    push_punct(out, ':', true);
    push_punct(out, ':', false);
    push_ident(out, "sync");
    push_punct(out, ':', true);
    push_punct(out, ':', false);
    push_ident(out, "Arc");
    push_punct(out, '<', false);
    push_ident(out, "std");
    push_punct(out, ':', true);
    push_punct(out, ':', false);
    push_ident(out, "sync");
    push_punct(out, ':', true);
    push_punct(out, ':', false);
    push_ident(out, "Mutex");
    push_punct(out, '<', false);
    push_ident(out, "std");
    push_punct(out, ':', true);
    push_punct(out, ':', false);
    push_ident(out, "collections");
    push_punct(out, ':', true);
    push_punct(out, ':', false);
    push_ident(out, "HashMap");
    push_punct(out, '<', false);
    push_all(out, copy_toks(kt));
    push_punct(out, ',', false);
    push_ident(out, state_type_of(prefix, s.name.as_str()).as_str());
    push_punct(out, '>', false);
    push_punct(out, '>', false);
    push_punct(out, '>', false);
    push_punct(out, ',', false);
}

/// The fields of a map store, one per state, each followed by `,`.
pub open spec fn map_store_fields_after(o: Seq<TokModel>, items: Seq<StateModel>, col: Seq<char>, prefix: Seq<char>, kt: Seq<Tok>) -> Seq<TokModel>
    decreases items.len(),
{
    if items.len() == 0 {
        o
    } else {
        let o = map_store_fields_after(o, items.drop_last(), col, prefix, kt);
        map_store_field_after(o, items.last(), col, prefix, kt)
    }
}

fn emit_map_store_fields(out: &mut Vec<Tok>, items: &Vec<TypedState>, col: &str, prefix: &str, kt: &Vec<Tok>)
    ensures
        toks_model(final(out)@) == map_store_fields_after(toks_model(old(out)@), states_model(items@), col@, prefix@, kt@),
{
    let ghost o = toks_model(out@);
    let ghost v = states_model(items@);
    let mut i: usize = 0;
    assert(v.take(0) =~= Seq::<StateModel>::empty());
    while i < items.len()
        invariant
            i <= items@.len(),
            v == states_model(items@),
            v.len() == items@.len(),
            toks_model(out@) == map_store_fields_after(o, v.take(i as int), col@, prefix@, kt@),
        decreases items.len() - i,
    {
        assert(v.take(i + 1).drop_last() =~= v.take(i as int));
        assert(v.take(i + 1).last() == v[i as int]);
        emit_map_store_field(out, &items[i], col, prefix, kt);
        i += 1;
    }
    assert(v.take(i as int) =~= v);
}

/// A queue store field holding one state's items in order, followed by `,`.
pub open spec fn queue_store_field_after(o: Seq<TokModel>, s: StateModel, col: Seq<char>, prefix: Seq<char>) -> Seq<TokModel> {
    let o = o.push(id(field_name(col, s.name@))).push(pa(':')).push(id("std"@)).push(pj(':')).push(pa(':')).push(id("sync"@)).push(pj(':')).push(pa(':')).push(id("Arc"@)).push(pa('<')).push(id("std"@)).push(pj(':')).push(pa(':')).push(id("sync"@)).push(pj(':')).push(pa(':')).push(id("Mutex"@)).push(pa('<')).push(id("std"@)).push(pj(':'));
    let o = o.push(pa(':')).push(id("collections"@)).push(pj(':')).push(pa(':')).push(id("VecDeque"@)).push(pa('<')).push(id(prefix + s.name@)).push(pa('>')).push(pa('>')).push(pa('>')).push(pa(','));
    o
}

fn emit_queue_store_field(out: &mut Vec<Tok>, s: &TypedState, col: &str, prefix: &str)
    ensures
        toks_model(final(out)@) == queue_store_field_after(toks_model(old(out)@), s@, col@, prefix@),
{
    push_ident(out, field_name_of(col, s.name.as_str()).as_str());
    push_punct(out, ':', false);
    push_ident(out, "std");
    push_punct(out, ':', true);
    push_punct(out, ':', false);
    push_ident(out, "sync");
    push_punct(out, ':', true);
    push_punct(out, ':', false);
    push_ident(out, "Arc");
    push_punct(out, '<', false);
    push_ident(out, "std");
    push_punct(out, ':', true);
    push_punct(out, ':', false);
    push_ident(out, "sync");
    push_punct(out, ':', true);
    push_punct(out, ':', false);
    push_ident(out, "Mutex");
    push_punct(out, '<', false);
    push_ident(out, "std");
    push_punct(out, ':', true);
    push_punct(out, ':', false);
    push_ident(out, "collections");
    push_punct(out, ':', true);
    push_punct(out, ':', false);
    push_ident(out, "VecDeque");
    push_punct(out, '<', false);
    push_ident(out, state_type_of(prefix, s.name.as_str()).as_str());
    push_punct(out, '>', false);
    push_punct(out, '>', false);
    push_punct(out, '>', false);
    push_punct(out, ',', false);
}

/// The per-state fields of a queue store.
pub open spec fn queue_store_fields_after(o: Seq<TokModel>, items: Seq<StateModel>, col: Seq<char>, prefix: Seq<char>) -> Seq<TokModel>
    decreases items.len(),
{
    if items.len() == 0 {
        o
    } else {
        let o = queue_store_fields_after(o, items.drop_last(), col, prefix);
        queue_store_field_after(o, items.last(), col, prefix)
    }
}

fn emit_queue_store_fields(out: &mut Vec<Tok>, items: &Vec<TypedState>, col: &str, prefix: &str)
    ensures
        toks_model(final(out)@) == queue_store_fields_after(toks_model(old(out)@), states_model(items@), col@, prefix@),
{
    let ghost o = toks_model(out@);
    let ghost v = states_model(items@);
    let mut i: usize = 0;
    assert(v.take(0) =~= Seq::<StateModel>::empty());
    while i < items.len()
        invariant
            i <= items@.len(),
            v == states_model(items@),
            v.len() == items@.len(),
            toks_model(out@) == queue_store_fields_after(o, v.take(i as int), col@, prefix@),
        decreases items.len() - i,
    {
        assert(v.take(i + 1).drop_last() =~= v.take(i as int));
        assert(v.take(i + 1).last() == v[i as int]);
        emit_queue_store_field(out, &items[i], col, prefix);
        i += 1;
    }
    assert(v.take(i as int) =~= v);
}

/// A store field starting empty.
pub open spec fn store_init_after(o: Seq<TokModel>, s: StateModel, col: Seq<char>) -> Seq<TokModel> {
    let o = o.push(id(field_name(col, s.name@))).push(pa(':')).push(id("std"@)).push(pj(':')).push(pa(':')).push(id("sync"@)).push(pj(':')).push(pa(':')).push(id("Arc"@)).push(pj(':')).push(pa(':')).push(id("new"@)).push(grp(Delim::Paren, {
        let inner = Seq::<TokModel>::empty();
        let inner = inner.push(id("std"@)).push(pj(':')).push(pa(':')).push(id("sync"@)).push(pj(':')).push(pa(':')).push(id("Mutex"@)).push(pj(':')).push(pa(':')).push(id("new"@)).push(grp(Delim::Paren, {
        let inner = Seq::<TokModel>::empty();
        let inner = inner.push(id("std"@)).push(pj(':')).push(pa(':')).push(id("collections"@)).push(pj(':')).push(pa(':')).push(id("HashMap"@)).push(pj(':')).push(pa(':')).push(id("new"@)).push(grp(Delim::Paren, {
        let inner = Seq::<TokModel>::empty();

        inner
    }));
        inner
    }));
        inner
    })).push(pa(','));
    o
}

fn emit_store_init(out: &mut Vec<Tok>, s: &TypedState, col: &str)
    ensures
        toks_model(final(out)@) == store_init_after(toks_model(old(out)@), s@, col@),
{
    push_ident(out, field_name_of(col, s.name.as_str()).as_str());
    push_punct(out, ':', false);
    push_ident(out, "std");
    push_punct(out, ':', true);
    push_punct(out, ':', false);
    push_ident(out, "sync");
    push_punct(out, ':', true);
    push_punct(out, ':', false);
    push_ident(out, "Arc");
    push_punct(out, ':', true);
    push_punct(out, ':', false);
    push_ident(out, "new");
    let mut g1: Vec<Tok> = Vec::new();
    assert(toks_model(g1@) =~= Seq::<TokModel>::empty());
    push_ident(&mut g1, "std");
    push_punct(&mut g1, ':', true);
    push_punct(&mut g1, ':', false);
    push_ident(&mut g1, "sync");
    push_punct(&mut g1, ':', true);
    push_punct(&mut g1, ':', false);
    push_ident(&mut g1, "Mutex");
    push_punct(&mut g1, ':', true);
    push_punct(&mut g1, ':', false);
    push_ident(&mut g1, "new");
    let mut g2: Vec<Tok> = Vec::new();
    assert(toks_model(g2@) =~= Seq::<TokModel>::empty());
    push_ident(&mut g2, "std");
    push_punct(&mut g2, ':', true);
    push_punct(&mut g2, ':', false);
    push_ident(&mut g2, "collections");
    push_punct(&mut g2, ':', true);
    push_punct(&mut g2, ':', false);
    push_ident(&mut g2, "HashMap");
    push_punct(&mut g2, ':', true);
    push_punct(&mut g2, ':', false);
    push_ident(&mut g2, "new");
    let mut g3: Vec<Tok> = Vec::new();
    assert(toks_model(g3@) =~= Seq::<TokModel>::empty());
    push_group(&mut g2, Delim::Paren, g3);
    push_group(&mut g1, Delim::Paren, g2);
    push_group(out, Delim::Paren, g1);
    push_punct(out, ',', false);
}

/// The store's per-state fields starting empty, each followed by `,`.
pub open spec fn store_inits_after(o: Seq<TokModel>, items: Seq<StateModel>, col: Seq<char>) -> Seq<TokModel>
    decreases items.len(),
{
    if items.len() == 0 {
        o
    } else {
        let o = store_inits_after(o, items.drop_last(), col);
        store_init_after(o, items.last(), col)
    }
}

fn emit_store_inits(out: &mut Vec<Tok>, items: &Vec<TypedState>, col: &str)
    ensures
        toks_model(final(out)@) == store_inits_after(toks_model(old(out)@), states_model(items@), col@),
{
    let ghost o = toks_model(out@);
    let ghost v = states_model(items@);
    let mut i: usize = 0;
    assert(v.take(0) =~= Seq::<StateModel>::empty());
    while i < items.len()
        invariant
            i <= items@.len(),
            v == states_model(items@),
            v.len() == items@.len(),
            toks_model(out@) == store_inits_after(o, v.take(i as int), col@),
        decreases items.len() - i,
    {
        assert(v.take(i + 1).drop_last() =~= v.take(i as int));
        assert(v.take(i + 1).last() == v[i as int]);
        emit_store_init(out, &items[i], col);
        i += 1;
    }
    assert(v.take(i as int) =~= v);
}

/// A queue store field starting empty, followed by `,`.
pub open spec fn queue_store_init_after(o: Seq<TokModel>, s: StateModel, col: Seq<char>) -> Seq<TokModel> {
    let o = o.push(id(field_name(col, s.name@))).push(pa(':')).push(id("std"@)).push(pj(':')).push(pa(':')).push(id("sync"@)).push(pj(':')).push(pa(':')).push(id("Arc"@)).push(pj(':')).push(pa(':')).push(id("new"@)).push(grp(Delim::Paren, {
        let inner = Seq::<TokModel>::empty();
        let inner = inner.push(id("std"@)).push(pj(':')).push(pa(':')).push(id("sync"@)).push(pj(':')).push(pa(':')).push(id("Mutex"@)).push(pj(':')).push(pa(':')).push(id("new"@)).push(grp(Delim::Paren, {
        let inner = Seq::<TokModel>::empty();
        let inner = inner.push(id("std"@)).push(pj(':')).push(pa(':')).push(id("collections"@)).push(pj(':')).push(pa(':')).push(id("VecDeque"@)).push(pj(':')).push(pa(':')).push(id("new"@)).push(grp(Delim::Paren, {
        let inner = Seq::<TokModel>::empty();

        inner
    }));
        inner
    }));
        inner
    })).push(pa(','));
    o
}

fn emit_queue_store_init(out: &mut Vec<Tok>, s: &TypedState, col: &str)
    ensures
        toks_model(final(out)@) == queue_store_init_after(toks_model(old(out)@), s@, col@),
{
    push_ident(out, field_name_of(col, s.name.as_str()).as_str());
    push_punct(out, ':', false);
    push_ident(out, "std");
    push_punct(out, ':', true);
    push_punct(out, ':', false);
    push_ident(out, "sync");
    push_punct(out, ':', true);
    push_punct(out, ':', false);
    push_ident(out, "Arc");
    push_punct(out, ':', true);
    push_punct(out, ':', false);
    push_ident(out, "new");
    let mut g1: Vec<Tok> = Vec::new();
    assert(toks_model(g1@) =~= Seq::<TokModel>::empty());
    push_ident(&mut g1, "std");
    push_punct(&mut g1, ':', true);
    push_punct(&mut g1, ':', false);
    push_ident(&mut g1, "sync");
    push_punct(&mut g1, ':', true);
    push_punct(&mut g1, ':', false);
    push_ident(&mut g1, "Mutex");
    push_punct(&mut g1, ':', true);
    push_punct(&mut g1, ':', false);
    push_ident(&mut g1, "new");
    let mut g2: Vec<Tok> = Vec::new();
    assert(toks_model(g2@) =~= Seq::<TokModel>::empty());
    push_ident(&mut g2, "std");
    push_punct(&mut g2, ':', true);
    push_punct(&mut g2, ':', false);
    push_ident(&mut g2, "collections");
    push_punct(&mut g2, ':', true);
    push_punct(&mut g2, ':', false);
    push_ident(&mut g2, "VecDeque");
    push_punct(&mut g2, ':', true);
    push_punct(&mut g2, ':', false);
    push_ident(&mut g2, "new");
    let mut g3: Vec<Tok> = Vec::new();
    assert(toks_model(g3@) =~= Seq::<TokModel>::empty());
    push_group(&mut g2, Delim::Paren, g3);
    push_group(&mut g1, Delim::Paren, g2);
    push_group(out, Delim::Paren, g1);
    push_punct(out, ',', false);
}

/// The queue store's per-state fields starting empty.
pub open spec fn queue_store_inits_after(o: Seq<TokModel>, items: Seq<StateModel>, col: Seq<char>) -> Seq<TokModel>
    decreases items.len(),
{
    if items.len() == 0 {
        o
    } else {
        let o = queue_store_inits_after(o, items.drop_last(), col);
        queue_store_init_after(o, items.last(), col)
    }
}

fn emit_queue_store_inits(out: &mut Vec<Tok>, items: &Vec<TypedState>, col: &str)
    ensures
        toks_model(final(out)@) == queue_store_inits_after(toks_model(old(out)@), states_model(items@), col@),
{
    let ghost o = toks_model(out@);
    let ghost v = states_model(items@);
    let mut i: usize = 0;
    assert(v.take(0) =~= Seq::<StateModel>::empty());
    while i < items.len()
        invariant
            i <= items@.len(),
            v == states_model(items@),
            v.len() == items@.len(),
            toks_model(out@) == queue_store_inits_after(o, v.take(i as int), col@),
        decreases items.len() - i,
    {
        assert(v.take(i + 1).drop_last() =~= v.take(i as int));
        assert(v.take(i + 1).last() == v[i as int]);
        emit_queue_store_init(out, &items[i], col);
        i += 1;
    }
    assert(v.take(i as int) =~= v);
}

/// Whether one state's map holds `key`.
pub open spec fn contains_check_after(o: Seq<TokModel>, s: StateModel, col: Seq<char>) -> Seq<TokModel> {
    let o = o.push(id("self"@)).push(pa('.')).push(id(field_name(col, s.name@))).push(pa('.')).push(id("lock"@)).push(grp(Delim::Paren, {
        let inner = Seq::<TokModel>::empty();

        inner
    })).push(pa('.')).push(id("unwrap"@)).push(grp(Delim::Paren, {
        let inner = Seq::<TokModel>::empty();

        inner
    })).push(pa('.')).push(id("contains_key"@)).push(grp(Delim::Paren, {
        let inner = Seq::<TokModel>::empty();
        let inner = inner.push(id("key"@));
        inner
    }));
    o
}

fn emit_contains_check(out: &mut Vec<Tok>, s: &TypedState, col: &str)
    ensures
        toks_model(final(out)@) == contains_check_after(toks_model(old(out)@), s@, col@),
{
    push_ident(out, "self");
    push_punct(out, '.', false);
    push_ident(out, field_name_of(col, s.name.as_str()).as_str());
    push_punct(out, '.', false);
    push_ident(out, "lock");
    let mut g1: Vec<Tok> = Vec::new();
    assert(toks_model(g1@) =~= Seq::<TokModel>::empty());
    push_group(out, Delim::Paren, g1);
    push_punct(out, '.', false);
    push_ident(out, "unwrap");
    let mut g2: Vec<Tok> = Vec::new();
    assert(toks_model(g2@) =~= Seq::<TokModel>::empty());
    push_group(out, Delim::Paren, g2);
    push_punct(out, '.', false);
    push_ident(out, "contains_key");
    let mut g3: Vec<Tok> = Vec::new();
    assert(toks_model(g3@) =~= Seq::<TokModel>::empty());
    push_ident(&mut g3, "key");
    push_group(out, Delim::Paren, g3);
}

/// Whether any state's map holds `key`: the checks joined by `||`.
pub open spec fn contains_checks_after(o: Seq<TokModel>, items: Seq<StateModel>, col: Seq<char>) -> Seq<TokModel>
    decreases items.len(),
{
    if items.len() == 0 {
        o
    } else {
        let o = contains_checks_after(o, items.drop_last(), col);
        let o = if items.len() > 1 { o.push(pj('|')).push(pa('|')) } else { o };
        contains_check_after(o, items.last(), col)
    }
}

fn emit_contains_checks(out: &mut Vec<Tok>, items: &Vec<TypedState>, col: &str)
    ensures
        toks_model(final(out)@) == contains_checks_after(toks_model(old(out)@), states_model(items@), col@),
{
    let ghost o = toks_model(out@);
    let ghost v = states_model(items@);
    let mut i: usize = 0;
    assert(v.take(0) =~= Seq::<StateModel>::empty());
    while i < items.len()
        invariant
            i <= items@.len(),
            v == states_model(items@),
            v.len() == items@.len(),
            toks_model(out@) == contains_checks_after(o, v.take(i as int), col@),
        decreases items.len() - i,
    {
        assert(v.take(i + 1).drop_last() =~= v.take(i as int));
        assert(v.take(i + 1).last() == v[i as int]);
        if i > 0 {
            push_punct(out, '|', true);
            push_punct(out, '|', false);
        }
        emit_contains_check(out, &items[i], col);
        i += 1;
    }
    assert(v.take(i as int) =~= v);
}

/// Removes `key` from one state's map, returning `true` if it was there.
pub open spec fn remove_check_after(o: Seq<TokModel>, s: StateModel, col: Seq<char>) -> Seq<TokModel> {
    let o = o.push(id("if"@)).push(id("self"@)).push(pa('.')).push(id(field_name(col, s.name@))).push(pa('.')).push(id("lock"@)).push(grp(Delim::Paren, {
        let inner = Seq::<TokModel>::empty();

        inner
    })).push(pa('.')).push(id("unwrap"@)).push(grp(Delim::Paren, {
        let inner = Seq::<TokModel>::empty();

        inner
    })).push(pa('.')).push(id("remove"@)).push(grp(Delim::Paren, {
        let inner = Seq::<TokModel>::empty();
        let inner = inner.push(id("key"@));
        inner
    })).push(pa('.')).push(id("is_some"@)).push(grp(Delim::Paren, {
        let inner = Seq::<TokModel>::empty();

        inner
    })).push(grp(Delim::Brace, {
        let inner = Seq::<TokModel>::empty();
        let inner = inner.push(id("return"@)).push(id("true"@)).push(pa(';'));
        inner
    }));
    o
}

fn emit_remove_check(out: &mut Vec<Tok>, s: &TypedState, col: &str)
    ensures
        toks_model(final(out)@) == remove_check_after(toks_model(old(out)@), s@, col@),
{
    push_ident(out, "if");
    push_ident(out, "self");
    push_punct(out, '.', false);
    push_ident(out, field_name_of(col, s.name.as_str()).as_str());
    push_punct(out, '.', false);
    push_ident(out, "lock");
    let mut g1: Vec<Tok> = Vec::new();
    assert(toks_model(g1@) =~= Seq::<TokModel>::empty());
    push_group(out, Delim::Paren, g1);
    push_punct(out, '.', false);
    push_ident(out, "unwrap");
    let mut g2: Vec<Tok> = Vec::new();
    assert(toks_model(g2@) =~= Seq::<TokModel>::empty());
    push_group(out, Delim::Paren, g2);
    push_punct(out, '.', false);
    push_ident(out, "remove");
    let mut g3: Vec<Tok> = Vec::new();
    assert(toks_model(g3@) =~= Seq::<TokModel>::empty());
    push_ident(&mut g3, "key");
    push_group(out, Delim::Paren, g3);
    push_punct(out, '.', false);
    push_ident(out, "is_some");
    let mut g4: Vec<Tok> = Vec::new();
    assert(toks_model(g4@) =~= Seq::<TokModel>::empty());
    push_group(out, Delim::Paren, g4);
    let mut g5: Vec<Tok> = Vec::new();
    assert(toks_model(g5@) =~= Seq::<TokModel>::empty());
    push_ident(&mut g5, "return");
    push_ident(&mut g5, "true");
    push_punct(&mut g5, ';', false);
    push_group(out, Delim::Brace, g5);
}

/// Removes `key` from the first state's map that holds it.
pub open spec fn remove_checks_after(o: Seq<TokModel>, items: Seq<StateModel>, col: Seq<char>) -> Seq<TokModel>
    decreases items.len(),
{
    if items.len() == 0 {
        o
    } else {
        let o = remove_checks_after(o, items.drop_last(), col);
        remove_check_after(o, items.last(), col)
    }
}

fn emit_remove_checks(out: &mut Vec<Tok>, items: &Vec<TypedState>, col: &str)
    ensures
        toks_model(final(out)@) == remove_checks_after(toks_model(old(out)@), states_model(items@), col@),
{
    let ghost o = toks_model(out@);
    let ghost v = states_model(items@);
    let mut i: usize = 0;
    assert(v.take(0) =~= Seq::<StateModel>::empty());
    while i < items.len()
        invariant
            i <= items@.len(),
            v == states_model(items@),
            v.len() == items@.len(),
            toks_model(out@) == remove_checks_after(o, v.take(i as int), col@),
        decreases items.len() - i,
    {
        assert(v.take(i + 1).drop_last() =~= v.take(i as int));
        assert(v.take(i + 1).last() == v[i as int]);
        emit_remove_check(out, &items[i], col);
        i += 1;
    }
    assert(v.take(i as int) =~= v);
}

/// The number of items in one state.
pub open spec fn len_term_after(o: Seq<TokModel>, s: StateModel, col: Seq<char>) -> Seq<TokModel> {
    let o = o.push(id("self"@)).push(pa('.')).push(id(field_name(col, s.name@))).push(pa('.')).push(id("lock"@)).push(grp(Delim::Paren, {
        let inner = Seq::<TokModel>::empty();

        inner
    })).push(pa('.')).push(id("unwrap"@)).push(grp(Delim::Paren, {
        let inner = Seq::<TokModel>::empty();

        inner
    })).push(pa('.')).push(id("len"@)).push(grp(Delim::Paren, {
        let inner = Seq::<TokModel>::empty();

        inner
    }));
    o
}

fn emit_len_term(out: &mut Vec<Tok>, s: &TypedState, col: &str)
    ensures
        toks_model(final(out)@) == len_term_after(toks_model(old(out)@), s@, col@),
{
    push_ident(out, "self");
    push_punct(out, '.', false);
    push_ident(out, field_name_of(col, s.name.as_str()).as_str());
    push_punct(out, '.', false);
    push_ident(out, "lock");
    let mut g1: Vec<Tok> = Vec::new();
    assert(toks_model(g1@) =~= Seq::<TokModel>::empty());
    push_group(out, Delim::Paren, g1);
    push_punct(out, '.', false);
    push_ident(out, "unwrap");
    let mut g2: Vec<Tok> = Vec::new();
    assert(toks_model(g2@) =~= Seq::<TokModel>::empty());
    push_group(out, Delim::Paren, g2);
    push_punct(out, '.', false);
    push_ident(out, "len");
    let mut g3: Vec<Tok> = Vec::new();
    assert(toks_model(g3@) =~= Seq::<TokModel>::empty());
    push_group(out, Delim::Paren, g3);
}

/// The number of items over all states: the counts joined by `+`.
pub open spec fn len_terms_after(o: Seq<TokModel>, items: Seq<StateModel>, col: Seq<char>) -> Seq<TokModel>
    decreases items.len(),
{
    if items.len() == 0 {
        o
    } else {
        let o = len_terms_after(o, items.drop_last(), col);
        let o = if items.len() > 1 { o.push(pa('+')) } else { o };
        len_term_after(o, items.last(), col)
    }
}

fn emit_len_terms(out: &mut Vec<Tok>, items: &Vec<TypedState>, col: &str)
    ensures
        toks_model(final(out)@) == len_terms_after(toks_model(old(out)@), states_model(items@), col@),
{
    let ghost o = toks_model(out@);
    let ghost v = states_model(items@);
    let mut i: usize = 0;
    assert(v.take(0) =~= Seq::<StateModel>::empty());
    while i < items.len()
        invariant
            i <= items@.len(),
            v == states_model(items@),
            v.len() == items@.len(),
            toks_model(out@) == len_terms_after(o, v.take(i as int), col@),
        decreases items.len() - i,
    {
        assert(v.take(i + 1).drop_last() =~= v.take(i as int));
        assert(v.take(i + 1).last() == v[i as int]);
        if i > 0 {
            push_punct(out, '+', false);
        }
        emit_len_term(out, &items[i], col);
        i += 1;
    }
    assert(v.take(i as int) =~= v);
}

/// A map store's methods for state `s`: a handle that takes the item with a given key out of the state's map, the state's count and its keys.
pub open spec fn map_state_methods_after(o: Seq<TokModel>, s: StateModel, col: Seq<char>, prefix: Seq<char>, kt: Seq<Tok>, ts: Seq<TransitionModel>) -> Seq<TokModel> {
    let o = o.push(pa('#')).push(grp(Delim::Bracket, {
        let inner = Seq::<TokModel>::empty();
        let inner = inner.push(id("doc"@)).push(pa('=')).push(lit("\" Get a handle to an item in this state.\""@));
        inner
    })).push(id("pub"@)).push(id("fn"@)).push(id(field_name(col, s.name@))).push(grp(Delim::Paren, {
        let inner = Seq::<TokModel>::empty();
        let inner = inner.push(pa('&')).push(id("self"@)).push(pa(',')).push(id("key"@)).push(pa(':')).push(pa('&'));
        let inner = inner + toks_model(kt);
        inner
    })).push(pj('-')).push(pa('>')).push(id("Option"@)).push(pa('<')).push(id(handle_name(prefix, s.name@))).push(pa('>')).push(grp(Delim::Brace, {
        let inner = Seq::<TokModel>::empty();
        let inner = inner.push(id("let"@)).push(id("item"@)).push(pa('=')).push(id("self"@)).push(pa('.')).push(id(field_name(col, s.name@))).push(pa('.')).push(id("lock"@)).push(grp(Delim::Paren, {
        let inner = Seq::<TokModel>::empty();

        inner
    })).push(pa('.')).push(id("unwrap"@)).push(grp(Delim::Paren, {
        let inner = Seq::<TokModel>::empty();

        inner
    })).push(pa('.')).push(id("remove"@)).push(grp(Delim::Paren, {
        let inner = Seq::<TokModel>::empty();
        let inner = inner.push(id("key"@));
        inner
    })).push(pa('?')).push(pa(';')).push(id("Some"@)).push(grp(Delim::Paren, {
        let inner = Seq::<TokModel>::empty();
        let inner = inner.push(id(handle_name(prefix, s.name@))).push(grp(Delim::Brace, {
        let inner = Seq::<TokModel>::empty();
        let inner = inner.push(id(role_name("source_"@, s.name@))).push(pa(':')).push(id("self"@)).push(pa('.')).push(id(field_name(col, s.name@))).push(pa('.')).push(id("clone"@)).push(grp(Delim::Paren, {
        let inner = Seq::<TokModel>::empty();

        inner
    })).push(pa(','));
        let inner = target_inits_after(inner, distinct_targets(ts, s.name@, Seq::empty()), col);
        let inner = inner.push(id("key"@)).push(pa(':')).push(id("key"@)).push(pa('.')).push(id("clone"@)).push(grp(Delim::Paren, {
        let inner = Seq::<TokModel>::empty();

        inner
    })).push(pa(',')).push(id("item"@)).push(pa(':')).push(id("Some"@)).push(grp(Delim::Paren, {
        let inner = Seq::<TokModel>::empty();
        let inner = inner.push(id("item"@));
        inner
    })).push(pa(','));
        inner
    }));
        inner
    }));
        inner
    })).push(pa('#')).push(grp(Delim::Bracket, {
        let inner = Seq::<TokModel>::empty();
        let inner = inner.push(id("doc"@)).push(pa('=')).push(lit("\" Count items in this state.\""@));
        inner
    })).push(id("pub"@)).push(id("fn"@)).push(id(field_name(col, s.name@) + "_len"@)).push(grp(Delim::Paren, {
        let inner = Seq::<TokModel>::empty();
        let inner = inner.push(pa('&')).push(id("self"@));
        inner
    })).push(pj('-'));
    let o = o.push(pa('>')).push(id("usize"@)).push(grp(Delim::Brace, {
        let inner = Seq::<TokModel>::empty();
        let inner = inner.push(id("self"@)).push(pa('.')).push(id(field_name(col, s.name@))).push(pa('.')).push(id("lock"@)).push(grp(Delim::Paren, {
        let inner = Seq::<TokModel>::empty();

        inner
    })).push(pa('.')).push(id("unwrap"@)).push(grp(Delim::Paren, {
        let inner = Seq::<TokModel>::empty();

        inner
    })).push(pa('.')).push(id("len"@)).push(grp(Delim::Paren, {
        let inner = Seq::<TokModel>::empty();

        inner
    }));
        inner
    })).push(pa('#')).push(grp(Delim::Bracket, {
        let inner = Seq::<TokModel>::empty();
        let inner = inner.push(id("doc"@)).push(pa('=')).push(lit("\" Get keys of items in this state.\""@));
        inner
    })).push(id("pub"@)).push(id("fn"@)).push(id(field_name(col, s.name@) + "_keys"@)).push(grp(Delim::Paren, {
        let inner = Seq::<TokModel>::empty();
        let inner = inner.push(pa('&')).push(id("self"@));
        inner
    })).push(pj('-')).push(pa('>')).push(id("Vec"@)).push(pa('<'));
    let o = o + toks_model(kt);
    let o = o.push(pa('>')).push(id("where"@));
    let o = o + toks_model(kt);
    let o = o.push(pa(':')).push(id("Clone"@)).push(pa(',')).push(grp(Delim::Brace, {
        let inner = Seq::<TokModel>::empty();
        let inner = inner.push(id("self"@)).push(pa('.')).push(id(field_name(col, s.name@))).push(pa('.')).push(id("lock"@)).push(grp(Delim::Paren, {
        let inner = Seq::<TokModel>::empty();

        inner
    })).push(pa('.')).push(id("unwrap"@)).push(grp(Delim::Paren, {
        let inner = Seq::<TokModel>::empty();

        inner
    })).push(pa('.')).push(id("keys"@)).push(grp(Delim::Paren, {
        let inner = Seq::<TokModel>::empty();

        inner
    })).push(pa('.')).push(id("cloned"@)).push(grp(Delim::Paren, {
        let inner = Seq::<TokModel>::empty();

        inner
    })).push(pa('.')).push(id("collect"@)).push(grp(Delim::Paren, {
        let inner = Seq::<TokModel>::empty();

        inner
    }));
        inner
    }));
    o
}

fn emit_map_state_methods(out: &mut Vec<Tok>, s: &TypedState, col: &str, prefix: &str, kt: &Vec<Tok>, ts: &Vec<TypedTransition>)
    ensures
        toks_model(final(out)@) == map_state_methods_after(toks_model(old(out)@), s@, col@, prefix@, kt@, transitions_model(ts@)),
{
    push_punct(out, '#', false);
    let mut g1: Vec<Tok> = Vec::new();
    assert(toks_model(g1@) =~= Seq::<TokModel>::empty());
    push_ident(&mut g1, "doc");
    push_punct(&mut g1, '=', false);
    push_literal(&mut g1, "\" Get a handle to an item in this state.\"");
    push_group(out, Delim::Bracket, g1);
    push_ident(out, "pub");
    push_ident(out, "fn");
    push_ident(out, field_name_of(col, s.name.as_str()).as_str());
    let mut g2: Vec<Tok> = Vec::new();
    assert(toks_model(g2@) =~= Seq::<TokModel>::empty());
    push_punct(&mut g2, '&', false);
    push_ident(&mut g2, "self");
    push_punct(&mut g2, ',', false);
    push_ident(&mut g2, "key");
    push_punct(&mut g2, ':', false);
    push_punct(&mut g2, '&', false);
    push_all(&mut g2, copy_toks(kt));
    push_group(out, Delim::Paren, g2);
    push_punct(out, '-', true);
    push_punct(out, '>', false);
    push_ident(out, "Option");
    push_punct(out, '<', false);
    push_ident(out, handle_name_of(prefix, s.name.as_str()).as_str());
    push_punct(out, '>', false);
    let mut g3: Vec<Tok> = Vec::new();
    assert(toks_model(g3@) =~= Seq::<TokModel>::empty());
    push_ident(&mut g3, "let");
    push_ident(&mut g3, "item");
    push_punct(&mut g3, '=', false);
    push_ident(&mut g3, "self");
    push_punct(&mut g3, '.', false);
    push_ident(&mut g3, field_name_of(col, s.name.as_str()).as_str());
    push_punct(&mut g3, '.', false);
    push_ident(&mut g3, "lock");
    let mut g4: Vec<Tok> = Vec::new();
    assert(toks_model(g4@) =~= Seq::<TokModel>::empty());
    push_group(&mut g3, Delim::Paren, g4);
    push_punct(&mut g3, '.', false);
    push_ident(&mut g3, "unwrap");
    let mut g5: Vec<Tok> = Vec::new();
    assert(toks_model(g5@) =~= Seq::<TokModel>::empty());
    push_group(&mut g3, Delim::Paren, g5);
    push_punct(&mut g3, '.', false);
    push_ident(&mut g3, "remove");
    let mut g6: Vec<Tok> = Vec::new();
    assert(toks_model(g6@) =~= Seq::<TokModel>::empty());
    push_ident(&mut g6, "key");
    push_group(&mut g3, Delim::Paren, g6);
    push_punct(&mut g3, '?', false);
    push_punct(&mut g3, ';', false);
    push_ident(&mut g3, "Some");
    let mut g7: Vec<Tok> = Vec::new();
    assert(toks_model(g7@) =~= Seq::<TokModel>::empty());
    push_ident(&mut g7, handle_name_of(prefix, s.name.as_str()).as_str());
    let mut g8: Vec<Tok> = Vec::new();
    assert(toks_model(g8@) =~= Seq::<TokModel>::empty());
    push_ident(&mut g8, role_name_of("source_", s.name.as_str()).as_str());
    push_punct(&mut g8, ':', false);
    push_ident(&mut g8, "self");
    push_punct(&mut g8, '.', false);
    push_ident(&mut g8, field_name_of(col, s.name.as_str()).as_str());
    push_punct(&mut g8, '.', false);
    push_ident(&mut g8, "clone");
    let mut g9: Vec<Tok> = Vec::new();
    assert(toks_model(g9@) =~= Seq::<TokModel>::empty());
    push_group(&mut g8, Delim::Paren, g9);
    push_punct(&mut g8, ',', false);
    { let tg = handle_targets(ts, s.name.as_str()); emit_target_inits(&mut g8, &tg, col); }
    push_ident(&mut g8, "key");
    push_punct(&mut g8, ':', false);
    push_ident(&mut g8, "key");
    push_punct(&mut g8, '.', false);
    push_ident(&mut g8, "clone");
    let mut g10: Vec<Tok> = Vec::new();
    assert(toks_model(g10@) =~= Seq::<TokModel>::empty());
    push_group(&mut g8, Delim::Paren, g10);
    push_punct(&mut g8, ',', false);
    push_ident(&mut g8, "item");
    push_punct(&mut g8, ':', false);
    push_ident(&mut g8, "Some");
    let mut g11: Vec<Tok> = Vec::new();
    assert(toks_model(g11@) =~= Seq::<TokModel>::empty());
    push_ident(&mut g11, "item");
    push_group(&mut g8, Delim::Paren, g11);
    push_punct(&mut g8, ',', false);
    push_group(&mut g7, Delim::Brace, g8);
    push_group(&mut g3, Delim::Paren, g7);
    push_group(out, Delim::Brace, g3);
    push_punct(out, '#', false);
    let mut g12: Vec<Tok> = Vec::new();
    assert(toks_model(g12@) =~= Seq::<TokModel>::empty());
    push_ident(&mut g12, "doc");
    push_punct(&mut g12, '=', false);
    push_literal(&mut g12, "\" Count items in this state.\"");
    push_group(out, Delim::Bracket, g12);
    push_ident(out, "pub");
    push_ident(out, "fn");
    push_ident(out, state_method_name_of(col, s.name.as_str(), "_len").as_str());
    let mut g13: Vec<Tok> = Vec::new();
    assert(toks_model(g13@) =~= Seq::<TokModel>::empty());
    push_punct(&mut g13, '&', false);
    push_ident(&mut g13, "self");
    push_group(out, Delim::Paren, g13);
    push_punct(out, '-', true);
    push_punct(out, '>', false);
    push_ident(out, "usize");
    let mut g14: Vec<Tok> = Vec::new();
    assert(toks_model(g14@) =~= Seq::<TokModel>::empty());
    push_ident(&mut g14, "self");
    push_punct(&mut g14, '.', false);
    push_ident(&mut g14, field_name_of(col, s.name.as_str()).as_str());
    push_punct(&mut g14, '.', false);
    push_ident(&mut g14, "lock");
    let mut g15: Vec<Tok> = Vec::new();
    assert(toks_model(g15@) =~= Seq::<TokModel>::empty());
    push_group(&mut g14, Delim::Paren, g15);
    push_punct(&mut g14, '.', false);
    push_ident(&mut g14, "unwrap");
    let mut g16: Vec<Tok> = Vec::new();
    assert(toks_model(g16@) =~= Seq::<TokModel>::empty());
    push_group(&mut g14, Delim::Paren, g16);
    push_punct(&mut g14, '.', false);
    push_ident(&mut g14, "len");
    let mut g17: Vec<Tok> = Vec::new();
    assert(toks_model(g17@) =~= Seq::<TokModel>::empty());
    push_group(&mut g14, Delim::Paren, g17);
    push_group(out, Delim::Brace, g14);
    push_punct(out, '#', false);
    let mut g18: Vec<Tok> = Vec::new();
    assert(toks_model(g18@) =~= Seq::<TokModel>::empty());
    push_ident(&mut g18, "doc");
    push_punct(&mut g18, '=', false);
    push_literal(&mut g18, "\" Get keys of items in this state.\"");
    push_group(out, Delim::Bracket, g18);
    push_ident(out, "pub");
    push_ident(out, "fn");
    push_ident(out, state_method_name_of(col, s.name.as_str(), "_keys").as_str());
    let mut g19: Vec<Tok> = Vec::new();
    assert(toks_model(g19@) =~= Seq::<TokModel>::empty());
    push_punct(&mut g19, '&', false);
    push_ident(&mut g19, "self");
    push_group(out, Delim::Paren, g19);
    push_punct(out, '-', true);
    push_punct(out, '>', false);
    push_ident(out, "Vec");
    push_punct(out, '<', false);
    push_all(out, copy_toks(kt));
    push_punct(out, '>', false);
    push_ident(out, "where");
    push_all(out, copy_toks(kt));
    push_punct(out, ':', false);
    push_ident(out, "Clone");
    push_punct(out, ',', false);
    let mut g20: Vec<Tok> = Vec::new();
    assert(toks_model(g20@) =~= Seq::<TokModel>::empty());
    push_ident(&mut g20, "self");
    push_punct(&mut g20, '.', false);
    push_ident(&mut g20, field_name_of(col, s.name.as_str()).as_str());
    push_punct(&mut g20, '.', false);
    push_ident(&mut g20, "lock");
    let mut g21: Vec<Tok> = Vec::new();
    assert(toks_model(g21@) =~= Seq::<TokModel>::empty());
    push_group(&mut g20, Delim::Paren, g21);
    push_punct(&mut g20, '.', false);
    push_ident(&mut g20, "unwrap");
    let mut g22: Vec<Tok> = Vec::new();
    assert(toks_model(g22@) =~= Seq::<TokModel>::empty());
    push_group(&mut g20, Delim::Paren, g22);
    push_punct(&mut g20, '.', false);
    push_ident(&mut g20, "keys");
    let mut g23: Vec<Tok> = Vec::new();
    assert(toks_model(g23@) =~= Seq::<TokModel>::empty());
    push_group(&mut g20, Delim::Paren, g23);
    push_punct(&mut g20, '.', false);
    push_ident(&mut g20, "cloned");
    let mut g24: Vec<Tok> = Vec::new();
    assert(toks_model(g24@) =~= Seq::<TokModel>::empty());
    push_group(&mut g20, Delim::Paren, g24);
    push_punct(&mut g20, '.', false);
    push_ident(&mut g20, "collect");
    let mut g25: Vec<Tok> = Vec::new();
    assert(toks_model(g25@) =~= Seq::<TokModel>::empty());
    push_group(&mut g20, Delim::Paren, g25);
    push_group(out, Delim::Brace, g20);
}

/// A map store's per-state methods, state by state.
pub open spec fn map_states_methods_after(o: Seq<TokModel>, items: Seq<StateModel>, col: Seq<char>, prefix: Seq<char>, kt: Seq<Tok>, ts: Seq<TransitionModel>) -> Seq<TokModel>
    decreases items.len(),
{
    if items.len() == 0 {
        o
    } else {
        let o = map_states_methods_after(o, items.drop_last(), col, prefix, kt, ts);
        map_state_methods_after(o, items.last(), col, prefix, kt, ts)
    }
}

fn emit_map_states_methods(out: &mut Vec<Tok>, items: &Vec<TypedState>, col: &str, prefix: &str, kt: &Vec<Tok>, ts: &Vec<TypedTransition>)
    ensures
        toks_model(final(out)@) == map_states_methods_after(toks_model(old(out)@), states_model(items@), col@, prefix@, kt@, transitions_model(ts@)),
{
    let ghost o = toks_model(out@);
    let ghost v = states_model(items@);
    let mut i: usize = 0;
    assert(v.take(0) =~= Seq::<StateModel>::empty());
    while i < items.len()
        invariant
            i <= items@.len(),
            v == states_model(items@),
            v.len() == items@.len(),
            toks_model(out@) == map_states_methods_after(o, v.take(i as int), col@, prefix@, kt@, transitions_model(ts@)),
        decreases items.len() - i,
    {
        assert(v.take(i + 1).drop_last() =~= v.take(i as int));
        assert(v.take(i + 1).last() == v[i as int]);
        emit_map_state_methods(out, &items[i], col, prefix, kt, ts);
        i += 1;
    }
    assert(v.take(i as int) =~= v);
}

/// A queue store's methods for state `s`: a handle that takes the front item out of the state's queue, a copy of the front item, and the state's count.
pub open spec fn queue_state_methods_after(o: Seq<TokModel>, s: StateModel, col: Seq<char>, prefix: Seq<char>, ts: Seq<TransitionModel>) -> Seq<TokModel> {
    let o = o.push(pa('#')).push(grp(Delim::Bracket, {
        let inner = Seq::<TokModel>::empty();
        let inner = inner.push(id("doc"@)).push(pa('=')).push(lit("\" Get a handle to the front item in this state.\""@));
        inner
    })).push(id("pub"@)).push(id("fn"@)).push(id(col + "_next_"@ + snake_case(s.name@, true))).push(grp(Delim::Paren, {
        let inner = Seq::<TokModel>::empty();
        let inner = inner.push(pa('&')).push(id("self"@));
        inner
    })).push(pj('-')).push(pa('>')).push(id("Option"@)).push(pa('<')).push(id(handle_name(prefix, s.name@))).push(pa('>')).push(grp(Delim::Brace, {
        let inner = Seq::<TokModel>::empty();
        let inner = inner.push(id("let"@)).push(id("item"@)).push(pa('=')).push(id("self"@)).push(pa('.')).push(id(field_name(col, s.name@))).push(pa('.')).push(id("lock"@)).push(grp(Delim::Paren, {
        let inner = Seq::<TokModel>::empty();

        inner
    })).push(pa('.')).push(id("unwrap"@)).push(grp(Delim::Paren, {
        let inner = Seq::<TokModel>::empty();

        inner
    })).push(pa('.')).push(id("pop_front"@)).push(grp(Delim::Paren, {
        let inner = Seq::<TokModel>::empty();

        inner
    })).push(pa('?')).push(pa(';')).push(id("Some"@)).push(grp(Delim::Paren, {
        let inner = Seq::<TokModel>::empty();
        let inner = inner.push(id(handle_name(prefix, s.name@))).push(grp(Delim::Brace, {
        let inner = Seq::<TokModel>::empty();
        let inner = inner.push(id(role_name("source_"@, s.name@))).push(pa(':')).push(id("self"@)).push(pa('.')).push(id(field_name(col, s.name@))).push(pa('.')).push(id("clone"@)).push(grp(Delim::Paren, {
        let inner = Seq::<TokModel>::empty();

        inner
    })).push(pa(','));
        let inner = target_inits_after(inner, distinct_targets(ts, s.name@, Seq::empty()), col);
        let inner = inner.push(id("item"@)).push(pa(':')).push(id("Some"@)).push(grp(Delim::Paren, {
        let inner = Seq::<TokModel>::empty();
        let inner = inner.push(id("item"@));
        inner
    })).push(pa(','));
        inner
    }));
        inner
    }));
        inner
    })).push(pa('#')).push(grp(Delim::Bracket, {
        let inner = Seq::<TokModel>::empty();
        let inner = inner.push(id("doc"@)).push(pa('=')).push(lit("\" Peek at the front item (cloned).\""@));
        inner
    })).push(id("pub"@)).push(id("fn"@)).push(id(col + "_peek_"@ + snake_case(s.name@, true))).push(grp(Delim::Paren, {
        let inner = Seq::<TokModel>::empty();
        let inner = inner.push(pa('&')).push(id("self"@));
        inner
    })).push(pj('-'));
    let o = o.push(pa('>')).push(id("Option"@)).push(pa('<')).push(id(prefix + s.name@)).push(pa('>')).push(id("where"@)).push(id(prefix + s.name@)).push(pa(':')).push(id("Clone"@)).push(pa(',')).push(grp(Delim::Brace, {
        let inner = Seq::<TokModel>::empty();
        let inner = inner.push(id("self"@)).push(pa('.')).push(id(field_name(col, s.name@))).push(pa('.')).push(id("lock"@)).push(grp(Delim::Paren, {
        let inner = Seq::<TokModel>::empty();

        inner
    })).push(pa('.')).push(id("unwrap"@)).push(grp(Delim::Paren, {
        let inner = Seq::<TokModel>::empty();

        inner
    })).push(pa('.')).push(id("front"@)).push(grp(Delim::Paren, {
        let inner = Seq::<TokModel>::empty();

        inner
    })).push(pa('.')).push(id("cloned"@)).push(grp(Delim::Paren, {
        let inner = Seq::<TokModel>::empty();

        inner
    }));
        inner
    })).push(pa('#')).push(grp(Delim::Bracket, {
        let inner = Seq::<TokModel>::empty();
        let inner = inner.push(id("doc"@)).push(pa('=')).push(lit("\" Count items in this state.\""@));
        inner
    })).push(id("pub"@)).push(id("fn"@)).push(id(field_name(col, s.name@) + "_len"@)).push(grp(Delim::Paren, {
        let inner = Seq::<TokModel>::empty();
        let inner = inner.push(pa('&')).push(id("self"@));
        inner
    })).push(pj('-')).push(pa('>')).push(id("usize"@));
    let o = o.push(grp(Delim::Brace, {
        let inner = Seq::<TokModel>::empty();
        let inner = inner.push(id("self"@)).push(pa('.')).push(id(field_name(col, s.name@))).push(pa('.')).push(id("lock"@)).push(grp(Delim::Paren, {
        let inner = Seq::<TokModel>::empty();

        inner
    })).push(pa('.')).push(id("unwrap"@)).push(grp(Delim::Paren, {
        let inner = Seq::<TokModel>::empty();

        inner
    })).push(pa('.')).push(id("len"@)).push(grp(Delim::Paren, {
        let inner = Seq::<TokModel>::empty();

        inner
    }));
        inner
    }));
    o
}

fn emit_queue_state_methods(out: &mut Vec<Tok>, s: &TypedState, col: &str, prefix: &str, ts: &Vec<TypedTransition>)
    ensures
        toks_model(final(out)@) == queue_state_methods_after(toks_model(old(out)@), s@, col@, prefix@, transitions_model(ts@)),
{
    push_punct(out, '#', false);
    let mut g1: Vec<Tok> = Vec::new();
    assert(toks_model(g1@) =~= Seq::<TokModel>::empty());
    push_ident(&mut g1, "doc");
    push_punct(&mut g1, '=', false);
    push_literal(&mut g1, "\" Get a handle to the front item in this state.\"");
    push_group(out, Delim::Bracket, g1);
    push_ident(out, "pub");
    push_ident(out, "fn");
    push_ident(out, verb_method_name_of(col, "_next_", s.name.as_str()).as_str());
    let mut g2: Vec<Tok> = Vec::new();
    assert(toks_model(g2@) =~= Seq::<TokModel>::empty());
    push_punct(&mut g2, '&', false);
    push_ident(&mut g2, "self");
    push_group(out, Delim::Paren, g2);
    push_punct(out, '-', true);
    push_punct(out, '>', false);
    push_ident(out, "Option");
    push_punct(out, '<', false);
    push_ident(out, handle_name_of(prefix, s.name.as_str()).as_str());
    push_punct(out, '>', false);
    let mut g3: Vec<Tok> = Vec::new();
    assert(toks_model(g3@) =~= Seq::<TokModel>::empty());
    push_ident(&mut g3, "let");
    push_ident(&mut g3, "item");
    push_punct(&mut g3, '=', false);
    push_ident(&mut g3, "self");
    push_punct(&mut g3, '.', false);
    push_ident(&mut g3, field_name_of(col, s.name.as_str()).as_str());
    push_punct(&mut g3, '.', false);
    push_ident(&mut g3, "lock");
    let mut g4: Vec<Tok> = Vec::new();
    assert(toks_model(g4@) =~= Seq::<TokModel>::empty());
    push_group(&mut g3, Delim::Paren, g4);
    push_punct(&mut g3, '.', false);
    push_ident(&mut g3, "unwrap");
    let mut g5: Vec<Tok> = Vec::new();
    assert(toks_model(g5@) =~= Seq::<TokModel>::empty());
    push_group(&mut g3, Delim::Paren, g5);
    push_punct(&mut g3, '.', false);
    push_ident(&mut g3, "pop_front");
    let mut g6: Vec<Tok> = Vec::new();
    assert(toks_model(g6@) =~= Seq::<TokModel>::empty());
    push_group(&mut g3, Delim::Paren, g6);
    push_punct(&mut g3, '?', false);
    push_punct(&mut g3, ';', false);
    push_ident(&mut g3, "Some");
    let mut g7: Vec<Tok> = Vec::new();
    assert(toks_model(g7@) =~= Seq::<TokModel>::empty());
    push_ident(&mut g7, handle_name_of(prefix, s.name.as_str()).as_str());
    let mut g8: Vec<Tok> = Vec::new();
    assert(toks_model(g8@) =~= Seq::<TokModel>::empty());
    push_ident(&mut g8, role_name_of("source_", s.name.as_str()).as_str());
    push_punct(&mut g8, ':', false);
    push_ident(&mut g8, "self");
    push_punct(&mut g8, '.', false);
    push_ident(&mut g8, field_name_of(col, s.name.as_str()).as_str());
    push_punct(&mut g8, '.', false);
    push_ident(&mut g8, "clone");
    let mut g9: Vec<Tok> = Vec::new();
    assert(toks_model(g9@) =~= Seq::<TokModel>::empty());
    push_group(&mut g8, Delim::Paren, g9);
    push_punct(&mut g8, ',', false);
    { let tg = handle_targets(ts, s.name.as_str()); emit_target_inits(&mut g8, &tg, col); }
    push_ident(&mut g8, "item");
    push_punct(&mut g8, ':', false);
    push_ident(&mut g8, "Some");
    let mut g10: Vec<Tok> = Vec::new();
    assert(toks_model(g10@) =~= Seq::<TokModel>::empty());
    push_ident(&mut g10, "item");
    push_group(&mut g8, Delim::Paren, g10);
    push_punct(&mut g8, ',', false);
    push_group(&mut g7, Delim::Brace, g8);
    push_group(&mut g3, Delim::Paren, g7);
    push_group(out, Delim::Brace, g3);
    push_punct(out, '#', false);
    let mut g11: Vec<Tok> = Vec::new();
    assert(toks_model(g11@) =~= Seq::<TokModel>::empty());
    push_ident(&mut g11, "doc");
    push_punct(&mut g11, '=', false);
    push_literal(&mut g11, "\" Peek at the front item (cloned).\"");
    push_group(out, Delim::Bracket, g11);
    push_ident(out, "pub");
    push_ident(out, "fn");
    push_ident(out, verb_method_name_of(col, "_peek_", s.name.as_str()).as_str());
    let mut g12: Vec<Tok> = Vec::new();
    assert(toks_model(g12@) =~= Seq::<TokModel>::empty());
    push_punct(&mut g12, '&', false);
    push_ident(&mut g12, "self");
    push_group(out, Delim::Paren, g12);
    push_punct(out, '-', true);
    push_punct(out, '>', false);
    push_ident(out, "Option");
    push_punct(out, '<', false);
    push_ident(out, state_type_of(prefix, s.name.as_str()).as_str());
    push_punct(out, '>', false);
    push_ident(out, "where");
    push_ident(out, state_type_of(prefix, s.name.as_str()).as_str());
    push_punct(out, ':', false);
    push_ident(out, "Clone");
    push_punct(out, ',', false);
    let mut g13: Vec<Tok> = Vec::new();
    assert(toks_model(g13@) =~= Seq::<TokModel>::empty());
    push_ident(&mut g13, "self");
    push_punct(&mut g13, '.', false);
    push_ident(&mut g13, field_name_of(col, s.name.as_str()).as_str());
    push_punct(&mut g13, '.', false);
    push_ident(&mut g13, "lock");
    let mut g14: Vec<Tok> = Vec::new();
    assert(toks_model(g14@) =~= Seq::<TokModel>::empty());
    push_group(&mut g13, Delim::Paren, g14);
    push_punct(&mut g13, '.', false);
    push_ident(&mut g13, "unwrap");
    let mut g15: Vec<Tok> = Vec::new();
    assert(toks_model(g15@) =~= Seq::<TokModel>::empty());
    push_group(&mut g13, Delim::Paren, g15);
    push_punct(&mut g13, '.', false);
    push_ident(&mut g13, "front");
    let mut g16: Vec<Tok> = Vec::new();
    assert(toks_model(g16@) =~= Seq::<TokModel>::empty());
    push_group(&mut g13, Delim::Paren, g16);
    push_punct(&mut g13, '.', false);
    push_ident(&mut g13, "cloned");
    let mut g17: Vec<Tok> = Vec::new();
    assert(toks_model(g17@) =~= Seq::<TokModel>::empty());
    push_group(&mut g13, Delim::Paren, g17);
    push_group(out, Delim::Brace, g13);
    push_punct(out, '#', false);
    let mut g18: Vec<Tok> = Vec::new();
    assert(toks_model(g18@) =~= Seq::<TokModel>::empty());
    push_ident(&mut g18, "doc");
    push_punct(&mut g18, '=', false);
    push_literal(&mut g18, "\" Count items in this state.\"");
    push_group(out, Delim::Bracket, g18);
    push_ident(out, "pub");
    push_ident(out, "fn");
    push_ident(out, state_method_name_of(col, s.name.as_str(), "_len").as_str());
    let mut g19: Vec<Tok> = Vec::new();
    assert(toks_model(g19@) =~= Seq::<TokModel>::empty());
    push_punct(&mut g19, '&', false);
    push_ident(&mut g19, "self");
    push_group(out, Delim::Paren, g19);
    push_punct(out, '-', true);
    push_punct(out, '>', false);
    push_ident(out, "usize");
    let mut g20: Vec<Tok> = Vec::new();
    assert(toks_model(g20@) =~= Seq::<TokModel>::empty());
    push_ident(&mut g20, "self");
    push_punct(&mut g20, '.', false);
    push_ident(&mut g20, field_name_of(col, s.name.as_str()).as_str());
    push_punct(&mut g20, '.', false);
    push_ident(&mut g20, "lock");
    let mut g21: Vec<Tok> = Vec::new();
    assert(toks_model(g21@) =~= Seq::<TokModel>::empty());
    push_group(&mut g20, Delim::Paren, g21);
    push_punct(&mut g20, '.', false);
    push_ident(&mut g20, "unwrap");
    let mut g22: Vec<Tok> = Vec::new();
    assert(toks_model(g22@) =~= Seq::<TokModel>::empty());
    push_group(&mut g20, Delim::Paren, g22);
    push_punct(&mut g20, '.', false);
    push_ident(&mut g20, "len");
    let mut g23: Vec<Tok> = Vec::new();
    assert(toks_model(g23@) =~= Seq::<TokModel>::empty());
    push_group(&mut g20, Delim::Paren, g23);
    push_group(out, Delim::Brace, g20);
}

/// A queue store's per-state methods, state by state.
pub open spec fn queue_states_methods_after(o: Seq<TokModel>, items: Seq<StateModel>, col: Seq<char>, prefix: Seq<char>, ts: Seq<TransitionModel>) -> Seq<TokModel>
    decreases items.len(),
{
    if items.len() == 0 {
        o
    } else {
        let o = queue_states_methods_after(o, items.drop_last(), col, prefix, ts);
        queue_state_methods_after(o, items.last(), col, prefix, ts)
    }
}

fn emit_queue_states_methods(out: &mut Vec<Tok>, items: &Vec<TypedState>, col: &str, prefix: &str, ts: &Vec<TypedTransition>)
    ensures
        toks_model(final(out)@) == queue_states_methods_after(toks_model(old(out)@), states_model(items@), col@, prefix@, transitions_model(ts@)),
{
    let ghost o = toks_model(out@);
    let ghost v = states_model(items@);
    let mut i: usize = 0;
    assert(v.take(0) =~= Seq::<StateModel>::empty());
    while i < items.len()
        invariant
            i <= items@.len(),
            v == states_model(items@),
            v.len() == items@.len(),
            toks_model(out@) == queue_states_methods_after(o, v.take(i as int), col@, prefix@, transitions_model(ts@)),
        decreases items.len() - i,
    {
        assert(v.take(i + 1).drop_last() =~= v.take(i as int));
        assert(v.take(i + 1).last() == v[i as int]);
        emit_queue_state_methods(out, &items[i], col, prefix, ts);
        i += 1;
    }
    assert(v.take(i as int) =~= v);
}

/// The methods of a map store whose first state is `init`: insert refuses a key that any state holds and otherwise puts a new item, every field defaulted, into `init`; contains, remove and len range over all states; then the per-state methods.
pub open spec fn map_store_body_after(o: Seq<TokModel>, col: Seq<char>, prefix: Seq<char>, kt: Seq<Tok>, states: Seq<StateModel>, ts: Seq<TransitionModel>, init: StateModel) -> Seq<TokModel> {
    let o = o.push(pa('#')).push(grp(Delim::Bracket, {
        let inner = Seq::<TokModel>::empty();
        let inner = inner.push(id("doc"@)).push(pa('=')).push(lit("\" Insert a new item in the initial state.\""@));
        inner
    })).push(id("pub"@)).push(id("fn"@)).push(id(col + "_insert"@)).push(grp(Delim::Paren, {
        let inner = Seq::<TokModel>::empty();
        let inner = inner.push(pa('&')).push(id("self"@)).push(pa(',')).push(id("key"@)).push(pa(':'));
        let inner = inner + toks_model(kt);
        inner
    })).push(pj('-')).push(pa('>')).push(id("bool"@)).push(grp(Delim::Brace, {
        let inner = Seq::<TokModel>::empty();
        let inner = inner.push(id("if"@)).push(id("self"@)).push(pa('.')).push(id(col + "_contains"@)).push(grp(Delim::Paren, {
        let inner = Seq::<TokModel>::empty();
        let inner = inner.push(pa('&')).push(id("key"@));
        inner
    })).push(grp(Delim::Brace, {
        let inner = Seq::<TokModel>::empty();
        let inner = inner.push(id("return"@)).push(id("false"@)).push(pa(';'));
        inner
    })).push(id("self"@)).push(pa('.')).push(id(field_name(col, init.name@))).push(pa('.')).push(id("lock"@)).push(grp(Delim::Paren, {
        let inner = Seq::<TokModel>::empty();

        inner
    })).push(pa('.')).push(id("unwrap"@)).push(grp(Delim::Paren, {
        let inner = Seq::<TokModel>::empty();

        inner
    })).push(pa('.')).push(id("insert"@)).push(grp(Delim::Paren, {
        let inner = Seq::<TokModel>::empty();
        let inner = inner.push(id("key"@)).push(pa(','));
        let inner = initial_value_after(inner, init, prefix);
        inner
    })).push(pa(';')).push(id("true"@));
        inner
    })).push(pa('#')).push(grp(Delim::Bracket, {
        let inner = Seq::<TokModel>::empty();
        let inner = inner.push(id("doc"@)).push(pa('=')).push(lit("\" Check if an item exists in any state.\""@));
        inner
    })).push(id("pub"@)).push(id("fn"@)).push(id(col + "_contains"@)).push(grp(Delim::Paren, {
        let inner = Seq::<TokModel>::empty();
        let inner = inner.push(pa('&')).push(id("self"@)).push(pa(',')).push(id("key"@)).push(pa(':')).push(pa('&'));
        let inner = inner + toks_model(kt);
        inner
    })).push(pj('-')).push(pa('>')).push(id("bool"@)).push(grp(Delim::Brace, {
        let inner = Seq::<TokModel>::empty();
        let inner = contains_checks_after(inner, states, col);
        inner
    }));
    let o = o.push(pa('#')).push(grp(Delim::Bracket, {
        let inner = Seq::<TokModel>::empty();
        let inner = inner.push(id("doc"@)).push(pa('=')).push(lit("\" Remove an item from any state.\""@));
        inner
    })).push(id("pub"@)).push(id("fn"@)).push(id(col + "_remove"@)).push(grp(Delim::Paren, {
        let inner = Seq::<TokModel>::empty();
        let inner = inner.push(pa('&')).push(id("self"@)).push(pa(',')).push(id("key"@)).push(pa(':')).push(pa('&'));
        let inner = inner + toks_model(kt);
        inner
    })).push(pj('-')).push(pa('>')).push(id("bool"@)).push(grp(Delim::Brace, {
        let inner = Seq::<TokModel>::empty();
        let inner = remove_checks_after(inner, states, col);
        let inner = inner.push(id("false"@));
        inner
    })).push(pa('#')).push(grp(Delim::Bracket, {
        let inner = Seq::<TokModel>::empty();
        let inner = inner.push(id("doc"@)).push(pa('=')).push(lit("\" Get total count across all states.\""@));
        inner
    })).push(id("pub"@)).push(id("fn"@)).push(id(col + "_len"@)).push(grp(Delim::Paren, {
        let inner = Seq::<TokModel>::empty();
        let inner = inner.push(pa('&')).push(id("self"@));
        inner
    })).push(pj('-')).push(pa('>')).push(id("usize"@)).push(grp(Delim::Brace, {
        let inner = Seq::<TokModel>::empty();
        let inner = len_terms_after(inner, states, col);
        inner
    }));
    let o = map_states_methods_after(o, states, col, prefix, kt, ts);
    o
}

fn emit_map_store_body(out: &mut Vec<Tok>, col: &str, prefix: &str, kt: &Vec<Tok>, states: &Vec<TypedState>, ts: &Vec<TypedTransition>, init: &TypedState)
    ensures
        toks_model(final(out)@) == map_store_body_after(toks_model(old(out)@), col@, prefix@, kt@, states_model(states@), transitions_model(ts@), init@),
{
    push_punct(out, '#', false);
    let mut g1: Vec<Tok> = Vec::new();
    assert(toks_model(g1@) =~= Seq::<TokModel>::empty());
    push_ident(&mut g1, "doc");
    push_punct(&mut g1, '=', false);
    push_literal(&mut g1, "\" Insert a new item in the initial state.\"");
    push_group(out, Delim::Bracket, g1);
    push_ident(out, "pub");
    push_ident(out, "fn");
    push_ident(out, method_name_of(col, "_insert").as_str());
    let mut g2: Vec<Tok> = Vec::new();
    assert(toks_model(g2@) =~= Seq::<TokModel>::empty());
    push_punct(&mut g2, '&', false);
    push_ident(&mut g2, "self");
    push_punct(&mut g2, ',', false);
    push_ident(&mut g2, "key");
    push_punct(&mut g2, ':', false);
    push_all(&mut g2, copy_toks(kt));
    push_group(out, Delim::Paren, g2);
    push_punct(out, '-', true);
    push_punct(out, '>', false);
    push_ident(out, "bool");
    let mut g3: Vec<Tok> = Vec::new();
    assert(toks_model(g3@) =~= Seq::<TokModel>::empty());
    push_ident(&mut g3, "if");
    push_ident(&mut g3, "self");
    push_punct(&mut g3, '.', false);
    push_ident(&mut g3, method_name_of(col, "_contains").as_str());
    let mut g4: Vec<Tok> = Vec::new();
    assert(toks_model(g4@) =~= Seq::<TokModel>::empty());
    push_punct(&mut g4, '&', false);
    push_ident(&mut g4, "key");
    push_group(&mut g3, Delim::Paren, g4);
    let mut g5: Vec<Tok> = Vec::new();
    assert(toks_model(g5@) =~= Seq::<TokModel>::empty());
    push_ident(&mut g5, "return");
    push_ident(&mut g5, "false");
    push_punct(&mut g5, ';', false);
    push_group(&mut g3, Delim::Brace, g5);
    push_ident(&mut g3, "self");
    push_punct(&mut g3, '.', false);
    push_ident(&mut g3, field_name_of(col, init.name.as_str()).as_str());
    push_punct(&mut g3, '.', false);
    push_ident(&mut g3, "lock");
    let mut g6: Vec<Tok> = Vec::new();
    assert(toks_model(g6@) =~= Seq::<TokModel>::empty());
    push_group(&mut g3, Delim::Paren, g6);
    push_punct(&mut g3, '.', false);
    push_ident(&mut g3, "unwrap");
    let mut g7: Vec<Tok> = Vec::new();
    assert(toks_model(g7@) =~= Seq::<TokModel>::empty());
    push_group(&mut g3, Delim::Paren, g7);
    push_punct(&mut g3, '.', false);
    push_ident(&mut g3, "insert");
    let mut g8: Vec<Tok> = Vec::new();
    assert(toks_model(g8@) =~= Seq::<TokModel>::empty());
    push_ident(&mut g8, "key");
    push_punct(&mut g8, ',', false);
    emit_initial_value(&mut g8, init, prefix);
    push_group(&mut g3, Delim::Paren, g8);
    push_punct(&mut g3, ';', false);
    push_ident(&mut g3, "true");
    push_group(out, Delim::Brace, g3);
    push_punct(out, '#', false);
    let mut g9: Vec<Tok> = Vec::new();
    assert(toks_model(g9@) =~= Seq::<TokModel>::empty());
    push_ident(&mut g9, "doc");
    push_punct(&mut g9, '=', false);
    push_literal(&mut g9, "\" Check if an item exists in any state.\"");
    push_group(out, Delim::Bracket, g9);
    push_ident(out, "pub");
    push_ident(out, "fn");
    push_ident(out, method_name_of(col, "_contains").as_str());
    let mut g10: Vec<Tok> = Vec::new();
    assert(toks_model(g10@) =~= Seq::<TokModel>::empty());
    push_punct(&mut g10, '&', false);
    push_ident(&mut g10, "self");
    push_punct(&mut g10, ',', false);
    push_ident(&mut g10, "key");
    push_punct(&mut g10, ':', false);
    push_punct(&mut g10, '&', false);
    push_all(&mut g10, copy_toks(kt));
    push_group(out, Delim::Paren, g10);
    push_punct(out, '-', true);
    push_punct(out, '>', false);
    push_ident(out, "bool");
    let mut g11: Vec<Tok> = Vec::new();
    assert(toks_model(g11@) =~= Seq::<TokModel>::empty());
    emit_contains_checks(&mut g11, states, col);
    push_group(out, Delim::Brace, g11);
    push_punct(out, '#', false);
    let mut g12: Vec<Tok> = Vec::new();
    assert(toks_model(g12@) =~= Seq::<TokModel>::empty());
    push_ident(&mut g12, "doc");
    push_punct(&mut g12, '=', false);
    push_literal(&mut g12, "\" Remove an item from any state.\"");
    push_group(out, Delim::Bracket, g12);
    push_ident(out, "pub");
    push_ident(out, "fn");
    push_ident(out, method_name_of(col, "_remove").as_str());
    let mut g13: Vec<Tok> = Vec::new();
    assert(toks_model(g13@) =~= Seq::<TokModel>::empty());
    push_punct(&mut g13, '&', false);
    push_ident(&mut g13, "self");
    push_punct(&mut g13, ',', false);
    push_ident(&mut g13, "key");
    push_punct(&mut g13, ':', false);
    push_punct(&mut g13, '&', false);
    push_all(&mut g13, copy_toks(kt));
    push_group(out, Delim::Paren, g13);
    push_punct(out, '-', true);
    push_punct(out, '>', false);
    push_ident(out, "bool");
    let mut g14: Vec<Tok> = Vec::new();
    assert(toks_model(g14@) =~= Seq::<TokModel>::empty());
    emit_remove_checks(&mut g14, states, col);
    push_ident(&mut g14, "false");
    push_group(out, Delim::Brace, g14);
    push_punct(out, '#', false);
    let mut g15: Vec<Tok> = Vec::new();
    assert(toks_model(g15@) =~= Seq::<TokModel>::empty());
    push_ident(&mut g15, "doc");
    push_punct(&mut g15, '=', false);
    push_literal(&mut g15, "\" Get total count across all states.\"");
    push_group(out, Delim::Bracket, g15);
    push_ident(out, "pub");
    push_ident(out, "fn");
    push_ident(out, method_name_of(col, "_len").as_str());
    let mut g16: Vec<Tok> = Vec::new();
    assert(toks_model(g16@) =~= Seq::<TokModel>::empty());
    push_punct(&mut g16, '&', false);
    push_ident(&mut g16, "self");
    push_group(out, Delim::Paren, g16);
    push_punct(out, '-', true);
    push_punct(out, '>', false);
    push_ident(out, "usize");
    let mut g17: Vec<Tok> = Vec::new();
    assert(toks_model(g17@) =~= Seq::<TokModel>::empty());
    emit_len_terms(&mut g17, states, col);
    push_group(out, Delim::Brace, g17);
    emit_map_states_methods(out, states, col, prefix, kt, ts);
}

/// The methods of a queue store whose first state is `init`: push takes the counter as the new key, stores its wrapping successor and appends a new item, other fields defaulted, at the back of `init`'s queue; len ranges over all states; then the per-state methods.
pub open spec fn queue_store_body_after(o: Seq<TokModel>, col: Seq<char>, prefix: Seq<char>, k: Seq<char>, kt: Seq<Tok>, states: Seq<StateModel>, ts: Seq<TransitionModel>, init: StateModel) -> Seq<TokModel> {
    let o = o.push(pa('#')).push(grp(Delim::Bracket, {
        let inner = Seq::<TokModel>::empty();
        let inner = inner.push(id("doc"@)).push(pa('=')).push(lit("\" Push a new item in the initial state.\""@));
        inner
    })).push(id("pub"@)).push(id("fn"@)).push(id(col + "_push"@)).push(grp(Delim::Paren, {
        let inner = Seq::<TokModel>::empty();
        let inner = inner.push(pa('&')).push(id("self"@));
        inner
    })).push(pj('-')).push(pa('>'));
    let o = o + toks_model(kt);
    let o = o.push(grp(Delim::Brace, {
        let inner = Seq::<TokModel>::empty();
        let inner = inner.push(id("let"@)).push(id("mut"@)).push(id("next_id"@)).push(pa('=')).push(id("self"@)).push(pa('.')).push(id(col + "_next_id"@)).push(pa('.')).push(id("lock"@)).push(grp(Delim::Paren, {
        let inner = Seq::<TokModel>::empty();

        inner
    })).push(pa('.')).push(id("unwrap"@)).push(grp(Delim::Paren, {
        let inner = Seq::<TokModel>::empty();

        inner
    })).push(pa(';')).push(id("let"@)).push(id("id"@)).push(pa('=')).push(pa('*')).push(id("next_id"@)).push(pa(';'));
        let inner = inner.push(pa('*')).push(id("next_id"@)).push(pa('=')).push(id("next_id"@)).push(pa('.')).push(id("wrapping_add"@)).push(grp(Delim::Paren, {
        let inner = Seq::<TokModel>::empty();
        let inner = inner.push(lit("1"@));
        inner
    })).push(pa(';')).push(id("self"@)).push(pa('.')).push(id(field_name(col, init.name@))).push(pa('.')).push(id("lock"@)).push(grp(Delim::Paren, {
        let inner = Seq::<TokModel>::empty();

        inner
    })).push(pa('.')).push(id("unwrap"@)).push(grp(Delim::Paren, {
        let inner = Seq::<TokModel>::empty();

        inner
    })).push(pa('.')).push(id("push_back"@)).push(grp(Delim::Paren, {
        let inner = Seq::<TokModel>::empty();
        let inner = pushed_value_after(inner, init, prefix, k);
        inner
    }));
        let inner = inner.push(pa(';')).push(id("id"@));
        inner
    })).push(pa('#')).push(grp(Delim::Bracket, {
        let inner = Seq::<TokModel>::empty();
        let inner = inner.push(id("doc"@)).push(pa('=')).push(lit("\" Get total count across all states.\""@));
        inner
    })).push(id("pub"@)).push(id("fn"@)).push(id(col + "_len"@)).push(grp(Delim::Paren, {
        let inner = Seq::<TokModel>::empty();
        let inner = inner.push(pa('&')).push(id("self"@));
        inner
    })).push(pj('-')).push(pa('>')).push(id("usize"@)).push(grp(Delim::Brace, {
        let inner = Seq::<TokModel>::empty();
        let inner = len_terms_after(inner, states, col);
        inner
    }));
    let o = queue_states_methods_after(o, states, col, prefix, ts);
    o
}

fn emit_queue_store_body(out: &mut Vec<Tok>, col: &str, prefix: &str, k: &str, kt: &Vec<Tok>, states: &Vec<TypedState>, ts: &Vec<TypedTransition>, init: &TypedState)
    ensures
        toks_model(final(out)@) == queue_store_body_after(toks_model(old(out)@), col@, prefix@, k@, kt@, states_model(states@), transitions_model(ts@), init@),
{
    push_punct(out, '#', false);
    let mut g1: Vec<Tok> = Vec::new();
    assert(toks_model(g1@) =~= Seq::<TokModel>::empty());
    push_ident(&mut g1, "doc");
    push_punct(&mut g1, '=', false);
    push_literal(&mut g1, "\" Push a new item in the initial state.\"");
    push_group(out, Delim::Bracket, g1);
    push_ident(out, "pub");
    push_ident(out, "fn");
    push_ident(out, method_name_of(col, "_push").as_str());
    let mut g2: Vec<Tok> = Vec::new();
    assert(toks_model(g2@) =~= Seq::<TokModel>::empty());
    push_punct(&mut g2, '&', false);
    push_ident(&mut g2, "self");
    push_group(out, Delim::Paren, g2);
    push_punct(out, '-', true);
    push_punct(out, '>', false);
    push_all(out, copy_toks(kt));
    let mut g3: Vec<Tok> = Vec::new();
    assert(toks_model(g3@) =~= Seq::<TokModel>::empty());
    push_ident(&mut g3, "let");
    push_ident(&mut g3, "mut");
    push_ident(&mut g3, "next_id");
    push_punct(&mut g3, '=', false);
    push_ident(&mut g3, "self");
    push_punct(&mut g3, '.', false);
    push_ident(&mut g3, method_name_of(col, "_next_id").as_str());
    push_punct(&mut g3, '.', false);
    push_ident(&mut g3, "lock");
    let mut g4: Vec<Tok> = Vec::new();
    assert(toks_model(g4@) =~= Seq::<TokModel>::empty());
    push_group(&mut g3, Delim::Paren, g4);
    push_punct(&mut g3, '.', false);
    push_ident(&mut g3, "unwrap");
    let mut g5: Vec<Tok> = Vec::new();
    assert(toks_model(g5@) =~= Seq::<TokModel>::empty());
    push_group(&mut g3, Delim::Paren, g5);
    push_punct(&mut g3, ';', false);
    push_ident(&mut g3, "let");
    push_ident(&mut g3, "id");
    push_punct(&mut g3, '=', false);
    push_punct(&mut g3, '*', false);
    push_ident(&mut g3, "next_id");
    push_punct(&mut g3, ';', false);
    push_punct(&mut g3, '*', false);
    push_ident(&mut g3, "next_id");
    push_punct(&mut g3, '=', false);
    push_ident(&mut g3, "next_id");
    push_punct(&mut g3, '.', false);
    push_ident(&mut g3, "wrapping_add");
    let mut g6: Vec<Tok> = Vec::new();
    assert(toks_model(g6@) =~= Seq::<TokModel>::empty());
    push_literal(&mut g6, "1");
    push_group(&mut g3, Delim::Paren, g6);
    push_punct(&mut g3, ';', false);
    push_ident(&mut g3, "self");
    push_punct(&mut g3, '.', false);
    push_ident(&mut g3, field_name_of(col, init.name.as_str()).as_str());
    push_punct(&mut g3, '.', false);
    push_ident(&mut g3, "lock");
    let mut g7: Vec<Tok> = Vec::new();
    assert(toks_model(g7@) =~= Seq::<TokModel>::empty());
    push_group(&mut g3, Delim::Paren, g7);
    push_punct(&mut g3, '.', false);
    push_ident(&mut g3, "unwrap");
    let mut g8: Vec<Tok> = Vec::new();
    assert(toks_model(g8@) =~= Seq::<TokModel>::empty());
    push_group(&mut g3, Delim::Paren, g8);
    push_punct(&mut g3, '.', false);
    push_ident(&mut g3, "push_back");
    let mut g9: Vec<Tok> = Vec::new();
    assert(toks_model(g9@) =~= Seq::<TokModel>::empty());
    emit_pushed_value(&mut g9, init, prefix, k);
    push_group(&mut g3, Delim::Paren, g9);
    push_punct(&mut g3, ';', false);
    push_ident(&mut g3, "id");
    push_group(out, Delim::Brace, g3);
    push_punct(out, '#', false);
    let mut g10: Vec<Tok> = Vec::new();
    assert(toks_model(g10@) =~= Seq::<TokModel>::empty());
    push_ident(&mut g10, "doc");
    push_punct(&mut g10, '=', false);
    push_literal(&mut g10, "\" Get total count across all states.\"");
    push_group(out, Delim::Bracket, g10);
    push_ident(out, "pub");
    push_ident(out, "fn");
    push_ident(out, method_name_of(col, "_len").as_str());
    let mut g11: Vec<Tok> = Vec::new();
    assert(toks_model(g11@) =~= Seq::<TokModel>::empty());
    push_punct(&mut g11, '&', false);
    push_ident(&mut g11, "self");
    push_group(out, Delim::Paren, g11);
    push_punct(out, '-', true);
    push_punct(out, '>', false);
    push_ident(out, "usize");
    let mut g12: Vec<Tok> = Vec::new();
    assert(toks_model(g12@) =~= Seq::<TokModel>::empty());
    emit_len_terms(&mut g12, states, col);
    push_group(out, Delim::Brace, g12);
    emit_queue_states_methods(out, states, col, prefix, ts);
}

/// The handles of a map collection, one per state.
pub open spec fn map_handles_after(o: Seq<TokModel>, items: Seq<StateModel>, prefix: Seq<char>, kt: Seq<Tok>, ts: Seq<TransitionModel>, states: Seq<StateModel>, err: Seq<char>) -> Seq<TokModel>
    decreases items.len(),
{
    if items.len() == 0 {
        o
    } else {
        let o = map_handles_after(o, items.drop_last(), prefix, kt, ts, states, err);
        map_handle_after(o, items.last(), prefix, kt, ts, states, err)
    }
}

fn emit_map_handles(out: &mut Vec<Tok>, items: &Vec<TypedState>, prefix: &str, kt: &Vec<Tok>, ts: &Vec<TypedTransition>, states: &Vec<TypedState>, err: &str)
    ensures
        toks_model(final(out)@) == map_handles_after(toks_model(old(out)@), states_model(items@), prefix@, kt@, transitions_model(ts@), states_model(states@), err@),
{
    let ghost o = toks_model(out@);
    let ghost v = states_model(items@);
    let mut i: usize = 0;
    assert(v.take(0) =~= Seq::<StateModel>::empty());
    while i < items.len()
        invariant
            i <= items@.len(),
            v == states_model(items@),
            v.len() == items@.len(),
            toks_model(out@) == map_handles_after(o, v.take(i as int), prefix@, kt@, transitions_model(ts@), states_model(states@), err@),
        decreases items.len() - i,
    {
        assert(v.take(i + 1).drop_last() =~= v.take(i as int));
        assert(v.take(i + 1).last() == v[i as int]);
        emit_map_handle(out, &items[i], prefix, kt, ts, states, err);
        i += 1;
    }
    assert(v.take(i as int) =~= v);
}

/// The handles of a queue collection, one per state.
pub open spec fn queue_handles_after(o: Seq<TokModel>, items: Seq<StateModel>, prefix: Seq<char>, k: Seq<char>, kt: Seq<Tok>, ts: Seq<TransitionModel>, states: Seq<StateModel>, err: Seq<char>) -> Seq<TokModel>
    decreases items.len(),
{
    if items.len() == 0 {
        o
    } else {
        let o = queue_handles_after(o, items.drop_last(), prefix, k, kt, ts, states, err);
        queue_handle_after(o, items.last(), prefix, k, kt, ts, states, err)
    }
}

fn emit_queue_handles(out: &mut Vec<Tok>, items: &Vec<TypedState>, prefix: &str, k: &str, kt: &Vec<Tok>, ts: &Vec<TypedTransition>, states: &Vec<TypedState>, err: &str)
    ensures
        toks_model(final(out)@) == queue_handles_after(toks_model(old(out)@), states_model(items@), prefix@, k@, kt@, transitions_model(ts@), states_model(states@), err@),
{
    let ghost o = toks_model(out@);
    let ghost v = states_model(items@);
    let mut i: usize = 0;
    assert(v.take(0) =~= Seq::<StateModel>::empty());
    while i < items.len()
        invariant
            i <= items@.len(),
            v == states_model(items@),
            v.len() == items@.len(),
            toks_model(out@) == queue_handles_after(o, v.take(i as int), prefix@, k@, kt@, transitions_model(ts@), states_model(states@), err@),
        decreases items.len() - i,
    {
        assert(v.take(i + 1).drop_last() =~= v.take(i as int));
        assert(v.take(i + 1).last() == v[i as int]);
        emit_queue_handle(out, &items[i], prefix, k, kt, ts, states, err);
        i += 1;
    }
    assert(v.take(i as int) =~= v);
}

/// The types of a map collection: its state structs and its handles.
pub open spec fn map_collection_types_after(o: Seq<TokModel>, col: Seq<char>, prefix: Seq<char>, kt: Seq<Tok>, states: Seq<StateModel>, ts: Seq<TransitionModel>, err: Seq<char>) -> Seq<TokModel> {
    let o = map_states_after(o, states, prefix);
    let o = map_handles_after(o, states, prefix, kt, ts, states, err);
    o
}

fn emit_map_collection_types(out: &mut Vec<Tok>, col: &str, prefix: &str, kt: &Vec<Tok>, states: &Vec<TypedState>, ts: &Vec<TypedTransition>, err: &str)
    ensures
        toks_model(final(out)@) == map_collection_types_after(toks_model(old(out)@), col@, prefix@, kt@, states_model(states@), transitions_model(ts@), err@),
{
    emit_map_states(out, states, prefix);
    emit_map_handles(out, states, prefix, kt, ts, states, err);
}

/// The types of a queue collection: its state structs and its handles.
pub open spec fn queue_collection_types_after(o: Seq<TokModel>, col: Seq<char>, prefix: Seq<char>, k: Seq<char>, kt: Seq<Tok>, states: Seq<StateModel>, ts: Seq<TransitionModel>, err: Seq<char>) -> Seq<TokModel> {
    let o = queue_states_after(o, states, prefix, k, kt);
    let o = queue_handles_after(o, states, prefix, k, kt, ts, states, err);
    o
}

fn emit_queue_collection_types(out: &mut Vec<Tok>, col: &str, prefix: &str, k: &str, kt: &Vec<Tok>, states: &Vec<TypedState>, ts: &Vec<TypedTransition>, err: &str)
    ensures
        toks_model(final(out)@) == queue_collection_types_after(toks_model(old(out)@), col@, prefix@, k@, kt@, states_model(states@), transitions_model(ts@), err@),
{
    emit_queue_states(out, states, prefix, k, kt);
    emit_queue_handles(out, states, prefix, k, kt, ts, states, err);
}

/// The store fields of a queue collection: one queue per state and the key counter, each followed by `,`.
pub open spec fn queue_collection_fields_after(o: Seq<TokModel>, col: Seq<char>, prefix: Seq<char>, kt: Seq<Tok>, states: Seq<StateModel>) -> Seq<TokModel> {
    let o = queue_store_fields_after(o, states, col, prefix);
    let o = o.push(id(col + "_next_id"@)).push(pa(':')).push(id("std"@)).push(pj(':')).push(pa(':')).push(id("sync"@)).push(pj(':')).push(pa(':')).push(id("Arc"@)).push(pa('<')).push(id("std"@)).push(pj(':')).push(pa(':')).push(id("sync"@)).push(pj(':')).push(pa(':')).push(id("Mutex"@)).push(pa('<'));
    let o = o + toks_model(kt);
    let o = o.push(pa('>')).push(pa('>')).push(pa(','));
    o
}

fn emit_queue_collection_fields(out: &mut Vec<Tok>, col: &str, prefix: &str, kt: &Vec<Tok>, states: &Vec<TypedState>)
    ensures
        toks_model(final(out)@) == queue_collection_fields_after(toks_model(old(out)@), col@, prefix@, kt@, states_model(states@)),
{
    emit_queue_store_fields(out, states, col, prefix);
    push_ident(out, method_name_of(col, "_next_id").as_str());
    push_punct(out, ':', false);
    push_ident(out, "std");
    push_punct(out, ':', true);
    push_punct(out, ':', false);
    push_ident(out, "sync");
    push_punct(out, ':', true);
    push_punct(out, ':', false);
    push_ident(out, "Arc");
    push_punct(out, '<', false);
    push_ident(out, "std");
    push_punct(out, ':', true);
    push_punct(out, ':', false);
    push_ident(out, "sync");
    push_punct(out, ':', true);
    push_punct(out, ':', false);
    push_ident(out, "Mutex");
    push_punct(out, '<', false);
    push_all(out, copy_toks(kt));
    push_punct(out, '>', false);
    push_punct(out, '>', false);
    push_punct(out, ',', false);
}

/// The store fields of a queue collection starting empty, the key counter at its default, each followed by `,`.
pub open spec fn queue_collection_inits_after(o: Seq<TokModel>, col: Seq<char>, states: Seq<StateModel>) -> Seq<TokModel> {
    let o = queue_store_inits_after(o, states, col);
    let o = o.push(id(col + "_next_id"@)).push(pa(':')).push(id("std"@)).push(pj(':')).push(pa(':')).push(id("sync"@)).push(pj(':')).push(pa(':')).push(id("Arc"@)).push(pj(':')).push(pa(':')).push(id("new"@)).push(grp(Delim::Paren, {
        let inner = Seq::<TokModel>::empty();
        let inner = inner.push(id("std"@)).push(pj(':')).push(pa(':')).push(id("sync"@)).push(pj(':')).push(pa(':')).push(id("Mutex"@)).push(pj(':')).push(pa(':')).push(id("new"@)).push(grp(Delim::Paren, {
        let inner = Seq::<TokModel>::empty();
        let inner = inner.push(id("Default"@)).push(pj(':')).push(pa(':')).push(id("default"@)).push(grp(Delim::Paren, {
        let inner = Seq::<TokModel>::empty();

        inner
    }));
        inner
    }));
        inner
    })).push(pa(','));
    o
}

fn emit_queue_collection_inits(out: &mut Vec<Tok>, col: &str, states: &Vec<TypedState>)
    ensures
        toks_model(final(out)@) == queue_collection_inits_after(toks_model(old(out)@), col@, states_model(states@)),
{
    emit_queue_store_inits(out, states, col);
    push_ident(out, method_name_of(col, "_next_id").as_str());
    push_punct(out, ':', false);
    push_ident(out, "std");
    push_punct(out, ':', true);
    push_punct(out, ':', false);
    push_ident(out, "sync");
    push_punct(out, ':', true);
    push_punct(out, ':', false);
    push_ident(out, "Arc");
    push_punct(out, ':', true);
    push_punct(out, ':', false);
    push_ident(out, "new");
    let mut g1: Vec<Tok> = Vec::new();
    assert(toks_model(g1@) =~= Seq::<TokModel>::empty());
    push_ident(&mut g1, "std");
    push_punct(&mut g1, ':', true);
    push_punct(&mut g1, ':', false);
    push_ident(&mut g1, "sync");
    push_punct(&mut g1, ':', true);
    push_punct(&mut g1, ':', false);
    push_ident(&mut g1, "Mutex");
    push_punct(&mut g1, ':', true);
    push_punct(&mut g1, ':', false);
    push_ident(&mut g1, "new");
    let mut g2: Vec<Tok> = Vec::new();
    assert(toks_model(g2@) =~= Seq::<TokModel>::empty());
    push_ident(&mut g2, "Default");
    push_punct(&mut g2, ':', true);
    push_punct(&mut g2, ':', false);
    push_ident(&mut g2, "default");
    let mut g3: Vec<Tok> = Vec::new();
    assert(toks_model(g3@) =~= Seq::<TokModel>::empty());
    push_group(&mut g2, Delim::Paren, g3);
    push_group(&mut g1, Delim::Paren, g2);
    push_group(out, Delim::Paren, g1);
    push_punct(out, ',', false);
}

/// The types of every collection, in order.
pub open spec fn collections_types_after(o: Seq<TokModel>, items: Seq<CollectionModel>, err: Seq<char>) -> Seq<TokModel>
    decreases items.len(),
{
    if items.len() == 0 {
        o
    } else {
        let o = collections_types_after(o, items.drop_last(), err);
        collection_types_after(o, items.last(), err)
    }
}

fn emit_collections_types(out: &mut Vec<Tok>, items: &Vec<TypedCollection>, err: &str)
    ensures
        toks_model(final(out)@) == collections_types_after(toks_model(old(out)@), collections_model(items@), err@),
{
    let ghost o = toks_model(out@);
    let ghost v = collections_model(items@);
    let mut i: usize = 0;
    assert(v.take(0) =~= Seq::<CollectionModel>::empty());
    while i < items.len()
        invariant
            i <= items@.len(),
            v == collections_model(items@),
            v.len() == items@.len(),
            toks_model(out@) == collections_types_after(o, v.take(i as int), err@),
        decreases items.len() - i,
    {
        assert(v.take(i + 1).drop_last() =~= v.take(i as int));
        assert(v.take(i + 1).last() == v[i as int]);
        emit_collection_types(out, &items[i], err);
        i += 1;
    }
    assert(v.take(i as int) =~= v);
}

/// The store fields of every collection, in order.
pub open spec fn collections_fields_after(o: Seq<TokModel>, items: Seq<CollectionModel>) -> Seq<TokModel>
    decreases items.len(),
{
    if items.len() == 0 {
        o
    } else {
        let o = collections_fields_after(o, items.drop_last());
        collection_fields_after(o, items.last())
    }
}

fn emit_collections_fields(out: &mut Vec<Tok>, items: &Vec<TypedCollection>)
    ensures
        toks_model(final(out)@) == collections_fields_after(toks_model(old(out)@), collections_model(items@)),
{
    let ghost o = toks_model(out@);
    let ghost v = collections_model(items@);
    let mut i: usize = 0;
    assert(v.take(0) =~= Seq::<CollectionModel>::empty());
    while i < items.len()
        invariant
            i <= items@.len(),
            v == collections_model(items@),
            v.len() == items@.len(),
            toks_model(out@) == collections_fields_after(o, v.take(i as int)),
        decreases items.len() - i,
    {
        assert(v.take(i + 1).drop_last() =~= v.take(i as int));
        assert(v.take(i + 1).last() == v[i as int]);
        emit_collection_fields(out, &items[i]);
        i += 1;
    }
    assert(v.take(i as int) =~= v);
}

/// The store field initialisers of every collection, in order.
pub open spec fn collections_inits_after(o: Seq<TokModel>, items: Seq<CollectionModel>) -> Seq<TokModel>
    decreases items.len(),
{
    if items.len() == 0 {
        o
    } else {
        let o = collections_inits_after(o, items.drop_last());
        collection_inits_after(o, items.last())
    }
}

fn emit_collections_inits(out: &mut Vec<Tok>, items: &Vec<TypedCollection>)
    ensures
        toks_model(final(out)@) == collections_inits_after(toks_model(old(out)@), collections_model(items@)),
{
    let ghost o = toks_model(out@);
    let ghost v = collections_model(items@);
    let mut i: usize = 0;
    assert(v.take(0) =~= Seq::<CollectionModel>::empty());
    while i < items.len()
        invariant
            i <= items@.len(),
            v == collections_model(items@),
            v.len() == items@.len(),
            toks_model(out@) == collections_inits_after(o, v.take(i as int)),
        decreases items.len() - i,
    {
        assert(v.take(i + 1).drop_last() =~= v.take(i as int));
        assert(v.take(i + 1).last() == v[i as int]);
        emit_collection_inits(out, &items[i]);
        i += 1;
    }
    assert(v.take(i as int) =~= v);
}

/// The store methods of every collection, in order.
pub open spec fn collections_methods_after(o: Seq<TokModel>, items: Seq<CollectionModel>) -> Seq<TokModel>
    decreases items.len(),
{
    if items.len() == 0 {
        o
    } else {
        let o = collections_methods_after(o, items.drop_last());
        collection_methods_after(o, items.last())
    }
}

fn emit_collections_methods(out: &mut Vec<Tok>, items: &Vec<TypedCollection>)
    ensures
        toks_model(final(out)@) == collections_methods_after(toks_model(old(out)@), collections_model(items@)),
{
    let ghost o = toks_model(out@);
    let ghost v = collections_model(items@);
    let mut i: usize = 0;
    assert(v.take(0) =~= Seq::<CollectionModel>::empty());
    while i < items.len()
        invariant
            i <= items@.len(),
            v == collections_model(items@),
            v.len() == items@.len(),
            toks_model(out@) == collections_methods_after(o, v.take(i as int)),
        decreases items.len() - i,
    {
        assert(v.take(i + 1).drop_last() =~= v.take(i as int));
        assert(v.take(i + 1).last() == v[i as int]);
        emit_collection_methods(out, &items[i]);
        i += 1;
    }
    assert(v.take(i as int) =~= v);
}

/// The items of a store: its error type, with `Display` and `Error`, the types of each collection, then the one store struct holding the collections of all of them, with `new` and the methods of each.
pub open spec fn store_body_after(o: Seq<TokModel>, vis: Seq<Tok>, store: Seq<char>, cols: Seq<CollectionModel>, err: Seq<char>) -> Seq<TokModel> {
    let o = o.push(pa('#')).push(grp(Delim::Bracket, {
        let inner = Seq::<TokModel>::empty();
        let inner = inner.push(id("derive"@)).push(grp(Delim::Paren, {
        let inner = Seq::<TokModel>::empty();
        let inner = inner.push(id("Debug"@)).push(pa(',')).push(id("Clone"@)).push(pa(',')).push(id("PartialEq"@));
        inner
    }));
        inner
    }));
    let o = o + toks_model(vis);
    let o = o.push(id("enum"@)).push(id(err)).push(grp(Delim::Brace, {
        let inner = Seq::<TokModel>::empty();
        let inner = inner.push(pa('#')).push(grp(Delim::Bracket, {
        let inner = Seq::<TokModel>::empty();
        let inner = inner.push(id("doc"@)).push(pa('=')).push(lit("\" Item not found in expected state.\""@));
        inner
    })).push(id("NotFound"@)).push(pa(',')).push(pa('#')).push(grp(Delim::Bracket, {
        let inner = Seq::<TokModel>::empty();
        let inner = inner.push(id("doc"@)).push(pa('=')).push(lit("\" Guard condition failed.\""@));
        inner
    })).push(id("GuardFailed"@)).push(pa(','));
        inner
    })).push(id("impl"@)).push(id("std"@)).push(pj(':')).push(pa(':')).push(id("fmt"@)).push(pj(':')).push(pa(':')).push(id("Display"@)).push(id("for"@)).push(id(err)).push(grp(Delim::Brace, {
        let inner = Seq::<TokModel>::empty();
        let inner = inner.push(id("fn"@)).push(id("fmt"@)).push(grp(Delim::Paren, {
        let inner = Seq::<TokModel>::empty();
        let inner = inner.push(pa('&')).push(id("self"@)).push(pa(',')).push(id("f"@)).push(pa(':')).push(pa('&')).push(id("mut"@)).push(id("std"@)).push(pj(':')).push(pa(':')).push(id("fmt"@)).push(pj(':')).push(pa(':')).push(id("Formatter"@)).push(pa('<')).push(pj('\'')).push(id("_"@)).push(pa('>'));
        inner
    })).push(pj('-')).push(pa('>')).push(id("std"@)).push(pj(':')).push(pa(':')).push(id("fmt"@)).push(pj(':')).push(pa(':')).push(id("Result"@)).push(grp(Delim::Brace, {
        let inner = Seq::<TokModel>::empty();
        let inner = inner.push(id("match"@)).push(id("self"@)).push(grp(Delim::Brace, {
        let inner = Seq::<TokModel>::empty();
        let inner = inner.push(id("Self"@)).push(pj(':')).push(pa(':')).push(id("NotFound"@)).push(pj('=')).push(pa('>')).push(id("write"@)).push(pa('!')).push(grp(Delim::Paren, {
        let inner = Seq::<TokModel>::empty();
        let inner = inner.push(id("f"@)).push(pa(',')).push(lit("\"item not found in expected state\""@));
        inner
    })).push(pa(',')).push(id("Self"@)).push(pj(':')).push(pa(':')).push(id("GuardFailed"@)).push(pj('=')).push(pa('>')).push(id("write"@)).push(pa('!')).push(grp(Delim::Paren, {
        let inner = Seq::<TokModel>::empty();
        let inner = inner.push(id("f"@)).push(pa(',')).push(lit("\"guard condition failed\""@));
        inner
    })).push(pa(','));
        inner
    }));
        inner
    }));
        inner
    })).push(id("impl"@)).push(id("std"@)).push(pj(':')).push(pa(':')).push(id("error"@)).push(pj(':'));
    let o = o.push(pa(':')).push(id("Error"@)).push(id("for"@)).push(id(err)).push(grp(Delim::Brace, {
        let inner = Seq::<TokModel>::empty();

        inner
    }));
    let o = collections_types_after(o, cols, err);
    let o = o.push(pa('#')).push(grp(Delim::Bracket, {
        let inner = Seq::<TokModel>::empty();
        let inner = inner.push(id("derive"@)).push(grp(Delim::Paren, {
        let inner = Seq::<TokModel>::empty();
        let inner = inner.push(id("Debug"@)).push(pa(',')).push(id("Clone"@)).push(pa(',')).push(id("Default"@));
        inner
    }));
        inner
    }));
    let o = o + toks_model(vis);
    let o = o.push(id("struct"@)).push(id(store)).push(grp(Delim::Brace, {
        let inner = Seq::<TokModel>::empty();
        let inner = collections_fields_after(inner, cols);
        inner
    })).push(id("impl"@)).push(id(store)).push(grp(Delim::Brace, {
        let inner = Seq::<TokModel>::empty();
        let inner = inner.push(pa('#')).push(grp(Delim::Bracket, {
        let inner = Seq::<TokModel>::empty();
        let inner = inner.push(id("doc"@)).push(pa('=')).push(lit("\" Create a new empty store.\""@));
        inner
    })).push(id("pub"@)).push(id("fn"@)).push(id("new"@)).push(grp(Delim::Paren, {
        let inner = Seq::<TokModel>::empty();

        inner
    })).push(pj('-')).push(pa('>')).push(id("Self"@)).push(grp(Delim::Brace, {
        let inner = Seq::<TokModel>::empty();
        let inner = inner.push(id("Self"@)).push(grp(Delim::Brace, {
        let inner = Seq::<TokModel>::empty();
        let inner = collections_inits_after(inner, cols);
        inner
    }));
        inner
    }));
        let inner = collections_methods_after(inner, cols);
        inner
    }));
    o
}

fn emit_store_body(out: &mut Vec<Tok>, vis: &Vec<Tok>, store: &str, cols: &Vec<TypedCollection>, err: &str)
    ensures
        toks_model(final(out)@) == store_body_after(toks_model(old(out)@), vis@, store@, collections_model(cols@), err@),
{
    push_punct(out, '#', false);
    let mut g1: Vec<Tok> = Vec::new();
    assert(toks_model(g1@) =~= Seq::<TokModel>::empty());
    push_ident(&mut g1, "derive");
    let mut g2: Vec<Tok> = Vec::new();
    assert(toks_model(g2@) =~= Seq::<TokModel>::empty());
    push_ident(&mut g2, "Debug");
    push_punct(&mut g2, ',', false);
    push_ident(&mut g2, "Clone");
    push_punct(&mut g2, ',', false);
    push_ident(&mut g2, "PartialEq");
    push_group(&mut g1, Delim::Paren, g2);
    push_group(out, Delim::Bracket, g1);
    push_all(out, copy_toks(vis));
    push_ident(out, "enum");
    push_ident(out, err);
    let mut g3: Vec<Tok> = Vec::new();
    assert(toks_model(g3@) =~= Seq::<TokModel>::empty());
    push_punct(&mut g3, '#', false);
    let mut g4: Vec<Tok> = Vec::new();
    assert(toks_model(g4@) =~= Seq::<TokModel>::empty());
    push_ident(&mut g4, "doc");
    push_punct(&mut g4, '=', false);
    push_literal(&mut g4, "\" Item not found in expected state.\"");
    push_group(&mut g3, Delim::Bracket, g4);
    push_ident(&mut g3, "NotFound");
    push_punct(&mut g3, ',', false);
    push_punct(&mut g3, '#', false);
    let mut g5: Vec<Tok> = Vec::new();
    assert(toks_model(g5@) =~= Seq::<TokModel>::empty());
    push_ident(&mut g5, "doc");
    push_punct(&mut g5, '=', false);
    push_literal(&mut g5, "\" Guard condition failed.\"");
    push_group(&mut g3, Delim::Bracket, g5);
    push_ident(&mut g3, "GuardFailed");
    push_punct(&mut g3, ',', false);
    push_group(out, Delim::Brace, g3);
    push_ident(out, "impl");
    push_ident(out, "std");
    push_punct(out, ':', true);
    push_punct(out, ':', false);
    push_ident(out, "fmt");
    push_punct(out, ':', true);
    push_punct(out, ':', false);
    push_ident(out, "Display");
    push_ident(out, "for");
    push_ident(out, err);
    let mut g6: Vec<Tok> = Vec::new();
    assert(toks_model(g6@) =~= Seq::<TokModel>::empty());
    push_ident(&mut g6, "fn");
    push_ident(&mut g6, "fmt");
    let mut g7: Vec<Tok> = Vec::new();
    assert(toks_model(g7@) =~= Seq::<TokModel>::empty());
    push_punct(&mut g7, '&', false);
    push_ident(&mut g7, "self");
    push_punct(&mut g7, ',', false);
    push_ident(&mut g7, "f");
    push_punct(&mut g7, ':', false);
    push_punct(&mut g7, '&', false);
    push_ident(&mut g7, "mut");
    push_ident(&mut g7, "std");
    push_punct(&mut g7, ':', true);
    push_punct(&mut g7, ':', false);
    push_ident(&mut g7, "fmt");
    push_punct(&mut g7, ':', true);
    push_punct(&mut g7, ':', false);
    push_ident(&mut g7, "Formatter");
    push_punct(&mut g7, '<', false);
    push_punct(&mut g7, '\'', true);
    push_ident(&mut g7, "_");
    push_punct(&mut g7, '>', false);
    push_group(&mut g6, Delim::Paren, g7);
    push_punct(&mut g6, '-', true);
    push_punct(&mut g6, '>', false);
    push_ident(&mut g6, "std");
    push_punct(&mut g6, ':', true);
    push_punct(&mut g6, ':', false);
    push_ident(&mut g6, "fmt");
    push_punct(&mut g6, ':', true);
    push_punct(&mut g6, ':', false);
    push_ident(&mut g6, "Result");
    let mut g8: Vec<Tok> = Vec::new();
    assert(toks_model(g8@) =~= Seq::<TokModel>::empty());
    push_ident(&mut g8, "match");
    push_ident(&mut g8, "self");
    let mut g9: Vec<Tok> = Vec::new();
    assert(toks_model(g9@) =~= Seq::<TokModel>::empty());
    push_ident(&mut g9, "Self");
    push_punct(&mut g9, ':', true);
    push_punct(&mut g9, ':', false);
    push_ident(&mut g9, "NotFound");
    push_punct(&mut g9, '=', true);
    push_punct(&mut g9, '>', false);
    push_ident(&mut g9, "write");
    push_punct(&mut g9, '!', false);
    let mut g10: Vec<Tok> = Vec::new();
    assert(toks_model(g10@) =~= Seq::<TokModel>::empty());
    push_ident(&mut g10, "f");
    push_punct(&mut g10, ',', false);
    push_literal(&mut g10, "\"item not found in expected state\"");
    push_group(&mut g9, Delim::Paren, g10);
    push_punct(&mut g9, ',', false);
    push_ident(&mut g9, "Self");
    push_punct(&mut g9, ':', true);
    push_punct(&mut g9, ':', false);
    push_ident(&mut g9, "GuardFailed");
    push_punct(&mut g9, '=', true);
    push_punct(&mut g9, '>', false);
    push_ident(&mut g9, "write");
    push_punct(&mut g9, '!', false);
    let mut g11: Vec<Tok> = Vec::new();
    assert(toks_model(g11@) =~= Seq::<TokModel>::empty());
    push_ident(&mut g11, "f");
    push_punct(&mut g11, ',', false);
    push_literal(&mut g11, "\"guard condition failed\"");
    push_group(&mut g9, Delim::Paren, g11);
    push_punct(&mut g9, ',', false);
    push_group(&mut g8, Delim::Brace, g9);
    push_group(&mut g6, Delim::Brace, g8);
    push_group(out, Delim::Brace, g6);
    push_ident(out, "impl");
    push_ident(out, "std");
    push_punct(out, ':', true);
    push_punct(out, ':', false);
    push_ident(out, "error");
    push_punct(out, ':', true);
    push_punct(out, ':', false);
    push_ident(out, "Error");
    push_ident(out, "for");
    push_ident(out, err);
    let mut g12: Vec<Tok> = Vec::new();
    assert(toks_model(g12@) =~= Seq::<TokModel>::empty());
    push_group(out, Delim::Brace, g12);
    emit_collections_types(out, cols, err);
    push_punct(out, '#', false);
    let mut g13: Vec<Tok> = Vec::new();
    assert(toks_model(g13@) =~= Seq::<TokModel>::empty());
    push_ident(&mut g13, "derive");
    let mut g14: Vec<Tok> = Vec::new();
    assert(toks_model(g14@) =~= Seq::<TokModel>::empty());
    push_ident(&mut g14, "Debug");
    push_punct(&mut g14, ',', false);
    push_ident(&mut g14, "Clone");
    push_punct(&mut g14, ',', false);
    push_ident(&mut g14, "Default");
    push_group(&mut g13, Delim::Paren, g14);
    push_group(out, Delim::Bracket, g13);
    push_all(out, copy_toks(vis));
    push_ident(out, "struct");
    push_ident(out, store);
    let mut g15: Vec<Tok> = Vec::new();
    assert(toks_model(g15@) =~= Seq::<TokModel>::empty());
    emit_collections_fields(&mut g15, cols);
    push_group(out, Delim::Brace, g15);
    push_ident(out, "impl");
    push_ident(out, store);
    let mut g16: Vec<Tok> = Vec::new();
    assert(toks_model(g16@) =~= Seq::<TokModel>::empty());
    push_punct(&mut g16, '#', false);
    let mut g17: Vec<Tok> = Vec::new();
    assert(toks_model(g17@) =~= Seq::<TokModel>::empty());
    push_ident(&mut g17, "doc");
    push_punct(&mut g17, '=', false);
    push_literal(&mut g17, "\" Create a new empty store.\"");
    push_group(&mut g16, Delim::Bracket, g17);
    push_ident(&mut g16, "pub");
    push_ident(&mut g16, "fn");
    push_ident(&mut g16, "new");
    let mut g18: Vec<Tok> = Vec::new();
    assert(toks_model(g18@) =~= Seq::<TokModel>::empty());
    push_group(&mut g16, Delim::Paren, g18);
    push_punct(&mut g16, '-', true);
    push_punct(&mut g16, '>', false);
    push_ident(&mut g16, "Self");
    let mut g19: Vec<Tok> = Vec::new();
    assert(toks_model(g19@) =~= Seq::<TokModel>::empty());
    push_ident(&mut g19, "Self");
    let mut g20: Vec<Tok> = Vec::new();
    assert(toks_model(g20@) =~= Seq::<TokModel>::empty());
    emit_collections_inits(&mut g20, cols);
    push_group(&mut g19, Delim::Brace, g20);
    push_group(&mut g16, Delim::Brace, g19);
    emit_collections_methods(&mut g16, cols);
    push_group(out, Delim::Brace, g16);
}

/// A new queue item of a state without fields: its key and nothing else.
pub open spec fn pushed_unit_value_after(o: Seq<TokModel>, tt: Seq<char>, k: Seq<char>) -> Seq<TokModel> {
    let o = o.push(id(tt)).push(grp(Delim::Brace, {
        let inner = Seq::<TokModel>::empty();
        let inner = inner.push(id(k)).push(pa(':')).push(id("id"@));
        inner
    }));
    o
}

fn emit_pushed_unit_value(out: &mut Vec<Tok>, tt: &str, k: &str)
    ensures
        toks_model(final(out)@) == pushed_unit_value_after(toks_model(old(out)@), tt@, k@),
{
    push_ident(out, tt);
    let mut g1: Vec<Tok> = Vec::new();
    assert(toks_model(g1@) =~= Seq::<TokModel>::empty());
    push_ident(&mut g1, k);
    push_punct(&mut g1, ':', false);
    push_ident(&mut g1, "id");
    push_group(out, Delim::Brace, g1);
}

/// A new queue item: its key, every other field defaulted.
pub open spec fn pushed_default_value_after(o: Seq<TokModel>, tt: Seq<char>, k: Seq<char>, f: Seq<FieldModel>) -> Seq<TokModel> {
    let o = o.push(id(tt)).push(grp(Delim::Brace, {
        let inner = Seq::<TokModel>::empty();
        let inner = inner.push(id(k)).push(pa(':')).push(id("id"@)).push(pa(','));
        let inner = default_inits_after(inner, f);
        inner
    }));
    o
}

fn emit_pushed_default_value(out: &mut Vec<Tok>, tt: &str, k: &str, f: &Vec<TypedField>)
    ensures
        toks_model(final(out)@) == pushed_default_value_after(toks_model(old(out)@), tt@, k@, fields_model(f@)),
{
    push_ident(out, tt);
    let mut g1: Vec<Tok> = Vec::new();
    assert(toks_model(g1@) =~= Seq::<TokModel>::empty());
    push_ident(&mut g1, k);
    push_punct(&mut g1, ':', false);
    push_ident(&mut g1, "id");
    push_punct(&mut g1, ',', false);
    emit_default_inits(&mut g1, f);
    push_group(out, Delim::Brace, g1);
}

} // verus!
