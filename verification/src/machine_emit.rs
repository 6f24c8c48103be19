//! The items that the `state_machine!` front end generates, as token trees
//! built from a parsed definition. Every function here says exactly which
//! tokens it builds, as a model over the definition's model; the names and
//! the decisions (what a handler binds, how it fails, which hooks it runs)
//! come from [`crate::machine_codegen`].
//!
//! A transition's handler, as its tokens show, first refuses a state that is
//! not one of its sources, then binds what the source holds and checks the
//! guard, and only then runs the exit hooks of the state it leaves, stores the
//! new state and runs the entry hook of the target.
use vstd::prelude::*;
use crate::tokens::{Tok, TokModel, Delim, toks_model};
use crate::emit::{id, pa, pj, lit, grp, push_ident, push_punct, push_literal, push_group, push_all, copy_toks};
use crate::text::concat_text;
use crate::store_parse::FieldModel;
use crate::machine_parse::{
    StateField, State, Transition, LifecycleHook, StateMachine, ContextDef, HookKind,
    MachineStateModel, MachineTransitionModel, HookModel, MachineModel,
    state_fields_model, args_model, machine_states_model, machine_transitions_model, hooks_model, opt_toks,
};
use crate::machine_codegen::{
    pascal_case, hook_for, HookEntry, is_hook_map, exit_calls, exit_hook_calls, enter_hook_call,
    state_index, lemma_state_index_bounds, initial_index, initial_state, Binding, binding, binding_of,
    hook_binding, hook_binding_of, generated_errors, errors_model, error_types, handler_name, error_name,
    build_hook_map, state_data_name, snapshot_name, inner_name, context_name,
};

verus! {

// ---------------------------------------------------------------------------
// Literals and choices
// ---------------------------------------------------------------------------

/// A name written as a string literal.
pub open spec fn quoted(s: Seq<char>) -> Seq<char> {
    seq!['"'] + s + seq!['"']
}

fn quoted_of(s: &str) -> (r: String)
    ensures
        r@ == quoted(s@),
{
    let head = concat_text("\"", s);
    proof { reveal_strlit("\""); }
    concat_text(head.as_str(), "\"")
}

/// The type given by `type Context = ...;`, if any.
pub open spec fn context_model(c: Option<ContextDef>) -> Option<Seq<Tok>> {
    match c {
        Some(d) => Some(d.ty@),
        None => None,
    }
}

/// `o` followed by a state variant: bare without fields, else with them.
pub open spec fn m_variant_after(o: Seq<TokModel>, s: MachineStateModel) -> Seq<TokModel> {
    if s.fields.len() == 0 { m_variant_unit_after(o, s) } else { m_variant_fields_after(o, s) }
}

fn emit_m_variant(out: &mut Vec<Tok>, s: &State)
    ensures
        toks_model(final(out)@) == m_variant_after(toks_model(old(out)@), s@),
{
    if s.fields.len() == 0 { emit_m_variant_unit(out, s) } else { emit_m_variant_fields(out, s) }
}

/// `o` followed by a state's constructor: a constant without fields, else a
/// function of them.
pub open spec fn m_ctor_after(o: Seq<TokModel>, s: MachineStateModel, data: Seq<char>) -> Seq<TokModel> {
    if s.fields.len() == 0 { m_ctor_const_after(o, s, data) } else { m_ctor_fn_after(o, s, data) }
}

fn emit_m_ctor(out: &mut Vec<Tok>, s: &State, data: &str)
    ensures
        toks_model(final(out)@) == m_ctor_after(toks_model(old(out)@), s@, data@),
{
    if s.fields.len() == 0 { emit_m_ctor_const(out, s, data) } else { emit_m_ctor_fn(out, s, data) }
}

/// `o` followed by what a handler binds, as [`binding`] decides.
pub open spec fn m_bind_after(o: Seq<TokModel>, states: Seq<MachineStateModel>, sources: Seq<String>, data: Seq<char>) -> Seq<TokModel> {
    match binding(states, sources) {
        Binding::Fields(i) => m_bind_fields_after(o, states[i as int], data),
        Binding::Nothing => o,
        Binding::WholeState => m_bind_whole_after(o),
    }
}

fn emit_m_bind(out: &mut Vec<Tok>, t: &Transition, states: &Vec<State>, data: &str)
    ensures
        toks_model(final(out)@) == m_bind_after(toks_model(old(out)@), machine_states_model(states@), t@.source_states, data@),
{
    match binding_of(t, states) {
        Binding::Fields(i) => {
            proof { lemma_state_index_bounds(machine_states_model(states@), t@.source_states[0]@); }
            emit_m_bind_fields(out, &states[i], data);
        },
        Binding::Nothing => {},
        Binding::WholeState => emit_m_bind_whole(out),
    }
}

/// `o` followed by what a hook binds, as [`hook_binding`] decides.
pub open spec fn m_hook_bind_after(o: Seq<TokModel>, states: Seq<MachineStateModel>, h: HookModel, data: Seq<char>) -> Seq<TokModel> {
    match hook_binding(states, h) {
        Some(i) => m_hook_bind_fields_after(o, states[i], data),
        None => o,
    }
}

fn emit_m_hook_bind(out: &mut Vec<Tok>, h: &LifecycleHook, states: &Vec<State>, data: &str)
    ensures
        toks_model(final(out)@) == m_hook_bind_after(toks_model(old(out)@), machine_states_model(states@), h@, data@),
{
    match hook_binding_of(h, states) {
        Some(i) => {
            proof { lemma_state_index_bounds(machine_states_model(states@), h@.state@); }
            emit_m_hook_bind_fields(out, &states[i], data);
        },
        None => {},
    }
}

/// `o` followed by the exit hooks a handler runs: nothing when there are none.
pub open spec fn m_exit_after(o: Seq<TokModel>, calls: Seq<(String, String)>, data: Seq<char>) -> Seq<TokModel> {
    if calls.len() == 0 { o } else { m_exit_match_after(o, calls, data) }
}

fn emit_m_exit(out: &mut Vec<Tok>, calls: &Vec<(String, String)>, data: &str)
    ensures
        toks_model(final(out)@) == m_exit_after(toks_model(old(out)@), calls@, data@),
{
    if calls.len() > 0 {
        emit_m_exit_match(out, calls, data);
    }
}

/// `o` followed by the entry hook call a handler makes, if any.
pub open spec fn m_enter_after(o: Seq<TokModel>, h: Option<String>) -> Seq<TokModel> {
    match h {
        Some(h) => m_enter_call_after(o, h@),
        None => o,
    }
}

fn emit_m_enter(out: &mut Vec<Tok>, h: &Option<String>)
    ensures
        toks_model(final(out)@) == m_enter_after(toks_model(old(out)@), *h),
{
    match h {
        Some(h) => emit_m_enter_call(out, h.as_str()),
        None => {},
    }
}

/// `o` followed by a token list, if there is one.
pub open spec fn m_opt_after(o: Seq<TokModel>, t: Option<Seq<Tok>>) -> Seq<TokModel> {
    match t {
        Some(t) => o + toks_model(t),
        None => o,
    }
}

fn emit_m_opt(out: &mut Vec<Tok>, t: &Option<Vec<Tok>>)
    ensures
        toks_model(final(out)@) == m_opt_after(toks_model(old(out)@), opt_toks(*t)),
{
    match t {
        Some(t) => push_all(out, copy_toks(t)),
        None => {},
    }
}

/// `o` followed by the guard check of a handler with a user error type, if
/// the transition has a guard.
pub open spec fn m_user_guard_opt_after(o: Seq<TokModel>, g: Option<Seq<Tok>>) -> Seq<TokModel> {
    match g {
        Some(g) => m_user_guard_after(o, g),
        None => o,
    }
}

fn emit_m_user_guard_opt(out: &mut Vec<Tok>, g: &Option<Vec<Tok>>)
    ensures
        toks_model(final(out)@) == m_user_guard_opt_after(toks_model(old(out)@), opt_toks(*g)),
{
    match g {
        Some(g) => emit_m_user_guard(out, g),
        None => {},
    }
}

/// `o` followed by the guard check of a handler with a generated error
/// type, if the transition has a guard.
pub open spec fn m_gen_guard_opt_after(o: Seq<TokModel>, g: Option<Seq<Tok>>, en: Seq<char>) -> Seq<TokModel> {
    match g {
        Some(g) => m_gen_guard_after(o, g, en),
        None => o,
    }
}

fn emit_m_gen_guard_opt(out: &mut Vec<Tok>, g: &Option<Vec<Tok>>, en: &str)
    ensures
        toks_model(final(out)@) == m_gen_guard_opt_after(toks_model(old(out)@), opt_toks(*g), en@),
{
    match g {
        Some(g) => emit_m_gen_guard(out, g, en),
        None => {},
    }
}

/// `o` followed by a transition's handler: one reporting the body's own
/// error when the transition has an error type, else one with its generated
/// error type.
pub open spec fn m_handler_after(o: Seq<TokModel>, t: MachineTransitionModel, data: Seq<char>, sm: Seq<char>, states: Seq<MachineStateModel>, hooks: Seq<HookModel>) -> Seq<TokModel> {
    if t.error_type is Some {
        m_user_handler_after(o, t, data, sm, states, hooks)
    } else {
        m_gen_handler_after(o, t, data, sm, states, hooks)
    }
}

fn emit_m_handler(out: &mut Vec<Tok>, t: &Transition, data: &str, sm: &str, states: &Vec<State>, hooks: &Vec<LifecycleHook>, map: &Vec<HookEntry>)
    requires
        is_hook_map(map@, hooks_model(hooks@)),
    ensures
        toks_model(final(out)@) == m_handler_after(toks_model(old(out)@), t@, data@, sm@, machine_states_model(states@), hooks_model(hooks@)),
{
    if t.error_type.is_some() {
        emit_m_user_handler(out, t, data, sm, states, hooks, map);
    } else {
        emit_m_gen_handler(out, t, data, sm, states, hooks, map);
    }
}

/// `o` followed by a generated error type: with `GuardFailed` when the
/// transition has a guard.
pub open spec fn m_error_after(o: Seq<TokModel>, e: (Seq<char>, bool)) -> Seq<TokModel> {
    if e.1 { m_error_guarded_after(o, e.0) } else { m_error_plain_after(o, e.0) }
}

fn emit_m_error(out: &mut Vec<Tok>, e: &(String, bool))
    ensures
        toks_model(final(out)@) == m_error_after(toks_model(old(out)@), (e.0@, e.1)),
{
    if e.1 { emit_m_error_guarded(out, e.0.as_str()) } else { emit_m_error_plain(out, e.0.as_str()) }
}

/// `o` followed by a transition's handle method.
pub open spec fn m_sync_method_after(o: Seq<TokModel>, t: MachineTransitionModel) -> Seq<TokModel> {
    if t.error_type is Some { m_sync_user_method_after(o, t) } else { m_sync_gen_method_after(o, t) }
}

fn emit_m_sync_method(out: &mut Vec<Tok>, t: &Transition)
    ensures
        toks_model(final(out)@) == m_sync_method_after(toks_model(old(out)@), t@),
{
    if t.error_type.is_some() { emit_m_sync_user_method(out, t) } else { emit_m_sync_gen_method(out, t) }
}

/// `o` followed by a transition's async handle method.
pub open spec fn m_async_method_after(o: Seq<TokModel>, t: MachineTransitionModel) -> Seq<TokModel> {
    if t.error_type is Some { m_async_user_method_after(o, t) } else { m_async_gen_method_after(o, t) }
}

fn emit_m_async_method(out: &mut Vec<Tok>, t: &Transition)
    ensures
        toks_model(final(out)@) == m_async_method_after(toks_model(old(out)@), t@),
{
    if t.error_type.is_some() { emit_m_async_user_method(out, t) } else { emit_m_async_gen_method(out, t) }
}

/// `o` followed by the context type: the one given, else the generated one.
pub open spec fn m_context_type_after(o: Seq<TokModel>, context: Option<Seq<Tok>>, cn: Seq<char>) -> Seq<TokModel> {
    match context {
        Some(ty) => o + toks_model(ty),
        None => o.push(id(cn)),
    }
}

fn emit_m_context_type(out: &mut Vec<Tok>, context: &Option<ContextDef>, cn: &str)
    ensures
        toks_model(final(out)@) == m_context_type_after(toks_model(old(out)@), context_model(*context), cn@),
{
    match context {
        Some(c) => push_all(out, copy_toks(&c.ty)),
        None => push_ident(out, cn),
    }
}

/// `o` followed by the generated context type, when none is given.
pub open spec fn m_context_def_after(o: Seq<TokModel>, context: Option<Seq<Tok>>, cn: Seq<char>) -> Seq<TokModel> {
    match context {
        Some(_) => o,
        None => m_context_struct_after(o, cn),
    }
}

fn emit_m_context_def(out: &mut Vec<Tok>, context: &Option<ContextDef>, cn: &str)
    ensures
        toks_model(final(out)@) == m_context_def_after(toks_model(old(out)@), context_model(*context), cn@),
{
    match context {
        Some(_) => {},
        None => emit_m_context_struct(out, cn),
    }
}

/// `o` followed by the initial state data of state `s`.
pub open spec fn m_init_after(o: Seq<TokModel>, s: MachineStateModel, data: Seq<char>) -> Seq<TokModel> {
    if s.fields.len() == 0 { m_init_unit_after(o, s, data) } else { m_init_fields_after(o, s, data) }
}

/// `o` followed by the data of the state a machine starts in.
pub open spec fn m_initial_after(o: Seq<TokModel>, states: Seq<MachineStateModel>, data: Seq<char>) -> Seq<TokModel> {
    match initial_index(states) {
        Some(i) => m_init_after(o, states[i], data),
        None => o,
    }
}

fn emit_m_initial(out: &mut Vec<Tok>, states: &Vec<State>, data: &str)
    requires
        initial_index(machine_states_model(states@)) is Some,
    ensures
        toks_model(final(out)@) == m_initial_after(toks_model(old(out)@), machine_states_model(states@), data@),
{
    let ghost sm = machine_states_model(states@);
    match initial_state(states) {
        Some(i) => {
            proof {
                assert(0 <= i < sm.len() && sm[i as int].is_initial && forall|k: int| 0 <= k < i ==> !#[trigger] sm[k].is_initial);
                let j = choose|j: int| 0 <= j < sm.len() && sm[j].is_initial && forall|k: int| 0 <= k < j ==> !#[trigger] sm[k].is_initial;
                assert(initial_index(sm) == Some(j));
                if j < i {
                    assert(!sm[j].is_initial);
                } else if i < j {
                    assert(!sm[i as int].is_initial);
                }
                assert(j == i);
            }
            if states[i].fields.len() == 0 {
                emit_m_init_unit(out, &states[i], data);
            } else {
                emit_m_init_fields(out, &states[i], data);
            }
        },
        None => {
            proof {
                let j = choose|j: int| 0 <= j < sm.len() && sm[j].is_initial && forall|k: int| 0 <= k < j ==> !#[trigger] sm[k].is_initial;
                assert(!states@[j].is_initial);
            }
        },
    }
}

/// `o` followed by the `cfg` condition of the `std` or (`asy`) the `tokio` variant.
pub open spec fn m_cfg_after(o: Seq<TokModel>, asy: bool) -> Seq<TokModel> {
    if asy { m_cfg_async_after(o) } else { m_cfg_not_async_after(o) }
}

fn emit_m_cfg(out: &mut Vec<Tok>, asy: bool)
    ensures
        toks_model(final(out)@) == m_cfg_after(toks_model(old(out)@), asy),
{
    if asy { emit_m_cfg_async(out) } else { emit_m_cfg_not_async(out) }
}

/// `o` followed by the `std` or (`asy`) the `tokio` lock type.
pub open spec fn m_lock_after(o: Seq<TokModel>, asy: bool) -> Seq<TokModel> {
    if asy { m_tokio_lock_after(o) } else { m_std_lock_after(o) }
}

fn emit_m_lock(out: &mut Vec<Tok>, asy: bool)
    ensures
        toks_model(final(out)@) == m_lock_after(toks_model(old(out)@), asy),
{
    if asy { emit_m_tokio_lock(out) } else { emit_m_std_lock(out) }
}

/// `o` followed by every item of a machine: its types, the inner state and
/// the handle, each in a `std` and a `tokio` variant.
pub open spec fn m_machine_after(o: Seq<TokModel>, vis: Seq<Tok>, h: Seq<char>, data: Seq<char>, snap: Seq<char>, inn: Seq<char>, cn: Seq<char>, context: Option<Seq<Tok>>, states: Seq<MachineStateModel>, ts: Seq<MachineTransitionModel>, hooks: Seq<HookModel>) -> Seq<TokModel> {
    let o = m_types_after(o, vis, h, data, snap, inn, cn, context, states, ts, hooks);
    let o = m_inner_after(o, vis, h, data, snap, inn, cn, context, states, ts, hooks, false);
    let o = m_inner_after(o, vis, h, data, snap, inn, cn, context, states, ts, hooks, true);
    let o = m_handle_type_after(o, vis, h, data, snap, inn, cn, context, states, ts, hooks, false);
    let o = m_sync_impl_after(o, vis, h, data, snap, inn, cn, context, states, ts, hooks);
    let o = m_handle_type_after(o, vis, h, data, snap, inn, cn, context, states, ts, hooks, true);
    m_async_impl_after(o, vis, h, data, snap, inn, cn, context, states, ts, hooks)
}

fn emit_m_machine(out: &mut Vec<Tok>, vis: &Vec<Tok>, h: &str, data: &str, snap: &str, inn: &str, cn: &str, context: &Option<ContextDef>, states: &Vec<State>, transitions: &Vec<Transition>, hooks: &Vec<LifecycleHook>, map: &Vec<HookEntry>)
    requires
        is_hook_map(map@, hooks_model(hooks@)),
        initial_index(machine_states_model(states@)) is Some,
    ensures
        toks_model(final(out)@) == m_machine_after(toks_model(old(out)@), vis@, h@, data@, snap@, inn@, cn@, context_model(*context), machine_states_model(states@), machine_transitions_model(transitions@), hooks_model(hooks@)),
{
    emit_m_types(out, vis, h, data, snap, inn, cn, context, states, transitions, hooks, map);
    emit_m_inner(out, vis, h, data, snap, inn, cn, context, states, transitions, hooks, map, false);
    emit_m_inner(out, vis, h, data, snap, inn, cn, context, states, transitions, hooks, map, true);
    emit_m_handle_type(out, vis, h, data, snap, inn, cn, context, states, transitions, hooks, map, false);
    emit_m_sync_impl(out, vis, h, data, snap, inn, cn, context, states, transitions, hooks, map);
    emit_m_handle_type(out, vis, h, data, snap, inn, cn, context, states, transitions, hooks, map, true);
    emit_m_async_impl(out, vis, h, data, snap, inn, cn, context, states, transitions, hooks, map);
}

// ---------------------------------------------------------------------------
// What the front end asks for
// ---------------------------------------------------------------------------

/// Every item a state machine definition generates.
pub open spec fn machine_items_model(m: MachineModel) -> Seq<TokModel> {
    m_machine_after(Seq::empty(), m.vis, m.name@, m.name@ + "StateData"@, m.name@ + "Snapshot"@,
        "__"@ + m.name@ + "Inner"@, m.name@ + "Context"@, m.context, m.states, m.transitions, m.hooks)
}

/// The items a state machine definition generates: the state data enum,
/// the snapshot, the context, the error types, the inner state with its
/// hooks and handlers, and the shared handle.
pub fn machine_items(sm: &StateMachine) -> (r: Vec<Tok>)
    requires
        initial_index(sm@.states) is Some,
    ensures
        toks_model(r@) == machine_items_model(sm@),
{
    let map = build_hook_map(&sm.hooks);
    let data = state_data_name(sm.name.as_str());
    let snap = snapshot_name(sm.name.as_str());
    let inner = inner_name(sm.name.as_str());
    let cn = context_name(sm.name.as_str());
    let mut out: Vec<Tok> = Vec::new();
    assert(sm@.context == context_model(sm.context));
    emit_m_machine(&mut out, &sm.vis, sm.name.as_str(), data.as_str(), snap.as_str(), inner.as_str(), cn.as_str(),
        &sm.context, &sm.states, &sm.transitions, &sm.hooks, &map);
    out
}

/// The handler of transition `t` of machine `sm`.
pub open spec fn handler_items_model(m: MachineModel, t: MachineTransitionModel) -> Seq<TokModel> {
    m_handler_after(Seq::empty(), t, m.name@ + "StateData"@, m.name@, m.states, m.hooks)
}

/// The handler of transition `t` of machine `sm`, given the machine's hook
/// map: in order the source test, the bindings, the guard, then the exit
/// hooks, the state update and the entry hook.
pub fn handler_items(sm: &StateMachine, t: &Transition, map: &Vec<HookEntry>) -> (r: Vec<Tok>)
    requires
        is_hook_map(map@, hooks_model(sm.hooks@)),
    ensures
        toks_model(r@) == handler_items_model(sm@, t@),
{
    let data = state_data_name(sm.name.as_str());
    let mut out: Vec<Tok> = Vec::new();
    emit_m_handler(&mut out, t, data.as_str(), sm.name.as_str(), &sm.states, &sm.hooks, map);
    out
}
/// A state field as a declaration: `name: type`.
pub open spec fn m_field_decl_after(o: Seq<TokModel>, e: FieldModel) -> Seq<TokModel> {
    let o = o.push(id(e.name@)).push(pa(':'));
    let o = o + toks_model(e.ty);
    o
}

fn emit_m_field_decl(out: &mut Vec<Tok>, e: &StateField)
    ensures
        toks_model(final(out)@) == m_field_decl_after(toks_model(old(out)@), e@),
{
    push_ident(out, e.name.as_str());
    push_punct(out, ':', false);
    push_all(out, copy_toks(&e.ty));
}

/// State fields as declarations, separated by `,`.
pub open spec fn m_field_decls_after(o: Seq<TokModel>, items: Seq<FieldModel>) -> Seq<TokModel>
    decreases items.len(),
{
    if items.len() == 0 {
        o
    } else {
        let o = m_field_decls_after(o, items.drop_last());
        let o = if items.len() > 1 { o.push(pa(',')) } else { o };
        m_field_decl_after(o, items.last())
    }
}

fn emit_m_field_decls(out: &mut Vec<Tok>, items: &Vec<StateField>)
    ensures
        toks_model(final(out)@) == m_field_decls_after(toks_model(old(out)@), state_fields_model(items@)),
{
    let ghost o = toks_model(out@);
    let ghost v = state_fields_model(items@);
    let mut i: usize = 0;
    assert(v.take(0) =~= Seq::<FieldModel>::empty());
    while i < items.len()
        invariant
            i <= items@.len(),
            v == state_fields_model(items@),
            v.len() == items@.len(),
            toks_model(out@) == m_field_decls_after(o, v.take(i as int)),
        decreases items.len() - i,
    {
        assert(v.take(i + 1).drop_last() =~= v.take(i as int));
        assert(v.take(i + 1).last() == v[i as int]);
        if i > 0 {
            push_punct(out, ',', false);
        }
        emit_m_field_decl(out, &items[i]);
        i += 1;
    }
    assert(v.take(i as int) =~= v);
}

/// A state field's name.
pub open spec fn m_field_name_after(o: Seq<TokModel>, e: FieldModel) -> Seq<TokModel> {
    let o = o.push(id(e.name@));
    o
}

fn emit_m_field_name(out: &mut Vec<Tok>, e: &StateField)
    ensures
        toks_model(final(out)@) == m_field_name_after(toks_model(old(out)@), e@),
{
    push_ident(out, e.name.as_str());
}

/// State fields' names, separated by `,`.
pub open spec fn m_field_names_after(o: Seq<TokModel>, items: Seq<FieldModel>) -> Seq<TokModel>
    decreases items.len(),
{
    if items.len() == 0 {
        o
    } else {
        let o = m_field_names_after(o, items.drop_last());
        let o = if items.len() > 1 { o.push(pa(',')) } else { o };
        m_field_name_after(o, items.last())
    }
}

fn emit_m_field_names(out: &mut Vec<Tok>, items: &Vec<StateField>)
    ensures
        toks_model(final(out)@) == m_field_names_after(toks_model(old(out)@), state_fields_model(items@)),
{
    let ghost o = toks_model(out@);
    let ghost v = state_fields_model(items@);
    let mut i: usize = 0;
    assert(v.take(0) =~= Seq::<FieldModel>::empty());
    while i < items.len()
        invariant
            i <= items@.len(),
            v == state_fields_model(items@),
            v.len() == items@.len(),
            toks_model(out@) == m_field_names_after(o, v.take(i as int)),
        decreases items.len() - i,
    {
        assert(v.take(i + 1).drop_last() =~= v.take(i as int));
        assert(v.take(i + 1).last() == v[i as int]);
        if i > 0 {
            push_punct(out, ',', false);
        }
        emit_m_field_name(out, &items[i]);
        i += 1;
    }
    assert(v.take(i as int) =~= v);
}

/// A state field's name and `,`.
pub open spec fn m_field_name_c_after(o: Seq<TokModel>, e: FieldModel) -> Seq<TokModel> {
    let o = o.push(id(e.name@)).push(pa(','));
    o
}

fn emit_m_field_name_c(out: &mut Vec<Tok>, e: &StateField)
    ensures
        toks_model(final(out)@) == m_field_name_c_after(toks_model(old(out)@), e@),
{
    push_ident(out, e.name.as_str());
    push_punct(out, ',', false);
}

/// State fields' names, each followed by `,`.
pub open spec fn m_field_names_c_after(o: Seq<TokModel>, items: Seq<FieldModel>) -> Seq<TokModel>
    decreases items.len(),
{
    if items.len() == 0 {
        o
    } else {
        let o = m_field_names_c_after(o, items.drop_last());
        m_field_name_c_after(o, items.last())
    }
}

fn emit_m_field_names_c(out: &mut Vec<Tok>, items: &Vec<StateField>)
    ensures
        toks_model(final(out)@) == m_field_names_c_after(toks_model(old(out)@), state_fields_model(items@)),
{
    let ghost o = toks_model(out@);
    let ghost v = state_fields_model(items@);
    let mut i: usize = 0;
    assert(v.take(0) =~= Seq::<FieldModel>::empty());
    while i < items.len()
        invariant
            i <= items@.len(),
            v == state_fields_model(items@),
            v.len() == items@.len(),
            toks_model(out@) == m_field_names_c_after(o, v.take(i as int)),
        decreases items.len() - i,
    {
        assert(v.take(i + 1).drop_last() =~= v.take(i as int));
        assert(v.take(i + 1).last() == v[i as int]);
        emit_m_field_name_c(out, &items[i]);
        i += 1;
    }
    assert(v.take(i as int) =~= v);
}

/// A state field's type and `,`.
pub open spec fn m_field_type_c_after(o: Seq<TokModel>, e: FieldModel) -> Seq<TokModel> {
    let o = o + toks_model(e.ty);
    let o = o.push(pa(','));
    o
}

fn emit_m_field_type_c(out: &mut Vec<Tok>, e: &StateField)
    ensures
        toks_model(final(out)@) == m_field_type_c_after(toks_model(old(out)@), e@),
{
    push_all(out, copy_toks(&e.ty));
    push_punct(out, ',', false);
}

/// State fields' types, each followed by `,`.
pub open spec fn m_field_types_c_after(o: Seq<TokModel>, items: Seq<FieldModel>) -> Seq<TokModel>
    decreases items.len(),
{
    if items.len() == 0 {
        o
    } else {
        let o = m_field_types_c_after(o, items.drop_last());
        m_field_type_c_after(o, items.last())
    }
}

fn emit_m_field_types_c(out: &mut Vec<Tok>, items: &Vec<StateField>)
    ensures
        toks_model(final(out)@) == m_field_types_c_after(toks_model(old(out)@), state_fields_model(items@)),
{
    let ghost o = toks_model(out@);
    let ghost v = state_fields_model(items@);
    let mut i: usize = 0;
    assert(v.take(0) =~= Seq::<FieldModel>::empty());
    while i < items.len()
        invariant
            i <= items@.len(),
            v == state_fields_model(items@),
            v.len() == items@.len(),
            toks_model(out@) == m_field_types_c_after(o, v.take(i as int)),
        decreases items.len() - i,
    {
        assert(v.take(i + 1).drop_last() =~= v.take(i as int));
        assert(v.take(i + 1).last() == v[i as int]);
        emit_m_field_type_c(out, &items[i]);
        i += 1;
    }
    assert(v.take(i as int) =~= v);
}

/// A clone of the local bound to a state field, and `,`.
pub open spec fn m_field_clone_c_after(o: Seq<TokModel>, e: FieldModel) -> Seq<TokModel> {
    let o = o.push(id(e.name@)).push(pa('.')).push(id("clone"@)).push(grp(Delim::Paren, {
        let inner = Seq::<TokModel>::empty();

        inner
    })).push(pa(','));
    o
}

fn emit_m_field_clone_c(out: &mut Vec<Tok>, e: &StateField)
    ensures
        toks_model(final(out)@) == m_field_clone_c_after(toks_model(old(out)@), e@),
{
    push_ident(out, e.name.as_str());
    push_punct(out, '.', false);
    push_ident(out, "clone");
    let mut g1: Vec<Tok> = Vec::new();
    assert(toks_model(g1@) =~= Seq::<TokModel>::empty());
    push_group(out, Delim::Paren, g1);
    push_punct(out, ',', false);
}

/// Clones of the locals bound to state fields, each followed by `,`.
pub open spec fn m_field_clones_c_after(o: Seq<TokModel>, items: Seq<FieldModel>) -> Seq<TokModel>
    decreases items.len(),
{
    if items.len() == 0 {
        o
    } else {
        let o = m_field_clones_c_after(o, items.drop_last());
        m_field_clone_c_after(o, items.last())
    }
}

fn emit_m_field_clones_c(out: &mut Vec<Tok>, items: &Vec<StateField>)
    ensures
        toks_model(final(out)@) == m_field_clones_c_after(toks_model(old(out)@), state_fields_model(items@)),
{
    let ghost o = toks_model(out@);
    let ghost v = state_fields_model(items@);
    let mut i: usize = 0;
    assert(v.take(0) =~= Seq::<FieldModel>::empty());
    while i < items.len()
        invariant
            i <= items@.len(),
            v == state_fields_model(items@),
            v.len() == items@.len(),
            toks_model(out@) == m_field_clones_c_after(o, v.take(i as int)),
        decreases items.len() - i,
    {
        assert(v.take(i + 1).drop_last() =~= v.take(i as int));
        assert(v.take(i + 1).last() == v[i as int]);
        emit_m_field_clone_c(out, &items[i]);
        i += 1;
    }
    assert(v.take(i as int) =~= v);
}

/// A state field built with its default.
pub open spec fn m_default_init_after(o: Seq<TokModel>, e: FieldModel) -> Seq<TokModel> {
    let o = o.push(id(e.name@)).push(pa(':')).push(id("Default"@)).push(pj(':')).push(pa(':')).push(id("default"@)).push(grp(Delim::Paren, {
        let inner = Seq::<TokModel>::empty();

        inner
    }));
    o
}

fn emit_m_default_init(out: &mut Vec<Tok>, e: &StateField)
    ensures
        toks_model(final(out)@) == m_default_init_after(toks_model(old(out)@), e@),
{
    push_ident(out, e.name.as_str());
    push_punct(out, ':', false);
    push_ident(out, "Default");
    push_punct(out, ':', true);
    push_punct(out, ':', false);
    push_ident(out, "default");
    let mut g1: Vec<Tok> = Vec::new();
    assert(toks_model(g1@) =~= Seq::<TokModel>::empty());
    push_group(out, Delim::Paren, g1);
}

/// State fields built with their defaults, separated by `,`.
pub open spec fn m_default_inits_after(o: Seq<TokModel>, items: Seq<FieldModel>) -> Seq<TokModel>
    decreases items.len(),
{
    if items.len() == 0 {
        o
    } else {
        let o = m_default_inits_after(o, items.drop_last());
        let o = if items.len() > 1 { o.push(pa(',')) } else { o };
        m_default_init_after(o, items.last())
    }
}

fn emit_m_default_inits(out: &mut Vec<Tok>, items: &Vec<StateField>)
    ensures
        toks_model(final(out)@) == m_default_inits_after(toks_model(old(out)@), state_fields_model(items@)),
{
    let ghost o = toks_model(out@);
    let ghost v = state_fields_model(items@);
    let mut i: usize = 0;
    assert(v.take(0) =~= Seq::<FieldModel>::empty());
    while i < items.len()
        invariant
            i <= items@.len(),
            v == state_fields_model(items@),
            v.len() == items@.len(),
            toks_model(out@) == m_default_inits_after(o, v.take(i as int)),
        decreases items.len() - i,
    {
        assert(v.take(i + 1).drop_last() =~= v.take(i as int));
        assert(v.take(i + 1).last() == v[i as int]);
        if i > 0 {
            push_punct(out, ',', false);
        }
        emit_m_default_init(out, &items[i]);
        i += 1;
    }
    assert(v.take(i as int) =~= v);
}

/// A transition argument as a declaration: `name: type`.
pub open spec fn m_arg_decl_after(o: Seq<TokModel>, e: FieldModel) -> Seq<TokModel> {
    let o = o.push(id(e.name@)).push(pa(':'));
    let o = o + toks_model(e.ty);
    o
}

fn emit_m_arg_decl(out: &mut Vec<Tok>, e: &(String, Vec<Tok>))
    ensures
        toks_model(final(out)@) == m_arg_decl_after(toks_model(old(out)@), FieldModel { name: e.0, ty: e.1@ }),
{
    push_ident(out, e.0.as_str());
    push_punct(out, ':', false);
    push_all(out, copy_toks(&e.1));
}

/// A transition's arguments as declarations, separated by `,`.
pub open spec fn m_arg_decls_after(o: Seq<TokModel>, items: Seq<FieldModel>) -> Seq<TokModel>
    decreases items.len(),
{
    if items.len() == 0 {
        o
    } else {
        let o = m_arg_decls_after(o, items.drop_last());
        let o = if items.len() > 1 { o.push(pa(',')) } else { o };
        m_arg_decl_after(o, items.last())
    }
}

fn emit_m_arg_decls(out: &mut Vec<Tok>, items: &Vec<(String, Vec<Tok>)>)
    ensures
        toks_model(final(out)@) == m_arg_decls_after(toks_model(old(out)@), args_model(items@)),
{
    let ghost o = toks_model(out@);
    let ghost v = args_model(items@);
    let mut i: usize = 0;
    assert(v.take(0) =~= Seq::<FieldModel>::empty());
    while i < items.len()
        invariant
            i <= items@.len(),
            v == args_model(items@),
            v.len() == items@.len(),
            toks_model(out@) == m_arg_decls_after(o, v.take(i as int)),
        decreases items.len() - i,
    {
        assert(v.take(i + 1).drop_last() =~= v.take(i as int));
        assert(v.take(i + 1).last() == v[i as int]);
        if i > 0 {
            push_punct(out, ',', false);
        }
        emit_m_arg_decl(out, &items[i]);
        i += 1;
    }
    assert(v.take(i as int) =~= v);
}

/// A transition argument's name.
pub open spec fn m_arg_name_after(o: Seq<TokModel>, e: FieldModel) -> Seq<TokModel> {
    let o = o.push(id(e.name@));
    o
}

fn emit_m_arg_name(out: &mut Vec<Tok>, e: &(String, Vec<Tok>))
    ensures
        toks_model(final(out)@) == m_arg_name_after(toks_model(old(out)@), FieldModel { name: e.0, ty: e.1@ }),
{
    push_ident(out, e.0.as_str());
}

/// A transition's argument names, separated by `,`.
pub open spec fn m_arg_names_after(o: Seq<TokModel>, items: Seq<FieldModel>) -> Seq<TokModel>
    decreases items.len(),
{
    if items.len() == 0 {
        o
    } else {
        let o = m_arg_names_after(o, items.drop_last());
        let o = if items.len() > 1 { o.push(pa(',')) } else { o };
        m_arg_name_after(o, items.last())
    }
}

fn emit_m_arg_names(out: &mut Vec<Tok>, items: &Vec<(String, Vec<Tok>)>)
    ensures
        toks_model(final(out)@) == m_arg_names_after(toks_model(old(out)@), args_model(items@)),
{
    let ghost o = toks_model(out@);
    let ghost v = args_model(items@);
    let mut i: usize = 0;
    assert(v.take(0) =~= Seq::<FieldModel>::empty());
    while i < items.len()
        invariant
            i <= items@.len(),
            v == args_model(items@),
            v.len() == items@.len(),
            toks_model(out@) == m_arg_names_after(o, v.take(i as int)),
        decreases items.len() - i,
    {
        assert(v.take(i + 1).drop_last() =~= v.take(i as int));
        assert(v.take(i + 1).last() == v[i as int]);
        if i > 0 {
            push_punct(out, ',', false);
        }
        emit_m_arg_name(out, &items[i]);
        i += 1;
    }
    assert(v.take(i as int) =~= v);
}

/// A pattern matching a source state whatever its fields.
pub open spec fn m_source_pat_after(o: Seq<TokModel>, e: String, data: Seq<char>) -> Seq<TokModel> {
    let o = o.push(id(data)).push(pj(':')).push(pa(':')).push(id(e@)).push(grp(Delim::Brace, {
        let inner = Seq::<TokModel>::empty();
        let inner = inner.push(pj('.')).push(pa('.'));
        inner
    }));
    o
}

fn emit_m_source_pat(out: &mut Vec<Tok>, e: &String, data: &str)
    ensures
        toks_model(final(out)@) == m_source_pat_after(toks_model(old(out)@), *e, data@),
{
    push_ident(out, data);
    push_punct(out, ':', true);
    push_punct(out, ':', false);
    push_ident(out, e.as_str());
    let mut g1: Vec<Tok> = Vec::new();
    assert(toks_model(g1@) =~= Seq::<TokModel>::empty());
    push_punct(&mut g1, '.', true);
    push_punct(&mut g1, '.', false);
    push_group(out, Delim::Brace, g1);
}

/// The patterns of a transition's source states, joined by `|`.
pub open spec fn m_source_pats_after(o: Seq<TokModel>, items: Seq<String>, data: Seq<char>) -> Seq<TokModel>
    decreases items.len(),
{
    if items.len() == 0 {
        o
    } else {
        let o = m_source_pats_after(o, items.drop_last(), data);
        let o = if items.len() > 1 { o.push(pa('|')) } else { o };
        m_source_pat_after(o, items.last(), data)
    }
}

fn emit_m_source_pats(out: &mut Vec<Tok>, items: &Vec<String>, data: &str)
    ensures
        toks_model(final(out)@) == m_source_pats_after(toks_model(old(out)@), items@, data@),
{
    let ghost o = toks_model(out@);
    let ghost v = items@;
    let mut i: usize = 0;
    assert(v.take(0) =~= Seq::<String>::empty());
    while i < items.len()
        invariant
            i <= items@.len(),
            v == items@,
            v.len() == items@.len(),
            toks_model(out@) == m_source_pats_after(o, v.take(i as int), data@),
        decreases items.len() - i,
    {
        assert(v.take(i + 1).drop_last() =~= v.take(i as int));
        assert(v.take(i + 1).last() == v[i as int]);
        if i > 0 {
            push_punct(out, '|', false);
        }
        emit_m_source_pat(out, &items[i], data);
        i += 1;
    }
    assert(v.take(i as int) =~= v);
}

/// A match arm running a source state's exit hook.
pub open spec fn m_exit_arm_after(o: Seq<TokModel>, e: (String, String), data: Seq<char>) -> Seq<TokModel> {
    let o = o.push(id(data)).push(pj(':')).push(pa(':')).push(id(e.0@)).push(grp(Delim::Brace, {
        let inner = Seq::<TokModel>::empty();
        let inner = inner.push(pj('.')).push(pa('.'));
        inner
    })).push(pj('=')).push(pa('>')).push(id("self"@)).push(pa('.')).push(id(e.1@)).push(grp(Delim::Paren, {
        let inner = Seq::<TokModel>::empty();

        inner
    })).push(pa(','));
    o
}

fn emit_m_exit_arm(out: &mut Vec<Tok>, e: &(String, String), data: &str)
    ensures
        toks_model(final(out)@) == m_exit_arm_after(toks_model(old(out)@), *e, data@),
{
    push_ident(out, data);
    push_punct(out, ':', true);
    push_punct(out, ':', false);
    push_ident(out, e.0.as_str());
    let mut g1: Vec<Tok> = Vec::new();
    assert(toks_model(g1@) =~= Seq::<TokModel>::empty());
    push_punct(&mut g1, '.', true);
    push_punct(&mut g1, '.', false);
    push_group(out, Delim::Brace, g1);
    push_punct(out, '=', true);
    push_punct(out, '>', false);
    push_ident(out, "self");
    push_punct(out, '.', false);
    push_ident(out, e.1.as_str());
    let mut g2: Vec<Tok> = Vec::new();
    assert(toks_model(g2@) =~= Seq::<TokModel>::empty());
    push_group(out, Delim::Paren, g2);
    push_punct(out, ',', false);
}

/// The match arms running the exit hooks of a transition's sources.
pub open spec fn m_exit_arms_after(o: Seq<TokModel>, items: Seq<(String, String)>, data: Seq<char>) -> Seq<TokModel>
    decreases items.len(),
{
    if items.len() == 0 {
        o
    } else {
        let o = m_exit_arms_after(o, items.drop_last(), data);
        m_exit_arm_after(o, items.last(), data)
    }
}

fn emit_m_exit_arms(out: &mut Vec<Tok>, items: &Vec<(String, String)>, data: &str)
    ensures
        toks_model(final(out)@) == m_exit_arms_after(toks_model(old(out)@), items@, data@),
{
    let ghost o = toks_model(out@);
    let ghost v = items@;
    let mut i: usize = 0;
    assert(v.take(0) =~= Seq::<(String, String)>::empty());
    while i < items.len()
        invariant
            i <= items@.len(),
            v == items@,
            v.len() == items@.len(),
            toks_model(out@) == m_exit_arms_after(o, v.take(i as int), data@),
        decreases items.len() - i,
    {
        assert(v.take(i + 1).drop_last() =~= v.take(i as int));
        assert(v.take(i + 1).last() == v[i as int]);
        emit_m_exit_arm(out, &items[i], data);
        i += 1;
    }
    assert(v.take(i as int) =~= v);
}

/// The exit hooks of a transition, run on the state it leaves.
pub open spec fn m_exit_match_after(o: Seq<TokModel>, calls: Seq<(String, String)>, data: Seq<char>) -> Seq<TokModel> {
    let o = o.push(id("match"@)).push(pa('&')).push(id("self"@)).push(pa('.')).push(id("state"@)).push(grp(Delim::Brace, {
        let inner = Seq::<TokModel>::empty();
        let inner = m_exit_arms_after(inner, calls, data);
        let inner = inner.push(id("_"@)).push(pj('=')).push(pa('>')).push(grp(Delim::Brace, {
        let inner = Seq::<TokModel>::empty();

        inner
    }));
        inner
    }));
    o
}

fn emit_m_exit_match(out: &mut Vec<Tok>, calls: &Vec<(String, String)>, data: &str)
    ensures
        toks_model(final(out)@) == m_exit_match_after(toks_model(old(out)@), calls@, data@),
{
    push_ident(out, "match");
    push_punct(out, '&', false);
    push_ident(out, "self");
    push_punct(out, '.', false);
    push_ident(out, "state");
    let mut g1: Vec<Tok> = Vec::new();
    assert(toks_model(g1@) =~= Seq::<TokModel>::empty());
    emit_m_exit_arms(&mut g1, calls, data);
    push_ident(&mut g1, "_");
    push_punct(&mut g1, '=', true);
    push_punct(&mut g1, '>', false);
    let mut g2: Vec<Tok> = Vec::new();
    assert(toks_model(g2@) =~= Seq::<TokModel>::empty());
    push_group(&mut g1, Delim::Brace, g2);
    push_group(out, Delim::Brace, g1);
}

/// A call of the target state's entry hook.
pub open spec fn m_enter_call_after(o: Seq<TokModel>, h: Seq<char>) -> Seq<TokModel> {
    let o = o.push(id("self"@)).push(pa('.')).push(id(h)).push(grp(Delim::Paren, {
        let inner = Seq::<TokModel>::empty();

        inner
    })).push(pa(';'));
    o
}

fn emit_m_enter_call(out: &mut Vec<Tok>, h: &str)
    ensures
        toks_model(final(out)@) == m_enter_call_after(toks_model(old(out)@), h@),
{
    push_ident(out, "self");
    push_punct(out, '.', false);
    push_ident(out, h);
    let mut g1: Vec<Tok> = Vec::new();
    assert(toks_model(g1@) =~= Seq::<TokModel>::empty());
    push_group(out, Delim::Paren, g1);
    push_punct(out, ';', false);
}

/// A state variant without fields.
pub open spec fn m_variant_unit_after(o: Seq<TokModel>, s: MachineStateModel) -> Seq<TokModel> {
    let o = o.push(id(s.name@));
    o
}

fn emit_m_variant_unit(out: &mut Vec<Tok>, s: &State)
    ensures
        toks_model(final(out)@) == m_variant_unit_after(toks_model(old(out)@), s@),
{
    push_ident(out, s.name.as_str());
}

/// A state variant with fields.
pub open spec fn m_variant_fields_after(o: Seq<TokModel>, s: MachineStateModel) -> Seq<TokModel> {
    let o = o.push(id(s.name@)).push(grp(Delim::Brace, {
        let inner = Seq::<TokModel>::empty();
        let inner = m_field_decls_after(inner, s.fields);
        inner
    }));
    o
}

fn emit_m_variant_fields(out: &mut Vec<Tok>, s: &State)
    ensures
        toks_model(final(out)@) == m_variant_fields_after(toks_model(old(out)@), s@),
{
    push_ident(out, s.name.as_str());
    let mut g1: Vec<Tok> = Vec::new();
    assert(toks_model(g1@) =~= Seq::<TokModel>::empty());
    emit_m_field_decls(&mut g1, &s.fields);
    push_group(out, Delim::Brace, g1);
}

/// The variants of the state data enum, separated by `,`.
pub open spec fn m_variants_after(o: Seq<TokModel>, items: Seq<MachineStateModel>) -> Seq<TokModel>
    decreases items.len(),
{
    if items.len() == 0 {
        o
    } else {
        let o = m_variants_after(o, items.drop_last());
        let o = if items.len() > 1 { o.push(pa(',')) } else { o };
        m_variant_after(o, items.last())
    }
}

fn emit_m_variants(out: &mut Vec<Tok>, items: &Vec<State>)
    ensures
        toks_model(final(out)@) == m_variants_after(toks_model(old(out)@), machine_states_model(items@)),
{
    let ghost o = toks_model(out@);
    let ghost v = machine_states_model(items@);
    let mut i: usize = 0;
    assert(v.take(0) =~= Seq::<MachineStateModel>::empty());
    while i < items.len()
        invariant
            i <= items@.len(),
            v == machine_states_model(items@),
            v.len() == items@.len(),
            toks_model(out@) == m_variants_after(o, v.take(i as int)),
        decreases items.len() - i,
    {
        assert(v.take(i + 1).drop_last() =~= v.take(i as int));
        assert(v.take(i + 1).last() == v[i as int]);
        if i > 0 {
            push_punct(out, ',', false);
        }
        emit_m_variant(out, &items[i]);
        i += 1;
    }
    assert(v.take(i as int) =~= v);
}

/// A constant naming a state without fields, for transition bodies.
pub open spec fn m_ctor_const_after(o: Seq<TokModel>, s: MachineStateModel, data: Seq<char>) -> Seq<TokModel> {
    let o = o.push(pa('#')).push(grp(Delim::Bracket, {
        let inner = Seq::<TokModel>::empty();
        let inner = inner.push(id("allow"@)).push(grp(Delim::Paren, {
        let inner = Seq::<TokModel>::empty();
        let inner = inner.push(id("non_upper_case_globals"@));
        inner
    }));
        inner
    })).push(id("const"@)).push(id(s.name@)).push(pa(':')).push(id(data)).push(pa('=')).push(id(data)).push(pj(':')).push(pa(':')).push(id(s.name@)).push(pa(';'));
    o
}

fn emit_m_ctor_const(out: &mut Vec<Tok>, s: &State, data: &str)
    ensures
        toks_model(final(out)@) == m_ctor_const_after(toks_model(old(out)@), s@, data@),
{
    push_punct(out, '#', false);
    let mut g1: Vec<Tok> = Vec::new();
    assert(toks_model(g1@) =~= Seq::<TokModel>::empty());
    push_ident(&mut g1, "allow");
    let mut g2: Vec<Tok> = Vec::new();
    assert(toks_model(g2@) =~= Seq::<TokModel>::empty());
    push_ident(&mut g2, "non_upper_case_globals");
    push_group(&mut g1, Delim::Paren, g2);
    push_group(out, Delim::Bracket, g1);
    push_ident(out, "const");
    push_ident(out, s.name.as_str());
    push_punct(out, ':', false);
    push_ident(out, data);
    push_punct(out, '=', false);
    push_ident(out, data);
    push_punct(out, ':', true);
    push_punct(out, ':', false);
    push_ident(out, s.name.as_str());
    push_punct(out, ';', false);
}

/// A function building a state with fields, for transition bodies.
pub open spec fn m_ctor_fn_after(o: Seq<TokModel>, s: MachineStateModel, data: Seq<char>) -> Seq<TokModel> {
    let o = o.push(pa('#')).push(grp(Delim::Bracket, {
        let inner = Seq::<TokModel>::empty();
        let inner = inner.push(id("allow"@)).push(grp(Delim::Paren, {
        let inner = Seq::<TokModel>::empty();
        let inner = inner.push(id("non_snake_case"@));
        inner
    }));
        inner
    })).push(id("fn"@)).push(id(s.name@)).push(grp(Delim::Paren, {
        let inner = Seq::<TokModel>::empty();
        let inner = m_field_decls_after(inner, s.fields);
        inner
    })).push(pj('-')).push(pa('>')).push(id(data)).push(grp(Delim::Brace, {
        let inner = Seq::<TokModel>::empty();
        let inner = inner.push(id(data)).push(pj(':')).push(pa(':')).push(id(s.name@)).push(grp(Delim::Brace, {
        let inner = Seq::<TokModel>::empty();
        let inner = m_field_names_after(inner, s.fields);
        inner
    }));
        inner
    }));
    o
}

fn emit_m_ctor_fn(out: &mut Vec<Tok>, s: &State, data: &str)
    ensures
        toks_model(final(out)@) == m_ctor_fn_after(toks_model(old(out)@), s@, data@),
{
    push_punct(out, '#', false);
    let mut g1: Vec<Tok> = Vec::new();
    assert(toks_model(g1@) =~= Seq::<TokModel>::empty());
    push_ident(&mut g1, "allow");
    let mut g2: Vec<Tok> = Vec::new();
    assert(toks_model(g2@) =~= Seq::<TokModel>::empty());
    push_ident(&mut g2, "non_snake_case");
    push_group(&mut g1, Delim::Paren, g2);
    push_group(out, Delim::Bracket, g1);
    push_ident(out, "fn");
    push_ident(out, s.name.as_str());
    let mut g3: Vec<Tok> = Vec::new();
    assert(toks_model(g3@) =~= Seq::<TokModel>::empty());
    emit_m_field_decls(&mut g3, &s.fields);
    push_group(out, Delim::Paren, g3);
    push_punct(out, '-', true);
    push_punct(out, '>', false);
    push_ident(out, data);
    let mut g4: Vec<Tok> = Vec::new();
    assert(toks_model(g4@) =~= Seq::<TokModel>::empty());
    push_ident(&mut g4, data);
    push_punct(&mut g4, ':', true);
    push_punct(&mut g4, ':', false);
    push_ident(&mut g4, s.name.as_str());
    let mut g5: Vec<Tok> = Vec::new();
    assert(toks_model(g5@) =~= Seq::<TokModel>::empty());
    emit_m_field_names(&mut g5, &s.fields);
    push_group(&mut g4, Delim::Brace, g5);
    push_group(out, Delim::Brace, g4);
}

/// The state constructors a transition body may use, one per state.
pub open spec fn m_ctors_after(o: Seq<TokModel>, items: Seq<MachineStateModel>, data: Seq<char>) -> Seq<TokModel>
    decreases items.len(),
{
    if items.len() == 0 {
        o
    } else {
        let o = m_ctors_after(o, items.drop_last(), data);
        m_ctor_after(o, items.last(), data)
    }
}

fn emit_m_ctors(out: &mut Vec<Tok>, items: &Vec<State>, data: &str)
    ensures
        toks_model(final(out)@) == m_ctors_after(toks_model(old(out)@), machine_states_model(items@), data@),
{
    let ghost o = toks_model(out@);
    let ghost v = machine_states_model(items@);
    let mut i: usize = 0;
    assert(v.take(0) =~= Seq::<MachineStateModel>::empty());
    while i < items.len()
        invariant
            i <= items@.len(),
            v == machine_states_model(items@),
            v.len() == items@.len(),
            toks_model(out@) == m_ctors_after(o, v.take(i as int), data@),
        decreases items.len() - i,
    {
        assert(v.take(i + 1).drop_last() =~= v.take(i as int));
        assert(v.take(i + 1).last() == v[i as int]);
        emit_m_ctor(out, &items[i], data);
        i += 1;
    }
    assert(v.take(i as int) =~= v);
}

/// A handler binding the fields of its one source state as locals.
pub open spec fn m_bind_fields_after(o: Seq<TokModel>, s: MachineStateModel, data: Seq<char>) -> Seq<TokModel> {
    let o = o.push(pa('#')).push(grp(Delim::Bracket, {
        let inner = Seq::<TokModel>::empty();
        let inner = inner.push(id("allow"@)).push(grp(Delim::Paren, {
        let inner = Seq::<TokModel>::empty();
        let inner = inner.push(id("unused_variables"@));
        inner
    }));
        inner
    })).push(id("let"@)).push(grp(Delim::Paren, {
        let inner = Seq::<TokModel>::empty();
        let inner = m_field_names_c_after(inner, s.fields);
        inner
    })).push(pa(':')).push(grp(Delim::Paren, {
        let inner = Seq::<TokModel>::empty();
        let inner = m_field_types_c_after(inner, s.fields);
        inner
    })).push(pa('=')).push(id("match"@)).push(pa('&')).push(id("self"@)).push(pa('.')).push(id("state"@)).push(grp(Delim::Brace, {
        let inner = Seq::<TokModel>::empty();
        let inner = inner.push(id(data)).push(pj(':')).push(pa(':')).push(id(s.name@)).push(grp(Delim::Brace, {
        let inner = Seq::<TokModel>::empty();
        let inner = m_field_names_c_after(inner, s.fields);
        inner
    })).push(pj('=')).push(pa('>')).push(grp(Delim::Paren, {
        let inner = Seq::<TokModel>::empty();
        let inner = m_field_clones_c_after(inner, s.fields);
        inner
    })).push(pa(',')).push(id("_"@)).push(pj('=')).push(pa('>')).push(id("unreachable"@)).push(pa('!')).push(grp(Delim::Paren, {
        let inner = Seq::<TokModel>::empty();

        inner
    })).push(pa(','));
        inner
    })).push(pa(';'));
    o
}

fn emit_m_bind_fields(out: &mut Vec<Tok>, s: &State, data: &str)
    ensures
        toks_model(final(out)@) == m_bind_fields_after(toks_model(old(out)@), s@, data@),
{
    push_punct(out, '#', false);
    let mut g1: Vec<Tok> = Vec::new();
    assert(toks_model(g1@) =~= Seq::<TokModel>::empty());
    push_ident(&mut g1, "allow");
    let mut g2: Vec<Tok> = Vec::new();
    assert(toks_model(g2@) =~= Seq::<TokModel>::empty());
    push_ident(&mut g2, "unused_variables");
    push_group(&mut g1, Delim::Paren, g2);
    push_group(out, Delim::Bracket, g1);
    push_ident(out, "let");
    let mut g3: Vec<Tok> = Vec::new();
    assert(toks_model(g3@) =~= Seq::<TokModel>::empty());
    emit_m_field_names_c(&mut g3, &s.fields);
    push_group(out, Delim::Paren, g3);
    push_punct(out, ':', false);
    let mut g4: Vec<Tok> = Vec::new();
    assert(toks_model(g4@) =~= Seq::<TokModel>::empty());
    emit_m_field_types_c(&mut g4, &s.fields);
    push_group(out, Delim::Paren, g4);
    push_punct(out, '=', false);
    push_ident(out, "match");
    push_punct(out, '&', false);
    push_ident(out, "self");
    push_punct(out, '.', false);
    push_ident(out, "state");
    let mut g5: Vec<Tok> = Vec::new();
    assert(toks_model(g5@) =~= Seq::<TokModel>::empty());
    push_ident(&mut g5, data);
    push_punct(&mut g5, ':', true);
    push_punct(&mut g5, ':', false);
    push_ident(&mut g5, s.name.as_str());
    let mut g6: Vec<Tok> = Vec::new();
    assert(toks_model(g6@) =~= Seq::<TokModel>::empty());
    emit_m_field_names_c(&mut g6, &s.fields);
    push_group(&mut g5, Delim::Brace, g6);
    push_punct(&mut g5, '=', true);
    push_punct(&mut g5, '>', false);
    let mut g7: Vec<Tok> = Vec::new();
    assert(toks_model(g7@) =~= Seq::<TokModel>::empty());
    emit_m_field_clones_c(&mut g7, &s.fields);
    push_group(&mut g5, Delim::Paren, g7);
    push_punct(&mut g5, ',', false);
    push_ident(&mut g5, "_");
    push_punct(&mut g5, '=', true);
    push_punct(&mut g5, '>', false);
    push_ident(&mut g5, "unreachable");
    push_punct(&mut g5, '!', false);
    let mut g8: Vec<Tok> = Vec::new();
    assert(toks_model(g8@) =~= Seq::<TokModel>::empty());
    push_group(&mut g5, Delim::Paren, g8);
    push_punct(&mut g5, ',', false);
    push_group(out, Delim::Brace, g5);
    push_punct(out, ';', false);
}

/// A hook binding the fields of its state as locals, and returning when the machine is in another state.
pub open spec fn m_hook_bind_fields_after(o: Seq<TokModel>, s: MachineStateModel, data: Seq<char>) -> Seq<TokModel> {
    let o = o.push(pa('#')).push(grp(Delim::Bracket, {
        let inner = Seq::<TokModel>::empty();
        let inner = inner.push(id("allow"@)).push(grp(Delim::Paren, {
        let inner = Seq::<TokModel>::empty();
        let inner = inner.push(id("unused_variables"@));
        inner
    }));
        inner
    })).push(id("let"@)).push(grp(Delim::Paren, {
        let inner = Seq::<TokModel>::empty();
        let inner = m_field_names_c_after(inner, s.fields);
        inner
    })).push(pa(':')).push(grp(Delim::Paren, {
        let inner = Seq::<TokModel>::empty();
        let inner = m_field_types_c_after(inner, s.fields);
        inner
    })).push(pa('=')).push(id("match"@)).push(pa('&')).push(id("self"@)).push(pa('.')).push(id("state"@)).push(grp(Delim::Brace, {
        let inner = Seq::<TokModel>::empty();
        let inner = inner.push(id(data)).push(pj(':')).push(pa(':')).push(id(s.name@)).push(grp(Delim::Brace, {
        let inner = Seq::<TokModel>::empty();
        let inner = m_field_names_c_after(inner, s.fields);
        inner
    })).push(pj('=')).push(pa('>')).push(grp(Delim::Paren, {
        let inner = Seq::<TokModel>::empty();
        let inner = m_field_clones_c_after(inner, s.fields);
        inner
    })).push(pa(',')).push(id("_"@)).push(pj('=')).push(pa('>')).push(id("return"@)).push(pa(','));
        inner
    })).push(pa(';'));
    o
}

fn emit_m_hook_bind_fields(out: &mut Vec<Tok>, s: &State, data: &str)
    ensures
        toks_model(final(out)@) == m_hook_bind_fields_after(toks_model(old(out)@), s@, data@),
{
    push_punct(out, '#', false);
    let mut g1: Vec<Tok> = Vec::new();
    assert(toks_model(g1@) =~= Seq::<TokModel>::empty());
    push_ident(&mut g1, "allow");
    let mut g2: Vec<Tok> = Vec::new();
    assert(toks_model(g2@) =~= Seq::<TokModel>::empty());
    push_ident(&mut g2, "unused_variables");
    push_group(&mut g1, Delim::Paren, g2);
    push_group(out, Delim::Bracket, g1);
    push_ident(out, "let");
    let mut g3: Vec<Tok> = Vec::new();
    assert(toks_model(g3@) =~= Seq::<TokModel>::empty());
    emit_m_field_names_c(&mut g3, &s.fields);
    push_group(out, Delim::Paren, g3);
    push_punct(out, ':', false);
    let mut g4: Vec<Tok> = Vec::new();
    assert(toks_model(g4@) =~= Seq::<TokModel>::empty());
    emit_m_field_types_c(&mut g4, &s.fields);
    push_group(out, Delim::Paren, g4);
    push_punct(out, '=', false);
    push_ident(out, "match");
    push_punct(out, '&', false);
    push_ident(out, "self");
    push_punct(out, '.', false);
    push_ident(out, "state");
    let mut g5: Vec<Tok> = Vec::new();
    assert(toks_model(g5@) =~= Seq::<TokModel>::empty());
    push_ident(&mut g5, data);
    push_punct(&mut g5, ':', true);
    push_punct(&mut g5, ':', false);
    push_ident(&mut g5, s.name.as_str());
    let mut g6: Vec<Tok> = Vec::new();
    assert(toks_model(g6@) =~= Seq::<TokModel>::empty());
    emit_m_field_names_c(&mut g6, &s.fields);
    push_group(&mut g5, Delim::Brace, g6);
    push_punct(&mut g5, '=', true);
    push_punct(&mut g5, '>', false);
    let mut g7: Vec<Tok> = Vec::new();
    assert(toks_model(g7@) =~= Seq::<TokModel>::empty());
    emit_m_field_clones_c(&mut g7, &s.fields);
    push_group(&mut g5, Delim::Paren, g7);
    push_punct(&mut g5, ',', false);
    push_ident(&mut g5, "_");
    push_punct(&mut g5, '=', true);
    push_punct(&mut g5, '>', false);
    push_ident(&mut g5, "return");
    push_punct(&mut g5, ',', false);
    push_group(out, Delim::Brace, g5);
    push_punct(out, ';', false);
}

/// A handler binding the whole current state as `state`.
pub open spec fn m_bind_whole_after(o: Seq<TokModel>) -> Seq<TokModel> {
    let o = o.push(pa('#')).push(grp(Delim::Bracket, {
        let inner = Seq::<TokModel>::empty();
        let inner = inner.push(id("allow"@)).push(grp(Delim::Paren, {
        let inner = Seq::<TokModel>::empty();
        let inner = inner.push(id("unused_variables"@));
        inner
    }));
        inner
    })).push(id("let"@)).push(id("state"@)).push(pa('=')).push(pa('&')).push(id("self"@)).push(pa('.')).push(id("state"@)).push(pa(';'));
    o
}

fn emit_m_bind_whole(out: &mut Vec<Tok>)
    ensures
        toks_model(final(out)@) == m_bind_whole_after(toks_model(old(out)@)),
{
    push_punct(out, '#', false);
    let mut g1: Vec<Tok> = Vec::new();
    assert(toks_model(g1@) =~= Seq::<TokModel>::empty());
    push_ident(&mut g1, "allow");
    let mut g2: Vec<Tok> = Vec::new();
    assert(toks_model(g2@) =~= Seq::<TokModel>::empty());
    push_ident(&mut g2, "unused_variables");
    push_group(&mut g1, Delim::Paren, g2);
    push_group(out, Delim::Bracket, g1);
    push_ident(out, "let");
    push_ident(out, "state");
    push_punct(out, '=', false);
    push_punct(out, '&', false);
    push_ident(out, "self");
    push_punct(out, '.', false);
    push_ident(out, "state");
    push_punct(out, ';', false);
}

/// The initial state data of a state without fields.
pub open spec fn m_init_unit_after(o: Seq<TokModel>, s: MachineStateModel, data: Seq<char>) -> Seq<TokModel> {
    let o = o.push(id(data)).push(pj(':')).push(pa(':')).push(id(s.name@));
    o
}

fn emit_m_init_unit(out: &mut Vec<Tok>, s: &State, data: &str)
    ensures
        toks_model(final(out)@) == m_init_unit_after(toks_model(old(out)@), s@, data@),
{
    push_ident(out, data);
    push_punct(out, ':', true);
    push_punct(out, ':', false);
    push_ident(out, s.name.as_str());
}

/// The initial state data of a state with fields, each defaulted.
pub open spec fn m_init_fields_after(o: Seq<TokModel>, s: MachineStateModel, data: Seq<char>) -> Seq<TokModel> {
    let o = o.push(id(data)).push(pj(':')).push(pa(':')).push(id(s.name@)).push(grp(Delim::Brace, {
        let inner = Seq::<TokModel>::empty();
        let inner = m_default_inits_after(inner, s.fields);
        inner
    }));
    o
}

fn emit_m_init_fields(out: &mut Vec<Tok>, s: &State, data: &str)
    ensures
        toks_model(final(out)@) == m_init_fields_after(toks_model(old(out)@), s@, data@),
{
    push_ident(out, data);
    push_punct(out, ':', true);
    push_punct(out, ':', false);
    push_ident(out, s.name.as_str());
    let mut g1: Vec<Tok> = Vec::new();
    assert(toks_model(g1@) =~= Seq::<TokModel>::empty());
    emit_m_default_inits(&mut g1, &s.fields);
    push_group(out, Delim::Brace, g1);
}

/// A guard check of a handler with a user error type: a failed guard is `Err(None)`.
pub open spec fn m_user_guard_after(o: Seq<TokModel>, g: Seq<Tok>) -> Seq<TokModel> {
    let o = o.push(id("if"@)).push(pa('!')).push(grp(Delim::Paren, {
        let inner = Seq::<TokModel>::empty();
        let inner = inner + toks_model(g);
        inner
    })).push(grp(Delim::Brace, {
        let inner = Seq::<TokModel>::empty();
        let inner = inner.push(id("return"@)).push(id("Err"@)).push(grp(Delim::Paren, {
        let inner = Seq::<TokModel>::empty();
        let inner = inner.push(id("None"@));
        inner
    })).push(pa(';'));
        inner
    }));
    o
}

fn emit_m_user_guard(out: &mut Vec<Tok>, g: &Vec<Tok>)
    ensures
        toks_model(final(out)@) == m_user_guard_after(toks_model(old(out)@), g@),
{
    push_ident(out, "if");
    push_punct(out, '!', false);
    let mut g1: Vec<Tok> = Vec::new();
    assert(toks_model(g1@) =~= Seq::<TokModel>::empty());
    push_all(&mut g1, copy_toks(g));
    push_group(out, Delim::Paren, g1);
    let mut g2: Vec<Tok> = Vec::new();
    assert(toks_model(g2@) =~= Seq::<TokModel>::empty());
    push_ident(&mut g2, "return");
    push_ident(&mut g2, "Err");
    let mut g3: Vec<Tok> = Vec::new();
    assert(toks_model(g3@) =~= Seq::<TokModel>::empty());
    push_ident(&mut g3, "None");
    push_group(&mut g2, Delim::Paren, g3);
    push_punct(&mut g2, ';', false);
    push_group(out, Delim::Brace, g2);
}

/// A guard check of a handler with a generated error type: a failed guard is `GuardFailed`.
pub open spec fn m_gen_guard_after(o: Seq<TokModel>, g: Seq<Tok>, en: Seq<char>) -> Seq<TokModel> {
    let o = o.push(id("if"@)).push(pa('!')).push(grp(Delim::Paren, {
        let inner = Seq::<TokModel>::empty();
        let inner = inner + toks_model(g);
        inner
    })).push(grp(Delim::Brace, {
        let inner = Seq::<TokModel>::empty();
        let inner = inner.push(id("return"@)).push(id("Err"@)).push(grp(Delim::Paren, {
        let inner = Seq::<TokModel>::empty();
        let inner = inner.push(id(en)).push(pj(':')).push(pa(':')).push(id("GuardFailed"@));
        inner
    })).push(pa(';'));
        inner
    }));
    o
}

fn emit_m_gen_guard(out: &mut Vec<Tok>, g: &Vec<Tok>, en: &str)
    ensures
        toks_model(final(out)@) == m_gen_guard_after(toks_model(old(out)@), g@, en@),
{
    push_ident(out, "if");
    push_punct(out, '!', false);
    let mut g1: Vec<Tok> = Vec::new();
    assert(toks_model(g1@) =~= Seq::<TokModel>::empty());
    push_all(&mut g1, copy_toks(g));
    push_group(out, Delim::Paren, g1);
    let mut g2: Vec<Tok> = Vec::new();
    assert(toks_model(g2@) =~= Seq::<TokModel>::empty());
    push_ident(&mut g2, "return");
    push_ident(&mut g2, "Err");
    let mut g3: Vec<Tok> = Vec::new();
    assert(toks_model(g3@) =~= Seq::<TokModel>::empty());
    push_ident(&mut g3, en);
    push_punct(&mut g3, ':', true);
    push_punct(&mut g3, ':', false);
    push_ident(&mut g3, "GuardFailed");
    push_group(&mut g2, Delim::Paren, g3);
    push_punct(&mut g2, ';', false);
    push_group(out, Delim::Brace, g2);
}

/// The metrics attribute of a handler, active with the `ssm-metrics` feature.
pub open spec fn m_metrics_after(o: Seq<TokModel>, sm: Seq<char>, tn: Seq<char>) -> Seq<TokModel> {
    let o = o.push(pa('#')).push(grp(Delim::Bracket, {
        let inner = Seq::<TokModel>::empty();
        let inner = inner.push(id("cfg_attr"@)).push(grp(Delim::Paren, {
        let inner = Seq::<TokModel>::empty();
        let inner = inner.push(id("feature"@)).push(pa('=')).push(lit("\"ssm-metrics\""@)).push(pa(',')).push(id("metrics_helper_macros"@)).push(pj(':')).push(pa(':')).push(id("instrument"@)).push(grp(Delim::Paren, {
        let inner = Seq::<TokModel>::empty();
        let inner = inner.push(id("counter"@)).push(pa('=')).push(lit("\"ssm_transitions_total\""@)).push(pa(',')).push(id("histogram"@)).push(pa('=')).push(lit("\"ssm_transition_duration_seconds\""@)).push(pa(',')).push(id("error_counter"@)).push(pa('=')).push(lit("\"ssm_transition_errors_total\""@)).push(pa(',')).push(id("labels"@)).push(grp(Delim::Paren, {
        let inner = Seq::<TokModel>::empty();
        let inner = inner.push(id("state_machine"@)).push(pa('='));
        let inner = inner.push(lit(quoted(sm)));
        let inner = inner.push(pa(',')).push(id("transition"@)).push(pa('='));
        let inner = inner.push(lit(quoted(tn)));
        inner
    })).push(pa(','));
        inner
    }));
        inner
    }));
        inner
    }));
    o
}

fn emit_m_metrics(out: &mut Vec<Tok>, sm: &str, tn: &str)
    ensures
        toks_model(final(out)@) == m_metrics_after(toks_model(old(out)@), sm@, tn@),
{
    push_punct(out, '#', false);
    let mut g1: Vec<Tok> = Vec::new();
    assert(toks_model(g1@) =~= Seq::<TokModel>::empty());
    push_ident(&mut g1, "cfg_attr");
    let mut g2: Vec<Tok> = Vec::new();
    assert(toks_model(g2@) =~= Seq::<TokModel>::empty());
    push_ident(&mut g2, "feature");
    push_punct(&mut g2, '=', false);
    push_literal(&mut g2, "\"ssm-metrics\"");
    push_punct(&mut g2, ',', false);
    push_ident(&mut g2, "metrics_helper_macros");
    push_punct(&mut g2, ':', true);
    push_punct(&mut g2, ':', false);
    push_ident(&mut g2, "instrument");
    let mut g3: Vec<Tok> = Vec::new();
    assert(toks_model(g3@) =~= Seq::<TokModel>::empty());
    push_ident(&mut g3, "counter");
    push_punct(&mut g3, '=', false);
    push_literal(&mut g3, "\"ssm_transitions_total\"");
    push_punct(&mut g3, ',', false);
    push_ident(&mut g3, "histogram");
    push_punct(&mut g3, '=', false);
    push_literal(&mut g3, "\"ssm_transition_duration_seconds\"");
    push_punct(&mut g3, ',', false);
    push_ident(&mut g3, "error_counter");
    push_punct(&mut g3, '=', false);
    push_literal(&mut g3, "\"ssm_transition_errors_total\"");
    push_punct(&mut g3, ',', false);
    push_ident(&mut g3, "labels");
    let mut g4: Vec<Tok> = Vec::new();
    assert(toks_model(g4@) =~= Seq::<TokModel>::empty());
    push_ident(&mut g4, "state_machine");
    push_punct(&mut g4, '=', false);
    push_literal(&mut g4, quoted_of(sm).as_str());
    push_punct(&mut g4, ',', false);
    push_ident(&mut g4, "transition");
    push_punct(&mut g4, '=', false);
    push_literal(&mut g4, quoted_of(tn).as_str());
    push_group(&mut g3, Delim::Paren, g4);
    push_punct(&mut g3, ',', false);
    push_group(&mut g2, Delim::Paren, g3);
    push_group(&mut g1, Delim::Paren, g2);
    push_group(out, Delim::Bracket, g1);
}

/// The handler of a transition whose body returns `Result<Target, E>`: it refuses a state that is not a source (`Err(None)`), binds the source's fields, checks the guard (`Err(None)`), runs the body, and on `Ok` runs the exit hooks, stores the new state and runs the entry hook; the body's error is `Err(Some(e))`.
pub open spec fn m_user_handler_after(o: Seq<TokModel>, t: MachineTransitionModel, data: Seq<char>, sm: Seq<char>, states: Seq<MachineStateModel>, hooks: Seq<HookModel>) -> Seq<TokModel> {
    let o = m_metrics_after(o, sm, t.name@);
    let o = o.push(id("fn"@)).push(id("handle_"@ + t.name@)).push(grp(Delim::Paren, {
        let inner = Seq::<TokModel>::empty();
        let inner = inner.push(pa('&')).push(id("mut"@)).push(id("self"@)).push(pa(','));
        let inner = m_arg_decls_after(inner, t.args);
        inner
    })).push(pj('-')).push(pa('>')).push(id("Result"@)).push(pa('<')).push(grp(Delim::Paren, {
        let inner = Seq::<TokModel>::empty();

        inner
    })).push(pa(',')).push(id("Option"@)).push(pa('<'));
    let o = m_opt_after(o, t.error_type);
    let o = o.push(pa('>')).push(pa('>')).push(grp(Delim::Brace, {
        let inner = Seq::<TokModel>::empty();
        let inner = inner.push(id("if"@)).push(pa('!')).push(id("matches"@)).push(pa('!')).push(grp(Delim::Paren, {
        let inner = Seq::<TokModel>::empty();
        let inner = inner.push(id("self"@)).push(pa('.')).push(id("state"@)).push(pa(','));
        let inner = m_source_pats_after(inner, t.source_states, data);
        inner
    })).push(grp(Delim::Brace, {
        let inner = Seq::<TokModel>::empty();
        let inner = inner.push(id("return"@)).push(id("Err"@)).push(grp(Delim::Paren, {
        let inner = Seq::<TokModel>::empty();
        let inner = inner.push(id("None"@));
        inner
    })).push(pa(';'));
        inner
    }));
        let inner = m_bind_after(inner, states, t.source_states, data);
        let inner = inner.push(pa('#')).push(grp(Delim::Bracket, {
        let inner = Seq::<TokModel>::empty();
        let inner = inner.push(id("allow"@)).push(grp(Delim::Paren, {
        let inner = Seq::<TokModel>::empty();
        let inner = inner.push(id("unused_variables"@));
        inner
    }));
        inner
    })).push(id("let"@)).push(id("ctx"@)).push(pa('=')).push(pa('&')).push(id("mut"@)).push(id("self"@)).push(pa('.')).push(id("ctx"@)).push(pa(';'));
        let inner = m_user_guard_opt_after(inner, t.guard);
        let inner = m_ctors_after(inner, states, data);
        let inner = inner.push(id("match"@)).push(grp(Delim::Brace, {
        let inner = Seq::<TokModel>::empty();
        let inner = inner + toks_model(t.body);
        inner
    })).push(grp(Delim::Brace, {
        let inner = Seq::<TokModel>::empty();
        let inner = inner.push(id("Ok"@)).push(grp(Delim::Paren, {
        let inner = Seq::<TokModel>::empty();
        let inner = inner.push(id("new_state"@));
        inner
    })).push(pj('=')).push(pa('>')).push(grp(Delim::Brace, {
        let inner = Seq::<TokModel>::empty();
        let inner = m_exit_after(inner, exit_calls(hooks, t.source_states), data);
        let inner = inner.push(id("self"@)).push(pa('.')).push(id("state"@)).push(pa('=')).push(id("new_state"@)).push(pa(';'));
        let inner = m_enter_after(inner, hook_for(hooks, t.target_state@, HookKind::OnEnter));
        let inner = inner.push(id("Ok"@)).push(grp(Delim::Paren, {
        let inner = Seq::<TokModel>::empty();
        let inner = inner.push(grp(Delim::Paren, {
        let inner = Seq::<TokModel>::empty();

        inner
    }));
        inner
    }));
        inner
    })).push(id("Err"@)).push(grp(Delim::Paren, {
        let inner = Seq::<TokModel>::empty();
        let inner = inner.push(id("e"@));
        inner
    })).push(pj('=')).push(pa('>')).push(id("Err"@)).push(grp(Delim::Paren, {
        let inner = Seq::<TokModel>::empty();
        let inner = inner.push(id("Some"@)).push(grp(Delim::Paren, {
        let inner = Seq::<TokModel>::empty();
        let inner = inner.push(id("e"@));
        inner
    }));
        inner
    })).push(pa(','));
        inner
    }));
        inner
    }));
    o
}

fn emit_m_user_handler(out: &mut Vec<Tok>, t: &Transition, data: &str, sm: &str, states: &Vec<State>, hooks: &Vec<LifecycleHook>, map: &Vec<HookEntry>)
    requires
        is_hook_map(map@, hooks_model(hooks@)),
    ensures
        toks_model(final(out)@) == m_user_handler_after(toks_model(old(out)@), t@, data@, sm@, machine_states_model(states@), hooks_model(hooks@)),
{
    emit_m_metrics(out, sm, t.name.as_str());
    push_ident(out, "fn");
    push_ident(out, handler_name(t.name.as_str()).as_str());
    let mut g1: Vec<Tok> = Vec::new();
    assert(toks_model(g1@) =~= Seq::<TokModel>::empty());
    push_punct(&mut g1, '&', false);
    push_ident(&mut g1, "mut");
    push_ident(&mut g1, "self");
    push_punct(&mut g1, ',', false);
    emit_m_arg_decls(&mut g1, &t.args);
    push_group(out, Delim::Paren, g1);
    push_punct(out, '-', true);
    push_punct(out, '>', false);
    push_ident(out, "Result");
    push_punct(out, '<', false);
    let mut g2: Vec<Tok> = Vec::new();
    assert(toks_model(g2@) =~= Seq::<TokModel>::empty());
    push_group(out, Delim::Paren, g2);
    push_punct(out, ',', false);
    push_ident(out, "Option");
    push_punct(out, '<', false);
    emit_m_opt(out, &t.error_type);
    push_punct(out, '>', false);
    push_punct(out, '>', false);
    let mut g3: Vec<Tok> = Vec::new();
    assert(toks_model(g3@) =~= Seq::<TokModel>::empty());
    push_ident(&mut g3, "if");
    push_punct(&mut g3, '!', false);
    push_ident(&mut g3, "matches");
    push_punct(&mut g3, '!', false);
    let mut g4: Vec<Tok> = Vec::new();
    assert(toks_model(g4@) =~= Seq::<TokModel>::empty());
    push_ident(&mut g4, "self");
    push_punct(&mut g4, '.', false);
    push_ident(&mut g4, "state");
    push_punct(&mut g4, ',', false);
    emit_m_source_pats(&mut g4, &t.source_states, data);
    push_group(&mut g3, Delim::Paren, g4);
    let mut g5: Vec<Tok> = Vec::new();
    assert(toks_model(g5@) =~= Seq::<TokModel>::empty());
    push_ident(&mut g5, "return");
    push_ident(&mut g5, "Err");
    let mut g6: Vec<Tok> = Vec::new();
    assert(toks_model(g6@) =~= Seq::<TokModel>::empty());
    push_ident(&mut g6, "None");
    push_group(&mut g5, Delim::Paren, g6);
    push_punct(&mut g5, ';', false);
    push_group(&mut g3, Delim::Brace, g5);
    emit_m_bind(&mut g3, t, states, data);
    push_punct(&mut g3, '#', false);
    let mut g7: Vec<Tok> = Vec::new();
    assert(toks_model(g7@) =~= Seq::<TokModel>::empty());
    push_ident(&mut g7, "allow");
    let mut g8: Vec<Tok> = Vec::new();
    assert(toks_model(g8@) =~= Seq::<TokModel>::empty());
    push_ident(&mut g8, "unused_variables");
    push_group(&mut g7, Delim::Paren, g8);
    push_group(&mut g3, Delim::Bracket, g7);
    push_ident(&mut g3, "let");
    push_ident(&mut g3, "ctx");
    push_punct(&mut g3, '=', false);
    push_punct(&mut g3, '&', false);
    push_ident(&mut g3, "mut");
    push_ident(&mut g3, "self");
    push_punct(&mut g3, '.', false);
    push_ident(&mut g3, "ctx");
    push_punct(&mut g3, ';', false);
    emit_m_user_guard_opt(&mut g3, &t.guard);
    emit_m_ctors(&mut g3, states, data);
    push_ident(&mut g3, "match");
    let mut g9: Vec<Tok> = Vec::new();
    assert(toks_model(g9@) =~= Seq::<TokModel>::empty());
    push_all(&mut g9, copy_toks(&t.body));
    push_group(&mut g3, Delim::Brace, g9);
    let mut g10: Vec<Tok> = Vec::new();
    assert(toks_model(g10@) =~= Seq::<TokModel>::empty());
    push_ident(&mut g10, "Ok");
    let mut g11: Vec<Tok> = Vec::new();
    assert(toks_model(g11@) =~= Seq::<TokModel>::empty());
    push_ident(&mut g11, "new_state");
    push_group(&mut g10, Delim::Paren, g11);
    push_punct(&mut g10, '=', true);
    push_punct(&mut g10, '>', false);
    let mut g12: Vec<Tok> = Vec::new();
    assert(toks_model(g12@) =~= Seq::<TokModel>::empty());
    { let ex = exit_hook_calls(t, map, hooks); emit_m_exit(&mut g12, &ex, data); }
    push_ident(&mut g12, "self");
    push_punct(&mut g12, '.', false);
    push_ident(&mut g12, "state");
    push_punct(&mut g12, '=', false);
    push_ident(&mut g12, "new_state");
    push_punct(&mut g12, ';', false);
    { let en = enter_hook_call(t, map, hooks); emit_m_enter(&mut g12, &en); }
    push_ident(&mut g12, "Ok");
    let mut g13: Vec<Tok> = Vec::new();
    assert(toks_model(g13@) =~= Seq::<TokModel>::empty());
    let mut g14: Vec<Tok> = Vec::new();
    assert(toks_model(g14@) =~= Seq::<TokModel>::empty());
    push_group(&mut g13, Delim::Paren, g14);
    push_group(&mut g12, Delim::Paren, g13);
    push_group(&mut g10, Delim::Brace, g12);
    push_ident(&mut g10, "Err");
    let mut g15: Vec<Tok> = Vec::new();
    assert(toks_model(g15@) =~= Seq::<TokModel>::empty());
    push_ident(&mut g15, "e");
    push_group(&mut g10, Delim::Paren, g15);
    push_punct(&mut g10, '=', true);
    push_punct(&mut g10, '>', false);
    push_ident(&mut g10, "Err");
    let mut g16: Vec<Tok> = Vec::new();
    assert(toks_model(g16@) =~= Seq::<TokModel>::empty());
    push_ident(&mut g16, "Some");
    let mut g17: Vec<Tok> = Vec::new();
    assert(toks_model(g17@) =~= Seq::<TokModel>::empty());
    push_ident(&mut g17, "e");
    push_group(&mut g16, Delim::Paren, g17);
    push_group(&mut g10, Delim::Paren, g16);
    push_punct(&mut g10, ',', false);
    push_group(&mut g3, Delim::Brace, g10);
    push_group(out, Delim::Brace, g3);
}

/// The handler of a transition with a generated error type: it refuses a state that is not a source (`InvalidState`), binds the source's fields, checks the guard (`GuardFailed`), then runs the exit hooks, stores the state the body builds and runs the entry hook.
pub open spec fn m_gen_handler_after(o: Seq<TokModel>, t: MachineTransitionModel, data: Seq<char>, sm: Seq<char>, states: Seq<MachineStateModel>, hooks: Seq<HookModel>) -> Seq<TokModel> {
    let o = m_metrics_after(o, sm, t.name@);
    let o = o.push(id("fn"@)).push(id("handle_"@ + t.name@)).push(grp(Delim::Paren, {
        let inner = Seq::<TokModel>::empty();
        let inner = inner.push(pa('&')).push(id("mut"@)).push(id("self"@)).push(pa(','));
        let inner = m_arg_decls_after(inner, t.args);
        inner
    })).push(pj('-')).push(pa('>')).push(id("Result"@)).push(pa('<')).push(grp(Delim::Paren, {
        let inner = Seq::<TokModel>::empty();

        inner
    })).push(pa(',')).push(id(pascal_case(t.name@, true) + "Error"@)).push(pa('>')).push(grp(Delim::Brace, {
        let inner = Seq::<TokModel>::empty();
        let inner = inner.push(id("if"@)).push(pa('!')).push(id("matches"@)).push(pa('!')).push(grp(Delim::Paren, {
        let inner = Seq::<TokModel>::empty();
        let inner = inner.push(id("self"@)).push(pa('.')).push(id("state"@)).push(pa(','));
        let inner = m_source_pats_after(inner, t.source_states, data);
        inner
    })).push(grp(Delim::Brace, {
        let inner = Seq::<TokModel>::empty();
        let inner = inner.push(id("return"@)).push(id("Err"@)).push(grp(Delim::Paren, {
        let inner = Seq::<TokModel>::empty();
        let inner = inner.push(id(pascal_case(t.name@, true) + "Error"@)).push(pj(':')).push(pa(':')).push(id("InvalidState"@));
        inner
    })).push(pa(';'));
        inner
    }));
        let inner = m_bind_after(inner, states, t.source_states, data);
        let inner = inner.push(pa('#')).push(grp(Delim::Bracket, {
        let inner = Seq::<TokModel>::empty();
        let inner = inner.push(id("allow"@)).push(grp(Delim::Paren, {
        let inner = Seq::<TokModel>::empty();
        let inner = inner.push(id("unused_variables"@));
        inner
    }));
        inner
    })).push(id("let"@)).push(id("ctx"@)).push(pa('=')).push(pa('&')).push(id("mut"@)).push(id("self"@)).push(pa('.')).push(id("ctx"@)).push(pa(';'));
        let inner = m_gen_guard_opt_after(inner, t.guard, pascal_case(t.name@, true) + "Error"@);
        let inner = m_ctors_after(inner, states, data);
        let inner = m_exit_after(inner, exit_calls(hooks, t.source_states), data);
        let inner = inner.push(id("self"@)).push(pa('.')).push(id("state"@)).push(pa('=')).push(grp(Delim::Brace, {
        let inner = Seq::<TokModel>::empty();
        let inner = inner + toks_model(t.body);
        inner
    })).push(pa(';'));
        let inner = m_enter_after(inner, hook_for(hooks, t.target_state@, HookKind::OnEnter));
        let inner = inner.push(id("Ok"@)).push(grp(Delim::Paren, {
        let inner = Seq::<TokModel>::empty();
        let inner = inner.push(grp(Delim::Paren, {
        let inner = Seq::<TokModel>::empty();

        inner
    }));
        inner
    }));
        inner
    }));
    o
}

fn emit_m_gen_handler(out: &mut Vec<Tok>, t: &Transition, data: &str, sm: &str, states: &Vec<State>, hooks: &Vec<LifecycleHook>, map: &Vec<HookEntry>)
    requires
        is_hook_map(map@, hooks_model(hooks@)),
    ensures
        toks_model(final(out)@) == m_gen_handler_after(toks_model(old(out)@), t@, data@, sm@, machine_states_model(states@), hooks_model(hooks@)),
{
    emit_m_metrics(out, sm, t.name.as_str());
    push_ident(out, "fn");
    push_ident(out, handler_name(t.name.as_str()).as_str());
    let mut g1: Vec<Tok> = Vec::new();
    assert(toks_model(g1@) =~= Seq::<TokModel>::empty());
    push_punct(&mut g1, '&', false);
    push_ident(&mut g1, "mut");
    push_ident(&mut g1, "self");
    push_punct(&mut g1, ',', false);
    emit_m_arg_decls(&mut g1, &t.args);
    push_group(out, Delim::Paren, g1);
    push_punct(out, '-', true);
    push_punct(out, '>', false);
    push_ident(out, "Result");
    push_punct(out, '<', false);
    let mut g2: Vec<Tok> = Vec::new();
    assert(toks_model(g2@) =~= Seq::<TokModel>::empty());
    push_group(out, Delim::Paren, g2);
    push_punct(out, ',', false);
    push_ident(out, error_name(t.name.as_str()).as_str());
    push_punct(out, '>', false);
    let mut g3: Vec<Tok> = Vec::new();
    assert(toks_model(g3@) =~= Seq::<TokModel>::empty());
    push_ident(&mut g3, "if");
    push_punct(&mut g3, '!', false);
    push_ident(&mut g3, "matches");
    push_punct(&mut g3, '!', false);
    let mut g4: Vec<Tok> = Vec::new();
    assert(toks_model(g4@) =~= Seq::<TokModel>::empty());
    push_ident(&mut g4, "self");
    push_punct(&mut g4, '.', false);
    push_ident(&mut g4, "state");
    push_punct(&mut g4, ',', false);
    emit_m_source_pats(&mut g4, &t.source_states, data);
    push_group(&mut g3, Delim::Paren, g4);
    let mut g5: Vec<Tok> = Vec::new();
    assert(toks_model(g5@) =~= Seq::<TokModel>::empty());
    push_ident(&mut g5, "return");
    push_ident(&mut g5, "Err");
    let mut g6: Vec<Tok> = Vec::new();
    assert(toks_model(g6@) =~= Seq::<TokModel>::empty());
    push_ident(&mut g6, error_name(t.name.as_str()).as_str());
    push_punct(&mut g6, ':', true);
    push_punct(&mut g6, ':', false);
    push_ident(&mut g6, "InvalidState");
    push_group(&mut g5, Delim::Paren, g6);
    push_punct(&mut g5, ';', false);
    push_group(&mut g3, Delim::Brace, g5);
    emit_m_bind(&mut g3, t, states, data);
    push_punct(&mut g3, '#', false);
    let mut g7: Vec<Tok> = Vec::new();
    assert(toks_model(g7@) =~= Seq::<TokModel>::empty());
    push_ident(&mut g7, "allow");
    let mut g8: Vec<Tok> = Vec::new();
    assert(toks_model(g8@) =~= Seq::<TokModel>::empty());
    push_ident(&mut g8, "unused_variables");
    push_group(&mut g7, Delim::Paren, g8);
    push_group(&mut g3, Delim::Bracket, g7);
    push_ident(&mut g3, "let");
    push_ident(&mut g3, "ctx");
    push_punct(&mut g3, '=', false);
    push_punct(&mut g3, '&', false);
    push_ident(&mut g3, "mut");
    push_ident(&mut g3, "self");
    push_punct(&mut g3, '.', false);
    push_ident(&mut g3, "ctx");
    push_punct(&mut g3, ';', false);
    emit_m_gen_guard_opt(&mut g3, &t.guard, error_name(t.name.as_str()).as_str());
    emit_m_ctors(&mut g3, states, data);
    { let ex = exit_hook_calls(t, map, hooks); emit_m_exit(&mut g3, &ex, data); }
    push_ident(&mut g3, "self");
    push_punct(&mut g3, '.', false);
    push_ident(&mut g3, "state");
    push_punct(&mut g3, '=', false);
    let mut g9: Vec<Tok> = Vec::new();
    assert(toks_model(g9@) =~= Seq::<TokModel>::empty());
    push_all(&mut g9, copy_toks(&t.body));
    push_group(&mut g3, Delim::Brace, g9);
    push_punct(&mut g3, ';', false);
    { let en = enter_hook_call(t, map, hooks); emit_m_enter(&mut g3, &en); }
    push_ident(&mut g3, "Ok");
    let mut g10: Vec<Tok> = Vec::new();
    assert(toks_model(g10@) =~= Seq::<TokModel>::empty());
    let mut g11: Vec<Tok> = Vec::new();
    assert(toks_model(g11@) =~= Seq::<TokModel>::empty());
    push_group(&mut g10, Delim::Paren, g11);
    push_group(&mut g3, Delim::Paren, g10);
    push_group(out, Delim::Brace, g3);
}

/// The handlers of all transitions, in order.
pub open spec fn m_handlers_after(o: Seq<TokModel>, items: Seq<MachineTransitionModel>, data: Seq<char>, sm: Seq<char>, states: Seq<MachineStateModel>, hooks: Seq<HookModel>) -> Seq<TokModel>
    decreases items.len(),
{
    if items.len() == 0 {
        o
    } else {
        let o = m_handlers_after(o, items.drop_last(), data, sm, states, hooks);
        m_handler_after(o, items.last(), data, sm, states, hooks)
    }
}

fn emit_m_handlers(out: &mut Vec<Tok>, items: &Vec<Transition>, data: &str, sm: &str, states: &Vec<State>, hooks: &Vec<LifecycleHook>, map: &Vec<HookEntry>)
    requires
        is_hook_map(map@, hooks_model(hooks@)),
    ensures
        toks_model(final(out)@) == m_handlers_after(toks_model(old(out)@), machine_transitions_model(items@), data@, sm@, machine_states_model(states@), hooks_model(hooks@)),
{
    let ghost o = toks_model(out@);
    let ghost v = machine_transitions_model(items@);
    let mut i: usize = 0;
    assert(v.take(0) =~= Seq::<MachineTransitionModel>::empty());
    while i < items.len()
        invariant
            i <= items@.len(),
            v == machine_transitions_model(items@),
            v.len() == items@.len(),
            toks_model(out@) == m_handlers_after(o, v.take(i as int), data@, sm@, machine_states_model(states@), hooks_model(hooks@)),
            is_hook_map(map@, hooks_model(hooks@)),
        decreases items.len() - i,
    {
        assert(v.take(i + 1).drop_last() =~= v.take(i as int));
        assert(v.take(i + 1).last() == v[i as int]);
        emit_m_handler(out, &items[i], data, sm, states, hooks, map);
        i += 1;
    }
    assert(v.take(i as int) =~= v);
}

/// A lifecycle hook as a method: it binds its state's fields (returning in another state) and `ctx`, then runs its body.
pub open spec fn m_hook_method_after(o: Seq<TokModel>, h: HookModel, data: Seq<char>, states: Seq<MachineStateModel>) -> Seq<TokModel> {
    let o = o.push(pa('#')).push(grp(Delim::Bracket, {
        let inner = Seq::<TokModel>::empty();
        let inner = inner.push(id("allow"@)).push(grp(Delim::Paren, {
        let inner = Seq::<TokModel>::empty();
        let inner = inner.push(id("dead_code"@));
        inner
    }));
        inner
    })).push(id("fn"@)).push(id(h.name@)).push(grp(Delim::Paren, {
        let inner = Seq::<TokModel>::empty();
        let inner = inner.push(pa('&')).push(id("mut"@)).push(id("self"@));
        inner
    })).push(grp(Delim::Brace, {
        let inner = Seq::<TokModel>::empty();
        let inner = m_hook_bind_after(inner, states, h, data);
        let inner = inner.push(pa('#')).push(grp(Delim::Bracket, {
        let inner = Seq::<TokModel>::empty();
        let inner = inner.push(id("allow"@)).push(grp(Delim::Paren, {
        let inner = Seq::<TokModel>::empty();
        let inner = inner.push(id("unused_variables"@));
        inner
    }));
        inner
    })).push(id("let"@)).push(id("ctx"@)).push(pa('=')).push(pa('&')).push(id("mut"@)).push(id("self"@)).push(pa('.')).push(id("ctx"@)).push(pa(';'));
        let inner = inner + toks_model(h.body);
        inner
    }));
    o
}

fn emit_m_hook_method(out: &mut Vec<Tok>, h: &LifecycleHook, data: &str, states: &Vec<State>)
    ensures
        toks_model(final(out)@) == m_hook_method_after(toks_model(old(out)@), h@, data@, machine_states_model(states@)),
{
    push_punct(out, '#', false);
    let mut g1: Vec<Tok> = Vec::new();
    assert(toks_model(g1@) =~= Seq::<TokModel>::empty());
    push_ident(&mut g1, "allow");
    let mut g2: Vec<Tok> = Vec::new();
    assert(toks_model(g2@) =~= Seq::<TokModel>::empty());
    push_ident(&mut g2, "dead_code");
    push_group(&mut g1, Delim::Paren, g2);
    push_group(out, Delim::Bracket, g1);
    push_ident(out, "fn");
    push_ident(out, h.name.as_str());
    let mut g3: Vec<Tok> = Vec::new();
    assert(toks_model(g3@) =~= Seq::<TokModel>::empty());
    push_punct(&mut g3, '&', false);
    push_ident(&mut g3, "mut");
    push_ident(&mut g3, "self");
    push_group(out, Delim::Paren, g3);
    let mut g4: Vec<Tok> = Vec::new();
    assert(toks_model(g4@) =~= Seq::<TokModel>::empty());
    emit_m_hook_bind(&mut g4, h, states, data);
    push_punct(&mut g4, '#', false);
    let mut g5: Vec<Tok> = Vec::new();
    assert(toks_model(g5@) =~= Seq::<TokModel>::empty());
    push_ident(&mut g5, "allow");
    let mut g6: Vec<Tok> = Vec::new();
    assert(toks_model(g6@) =~= Seq::<TokModel>::empty());
    push_ident(&mut g6, "unused_variables");
    push_group(&mut g5, Delim::Paren, g6);
    push_group(&mut g4, Delim::Bracket, g5);
    push_ident(&mut g4, "let");
    push_ident(&mut g4, "ctx");
    push_punct(&mut g4, '=', false);
    push_punct(&mut g4, '&', false);
    push_ident(&mut g4, "mut");
    push_ident(&mut g4, "self");
    push_punct(&mut g4, '.', false);
    push_ident(&mut g4, "ctx");
    push_punct(&mut g4, ';', false);
    push_all(&mut g4, copy_toks(&h.body));
    push_group(out, Delim::Brace, g4);
}

/// The lifecycle hooks as methods, in order.
pub open spec fn m_hook_methods_after(o: Seq<TokModel>, items: Seq<HookModel>, data: Seq<char>, states: Seq<MachineStateModel>) -> Seq<TokModel>
    decreases items.len(),
{
    if items.len() == 0 {
        o
    } else {
        let o = m_hook_methods_after(o, items.drop_last(), data, states);
        m_hook_method_after(o, items.last(), data, states)
    }
}

fn emit_m_hook_methods(out: &mut Vec<Tok>, items: &Vec<LifecycleHook>, data: &str, states: &Vec<State>)
    ensures
        toks_model(final(out)@) == m_hook_methods_after(toks_model(old(out)@), hooks_model(items@), data@, machine_states_model(states@)),
{
    let ghost o = toks_model(out@);
    let ghost v = hooks_model(items@);
    let mut i: usize = 0;
    assert(v.take(0) =~= Seq::<HookModel>::empty());
    while i < items.len()
        invariant
            i <= items@.len(),
            v == hooks_model(items@),
            v.len() == items@.len(),
            toks_model(out@) == m_hook_methods_after(o, v.take(i as int), data@, machine_states_model(states@)),
        decreases items.len() - i,
    {
        assert(v.take(i + 1).drop_last() =~= v.take(i as int));
        assert(v.take(i + 1).last() == v[i as int]);
        emit_m_hook_method(out, &items[i], data, states);
        i += 1;
    }
    assert(v.take(i as int) =~= v);
}

/// A generated error type of a guarded transition.
pub open spec fn m_error_guarded_after(o: Seq<TokModel>, e: Seq<char>) -> Seq<TokModel> {
    let o = o.push(pa('#')).push(grp(Delim::Bracket, {
        let inner = Seq::<TokModel>::empty();
        let inner = inner.push(id("derive"@)).push(grp(Delim::Paren, {
        let inner = Seq::<TokModel>::empty();
        let inner = inner.push(id("Debug"@)).push(pa(',')).push(id("Clone"@)).push(pa(',')).push(id("PartialEq"@));
        inner
    }));
        inner
    })).push(id("pub"@)).push(id("enum"@)).push(id(e)).push(grp(Delim::Brace, {
        let inner = Seq::<TokModel>::empty();
        let inner = inner.push(id("InvalidState"@)).push(pa(',')).push(id("GuardFailed"@)).push(pa(','));
        inner
    })).push(id("impl"@)).push(id("std"@)).push(pj(':')).push(pa(':')).push(id("fmt"@)).push(pj(':')).push(pa(':')).push(id("Display"@)).push(id("for"@)).push(id(e)).push(grp(Delim::Brace, {
        let inner = Seq::<TokModel>::empty();
        let inner = inner.push(id("fn"@)).push(id("fmt"@)).push(grp(Delim::Paren, {
        let inner = Seq::<TokModel>::empty();
        let inner = inner.push(pa('&')).push(id("self"@)).push(pa(',')).push(id("f"@)).push(pa(':')).push(pa('&')).push(id("mut"@)).push(id("std"@)).push(pj(':')).push(pa(':')).push(id("fmt"@)).push(pj(':')).push(pa(':')).push(id("Formatter"@)).push(pa('<')).push(pj('\'')).push(id("_"@)).push(pa('>'));
        inner
    })).push(pj('-')).push(pa('>')).push(id("std"@)).push(pj(':')).push(pa(':')).push(id("fmt"@)).push(pj(':')).push(pa(':')).push(id("Result"@)).push(grp(Delim::Brace, {
        let inner = Seq::<TokModel>::empty();
        let inner = inner.push(id("match"@)).push(id("self"@)).push(grp(Delim::Brace, {
        let inner = Seq::<TokModel>::empty();
        let inner = inner.push(id("Self"@)).push(pj(':')).push(pa(':')).push(id("InvalidState"@)).push(pj('=')).push(pa('>')).push(id("write"@)).push(pa('!')).push(grp(Delim::Paren, {
        let inner = Seq::<TokModel>::empty();
        let inner = inner.push(id("f"@)).push(pa(',')).push(lit("\"invalid state for this transition\""@));
        inner
    })).push(pa(',')).push(id("Self"@)).push(pj(':')).push(pa(':')).push(id("GuardFailed"@)).push(pj('=')).push(pa('>')).push(id("write"@)).push(pa('!')).push(grp(Delim::Paren, {
        let inner = Seq::<TokModel>::empty();
        let inner = inner.push(id("f"@)).push(pa(',')).push(lit("\"guard condition failed\""@));
        inner
    })).push(pa(','));
        inner
    }));
        inner
    }));
        inner
    })).push(id("impl"@)).push(id("std"@)).push(pj(':'));
    let o = o.push(pa(':')).push(id("error"@)).push(pj(':')).push(pa(':')).push(id("Error"@)).push(id("for"@)).push(id(e)).push(grp(Delim::Brace, {
        let inner = Seq::<TokModel>::empty();

        inner
    }));
    o
}

fn emit_m_error_guarded(out: &mut Vec<Tok>, e: &str)
    ensures
        toks_model(final(out)@) == m_error_guarded_after(toks_model(old(out)@), e@),
{
    push_punct(out, '#', false);
    let mut g1: Vec<Tok> = Vec::new();
    assert(toks_model(g1@) =~= Seq::<TokModel>::empty());
    push_ident(&mut g1, "derive");
    let mut g2: Vec<Tok> = Vec::new();
    assert(toks_model(g2@) =~= Seq::<TokModel>::empty());
    push_ident(&mut g2, "Debug");
    push_punct(&mut g2, ',', false);
    push_ident(&mut g2, "Clone");
    push_punct(&mut g2, ',', false);
    push_ident(&mut g2, "PartialEq");
    push_group(&mut g1, Delim::Paren, g2);
    push_group(out, Delim::Bracket, g1);
    push_ident(out, "pub");
    push_ident(out, "enum");
    push_ident(out, e);
    let mut g3: Vec<Tok> = Vec::new();
    assert(toks_model(g3@) =~= Seq::<TokModel>::empty());
    push_ident(&mut g3, "InvalidState");
    push_punct(&mut g3, ',', false);
    push_ident(&mut g3, "GuardFailed");
    push_punct(&mut g3, ',', false);
    push_group(out, Delim::Brace, g3);
    push_ident(out, "impl");
    push_ident(out, "std");
    push_punct(out, ':', true);
    push_punct(out, ':', false);
    push_ident(out, "fmt");
    push_punct(out, ':', true);
    push_punct(out, ':', false);
    push_ident(out, "Display");
    push_ident(out, "for");
    push_ident(out, e);
    let mut g4: Vec<Tok> = Vec::new();
    assert(toks_model(g4@) =~= Seq::<TokModel>::empty());
    push_ident(&mut g4, "fn");
    push_ident(&mut g4, "fmt");
    let mut g5: Vec<Tok> = Vec::new();
    assert(toks_model(g5@) =~= Seq::<TokModel>::empty());
    push_punct(&mut g5, '&', false);
    push_ident(&mut g5, "self");
    push_punct(&mut g5, ',', false);
    push_ident(&mut g5, "f");
    push_punct(&mut g5, ':', false);
    push_punct(&mut g5, '&', false);
    push_ident(&mut g5, "mut");
    push_ident(&mut g5, "std");
    push_punct(&mut g5, ':', true);
    push_punct(&mut g5, ':', false);
    push_ident(&mut g5, "fmt");
    push_punct(&mut g5, ':', true);
    push_punct(&mut g5, ':', false);
    push_ident(&mut g5, "Formatter");
    push_punct(&mut g5, '<', false);
    push_punct(&mut g5, '\'', true);
    push_ident(&mut g5, "_");
    push_punct(&mut g5, '>', false);
    push_group(&mut g4, Delim::Paren, g5);
    push_punct(&mut g4, '-', true);
    push_punct(&mut g4, '>', false);
    push_ident(&mut g4, "std");
    push_punct(&mut g4, ':', true);
    push_punct(&mut g4, ':', false);
    push_ident(&mut g4, "fmt");
    push_punct(&mut g4, ':', true);
    push_punct(&mut g4, ':', false);
    push_ident(&mut g4, "Result");
    let mut g6: Vec<Tok> = Vec::new();
    assert(toks_model(g6@) =~= Seq::<TokModel>::empty());
    push_ident(&mut g6, "match");
    push_ident(&mut g6, "self");
    let mut g7: Vec<Tok> = Vec::new();
    assert(toks_model(g7@) =~= Seq::<TokModel>::empty());
    push_ident(&mut g7, "Self");
    push_punct(&mut g7, ':', true);
    push_punct(&mut g7, ':', false);
    push_ident(&mut g7, "InvalidState");
    push_punct(&mut g7, '=', true);
    push_punct(&mut g7, '>', false);
    push_ident(&mut g7, "write");
    push_punct(&mut g7, '!', false);
    let mut g8: Vec<Tok> = Vec::new();
    assert(toks_model(g8@) =~= Seq::<TokModel>::empty());
    push_ident(&mut g8, "f");
    push_punct(&mut g8, ',', false);
    push_literal(&mut g8, "\"invalid state for this transition\"");
    push_group(&mut g7, Delim::Paren, g8);
    push_punct(&mut g7, ',', false);
    push_ident(&mut g7, "Self");
    push_punct(&mut g7, ':', true);
    push_punct(&mut g7, ':', false);
    push_ident(&mut g7, "GuardFailed");
    push_punct(&mut g7, '=', true);
    push_punct(&mut g7, '>', false);
    push_ident(&mut g7, "write");
    push_punct(&mut g7, '!', false);
    let mut g9: Vec<Tok> = Vec::new();
    assert(toks_model(g9@) =~= Seq::<TokModel>::empty());
    push_ident(&mut g9, "f");
    push_punct(&mut g9, ',', false);
    push_literal(&mut g9, "\"guard condition failed\"");
    push_group(&mut g7, Delim::Paren, g9);
    push_punct(&mut g7, ',', false);
    push_group(&mut g6, Delim::Brace, g7);
    push_group(&mut g4, Delim::Brace, g6);
    push_group(out, Delim::Brace, g4);
    push_ident(out, "impl");
    push_ident(out, "std");
    push_punct(out, ':', true);
    push_punct(out, ':', false);
    push_ident(out, "error");
    push_punct(out, ':', true);
    push_punct(out, ':', false);
    push_ident(out, "Error");
    push_ident(out, "for");
    push_ident(out, e);
    let mut g10: Vec<Tok> = Vec::new();
    assert(toks_model(g10@) =~= Seq::<TokModel>::empty());
    push_group(out, Delim::Brace, g10);
}

/// A generated error type of a transition without a guard.
pub open spec fn m_error_plain_after(o: Seq<TokModel>, e: Seq<char>) -> Seq<TokModel> {
    let o = o.push(pa('#')).push(grp(Delim::Bracket, {
        let inner = Seq::<TokModel>::empty();
        let inner = inner.push(id("derive"@)).push(grp(Delim::Paren, {
        let inner = Seq::<TokModel>::empty();
        let inner = inner.push(id("Debug"@)).push(pa(',')).push(id("Clone"@)).push(pa(',')).push(id("PartialEq"@));
        inner
    }));
        inner
    })).push(id("pub"@)).push(id("enum"@)).push(id(e)).push(grp(Delim::Brace, {
        let inner = Seq::<TokModel>::empty();
        let inner = inner.push(id("InvalidState"@)).push(pa(','));
        inner
    })).push(id("impl"@)).push(id("std"@)).push(pj(':')).push(pa(':')).push(id("fmt"@)).push(pj(':')).push(pa(':')).push(id("Display"@)).push(id("for"@)).push(id(e)).push(grp(Delim::Brace, {
        let inner = Seq::<TokModel>::empty();
        let inner = inner.push(id("fn"@)).push(id("fmt"@)).push(grp(Delim::Paren, {
        let inner = Seq::<TokModel>::empty();
        let inner = inner.push(pa('&')).push(id("self"@)).push(pa(',')).push(id("f"@)).push(pa(':')).push(pa('&')).push(id("mut"@)).push(id("std"@)).push(pj(':')).push(pa(':')).push(id("fmt"@)).push(pj(':')).push(pa(':')).push(id("Formatter"@)).push(pa('<')).push(pj('\'')).push(id("_"@)).push(pa('>'));
        inner
    })).push(pj('-')).push(pa('>')).push(id("std"@)).push(pj(':')).push(pa(':')).push(id("fmt"@)).push(pj(':')).push(pa(':')).push(id("Result"@)).push(grp(Delim::Brace, {
        let inner = Seq::<TokModel>::empty();
        let inner = inner.push(id("match"@)).push(id("self"@)).push(grp(Delim::Brace, {
        let inner = Seq::<TokModel>::empty();
        let inner = inner.push(id("Self"@)).push(pj(':')).push(pa(':')).push(id("InvalidState"@)).push(pj('=')).push(pa('>')).push(id("write"@)).push(pa('!')).push(grp(Delim::Paren, {
        let inner = Seq::<TokModel>::empty();
        let inner = inner.push(id("f"@)).push(pa(',')).push(lit("\"invalid state for this transition\""@));
        inner
    })).push(pa(','));
        inner
    }));
        inner
    }));
        inner
    })).push(id("impl"@)).push(id("std"@)).push(pj(':'));
    let o = o.push(pa(':')).push(id("error"@)).push(pj(':')).push(pa(':')).push(id("Error"@)).push(id("for"@)).push(id(e)).push(grp(Delim::Brace, {
        let inner = Seq::<TokModel>::empty();

        inner
    }));
    o
}

fn emit_m_error_plain(out: &mut Vec<Tok>, e: &str)
    ensures
        toks_model(final(out)@) == m_error_plain_after(toks_model(old(out)@), e@),
{
    push_punct(out, '#', false);
    let mut g1: Vec<Tok> = Vec::new();
    assert(toks_model(g1@) =~= Seq::<TokModel>::empty());
    push_ident(&mut g1, "derive");
    let mut g2: Vec<Tok> = Vec::new();
    assert(toks_model(g2@) =~= Seq::<TokModel>::empty());
    push_ident(&mut g2, "Debug");
    push_punct(&mut g2, ',', false);
    push_ident(&mut g2, "Clone");
    push_punct(&mut g2, ',', false);
    push_ident(&mut g2, "PartialEq");
    push_group(&mut g1, Delim::Paren, g2);
    push_group(out, Delim::Bracket, g1);
    push_ident(out, "pub");
    push_ident(out, "enum");
    push_ident(out, e);
    let mut g3: Vec<Tok> = Vec::new();
    assert(toks_model(g3@) =~= Seq::<TokModel>::empty());
    push_ident(&mut g3, "InvalidState");
    push_punct(&mut g3, ',', false);
    push_group(out, Delim::Brace, g3);
    push_ident(out, "impl");
    push_ident(out, "std");
    push_punct(out, ':', true);
    push_punct(out, ':', false);
    push_ident(out, "fmt");
    push_punct(out, ':', true);
    push_punct(out, ':', false);
    push_ident(out, "Display");
    push_ident(out, "for");
    push_ident(out, e);
    let mut g4: Vec<Tok> = Vec::new();
    assert(toks_model(g4@) =~= Seq::<TokModel>::empty());
    push_ident(&mut g4, "fn");
    push_ident(&mut g4, "fmt");
    let mut g5: Vec<Tok> = Vec::new();
    assert(toks_model(g5@) =~= Seq::<TokModel>::empty());
    push_punct(&mut g5, '&', false);
    push_ident(&mut g5, "self");
    push_punct(&mut g5, ',', false);
    push_ident(&mut g5, "f");
    push_punct(&mut g5, ':', false);
    push_punct(&mut g5, '&', false);
    push_ident(&mut g5, "mut");
    push_ident(&mut g5, "std");
    push_punct(&mut g5, ':', true);
    push_punct(&mut g5, ':', false);
    push_ident(&mut g5, "fmt");
    push_punct(&mut g5, ':', true);
    push_punct(&mut g5, ':', false);
    push_ident(&mut g5, "Formatter");
    push_punct(&mut g5, '<', false);
    push_punct(&mut g5, '\'', true);
    push_ident(&mut g5, "_");
    push_punct(&mut g5, '>', false);
    push_group(&mut g4, Delim::Paren, g5);
    push_punct(&mut g4, '-', true);
    push_punct(&mut g4, '>', false);
    push_ident(&mut g4, "std");
    push_punct(&mut g4, ':', true);
    push_punct(&mut g4, ':', false);
    push_ident(&mut g4, "fmt");
    push_punct(&mut g4, ':', true);
    push_punct(&mut g4, ':', false);
    push_ident(&mut g4, "Result");
    let mut g6: Vec<Tok> = Vec::new();
    assert(toks_model(g6@) =~= Seq::<TokModel>::empty());
    push_ident(&mut g6, "match");
    push_ident(&mut g6, "self");
    let mut g7: Vec<Tok> = Vec::new();
    assert(toks_model(g7@) =~= Seq::<TokModel>::empty());
    push_ident(&mut g7, "Self");
    push_punct(&mut g7, ':', true);
    push_punct(&mut g7, ':', false);
    push_ident(&mut g7, "InvalidState");
    push_punct(&mut g7, '=', true);
    push_punct(&mut g7, '>', false);
    push_ident(&mut g7, "write");
    push_punct(&mut g7, '!', false);
    let mut g8: Vec<Tok> = Vec::new();
    assert(toks_model(g8@) =~= Seq::<TokModel>::empty());
    push_ident(&mut g8, "f");
    push_punct(&mut g8, ',', false);
    push_literal(&mut g8, "\"invalid state for this transition\"");
    push_group(&mut g7, Delim::Paren, g8);
    push_punct(&mut g7, ',', false);
    push_group(&mut g6, Delim::Brace, g7);
    push_group(&mut g4, Delim::Brace, g6);
    push_group(out, Delim::Brace, g4);
    push_ident(out, "impl");
    push_ident(out, "std");
    push_punct(out, ':', true);
    push_punct(out, ':', false);
    push_ident(out, "error");
    push_punct(out, ':', true);
    push_punct(out, ':', false);
    push_ident(out, "Error");
    push_ident(out, "for");
    push_ident(out, e);
    let mut g9: Vec<Tok> = Vec::new();
    assert(toks_model(g9@) =~= Seq::<TokModel>::empty());
    push_group(out, Delim::Brace, g9);
}

/// The generated error types, in order.
pub open spec fn m_errors_after(o: Seq<TokModel>, items: Seq<(Seq<char>, bool)>) -> Seq<TokModel>
    decreases items.len(),
{
    if items.len() == 0 {
        o
    } else {
        let o = m_errors_after(o, items.drop_last());
        m_error_after(o, items.last())
    }
}

fn emit_m_errors(out: &mut Vec<Tok>, items: &Vec<(String, bool)>)
    ensures
        toks_model(final(out)@) == m_errors_after(toks_model(old(out)@), errors_model(items@)),
{
    let ghost o = toks_model(out@);
    let ghost v = errors_model(items@);
    let mut i: usize = 0;
    assert(v.take(0) =~= Seq::<(Seq<char>, bool)>::empty());
    while i < items.len()
        invariant
            i <= items@.len(),
            v == errors_model(items@),
            v.len() == items@.len(),
            toks_model(out@) == m_errors_after(o, v.take(i as int)),
        decreases items.len() - i,
    {
        assert(v.take(i + 1).drop_last() =~= v.take(i as int));
        assert(v.take(i + 1).last() == v[i as int]);
        emit_m_error(out, &items[i]);
        i += 1;
    }
    assert(v.take(i as int) =~= v);
}

/// A handle method of a transition with a user error type: it runs the handler under the write lock and reports a refusal as `InvalidState`, the body's error as `User`.
pub open spec fn m_sync_user_method_after(o: Seq<TokModel>, t: MachineTransitionModel) -> Seq<TokModel> {
    let o = o.push(id("pub"@)).push(id("fn"@)).push(id(t.name@)).push(grp(Delim::Paren, {
        let inner = Seq::<TokModel>::empty();
        let inner = inner.push(pa('&')).push(id("self"@)).push(pa(','));
        let inner = m_arg_decls_after(inner, t.args);
        inner
    })).push(pj('-')).push(pa('>')).push(id("Result"@)).push(pa('<')).push(grp(Delim::Paren, {
        let inner = Seq::<TokModel>::empty();

        inner
    })).push(pa(',')).push(id("ssm"@)).push(pj(':')).push(pa(':')).push(id("TransitionError"@)).push(pa('<'));
    let o = m_opt_after(o, t.error_type);
    let o = o.push(pa('>')).push(pa('>')).push(grp(Delim::Brace, {
        let inner = Seq::<TokModel>::empty();
        let inner = inner.push(id("let"@)).push(id("mut"@)).push(id("guard"@)).push(pa('=')).push(id("self"@)).push(pa('.')).push(id("inner"@)).push(pa('.')).push(id("write"@)).push(grp(Delim::Paren, {
        let inner = Seq::<TokModel>::empty();

        inner
    })).push(pa('.')).push(id("unwrap"@)).push(grp(Delim::Paren, {
        let inner = Seq::<TokModel>::empty();

        inner
    })).push(pa(';')).push(id("match"@)).push(id("guard"@)).push(pa('.')).push(id("handle_"@ + t.name@)).push(grp(Delim::Paren, {
        let inner = Seq::<TokModel>::empty();
        let inner = m_arg_names_after(inner, t.args);
        inner
    })).push(grp(Delim::Brace, {
        let inner = Seq::<TokModel>::empty();
        let inner = inner.push(id("Ok"@)).push(grp(Delim::Paren, {
        let inner = Seq::<TokModel>::empty();
        let inner = inner.push(grp(Delim::Paren, {
        let inner = Seq::<TokModel>::empty();

        inner
    }));
        inner
    })).push(pj('=')).push(pa('>')).push(id("Ok"@)).push(grp(Delim::Paren, {
        let inner = Seq::<TokModel>::empty();
        let inner = inner.push(grp(Delim::Paren, {
        let inner = Seq::<TokModel>::empty();

        inner
    }));
        inner
    })).push(pa(',')).push(id("Err"@)).push(grp(Delim::Paren, {
        let inner = Seq::<TokModel>::empty();
        let inner = inner.push(id("None"@));
        inner
    })).push(pj('=')).push(pa('>')).push(id("Err"@)).push(grp(Delim::Paren, {
        let inner = Seq::<TokModel>::empty();
        let inner = inner.push(id("ssm"@)).push(pj(':')).push(pa(':')).push(id("TransitionError"@)).push(pj(':')).push(pa(':')).push(id("InvalidState"@));
        inner
    })).push(pa(',')).push(id("Err"@)).push(grp(Delim::Paren, {
        let inner = Seq::<TokModel>::empty();
        let inner = inner.push(id("Some"@)).push(grp(Delim::Paren, {
        let inner = Seq::<TokModel>::empty();
        let inner = inner.push(id("e"@));
        inner
    }));
        inner
    })).push(pj('=')).push(pa('>')).push(id("Err"@)).push(grp(Delim::Paren, {
        let inner = Seq::<TokModel>::empty();
        let inner = inner.push(id("ssm"@)).push(pj(':')).push(pa(':')).push(id("TransitionError"@)).push(pj(':')).push(pa(':')).push(id("User"@)).push(grp(Delim::Paren, {
        let inner = Seq::<TokModel>::empty();
        let inner = inner.push(id("e"@));
        inner
    }));
        inner
    }));
        let inner = inner.push(pa(','));
        inner
    }));
        inner
    }));
    o
}

fn emit_m_sync_user_method(out: &mut Vec<Tok>, t: &Transition)
    ensures
        toks_model(final(out)@) == m_sync_user_method_after(toks_model(old(out)@), t@),
{
    push_ident(out, "pub");
    push_ident(out, "fn");
    push_ident(out, t.name.as_str());
    let mut g1: Vec<Tok> = Vec::new();
    assert(toks_model(g1@) =~= Seq::<TokModel>::empty());
    push_punct(&mut g1, '&', false);
    push_ident(&mut g1, "self");
    push_punct(&mut g1, ',', false);
    emit_m_arg_decls(&mut g1, &t.args);
    push_group(out, Delim::Paren, g1);
    push_punct(out, '-', true);
    push_punct(out, '>', false);
    push_ident(out, "Result");
    push_punct(out, '<', false);
    let mut g2: Vec<Tok> = Vec::new();
    assert(toks_model(g2@) =~= Seq::<TokModel>::empty());
    push_group(out, Delim::Paren, g2);
    push_punct(out, ',', false);
    push_ident(out, "ssm");
    push_punct(out, ':', true);
    push_punct(out, ':', false);
    push_ident(out, "TransitionError");
    push_punct(out, '<', false);
    emit_m_opt(out, &t.error_type);
    push_punct(out, '>', false);
    push_punct(out, '>', false);
    let mut g3: Vec<Tok> = Vec::new();
    assert(toks_model(g3@) =~= Seq::<TokModel>::empty());
    push_ident(&mut g3, "let");
    push_ident(&mut g3, "mut");
    push_ident(&mut g3, "guard");
    push_punct(&mut g3, '=', false);
    push_ident(&mut g3, "self");
    push_punct(&mut g3, '.', false);
    push_ident(&mut g3, "inner");
    push_punct(&mut g3, '.', false);
    push_ident(&mut g3, "write");
    let mut g4: Vec<Tok> = Vec::new();
    assert(toks_model(g4@) =~= Seq::<TokModel>::empty());
    push_group(&mut g3, Delim::Paren, g4);
    push_punct(&mut g3, '.', false);
    push_ident(&mut g3, "unwrap");
    let mut g5: Vec<Tok> = Vec::new();
    assert(toks_model(g5@) =~= Seq::<TokModel>::empty());
    push_group(&mut g3, Delim::Paren, g5);
    push_punct(&mut g3, ';', false);
    push_ident(&mut g3, "match");
    push_ident(&mut g3, "guard");
    push_punct(&mut g3, '.', false);
    push_ident(&mut g3, handler_name(t.name.as_str()).as_str());
    let mut g6: Vec<Tok> = Vec::new();
    assert(toks_model(g6@) =~= Seq::<TokModel>::empty());
    emit_m_arg_names(&mut g6, &t.args);
    push_group(&mut g3, Delim::Paren, g6);
    let mut g7: Vec<Tok> = Vec::new();
    assert(toks_model(g7@) =~= Seq::<TokModel>::empty());
    push_ident(&mut g7, "Ok");
    let mut g8: Vec<Tok> = Vec::new();
    assert(toks_model(g8@) =~= Seq::<TokModel>::empty());
    let mut g9: Vec<Tok> = Vec::new();
    assert(toks_model(g9@) =~= Seq::<TokModel>::empty());
    push_group(&mut g8, Delim::Paren, g9);
    push_group(&mut g7, Delim::Paren, g8);
    push_punct(&mut g7, '=', true);
    push_punct(&mut g7, '>', false);
    push_ident(&mut g7, "Ok");
    let mut g10: Vec<Tok> = Vec::new();
    assert(toks_model(g10@) =~= Seq::<TokModel>::empty());
    let mut g11: Vec<Tok> = Vec::new();
    assert(toks_model(g11@) =~= Seq::<TokModel>::empty());
    push_group(&mut g10, Delim::Paren, g11);
    push_group(&mut g7, Delim::Paren, g10);
    push_punct(&mut g7, ',', false);
    push_ident(&mut g7, "Err");
    let mut g12: Vec<Tok> = Vec::new();
    assert(toks_model(g12@) =~= Seq::<TokModel>::empty());
    push_ident(&mut g12, "None");
    push_group(&mut g7, Delim::Paren, g12);
    push_punct(&mut g7, '=', true);
    push_punct(&mut g7, '>', false);
    push_ident(&mut g7, "Err");
    let mut g13: Vec<Tok> = Vec::new();
    assert(toks_model(g13@) =~= Seq::<TokModel>::empty());
    push_ident(&mut g13, "ssm");
    push_punct(&mut g13, ':', true);
    push_punct(&mut g13, ':', false);
    push_ident(&mut g13, "TransitionError");
    push_punct(&mut g13, ':', true);
    push_punct(&mut g13, ':', false);
    push_ident(&mut g13, "InvalidState");
    push_group(&mut g7, Delim::Paren, g13);
    push_punct(&mut g7, ',', false);
    push_ident(&mut g7, "Err");
    let mut g14: Vec<Tok> = Vec::new();
    assert(toks_model(g14@) =~= Seq::<TokModel>::empty());
    push_ident(&mut g14, "Some");
    let mut g15: Vec<Tok> = Vec::new();
    assert(toks_model(g15@) =~= Seq::<TokModel>::empty());
    push_ident(&mut g15, "e");
    push_group(&mut g14, Delim::Paren, g15);
    push_group(&mut g7, Delim::Paren, g14);
    push_punct(&mut g7, '=', true);
    push_punct(&mut g7, '>', false);
    push_ident(&mut g7, "Err");
    let mut g16: Vec<Tok> = Vec::new();
    assert(toks_model(g16@) =~= Seq::<TokModel>::empty());
    push_ident(&mut g16, "ssm");
    push_punct(&mut g16, ':', true);
    push_punct(&mut g16, ':', false);
    push_ident(&mut g16, "TransitionError");
    push_punct(&mut g16, ':', true);
    push_punct(&mut g16, ':', false);
    push_ident(&mut g16, "User");
    let mut g17: Vec<Tok> = Vec::new();
    assert(toks_model(g17@) =~= Seq::<TokModel>::empty());
    push_ident(&mut g17, "e");
    push_group(&mut g16, Delim::Paren, g17);
    push_group(&mut g7, Delim::Paren, g16);
    push_punct(&mut g7, ',', false);
    push_group(&mut g3, Delim::Brace, g7);
    push_group(out, Delim::Brace, g3);
}

/// A handle method of a transition with a generated error type: it runs the handler under the write lock.
pub open spec fn m_sync_gen_method_after(o: Seq<TokModel>, t: MachineTransitionModel) -> Seq<TokModel> {
    let o = o.push(id("pub"@)).push(id("fn"@)).push(id(t.name@)).push(grp(Delim::Paren, {
        let inner = Seq::<TokModel>::empty();
        let inner = inner.push(pa('&')).push(id("self"@)).push(pa(','));
        let inner = m_arg_decls_after(inner, t.args);
        inner
    })).push(pj('-')).push(pa('>')).push(id("Result"@)).push(pa('<')).push(grp(Delim::Paren, {
        let inner = Seq::<TokModel>::empty();

        inner
    })).push(pa(',')).push(id(pascal_case(t.name@, true) + "Error"@)).push(pa('>')).push(grp(Delim::Brace, {
        let inner = Seq::<TokModel>::empty();
        let inner = inner.push(id("let"@)).push(id("mut"@)).push(id("guard"@)).push(pa('=')).push(id("self"@)).push(pa('.')).push(id("inner"@)).push(pa('.')).push(id("write"@)).push(grp(Delim::Paren, {
        let inner = Seq::<TokModel>::empty();

        inner
    })).push(pa('.')).push(id("unwrap"@)).push(grp(Delim::Paren, {
        let inner = Seq::<TokModel>::empty();

        inner
    })).push(pa(';')).push(id("guard"@)).push(pa('.')).push(id("handle_"@ + t.name@)).push(grp(Delim::Paren, {
        let inner = Seq::<TokModel>::empty();
        let inner = m_arg_names_after(inner, t.args);
        inner
    }));
        inner
    }));
    o
}

fn emit_m_sync_gen_method(out: &mut Vec<Tok>, t: &Transition)
    ensures
        toks_model(final(out)@) == m_sync_gen_method_after(toks_model(old(out)@), t@),
{
    push_ident(out, "pub");
    push_ident(out, "fn");
    push_ident(out, t.name.as_str());
    let mut g1: Vec<Tok> = Vec::new();
    assert(toks_model(g1@) =~= Seq::<TokModel>::empty());
    push_punct(&mut g1, '&', false);
    push_ident(&mut g1, "self");
    push_punct(&mut g1, ',', false);
    emit_m_arg_decls(&mut g1, &t.args);
    push_group(out, Delim::Paren, g1);
    push_punct(out, '-', true);
    push_punct(out, '>', false);
    push_ident(out, "Result");
    push_punct(out, '<', false);
    let mut g2: Vec<Tok> = Vec::new();
    assert(toks_model(g2@) =~= Seq::<TokModel>::empty());
    push_group(out, Delim::Paren, g2);
    push_punct(out, ',', false);
    push_ident(out, error_name(t.name.as_str()).as_str());
    push_punct(out, '>', false);
    let mut g3: Vec<Tok> = Vec::new();
    assert(toks_model(g3@) =~= Seq::<TokModel>::empty());
    push_ident(&mut g3, "let");
    push_ident(&mut g3, "mut");
    push_ident(&mut g3, "guard");
    push_punct(&mut g3, '=', false);
    push_ident(&mut g3, "self");
    push_punct(&mut g3, '.', false);
    push_ident(&mut g3, "inner");
    push_punct(&mut g3, '.', false);
    push_ident(&mut g3, "write");
    let mut g4: Vec<Tok> = Vec::new();
    assert(toks_model(g4@) =~= Seq::<TokModel>::empty());
    push_group(&mut g3, Delim::Paren, g4);
    push_punct(&mut g3, '.', false);
    push_ident(&mut g3, "unwrap");
    let mut g5: Vec<Tok> = Vec::new();
    assert(toks_model(g5@) =~= Seq::<TokModel>::empty());
    push_group(&mut g3, Delim::Paren, g5);
    push_punct(&mut g3, ';', false);
    push_ident(&mut g3, "guard");
    push_punct(&mut g3, '.', false);
    push_ident(&mut g3, handler_name(t.name.as_str()).as_str());
    let mut g6: Vec<Tok> = Vec::new();
    assert(toks_model(g6@) =~= Seq::<TokModel>::empty());
    emit_m_arg_names(&mut g6, &t.args);
    push_group(&mut g3, Delim::Paren, g6);
    push_group(out, Delim::Brace, g3);
}

/// The async handle method of a transition with a user error type.
pub open spec fn m_async_user_method_after(o: Seq<TokModel>, t: MachineTransitionModel) -> Seq<TokModel> {
    let o = o.push(id("pub"@)).push(id("async"@)).push(id("fn"@)).push(id(t.name@)).push(grp(Delim::Paren, {
        let inner = Seq::<TokModel>::empty();
        let inner = inner.push(pa('&')).push(id("self"@)).push(pa(','));
        let inner = m_arg_decls_after(inner, t.args);
        inner
    })).push(pj('-')).push(pa('>')).push(id("Result"@)).push(pa('<')).push(grp(Delim::Paren, {
        let inner = Seq::<TokModel>::empty();

        inner
    })).push(pa(',')).push(id("ssm"@)).push(pj(':')).push(pa(':')).push(id("TransitionError"@)).push(pa('<'));
    let o = m_opt_after(o, t.error_type);
    let o = o.push(pa('>')).push(pa('>')).push(grp(Delim::Brace, {
        let inner = Seq::<TokModel>::empty();
        let inner = inner.push(id("let"@)).push(id("mut"@)).push(id("guard"@)).push(pa('=')).push(id("self"@)).push(pa('.')).push(id("inner"@)).push(pa('.')).push(id("write"@)).push(grp(Delim::Paren, {
        let inner = Seq::<TokModel>::empty();

        inner
    })).push(pa('.')).push(id("await"@)).push(pa(';')).push(id("match"@)).push(id("guard"@)).push(pa('.')).push(id("handle_"@ + t.name@)).push(grp(Delim::Paren, {
        let inner = Seq::<TokModel>::empty();
        let inner = m_arg_names_after(inner, t.args);
        inner
    })).push(grp(Delim::Brace, {
        let inner = Seq::<TokModel>::empty();
        let inner = inner.push(id("Ok"@)).push(grp(Delim::Paren, {
        let inner = Seq::<TokModel>::empty();
        let inner = inner.push(grp(Delim::Paren, {
        let inner = Seq::<TokModel>::empty();

        inner
    }));
        inner
    })).push(pj('=')).push(pa('>')).push(id("Ok"@)).push(grp(Delim::Paren, {
        let inner = Seq::<TokModel>::empty();
        let inner = inner.push(grp(Delim::Paren, {
        let inner = Seq::<TokModel>::empty();

        inner
    }));
        inner
    })).push(pa(',')).push(id("Err"@)).push(grp(Delim::Paren, {
        let inner = Seq::<TokModel>::empty();
        let inner = inner.push(id("None"@));
        inner
    })).push(pj('=')).push(pa('>')).push(id("Err"@)).push(grp(Delim::Paren, {
        let inner = Seq::<TokModel>::empty();
        let inner = inner.push(id("ssm"@)).push(pj(':')).push(pa(':')).push(id("TransitionError"@)).push(pj(':')).push(pa(':')).push(id("InvalidState"@));
        inner
    })).push(pa(',')).push(id("Err"@)).push(grp(Delim::Paren, {
        let inner = Seq::<TokModel>::empty();
        let inner = inner.push(id("Some"@)).push(grp(Delim::Paren, {
        let inner = Seq::<TokModel>::empty();
        let inner = inner.push(id("e"@));
        inner
    }));
        inner
    })).push(pj('=')).push(pa('>')).push(id("Err"@)).push(grp(Delim::Paren, {
        let inner = Seq::<TokModel>::empty();
        let inner = inner.push(id("ssm"@)).push(pj(':')).push(pa(':')).push(id("TransitionError"@)).push(pj(':')).push(pa(':')).push(id("User"@)).push(grp(Delim::Paren, {
        let inner = Seq::<TokModel>::empty();
        let inner = inner.push(id("e"@));
        inner
    }));
        inner
    }));
        let inner = inner.push(pa(','));
        inner
    }));
        inner
    }));
    o
}

fn emit_m_async_user_method(out: &mut Vec<Tok>, t: &Transition)
    ensures
        toks_model(final(out)@) == m_async_user_method_after(toks_model(old(out)@), t@),
{
    push_ident(out, "pub");
    push_ident(out, "async");
    push_ident(out, "fn");
    push_ident(out, t.name.as_str());
    let mut g1: Vec<Tok> = Vec::new();
    assert(toks_model(g1@) =~= Seq::<TokModel>::empty());
    push_punct(&mut g1, '&', false);
    push_ident(&mut g1, "self");
    push_punct(&mut g1, ',', false);
    emit_m_arg_decls(&mut g1, &t.args);
    push_group(out, Delim::Paren, g1);
    push_punct(out, '-', true);
    push_punct(out, '>', false);
    push_ident(out, "Result");
    push_punct(out, '<', false);
    let mut g2: Vec<Tok> = Vec::new();
    assert(toks_model(g2@) =~= Seq::<TokModel>::empty());
    push_group(out, Delim::Paren, g2);
    push_punct(out, ',', false);
    push_ident(out, "ssm");
    push_punct(out, ':', true);
    push_punct(out, ':', false);
    push_ident(out, "TransitionError");
    push_punct(out, '<', false);
    emit_m_opt(out, &t.error_type);
    push_punct(out, '>', false);
    push_punct(out, '>', false);
    let mut g3: Vec<Tok> = Vec::new();
    assert(toks_model(g3@) =~= Seq::<TokModel>::empty());
    push_ident(&mut g3, "let");
    push_ident(&mut g3, "mut");
    push_ident(&mut g3, "guard");
    push_punct(&mut g3, '=', false);
    push_ident(&mut g3, "self");
    push_punct(&mut g3, '.', false);
    push_ident(&mut g3, "inner");
    push_punct(&mut g3, '.', false);
    push_ident(&mut g3, "write");
    let mut g4: Vec<Tok> = Vec::new();
    assert(toks_model(g4@) =~= Seq::<TokModel>::empty());
    push_group(&mut g3, Delim::Paren, g4);
    push_punct(&mut g3, '.', false);
    push_ident(&mut g3, "await");
    push_punct(&mut g3, ';', false);
    push_ident(&mut g3, "match");
    push_ident(&mut g3, "guard");
    push_punct(&mut g3, '.', false);
    push_ident(&mut g3, handler_name(t.name.as_str()).as_str());
    let mut g5: Vec<Tok> = Vec::new();
    assert(toks_model(g5@) =~= Seq::<TokModel>::empty());
    emit_m_arg_names(&mut g5, &t.args);
    push_group(&mut g3, Delim::Paren, g5);
    let mut g6: Vec<Tok> = Vec::new();
    assert(toks_model(g6@) =~= Seq::<TokModel>::empty());
    push_ident(&mut g6, "Ok");
    let mut g7: Vec<Tok> = Vec::new();
    assert(toks_model(g7@) =~= Seq::<TokModel>::empty());
    let mut g8: Vec<Tok> = Vec::new();
    assert(toks_model(g8@) =~= Seq::<TokModel>::empty());
    push_group(&mut g7, Delim::Paren, g8);
    push_group(&mut g6, Delim::Paren, g7);
    push_punct(&mut g6, '=', true);
    push_punct(&mut g6, '>', false);
    push_ident(&mut g6, "Ok");
    let mut g9: Vec<Tok> = Vec::new();
    assert(toks_model(g9@) =~= Seq::<TokModel>::empty());
    let mut g10: Vec<Tok> = Vec::new();
    assert(toks_model(g10@) =~= Seq::<TokModel>::empty());
    push_group(&mut g9, Delim::Paren, g10);
    push_group(&mut g6, Delim::Paren, g9);
    push_punct(&mut g6, ',', false);
    push_ident(&mut g6, "Err");
    let mut g11: Vec<Tok> = Vec::new();
    assert(toks_model(g11@) =~= Seq::<TokModel>::empty());
    push_ident(&mut g11, "None");
    push_group(&mut g6, Delim::Paren, g11);
    push_punct(&mut g6, '=', true);
    push_punct(&mut g6, '>', false);
    push_ident(&mut g6, "Err");
    let mut g12: Vec<Tok> = Vec::new();
    assert(toks_model(g12@) =~= Seq::<TokModel>::empty());
    push_ident(&mut g12, "ssm");
    push_punct(&mut g12, ':', true);
    push_punct(&mut g12, ':', false);
    push_ident(&mut g12, "TransitionError");
    push_punct(&mut g12, ':', true);
    push_punct(&mut g12, ':', false);
    push_ident(&mut g12, "InvalidState");
    push_group(&mut g6, Delim::Paren, g12);
    push_punct(&mut g6, ',', false);
    push_ident(&mut g6, "Err");
    let mut g13: Vec<Tok> = Vec::new();
    assert(toks_model(g13@) =~= Seq::<TokModel>::empty());
    push_ident(&mut g13, "Some");
    let mut g14: Vec<Tok> = Vec::new();
    assert(toks_model(g14@) =~= Seq::<TokModel>::empty());
    push_ident(&mut g14, "e");
    push_group(&mut g13, Delim::Paren, g14);
    push_group(&mut g6, Delim::Paren, g13);
    push_punct(&mut g6, '=', true);
    push_punct(&mut g6, '>', false);
    push_ident(&mut g6, "Err");
    let mut g15: Vec<Tok> = Vec::new();
    assert(toks_model(g15@) =~= Seq::<TokModel>::empty());
    push_ident(&mut g15, "ssm");
    push_punct(&mut g15, ':', true);
    push_punct(&mut g15, ':', false);
    push_ident(&mut g15, "TransitionError");
    push_punct(&mut g15, ':', true);
    push_punct(&mut g15, ':', false);
    push_ident(&mut g15, "User");
    let mut g16: Vec<Tok> = Vec::new();
    assert(toks_model(g16@) =~= Seq::<TokModel>::empty());
    push_ident(&mut g16, "e");
    push_group(&mut g15, Delim::Paren, g16);
    push_group(&mut g6, Delim::Paren, g15);
    push_punct(&mut g6, ',', false);
    push_group(&mut g3, Delim::Brace, g6);
    push_group(out, Delim::Brace, g3);
}

/// The async handle method of a transition with a generated error type.
pub open spec fn m_async_gen_method_after(o: Seq<TokModel>, t: MachineTransitionModel) -> Seq<TokModel> {
    let o = o.push(id("pub"@)).push(id("async"@)).push(id("fn"@)).push(id(t.name@)).push(grp(Delim::Paren, {
        let inner = Seq::<TokModel>::empty();
        let inner = inner.push(pa('&')).push(id("self"@)).push(pa(','));
        let inner = m_arg_decls_after(inner, t.args);
        inner
    })).push(pj('-')).push(pa('>')).push(id("Result"@)).push(pa('<')).push(grp(Delim::Paren, {
        let inner = Seq::<TokModel>::empty();

        inner
    })).push(pa(',')).push(id(pascal_case(t.name@, true) + "Error"@)).push(pa('>')).push(grp(Delim::Brace, {
        let inner = Seq::<TokModel>::empty();
        let inner = inner.push(id("let"@)).push(id("mut"@)).push(id("guard"@)).push(pa('=')).push(id("self"@)).push(pa('.')).push(id("inner"@)).push(pa('.')).push(id("write"@)).push(grp(Delim::Paren, {
        let inner = Seq::<TokModel>::empty();

        inner
    })).push(pa('.')).push(id("await"@)).push(pa(';')).push(id("guard"@)).push(pa('.')).push(id("handle_"@ + t.name@)).push(grp(Delim::Paren, {
        let inner = Seq::<TokModel>::empty();
        let inner = m_arg_names_after(inner, t.args);
        inner
    }));
        inner
    }));
    o
}

fn emit_m_async_gen_method(out: &mut Vec<Tok>, t: &Transition)
    ensures
        toks_model(final(out)@) == m_async_gen_method_after(toks_model(old(out)@), t@),
{
    push_ident(out, "pub");
    push_ident(out, "async");
    push_ident(out, "fn");
    push_ident(out, t.name.as_str());
    let mut g1: Vec<Tok> = Vec::new();
    assert(toks_model(g1@) =~= Seq::<TokModel>::empty());
    push_punct(&mut g1, '&', false);
    push_ident(&mut g1, "self");
    push_punct(&mut g1, ',', false);
    emit_m_arg_decls(&mut g1, &t.args);
    push_group(out, Delim::Paren, g1);
    push_punct(out, '-', true);
    push_punct(out, '>', false);
    push_ident(out, "Result");
    push_punct(out, '<', false);
    let mut g2: Vec<Tok> = Vec::new();
    assert(toks_model(g2@) =~= Seq::<TokModel>::empty());
    push_group(out, Delim::Paren, g2);
    push_punct(out, ',', false);
    push_ident(out, error_name(t.name.as_str()).as_str());
    push_punct(out, '>', false);
    let mut g3: Vec<Tok> = Vec::new();
    assert(toks_model(g3@) =~= Seq::<TokModel>::empty());
    push_ident(&mut g3, "let");
    push_ident(&mut g3, "mut");
    push_ident(&mut g3, "guard");
    push_punct(&mut g3, '=', false);
    push_ident(&mut g3, "self");
    push_punct(&mut g3, '.', false);
    push_ident(&mut g3, "inner");
    push_punct(&mut g3, '.', false);
    push_ident(&mut g3, "write");
    let mut g4: Vec<Tok> = Vec::new();
    assert(toks_model(g4@) =~= Seq::<TokModel>::empty());
    push_group(&mut g3, Delim::Paren, g4);
    push_punct(&mut g3, '.', false);
    push_ident(&mut g3, "await");
    push_punct(&mut g3, ';', false);
    push_ident(&mut g3, "guard");
    push_punct(&mut g3, '.', false);
    push_ident(&mut g3, handler_name(t.name.as_str()).as_str());
    let mut g5: Vec<Tok> = Vec::new();
    assert(toks_model(g5@) =~= Seq::<TokModel>::empty());
    emit_m_arg_names(&mut g5, &t.args);
    push_group(&mut g3, Delim::Paren, g5);
    push_group(out, Delim::Brace, g3);
}

/// The handle methods, one per transition.
pub open spec fn m_sync_methods_after(o: Seq<TokModel>, items: Seq<MachineTransitionModel>) -> Seq<TokModel>
    decreases items.len(),
{
    if items.len() == 0 {
        o
    } else {
        let o = m_sync_methods_after(o, items.drop_last());
        m_sync_method_after(o, items.last())
    }
}

fn emit_m_sync_methods(out: &mut Vec<Tok>, items: &Vec<Transition>)
    ensures
        toks_model(final(out)@) == m_sync_methods_after(toks_model(old(out)@), machine_transitions_model(items@)),
{
    let ghost o = toks_model(out@);
    let ghost v = machine_transitions_model(items@);
    let mut i: usize = 0;
    assert(v.take(0) =~= Seq::<MachineTransitionModel>::empty());
    while i < items.len()
        invariant
            i <= items@.len(),
            v == machine_transitions_model(items@),
            v.len() == items@.len(),
            toks_model(out@) == m_sync_methods_after(o, v.take(i as int)),
        decreases items.len() - i,
    {
        assert(v.take(i + 1).drop_last() =~= v.take(i as int));
        assert(v.take(i + 1).last() == v[i as int]);
        emit_m_sync_method(out, &items[i]);
        i += 1;
    }
    assert(v.take(i as int) =~= v);
}

/// The async handle methods, one per transition.
pub open spec fn m_async_methods_after(o: Seq<TokModel>, items: Seq<MachineTransitionModel>) -> Seq<TokModel>
    decreases items.len(),
{
    if items.len() == 0 {
        o
    } else {
        let o = m_async_methods_after(o, items.drop_last());
        m_async_method_after(o, items.last())
    }
}

fn emit_m_async_methods(out: &mut Vec<Tok>, items: &Vec<Transition>)
    ensures
        toks_model(final(out)@) == m_async_methods_after(toks_model(old(out)@), machine_transitions_model(items@)),
{
    let ghost o = toks_model(out@);
    let ghost v = machine_transitions_model(items@);
    let mut i: usize = 0;
    assert(v.take(0) =~= Seq::<MachineTransitionModel>::empty());
    while i < items.len()
        invariant
            i <= items@.len(),
            v == machine_transitions_model(items@),
            v.len() == items@.len(),
            toks_model(out@) == m_async_methods_after(o, v.take(i as int)),
        decreases items.len() - i,
    {
        assert(v.take(i + 1).drop_last() =~= v.take(i as int));
        assert(v.take(i + 1).last() == v[i as int]);
        emit_m_async_method(out, &items[i]);
        i += 1;
    }
    assert(v.take(i as int) =~= v);
}

/// The context type generated when none is given.
pub open spec fn m_context_struct_after(o: Seq<TokModel>, cn: Seq<char>) -> Seq<TokModel> {
    let o = o.push(pa('#')).push(grp(Delim::Bracket, {
        let inner = Seq::<TokModel>::empty();
        let inner = inner.push(id("derive"@)).push(grp(Delim::Paren, {
        let inner = Seq::<TokModel>::empty();
        let inner = inner.push(id("Debug"@)).push(pa(',')).push(id("Default"@)).push(pa(',')).push(id("Clone"@)).push(pa(',')).push(id("serde"@)).push(pj(':')).push(pa(':')).push(id("Serialize"@)).push(pa(',')).push(id("serde"@)).push(pj(':')).push(pa(':')).push(id("Deserialize"@));
        inner
    }));
        inner
    })).push(id("pub"@)).push(id("struct"@)).push(id(cn)).push(pa(';'));
    o
}

fn emit_m_context_struct(out: &mut Vec<Tok>, cn: &str)
    ensures
        toks_model(final(out)@) == m_context_struct_after(toks_model(old(out)@), cn@),
{
    push_punct(out, '#', false);
    let mut g1: Vec<Tok> = Vec::new();
    assert(toks_model(g1@) =~= Seq::<TokModel>::empty());
    push_ident(&mut g1, "derive");
    let mut g2: Vec<Tok> = Vec::new();
    assert(toks_model(g2@) =~= Seq::<TokModel>::empty());
    push_ident(&mut g2, "Debug");
    push_punct(&mut g2, ',', false);
    push_ident(&mut g2, "Default");
    push_punct(&mut g2, ',', false);
    push_ident(&mut g2, "Clone");
    push_punct(&mut g2, ',', false);
    push_ident(&mut g2, "serde");
    push_punct(&mut g2, ':', true);
    push_punct(&mut g2, ':', false);
    push_ident(&mut g2, "Serialize");
    push_punct(&mut g2, ',', false);
    push_ident(&mut g2, "serde");
    push_punct(&mut g2, ':', true);
    push_punct(&mut g2, ':', false);
    push_ident(&mut g2, "Deserialize");
    push_group(&mut g1, Delim::Paren, g2);
    push_group(out, Delim::Bracket, g1);
    push_ident(out, "pub");
    push_ident(out, "struct");
    push_ident(out, cn);
    push_punct(out, ';', false);
}

/// The state data enum, the snapshot, the context and the error types of a machine.
pub open spec fn m_types_after(o: Seq<TokModel>, vis: Seq<Tok>, h: Seq<char>, data: Seq<char>, snap: Seq<char>, inn: Seq<char>, cn: Seq<char>, context: Option<Seq<Tok>>, states: Seq<MachineStateModel>, ts: Seq<MachineTransitionModel>, hooks: Seq<HookModel>) -> Seq<TokModel> {
    let o = o.push(pa('#')).push(grp(Delim::Bracket, {
        let inner = Seq::<TokModel>::empty();
        let inner = inner.push(id("derive"@)).push(grp(Delim::Paren, {
        let inner = Seq::<TokModel>::empty();
        let inner = inner.push(id("Debug"@)).push(pa(',')).push(id("Clone"@)).push(pa(',')).push(id("PartialEq"@)).push(pa(',')).push(id("serde"@)).push(pj(':')).push(pa(':')).push(id("Serialize"@)).push(pa(',')).push(id("serde"@)).push(pj(':')).push(pa(':')).push(id("Deserialize"@));
        inner
    }));
        inner
    }));
    let o = o + toks_model(vis);
    let o = o.push(id("enum"@)).push(id(data)).push(grp(Delim::Brace, {
        let inner = Seq::<TokModel>::empty();
        let inner = m_variants_after(inner, states);
        inner
    })).push(pa('#')).push(grp(Delim::Bracket, {
        let inner = Seq::<TokModel>::empty();
        let inner = inner.push(id("derive"@)).push(grp(Delim::Paren, {
        let inner = Seq::<TokModel>::empty();
        let inner = inner.push(id("Debug"@)).push(pa(',')).push(id("Clone"@)).push(pa(',')).push(id("serde"@)).push(pj(':')).push(pa(':')).push(id("Serialize"@)).push(pa(',')).push(id("serde"@)).push(pj(':')).push(pa(':')).push(id("Deserialize"@));
        inner
    }));
        inner
    }));
    let o = o + toks_model(vis);
    let o = o.push(id("struct"@)).push(id(snap)).push(grp(Delim::Brace, {
        let inner = Seq::<TokModel>::empty();
        let inner = inner.push(id("pub"@)).push(id("state"@)).push(pa(':')).push(id(data)).push(pa(',')).push(id("pub"@)).push(id("context"@)).push(pa(':'));
        let inner = m_context_type_after(inner, context, cn);
        let inner = inner.push(pa(','));
        inner
    }));
    let o = m_context_def_after(o, context, cn);
    let o = m_errors_after(o, generated_errors(ts));
    o
}

fn emit_m_types(out: &mut Vec<Tok>, vis: &Vec<Tok>, h: &str, data: &str, snap: &str, inn: &str, cn: &str, context: &Option<ContextDef>, states: &Vec<State>, transitions: &Vec<Transition>, hooks: &Vec<LifecycleHook>, map: &Vec<HookEntry>)
    requires
        is_hook_map(map@, hooks_model(hooks@)) && initial_index(machine_states_model(states@)) is Some,
    ensures
        toks_model(final(out)@) == m_types_after(toks_model(old(out)@), vis@, h@, data@, snap@, inn@, cn@, context_model(*context), machine_states_model(states@), machine_transitions_model(transitions@), hooks_model(hooks@)),
{
    push_punct(out, '#', false);
    let mut g1: Vec<Tok> = Vec::new();
    assert(toks_model(g1@) =~= Seq::<TokModel>::empty());
    push_ident(&mut g1, "derive");
    let mut g2: Vec<Tok> = Vec::new();
    assert(toks_model(g2@) =~= Seq::<TokModel>::empty());
    push_ident(&mut g2, "Debug");
    push_punct(&mut g2, ',', false);
    push_ident(&mut g2, "Clone");
    push_punct(&mut g2, ',', false);
    push_ident(&mut g2, "PartialEq");
    push_punct(&mut g2, ',', false);
    push_ident(&mut g2, "serde");
    push_punct(&mut g2, ':', true);
    push_punct(&mut g2, ':', false);
    push_ident(&mut g2, "Serialize");
    push_punct(&mut g2, ',', false);
    push_ident(&mut g2, "serde");
    push_punct(&mut g2, ':', true);
    push_punct(&mut g2, ':', false);
    push_ident(&mut g2, "Deserialize");
    push_group(&mut g1, Delim::Paren, g2);
    push_group(out, Delim::Bracket, g1);
    push_all(out, copy_toks(vis));
    push_ident(out, "enum");
    push_ident(out, data);
    let mut g3: Vec<Tok> = Vec::new();
    assert(toks_model(g3@) =~= Seq::<TokModel>::empty());
    emit_m_variants(&mut g3, states);
    push_group(out, Delim::Brace, g3);
    push_punct(out, '#', false);
    let mut g4: Vec<Tok> = Vec::new();
    assert(toks_model(g4@) =~= Seq::<TokModel>::empty());
    push_ident(&mut g4, "derive");
    let mut g5: Vec<Tok> = Vec::new();
    assert(toks_model(g5@) =~= Seq::<TokModel>::empty());
    push_ident(&mut g5, "Debug");
    push_punct(&mut g5, ',', false);
    push_ident(&mut g5, "Clone");
    push_punct(&mut g5, ',', false);
    push_ident(&mut g5, "serde");
    push_punct(&mut g5, ':', true);
    push_punct(&mut g5, ':', false);
    push_ident(&mut g5, "Serialize");
    push_punct(&mut g5, ',', false);
    push_ident(&mut g5, "serde");
    push_punct(&mut g5, ':', true);
    push_punct(&mut g5, ':', false);
    push_ident(&mut g5, "Deserialize");
    push_group(&mut g4, Delim::Paren, g5);
    push_group(out, Delim::Bracket, g4);
    push_all(out, copy_toks(vis));
    push_ident(out, "struct");
    push_ident(out, snap);
    let mut g6: Vec<Tok> = Vec::new();
    assert(toks_model(g6@) =~= Seq::<TokModel>::empty());
    push_ident(&mut g6, "pub");
    push_ident(&mut g6, "state");
    push_punct(&mut g6, ':', false);
    push_ident(&mut g6, data);
    push_punct(&mut g6, ',', false);
    push_ident(&mut g6, "pub");
    push_ident(&mut g6, "context");
    push_punct(&mut g6, ':', false);
    emit_m_context_type(&mut g6, context, cn);
    push_punct(&mut g6, ',', false);
    push_group(out, Delim::Brace, g6);
    emit_m_context_def(out, context, cn);
    { let errs = error_types(transitions); emit_m_errors(out, &errs); }
}

/// The inner state of a machine with its hooks and handlers, under the given `cfg` (`std` locks, or `tokio` ones).
pub open spec fn m_inner_after(o: Seq<TokModel>, vis: Seq<Tok>, h: Seq<char>, data: Seq<char>, snap: Seq<char>, inn: Seq<char>, cn: Seq<char>, context: Option<Seq<Tok>>, states: Seq<MachineStateModel>, ts: Seq<MachineTransitionModel>, hooks: Seq<HookModel>, asy: bool) -> Seq<TokModel> {
    let o = o.push(pa('#')).push(grp(Delim::Bracket, {
        let inner = Seq::<TokModel>::empty();
        let inner = inner.push(id("cfg"@)).push(grp(Delim::Paren, {
        let inner = Seq::<TokModel>::empty();
        let inner = m_cfg_after(inner, asy);
        inner
    }));
        inner
    })).push(id("struct"@)).push(id(inn)).push(grp(Delim::Brace, {
        let inner = Seq::<TokModel>::empty();
        let inner = inner.push(id("state"@)).push(pa(':')).push(id(data)).push(pa(',')).push(id("ctx"@)).push(pa(':'));
        let inner = m_context_type_after(inner, context, cn);
        let inner = inner.push(pa(','));
        inner
    })).push(pa('#')).push(grp(Delim::Bracket, {
        let inner = Seq::<TokModel>::empty();
        let inner = inner.push(id("cfg"@)).push(grp(Delim::Paren, {
        let inner = Seq::<TokModel>::empty();
        let inner = m_cfg_after(inner, asy);
        inner
    }));
        inner
    })).push(id("impl"@)).push(id(inn)).push(grp(Delim::Brace, {
        let inner = Seq::<TokModel>::empty();
        let inner = m_hook_methods_after(inner, hooks, data, states);
        let inner = m_handlers_after(inner, ts, data, h, states, hooks);
        inner
    }));
    o
}

fn emit_m_inner(out: &mut Vec<Tok>, vis: &Vec<Tok>, h: &str, data: &str, snap: &str, inn: &str, cn: &str, context: &Option<ContextDef>, states: &Vec<State>, transitions: &Vec<Transition>, hooks: &Vec<LifecycleHook>, map: &Vec<HookEntry>, asy: bool)
    requires
        is_hook_map(map@, hooks_model(hooks@)) && initial_index(machine_states_model(states@)) is Some,
    ensures
        toks_model(final(out)@) == m_inner_after(toks_model(old(out)@), vis@, h@, data@, snap@, inn@, cn@, context_model(*context), machine_states_model(states@), machine_transitions_model(transitions@), hooks_model(hooks@), asy),
{
    push_punct(out, '#', false);
    let mut g1: Vec<Tok> = Vec::new();
    assert(toks_model(g1@) =~= Seq::<TokModel>::empty());
    push_ident(&mut g1, "cfg");
    let mut g2: Vec<Tok> = Vec::new();
    assert(toks_model(g2@) =~= Seq::<TokModel>::empty());
    emit_m_cfg(&mut g2, asy);
    push_group(&mut g1, Delim::Paren, g2);
    push_group(out, Delim::Bracket, g1);
    push_ident(out, "struct");
    push_ident(out, inn);
    let mut g3: Vec<Tok> = Vec::new();
    assert(toks_model(g3@) =~= Seq::<TokModel>::empty());
    push_ident(&mut g3, "state");
    push_punct(&mut g3, ':', false);
    push_ident(&mut g3, data);
    push_punct(&mut g3, ',', false);
    push_ident(&mut g3, "ctx");
    push_punct(&mut g3, ':', false);
    emit_m_context_type(&mut g3, context, cn);
    push_punct(&mut g3, ',', false);
    push_group(out, Delim::Brace, g3);
    push_punct(out, '#', false);
    let mut g4: Vec<Tok> = Vec::new();
    assert(toks_model(g4@) =~= Seq::<TokModel>::empty());
    push_ident(&mut g4, "cfg");
    let mut g5: Vec<Tok> = Vec::new();
    assert(toks_model(g5@) =~= Seq::<TokModel>::empty());
    emit_m_cfg(&mut g5, asy);
    push_group(&mut g4, Delim::Paren, g5);
    push_group(out, Delim::Bracket, g4);
    push_ident(out, "impl");
    push_ident(out, inn);
    let mut g6: Vec<Tok> = Vec::new();
    assert(toks_model(g6@) =~= Seq::<TokModel>::empty());
    emit_m_hook_methods(&mut g6, hooks, data, states);
    emit_m_handlers(&mut g6, transitions, data, h, states, hooks, map);
    push_group(out, Delim::Brace, g6);
}

/// The shared handle of a machine and its `Debug`, under the given `cfg`.
pub open spec fn m_handle_type_after(o: Seq<TokModel>, vis: Seq<Tok>, h: Seq<char>, data: Seq<char>, snap: Seq<char>, inn: Seq<char>, cn: Seq<char>, context: Option<Seq<Tok>>, states: Seq<MachineStateModel>, ts: Seq<MachineTransitionModel>, hooks: Seq<HookModel>, asy: bool) -> Seq<TokModel> {
    let o = o.push(pa('#')).push(grp(Delim::Bracket, {
        let inner = Seq::<TokModel>::empty();
        let inner = inner.push(id("cfg"@)).push(grp(Delim::Paren, {
        let inner = Seq::<TokModel>::empty();
        let inner = m_cfg_after(inner, asy);
        inner
    }));
        inner
    })).push(pa('#')).push(grp(Delim::Bracket, {
        let inner = Seq::<TokModel>::empty();
        let inner = inner.push(id("derive"@)).push(grp(Delim::Paren, {
        let inner = Seq::<TokModel>::empty();
        let inner = inner.push(id("Clone"@));
        inner
    }));
        inner
    }));
    let o = o + toks_model(vis);
    let o = o.push(id("struct"@)).push(id(h)).push(grp(Delim::Brace, {
        let inner = Seq::<TokModel>::empty();
        let inner = inner.push(id("inner"@)).push(pa(':')).push(id("std"@)).push(pj(':')).push(pa(':')).push(id("sync"@)).push(pj(':')).push(pa(':')).push(id("Arc"@)).push(pa('<'));
        let inner = m_lock_after(inner, asy);
        let inner = inner.push(pa('<')).push(id(inn)).push(pa('>')).push(pa('>')).push(pa(','));
        inner
    })).push(pa('#')).push(grp(Delim::Bracket, {
        let inner = Seq::<TokModel>::empty();
        let inner = inner.push(id("cfg"@)).push(grp(Delim::Paren, {
        let inner = Seq::<TokModel>::empty();
        let inner = m_cfg_after(inner, asy);
        inner
    }));
        inner
    })).push(id("impl"@)).push(id("std"@)).push(pj(':')).push(pa(':')).push(id("fmt"@)).push(pj(':')).push(pa(':')).push(id("Debug"@)).push(id("for"@)).push(id(h)).push(grp(Delim::Brace, {
        let inner = Seq::<TokModel>::empty();
        let inner = inner.push(id("fn"@)).push(id("fmt"@)).push(grp(Delim::Paren, {
        let inner = Seq::<TokModel>::empty();
        let inner = inner.push(pa('&')).push(id("self"@)).push(pa(',')).push(id("f"@)).push(pa(':')).push(pa('&')).push(id("mut"@)).push(id("std"@)).push(pj(':')).push(pa(':')).push(id("fmt"@)).push(pj(':')).push(pa(':')).push(id("Formatter"@)).push(pa('<')).push(pj('\'')).push(id("_"@)).push(pa('>'));
        inner
    })).push(pj('-')).push(pa('>')).push(id("std"@)).push(pj(':')).push(pa(':')).push(id("fmt"@)).push(pj(':')).push(pa(':')).push(id("Result"@)).push(grp(Delim::Brace, {
        let inner = Seq::<TokModel>::empty();
        let inner = inner.push(id("f"@)).push(pa('.')).push(id("debug_struct"@)).push(grp(Delim::Paren, {
        let inner = Seq::<TokModel>::empty();
        let inner = inner.push(id("stringify"@)).push(pa('!')).push(grp(Delim::Paren, {
        let inner = Seq::<TokModel>::empty();
        let inner = inner.push(id(h));
        inner
    }));
        inner
    })).push(pa('.')).push(id("finish_non_exhaustive"@)).push(grp(Delim::Paren, {
        let inner = Seq::<TokModel>::empty();

        inner
    }));
        inner
    }));
        inner
    }));
    o
}

fn emit_m_handle_type(out: &mut Vec<Tok>, vis: &Vec<Tok>, h: &str, data: &str, snap: &str, inn: &str, cn: &str, context: &Option<ContextDef>, states: &Vec<State>, transitions: &Vec<Transition>, hooks: &Vec<LifecycleHook>, map: &Vec<HookEntry>, asy: bool)
    requires
        is_hook_map(map@, hooks_model(hooks@)) && initial_index(machine_states_model(states@)) is Some,
    ensures
        toks_model(final(out)@) == m_handle_type_after(toks_model(old(out)@), vis@, h@, data@, snap@, inn@, cn@, context_model(*context), machine_states_model(states@), machine_transitions_model(transitions@), hooks_model(hooks@), asy),
{
    push_punct(out, '#', false);
    let mut g1: Vec<Tok> = Vec::new();
    assert(toks_model(g1@) =~= Seq::<TokModel>::empty());
    push_ident(&mut g1, "cfg");
    let mut g2: Vec<Tok> = Vec::new();
    assert(toks_model(g2@) =~= Seq::<TokModel>::empty());
    emit_m_cfg(&mut g2, asy);
    push_group(&mut g1, Delim::Paren, g2);
    push_group(out, Delim::Bracket, g1);
    push_punct(out, '#', false);
    let mut g3: Vec<Tok> = Vec::new();
    assert(toks_model(g3@) =~= Seq::<TokModel>::empty());
    push_ident(&mut g3, "derive");
    let mut g4: Vec<Tok> = Vec::new();
    assert(toks_model(g4@) =~= Seq::<TokModel>::empty());
    push_ident(&mut g4, "Clone");
    push_group(&mut g3, Delim::Paren, g4);
    push_group(out, Delim::Bracket, g3);
    push_all(out, copy_toks(vis));
    push_ident(out, "struct");
    push_ident(out, h);
    let mut g5: Vec<Tok> = Vec::new();
    assert(toks_model(g5@) =~= Seq::<TokModel>::empty());
    push_ident(&mut g5, "inner");
    push_punct(&mut g5, ':', false);
    push_ident(&mut g5, "std");
    push_punct(&mut g5, ':', true);
    push_punct(&mut g5, ':', false);
    push_ident(&mut g5, "sync");
    push_punct(&mut g5, ':', true);
    push_punct(&mut g5, ':', false);
    push_ident(&mut g5, "Arc");
    push_punct(&mut g5, '<', false);
    emit_m_lock(&mut g5, asy);
    push_punct(&mut g5, '<', false);
    push_ident(&mut g5, inn);
    push_punct(&mut g5, '>', false);
    push_punct(&mut g5, '>', false);
    push_punct(&mut g5, ',', false);
    push_group(out, Delim::Brace, g5);
    push_punct(out, '#', false);
    let mut g6: Vec<Tok> = Vec::new();
    assert(toks_model(g6@) =~= Seq::<TokModel>::empty());
    push_ident(&mut g6, "cfg");
    let mut g7: Vec<Tok> = Vec::new();
    assert(toks_model(g7@) =~= Seq::<TokModel>::empty());
    emit_m_cfg(&mut g7, asy);
    push_group(&mut g6, Delim::Paren, g7);
    push_group(out, Delim::Bracket, g6);
    push_ident(out, "impl");
    push_ident(out, "std");
    push_punct(out, ':', true);
    push_punct(out, ':', false);
    push_ident(out, "fmt");
    push_punct(out, ':', true);
    push_punct(out, ':', false);
    push_ident(out, "Debug");
    push_ident(out, "for");
    push_ident(out, h);
    let mut g8: Vec<Tok> = Vec::new();
    assert(toks_model(g8@) =~= Seq::<TokModel>::empty());
    push_ident(&mut g8, "fn");
    push_ident(&mut g8, "fmt");
    let mut g9: Vec<Tok> = Vec::new();
    assert(toks_model(g9@) =~= Seq::<TokModel>::empty());
    push_punct(&mut g9, '&', false);
    push_ident(&mut g9, "self");
    push_punct(&mut g9, ',', false);
    push_ident(&mut g9, "f");
    push_punct(&mut g9, ':', false);
    push_punct(&mut g9, '&', false);
    push_ident(&mut g9, "mut");
    push_ident(&mut g9, "std");
    push_punct(&mut g9, ':', true);
    push_punct(&mut g9, ':', false);
    push_ident(&mut g9, "fmt");
    push_punct(&mut g9, ':', true);
    push_punct(&mut g9, ':', false);
    push_ident(&mut g9, "Formatter");
    push_punct(&mut g9, '<', false);
    push_punct(&mut g9, '\'', true);
    push_ident(&mut g9, "_");
    push_punct(&mut g9, '>', false);
    push_group(&mut g8, Delim::Paren, g9);
    push_punct(&mut g8, '-', true);
    push_punct(&mut g8, '>', false);
    push_ident(&mut g8, "std");
    push_punct(&mut g8, ':', true);
    push_punct(&mut g8, ':', false);
    push_ident(&mut g8, "fmt");
    push_punct(&mut g8, ':', true);
    push_punct(&mut g8, ':', false);
    push_ident(&mut g8, "Result");
    let mut g10: Vec<Tok> = Vec::new();
    assert(toks_model(g10@) =~= Seq::<TokModel>::empty());
    push_ident(&mut g10, "f");
    push_punct(&mut g10, '.', false);
    push_ident(&mut g10, "debug_struct");
    let mut g11: Vec<Tok> = Vec::new();
    assert(toks_model(g11@) =~= Seq::<TokModel>::empty());
    push_ident(&mut g11, "stringify");
    push_punct(&mut g11, '!', false);
    let mut g12: Vec<Tok> = Vec::new();
    assert(toks_model(g12@) =~= Seq::<TokModel>::empty());
    push_ident(&mut g12, h);
    push_group(&mut g11, Delim::Paren, g12);
    push_group(&mut g10, Delim::Paren, g11);
    push_punct(&mut g10, '.', false);
    push_ident(&mut g10, "finish_non_exhaustive");
    let mut g13: Vec<Tok> = Vec::new();
    assert(toks_model(g13@) =~= Seq::<TokModel>::empty());
    push_group(&mut g10, Delim::Paren, g13);
    push_group(&mut g8, Delim::Brace, g10);
    push_group(out, Delim::Brace, g8);
}

/// The methods of a machine's handle with `std` locks.
pub open spec fn m_sync_impl_after(o: Seq<TokModel>, vis: Seq<Tok>, h: Seq<char>, data: Seq<char>, snap: Seq<char>, inn: Seq<char>, cn: Seq<char>, context: Option<Seq<Tok>>, states: Seq<MachineStateModel>, ts: Seq<MachineTransitionModel>, hooks: Seq<HookModel>) -> Seq<TokModel> {
    let o = o.push(pa('#')).push(grp(Delim::Bracket, {
        let inner = Seq::<TokModel>::empty();
        let inner = inner.push(id("cfg"@)).push(grp(Delim::Paren, {
        let inner = Seq::<TokModel>::empty();
        let inner = inner.push(id("not"@)).push(grp(Delim::Paren, {
        let inner = Seq::<TokModel>::empty();
        let inner = inner.push(id("feature"@)).push(pa('=')).push(lit("\"async\""@));
        inner
    }));
        inner
    }));
        inner
    })).push(id("impl"@)).push(id(h)).push(grp(Delim::Brace, {
        let inner = Seq::<TokModel>::empty();
        let inner = inner.push(pa('#')).push(grp(Delim::Bracket, {
        let inner = Seq::<TokModel>::empty();
        let inner = inner.push(id("doc"@)).push(pa('=')).push(lit("\" Create a new state machine with default context.\""@));
        inner
    })).push(id("pub"@)).push(id("fn"@)).push(id("new"@)).push(grp(Delim::Paren, {
        let inner = Seq::<TokModel>::empty();

        inner
    })).push(pj('-')).push(pa('>')).push(id("Self"@)).push(grp(Delim::Brace, {
        let inner = Seq::<TokModel>::empty();
        let inner = inner.push(id("Self"@)).push(pj(':')).push(pa(':')).push(id("with_context"@)).push(grp(Delim::Paren, {
        let inner = Seq::<TokModel>::empty();
        let inner = inner.push(pa('<'));
        let inner = m_context_type_after(inner, context, cn);
        let inner = inner.push(pa('>')).push(pj(':')).push(pa(':')).push(id("default"@)).push(grp(Delim::Paren, {
        let inner = Seq::<TokModel>::empty();

        inner
    }));
        inner
    }));
        inner
    })).push(pa('#')).push(grp(Delim::Bracket, {
        let inner = Seq::<TokModel>::empty();
        let inner = inner.push(id("doc"@)).push(pa('=')).push(lit("\" Create with a custom context.\""@));
        inner
    })).push(id("pub"@)).push(id("fn"@)).push(id("with_context"@)).push(grp(Delim::Paren, {
        let inner = Seq::<TokModel>::empty();
        let inner = inner.push(id("ctx"@)).push(pa(':'));
        let inner = m_context_type_after(inner, context, cn);
        inner
    })).push(pj('-')).push(pa('>')).push(id("Self"@)).push(grp(Delim::Brace, {
        let inner = Seq::<TokModel>::empty();
        let inner = inner.push(id("Self"@)).push(grp(Delim::Brace, {
        let inner = Seq::<TokModel>::empty();
        let inner = inner.push(id("inner"@)).push(pa(':')).push(id("std"@)).push(pj(':')).push(pa(':')).push(id("sync"@)).push(pj(':')).push(pa(':')).push(id("Arc"@)).push(pj(':')).push(pa(':')).push(id("new"@)).push(grp(Delim::Paren, {
        let inner = Seq::<TokModel>::empty();
        let inner = inner.push(id("std"@)).push(pj(':')).push(pa(':')).push(id("sync"@)).push(pj(':')).push(pa(':')).push(id("RwLock"@)).push(pj(':')).push(pa(':')).push(id("new"@)).push(grp(Delim::Paren, {
        let inner = Seq::<TokModel>::empty();
        let inner = inner.push(id(inn)).push(grp(Delim::Brace, {
        let inner = Seq::<TokModel>::empty();
        let inner = inner.push(id("state"@)).push(pa(':'));
        let inner = m_initial_after(inner, states, data);
        let inner = inner.push(pa(',')).push(id("ctx"@)).push(pa(','));
        inner
    }));
        inner
    }));
        inner
    })).push(pa(','));
        inner
    }));
        inner
    }));
        let inner = inner.push(pa('#')).push(grp(Delim::Bracket, {
        let inner = Seq::<TokModel>::empty();
        let inner = inner.push(id("doc"@)).push(pa('=')).push(lit("\" Restore from a snapshot (e.g., after Raft snapshot recovery).\""@));
        inner
    })).push(id("pub"@)).push(id("fn"@)).push(id("from_snapshot"@)).push(grp(Delim::Paren, {
        let inner = Seq::<TokModel>::empty();
        let inner = inner.push(id("snapshot"@)).push(pa(':')).push(id(snap));
        inner
    })).push(pj('-')).push(pa('>')).push(id("Self"@)).push(grp(Delim::Brace, {
        let inner = Seq::<TokModel>::empty();
        let inner = inner.push(id("Self"@)).push(grp(Delim::Brace, {
        let inner = Seq::<TokModel>::empty();
        let inner = inner.push(id("inner"@)).push(pa(':')).push(id("std"@)).push(pj(':')).push(pa(':')).push(id("sync"@)).push(pj(':')).push(pa(':')).push(id("Arc"@)).push(pj(':')).push(pa(':')).push(id("new"@)).push(grp(Delim::Paren, {
        let inner = Seq::<TokModel>::empty();
        let inner = inner.push(id("std"@)).push(pj(':')).push(pa(':')).push(id("sync"@)).push(pj(':')).push(pa(':')).push(id("RwLock"@)).push(pj(':')).push(pa(':')).push(id("new"@)).push(grp(Delim::Paren, {
        let inner = Seq::<TokModel>::empty();
        let inner = inner.push(id(inn)).push(grp(Delim::Brace, {
        let inner = Seq::<TokModel>::empty();
        let inner = inner.push(id("state"@)).push(pa(':')).push(id("snapshot"@)).push(pa('.')).push(id("state"@)).push(pa(',')).push(id("ctx"@)).push(pa(':')).push(id("snapshot"@)).push(pa('.')).push(id("context"@)).push(pa(','));
        inner
    }));
        inner
    }));
        inner
    })).push(pa(','));
        inner
    }));
        inner
    })).push(pa('#')).push(grp(Delim::Bracket, {
        let inner = Seq::<TokModel>::empty();
        let inner = inner.push(id("doc"@)).push(pa('=')).push(lit("\" Get a clone of the current state data.\""@));
        inner
    })).push(id("pub"@)).push(id("fn"@)).push(id("get_state"@)).push(grp(Delim::Paren, {
        let inner = Seq::<TokModel>::empty();
        let inner = inner.push(pa('&')).push(id("self"@));
        inner
    })).push(pj('-')).push(pa('>')).push(id(data)).push(grp(Delim::Brace, {
        let inner = Seq::<TokModel>::empty();
        let inner = inner.push(id("self"@)).push(pa('.')).push(id("inner"@)).push(pa('.')).push(id("read"@)).push(grp(Delim::Paren, {
        let inner = Seq::<TokModel>::empty();

        inner
    })).push(pa('.')).push(id("unwrap"@)).push(grp(Delim::Paren, {
        let inner = Seq::<TokModel>::empty();

        inner
    })).push(pa('.')).push(id("state"@)).push(pa('.')).push(id("clone"@)).push(grp(Delim::Paren, {
        let inner = Seq::<TokModel>::empty();

        inner
    }));
        inner
    }));
        let inner = inner.push(pa('#')).push(grp(Delim::Bracket, {
        let inner = Seq::<TokModel>::empty();
        let inner = inner.push(id("doc"@)).push(pa('=')).push(lit("\" Get a full snapshot (state + context) for Raft persistence.\""@));
        inner
    })).push(id("pub"@)).push(id("fn"@)).push(id("snapshot"@)).push(grp(Delim::Paren, {
        let inner = Seq::<TokModel>::empty();
        let inner = inner.push(pa('&')).push(id("self"@));
        inner
    })).push(pj('-')).push(pa('>')).push(id(snap)).push(grp(Delim::Brace, {
        let inner = Seq::<TokModel>::empty();
        let inner = inner.push(id("let"@)).push(id("guard"@)).push(pa('=')).push(id("self"@)).push(pa('.')).push(id("inner"@)).push(pa('.')).push(id("read"@)).push(grp(Delim::Paren, {
        let inner = Seq::<TokModel>::empty();

        inner
    })).push(pa('.')).push(id("unwrap"@)).push(grp(Delim::Paren, {
        let inner = Seq::<TokModel>::empty();

        inner
    })).push(pa(';')).push(id(snap)).push(grp(Delim::Brace, {
        let inner = Seq::<TokModel>::empty();
        let inner = inner.push(id("state"@)).push(pa(':')).push(id("guard"@)).push(pa('.')).push(id("state"@)).push(pa('.')).push(id("clone"@)).push(grp(Delim::Paren, {
        let inner = Seq::<TokModel>::empty();

        inner
    })).push(pa(',')).push(id("context"@)).push(pa(':')).push(id("guard"@)).push(pa('.')).push(id("ctx"@)).push(pa('.')).push(id("clone"@)).push(grp(Delim::Paren, {
        let inner = Seq::<TokModel>::empty();

        inner
    })).push(pa(','));
        inner
    }));
        inner
    }));
        let inner = m_sync_methods_after(inner, ts);
        inner
    })).push(pa('#')).push(grp(Delim::Bracket, {
        let inner = Seq::<TokModel>::empty();
        let inner = inner.push(id("cfg"@)).push(grp(Delim::Paren, {
        let inner = Seq::<TokModel>::empty();
        let inner = inner.push(id("not"@)).push(grp(Delim::Paren, {
        let inner = Seq::<TokModel>::empty();
        let inner = inner.push(id("feature"@)).push(pa('=')).push(lit("\"async\""@));
        inner
    }));
        inner
    }));
        inner
    })).push(id("impl"@)).push(id("Default"@)).push(id("for"@)).push(id(h)).push(grp(Delim::Brace, {
        let inner = Seq::<TokModel>::empty();
        let inner = inner.push(id("fn"@)).push(id("default"@)).push(grp(Delim::Paren, {
        let inner = Seq::<TokModel>::empty();

        inner
    })).push(pj('-')).push(pa('>')).push(id("Self"@)).push(grp(Delim::Brace, {
        let inner = Seq::<TokModel>::empty();
        let inner = inner.push(id("Self"@)).push(pj(':')).push(pa(':')).push(id("new"@)).push(grp(Delim::Paren, {
        let inner = Seq::<TokModel>::empty();

        inner
    }));
        inner
    }));
        inner
    }));
    o
}

fn emit_m_sync_impl(out: &mut Vec<Tok>, vis: &Vec<Tok>, h: &str, data: &str, snap: &str, inn: &str, cn: &str, context: &Option<ContextDef>, states: &Vec<State>, transitions: &Vec<Transition>, hooks: &Vec<LifecycleHook>, map: &Vec<HookEntry>)
    requires
        is_hook_map(map@, hooks_model(hooks@)) && initial_index(machine_states_model(states@)) is Some,
    ensures
        toks_model(final(out)@) == m_sync_impl_after(toks_model(old(out)@), vis@, h@, data@, snap@, inn@, cn@, context_model(*context), machine_states_model(states@), machine_transitions_model(transitions@), hooks_model(hooks@)),
{
    push_punct(out, '#', false);
    let mut g1: Vec<Tok> = Vec::new();
    assert(toks_model(g1@) =~= Seq::<TokModel>::empty());
    push_ident(&mut g1, "cfg");
    let mut g2: Vec<Tok> = Vec::new();
    assert(toks_model(g2@) =~= Seq::<TokModel>::empty());
    push_ident(&mut g2, "not");
    let mut g3: Vec<Tok> = Vec::new();
    assert(toks_model(g3@) =~= Seq::<TokModel>::empty());
    push_ident(&mut g3, "feature");
    push_punct(&mut g3, '=', false);
    push_literal(&mut g3, "\"async\"");
    push_group(&mut g2, Delim::Paren, g3);
    push_group(&mut g1, Delim::Paren, g2);
    push_group(out, Delim::Bracket, g1);
    push_ident(out, "impl");
    push_ident(out, h);
    let mut g4: Vec<Tok> = Vec::new();
    assert(toks_model(g4@) =~= Seq::<TokModel>::empty());
    push_punct(&mut g4, '#', false);
    let mut g5: Vec<Tok> = Vec::new();
    assert(toks_model(g5@) =~= Seq::<TokModel>::empty());
    push_ident(&mut g5, "doc");
    push_punct(&mut g5, '=', false);
    push_literal(&mut g5, "\" Create a new state machine with default context.\"");
    push_group(&mut g4, Delim::Bracket, g5);
    push_ident(&mut g4, "pub");
    push_ident(&mut g4, "fn");
    push_ident(&mut g4, "new");
    let mut g6: Vec<Tok> = Vec::new();
    assert(toks_model(g6@) =~= Seq::<TokModel>::empty());
    push_group(&mut g4, Delim::Paren, g6);
    push_punct(&mut g4, '-', true);
    push_punct(&mut g4, '>', false);
    push_ident(&mut g4, "Self");
    let mut g7: Vec<Tok> = Vec::new();
    assert(toks_model(g7@) =~= Seq::<TokModel>::empty());
    push_ident(&mut g7, "Self");
    push_punct(&mut g7, ':', true);
    push_punct(&mut g7, ':', false);
    push_ident(&mut g7, "with_context");
    let mut g8: Vec<Tok> = Vec::new();
    assert(toks_model(g8@) =~= Seq::<TokModel>::empty());
    push_punct(&mut g8, '<', false);
    emit_m_context_type(&mut g8, context, cn);
    push_punct(&mut g8, '>', false);
    push_punct(&mut g8, ':', true);
    push_punct(&mut g8, ':', false);
    push_ident(&mut g8, "default");
    let mut g9: Vec<Tok> = Vec::new();
    assert(toks_model(g9@) =~= Seq::<TokModel>::empty());
    push_group(&mut g8, Delim::Paren, g9);
    push_group(&mut g7, Delim::Paren, g8);
    push_group(&mut g4, Delim::Brace, g7);
    push_punct(&mut g4, '#', false);
    let mut g10: Vec<Tok> = Vec::new();
    assert(toks_model(g10@) =~= Seq::<TokModel>::empty());
    push_ident(&mut g10, "doc");
    push_punct(&mut g10, '=', false);
    push_literal(&mut g10, "\" Create with a custom context.\"");
    push_group(&mut g4, Delim::Bracket, g10);
    push_ident(&mut g4, "pub");
    push_ident(&mut g4, "fn");
    push_ident(&mut g4, "with_context");
    let mut g11: Vec<Tok> = Vec::new();
    assert(toks_model(g11@) =~= Seq::<TokModel>::empty());
    push_ident(&mut g11, "ctx");
    push_punct(&mut g11, ':', false);
    emit_m_context_type(&mut g11, context, cn);
    push_group(&mut g4, Delim::Paren, g11);
    push_punct(&mut g4, '-', true);
    push_punct(&mut g4, '>', false);
    push_ident(&mut g4, "Self");
    let mut g12: Vec<Tok> = Vec::new();
    assert(toks_model(g12@) =~= Seq::<TokModel>::empty());
    push_ident(&mut g12, "Self");
    let mut g13: Vec<Tok> = Vec::new();
    assert(toks_model(g13@) =~= Seq::<TokModel>::empty());
    push_ident(&mut g13, "inner");
    push_punct(&mut g13, ':', false);
    push_ident(&mut g13, "std");
    push_punct(&mut g13, ':', true);
    push_punct(&mut g13, ':', false);
    push_ident(&mut g13, "sync");
    push_punct(&mut g13, ':', true);
    push_punct(&mut g13, ':', false);
    push_ident(&mut g13, "Arc");
    push_punct(&mut g13, ':', true);
    push_punct(&mut g13, ':', false);
    push_ident(&mut g13, "new");
    let mut g14: Vec<Tok> = Vec::new();
    assert(toks_model(g14@) =~= Seq::<TokModel>::empty());
    push_ident(&mut g14, "std");
    push_punct(&mut g14, ':', true);
    push_punct(&mut g14, ':', false);
    push_ident(&mut g14, "sync");
    push_punct(&mut g14, ':', true);
    push_punct(&mut g14, ':', false);
    push_ident(&mut g14, "RwLock");
    push_punct(&mut g14, ':', true);
    push_punct(&mut g14, ':', false);
    push_ident(&mut g14, "new");
    let mut g15: Vec<Tok> = Vec::new();
    assert(toks_model(g15@) =~= Seq::<TokModel>::empty());
    push_ident(&mut g15, inn);
    let mut g16: Vec<Tok> = Vec::new();
    assert(toks_model(g16@) =~= Seq::<TokModel>::empty());
    push_ident(&mut g16, "state");
    push_punct(&mut g16, ':', false);
    emit_m_initial(&mut g16, states, data);
    push_punct(&mut g16, ',', false);
    push_ident(&mut g16, "ctx");
    push_punct(&mut g16, ',', false);
    push_group(&mut g15, Delim::Brace, g16);
    push_group(&mut g14, Delim::Paren, g15);
    push_group(&mut g13, Delim::Paren, g14);
    push_punct(&mut g13, ',', false);
    push_group(&mut g12, Delim::Brace, g13);
    push_group(&mut g4, Delim::Brace, g12);
    push_punct(&mut g4, '#', false);
    let mut g17: Vec<Tok> = Vec::new();
    assert(toks_model(g17@) =~= Seq::<TokModel>::empty());
    push_ident(&mut g17, "doc");
    push_punct(&mut g17, '=', false);
    push_literal(&mut g17, "\" Restore from a snapshot (e.g., after Raft snapshot recovery).\"");
    push_group(&mut g4, Delim::Bracket, g17);
    push_ident(&mut g4, "pub");
    push_ident(&mut g4, "fn");
    push_ident(&mut g4, "from_snapshot");
    let mut g18: Vec<Tok> = Vec::new();
    assert(toks_model(g18@) =~= Seq::<TokModel>::empty());
    push_ident(&mut g18, "snapshot");
    push_punct(&mut g18, ':', false);
    push_ident(&mut g18, snap);
    push_group(&mut g4, Delim::Paren, g18);
    push_punct(&mut g4, '-', true);
    push_punct(&mut g4, '>', false);
    push_ident(&mut g4, "Self");
    let mut g19: Vec<Tok> = Vec::new();
    assert(toks_model(g19@) =~= Seq::<TokModel>::empty());
    push_ident(&mut g19, "Self");
    let mut g20: Vec<Tok> = Vec::new();
    assert(toks_model(g20@) =~= Seq::<TokModel>::empty());
    push_ident(&mut g20, "inner");
    push_punct(&mut g20, ':', false);
    push_ident(&mut g20, "std");
    push_punct(&mut g20, ':', true);
    push_punct(&mut g20, ':', false);
    push_ident(&mut g20, "sync");
    push_punct(&mut g20, ':', true);
    push_punct(&mut g20, ':', false);
    push_ident(&mut g20, "Arc");
    push_punct(&mut g20, ':', true);
    push_punct(&mut g20, ':', false);
    push_ident(&mut g20, "new");
    let mut g21: Vec<Tok> = Vec::new();
    assert(toks_model(g21@) =~= Seq::<TokModel>::empty());
    push_ident(&mut g21, "std");
    push_punct(&mut g21, ':', true);
    push_punct(&mut g21, ':', false);
    push_ident(&mut g21, "sync");
    push_punct(&mut g21, ':', true);
    push_punct(&mut g21, ':', false);
    push_ident(&mut g21, "RwLock");
    push_punct(&mut g21, ':', true);
    push_punct(&mut g21, ':', false);
    push_ident(&mut g21, "new");
    let mut g22: Vec<Tok> = Vec::new();
    assert(toks_model(g22@) =~= Seq::<TokModel>::empty());
    push_ident(&mut g22, inn);
    let mut g23: Vec<Tok> = Vec::new();
    assert(toks_model(g23@) =~= Seq::<TokModel>::empty());
    push_ident(&mut g23, "state");
    push_punct(&mut g23, ':', false);
    push_ident(&mut g23, "snapshot");
    push_punct(&mut g23, '.', false);
    push_ident(&mut g23, "state");
    push_punct(&mut g23, ',', false);
    push_ident(&mut g23, "ctx");
    push_punct(&mut g23, ':', false);
    push_ident(&mut g23, "snapshot");
    push_punct(&mut g23, '.', false);
    push_ident(&mut g23, "context");
    push_punct(&mut g23, ',', false);
    push_group(&mut g22, Delim::Brace, g23);
    push_group(&mut g21, Delim::Paren, g22);
    push_group(&mut g20, Delim::Paren, g21);
    push_punct(&mut g20, ',', false);
    push_group(&mut g19, Delim::Brace, g20);
    push_group(&mut g4, Delim::Brace, g19);
    push_punct(&mut g4, '#', false);
    let mut g24: Vec<Tok> = Vec::new();
    assert(toks_model(g24@) =~= Seq::<TokModel>::empty());
    push_ident(&mut g24, "doc");
    push_punct(&mut g24, '=', false);
    push_literal(&mut g24, "\" Get a clone of the current state data.\"");
    push_group(&mut g4, Delim::Bracket, g24);
    push_ident(&mut g4, "pub");
    push_ident(&mut g4, "fn");
    push_ident(&mut g4, "get_state");
    let mut g25: Vec<Tok> = Vec::new();
    assert(toks_model(g25@) =~= Seq::<TokModel>::empty());
    push_punct(&mut g25, '&', false);
    push_ident(&mut g25, "self");
    push_group(&mut g4, Delim::Paren, g25);
    push_punct(&mut g4, '-', true);
    push_punct(&mut g4, '>', false);
    push_ident(&mut g4, data);
    let mut g26: Vec<Tok> = Vec::new();
    assert(toks_model(g26@) =~= Seq::<TokModel>::empty());
    push_ident(&mut g26, "self");
    push_punct(&mut g26, '.', false);
    push_ident(&mut g26, "inner");
    push_punct(&mut g26, '.', false);
    push_ident(&mut g26, "read");
    let mut g27: Vec<Tok> = Vec::new();
    assert(toks_model(g27@) =~= Seq::<TokModel>::empty());
    push_group(&mut g26, Delim::Paren, g27);
    push_punct(&mut g26, '.', false);
    push_ident(&mut g26, "unwrap");
    let mut g28: Vec<Tok> = Vec::new();
    assert(toks_model(g28@) =~= Seq::<TokModel>::empty());
    push_group(&mut g26, Delim::Paren, g28);
    push_punct(&mut g26, '.', false);
    push_ident(&mut g26, "state");
    push_punct(&mut g26, '.', false);
    push_ident(&mut g26, "clone");
    let mut g29: Vec<Tok> = Vec::new();
    assert(toks_model(g29@) =~= Seq::<TokModel>::empty());
    push_group(&mut g26, Delim::Paren, g29);
    push_group(&mut g4, Delim::Brace, g26);
    push_punct(&mut g4, '#', false);
    let mut g30: Vec<Tok> = Vec::new();
    assert(toks_model(g30@) =~= Seq::<TokModel>::empty());
    push_ident(&mut g30, "doc");
    push_punct(&mut g30, '=', false);
    push_literal(&mut g30, "\" Get a full snapshot (state + context) for Raft persistence.\"");
    push_group(&mut g4, Delim::Bracket, g30);
    push_ident(&mut g4, "pub");
    push_ident(&mut g4, "fn");
    push_ident(&mut g4, "snapshot");
    let mut g31: Vec<Tok> = Vec::new();
    assert(toks_model(g31@) =~= Seq::<TokModel>::empty());
    push_punct(&mut g31, '&', false);
    push_ident(&mut g31, "self");
    push_group(&mut g4, Delim::Paren, g31);
    push_punct(&mut g4, '-', true);
    push_punct(&mut g4, '>', false);
    push_ident(&mut g4, snap);
    let mut g32: Vec<Tok> = Vec::new();
    assert(toks_model(g32@) =~= Seq::<TokModel>::empty());
    push_ident(&mut g32, "let");
    push_ident(&mut g32, "guard");
    push_punct(&mut g32, '=', false);
    push_ident(&mut g32, "self");
    push_punct(&mut g32, '.', false);
    push_ident(&mut g32, "inner");
    push_punct(&mut g32, '.', false);
    push_ident(&mut g32, "read");
    let mut g33: Vec<Tok> = Vec::new();
    assert(toks_model(g33@) =~= Seq::<TokModel>::empty());
    push_group(&mut g32, Delim::Paren, g33);
    push_punct(&mut g32, '.', false);
    push_ident(&mut g32, "unwrap");
    let mut g34: Vec<Tok> = Vec::new();
    assert(toks_model(g34@) =~= Seq::<TokModel>::empty());
    push_group(&mut g32, Delim::Paren, g34);
    push_punct(&mut g32, ';', false);
    push_ident(&mut g32, snap);
    let mut g35: Vec<Tok> = Vec::new();
    assert(toks_model(g35@) =~= Seq::<TokModel>::empty());
    push_ident(&mut g35, "state");
    push_punct(&mut g35, ':', false);
    push_ident(&mut g35, "guard");
    push_punct(&mut g35, '.', false);
    push_ident(&mut g35, "state");
    push_punct(&mut g35, '.', false);
    push_ident(&mut g35, "clone");
    let mut g36: Vec<Tok> = Vec::new();
    assert(toks_model(g36@) =~= Seq::<TokModel>::empty());
    push_group(&mut g35, Delim::Paren, g36);
    push_punct(&mut g35, ',', false);
    push_ident(&mut g35, "context");
    push_punct(&mut g35, ':', false);
    push_ident(&mut g35, "guard");
    push_punct(&mut g35, '.', false);
    push_ident(&mut g35, "ctx");
    push_punct(&mut g35, '.', false);
    push_ident(&mut g35, "clone");
    let mut g37: Vec<Tok> = Vec::new();
    assert(toks_model(g37@) =~= Seq::<TokModel>::empty());
    push_group(&mut g35, Delim::Paren, g37);
    push_punct(&mut g35, ',', false);
    push_group(&mut g32, Delim::Brace, g35);
    push_group(&mut g4, Delim::Brace, g32);
    emit_m_sync_methods(&mut g4, transitions);
    push_group(out, Delim::Brace, g4);
    push_punct(out, '#', false);
    let mut g38: Vec<Tok> = Vec::new();
    assert(toks_model(g38@) =~= Seq::<TokModel>::empty());
    push_ident(&mut g38, "cfg");
    let mut g39: Vec<Tok> = Vec::new();
    assert(toks_model(g39@) =~= Seq::<TokModel>::empty());
    push_ident(&mut g39, "not");
    let mut g40: Vec<Tok> = Vec::new();
    assert(toks_model(g40@) =~= Seq::<TokModel>::empty());
    push_ident(&mut g40, "feature");
    push_punct(&mut g40, '=', false);
    push_literal(&mut g40, "\"async\"");
    push_group(&mut g39, Delim::Paren, g40);
    push_group(&mut g38, Delim::Paren, g39);
    push_group(out, Delim::Bracket, g38);
    push_ident(out, "impl");
    push_ident(out, "Default");
    push_ident(out, "for");
    push_ident(out, h);
    let mut g41: Vec<Tok> = Vec::new();
    assert(toks_model(g41@) =~= Seq::<TokModel>::empty());
    push_ident(&mut g41, "fn");
    push_ident(&mut g41, "default");
    let mut g42: Vec<Tok> = Vec::new();
    assert(toks_model(g42@) =~= Seq::<TokModel>::empty());
    push_group(&mut g41, Delim::Paren, g42);
    push_punct(&mut g41, '-', true);
    push_punct(&mut g41, '>', false);
    push_ident(&mut g41, "Self");
    let mut g43: Vec<Tok> = Vec::new();
    assert(toks_model(g43@) =~= Seq::<TokModel>::empty());
    push_ident(&mut g43, "Self");
    push_punct(&mut g43, ':', true);
    push_punct(&mut g43, ':', false);
    push_ident(&mut g43, "new");
    let mut g44: Vec<Tok> = Vec::new();
    assert(toks_model(g44@) =~= Seq::<TokModel>::empty());
    push_group(&mut g43, Delim::Paren, g44);
    push_group(&mut g41, Delim::Brace, g43);
    push_group(out, Delim::Brace, g41);
}

/// The methods of a machine's handle with `tokio` locks.
pub open spec fn m_async_impl_after(o: Seq<TokModel>, vis: Seq<Tok>, h: Seq<char>, data: Seq<char>, snap: Seq<char>, inn: Seq<char>, cn: Seq<char>, context: Option<Seq<Tok>>, states: Seq<MachineStateModel>, ts: Seq<MachineTransitionModel>, hooks: Seq<HookModel>) -> Seq<TokModel> {
    let o = o.push(pa('#')).push(grp(Delim::Bracket, {
        let inner = Seq::<TokModel>::empty();
        let inner = inner.push(id("cfg"@)).push(grp(Delim::Paren, {
        let inner = Seq::<TokModel>::empty();
        let inner = inner.push(id("feature"@)).push(pa('=')).push(lit("\"async\""@));
        inner
    }));
        inner
    })).push(id("impl"@)).push(id(h)).push(grp(Delim::Brace, {
        let inner = Seq::<TokModel>::empty();
        let inner = inner.push(pa('#')).push(grp(Delim::Bracket, {
        let inner = Seq::<TokModel>::empty();
        let inner = inner.push(id("doc"@)).push(pa('=')).push(lit("\" Create a new state machine with default context.\""@));
        inner
    })).push(id("pub"@)).push(id("fn"@)).push(id("new"@)).push(grp(Delim::Paren, {
        let inner = Seq::<TokModel>::empty();

        inner
    })).push(pj('-')).push(pa('>')).push(id("Self"@)).push(grp(Delim::Brace, {
        let inner = Seq::<TokModel>::empty();
        let inner = inner.push(id("Self"@)).push(pj(':')).push(pa(':')).push(id("with_context"@)).push(grp(Delim::Paren, {
        let inner = Seq::<TokModel>::empty();
        let inner = inner.push(pa('<'));
        let inner = m_context_type_after(inner, context, cn);
        let inner = inner.push(pa('>')).push(pj(':')).push(pa(':')).push(id("default"@)).push(grp(Delim::Paren, {
        let inner = Seq::<TokModel>::empty();

        inner
    }));
        inner
    }));
        inner
    })).push(pa('#')).push(grp(Delim::Bracket, {
        let inner = Seq::<TokModel>::empty();
        let inner = inner.push(id("doc"@)).push(pa('=')).push(lit("\" Create with a custom context.\""@));
        inner
    })).push(id("pub"@)).push(id("fn"@)).push(id("with_context"@)).push(grp(Delim::Paren, {
        let inner = Seq::<TokModel>::empty();
        let inner = inner.push(id("ctx"@)).push(pa(':'));
        let inner = m_context_type_after(inner, context, cn);
        inner
    })).push(pj('-')).push(pa('>')).push(id("Self"@)).push(grp(Delim::Brace, {
        let inner = Seq::<TokModel>::empty();
        let inner = inner.push(id("Self"@)).push(grp(Delim::Brace, {
        let inner = Seq::<TokModel>::empty();
        let inner = inner.push(id("inner"@)).push(pa(':')).push(id("std"@)).push(pj(':')).push(pa(':')).push(id("sync"@)).push(pj(':')).push(pa(':')).push(id("Arc"@)).push(pj(':')).push(pa(':')).push(id("new"@)).push(grp(Delim::Paren, {
        let inner = Seq::<TokModel>::empty();
        let inner = inner.push(id("tokio"@)).push(pj(':')).push(pa(':')).push(id("sync"@)).push(pj(':')).push(pa(':')).push(id("RwLock"@)).push(pj(':')).push(pa(':')).push(id("new"@)).push(grp(Delim::Paren, {
        let inner = Seq::<TokModel>::empty();
        let inner = inner.push(id(inn)).push(grp(Delim::Brace, {
        let inner = Seq::<TokModel>::empty();
        let inner = inner.push(id("state"@)).push(pa(':'));
        let inner = m_initial_after(inner, states, data);
        let inner = inner.push(pa(',')).push(id("ctx"@)).push(pa(','));
        inner
    }));
        inner
    }));
        inner
    })).push(pa(','));
        inner
    }));
        inner
    }));
        let inner = inner.push(pa('#')).push(grp(Delim::Bracket, {
        let inner = Seq::<TokModel>::empty();
        let inner = inner.push(id("doc"@)).push(pa('=')).push(lit("\" Restore from a snapshot (e.g., after Raft snapshot recovery).\""@));
        inner
    })).push(id("pub"@)).push(id("fn"@)).push(id("from_snapshot"@)).push(grp(Delim::Paren, {
        let inner = Seq::<TokModel>::empty();
        let inner = inner.push(id("snapshot"@)).push(pa(':')).push(id(snap));
        inner
    })).push(pj('-')).push(pa('>')).push(id("Self"@)).push(grp(Delim::Brace, {
        let inner = Seq::<TokModel>::empty();
        let inner = inner.push(id("Self"@)).push(grp(Delim::Brace, {
        let inner = Seq::<TokModel>::empty();
        let inner = inner.push(id("inner"@)).push(pa(':')).push(id("std"@)).push(pj(':')).push(pa(':')).push(id("sync"@)).push(pj(':')).push(pa(':')).push(id("Arc"@)).push(pj(':')).push(pa(':')).push(id("new"@)).push(grp(Delim::Paren, {
        let inner = Seq::<TokModel>::empty();
        let inner = inner.push(id("tokio"@)).push(pj(':')).push(pa(':')).push(id("sync"@)).push(pj(':')).push(pa(':')).push(id("RwLock"@)).push(pj(':')).push(pa(':')).push(id("new"@)).push(grp(Delim::Paren, {
        let inner = Seq::<TokModel>::empty();
        let inner = inner.push(id(inn)).push(grp(Delim::Brace, {
        let inner = Seq::<TokModel>::empty();
        let inner = inner.push(id("state"@)).push(pa(':')).push(id("snapshot"@)).push(pa('.')).push(id("state"@)).push(pa(',')).push(id("ctx"@)).push(pa(':')).push(id("snapshot"@)).push(pa('.')).push(id("context"@)).push(pa(','));
        inner
    }));
        inner
    }));
        inner
    })).push(pa(','));
        inner
    }));
        inner
    })).push(pa('#')).push(grp(Delim::Bracket, {
        let inner = Seq::<TokModel>::empty();
        let inner = inner.push(id("doc"@)).push(pa('=')).push(lit("\" Get a clone of the current state data.\""@));
        inner
    })).push(id("pub"@)).push(id("async"@)).push(id("fn"@)).push(id("get_state"@)).push(grp(Delim::Paren, {
        let inner = Seq::<TokModel>::empty();
        let inner = inner.push(pa('&')).push(id("self"@));
        inner
    })).push(pj('-')).push(pa('>')).push(id(data));
        let inner = inner.push(grp(Delim::Brace, {
        let inner = Seq::<TokModel>::empty();
        let inner = inner.push(id("self"@)).push(pa('.')).push(id("inner"@)).push(pa('.')).push(id("read"@)).push(grp(Delim::Paren, {
        let inner = Seq::<TokModel>::empty();

        inner
    })).push(pa('.')).push(id("await"@)).push(pa('.')).push(id("state"@)).push(pa('.')).push(id("clone"@)).push(grp(Delim::Paren, {
        let inner = Seq::<TokModel>::empty();

        inner
    }));
        inner
    })).push(pa('#')).push(grp(Delim::Bracket, {
        let inner = Seq::<TokModel>::empty();
        let inner = inner.push(id("doc"@)).push(pa('=')).push(lit("\" Get a full snapshot (state + context) for Raft persistence.\""@));
        inner
    })).push(id("pub"@)).push(id("async"@)).push(id("fn"@)).push(id("snapshot"@)).push(grp(Delim::Paren, {
        let inner = Seq::<TokModel>::empty();
        let inner = inner.push(pa('&')).push(id("self"@));
        inner
    })).push(pj('-')).push(pa('>')).push(id(snap)).push(grp(Delim::Brace, {
        let inner = Seq::<TokModel>::empty();
        let inner = inner.push(id("let"@)).push(id("guard"@)).push(pa('=')).push(id("self"@)).push(pa('.')).push(id("inner"@)).push(pa('.')).push(id("read"@)).push(grp(Delim::Paren, {
        let inner = Seq::<TokModel>::empty();

        inner
    })).push(pa('.')).push(id("await"@)).push(pa(';')).push(id(snap)).push(grp(Delim::Brace, {
        let inner = Seq::<TokModel>::empty();
        let inner = inner.push(id("state"@)).push(pa(':')).push(id("guard"@)).push(pa('.')).push(id("state"@)).push(pa('.')).push(id("clone"@)).push(grp(Delim::Paren, {
        let inner = Seq::<TokModel>::empty();

        inner
    })).push(pa(',')).push(id("context"@)).push(pa(':')).push(id("guard"@)).push(pa('.')).push(id("ctx"@)).push(pa('.')).push(id("clone"@)).push(grp(Delim::Paren, {
        let inner = Seq::<TokModel>::empty();

        inner
    })).push(pa(','));
        inner
    }));
        inner
    }));
        let inner = m_async_methods_after(inner, ts);
        inner
    })).push(pa('#')).push(grp(Delim::Bracket, {
        let inner = Seq::<TokModel>::empty();
        let inner = inner.push(id("cfg"@)).push(grp(Delim::Paren, {
        let inner = Seq::<TokModel>::empty();
        let inner = inner.push(id("feature"@)).push(pa('=')).push(lit("\"async\""@));
        inner
    }));
        inner
    })).push(id("impl"@)).push(id("Default"@)).push(id("for"@)).push(id(h)).push(grp(Delim::Brace, {
        let inner = Seq::<TokModel>::empty();
        let inner = inner.push(id("fn"@)).push(id("default"@)).push(grp(Delim::Paren, {
        let inner = Seq::<TokModel>::empty();

        inner
    })).push(pj('-')).push(pa('>')).push(id("Self"@)).push(grp(Delim::Brace, {
        let inner = Seq::<TokModel>::empty();
        let inner = inner.push(id("Self"@)).push(pj(':')).push(pa(':')).push(id("new"@)).push(grp(Delim::Paren, {
        let inner = Seq::<TokModel>::empty();

        inner
    }));
        inner
    }));
        inner
    }));
    o
}

fn emit_m_async_impl(out: &mut Vec<Tok>, vis: &Vec<Tok>, h: &str, data: &str, snap: &str, inn: &str, cn: &str, context: &Option<ContextDef>, states: &Vec<State>, transitions: &Vec<Transition>, hooks: &Vec<LifecycleHook>, map: &Vec<HookEntry>)
    requires
        is_hook_map(map@, hooks_model(hooks@)) && initial_index(machine_states_model(states@)) is Some,
    ensures
        toks_model(final(out)@) == m_async_impl_after(toks_model(old(out)@), vis@, h@, data@, snap@, inn@, cn@, context_model(*context), machine_states_model(states@), machine_transitions_model(transitions@), hooks_model(hooks@)),
{
    push_punct(out, '#', false);
    let mut g1: Vec<Tok> = Vec::new();
    assert(toks_model(g1@) =~= Seq::<TokModel>::empty());
    push_ident(&mut g1, "cfg");
    let mut g2: Vec<Tok> = Vec::new();
    assert(toks_model(g2@) =~= Seq::<TokModel>::empty());
    push_ident(&mut g2, "feature");
    push_punct(&mut g2, '=', false);
    push_literal(&mut g2, "\"async\"");
    push_group(&mut g1, Delim::Paren, g2);
    push_group(out, Delim::Bracket, g1);
    push_ident(out, "impl");
    push_ident(out, h);
    let mut g3: Vec<Tok> = Vec::new();
    assert(toks_model(g3@) =~= Seq::<TokModel>::empty());
    push_punct(&mut g3, '#', false);
    let mut g4: Vec<Tok> = Vec::new();
    assert(toks_model(g4@) =~= Seq::<TokModel>::empty());
    push_ident(&mut g4, "doc");
    push_punct(&mut g4, '=', false);
    push_literal(&mut g4, "\" Create a new state machine with default context.\"");
    push_group(&mut g3, Delim::Bracket, g4);
    push_ident(&mut g3, "pub");
    push_ident(&mut g3, "fn");
    push_ident(&mut g3, "new");
    let mut g5: Vec<Tok> = Vec::new();
    assert(toks_model(g5@) =~= Seq::<TokModel>::empty());
    push_group(&mut g3, Delim::Paren, g5);
    push_punct(&mut g3, '-', true);
    push_punct(&mut g3, '>', false);
    push_ident(&mut g3, "Self");
    let mut g6: Vec<Tok> = Vec::new();
    assert(toks_model(g6@) =~= Seq::<TokModel>::empty());
    push_ident(&mut g6, "Self");
    push_punct(&mut g6, ':', true);
    push_punct(&mut g6, ':', false);
    push_ident(&mut g6, "with_context");
    let mut g7: Vec<Tok> = Vec::new();
    assert(toks_model(g7@) =~= Seq::<TokModel>::empty());
    push_punct(&mut g7, '<', false);
    emit_m_context_type(&mut g7, context, cn);
    push_punct(&mut g7, '>', false);
    push_punct(&mut g7, ':', true);
    push_punct(&mut g7, ':', false);
    push_ident(&mut g7, "default");
    let mut g8: Vec<Tok> = Vec::new();
    assert(toks_model(g8@) =~= Seq::<TokModel>::empty());
    push_group(&mut g7, Delim::Paren, g8);
    push_group(&mut g6, Delim::Paren, g7);
    push_group(&mut g3, Delim::Brace, g6);
    push_punct(&mut g3, '#', false);
    let mut g9: Vec<Tok> = Vec::new();
    assert(toks_model(g9@) =~= Seq::<TokModel>::empty());
    push_ident(&mut g9, "doc");
    push_punct(&mut g9, '=', false);
    push_literal(&mut g9, "\" Create with a custom context.\"");
    push_group(&mut g3, Delim::Bracket, g9);
    push_ident(&mut g3, "pub");
    push_ident(&mut g3, "fn");
    push_ident(&mut g3, "with_context");
    let mut g10: Vec<Tok> = Vec::new();
    assert(toks_model(g10@) =~= Seq::<TokModel>::empty());
    push_ident(&mut g10, "ctx");
    push_punct(&mut g10, ':', false);
    emit_m_context_type(&mut g10, context, cn);
    push_group(&mut g3, Delim::Paren, g10);
    push_punct(&mut g3, '-', true);
    push_punct(&mut g3, '>', false);
    push_ident(&mut g3, "Self");
    let mut g11: Vec<Tok> = Vec::new();
    assert(toks_model(g11@) =~= Seq::<TokModel>::empty());
    push_ident(&mut g11, "Self");
    let mut g12: Vec<Tok> = Vec::new();
    assert(toks_model(g12@) =~= Seq::<TokModel>::empty());
    push_ident(&mut g12, "inner");
    push_punct(&mut g12, ':', false);
    push_ident(&mut g12, "std");
    push_punct(&mut g12, ':', true);
    push_punct(&mut g12, ':', false);
    push_ident(&mut g12, "sync");
    push_punct(&mut g12, ':', true);
    push_punct(&mut g12, ':', false);
    push_ident(&mut g12, "Arc");
    push_punct(&mut g12, ':', true);
    push_punct(&mut g12, ':', false);
    push_ident(&mut g12, "new");
    let mut g13: Vec<Tok> = Vec::new();
    assert(toks_model(g13@) =~= Seq::<TokModel>::empty());
    push_ident(&mut g13, "tokio");
    push_punct(&mut g13, ':', true);
    push_punct(&mut g13, ':', false);
    push_ident(&mut g13, "sync");
    push_punct(&mut g13, ':', true);
    push_punct(&mut g13, ':', false);
    push_ident(&mut g13, "RwLock");
    push_punct(&mut g13, ':', true);
    push_punct(&mut g13, ':', false);
    push_ident(&mut g13, "new");
    let mut g14: Vec<Tok> = Vec::new();
    assert(toks_model(g14@) =~= Seq::<TokModel>::empty());
    push_ident(&mut g14, inn);
    let mut g15: Vec<Tok> = Vec::new();
    assert(toks_model(g15@) =~= Seq::<TokModel>::empty());
    push_ident(&mut g15, "state");
    push_punct(&mut g15, ':', false);
    emit_m_initial(&mut g15, states, data);
    push_punct(&mut g15, ',', false);
    push_ident(&mut g15, "ctx");
    push_punct(&mut g15, ',', false);
    push_group(&mut g14, Delim::Brace, g15);
    push_group(&mut g13, Delim::Paren, g14);
    push_group(&mut g12, Delim::Paren, g13);
    push_punct(&mut g12, ',', false);
    push_group(&mut g11, Delim::Brace, g12);
    push_group(&mut g3, Delim::Brace, g11);
    push_punct(&mut g3, '#', false);
    let mut g16: Vec<Tok> = Vec::new();
    assert(toks_model(g16@) =~= Seq::<TokModel>::empty());
    push_ident(&mut g16, "doc");
    push_punct(&mut g16, '=', false);
    push_literal(&mut g16, "\" Restore from a snapshot (e.g., after Raft snapshot recovery).\"");
    push_group(&mut g3, Delim::Bracket, g16);
    push_ident(&mut g3, "pub");
    push_ident(&mut g3, "fn");
    push_ident(&mut g3, "from_snapshot");
    let mut g17: Vec<Tok> = Vec::new();
    assert(toks_model(g17@) =~= Seq::<TokModel>::empty());
    push_ident(&mut g17, "snapshot");
    push_punct(&mut g17, ':', false);
    push_ident(&mut g17, snap);
    push_group(&mut g3, Delim::Paren, g17);
    push_punct(&mut g3, '-', true);
    push_punct(&mut g3, '>', false);
    push_ident(&mut g3, "Self");
    let mut g18: Vec<Tok> = Vec::new();
    assert(toks_model(g18@) =~= Seq::<TokModel>::empty());
    push_ident(&mut g18, "Self");
    let mut g19: Vec<Tok> = Vec::new();
    assert(toks_model(g19@) =~= Seq::<TokModel>::empty());
    push_ident(&mut g19, "inner");
    push_punct(&mut g19, ':', false);
    push_ident(&mut g19, "std");
    push_punct(&mut g19, ':', true);
    push_punct(&mut g19, ':', false);
    push_ident(&mut g19, "sync");
    push_punct(&mut g19, ':', true);
    push_punct(&mut g19, ':', false);
    push_ident(&mut g19, "Arc");
    push_punct(&mut g19, ':', true);
    push_punct(&mut g19, ':', false);
    push_ident(&mut g19, "new");
    let mut g20: Vec<Tok> = Vec::new();
    assert(toks_model(g20@) =~= Seq::<TokModel>::empty());
    push_ident(&mut g20, "tokio");
    push_punct(&mut g20, ':', true);
    push_punct(&mut g20, ':', false);
    push_ident(&mut g20, "sync");
    push_punct(&mut g20, ':', true);
    push_punct(&mut g20, ':', false);
    push_ident(&mut g20, "RwLock");
    push_punct(&mut g20, ':', true);
    push_punct(&mut g20, ':', false);
    push_ident(&mut g20, "new");
    let mut g21: Vec<Tok> = Vec::new();
    assert(toks_model(g21@) =~= Seq::<TokModel>::empty());
    push_ident(&mut g21, inn);
    let mut g22: Vec<Tok> = Vec::new();
    assert(toks_model(g22@) =~= Seq::<TokModel>::empty());
    push_ident(&mut g22, "state");
    push_punct(&mut g22, ':', false);
    push_ident(&mut g22, "snapshot");
    push_punct(&mut g22, '.', false);
    push_ident(&mut g22, "state");
    push_punct(&mut g22, ',', false);
    push_ident(&mut g22, "ctx");
    push_punct(&mut g22, ':', false);
    push_ident(&mut g22, "snapshot");
    push_punct(&mut g22, '.', false);
    push_ident(&mut g22, "context");
    push_punct(&mut g22, ',', false);
    push_group(&mut g21, Delim::Brace, g22);
    push_group(&mut g20, Delim::Paren, g21);
    push_group(&mut g19, Delim::Paren, g20);
    push_punct(&mut g19, ',', false);
    push_group(&mut g18, Delim::Brace, g19);
    push_group(&mut g3, Delim::Brace, g18);
    push_punct(&mut g3, '#', false);
    let mut g23: Vec<Tok> = Vec::new();
    assert(toks_model(g23@) =~= Seq::<TokModel>::empty());
    push_ident(&mut g23, "doc");
    push_punct(&mut g23, '=', false);
    push_literal(&mut g23, "\" Get a clone of the current state data.\"");
    push_group(&mut g3, Delim::Bracket, g23);
    push_ident(&mut g3, "pub");
    push_ident(&mut g3, "async");
    push_ident(&mut g3, "fn");
    push_ident(&mut g3, "get_state");
    let mut g24: Vec<Tok> = Vec::new();
    assert(toks_model(g24@) =~= Seq::<TokModel>::empty());
    push_punct(&mut g24, '&', false);
    push_ident(&mut g24, "self");
    push_group(&mut g3, Delim::Paren, g24);
    push_punct(&mut g3, '-', true);
    push_punct(&mut g3, '>', false);
    push_ident(&mut g3, data);
    let mut g25: Vec<Tok> = Vec::new();
    assert(toks_model(g25@) =~= Seq::<TokModel>::empty());
    push_ident(&mut g25, "self");
    push_punct(&mut g25, '.', false);
    push_ident(&mut g25, "inner");
    push_punct(&mut g25, '.', false);
    push_ident(&mut g25, "read");
    let mut g26: Vec<Tok> = Vec::new();
    assert(toks_model(g26@) =~= Seq::<TokModel>::empty());
    push_group(&mut g25, Delim::Paren, g26);
    push_punct(&mut g25, '.', false);
    push_ident(&mut g25, "await");
    push_punct(&mut g25, '.', false);
    push_ident(&mut g25, "state");
    push_punct(&mut g25, '.', false);
    push_ident(&mut g25, "clone");
    let mut g27: Vec<Tok> = Vec::new();
    assert(toks_model(g27@) =~= Seq::<TokModel>::empty());
    push_group(&mut g25, Delim::Paren, g27);
    push_group(&mut g3, Delim::Brace, g25);
    push_punct(&mut g3, '#', false);
    let mut g28: Vec<Tok> = Vec::new();
    assert(toks_model(g28@) =~= Seq::<TokModel>::empty());
    push_ident(&mut g28, "doc");
    push_punct(&mut g28, '=', false);
    push_literal(&mut g28, "\" Get a full snapshot (state + context) for Raft persistence.\"");
    push_group(&mut g3, Delim::Bracket, g28);
    push_ident(&mut g3, "pub");
    push_ident(&mut g3, "async");
    push_ident(&mut g3, "fn");
    push_ident(&mut g3, "snapshot");
    let mut g29: Vec<Tok> = Vec::new();
    assert(toks_model(g29@) =~= Seq::<TokModel>::empty());
    push_punct(&mut g29, '&', false);
    push_ident(&mut g29, "self");
    push_group(&mut g3, Delim::Paren, g29);
    push_punct(&mut g3, '-', true);
    push_punct(&mut g3, '>', false);
    push_ident(&mut g3, snap);
    let mut g30: Vec<Tok> = Vec::new();
    assert(toks_model(g30@) =~= Seq::<TokModel>::empty());
    push_ident(&mut g30, "let");
    push_ident(&mut g30, "guard");
    push_punct(&mut g30, '=', false);
    push_ident(&mut g30, "self");
    push_punct(&mut g30, '.', false);
    push_ident(&mut g30, "inner");
    push_punct(&mut g30, '.', false);
    push_ident(&mut g30, "read");
    let mut g31: Vec<Tok> = Vec::new();
    assert(toks_model(g31@) =~= Seq::<TokModel>::empty());
    push_group(&mut g30, Delim::Paren, g31);
    push_punct(&mut g30, '.', false);
    push_ident(&mut g30, "await");
    push_punct(&mut g30, ';', false);
    push_ident(&mut g30, snap);
    let mut g32: Vec<Tok> = Vec::new();
    assert(toks_model(g32@) =~= Seq::<TokModel>::empty());
    push_ident(&mut g32, "state");
    push_punct(&mut g32, ':', false);
    push_ident(&mut g32, "guard");
    push_punct(&mut g32, '.', false);
    push_ident(&mut g32, "state");
    push_punct(&mut g32, '.', false);
    push_ident(&mut g32, "clone");
    let mut g33: Vec<Tok> = Vec::new();
    assert(toks_model(g33@) =~= Seq::<TokModel>::empty());
    push_group(&mut g32, Delim::Paren, g33);
    push_punct(&mut g32, ',', false);
    push_ident(&mut g32, "context");
    push_punct(&mut g32, ':', false);
    push_ident(&mut g32, "guard");
    push_punct(&mut g32, '.', false);
    push_ident(&mut g32, "ctx");
    push_punct(&mut g32, '.', false);
    push_ident(&mut g32, "clone");
    let mut g34: Vec<Tok> = Vec::new();
    assert(toks_model(g34@) =~= Seq::<TokModel>::empty());
    push_group(&mut g32, Delim::Paren, g34);
    push_punct(&mut g32, ',', false);
    push_group(&mut g30, Delim::Brace, g32);
    push_group(&mut g3, Delim::Brace, g30);
    emit_m_async_methods(&mut g3, transitions);
    push_group(out, Delim::Brace, g3);
    push_punct(out, '#', false);
    let mut g35: Vec<Tok> = Vec::new();
    assert(toks_model(g35@) =~= Seq::<TokModel>::empty());
    push_ident(&mut g35, "cfg");
    let mut g36: Vec<Tok> = Vec::new();
    assert(toks_model(g36@) =~= Seq::<TokModel>::empty());
    push_ident(&mut g36, "feature");
    push_punct(&mut g36, '=', false);
    push_literal(&mut g36, "\"async\"");
    push_group(&mut g35, Delim::Paren, g36);
    push_group(out, Delim::Bracket, g35);
    push_ident(out, "impl");
    push_ident(out, "Default");
    push_ident(out, "for");
    push_ident(out, h);
    let mut g37: Vec<Tok> = Vec::new();
    assert(toks_model(g37@) =~= Seq::<TokModel>::empty());
    push_ident(&mut g37, "fn");
    push_ident(&mut g37, "default");
    let mut g38: Vec<Tok> = Vec::new();
    assert(toks_model(g38@) =~= Seq::<TokModel>::empty());
    push_group(&mut g37, Delim::Paren, g38);
    push_punct(&mut g37, '-', true);
    push_punct(&mut g37, '>', false);
    push_ident(&mut g37, "Self");
    let mut g39: Vec<Tok> = Vec::new();
    assert(toks_model(g39@) =~= Seq::<TokModel>::empty());
    push_ident(&mut g39, "Self");
    push_punct(&mut g39, ':', true);
    push_punct(&mut g39, ':', false);
    push_ident(&mut g39, "new");
    let mut g40: Vec<Tok> = Vec::new();
    assert(toks_model(g40@) =~= Seq::<TokModel>::empty());
    push_group(&mut g39, Delim::Paren, g40);
    push_group(&mut g37, Delim::Brace, g39);
    push_group(out, Delim::Brace, g37);
}

/// The condition `not(feature = "async")`.
pub open spec fn m_cfg_not_async_after(o: Seq<TokModel>) -> Seq<TokModel> {
    let o = o.push(id("not"@)).push(grp(Delim::Paren, {
        let inner = Seq::<TokModel>::empty();
        let inner = inner.push(id("feature"@)).push(pa('=')).push(lit("\"async\""@));
        inner
    }));
    o
}

fn emit_m_cfg_not_async(out: &mut Vec<Tok>)
    ensures
        toks_model(final(out)@) == m_cfg_not_async_after(toks_model(old(out)@)),
{
    push_ident(out, "not");
    let mut g1: Vec<Tok> = Vec::new();
    assert(toks_model(g1@) =~= Seq::<TokModel>::empty());
    push_ident(&mut g1, "feature");
    push_punct(&mut g1, '=', false);
    push_literal(&mut g1, "\"async\"");
    push_group(out, Delim::Paren, g1);
}

/// The condition `feature = "async"`.
pub open spec fn m_cfg_async_after(o: Seq<TokModel>) -> Seq<TokModel> {
    let o = o.push(id("feature"@)).push(pa('=')).push(lit("\"async\""@));
    o
}

fn emit_m_cfg_async(out: &mut Vec<Tok>)
    ensures
        toks_model(final(out)@) == m_cfg_async_after(toks_model(old(out)@)),
{
    push_ident(out, "feature");
    push_punct(out, '=', false);
    push_literal(out, "\"async\"");
}

/// The `std` lock type.
pub open spec fn m_std_lock_after(o: Seq<TokModel>) -> Seq<TokModel> {
    let o = o.push(id("std"@)).push(pj(':')).push(pa(':')).push(id("sync"@)).push(pj(':')).push(pa(':')).push(id("RwLock"@));
    o
}

fn emit_m_std_lock(out: &mut Vec<Tok>)
    ensures
        toks_model(final(out)@) == m_std_lock_after(toks_model(old(out)@)),
{
    push_ident(out, "std");
    push_punct(out, ':', true);
    push_punct(out, ':', false);
    push_ident(out, "sync");
    push_punct(out, ':', true);
    push_punct(out, ':', false);
    push_ident(out, "RwLock");
}

/// The `tokio` lock type.
pub open spec fn m_tokio_lock_after(o: Seq<TokModel>) -> Seq<TokModel> {
    let o = o.push(id("tokio"@)).push(pj(':')).push(pa(':')).push(id("sync"@)).push(pj(':')).push(pa(':')).push(id("RwLock"@));
    o
}

fn emit_m_tokio_lock(out: &mut Vec<Tok>)
    ensures
        toks_model(final(out)@) == m_tokio_lock_after(toks_model(old(out)@)),
{
    push_ident(out, "tokio");
    push_punct(out, ':', true);
    push_punct(out, ':', false);
    push_ident(out, "sync");
    push_punct(out, ':', true);
    push_punct(out, ':', false);
    push_ident(out, "RwLock");
}

} // verus!
