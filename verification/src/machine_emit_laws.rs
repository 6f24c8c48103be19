//! What the generated code of a state machine does, read off its tokens: a
//! handle method hands back exactly what the transition's handler returns,
//! and a handler tests the source state first, checks the guard before it
//! changes anything, and ends by running the exit hooks, storing the new
//! state, running the entry hook and returning `Ok(())`.
use vstd::prelude::*;
use crate::tokens::{TokModel, Delim, toks_model};
use crate::emit::{id, pa, pj, grp};
use crate::machine_parse::{MachineTransitionModel, MachineStateModel, HookModel, HookKind};
use crate::machine_codegen::{pascal_case, hook_for, exit_calls};
use crate::machine_emit::{
    m_sync_method_after, m_async_method_after, m_handler_after, m_arg_names_after, m_arg_decls_after,
    m_opt_after, m_source_pats_after, m_exit_arms_after, m_bind_after, m_ctors_after, m_exit_after,
    m_enter_after, m_ctor_after, m_exit_match_after, m_bind_fields_after, m_bind_whole_after,
    m_user_guard_opt_after, m_gen_guard_opt_after, m_metrics_after, m_ctor_const_after, m_ctor_fn_after,
    m_gen_guard_after, m_user_guard_after, m_enter_call_after, m_gen_handler_after, m_user_handler_after,
};

verus! {

/// `()`.
pub open spec fn unit_group() -> TokModel {
    grp(Delim::Paren, Seq::empty())
}

/// `a::b`.
pub open spec fn path2(a: Seq<char>, b: Seq<char>) -> Seq<TokModel> {
    seq![id(a), pj(':'), pa(':'), id(b)]
}

/// The error type generated for transition `t`.
pub open spec fn gen_error(t: MachineTransitionModel) -> Seq<char> {
    pascal_case(t.name@, true) + "Error"@
}

/// The call of the transition's handler on the handle method's arguments:
/// `guard.handle_<name>(args)`.
pub open spec fn handler_call(t: MachineTransitionModel) -> Seq<TokModel> {
    seq![id("guard"@), pa('.'), id("handle_"@ + t.name@), grp(Delim::Paren, m_arg_names_after(Seq::empty(), t.args))]
}

/// `let mut guard = self.inner.write().unwrap();`
pub open spec fn sync_lock() -> Seq<TokModel> {
    seq![id("let"@), id("mut"@), id("guard"@), pa('='), id("self"@), pa('.'), id("inner"@), pa('.'), id("write"@),
        unit_group(), pa('.'), id("unwrap"@), unit_group(), pa(';')]
}

/// `let mut guard = self.inner.write().await;`
pub open spec fn async_lock() -> Seq<TokModel> {
    seq![id("let"@), id("mut"@), id("guard"@), pa('='), id("self"@), pa('.'), id("inner"@), pa('.'), id("write"@),
        unit_group(), pa('.'), id("await"@), pa(';')]
}

/// The arms that report a handler's result to the caller of a handle method
/// whose transition has its own error type: success is `Ok(())`, a refusal
/// (wrong state or failed guard) is `InvalidState`, the body's error `e` is
/// `User(e)`.
pub open spec fn user_result_arms() -> Seq<TokModel> {
    seq![
        id("Ok"@), grp(Delim::Paren, seq![unit_group()]), pj('='), pa('>'), id("Ok"@), grp(Delim::Paren, seq![unit_group()]), pa(','),
        id("Err"@), grp(Delim::Paren, seq![id("None"@)]), pj('='), pa('>'), id("Err"@),
        grp(Delim::Paren, path2("ssm"@, "TransitionError"@).add(seq![pj(':'), pa(':'), id("InvalidState"@)])), pa(','),
        id("Err"@), grp(Delim::Paren, seq![id("Some"@), grp(Delim::Paren, seq![id("e"@)])]), pj('='), pa('>'), id("Err"@),
        grp(Delim::Paren, path2("ssm"@, "TransitionError"@).add(seq![pj(':'), pa(':'), id("User"@), grp(Delim::Paren, seq![id("e"@)])])), pa(','),
    ]
}

proof fn self_param_prefix()
    ensures
        seq![pa('&'), id("self"@), pa(',')] == Seq::<TokModel>::empty().push(pa('&')).push(id("self"@)).push(pa(',')),
{
    assert(seq![pa('&'), id("self"@), pa(',')] =~= Seq::<TokModel>::empty().push(pa('&')).push(id("self"@)).push(pa(',')));
}

/// A handle method of a transition without its own error type returns
/// `Result<(), E>` with the transition's generated error `E`, and the value
/// of its body is the call of the transition's handler: whatever the handler
/// returns (a refusal for a wrong state or a failed guard too) is what the
/// caller gets.
pub proof fn law_sync_method_returns_the_handler_result(o: Seq<TokModel>, t: MachineTransitionModel)
    requires
        t.error_type is None,
    ensures
        m_sync_method_after(o, t) == o + seq![
            id("pub"@), id("fn"@), id(t.name@),
            grp(Delim::Paren, m_arg_decls_after(seq![pa('&'), id("self"@), pa(',')], t.args)),
            pj('-'), pa('>'), id("Result"@), pa('<'), unit_group(), pa(','), id(gen_error(t)), pa('>'),
            grp(Delim::Brace, sync_lock() + handler_call(t)),
        ],
{
    self_param_prefix();
    let r = m_sync_method_after(o, t);
    assert(r[o.len() as int + 12] matches TokModel::Group(Delim::Brace, b) && b =~= sync_lock() + handler_call(t));
    assert(r[o.len() as int + 3] == grp(Delim::Paren, m_arg_decls_after(seq![pa('&'), id("self"@), pa(',')], t.args)));
    assert(r[o.len() as int + 8] == unit_group());
    assert(r =~= o + seq![
        id("pub"@), id("fn"@), id(t.name@),
        grp(Delim::Paren, m_arg_decls_after(seq![pa('&'), id("self"@), pa(',')], t.args)),
        pj('-'), pa('>'), id("Result"@), pa('<'), unit_group(), pa(','), id(gen_error(t)), pa('>'),
        grp(Delim::Brace, sync_lock() + handler_call(t)),
    ]);
}

/// The async handle method of a transition without its own error type
/// returns what the transition's handler returns, as the sync one does.
pub proof fn law_async_method_returns_the_handler_result(o: Seq<TokModel>, t: MachineTransitionModel)
    requires
        t.error_type is None,
    ensures
        m_async_method_after(o, t) == o + seq![
            id("pub"@), id("async"@), id("fn"@), id(t.name@),
            grp(Delim::Paren, m_arg_decls_after(seq![pa('&'), id("self"@), pa(',')], t.args)),
            pj('-'), pa('>'), id("Result"@), pa('<'), unit_group(), pa(','), id(gen_error(t)), pa('>'),
            grp(Delim::Brace, async_lock() + handler_call(t)),
        ],
{
    self_param_prefix();
    let r = m_async_method_after(o, t);
    assert(r[o.len() as int + 13] matches TokModel::Group(Delim::Brace, b) && b =~= async_lock() + handler_call(t));
    assert(r[o.len() as int + 4] == grp(Delim::Paren, m_arg_decls_after(seq![pa('&'), id("self"@), pa(',')], t.args)));
    assert(r[o.len() as int + 9] == unit_group());
    assert(r =~= o + seq![
        id("pub"@), id("async"@), id("fn"@), id(t.name@),
        grp(Delim::Paren, m_arg_decls_after(seq![pa('&'), id("self"@), pa(',')], t.args)),
        pj('-'), pa('>'), id("Result"@), pa('<'), unit_group(), pa(','), id(gen_error(t)), pa('>'),
        grp(Delim::Brace, async_lock() + handler_call(t)),
    ]);
}

proof fn lemma_user_result_arms(a: Seq<TokModel>)
    requires
        a == Seq::<TokModel>::empty().push(id("Ok"@)).push(grp(Delim::Paren, Seq::<TokModel>::empty().push(unit_group())))
            .push(pj('=')).push(pa('>')).push(id("Ok"@)).push(grp(Delim::Paren, Seq::<TokModel>::empty().push(unit_group())))
            .push(pa(',')).push(id("Err"@)).push(grp(Delim::Paren, Seq::<TokModel>::empty().push(id("None"@))))
            .push(pj('=')).push(pa('>')).push(id("Err"@)).push(grp(Delim::Paren, Seq::<TokModel>::empty().push(id("ssm"@)).push(pj(':')).push(pa(':'))
                .push(id("TransitionError"@)).push(pj(':')).push(pa(':')).push(id("InvalidState"@))))
            .push(pa(',')).push(id("Err"@)).push(grp(Delim::Paren, Seq::<TokModel>::empty().push(id("Some"@))
                .push(grp(Delim::Paren, Seq::<TokModel>::empty().push(id("e"@))))))
            .push(pj('=')).push(pa('>')).push(id("Err"@)).push(grp(Delim::Paren, Seq::<TokModel>::empty().push(id("ssm"@)).push(pj(':')).push(pa(':'))
                .push(id("TransitionError"@)).push(pj(':')).push(pa(':')).push(id("User"@))
                .push(grp(Delim::Paren, Seq::<TokModel>::empty().push(id("e"@))))))
            .push(pa(',')),
    ensures
        a == user_result_arms(),
{
    let u = user_result_arms();
    assert(Seq::<TokModel>::empty().push(unit_group()) =~= seq![unit_group()]);
    assert(Seq::<TokModel>::empty().push(id("None"@)) =~= seq![id("None"@)]);
    assert(Seq::<TokModel>::empty().push(id("e"@)) =~= seq![id("e"@)]);
    assert(Seq::<TokModel>::empty().push(id("Some"@)).push(grp(Delim::Paren, Seq::<TokModel>::empty().push(id("e"@))))
        =~= seq![id("Some"@), grp(Delim::Paren, seq![id("e"@)])]);
    assert(Seq::<TokModel>::empty().push(id("ssm"@)).push(pj(':')).push(pa(':')).push(id("TransitionError"@)).push(pj(':')).push(pa(':'))
        .push(id("InvalidState"@)) =~= path2("ssm"@, "TransitionError"@).add(seq![pj(':'), pa(':'), id("InvalidState"@)]));
    assert(Seq::<TokModel>::empty().push(id("ssm"@)).push(pj(':')).push(pa(':')).push(id("TransitionError"@)).push(pj(':')).push(pa(':'))
        .push(id("User"@)).push(grp(Delim::Paren, Seq::<TokModel>::empty().push(id("e"@))))
        =~= path2("ssm"@, "TransitionError"@).add(seq![pj(':'), pa(':'), id("User"@), grp(Delim::Paren, seq![id("e"@)])]));
    assert(a =~= u);
}

/// A handle method of a transition with its own error type `E` returns
/// `Result<(), ssm::TransitionError<E>>`, and its body's value is a match on
/// the handler's call: `Ok(())` for success, `InvalidState` for a refusal,
/// `User(e)` for the body's error.
pub proof fn law_sync_user_method_reports_the_handler_result(o: Seq<TokModel>, t: MachineTransitionModel, et: Seq<crate::tokens::Tok>)
    requires
        t.error_type == Some(et),
    ensures
        m_sync_method_after(o, t) == o + seq![
            id("pub"@), id("fn"@), id(t.name@),
            grp(Delim::Paren, m_arg_decls_after(seq![pa('&'), id("self"@), pa(',')], t.args)),
            pj('-'), pa('>'), id("Result"@), pa('<'), unit_group(), pa(',')]
            + path2("ssm"@, "TransitionError"@) + seq![pa('<')] + toks_model(et) + seq![pa('>'), pa('>'),
            grp(Delim::Brace, sync_lock() + seq![id("match"@)] + handler_call(t) + seq![grp(Delim::Brace, user_result_arms())]),
        ],
{
    self_param_prefix();
    let r = m_sync_method_after(o, t);
    let body = sync_lock() + seq![id("match"@)] + handler_call(t) + seq![grp(Delim::Brace, user_result_arms())];
    let ret = seq![id("pub"@), id("fn"@), id(t.name@),
        grp(Delim::Paren, m_arg_decls_after(seq![pa('&'), id("self"@), pa(',')], t.args)),
        pj('-'), pa('>'), id("Result"@), pa('<'), unit_group(), pa(',')]
        + path2("ssm"@, "TransitionError"@) + seq![pa('<')] + toks_model(et) + seq![pa('>'), pa('>')];
    lemma_user_result_arms(r.last()->Group_1.last()->Group_1);
    assert(r.last() matches TokModel::Group(Delim::Brace, b) && b =~= body);
    assert(r[o.len() as int + 3] == grp(Delim::Paren, m_arg_decls_after(seq![pa('&'), id("self"@), pa(',')], t.args)));
    assert(r[o.len() as int + 8] == unit_group());
    assert(r =~= o + ret + seq![grp(Delim::Brace, body)]);
}

/// The async handle method of a transition with its own error type reports
/// the handler's result as the sync one does.
pub proof fn law_async_user_method_reports_the_handler_result(o: Seq<TokModel>, t: MachineTransitionModel, et: Seq<crate::tokens::Tok>)
    requires
        t.error_type == Some(et),
    ensures
        m_async_method_after(o, t) == o + seq![
            id("pub"@), id("async"@), id("fn"@), id(t.name@),
            grp(Delim::Paren, m_arg_decls_after(seq![pa('&'), id("self"@), pa(',')], t.args)),
            pj('-'), pa('>'), id("Result"@), pa('<'), unit_group(), pa(',')]
            + path2("ssm"@, "TransitionError"@) + seq![pa('<')] + toks_model(et) + seq![pa('>'), pa('>'),
            grp(Delim::Brace, async_lock() + seq![id("match"@)] + handler_call(t) + seq![grp(Delim::Brace, user_result_arms())]),
        ],
{
    self_param_prefix();
    let r = m_async_method_after(o, t);
    let body = async_lock() + seq![id("match"@)] + handler_call(t) + seq![grp(Delim::Brace, user_result_arms())];
    let ret = seq![id("pub"@), id("async"@), id("fn"@), id(t.name@),
        grp(Delim::Paren, m_arg_decls_after(seq![pa('&'), id("self"@), pa(',')], t.args)),
        pj('-'), pa('>'), id("Result"@), pa('<'), unit_group(), pa(',')]
        + path2("ssm"@, "TransitionError"@) + seq![pa('<')] + toks_model(et) + seq![pa('>'), pa('>')];
    lemma_user_result_arms(r.last()->Group_1.last()->Group_1);
    assert(r.last() matches TokModel::Group(Delim::Brace, b) && b =~= body);
    assert(r[o.len() as int + 4] == grp(Delim::Paren, m_arg_decls_after(seq![pa('&'), id("self"@), pa(',')], t.args)));
    assert(r[o.len() as int + 9] == unit_group());
    assert(r =~= o + ret + seq![grp(Delim::Brace, body)]);
}

// ---------------------------------------------------------------------------
// Handlers
// ---------------------------------------------------------------------------

/// `()` written as an empty group built up token by token.
pub open spec fn empty_toks() -> Seq<TokModel> {
    Seq::<TokModel>::empty()
}

/// The source test of a handler: `if !matches!(self.state, <sources>) { <refusal> }`.
pub open spec fn source_check(t: MachineTransitionModel, data: Seq<char>, refusal: Seq<TokModel>) -> Seq<TokModel> {
    seq![
        id("if"@), pa('!'), id("matches"@), pa('!'),
        grp(Delim::Paren, m_source_pats_after(empty_toks().push(id("self"@)).push(pa('.')).push(id("state"@)).push(pa(',')), t.source_states, data)),
        grp(Delim::Brace, refusal),
    ]
}

/// `return Err(E::InvalidState);`
pub open spec fn invalid_state_refusal(en: Seq<char>) -> Seq<TokModel> {
    empty_toks().push(id("return"@)).push(id("Err"@))
        .push(grp(Delim::Paren, empty_toks().push(id(en)).push(pj(':')).push(pa(':')).push(id("InvalidState"@)))).push(pa(';'))
}

/// `return Err(E::GuardFailed);`
pub open spec fn guard_failed_refusal(en: Seq<char>) -> Seq<TokModel> {
    empty_toks().push(id("return"@)).push(id("Err"@))
        .push(grp(Delim::Paren, empty_toks().push(id(en)).push(pj(':')).push(pa(':')).push(id("GuardFailed"@)))).push(pa(';'))
}

/// `return Err(None);`
pub open spec fn none_refusal() -> Seq<TokModel> {
    empty_toks().push(id("return"@)).push(id("Err"@)).push(grp(Delim::Paren, empty_toks().push(id("None"@)))).push(pa(';'))
}

/// The guard test, if there is a guard: `if !(<guard>) { <refusal> }`.
pub open spec fn guard_check(g: Option<Seq<crate::tokens::Tok>>, refusal: Seq<TokModel>) -> Seq<TokModel> {
    match g {
        Some(g) => seq![id("if"@), pa('!'), grp(Delim::Paren, empty_toks() + toks_model(g)), grp(Delim::Brace, refusal)],
        None => empty_toks(),
    }
}

/// `#[allow(unused_variables)] let ctx = &mut self.ctx;`
pub open spec fn ctx_binding() -> Seq<TokModel> {
    seq![
        pa('#'), grp(Delim::Bracket, empty_toks().push(id("allow"@)).push(grp(Delim::Paren, empty_toks().push(id("unused_variables"@))))),
        id("let"@), id("ctx"@), pa('='), pa('&'), id("mut"@), id("self"@), pa('.'), id("ctx"@), pa(';'),
    ]
}

/// The exit hooks a handler runs on the state it leaves, if there are any:
/// `match &self.state { <source> { .. } => self.<hook>(), ... _ => {} }`.
pub open spec fn exit_hooks(hooks: Seq<HookModel>, t: MachineTransitionModel, data: Seq<char>) -> Seq<TokModel> {
    let calls = exit_calls(hooks, t.source_states);
    if calls.len() == 0 {
        empty_toks()
    } else {
        seq![id("match"@), pa('&'), id("self"@), pa('.'), id("state"@), grp(Delim::Brace,
            m_exit_arms_after(empty_toks(), calls, data).push(id("_"@)).push(pj('=')).push(pa('>')).push(grp(Delim::Brace, empty_toks())))]
    }
}

/// The entry hook call of the target state, if it has one: `self.<hook>();`.
pub open spec fn entry_hook(hooks: Seq<HookModel>, t: MachineTransitionModel) -> Seq<TokModel> {
    match hook_for(hooks, t.target_state@, HookKind::OnEnter) {
        Some(h) => seq![id("self"@), pa('.'), id(h@), grp(Delim::Paren, empty_toks()), pa(';')],
        None => empty_toks(),
    }
}

/// `Ok(())`.
pub open spec fn ok_unit() -> Seq<TokModel> {
    seq![id("Ok"@), grp(Delim::Paren, empty_toks().push(grp(Delim::Paren, empty_toks())))]
}

proof fn lemma_bind_append(o: Seq<TokModel>, states: Seq<MachineStateModel>, sources: Seq<String>, data: Seq<char>)
    ensures
        m_bind_after(o, states, sources, data) == o + m_bind_after(empty_toks(), states, sources, data),
{
    assert(m_bind_after(o, states, sources, data) =~= o + m_bind_after(empty_toks(), states, sources, data));
}

proof fn lemma_ctor_append(o: Seq<TokModel>, s: MachineStateModel, data: Seq<char>)
    ensures
        m_ctor_after(o, s, data) == o + m_ctor_after(empty_toks(), s, data),
{
    assert(m_ctor_after(o, s, data) =~= o + m_ctor_after(empty_toks(), s, data));
}

proof fn lemma_ctors_append(o: Seq<TokModel>, states: Seq<MachineStateModel>, data: Seq<char>)
    ensures
        m_ctors_after(o, states, data) == o + m_ctors_after(empty_toks(), states, data),
    decreases states.len(),
{
    if states.len() == 0 {
        assert(o + empty_toks() =~= o);
    } else {
        lemma_ctors_append(o, states.drop_last(), data);
        lemma_ctors_append(empty_toks(), states.drop_last(), data);
        let a = m_ctors_after(o, states.drop_last(), data);
        let e = m_ctors_after(empty_toks(), states.drop_last(), data);
        lemma_ctor_append(a, states.last(), data);
        lemma_ctor_append(e, states.last(), data);
        assert(e + m_ctor_after(empty_toks(), states.last(), data) == e + m_ctor_after(empty_toks(), states.last(), data));
        assert(o + e + m_ctor_after(empty_toks(), states.last(), data) =~= o + (e + m_ctor_after(empty_toks(), states.last(), data)));
    }
}

proof fn lemma_tail_pieces(o: Seq<TokModel>, g: Option<Seq<crate::tokens::Tok>>, en: Seq<char>, hooks: Seq<HookModel>, t: MachineTransitionModel, data: Seq<char>)
    ensures
        m_gen_guard_opt_after(o, g, en) == o + guard_check(g, guard_failed_refusal(en)),
        m_user_guard_opt_after(o, g) == o + guard_check(g, none_refusal()),
        m_exit_after(o, exit_calls(hooks, t.source_states), data) == o + exit_hooks(hooks, t, data),
        m_enter_after(o, hook_for(hooks, t.target_state@, HookKind::OnEnter)) == o + entry_hook(hooks, t),
{
    assert(m_gen_guard_opt_after(o, g, en) =~= o + guard_check(g, guard_failed_refusal(en)));
    assert(m_user_guard_opt_after(o, g) =~= o + guard_check(g, none_refusal()));
    assert(m_exit_after(o, exit_calls(hooks, t.source_states), data) =~= o + exit_hooks(hooks, t, data));
    assert(m_enter_after(o, hook_for(hooks, t.target_state@, HookKind::OnEnter)) =~= o + entry_hook(hooks, t));
}

/// The handler of a transition with a generated error type `E`, in order:
/// it refuses a state that is not a source with `E::InvalidState`, binds
/// what the source holds and the context, refuses a failed guard with
/// `E::GuardFailed`, and only then runs the exit hooks, stores the state the
/// body builds, runs the entry hook of the target and returns `Ok(())`.
#[verifier::spinoff_prover]
#[verifier::rlimit(80)]
pub proof fn law_generated_handler_steps(o: Seq<TokModel>, t: MachineTransitionModel, data: Seq<char>, sm: Seq<char>, states: Seq<MachineStateModel>, hooks: Seq<HookModel>)
    requires
        t.error_type is None,
    ensures
        m_handler_after(o, t, data, sm, states, hooks).last() == grp(Delim::Brace,
            source_check(t, data, invalid_state_refusal(gen_error(t)))
            + m_bind_after(empty_toks(), states, t.source_states, data)
            + ctx_binding()
            + guard_check(t.guard, guard_failed_refusal(gen_error(t)))
            + m_ctors_after(empty_toks(), states, data)
            + exit_hooks(hooks, t, data)
            + seq![id("self"@), pa('.'), id("state"@), pa('='), grp(Delim::Brace, empty_toks() + toks_model(t.body)), pa(';')]
            + entry_hook(hooks, t)
            + ok_unit()),
{
    let en = gen_error(t);
    let h0 = empty_toks().push(id("if"@)).push(pa('!')).push(id("matches"@)).push(pa('!'))
        .push(grp(Delim::Paren, m_source_pats_after(empty_toks().push(id("self"@)).push(pa('.')).push(id("state"@)).push(pa(',')), t.source_states, data)))
        .push(grp(Delim::Brace, invalid_state_refusal(en)));
    assert(h0 =~= source_check(t, data, invalid_state_refusal(en)));
    lemma_bind_append(h0, states, t.source_states, data);
    let h1 = m_bind_after(h0, states, t.source_states, data);
    let h2 = h1.push(pa('#')).push(grp(Delim::Bracket, empty_toks().push(id("allow"@)).push(grp(Delim::Paren, empty_toks().push(id("unused_variables"@))))))
        .push(id("let"@)).push(id("ctx"@)).push(pa('=')).push(pa('&')).push(id("mut"@)).push(id("self"@)).push(pa('.')).push(id("ctx"@)).push(pa(';'));
    assert(h2 =~= h1 + ctx_binding());
    lemma_tail_pieces(h2, t.guard, en, hooks, t, data);
    let h3 = m_gen_guard_opt_after(h2, t.guard, en);
    lemma_ctors_append(h3, states, data);
    let h4 = m_ctors_after(h3, states, data);
    lemma_tail_pieces(h4, t.guard, en, hooks, t, data);
    let h5 = m_exit_after(h4, exit_calls(hooks, t.source_states), data);
    let h6 = h5.push(id("self"@)).push(pa('.')).push(id("state"@)).push(pa('=')).push(grp(Delim::Brace, empty_toks() + toks_model(t.body))).push(pa(';'));
    lemma_tail_pieces(h6, t.guard, en, hooks, t, data);
    let h7 = m_enter_after(h6, hook_for(hooks, t.target_state@, HookKind::OnEnter));
    let h8 = h7.push(id("Ok"@)).push(grp(Delim::Paren, empty_toks().push(grp(Delim::Paren, empty_toks()))));
    let upd = seq![id("self"@), pa('.'), id("state"@), pa('='), grp(Delim::Brace, empty_toks() + toks_model(t.body)), pa(';')];
    assert(h6 =~= h5 + upd);
    assert(h8 =~= h7 + ok_unit());
    assert(h8 == source_check(t, data, invalid_state_refusal(en))
        + m_bind_after(empty_toks(), states, t.source_states, data)
        + ctx_binding()
        + guard_check(t.guard, guard_failed_refusal(en))
        + m_ctors_after(empty_toks(), states, data)
        + exit_hooks(hooks, t, data)
        + upd
        + entry_hook(hooks, t)
        + ok_unit());
    assert(m_handler_after(o, t, data, sm, states, hooks) == m_gen_handler_after(o, t, data, sm, states, hooks));
    assert(m_gen_handler_after(o, t, data, sm, states, hooks).last() == grp(Delim::Brace, h8));
}

/// The arms of a handler whose body returns `Result<Target, E>`: on `Ok` it
/// runs the exit hooks, stores the new state, runs the entry hook and returns
/// `Ok(())`; the body's error `e` is returned as `Err(Some(e))` and changes
/// nothing.
pub open spec fn user_handler_arms(hooks: Seq<HookModel>, t: MachineTransitionModel, data: Seq<char>) -> Seq<TokModel> {
    seq![
        id("Ok"@), grp(Delim::Paren, empty_toks().push(id("new_state"@))), pj('='), pa('>'),
        grp(Delim::Brace, exit_hooks(hooks, t, data)
            + seq![id("self"@), pa('.'), id("state"@), pa('='), id("new_state"@), pa(';')]
            + entry_hook(hooks, t) + ok_unit()),
        id("Err"@), grp(Delim::Paren, empty_toks().push(id("e"@))), pj('='), pa('>'), id("Err"@),
        grp(Delim::Paren, empty_toks().push(id("Some"@)).push(grp(Delim::Paren, empty_toks().push(id("e"@))))), pa(','),
    ]
}

/// The handler of a transition whose body returns `Result<Target, E>`, in
/// order: it refuses a state that is not a source with `Err(None)`, binds
/// what the source holds and the context, refuses a failed guard with
/// `Err(None)`, then runs the body and acts on its result as
/// [`user_handler_arms`] says.
#[verifier::spinoff_prover]
#[verifier::rlimit(80)]
pub proof fn law_user_error_handler_steps(o: Seq<TokModel>, t: MachineTransitionModel, data: Seq<char>, sm: Seq<char>, states: Seq<MachineStateModel>, hooks: Seq<HookModel>)
    requires
        t.error_type is Some,
    ensures
        m_handler_after(o, t, data, sm, states, hooks).last() == grp(Delim::Brace,
            source_check(t, data, none_refusal())
            + m_bind_after(empty_toks(), states, t.source_states, data)
            + ctx_binding()
            + guard_check(t.guard, none_refusal())
            + m_ctors_after(empty_toks(), states, data)
            + seq![id("match"@), grp(Delim::Brace, empty_toks() + toks_model(t.body)), grp(Delim::Brace, user_handler_arms(hooks, t, data))]),
{
    let h0 = empty_toks().push(id("if"@)).push(pa('!')).push(id("matches"@)).push(pa('!'))
        .push(grp(Delim::Paren, m_source_pats_after(empty_toks().push(id("self"@)).push(pa('.')).push(id("state"@)).push(pa(',')), t.source_states, data)))
        .push(grp(Delim::Brace, none_refusal()));
    assert(h0 =~= source_check(t, data, none_refusal()));
    lemma_bind_append(h0, states, t.source_states, data);
    let h1 = m_bind_after(h0, states, t.source_states, data);
    let h2 = h1.push(pa('#')).push(grp(Delim::Bracket, empty_toks().push(id("allow"@)).push(grp(Delim::Paren, empty_toks().push(id("unused_variables"@))))))
        .push(id("let"@)).push(id("ctx"@)).push(pa('=')).push(pa('&')).push(id("mut"@)).push(id("self"@)).push(pa('.')).push(id("ctx"@)).push(pa(';'));
    assert(h2 =~= h1 + ctx_binding());
    lemma_tail_pieces(h2, t.guard, gen_error(t), hooks, t, data);
    let h3 = m_user_guard_opt_after(h2, t.guard);
    lemma_ctors_append(h3, states, data);
    let h4 = m_ctors_after(h3, states, data);
    lemma_tail_pieces(empty_toks(), t.guard, gen_error(t), hooks, t, data);
    let a0 = m_exit_after(empty_toks(), exit_calls(hooks, t.source_states), data);
    let a1 = a0.push(id("self"@)).push(pa('.')).push(id("state"@)).push(pa('=')).push(id("new_state"@)).push(pa(';'));
    lemma_tail_pieces(a1, t.guard, gen_error(t), hooks, t, data);
    let a2 = m_enter_after(a1, hook_for(hooks, t.target_state@, HookKind::OnEnter));
    let a3 = a2.push(id("Ok"@)).push(grp(Delim::Paren, empty_toks().push(grp(Delim::Paren, empty_toks()))));
    assert(a3 =~= exit_hooks(hooks, t, data)
        + seq![id("self"@), pa('.'), id("state"@), pa('='), id("new_state"@), pa(';')]
        + entry_hook(hooks, t) + ok_unit());
    let arms = empty_toks().push(id("Ok"@)).push(grp(Delim::Paren, empty_toks().push(id("new_state"@)))).push(pj('=')).push(pa('>'))
        .push(grp(Delim::Brace, a3)).push(id("Err"@)).push(grp(Delim::Paren, empty_toks().push(id("e"@)))).push(pj('=')).push(pa('>'))
        .push(id("Err"@)).push(grp(Delim::Paren, empty_toks().push(id("Some"@)).push(grp(Delim::Paren, empty_toks().push(id("e"@))))))
        .push(pa(','));
    assert(arms =~= user_handler_arms(hooks, t, data));
    let h5 = h4.push(id("match"@)).push(grp(Delim::Brace, empty_toks() + toks_model(t.body))).push(grp(Delim::Brace, arms));
    assert(h5 =~= source_check(t, data, none_refusal())
        + m_bind_after(empty_toks(), states, t.source_states, data)
        + ctx_binding()
        + guard_check(t.guard, none_refusal())
        + m_ctors_after(empty_toks(), states, data)
        + seq![id("match"@), grp(Delim::Brace, empty_toks() + toks_model(t.body)), grp(Delim::Brace, user_handler_arms(hooks, t, data))]);
    assert(m_handler_after(o, t, data, sm, states, hooks) == m_user_handler_after(o, t, data, sm, states, hooks));
    assert(m_user_handler_after(o, t, data, sm, states, hooks).last() == grp(Delim::Brace, h5));
}

} // verus!
