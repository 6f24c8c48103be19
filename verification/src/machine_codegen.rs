//! The decisions behind the code that the `state_machine!` front end emits:
//! the names it derives, which lifecycle hooks each transition runs, what a
//! transition handler binds and how it reports failure, and where a machine
//! starts.
use vstd::prelude::*;
use crate::text::{chars_of, uppercase_of, string_from_chars, upper_mapping, concat_text};
use crate::tokens::text_eq;
use crate::machine_parse::{
    HookKind, HookModel, LifecycleHook, MachineStateModel, MachineTransitionModel, State,
    Transition, hooks_model, machine_states_model, machine_transitions_model,
};

verus! {

/// PascalCase of a snake_case name: the name is split at each `_`, every
/// non-empty piece has its first character replaced by that character's full
/// uppercase mapping, and the pieces are joined with nothing between them.
pub open spec fn pascal_case(s: Seq<char>, at_piece_start: bool) -> Seq<char>
    decreases s.len(),
{
    if s.len() == 0 {
        Seq::empty()
    } else if s[0] == '_' {
        pascal_case(s.drop_first(), true)
    } else if at_piece_start {
        upper_mapping(s[0]) + pascal_case(s.drop_first(), false)
    } else {
        seq![s[0]] + pascal_case(s.drop_first(), false)
    }
}

/// Converts snake_case to PascalCase (`start_job` becomes `StartJob`).
pub fn to_pascal_case(s: &str) -> (r: String)
    ensures
        r@ == pascal_case(s@, true),
{
    let cs = chars_of(s);
    let mut out: Vec<char> = Vec::new();
    let mut at_start = true;
    let mut i: usize = 0;
    proof {
        assert(cs@.skip(0) =~= cs@);
        assert(out@ + pascal_case(s@, true) =~= pascal_case(s@, true));
    }
    while i < cs.len()
        invariant
            i <= cs@.len(),
            cs@ == s@,
            out@ + pascal_case(cs@.skip(i as int), at_start) == pascal_case(s@, true),
        decreases cs.len() - i,
    {
        let c = cs[i];
        proof {
            assert(cs@.skip(i as int).drop_first() =~= cs@.skip(i + 1));
        }
        let ghost prev = out@;
        if c == '_' {
            at_start = true;
        } else if at_start {
            let up = uppercase_of(c);
            let mut j: usize = 0;
            while j < up.len()
                invariant
                    j <= up@.len(),
                    out@ == prev + up@.take(j as int),
                decreases up.len() - j,
            {
                out.push(up[j]);
                proof {
                    assert(up@.take(j + 1) =~= up@.take(j as int).push(up@[j as int]));
                }
                j += 1;
            }
            proof {
                assert(up@.take(up@.len() as int) =~= up@);
                assert(out@ + pascal_case(cs@.skip(i + 1), false) =~= prev + (upper_mapping(c) + pascal_case(cs@.skip(i + 1), false)));
            }
            at_start = false;
        } else {
            out.push(c);
            proof {
                assert(out@ + pascal_case(cs@.skip(i + 1), false) =~= prev + (seq![c] + pascal_case(cs@.skip(i + 1), false)));
            }
        }
        i += 1;
    }
    proof {
        assert(cs@.skip(i as int) =~= Seq::<char>::empty());
        assert(out@ + Seq::<char>::empty() =~= out@);
    }
    string_from_chars(&out)
}


// ---------------------------------------------------------------------------
// Derived names
// ---------------------------------------------------------------------------

/// The enum of state data of the machine `name` (`Counter` gives `CounterStateData`).
pub fn state_data_name(name: &str) -> (r: String)
    ensures
        r@ == name@ + "StateData"@,
{
    concat_text(name, "StateData")
}

/// The snapshot type of the machine `name` (`Counter` gives `CounterSnapshot`).
pub fn snapshot_name(name: &str) -> (r: String)
    ensures
        r@ == name@ + "Snapshot"@,
{
    concat_text(name, "Snapshot")
}

/// The context type generated when none is given (`Counter` gives `CounterContext`).
pub fn context_name(name: &str) -> (r: String)
    ensures
        r@ == name@ + "Context"@,
{
    concat_text(name, "Context")
}

/// The type of the shared inner state (`Counter` gives `__CounterInner`).
pub fn inner_name(name: &str) -> (r: String)
    ensures
        r@ == "__"@ + name@ + "Inner"@,
{
    let head = concat_text("__", name);
    concat_text(head.as_str(), "Inner")
}

/// The handler method of a transition (`start` gives `handle_start`).
pub fn handler_name(transition: &str) -> (r: String)
    ensures
        r@ == "handle_"@ + transition@,
{
    concat_text("handle_", transition)
}

/// The error type generated for a transition (`start_job` gives `StartJobError`).
pub fn error_name(transition: &str) -> (r: String)
    ensures
        r@ == pascal_case(transition@, true) + "Error"@,
{
    let p = to_pascal_case(transition);
    concat_text(p.as_str(), "Error")
}

// ---------------------------------------------------------------------------
// Lifecycle hooks
// ---------------------------------------------------------------------------

/// The hook of the given kind declared for `state`; when several are, the last.
pub open spec fn hook_for(hooks: Seq<HookModel>, state: Seq<char>, kind: HookKind) -> Option<String>
    decreases hooks.len(),
{
    if hooks.len() == 0 {
        None
    } else if hooks.last().state@ == state && hooks.last().kind == kind {
        Some(hooks.last().name)
    } else {
        hook_for(hooks.drop_last(), state, kind)
    }
}

/// Some hook is declared for `state`.
pub open spec fn has_hook(hooks: Seq<HookModel>, state: Seq<char>) -> bool {
    exists|i: int| 0 <= i < hooks.len() && #[trigger] hooks[i].state@ == state
}

/// The hooks of one state: the names of its `on_enter` and `on_exit` hooks.
#[derive(Debug)]
pub struct HookEntry {
    pub state: String,
    pub on_enter: Option<String>,
    pub on_exit: Option<String>,
}

/// The entries of a hook map are for distinct states, one for each state that
/// has a hook, and each names the hooks that [`hook_for`] picks.
pub open spec fn is_hook_map(map: Seq<HookEntry>, hooks: Seq<HookModel>) -> bool {
    &&& forall|i: int, j: int| 0 <= i < j < map.len() ==> map[i].state@ != map[j].state@
    &&& forall|i: int| 0 <= i < map.len() ==> {
        &&& has_hook(hooks, #[trigger] map[i].state@)
        &&& map[i].on_enter == hook_for(hooks, map[i].state@, HookKind::OnEnter)
        &&& map[i].on_exit == hook_for(hooks, map[i].state@, HookKind::OnExit)
    }
    &&& forall|k: int| 0 <= k < hooks.len() ==> exists|i: int| 0 <= i < map.len() && #[trigger] map[i].state@ == #[trigger] hooks[k].state@
}

/// Position of the entry for `state` in a hook map.
fn entry_position(map: &Vec<HookEntry>, state: &str) -> (r: Option<usize>)
    ensures
        match r {
            Some(i) => i < map@.len() && map@[i as int].state@ == state@,
            None => forall|i: int| 0 <= i < map@.len() ==> map@[i].state@ != state@,
        },
{
    let mut i: usize = 0;
    while i < map.len()
        invariant
            i <= map@.len(),
            forall|j: int| 0 <= j < i ==> map@[j].state@ != state@,
        decreases map.len() - i,
    {
        if text_eq(map[i].state.as_str(), state) {
            return Some(i);
        }
        i += 1;
    }
    None
}

/// Collects the hooks by state: for each state that has one, the last
/// `on_enter` and the last `on_exit` hook declared for it.
pub fn build_hook_map(hooks: &Vec<LifecycleHook>) -> (map: Vec<HookEntry>)
    ensures
        is_hook_map(map@, hooks_model(hooks@)),
{
    let ghost hm = hooks_model(hooks@);
    let mut map: Vec<HookEntry> = Vec::new();
    let mut k: usize = 0;
    assert(hm.take(0) =~= Seq::<HookModel>::empty());
    while k < hooks.len()
        invariant
            k <= hooks@.len(),
            hm == hooks_model(hooks@),
            is_hook_map(map@, hm.take(k as int)),
        decreases hooks.len() - k,
    {
        let h = &hooks[k];
        let ghost before = map@;
        let ghost pre = hm.take(k as int);
        let ghost post = hm.take(k + 1);
        assert(post.drop_last() =~= pre);
        assert(post.last() == h@);
        let enter = match h.kind {
            HookKind::OnEnter => true,
            HookKind::OnExit => false,
        };
        match entry_position(&map, h.state.as_str()) {
            Some(i) => {
                let mut e = map.remove(i);
                if enter {
                    e.on_enter = Some(h.name.clone());
                } else {
                    e.on_exit = Some(h.name.clone());
                }
                map.insert(i, e);
                assert forall|j: int| 0 <= j < map@.len() implies {
                    &&& has_hook(post, #[trigger] map@[j].state@)
                    &&& map@[j].on_enter == hook_for(post, map@[j].state@, HookKind::OnEnter)
                    &&& map@[j].on_exit == hook_for(post, map@[j].state@, HookKind::OnExit)
                } by {
                    assert(map@[j].state@ == before[j].state@);
                    assert(has_hook(pre, before[j].state@));
                    let w = choose|w: int| 0 <= w < pre.len() && #[trigger] pre[w].state@ == before[j].state@;
                    assert(post[w] == pre[w]);
                }
                assert forall|q: int| 0 <= q < post.len() implies exists|j: int| 0 <= j < map@.len() && #[trigger] map@[j].state@ == #[trigger] post[q].state@ by {
                    if q < pre.len() {
                        assert(post[q] == pre[q]);
                        let j = choose|j: int| 0 <= j < before.len() && #[trigger] before[j].state@ == #[trigger] pre[q].state@;
                        assert(map@[j].state@ == before[j].state@);
                    } else {
                        assert(map@[i as int].state@ == post[q].state@);
                    }
                }
            },
            None => {
                let e = if enter {
                    HookEntry { state: h.state.clone(), on_enter: Some(h.name.clone()), on_exit: None }
                } else {
                    HookEntry { state: h.state.clone(), on_enter: None, on_exit: Some(h.name.clone()) }
                };
                proof {
                    lemma_no_hook_for(pre, h@.state@, HookKind::OnEnter);
                    lemma_no_hook_for(pre, h@.state@, HookKind::OnExit);
                }
                map.push(e);
                assert forall|j: int| 0 <= j < map@.len() implies {
                    &&& has_hook(post, #[trigger] map@[j].state@)
                    &&& map@[j].on_enter == hook_for(post, map@[j].state@, HookKind::OnEnter)
                    &&& map@[j].on_exit == hook_for(post, map@[j].state@, HookKind::OnExit)
                } by {
                    if j < before.len() {
                        assert(map@[j] == before[j]);
                        assert(has_hook(pre, before[j].state@));
                        let w = choose|w: int| 0 <= w < pre.len() && #[trigger] pre[w].state@ == before[j].state@;
                        assert(post[w] == pre[w]);
                    } else {
                        assert(post[k as int].state@ == h@.state@);
                    }
                }
                assert forall|q: int| 0 <= q < post.len() implies exists|j: int| 0 <= j < map@.len() && #[trigger] map@[j].state@ == #[trigger] post[q].state@ by {
                    if q < pre.len() {
                        assert(post[q] == pre[q]);
                        let j = choose|j: int| 0 <= j < before.len() && #[trigger] before[j].state@ == #[trigger] pre[q].state@;
                        assert(map@[j] == before[j]);
                    } else {
                        assert(map@[before.len() as int].state@ == post[q].state@);
                    }
                }
            },
        }
        k += 1;
    }
    assert(hm.take(k as int) =~= hm);
    map
}

/// A state that no hook is declared for has no hook of either kind.
proof fn lemma_no_hook_for(hooks: Seq<HookModel>, state: Seq<char>, kind: HookKind)
    requires
        forall|i: int| 0 <= i < hooks.len() ==> #[trigger] hooks[i].state@ != state,
    ensures
        hook_for(hooks, state, kind) is None,
    decreases hooks.len(),
{
    if hooks.len() > 0 {
        assert(hooks.last() == hooks[hooks.len() - 1]);
        lemma_no_hook_for(hooks.drop_last(), state, kind);
    }
}


/// Looks up the hooks of `state` in a hook map built from `hooks`.
pub fn lookup_hooks(map: &Vec<HookEntry>, hooks: &Vec<LifecycleHook>, state: &str) -> (r: (Option<String>, Option<String>))
    requires
        is_hook_map(map@, hooks_model(hooks@)),
    ensures
        r.0 == hook_for(hooks_model(hooks@), state@, HookKind::OnEnter),
        r.1 == hook_for(hooks_model(hooks@), state@, HookKind::OnExit),
{
    let ghost hm = hooks_model(hooks@);
    match entry_position(map, state) {
        Some(i) => (map[i].on_enter.clone(), map[i].on_exit.clone()),
        None => {
            proof {
                assert forall|k: int| 0 <= k < hm.len() implies #[trigger] hm[k].state@ != state@ by {
                    let j = choose|j: int| 0 <= j < map@.len() && #[trigger] map@[j].state@ == #[trigger] hm[k].state@;
                }
                lemma_no_hook_for(hm, state@, HookKind::OnEnter);
                lemma_no_hook_for(hm, state@, HookKind::OnExit);
            }
            (None, None)
        },
    }
}

/// The exit hooks a transition from `sources` runs: for each source in order
/// that has an `on_exit` hook, the source and that hook.
pub open spec fn exit_calls(hooks: Seq<HookModel>, sources: Seq<String>) -> Seq<(String, String)>
    decreases sources.len(),
{
    if sources.len() == 0 {
        Seq::empty()
    } else {
        let rest = exit_calls(hooks, sources.drop_last());
        match hook_for(hooks, sources.last()@, HookKind::OnExit) {
            Some(h) => rest.push((sources.last(), h)),
            None => rest,
        }
    }
}

/// The exit hooks a transition runs (see [`exit_calls`]).
pub fn exit_hook_calls(t: &Transition, map: &Vec<HookEntry>, hooks: &Vec<LifecycleHook>) -> (r: Vec<(String, String)>)
    requires
        is_hook_map(map@, hooks_model(hooks@)),
    ensures
        r@ == exit_calls(hooks_model(hooks@), t@.source_states),
{
    let ghost hm = hooks_model(hooks@);
    let ghost src = t.source_states@;
    let mut r: Vec<(String, String)> = Vec::new();
    let mut i: usize = 0;
    assert(src.take(0) =~= Seq::<String>::empty());
    while i < t.source_states.len()
        invariant
            i <= src.len(),
            src == t.source_states@,
            hm == hooks_model(hooks@),
            is_hook_map(map@, hm),
            r@ == exit_calls(hm, src.take(i as int)),
        decreases src.len() - i,
    {
        let source = &t.source_states[i];
        assert(src.take(i + 1).drop_last() =~= src.take(i as int));
        assert(src.take(i + 1).last() == *source);
        let (_, exit) = lookup_hooks(map, hooks, source.as_str());
        match exit {
            Some(h) => r.push((source.clone(), h)),
            None => {},
        }
        i += 1;
    }
    assert(src.take(i as int) =~= src);
    r
}

/// The entry hook a transition runs: the `on_enter` hook of its target.
pub fn enter_hook_call(t: &Transition, map: &Vec<HookEntry>, hooks: &Vec<LifecycleHook>) -> (r: Option<String>)
    requires
        is_hook_map(map@, hooks_model(hooks@)),
    ensures
        r == hook_for(hooks_model(hooks@), t@.target_state@, HookKind::OnEnter),
{
    let (enter, _) = lookup_hooks(map, hooks, t.target_state.as_str());
    enter
}

// ---------------------------------------------------------------------------
// States
// ---------------------------------------------------------------------------

/// Position of the state named `name`; when several states share it, the last.
pub open spec fn state_index(states: Seq<MachineStateModel>, name: Seq<char>) -> Option<int>
    decreases states.len(),
{
    if states.len() == 0 {
        None
    } else if states.last().name@ == name {
        Some(states.len() - 1)
    } else {
        state_index(states.drop_last(), name)
    }
}

pub proof fn lemma_state_index_bounds(states: Seq<MachineStateModel>, name: Seq<char>)
    ensures
        state_index(states, name) matches Some(i) ==> 0 <= i < states.len() && states[i].name@ == name,
    decreases states.len(),
{
    if states.len() > 0 && states.last().name@ != name {
        lemma_state_index_bounds(states.drop_last(), name);
    }
}

/// Finds the state named `name` (see [`state_index`]).
pub fn find_state(states: &Vec<State>, name: &str) -> (r: Option<usize>)
    ensures
        match state_index(machine_states_model(states@), name@) {
            Some(i) => r matches Some(k) && k == i,
            None => r is None,
        },
{
    let ghost sm = machine_states_model(states@);
    let mut i: usize = states.len();
    assert(sm.take(i as int) =~= sm);
    while i > 0
        invariant
            i <= states@.len(),
            sm == machine_states_model(states@),
            state_index(sm, name@) == state_index(sm.take(i as int), name@),
        decreases i,
    {
        assert(sm.take(i as int).last() == states@[i - 1]@);
        assert(sm.take(i as int).drop_last() =~= sm.take(i - 1));
        if text_eq(states[i - 1].name.as_str(), name) {
            return Some(i - 1);
        }
        i -= 1;
    }
    assert(sm.take(0) =~= Seq::<MachineStateModel>::empty());
    None
}

/// The state a machine starts in: the first state marked initial.
pub open spec fn initial_index(states: Seq<MachineStateModel>) -> Option<int> {
    if exists|i: int| 0 <= i < states.len() && states[i].is_initial {
        Some(choose|i: int| 0 <= i < states.len() && states[i].is_initial
            && forall|j: int| 0 <= j < i ==> !states[j].is_initial)
    } else {
        None
    }
}

/// Finds the initial state (see [`initial_index`]).
pub fn initial_state(states: &Vec<State>) -> (r: Option<usize>)
    ensures
        match r {
            Some(i) => i < states@.len() && states@[i as int].is_initial
                && forall|j: int| 0 <= j < i ==> !states@[j].is_initial,
            None => forall|j: int| 0 <= j < states@.len() ==> !states@[j].is_initial,
        },
{
    let mut i: usize = 0;
    while i < states.len()
        invariant
            i <= states@.len(),
            forall|j: int| 0 <= j < i ==> !states@[j].is_initial,
        decreases states.len() - i,
    {
        if states[i].is_initial {
            return Some(i);
        }
        i += 1;
    }
    None
}

/// What a transition handler binds before running the transition's body.
#[derive(Debug, Clone, Copy, PartialEq, Eq, Structural)]
pub enum Binding {
    /// The fields of the state at this position, each as a local variable.
    Fields(usize),
    /// Nothing: the one source state has no fields or is not declared.
    Nothing,
    /// The current state as a whole, as `state`: there is not one source.
    WholeState,
}

/// What the handler of a transition from `sources` binds.
pub open spec fn binding(states: Seq<MachineStateModel>, sources: Seq<String>) -> Binding {
    if sources.len() == 1 {
        match state_index(states, sources[0]@) {
            Some(i) => if states[i].fields.len() > 0 { Binding::Fields(i as usize) } else { Binding::Nothing },
            None => Binding::Nothing,
        }
    } else {
        Binding::WholeState
    }
}

/// Decides what a transition's handler binds (see [`binding`]).
pub fn binding_of(t: &Transition, states: &Vec<State>) -> (r: Binding)
    ensures
        r == binding(machine_states_model(states@), t@.source_states),
{
    proof { lemma_state_index_bounds(machine_states_model(states@), t.source_states@[0]@); }
    if t.source_states.len() == 1 {
        match find_state(states, t.source_states[0].as_str()) {
            Some(i) => if states[i].fields.len() > 0 {
                Binding::Fields(i)
            } else {
                Binding::Nothing
            },
            None => Binding::Nothing,
        }
    } else {
        Binding::WholeState
    }
}

/// The state whose fields a hook binds: the state it is declared for, when
/// that state has fields.
pub open spec fn hook_binding(states: Seq<MachineStateModel>, h: HookModel) -> Option<int> {
    match state_index(states, h.state@) {
        Some(i) => if states[i].fields.len() > 0 { Some(i) } else { None },
        None => None,
    }
}

/// Decides which state's fields a hook binds (see [`hook_binding`]).
pub fn hook_binding_of(h: &LifecycleHook, states: &Vec<State>) -> (r: Option<usize>)
    ensures
        match hook_binding(machine_states_model(states@), h@) {
            Some(i) => r matches Some(k) && k == i,
            None => r is None,
        },
{
    proof { lemma_state_index_bounds(machine_states_model(states@), h.state@); }
    match find_state(states, h.state.as_str()) {
        Some(i) => if states[i].fields.len() > 0 {
            Some(i)
        } else {
            None
        },
        None => None,
    }
}

// ---------------------------------------------------------------------------
// Errors
// ---------------------------------------------------------------------------

/// How a transition handler reports failure.
#[derive(Debug, Clone, Copy, PartialEq, Eq, Structural)]
pub enum HandlerMode {
    /// The body returns `Result<Target, E>`: a wrong source state or a failed
    /// guard is `None`, the body's error is `Some(e)`.
    UserError,
    /// A generated error type with `InvalidState` and `GuardFailed`.
    GuardedGenerated,
    /// A generated error type with `InvalidState` alone.
    Generated,
}

/// How the handler of a transition reports failure.
pub open spec fn handler_mode(t: MachineTransitionModel) -> HandlerMode {
    if t.error_type is Some {
        HandlerMode::UserError
    } else if t.guard is Some {
        HandlerMode::GuardedGenerated
    } else {
        HandlerMode::Generated
    }
}

/// Decides how a transition's handler reports failure (see [`handler_mode`]).
pub fn handler_mode_of(t: &Transition) -> (r: HandlerMode)
    ensures
        r == handler_mode(t@),
{
    if t.error_type.is_some() {
        HandlerMode::UserError
    } else if t.guard.is_some() {
        HandlerMode::GuardedGenerated
    } else {
        HandlerMode::Generated
    }
}

/// The error types generated for `transitions`, in order: for each transition
/// without an error type of its own, its error name, and whether it has a
/// guard (and so a `GuardFailed` variant).
pub open spec fn generated_errors(transitions: Seq<MachineTransitionModel>) -> Seq<(Seq<char>, bool)>
    decreases transitions.len(),
{
    if transitions.len() == 0 {
        Seq::empty()
    } else {
        let rest = generated_errors(transitions.drop_last());
        let t = transitions.last();
        if t.error_type is None {
            rest.push((pascal_case(t.name@, true) + "Error"@, t.guard is Some))
        } else {
            rest
        }
    }
}

/// The models of a list of generated errors.
pub open spec fn errors_model(v: Seq<(String, bool)>) -> Seq<(Seq<char>, bool)> {
    v.map_values(|e: (String, bool)| (e.0@, e.1))
}

/// Lists the error types to generate (see [`generated_errors`]).
pub fn error_types(transitions: &Vec<Transition>) -> (r: Vec<(String, bool)>)
    ensures
        errors_model(r@) == generated_errors(machine_transitions_model(transitions@)),
{
    let ghost tm = machine_transitions_model(transitions@);
    let mut r: Vec<(String, bool)> = Vec::new();
    let mut i: usize = 0;
    assert(tm.take(0) =~= Seq::<MachineTransitionModel>::empty());
    assert(errors_model(r@) =~= Seq::<(Seq<char>, bool)>::empty());
    while i < transitions.len()
        invariant
            i <= transitions@.len(),
            tm == machine_transitions_model(transitions@),
            errors_model(r@) == generated_errors(tm.take(i as int)),
        decreases transitions.len() - i,
    {
        let t = &transitions[i];
        assert(tm.take(i + 1).drop_last() =~= tm.take(i as int));
        assert(tm.take(i + 1).last() == t@);
        if t.error_type.is_none() {
            let ghost prev = r@;
            let name = error_name(t.name.as_str());
            r.push((name, t.guard.is_some()));
            assert(errors_model(r@) =~= errors_model(prev).push((pascal_case(t@.name@, true) + "Error"@, t@.guard is Some)));
        }
        i += 1;
    }
    assert(tm.take(i as int) =~= tm);
    r
}

} // verus!
