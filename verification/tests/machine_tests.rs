//! The `state_machine!` grammar and the decisions behind the code it emits.

use proc_macro2::{Delimiter, Spacing, TokenStream, TokenTree};
use ssm::machine_codegen::{
    binding_of, build_hook_map, context_name, enter_hook_call, error_name, error_types,
    exit_hook_calls, find_state, handler_mode_of, handler_name, hook_binding_of, initial_state,
    inner_name, lookup_hooks, snapshot_name, state_data_name, Binding, HandlerMode,
};
use ssm::machine_parse::{HookKind, StateMachine};
use ssm::tokens::{Delim, ParseError, Tok};

fn convert(ts: TokenStream) -> Vec<Tok> {
    ts.into_iter()
        .map(|tt| match tt {
            TokenTree::Ident(i) => Tok::Ident(i.to_string()),
            TokenTree::Punct(p) => Tok::Punct(p.as_char(), p.spacing() == Spacing::Joint),
            TokenTree::Literal(l) => Tok::Literal(l.to_string()),
            TokenTree::Group(g) => {
                let d = match g.delimiter() {
                    Delimiter::Parenthesis => Delim::Paren,
                    Delimiter::Brace => Delim::Brace,
                    Delimiter::Bracket => Delim::Bracket,
                    Delimiter::None => Delim::Invisible,
                };
                Tok::Group(d, convert(g.stream()))
            }
        })
        .collect()
}

fn toks(src: &str) -> Vec<Tok> {
    convert(src.parse::<TokenStream>().unwrap())
}

fn text(ts: &[Tok]) -> String {
    ts.iter()
        .map(|t| match t {
            Tok::Ident(s) | Tok::Literal(s) => s.clone(),
            Tok::Punct(c, _) => c.to_string(),
            Tok::Group(d, inner) => {
                let (o, c) = match d {
                    Delim::Paren => ("(", ")"),
                    Delim::Brace => ("{", "}"),
                    Delim::Bracket => ("[", "]"),
                    Delim::Invisible => ("", ""),
                };
                format!("{}{}{}", o, text(inner), c)
            }
        })
        .collect::<Vec<_>>()
        .join(" ")
}

fn parse(src: &str) -> Result<StateMachine, ParseError> {
    StateMachine::parse(toks(src))
}

const COUNTER: &str = "
    pub enum Counter {
        #[initial]
        Idle { count: u64 },
        Running { count: u64, started_at: u64 },
    }

    impl Counter {
        fn start(self: Idle) -> Running {
            CounterStateData::Running { count, started_at: 0 }
        }

        fn increment(self: Running) -> Running {
            CounterStateData::Running { count: count + 1, started_at }
        }

        fn stop(self: Running) -> Idle {
            CounterStateData::Idle { count }
        }
    }";

const DOOR: &str = "
    pub(crate) enum Door {
        Open,
        #[initial]
        Closed,
        Locked { code: u32 },
    }

    type Context = DoorLog;

    impl Door {
        #[on_exit(Closed)]
        fn leaving_closed(&self) { ctx.exits += 1; }

        #[on_enter(Open)]
        fn opened(&mut self) -> () { ctx.opens += 1; }

        #[on_enter(Open)]
        fn opened_again(&self) { ctx.opens += 2; }

        #[on_exit(Locked)]
        fn unlocking(&self) {}

        fn open(self: (Closed, Locked)) -> Open { Open }

        #[guard(code == secret)]
        fn unlock(self: Locked, secret: u32,) -> Closed { Closed }

        fn lock(self: Closed, code: u32) -> Result<Locked, LockError> { Ok(Locked(code)) }
    }";

#[test]
fn counter_definition_parses() {
    let sm = parse(COUNTER).unwrap();
    assert_eq!(sm.name, "Counter");
    assert_eq!(text(&sm.vis), "pub");
    assert_eq!(sm.states.len(), 2);
    assert_eq!(sm.states[0].name, "Idle");
    assert!(sm.states[0].is_initial);
    assert_eq!(sm.states[0].fields.len(), 1);
    assert_eq!(sm.states[0].fields[0].name, "count");
    assert_eq!(text(&sm.states[0].fields[0].ty), "u64");
    assert_eq!(sm.states[1].name, "Running");
    assert!(!sm.states[1].is_initial);
    assert_eq!(sm.states[1].fields.len(), 2);
    assert_eq!(sm.transitions.len(), 3);
    assert_eq!(sm.transitions[0].name, "start");
    assert_eq!(sm.transitions[0].source_states, vec!["Idle".to_string()]);
    assert_eq!(sm.transitions[0].target_state, "Running");
    assert!(sm.transitions[0].error_type.is_none());
    assert!(sm.transitions[0].guard.is_none());
    assert!(sm.transitions[0].args.is_empty());
    assert_eq!(text(&sm.transitions[2].body), "CounterStateData : : Idle {count}");
    assert!(sm.hooks.is_empty());
    assert!(sm.context.is_none());
}

#[test]
fn hooks_guards_tuples_and_results_parse() {
    let sm = parse(DOOR).unwrap();
    assert_eq!(text(&sm.vis), "pub (crate)");
    assert_eq!(sm.states[1].name, "Closed");
    assert!(sm.states[1].is_initial);
    assert_eq!(text(&sm.context.as_ref().unwrap().ty), "DoorLog");
    assert_eq!(sm.hooks.len(), 4);
    assert_eq!(sm.hooks[0].kind, HookKind::OnExit);
    assert_eq!(sm.hooks[0].state, "Closed");
    assert_eq!(sm.hooks[0].name, "leaving_closed");
    assert_eq!(sm.hooks[1].kind, HookKind::OnEnter);
    assert_eq!(sm.hooks[1].name, "opened");
    assert_eq!(sm.transitions.len(), 3);
    let open = &sm.transitions[0];
    assert_eq!(open.source_states, vec!["Closed".to_string(), "Locked".to_string()]);
    let unlock = &sm.transitions[1];
    assert_eq!(text(unlock.guard.as_ref().unwrap()), "code = = secret");
    assert_eq!(unlock.args.len(), 1);
    assert_eq!(unlock.args[0].0, "secret");
    assert_eq!(text(&unlock.args[0].1), "u32");
    let lock = &sm.transitions[2];
    assert_eq!(lock.target_state, "Locked");
    assert_eq!(text(lock.error_type.as_ref().unwrap()), "LockError");
}

#[test]
fn nested_and_parenthesized_sources_flatten() {
    let sm = parse(
        "enum M { #[initial] A, B, C }
         impl M { fn go(self: ((A), (B, C))) -> (C) { C } }",
    )
    .unwrap();
    assert_eq!(
        sm.transitions[0].source_states,
        vec!["A".to_string(), "B".to_string(), "C".to_string()]
    );
    assert_eq!(sm.transitions[0].target_state, "C");
    assert!(sm.vis.is_empty());
}

#[test]
fn alternative_sources_read_like_a_tuple() {
    let alt = parse(
        "enum M { #[initial] InFlight, InDoubt, Acked }
         impl M { fn t(self: InFlight | InDoubt) -> Acked { Acked } }",
    )
    .unwrap();
    let tuple = parse(
        "enum M { #[initial] InFlight, InDoubt, Acked }
         impl M { fn t(self: (InFlight, InDoubt)) -> Acked { Acked } }",
    )
    .unwrap();
    assert_eq!(
        alt.transitions[0].source_states,
        vec!["InFlight".to_string(), "InDoubt".to_string()]
    );
    assert_eq!(alt.transitions[0].source_states, tuple.transitions[0].source_states);
    assert_eq!(alt.transitions[0].target_state, "Acked");
}

#[test]
fn alternative_sources_need_state_names() {
    assert!(parse(
        "enum M { #[initial] A, B }
         impl M { fn t(self: A |) -> B { B } }",
    )
    .is_err());
}

#[test]
fn qualified_result_names_the_target() {
    let sm = parse(
        "enum M { #[initial] A, B }
         impl M { fn go(self: A) -> std::result::Result<B, Vec<u8>> { Ok(B) } }",
    )
    .unwrap();
    assert_eq!(sm.transitions[0].target_state, "B");
    assert_eq!(text(sm.transitions[0].error_type.as_ref().unwrap()), "Vec < u8 >");
}

#[test]
fn states_from_two_enums_accumulate() {
    let sm = parse("enum A { #[initial] X } enum B { Y }").unwrap();
    assert_eq!(sm.name, "B");
    assert_eq!(sm.states.len(), 2);
}

#[test]
fn initial_state_must_be_unique() {
    assert_eq!(parse("enum M { A, B }").unwrap_err(), ParseError::NoInitialState);
    assert_eq!(
        parse("enum M { #[initial] A, #[initial] B }").unwrap_err(),
        ParseError::SeveralInitialStates
    );
}

#[test]
fn definition_errors() {
    assert_eq!(parse("").unwrap_err(), ParseError::MissingEnum);
    assert_eq!(parse("impl M {}").unwrap_err(), ParseError::MissingEnum);
    assert_eq!(parse("struct M {}").unwrap_err(), ParseError::ExpectedItem);
    assert_eq!(parse("pub struct M {}").unwrap_err(), ParseError::ExpectedEnum);
    assert_eq!(parse("type Ctx = u8;").unwrap_err(), ParseError::ExpectedContext);
    assert_eq!(parse("type Context = u8").unwrap_err(), ParseError::ExpectedPunct(';'));
    assert_eq!(
        parse("enum M { #[initial] A } impl M { const X: u8 = 1; }").unwrap_err(),
        ParseError::ExpectedFn
    );
    assert_eq!(
        parse("enum M { #[initial] A } impl M { fn go(x: A) -> A { A } }").unwrap_err(),
        ParseError::ExpectedSelf
    );
    assert_eq!(
        parse("enum M { #[initial] A } impl M { fn go(self: A) { A } }").unwrap_err(),
        ParseError::ExpectedArrow
    );
    assert_eq!(
        parse("enum M { #[initial] A } impl M { fn go(self: a::A) -> A { A } }").unwrap_err(),
        ParseError::ExpectedStateName
    );
    assert_eq!(
        parse("enum M { #[initial] A } impl M { fn go(self: &A) -> A { A } }").unwrap_err(),
        ParseError::ExpectedStateNameOrTuple
    );
    assert_eq!(
        parse("enum M { #[initial] A } impl M { fn go(self: A) -> Result<A> { A } }").unwrap_err(),
        ParseError::ResultNeedsErrorType
    );
    assert_eq!(
        parse("enum M { #[initial] A } impl M { fn go(self: A) -> Result<> { A } }").unwrap_err(),
        ParseError::ResultNeedsTypeArguments
    );
    assert_eq!(
        parse("enum M { #[initial] A } impl M { #[on_enter(A)] fn h(self) {} }").unwrap_err(),
        ParseError::ExpectedSelfReference
    );
    assert_eq!(
        parse("enum M { #[initial] A } impl M { #[on_enter] fn h(&self) {} }").unwrap_err(),
        ParseError::ExpectedAttributeArguments
    );
    assert_eq!(
        parse("enum M { #[initial] A } impl M { #[guard()] fn go(self: A) -> A { A } }").unwrap_err(),
        ParseError::ExpectedExpression
    );
    assert_eq!(parse("enum M { #[initial] A B }").unwrap_err(), ParseError::ExpectedPunct(','));
    assert_eq!(parse("# enum M { #[initial] A }").unwrap_err(), ParseError::ExpectedGroup(Delim::Bracket));
}

#[test]
fn derived_names() {
    assert_eq!(state_data_name("Counter"), "CounterStateData");
    assert_eq!(snapshot_name("Counter"), "CounterSnapshot");
    assert_eq!(context_name("Counter"), "CounterContext");
    assert_eq!(inner_name("Counter"), "__CounterInner");
    assert_eq!(handler_name("start"), "handle_start");
    assert_eq!(error_name("mark_in_doubt"), "MarkInDoubtError");
}

#[test]
fn hook_map_keeps_the_last_hook_of_each_kind() {
    let sm = parse(DOOR).unwrap();
    let map = build_hook_map(&sm.hooks);
    assert_eq!(map.len(), 3);
    let (enter, exit) = lookup_hooks(&map, &sm.hooks, "Open");
    assert_eq!(enter.as_deref(), Some("opened_again"));
    assert_eq!(exit, None);
    let (enter, exit) = lookup_hooks(&map, &sm.hooks, "Closed");
    assert_eq!(enter, None);
    assert_eq!(exit.as_deref(), Some("leaving_closed"));
    assert_eq!(lookup_hooks(&map, &sm.hooks, "Nowhere"), (None, None));
}

#[test]
fn transitions_run_the_hooks_of_their_states() {
    let sm = parse(DOOR).unwrap();
    let map = build_hook_map(&sm.hooks);
    let open = &sm.transitions[0];
    assert_eq!(
        exit_hook_calls(open, &map, &sm.hooks),
        vec![
            ("Closed".to_string(), "leaving_closed".to_string()),
            ("Locked".to_string(), "unlocking".to_string()),
        ]
    );
    assert_eq!(enter_hook_call(open, &map, &sm.hooks).as_deref(), Some("opened_again"));
    let unlock = &sm.transitions[1];
    assert_eq!(
        exit_hook_calls(unlock, &map, &sm.hooks),
        vec![("Locked".to_string(), "unlocking".to_string())]
    );
    assert_eq!(enter_hook_call(unlock, &map, &sm.hooks), None);
}

#[test]
fn handlers_bind_what_their_sources_hold() {
    let sm = parse(DOOR).unwrap();
    assert_eq!(binding_of(&sm.transitions[0], &sm.states), Binding::WholeState);
    assert_eq!(binding_of(&sm.transitions[1], &sm.states), Binding::Fields(2));
    assert_eq!(binding_of(&sm.transitions[2], &sm.states), Binding::Nothing);
    assert_eq!(hook_binding_of(&sm.hooks[3], &sm.states), Some(2));
    assert_eq!(hook_binding_of(&sm.hooks[0], &sm.states), None);
    assert_eq!(find_state(&sm.states, "Locked"), Some(2));
    assert_eq!(find_state(&sm.states, "Ajar"), None);
    assert_eq!(initial_state(&sm.states), Some(1));
}

#[test]
fn handlers_report_failure_by_mode() {
    let sm = parse(DOOR).unwrap();
    assert_eq!(handler_mode_of(&sm.transitions[0]), HandlerMode::Generated);
    assert_eq!(handler_mode_of(&sm.transitions[1]), HandlerMode::GuardedGenerated);
    assert_eq!(handler_mode_of(&sm.transitions[2]), HandlerMode::UserError);
    assert_eq!(
        error_types(&sm.transitions),
        vec![("OpenError".to_string(), false), ("UnlockError".to_string(), true)]
    );
}

const HOOK_MACHINE: &str = "
    pub enum HookMachine {
        #[initial]
        Idle,
        Active { value: u32 },
        Done,
    }

    type Context = HookContext;

    impl HookMachine {
        fn activate(self: Idle, value: u32) -> Active {
            HookMachineStateData::Active { value }
        }

        fn update(self: Active, new_value: u32) -> Active {
            HookMachineStateData::Active { value: new_value }
        }

        fn complete(self: Active) -> Done {
            HookMachineStateData::Done
        }

        fn reset(self: Done) -> Idle {
            HookMachineStateData::Idle
        }

        #[on_enter(Active)]
        fn entering_active(&mut self) {
            ctx.enter_count += 1;
            ctx.log.push(format!(\"entered Active with value={}\", value));
        }

        #[on_exit(Active)]
        fn exiting_active(&mut self) {
            ctx.exit_count += 1;
            ctx.log.push(format!(\"exited Active with value={}\", value));
        }
    }";

#[test]
fn hook_machine_transitions_run_the_hooks_of_active() {
    let sm = parse(HOOK_MACHINE).unwrap();
    assert_eq!(sm.hooks.len(), 2);
    let map = build_hook_map(&sm.hooks);
    let names: Vec<&str> = sm.transitions.iter().map(|t| t.name.as_str()).collect();
    assert_eq!(names, vec!["activate", "update", "complete", "reset"]);

    let activate = &sm.transitions[0];
    assert!(exit_hook_calls(activate, &map, &sm.hooks).is_empty());
    assert_eq!(enter_hook_call(activate, &map, &sm.hooks).as_deref(), Some("entering_active"));
    assert_eq!(binding_of(activate, &sm.states), Binding::Nothing);

    let update = &sm.transitions[1];
    assert_eq!(
        exit_hook_calls(update, &map, &sm.hooks),
        vec![("Active".to_string(), "exiting_active".to_string())]
    );
    assert_eq!(enter_hook_call(update, &map, &sm.hooks).as_deref(), Some("entering_active"));
    assert_eq!(binding_of(update, &sm.states), Binding::Fields(1));

    let complete = &sm.transitions[2];
    assert_eq!(exit_hook_calls(complete, &map, &sm.hooks).len(), 1);
    assert_eq!(enter_hook_call(complete, &map, &sm.hooks), None);

    let reset = &sm.transitions[3];
    assert!(exit_hook_calls(reset, &map, &sm.hooks).is_empty());
    assert_eq!(enter_hook_call(reset, &map, &sm.hooks), None);

    assert_eq!(hook_binding_of(&sm.hooks[0], &sm.states), Some(1));
    assert_eq!(initial_state(&sm.states), Some(0));
    assert_eq!(
        error_types(&sm.transitions),
        vec![
            ("ActivateError".to_string(), false),
            ("UpdateError".to_string(), false),
            ("CompleteError".to_string(), false),
            ("ResetError".to_string(), false),
        ]
    );
}
