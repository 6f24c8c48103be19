//! The items the `state_machine!` front end generates, compared token for
//! token with the code they stand for.

use proc_macro2::{Delimiter, Spacing, TokenStream, TokenTree};
use ssm::machine_codegen::build_hook_map;
use ssm::machine_emit::{handler_items, machine_items};
use ssm::machine_parse::StateMachine;
use ssm::tokens::{Delim, Tok};

fn convert(ts: TokenStream) -> Vec<Tok> {
    ts.into_iter()
        .map(|tt| match tt {
            TokenTree::Ident(i) => Tok::Ident(i.to_string()),
            TokenTree::Punct(p) => Tok::Punct(p.as_char(), p.spacing() == Spacing::Joint),
            TokenTree::Literal(l) => Tok::Literal(l.to_string()),
            TokenTree::Group(g) => {
                let d = match g.delimiter() {
                    Delimiter::Parenthesis => Delim::Paren,
                    Delimiter::Brace => Delim::Brace,
                    Delimiter::Bracket => Delim::Bracket,
                    Delimiter::None => Delim::Invisible,
                };
                Tok::Group(d, convert(g.stream()))
            }
        })
        .collect()
}

fn toks(src: &str) -> Vec<Tok> {
    convert(src.parse::<TokenStream>().unwrap())
}

fn text(ts: &[Tok]) -> String {
    ts.iter()
        .map(|t| match t {
            Tok::Ident(s) | Tok::Literal(s) => s.clone(),
            Tok::Punct(c, _) => c.to_string(),
            Tok::Group(d, inner) => {
                let (o, c) = match d {
                    Delim::Paren => ("(", ")"),
                    Delim::Brace => ("{", "}"),
                    Delim::Bracket => ("[", "]"),
                    Delim::Invisible => ("", ""),
                };
                format!("{}{}{}", o, text(inner), c)
            }
        })
        .collect::<Vec<_>>()
        .join(" ")
}

fn same(generated: &[Tok], expected: &str) {
    assert_eq!(text(generated), text(&toks(expected)));
}

const DOOR: &str = "
    pub(crate) enum Door {
        Open,
        #[initial]
        Closed,
        Locked { code: u32 },
    }

    type Context = DoorLog;

    impl Door {
        #[on_exit(Closed)]
        fn leaving_closed(&self) { ctx.exits += 1; }

        #[on_enter(Open)]
        fn opened(&mut self) -> () { ctx.opens += 1; }

        #[on_enter(Open)]
        fn opened_again(&self) { ctx.opens += 2; }

        #[on_exit(Locked)]
        fn unlocking(&self) {}

        fn open(self: (Closed, Locked)) -> Open { Open }

        #[guard(code == secret)]
        fn unlock(self: Locked, secret: u32,) -> Closed { Closed }

        fn lock(self: Closed, code: u32) -> Result<Locked, LockError> { Ok(Locked(code)) }
    }";

const COUNTER: &str = "
    pub enum Counter {
        #[initial]
        Idle { count: u64 },
        Running { count: u64, started_at: u64 },
    }

    impl Counter {
        fn start(self: Idle) -> Running {
            CounterStateData::Running { count, started_at: 0 }
        }
    }";

const DOOR_CTORS: &str = "
    #[allow(non_upper_case_globals)]
    const Open: DoorStateData = DoorStateData::Open;
    #[allow(non_upper_case_globals)]
    const Closed: DoorStateData = DoorStateData::Closed;
    #[allow(non_snake_case)]
    fn Locked(code: u32) -> DoorStateData {
        DoorStateData::Locked { code }
    }";

fn metrics(transition: &str) -> String {
    format!(
        "#[cfg_attr(
            feature = \"ssm-metrics\",
            metrics_helper_macros::instrument(
                counter = \"ssm_transitions_total\",
                histogram = \"ssm_transition_duration_seconds\",
                error_counter = \"ssm_transition_errors_total\",
                labels(state_machine = \"Door\", transition = \"{}\"),
            )
        )]",
        transition
    )
}

#[test]
fn guarded_handler_checks_source_then_guard_then_runs_hooks() {
    let sm = StateMachine::parse(toks(DOOR)).unwrap();
    let map = build_hook_map(&sm.hooks);
    let expected = format!(
        "{}
        fn handle_unlock(&mut self, secret: u32) -> Result<(), UnlockError> {{
            if !matches!(self.state, DoorStateData::Locked {{ .. }}) {{
                return Err(UnlockError::InvalidState);
            }}
            #[allow(unused_variables)]
            let (code,): (u32,) = match &self.state {{
                DoorStateData::Locked {{ code, }} => (code.clone(),),
                _ => unreachable!(),
            }};
            #[allow(unused_variables)]
            let ctx = &mut self.ctx;
            if !(code == secret) {{
                return Err(UnlockError::GuardFailed);
            }}
            {}
            match &self.state {{
                DoorStateData::Locked {{ .. }} => self.unlocking(),
                _ => {{}}
            }}
            self.state = {{ Closed }};
            Ok(())
        }}",
        metrics("unlock"),
        DOOR_CTORS
    );
    same(&handler_items(&sm, &sm.transitions[1], &map), &expected);
}

#[test]
fn user_error_handler_runs_hooks_only_on_ok() {
    let sm = StateMachine::parse(toks(DOOR)).unwrap();
    let map = build_hook_map(&sm.hooks);
    let expected = format!(
        "{}
        fn handle_lock(&mut self, code: u32) -> Result<(), Option<LockError>> {{
            if !matches!(self.state, DoorStateData::Closed {{ .. }}) {{
                return Err(None);
            }}
            #[allow(unused_variables)]
            let ctx = &mut self.ctx;
            {}
            match {{ Ok(Locked(code)) }} {{
                Ok(new_state) => {{
                    match &self.state {{
                        DoorStateData::Closed {{ .. }} => self.leaving_closed(),
                        _ => {{}}
                    }}
                    self.state = new_state;
                    Ok(())
                }}
                Err(e) => Err(Some(e)),
            }}
        }}",
        metrics("lock"),
        DOOR_CTORS
    );
    same(&handler_items(&sm, &sm.transitions[2], &map), &expected);
}

#[test]
fn handler_of_several_sources_binds_the_whole_state() {
    let sm = StateMachine::parse(toks(DOOR)).unwrap();
    let map = build_hook_map(&sm.hooks);
    let expected = format!(
        "{}
        fn handle_open(&mut self,) -> Result<(), OpenError> {{
            if !matches!(self.state, DoorStateData::Closed {{ .. }} | DoorStateData::Locked {{ .. }}) {{
                return Err(OpenError::InvalidState);
            }}
            #[allow(unused_variables)]
            let state = &self.state;
            #[allow(unused_variables)]
            let ctx = &mut self.ctx;
            {}
            match &self.state {{
                DoorStateData::Closed {{ .. }} => self.leaving_closed(),
                DoorStateData::Locked {{ .. }} => self.unlocking(),
                _ => {{}}
            }}
            self.state = {{ Open }};
            self.opened_again();
            Ok(())
        }}",
        metrics("open"),
        DOOR_CTORS
    );
    same(&handler_items(&sm, &sm.transitions[0], &map), &expected);
}

#[test]
fn machine_items_declare_types_errors_and_handle() {
    let sm = StateMachine::parse(toks(DOOR)).unwrap();
    let all = text(&machine_items(&sm));
    let head = text(&toks(
        "#[derive(Debug, Clone, PartialEq, serde::Serialize, serde::Deserialize)]
        pub(crate) enum DoorStateData { Open, Closed, Locked { code: u32 } }
        #[derive(Debug, Clone, serde::Serialize, serde::Deserialize)]
        pub(crate) struct DoorSnapshot { pub state: DoorStateData, pub context: DoorLog, }
        #[derive(Debug, Clone, PartialEq)]
        pub enum OpenError { InvalidState, }",
    ));
    assert!(all.starts_with(&head), "{}", all);
    assert!(all.contains(&text(&toks("pub enum UnlockError { InvalidState, GuardFailed, }"))));
    assert!(!all.contains("enum LockError"));
    assert!(!all.contains("DoorContext"));
    let method = text(&toks(
        "pub fn lock(&self, code: u32) -> Result<(), ssm::TransitionError<LockError>> {
            let mut guard = self.inner.write().unwrap();
            match guard.handle_lock(code) {
                Ok(()) => Ok(()),
                Err(None) => Err(ssm::TransitionError::InvalidState),
                Err(Some(e)) => Err(ssm::TransitionError::User(e)),
            }
        }",
    ));
    assert!(all.contains(&method), "{}", all);
    let start = text(&toks(
        "pub fn with_context(ctx: DoorLog) -> Self {
            Self {
                inner: std::sync::Arc::new(std::sync::RwLock::new(__DoorInner {
                    state: DoorStateData::Closed,
                    ctx,
                })),
            }
        }",
    ));
    assert!(all.contains(&start), "{}", all);
    let async_method = text(&toks(
        "pub async fn unlock(&self, secret: u32) -> Result<(), UnlockError> {
            let mut guard = self.inner.write().await;
            guard.handle_unlock(secret)
        }",
    ));
    assert!(all.contains(&async_method), "{}", all);
}

#[test]
fn machine_items_generate_a_context_and_default_the_initial_fields() {
    let sm = StateMachine::parse(toks(COUNTER)).unwrap();
    let all = text(&machine_items(&sm));
    let ctx = text(&toks(
        "#[derive(Debug, Default, Clone, serde::Serialize, serde::Deserialize)]
        pub struct CounterContext;",
    ));
    assert!(all.contains(&ctx), "{}", all);
    let start = text(&toks(
        "state: CounterStateData::Idle { count: Default::default() },",
    ));
    assert!(all.contains(&start), "{}", all);
    let hookless = text(&toks(
        "self.state = { CounterStateData::Running { count, started_at: 0 } };
        Ok(())",
    ));
    assert!(all.contains(&hookless), "{}", all);
}
