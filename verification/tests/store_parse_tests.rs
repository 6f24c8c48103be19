//! The `store!` grammar and the code-shape decisions taken from a definition.

use proc_macro2::{Delimiter, Spacing, TokenStream, TokenTree};
use ssm::store_codegen::{
    handle_targets, rewrite_self_to_item, target_build_of, transitions_leaving, TargetBuild,
};
use ssm::store_parse::{CollectionKind, TypedStore};
use ssm::tokens::{Delim, ParseError, Tok};

fn convert(ts: TokenStream) -> Vec<Tok> {
    ts.into_iter()
        .map(|tt| match tt {
            TokenTree::Ident(i) => Tok::Ident(i.to_string()),
            TokenTree::Punct(p) => Tok::Punct(p.as_char(), p.spacing() == Spacing::Joint),
            TokenTree::Literal(l) => Tok::Literal(l.to_string()),
            TokenTree::Group(g) => {
                let d = match g.delimiter() {
                    Delimiter::Parenthesis => Delim::Paren,
                    Delimiter::Brace => Delim::Brace,
                    Delimiter::Bracket => Delim::Bracket,
                    Delimiter::None => Delim::Invisible,
                };
                Tok::Group(d, convert(g.stream()))
            }
        })
        .collect()
}

fn toks(src: &str) -> Vec<Tok> {
    convert(src.parse::<TokenStream>().unwrap())
}

fn text(ts: &[Tok]) -> String {
    ts.iter()
        .map(|t| match t {
            Tok::Ident(s) | Tok::Literal(s) => s.clone(),
            Tok::Punct(c, _) => c.to_string(),
            Tok::Group(d, inner) => {
                let (o, c) = match d {
                    Delim::Paren => ("(", ")"),
                    Delim::Brace => ("{", "}"),
                    Delim::Bracket => ("[", "]"),
                    Delim::Invisible => ("", ""),
                };
                format!("{}{}{}", o, text(inner), c)
            }
        })
        .collect::<Vec<_>>()
        .join(" ")
}

const MESSAGE_STORE: &str = "
    pub MessageStore {
        messages: Map<u64> {
            states {
                Pending,
                InFlight { leader: u64, term: u64 },
                InDoubt { prev_leader: u64, prev_term: u64 },
                Acked,
            }

            transitions {
                mark_in_flight(leader: u64, term: u64): Pending -> InFlight {
                    leader: leader,
                    term: term,
                }

                mark_in_doubt(new_leader: u64, new_term: u64): InFlight -> InDoubt
                    where new_leader != self.leader || new_term != self.term
                {
                    prev_leader: self.leader,
                    prev_term: self.term,
                }

                ack(): InFlight -> Acked;
                nack(): InFlight -> Pending;
            }
        }
    }";

const TASK_STORE: &str = "
    pub TaskStore {
        tasks: Queue {
            key id: u64,

            states {
                Pending,
                Running { worker: u64 },
                Complete { result: i32 },
            }

            transitions {
                start(worker: u64): Pending -> Running {
                    worker: worker,
                }

                complete(result: i32): Running -> Complete {
                    result: result,
                }

                fail(): Running -> Pending;
            }
        }
    }";

#[test]
fn test_parse_map_store() {
    let store = TypedStore::parse(toks(MESSAGE_STORE)).unwrap();
    assert_eq!(text(&store.vis), "pub");
    assert_eq!(store.name, "MessageStore");
    assert_eq!(store.collections.len(), 1);
    let c = &store.collections[0];
    assert_eq!(c.name, "messages");
    match &c.kind {
        CollectionKind::KeyedMap(t) => assert_eq!(text(t), "u64"),
        _ => panic!("expected a map"),
    }
    let names: Vec<&str> = c.states.iter().map(|s| s.name.as_str()).collect();
    assert_eq!(names, vec!["Pending", "InFlight", "InDoubt", "Acked"]);
    assert_eq!(c.states[1].fields.len(), 2);
    assert_eq!(c.states[1].fields[1].name, "term");
    assert_eq!(text(&c.states[1].fields[1].ty), "u64");
    assert_eq!(c.transitions.len(), 4);
    let doubt = &c.transitions[1];
    assert_eq!(doubt.name, "mark_in_doubt");
    assert_eq!(doubt.params.len(), 2);
    assert_eq!(doubt.sources, vec!["InFlight".to_string()]);
    assert_eq!(doubt.target, "InDoubt");
    assert_eq!(
        text(doubt.guard.as_ref().unwrap()),
        "new_leader ! = self . leader | | new_term ! = self . term"
    );
    assert_eq!(doubt.field_assignments.len(), 2);
    assert_eq!(doubt.field_assignments[0].field, "prev_leader");
    assert_eq!(text(&doubt.field_assignments[0].value), "self . leader");
    let ack = &c.transitions[2];
    assert!(ack.guard.is_none());
    assert!(ack.field_assignments.is_empty());
}

#[test]
fn test_parse_queue_store() {
    let store = TypedStore::parse(toks(TASK_STORE)).unwrap();
    let c = &store.collections[0];
    match &c.kind {
        CollectionKind::Queue { key_name, key_type } => {
            assert_eq!(key_name, "id");
            assert_eq!(text(key_type), "u64");
        }
        _ => panic!("expected a queue"),
    }
    assert_eq!(c.states.len(), 3);
    assert_eq!(c.transitions[2].name, "fail");
    assert_eq!(c.transitions[2].sources, vec!["Running".to_string()]);
}

#[test]
fn test_parse_types_and_sources() {
    let src = "S { c: Map<std::collections::HashMap<u8, Vec<u8>>> {
        states { A { r: &'static mut [u8], t: (u8, u16), f: Box<dyn_like::Fn<u8>> }, B }
        transitions { go(x: ::core::option::Option<u8>): (A, B) -> B; }
    } }";
    let store = TypedStore::parse(toks(src)).unwrap();
    assert!(store.vis.is_empty());
    let c = &store.collections[0];
    match &c.kind {
        CollectionKind::KeyedMap(t) => {
            assert_eq!(text(t), "std : : collections : : HashMap < u8 , Vec < u8 > >")
        }
        _ => panic!("expected a map"),
    }
    assert_eq!(text(&c.states[0].fields[0].ty), "& ' static mut [u8]");
    assert_eq!(text(&c.states[0].fields[1].ty), "(u8 , u16)");
    assert_eq!(c.transitions[0].sources, vec!["A".to_string(), "B".to_string()]);
    assert_eq!(text(&c.transitions[0].params[0].ty), ": : core : : option : : Option < u8 >");
}

#[test]
fn test_parse_restricted_visibility() {
    let store = TypedStore::parse(toks("pub(crate) S { }")).unwrap();
    assert_eq!(text(&store.vis), "pub (crate)");
    assert!(store.collections.is_empty());
}

#[test]
fn test_parse_errors() {
    assert_eq!(
        TypedStore::parse(toks("S { c: Set { } }")).unwrap_err(),
        ParseError::ExpectedMapOrQueue
    );
    assert_eq!(
        TypedStore::parse(toks("S { c: Queue { states { A } } }")).unwrap_err(),
        ParseError::QueueRequiresKey
    );
    assert_eq!(
        TypedStore::parse(toks("S { c: Queue { stats { A } } }")).unwrap_err(),
        ParseError::ExpectedSection
    );
    assert_eq!(
        TypedStore::parse(toks("S { } trailing")).unwrap_err(),
        ParseError::UnexpectedToken
    );
    assert_eq!(
        TypedStore::parse(toks("S { c: Map<u64> { states { fn } } }")).unwrap_err(),
        ParseError::ReservedWord
    );
    assert_eq!(
        TypedStore::parse(toks("S { c: Map<u64> { transitions { a(): A -> B } } }")).unwrap_err(),
        ParseError::ExpectedPunct(';')
    );
    assert_eq!(
        TypedStore::parse(toks("S { c: Map<u64> { transitions { a(): A => B; } } }")).unwrap_err(),
        ParseError::ExpectedArrow
    );
    assert_eq!(
        TypedStore::parse(toks("S { c: Map<u64> { states { A { x: } } } }")).unwrap_err(),
        ParseError::ExpectedType
    );
    assert_eq!(
        TypedStore::parse(toks("S { c: Map<u64> { transitions { a(): A -> B { x: , } } } }"))
            .unwrap_err(),
        ParseError::ExpectedExpression
    );
    assert_eq!(
        TypedStore::parse(toks("S { c: Map<u64> { transitions { a(): A -> B where ; } } }"))
            .unwrap_err(),
        ParseError::ExpectedExpression
    );
    assert_eq!(
        TypedStore::parse(toks("S ( )")).unwrap_err(),
        ParseError::ExpectedGroup(Delim::Brace)
    );
    assert_eq!(
        TypedStore::parse(toks("S { c: Map<u64 { } }")).unwrap_err(),
        ParseError::ExpectedPunct('>')
    );
    assert_eq!(
        TypedStore::parse(toks("S { c: Map<u64> { states { A { x: u8 y: u8 } } } }")).unwrap_err(),
        ParseError::ExpectedPunct(',')
    );
}

#[test]
fn test_rewrite_self_to_item() {
    let out = rewrite_self_to_item(toks("self.leader != (x, self.term) || self"));
    assert_eq!(text(&out), "item . leader ! = (x , item . term) | | self");
}

#[test]
fn test_handle_shape_decisions() {
    let store = TypedStore::parse(toks(MESSAGE_STORE)).unwrap();
    let c = &store.collections[0];
    assert_eq!(transitions_leaving(&c.transitions, "InFlight"), vec![1, 2, 3]);
    assert_eq!(transitions_leaving(&c.transitions, "Acked"), Vec::<usize>::new());
    assert_eq!(
        handle_targets(&c.transitions, "InFlight"),
        vec!["InDoubt".to_string(), "Acked".to_string(), "Pending".to_string()]
    );
    assert_eq!(target_build_of(&c.states, "InFlight", 2), TargetBuild::Assigned);
    assert_eq!(target_build_of(&c.states, "InFlight", 0), TargetBuild::Defaulted);
    assert_eq!(target_build_of(&c.states, "Acked", 0), TargetBuild::Unit);
    assert_eq!(target_build_of(&c.states, "Unknown", 3), TargetBuild::Unit);
}

#[test]
fn wider_types_and_values_parse() {
    let store = TypedStore::parse(toks(
        "S {
            c: Map<u64> {
                states {
                    A,
                    B {
                        f: dyn Fn(u8) + Send + 'static,
                        g: fn(u8) -> u16,
                        h: <Vec<u8> as IntoIterator>::Item,
                        p: *const u8,
                        d: &'static dyn std::fmt::Debug,
                        i: impl ?Sized + Clone,
                    },
                }
                transitions {
                    go(): A -> B {
                        f: make::<u8, u16>(1, 2),
                        g: |a, b| a + b,
                        h: <u8 as Default>::default(),
                        p: move |x: u8, y: u8| x,
                    }
                }
            }
        }",
    ))
    .unwrap();
    let c = &store.collections[0];
    let b = &c.states[1];
    let names: Vec<&str> = b.fields.iter().map(|f| f.name.as_str()).collect();
    assert_eq!(names, vec!["f", "g", "h", "p", "d", "i"]);
    assert_eq!(text(&b.fields[0].ty), "dyn Fn (u8) + Send + ' static");
    assert_eq!(text(&b.fields[1].ty), "fn (u8) - > u16");
    assert_eq!(text(&b.fields[2].ty), "< Vec < u8 > as IntoIterator > : : Item");
    assert_eq!(text(&b.fields[3].ty), "* const u8");
    assert_eq!(text(&b.fields[4].ty), "& ' static dyn std : : fmt : : Debug");
    assert_eq!(text(&b.fields[5].ty), "impl ? Sized + Clone");
    let a = &c.transitions[0].field_assignments;
    assert_eq!(a.len(), 4);
    assert_eq!(text(&a[0].value), "make : : < u8 , u16 > (1 , 2)");
    assert_eq!(text(&a[1].value), "| a , b | a + b");
    assert_eq!(text(&a[2].value), "< u8 as Default > : : default ()");
    assert_eq!(a[3].field, "p");
    assert_eq!(text(&a[3].value), "move | x : u8 , y : u8 | x");
}

#[test]
fn guards_with_block_expressions_parse() {
    let store = TypedStore::parse(toks(
        "S {
            c: Map<u64> {
                states {
                    A { n: u8 },
                    B { n: u8 },
                }
                transitions {
                    one(): A -> B where if self.n > 0 { true } else if self.n == 0 { false } else { true } {
                        n: self.n,
                    }
                    two(): B -> A where match self.n { 0 => false, _ => true };
                    three(): A -> A where { let m = self.n; m > 1 } && !{ false } {
                        n: 1,
                    }
                    four(): B -> B where self.n > 2 {
                        n: 3,
                    }
                }
            }
        }",
    ))
    .unwrap();
    let t = &store.collections[0].transitions;
    assert_eq!(
        text(t[0].guard.as_ref().unwrap()),
        "if self . n > 0 {true} else if self . n = = 0 {false} else {true}"
    );
    assert_eq!(t[0].field_assignments.len(), 1);
    assert_eq!(text(t[1].guard.as_ref().unwrap()), "match self . n {0 = > false , _ = > true}");
    assert!(t[1].field_assignments.is_empty());
    assert_eq!(text(t[2].guard.as_ref().unwrap()), "{let m = self . n ; m > 1} & & ! {false}");
    assert_eq!(text(&t[2].field_assignments[0].value), "1");
    assert_eq!(text(t[3].guard.as_ref().unwrap()), "self . n > 2");
}
