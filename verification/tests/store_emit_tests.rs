//! The items the `store!` front end generates, compared token for token
//! with the code they stand for.

use proc_macro2::{Delimiter, Spacing, TokenStream, TokenTree};
use ssm::store_emit::{handle_items, map_store_methods, queue_store_methods, store_items};
use ssm::store_parse::TypedStore;
use ssm::tokens::{Delim, Tok};

fn convert(ts: TokenStream) -> Vec<Tok> {
    ts.into_iter()
        .map(|tt| match tt {
            TokenTree::Ident(i) => Tok::Ident(i.to_string()),
            TokenTree::Punct(p) => Tok::Punct(p.as_char(), p.spacing() == Spacing::Joint),
            TokenTree::Literal(l) => Tok::Literal(l.to_string()),
            TokenTree::Group(g) => {
                let d = match g.delimiter() {
                    Delimiter::Parenthesis => Delim::Paren,
                    Delimiter::Brace => Delim::Brace,
                    Delimiter::Bracket => Delim::Bracket,
                    Delimiter::None => Delim::Invisible,
                };
                Tok::Group(d, convert(g.stream()))
            }
        })
        .collect()
}

fn toks(src: &str) -> Vec<Tok> {
    convert(src.parse::<TokenStream>().unwrap())
}

fn text(ts: &[Tok]) -> String {
    ts.iter()
        .map(|t| match t {
            Tok::Ident(s) | Tok::Literal(s) => s.clone(),
            Tok::Punct(c, _) => c.to_string(),
            Tok::Group(d, inner) => {
                let (o, c) = match d {
                    Delim::Paren => ("(", ")"),
                    Delim::Brace => ("{", "}"),
                    Delim::Bracket => ("[", "]"),
                    Delim::Invisible => ("", ""),
                };
                format!("{}{}{}", o, text(inner), c)
            }
        })
        .collect::<Vec<_>>()
        .join(" ")
}

fn same(generated: &[Tok], expected: &str) {
    assert_eq!(text(generated), text(&toks(expected)));
}

const JOBS: &str = "
    pub Jobs {
        jobs: Queue {
            key id: u64,
            states {
                Ready,
                Done { note: u32 },
            }
            transitions {
                finish(n: u32): Ready -> Done where self.id > 0 {
                    note: n,
                }
                retry(): Done -> Ready;
            }
        }
    }";

const ITEMS: &str = "
    pub Items {
        items: Map<String> {
            states {
                Open,
                Closed { why: u8 },
            }
            transitions {
                close(w: u8): Open -> Closed {
                    why: w,
                }
            }
        }
    }";

#[test]
fn queue_store_methods_push_count_and_hand_out() {
    let store = TypedStore::parse(toks(JOBS)).unwrap();
    let c = &store.collections[0];
    same(
        &queue_store_methods(c),
        "
        /// Push a new item in the initial state.
        pub fn jobs_push(&self) -> u64 {
            let mut next_id = self.jobs_next_id.lock().unwrap();
            let id = *next_id;
            *next_id = next_id.wrapping_add(1);
            self.jobs_ready.lock().unwrap().push_back(JobsReady { id: id });
            id
        }
        /// Get total count across all states.
        pub fn jobs_len(&self) -> usize {
            self.jobs_ready.lock().unwrap().len() + self.jobs_done.lock().unwrap().len()
        }
        /// Get a handle to the front item in this state.
        pub fn jobs_next_ready(&self) -> Option<JobsReadyHandle> {
            let item = self.jobs_ready.lock().unwrap().pop_front()?;
            Some(JobsReadyHandle {
                source_ready: self.jobs_ready.clone(),
                target_done: self.jobs_done.clone(),
                item: Some(item),
            })
        }
        /// Peek at the front item (cloned).
        pub fn jobs_peek_ready(&self) -> Option<JobsReady> where JobsReady: Clone, {
            self.jobs_ready.lock().unwrap().front().cloned()
        }
        /// Count items in this state.
        pub fn jobs_ready_len(&self) -> usize {
            self.jobs_ready.lock().unwrap().len()
        }
        /// Get a handle to the front item in this state.
        pub fn jobs_next_done(&self) -> Option<JobsDoneHandle> {
            let item = self.jobs_done.lock().unwrap().pop_front()?;
            Some(JobsDoneHandle {
                source_done: self.jobs_done.clone(),
                target_ready: self.jobs_ready.clone(),
                item: Some(item),
            })
        }
        /// Peek at the front item (cloned).
        pub fn jobs_peek_done(&self) -> Option<JobsDone> where JobsDone: Clone, {
            self.jobs_done.lock().unwrap().front().cloned()
        }
        /// Count items in this state.
        pub fn jobs_done_len(&self) -> usize {
            self.jobs_done.lock().unwrap().len()
        }",
    );
    let other = TypedStore::parse(toks(ITEMS)).unwrap();
    assert!(queue_store_methods(&other.collections[0]).is_empty());
}

#[test]
fn queue_handle_checks_the_guard_before_taking_the_item() {
    let store = TypedStore::parse(toks(JOBS)).unwrap();
    let c = &store.collections[0];
    same(
        &handle_items(c, &c.states[0], "Jobs"),
        "
        pub struct JobsReadyHandle {
            source_ready: std::sync::Arc<std::sync::Mutex<std::collections::VecDeque<JobsReady>>>,
            target_done: std::sync::Arc<std::sync::Mutex<std::collections::VecDeque<JobsDone>>>,
            item: Option<JobsReady>,
        }
        impl JobsReadyHandle {
            pub fn id(&self) -> &u64 {
                &self.item.as_ref().unwrap().id
            }
            pub fn finish(mut self, n: u32) -> Result<(), JobsError> {
                let item = self.item.as_ref().unwrap();
                if !(item.id > 0) {
                    return Err(JobsError::GuardFailed);
                }
                let item = self.item.take().unwrap();
                self.target_done.lock().unwrap().push_back(JobsDone { id: item.id, note: n });
                Ok(())
            }
        }
        impl Drop for JobsReadyHandle {
            fn drop(&mut self) {
                if let Some(item) = self.item.take() {
                    self.source_ready.lock().unwrap().push_front(item);
                }
            }
        }",
    );
}

#[test]
fn queue_handle_carries_the_key_to_a_fieldless_target() {
    let store = TypedStore::parse(toks(JOBS)).unwrap();
    let c = &store.collections[0];
    let done = text(&handle_items(c, &c.states[1], "Jobs"));
    let retry = text(&toks(
        "pub fn retry(mut self,) -> Result<(), JobsError> {
            let item = self.item.as_ref().unwrap();
            let item = self.item.take().unwrap();
            self.target_ready.lock().unwrap().push_back(JobsReady { id: item.id });
            Ok(())
        }",
    ));
    assert!(done.contains(&retry), "{}", done);
    assert!(done.contains(&text(&toks("pub fn note(&self) -> &u32 { &self.item.as_ref().unwrap().note }"))));
}

#[test]
fn map_store_methods_range_over_all_states() {
    let store = TypedStore::parse(toks(ITEMS)).unwrap();
    let c = &store.collections[0];
    same(
        &map_store_methods(c),
        "
        /// Insert a new item in the initial state.
        pub fn items_insert(&self, key: String) -> bool {
            if self.items_contains(&key) {
                return false;
            }
            self.items_open.lock().unwrap().insert(key, ItemsOpen);
            true
        }
        /// Check if an item exists in any state.
        pub fn items_contains(&self, key: &String) -> bool {
            self.items_open.lock().unwrap().contains_key(key) || self.items_closed.lock().unwrap().contains_key(key)
        }
        /// Remove an item from any state.
        pub fn items_remove(&self, key: &String) -> bool {
            if self.items_open.lock().unwrap().remove(key).is_some() { return true; }
            if self.items_closed.lock().unwrap().remove(key).is_some() { return true; }
            false
        }
        /// Get total count across all states.
        pub fn items_len(&self) -> usize {
            self.items_open.lock().unwrap().len() + self.items_closed.lock().unwrap().len()
        }
        /// Get a handle to an item in this state.
        pub fn items_open(&self, key: &String) -> Option<ItemsOpenHandle> {
            let item = self.items_open.lock().unwrap().remove(key)?;
            Some(ItemsOpenHandle {
                source_open: self.items_open.clone(),
                target_closed: self.items_closed.clone(),
                key: key.clone(),
                item: Some(item),
            })
        }
        /// Count items in this state.
        pub fn items_open_len(&self) -> usize {
            self.items_open.lock().unwrap().len()
        }
        /// Get keys of items in this state.
        pub fn items_open_keys(&self) -> Vec<String> where String: Clone, {
            self.items_open.lock().unwrap().keys().cloned().collect()
        }
        /// Get a handle to an item in this state.
        pub fn items_closed(&self, key: &String) -> Option<ItemsClosedHandle> {
            let item = self.items_closed.lock().unwrap().remove(key)?;
            Some(ItemsClosedHandle {
                source_closed: self.items_closed.clone(),
                key: key.clone(),
                item: Some(item),
            })
        }
        /// Count items in this state.
        pub fn items_closed_len(&self) -> usize {
            self.items_closed.lock().unwrap().len()
        }
        /// Get keys of items in this state.
        pub fn items_closed_keys(&self) -> Vec<String> where String: Clone, {
            self.items_closed.lock().unwrap().keys().cloned().collect()
        }",
    );
    let other = TypedStore::parse(toks(JOBS)).unwrap();
    assert!(map_store_methods(&other.collections[0]).is_empty());
}

#[test]
fn map_handle_puts_an_untaken_item_back_under_its_key() {
    let store = TypedStore::parse(toks(ITEMS)).unwrap();
    let c = &store.collections[0];
    same(
        &handle_items(c, &c.states[0], "Items"),
        "
        pub struct ItemsOpenHandle {
            source_open: std::sync::Arc<std::sync::Mutex<std::collections::HashMap<String, ItemsOpen>>>,
            target_closed: std::sync::Arc<std::sync::Mutex<std::collections::HashMap<String, ItemsClosed>>>,
            key: String,
            item: Option<ItemsOpen>,
        }
        impl ItemsOpenHandle {
            /// Get the key for this item.
            pub fn key(&self) -> &String {
                &self.key
            }
            pub fn close(mut self, w: u8) -> Result<(), ItemsError> {
                let item = self.item.as_ref().unwrap();
                let item = self.item.take().unwrap();
                self.target_closed.lock().unwrap().insert(self.key.clone(), ItemsClosed { why: w });
                Ok(())
            }
        }
        impl Drop for ItemsOpenHandle {
            fn drop(&mut self) {
                if let Some(item) = self.item.take() {
                    self.source_open.lock().unwrap().insert(self.key.clone(), item);
                }
            }
        }",
    );
}

#[test]
fn store_items_start_with_the_error_type() {
    let store = TypedStore::parse(toks(ITEMS)).unwrap();
    let all = text(&store_items(&store));
    let error = text(&toks(
        "#[derive(Debug, Clone, PartialEq)]
        pub enum ItemsError {
            /// Item not found in expected state.
            NotFound,
            /// Guard condition failed.
            GuardFailed,
        }
        impl std::fmt::Display for ItemsError {
            fn fmt(&self, f: &mut std::fmt::Formatter<'_>) -> std::fmt::Result {
                match self {
                    Self::NotFound => write!(f, \"item not found in expected state\"),
                    Self::GuardFailed => write!(f, \"guard condition failed\"),
                }
            }
        }
        impl std::error::Error for ItemsError {}",
    ));
    assert!(all.starts_with(&error), "{}", all);
    let states = text(&toks(
        "#[derive(Debug, Clone, Default, PartialEq, serde::Serialize, serde::Deserialize)]
        pub struct ItemsOpen;
        #[derive(Debug, Clone, Default, PartialEq, serde::Serialize, serde::Deserialize)]
        pub struct ItemsClosed { pub why: u8 }",
    ));
    assert!(all.contains(&states));
    let store_struct = text(&toks(
        "#[derive(Debug, Clone, Default)]
        pub struct Items {
            items_open: std::sync::Arc<std::sync::Mutex<std::collections::HashMap<String, ItemsOpen>>>,
            items_closed: std::sync::Arc<std::sync::Mutex<std::collections::HashMap<String, ItemsClosed>>>,
        }",
    ));
    assert!(all.contains(&store_struct), "{}", all);
    let new_fn = text(&toks(
        "   /// Create a new empty store.
            pub fn new() -> Self {
                Self {
                    items_open: std::sync::Arc::new(std::sync::Mutex::new(std::collections::HashMap::new())),
                    items_closed: std::sync::Arc::new(std::sync::Mutex::new(std::collections::HashMap::new())),
                }
            }",
    ));
    assert!(all.contains(&new_fn), "{}", all);
}

#[test]
fn queue_store_struct_keeps_the_key_counter() {
    let store = TypedStore::parse(toks(JOBS)).unwrap();
    let all = text(&store_items(&store));
    let store_struct = text(&toks(
        "#[derive(Debug, Clone, Default)]
        pub struct Jobs {
            jobs_ready: std::sync::Arc<std::sync::Mutex<std::collections::VecDeque<JobsReady>>>,
            jobs_done: std::sync::Arc<std::sync::Mutex<std::collections::VecDeque<JobsDone>>>,
            jobs_next_id: std::sync::Arc<std::sync::Mutex<u64>>,
        }",
    ));
    assert!(all.contains(&store_struct), "{}", all);
    let new_fn = text(&toks(
        "   /// Create a new empty store.
            pub fn new() -> Self {
                Self {
                    jobs_ready: std::sync::Arc::new(std::sync::Mutex::new(std::collections::VecDeque::new())),
                    jobs_done: std::sync::Arc::new(std::sync::Mutex::new(std::collections::VecDeque::new())),
                    jobs_next_id: std::sync::Arc::new(std::sync::Mutex::new(Default::default())),
                }
            }",
    ));
    assert!(all.contains(&new_fn), "{}", all);
    let states = text(&toks(
        "#[derive(Debug, Clone, Default, PartialEq, serde::Serialize, serde::Deserialize)]
        pub struct JobsReady { pub id: u64 }
        #[derive(Debug, Clone, Default, PartialEq, serde::Serialize, serde::Deserialize)]
        pub struct JobsDone { pub id: u64, pub note: u32 }",
    ));
    assert!(all.contains(&states), "{}", all);
}

const BOTH: &str = "
    pub MessageStore {
        messages: Map<u64> {
            states {
                Pending,
                Acked,
            }
            transitions {
                ack(): Pending -> Acked;
            }
        }
        tasks: Queue {
            key id: u64,
            states {
                Waiting,
            }
            transitions {
            }
        }
    }";

#[test]
fn one_store_holds_every_collection() {
    let store = TypedStore::parse(toks(BOTH)).unwrap();
    let all = text(&store_items(&store));
    assert_eq!(all.matches("struct MessageStore {").count(), 1, "{}", all);
    assert_eq!(all.matches("impl MessageStore {").count(), 1, "{}", all);
    assert_eq!(all.matches("fn new ()").count(), 1, "{}", all);
    let store_struct = text(&toks(
        "#[derive(Debug, Clone, Default)]
        pub struct MessageStore {
            messages_pending: std::sync::Arc<std::sync::Mutex<std::collections::HashMap<u64, MessagesPending>>>,
            messages_acked: std::sync::Arc<std::sync::Mutex<std::collections::HashMap<u64, MessagesAcked>>>,
            tasks_waiting: std::sync::Arc<std::sync::Mutex<std::collections::VecDeque<TasksWaiting>>>,
            tasks_next_id: std::sync::Arc<std::sync::Mutex<u64>>,
        }",
    ));
    assert!(all.contains(&store_struct), "{}", all);
    let new_fn = text(&toks(
        "   /// Create a new empty store.
            pub fn new() -> Self {
                Self {
                    messages_pending: std::sync::Arc::new(std::sync::Mutex::new(std::collections::HashMap::new())),
                    messages_acked: std::sync::Arc::new(std::sync::Mutex::new(std::collections::HashMap::new())),
                    tasks_waiting: std::sync::Arc::new(std::sync::Mutex::new(std::collections::VecDeque::new())),
                    tasks_next_id: std::sync::Arc::new(std::sync::Mutex::new(Default::default())),
                }
            }",
    ));
    assert!(all.contains(&new_fn), "{}", all);
    let map_methods = text(&map_store_methods(&store.collections[0]));
    let queue_methods = text(&queue_store_methods(&store.collections[1]));
    assert!(all.ends_with(&format!("{} {}}}", map_methods, queue_methods)), "{}", all);
    assert!(map_methods.contains("fn messages_insert"));
    assert!(queue_methods.contains("fn tasks_push"));
}
