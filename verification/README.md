# ssm

Shared state machines, verified with Verus.

- `src/store_parse.rs`, `src/machine_parse.rs`: the grammars of the `store!`
  and `state_machine!` macros, as functions on token trees (`src/tokens.rs`)
  proved equal to their specifications.
- `src/store_codegen.rs`, `src/machine_codegen.rs`: the decisions behind the
  generated code: derived names, which transitions a handle offers, how a
  target state is built, which lifecycle hooks a transition runs, what a
  handler binds and how it reports failure.
- `src/store_emit.rs`, `src/machine_emit.rs` (with the token builders of
  `src/emit.rs`): the generated items themselves, as token trees, each
  builder proved to produce exactly the tokens its specification lists.
- `src/message_store.rs`, `src/task_store.rs`: a keyed store and a FIFO
  queue store with per-state collections and handles, modelled after what
  the macro generates for the example definitions, with a single owner
  (`&mut self`) in place of the generated `Arc<Mutex<..>>` fields, and their
  contracts and laws.
- `src/counter.rs`, `src/relay_message.rs`, `src/cycle_counter.rs`,
  `src/msg.rs`, `src/bank_account.rs`, `src/hook_machine.rs`: the example
  state machines: each transition proved on a snapshot, and a handle that
  shares one state between its clones.
- `app/`: the macro front ends (token streams converted to and from the
  library's token trees) and serde copies of the example snapshots.
