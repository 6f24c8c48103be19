//! Shared state machines: per-state typed stores with handle-based
//! transitions, state machines shared between handles, and the two macro
//! front ends (`store!` and `state_machine!`): their grammars, the decisions
//! behind the generated code, and the generated items as token trees.
use vstd::prelude::*;

pub mod text;
pub mod tokens;
pub mod emit;
pub mod store_parse;
pub mod machine_parse;
pub mod machine_codegen;
pub mod machine_emit;
pub mod machine_emit_laws;
pub mod store_codegen;
pub mod store_emit;
pub mod store_emit_laws;
pub mod message_store;
pub mod task_store;
pub mod transition;
pub mod relay_message;
pub mod counter;
pub mod cycle_counter;
pub mod msg;
pub mod bank_account;
pub mod hook_machine;

pub use transition::TransitionError;

verus! {

} // verus!
