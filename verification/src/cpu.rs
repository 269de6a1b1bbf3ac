//! The execution engine: machine state, and the effect of each instruction on it.

pub mod alu;
pub mod block;
pub mod engine;
pub mod flags;
pub mod index_laws;
pub mod laws;
pub mod machine;
pub mod move_laws;
pub mod search_laws;
pub mod state;
pub mod step;
pub mod step_laws;

pub use machine::Z80;
