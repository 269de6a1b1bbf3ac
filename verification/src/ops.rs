//! The instruction vocabulary and the decoder that produces it.

pub mod encoding;
pub mod family;
pub mod laws;
pub mod opcodes;
pub mod parser;
pub mod round_trip;
