//! A Zilog Z80 core: an instruction decoder and an execution engine over a
//! shared instruction vocabulary, with every effect stated as a contract.
//!
//! - [`ops::opcodes`] names the instructions and their operands, and
//!   [`ops::family`] sorts them into families.
//! - [`ops::parser`] decodes bytes into one instruction and its length;
//!   `decode` says what every byte sequence decodes to, and
//!   [`ops::encoding`] gives the bytes of every instruction.
//! - [`cpu::machine`] holds the machine and [`cpu::engine`] executes one
//!   instruction on it; `MachineState::step` in [`cpu::step`] says what every
//!   instruction does.
//! - The laws that follow from those definitions are proved in
//!   [`ops::laws`] and [`ops::round_trip`] for the decoder, and in
//!   [`cpu::laws`], [`cpu::move_laws`], [`cpu::search_laws`],
//!   [`cpu::index_laws`] and [`cpu::step_laws`] for the engine.
//!
//! Feeding bytes to the decoder, advancing a program counter and wiring
//! devices and interrupts are left to the host.

pub mod bits;
pub mod cpu;
pub mod ops;
