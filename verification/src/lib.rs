//! Execution core of a CHIP-8 style register machine.
//!
//! The machine has 4096 bytes of memory for program and data, sixteen byte
//! registers of which the last receives the carry of additions, a call stack
//! of sixteen return addresses and a program counter. A program is a
//! sequence of 16-bit instruction words; running it fetches, decodes and
//! carries out one word after the other until a halt instruction or a fault.
//!
//! The crate is split into a mathematical model and the executable machine
//! that is proved to follow it:
//!
//! * [`word`]: the two bytes of an instruction word.
//! * [`instruction`]: the fields of an instruction word and the table of
//!   instructions.
//! * [`machine`]: the model, a state and the functions that take one state
//!   to the next, with the proof that every program stops.
//! * [`laws`]: what holds of the model in every state.
//! * [`cpu`]: the executable machine.
//! * [`endian`]: two-byte values with an explicit byte order.

pub mod cpu;
pub mod endian;
pub mod instruction;
pub mod laws;
pub mod machine;
pub mod word;
