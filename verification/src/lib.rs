//! A CHIP-8 execution core: the virtual hardware state and its
//! fetch-decode-execute step, with every instruction's effect stated as a
//! contract over a mathematical model of the machine.
//!
//! - `machine`: the model, a record of sequences and integers.
//! - `decode`: opcode bytes to fields to instructions.
//! - `semantics`: what an instruction and a step do to the model.
//! - `display`, `keypad`, `timer`: the framebuffer, the keys and the 60 Hz
//!   timers, each with its own model and executable functions.
//! - `cpu`: the machine itself, whose methods are held to the model.
//! - `laws`: what follows for every machine.

pub mod cpu;
pub mod decode;
pub mod display;
pub mod fault;
pub mod keypad;
pub mod laws;
pub mod machine;
pub mod semantics;
pub mod timer;

pub use crate::cpu::CPU;
pub use crate::decode::Instruction;
pub use crate::fault::Fault;
pub use crate::fault::UnknownOpcodePolicy;
pub use crate::machine::Machine;
