//! An interpreter for a reduced 32-bit RISC instruction set: integer
//! arithmetic, loads and stores, jumps and branches, and an environment call
//! that ends the program or writes bytes to the output.
//!
//! [`riscv`] runs a program image and returns the number of instructions
//! executed; [`State::run_to_write`] makes the same run in stretches, for a
//! caller that hands on the output as it is written. What each instruction
//! does is stated once, on the mathematical model [`machine::Machine`], and
//! every executable function is proved to do what the model says.

pub mod alu;
pub mod bitfield;
pub mod decode;
pub mod instr;
pub mod laws;
pub mod machine;
pub mod memory;
pub mod run;

pub use crate::machine::{Fault, State, Status};
pub use crate::run::{load_image, riscv, Execution};
