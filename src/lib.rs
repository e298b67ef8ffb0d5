//! A toy 8-bit CPU: an assembler that validates its input and a four-stage
//! pipelined emulator core.
use vstd::prelude::*;

pub mod isa;
pub mod laws;
pub mod machine;
pub mod parser;
pub mod text;

pub use isa::{Instruction, Operand, OperandType, Operation, OperationArgs};
pub use machine::{AluFlags, Emulator, Registers, ALU};
pub use parser::Parser;

verus! {

} // verus!
