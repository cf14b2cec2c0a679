//! An instruction-level emulator of the MOS 6502, verified with Verus.
//!
//! `semantics` states what every instruction does to the machine state;
//! `cpu` holds the executable processor, whose `step` is proved to follow it.
pub mod cpu;
pub mod lemmas;
pub mod memory;
pub mod operation;
pub mod semantics;
pub mod status_reg;

pub use cpu::{bcd_to_u8, init_cpu6502, Args, Cpu6502, Key, KeyPress};
pub use memory::{DumpLine, Mem, MemMap};
pub use operation::{get_opcode_metadata, AddressingMode, Instruction, InstructionMetadata};
pub use semantics::Fault;
pub use status_reg::{Flag, StatusFlags};
