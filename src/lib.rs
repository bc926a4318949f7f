//! An interpreter for a subset of the 32-bit x86 instruction set.
pub mod flags;
pub mod modrm;
pub mod instr;
pub mod machine;
pub mod encoding;
pub mod emulator;
pub mod laws;

pub use emulator::{Emulator, ImageTooLarge, MEMORY_SIZE};
pub use instr::{register_name, AluOp, Cond, Decoded, Fault, FaultKind, Instr, Operand, Status};
pub use modrm::{ModRM, Sib};
