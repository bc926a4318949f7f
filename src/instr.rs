//! Decoded instructions, faults and run states.
use vstd::prelude::*;

verus! {

/// Register slots, in the order of the encoding.
pub const EAX: u32 = 0;
pub const ECX: u32 = 1;
pub const EDX: u32 = 2;
pub const EBX: u32 = 3;
pub const ESP: u32 = 4;
pub const EBP: u32 = 5;
pub const ESI: u32 = 6;
pub const EDI: u32 = 7;

/// The name of the register in slot `index`.
pub open spec fn register_name_of(index: u32) -> Seq<char> {
    if index == EAX {
        "EAX"@
    } else if index == ECX {
        "ECX"@
    } else if index == EDX {
        "EDX"@
    } else if index == EBX {
        "EBX"@
    } else if index == ESP {
        "ESP"@
    } else if index == EBP {
        "EBP"@
    } else if index == ESI {
        "ESI"@
    } else {
        "EDI"@
    }
}

/// The name of the register in slot `index`, for listings and dumps.
pub fn register_name(index: u32) -> (r: &'static str)
    requires
        index < 8,
    ensures
        r@ == register_name_of(index),
{
    if index == EAX {
        "EAX"
    } else if index == ECX {
        "ECX"
    } else if index == EDX {
        "EDX"
    } else if index == EBX {
        "EBX"
    } else if index == ESP {
        "ESP"
    } else if index == EBP {
        "EBP"
    } else if index == ESI {
        "ESI"
    } else {
        "EDI"
    }
}

/// A 32-bit operand: a register slot, the dword at a memory address, or an
/// immediate value.
#[derive(Clone, Copy, Debug, PartialEq, Eq)]
pub enum Operand {
    Reg(u32),
    Mem(u32),
    Imm(u32),
}

/// The two-operand operations that write their result and leave the flags alone.
#[derive(Clone, Copy, Debug, PartialEq, Eq)]
pub enum AluOp {
    Add,
    Sub,
    And,
    Xor,
}

/// Conditions of the conditional jumps.
#[derive(Clone, Copy, Debug, PartialEq, Eq)]
pub enum Cond {
    /// ZF set.
    Zero,
    /// ZF clear.
    NotZero,
    /// ZF clear and SF equal to OF.
    Greater,
    /// ZF set or SF different from OF.
    NotGreater,
}

/// One instruction of the supported subset, with its operands resolved.
/// Jump and call targets are absolute addresses.
#[derive(Clone, Copy, Debug, PartialEq, Eq)]
pub enum Instr {
    /// `dst = dst op src`.
    Alu { op: AluOp, dst: Operand, src: Operand },
    /// Sets the flags from `lhs - rhs`.
    Cmp { lhs: Operand, rhs: Operand },
    /// `dst = src`.
    Mov { dst: Operand, src: Operand },
    /// Register `reg` takes an effective address.
    Lea { reg: u32, address: u32 },
    /// Logical right shift of `dst` by one.
    Shr { dst: Operand },
    Push { src: Operand },
    /// Pops into register `reg`.
    Pop { reg: u32 },
    Jump { target: u32 },
    JumpIf { cond: Cond, target: u32 },
    Call { target: u32 },
    Ret,
    Leave,
    Nop,
}

/// An instruction together with the address of the byte that follows it.
#[derive(Clone, Copy, Debug, PartialEq, Eq)]
pub struct Decoded {
    pub instr: Instr,
    pub next: u32,
}

/// Why an instruction could not run.
#[derive(Clone, Copy, Debug, PartialEq, Eq)]
pub enum FaultKind {
    /// No handler for the opcode; `sub` is the selector of a group opcode (its
    /// ModRM reg field, or the byte after the two-byte escape `0x0F`).
    UnsupportedOpcode { opcode: u8, sub: Option<u8> },
    /// The ModRM or SIB byte names an addressing mode this machine does not have.
    UnsupportedAddressingMode { byte: u8 },
    /// An access starting at `address` reaches past the end of memory.
    OutOfBounds { address: u32 },
}

/// A fault, with the address of the instruction that raised it.
#[derive(Clone, Copy, Debug, PartialEq, Eq)]
pub struct Fault {
    pub eip: u32,
    pub kind: FaultKind,
}

/// How the machine stands after a step or a run that did not fault.
#[derive(Clone, Copy, Debug, PartialEq, Eq)]
pub enum Status {
    Running,
    /// A return popped the address 0.
    Halted,
}

impl Operand {
    /// Whether a register operand names one of the eight slots.
    pub open spec fn wf(&self) -> bool {
        match *self {
            Operand::Reg(r) => r < 8,
            _ => true,
        }
    }

    /// Whether the operand can be written: a well-formed register or memory.
    pub open spec fn is_place(&self) -> bool {
        self.wf() && !(*self is Imm)
    }
}

impl Instr {
    /// Whether every register named is one of the eight slots and every
    /// destination is a register or memory.
    pub open spec fn wf(&self) -> bool {
        match *self {
            Instr::Alu { dst, src, .. } => dst.is_place() && src.wf(),
            Instr::Cmp { lhs, rhs } => lhs.wf() && rhs.wf(),
            Instr::Mov { dst, src } => dst.is_place() && src.wf(),
            Instr::Lea { reg, .. } => reg < 8,
            Instr::Shr { dst } => dst.is_place(),
            Instr::Push { src } => src.wf(),
            Instr::Pop { reg } => reg < 8,
            _ => true,
        }
    }
}

} // verus!
