//! The ModRM and SIB bytes that follow many opcodes.
use vstd::prelude::*;

verus! {

/// A decoded ModRM byte: addressing mode (bits 7-6), register or sub-opcode
/// (bits 5-3) and register/memory operand (bits 2-0).
#[derive(Clone, Copy, Debug, PartialEq, Eq)]
pub struct ModRM {
    pub mode: u32,
    pub reg: u32,
    pub rm: u32,
    /// The `reg` field read as a sub-opcode of a group opcode; always equal to `reg`.
    pub opcode: u32,
}

/// The ModRM fields of the low byte of `code`.
pub open spec fn modrm_of(code: u32) -> ModRM {
    ModRM {
        mode: (code / 64) % 4,
        reg: (code / 8) % 8,
        rm: code % 8,
        opcode: (code / 8) % 8,
    }
}

/// The byte that a well-formed ModRM value was split from.
pub open spec fn modrm_byte(m: ModRM) -> u8 {
    (m.mode * 64 + m.reg * 8 + m.rm) as u8
}

impl ModRM {
    /// Whether each field fits its bit width and `opcode` mirrors `reg`.
    pub open spec fn wf(&self) -> bool {
        &&& self.mode < 4
        &&& self.reg < 8
        &&& self.rm < 8
        &&& self.opcode == self.reg
    }

    /// Splits the low byte of `code` into its three fields.
    pub fn new(code: u32) -> (r: ModRM)
        ensures
            r == modrm_of(code),
            r.wf(),
    {
        let mode = (code & 0b1100_0000) >> 6;
        let reg = (code & 0b0011_1000) >> 3;
        let rm = code & 0b0000_0111;
        assert(mode == (code / 64) % 4 && reg == (code / 8) % 8 && rm == code % 8) by (bit_vector)
            requires
                mode == (code & 0b1100_0000) >> 6,
                reg == (code & 0b0011_1000) >> 3,
                rm == code & 0b0000_0111,
        ;
        ModRM { mode, reg, rm, opcode: reg }
    }

    /// The byte this value was split from.
    pub fn code(&self) -> (r: u8)
        requires
            self.wf(),
        ensures
            r == modrm_byte(*self),
    {
        (self.mode * 64 + self.reg * 8 + self.rm) as u8
    }
}

/// A decoded SIB byte: scale (bits 7-6), index register (bits 5-3) and base
/// register (bits 2-0).
#[derive(Clone, Copy, Debug, PartialEq, Eq)]
pub struct Sib {
    pub scale: u32,
    pub index: u32,
    pub base: u32,
}

/// The SIB fields of the byte `code`.
pub open spec fn sib_of(code: u8) -> Sib {
    Sib { scale: (code / 64) as u32, index: ((code / 8) % 8) as u32, base: (code % 8) as u32 }
}

/// Whether a SIB value is the one encoding this machine accepts: no scaled index.
pub open spec fn sib_has_no_index(s: Sib) -> bool {
    s.scale == 0 && s.index == 4
}

impl Sib {
    /// Splits `code` into its three fields.
    pub fn new(code: u8) -> (r: Sib)
        ensures
            r == sib_of(code),
    {
        Sib { scale: (code / 64) as u32, index: ((code / 8) % 8) as u32, base: (code % 8) as u32 }
    }
}

} // verus!
