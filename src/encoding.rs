//! How the supported instructions are encoded: the decoding of the bytes at an
//! address into an [`Instr`], as a function of memory and registers.
use vstd::prelude::*;
use crate::flags::add32;
use crate::instr::{AluOp, Cond, Decoded, FaultKind, Instr, Operand, EAX};
use crate::machine::{read8, read32};
use crate::modrm::{ModRM, modrm_of, modrm_byte, sib_of, sib_has_no_index};

verus! {

/// `b` read as a signed byte and sign-extended to 32 bits.
pub open spec fn sext8(b: u8) -> u32 {
    if b < 0x80 {
        b as u32
    } else {
        (b + 0xffff_ff00) as u32
    }
}

/// The ModRM byte at `p`.
pub open spec fn modrm_at(mem: Seq<u8>, p: int) -> Result<ModRM, FaultKind> {
    match read8(mem, p) {
        Ok(b) => Ok(modrm_of(b as u32)),
        Err(e) => Err(e),
    }
}

/// The displacement at `p`: a dword when `wide`, else a sign-extended byte.
pub open spec fn displacement(mem: Seq<u8>, p: int, wide: bool) -> Result<u32, FaultKind> {
    if wide {
        read32(mem, p)
    } else {
        match read8(mem, p) {
            Ok(b) => Ok(sext8(b)),
            Err(e) => Err(e),
        }
    }
}

/// The memory address that `m` names, with the position after the bytes it
/// takes (`p` is the position after the ModRM byte). Mode 1 adds a signed byte,
/// mode 2 a dword, to a base register: `m.rm`, or with `m.rm == 4` the base of
/// a SIB byte that has no scaled index. Two's-complement addition of a signed
/// displacement is wrapping 32-bit addition of its bits.
pub open spec fn effective_address(mem: Seq<u8>, regs: Seq<u32>, m: ModRM, p: int) -> Result<
    (u32, int),
    FaultKind,
> {
    if m.mode == 1 || m.mode == 2 {
        let wide = m.mode == 2;
        let width: int = if wide {
            4
        } else {
            1
        };
        if m.rm == 4 {
            match read8(mem, p) {
                Ok(b) => match displacement(mem, p + 1, wide) {
                    Ok(d) => if sib_has_no_index(sib_of(b)) {
                        Ok((add32(regs[sib_of(b).base as int], d), p + 1 + width))
                    } else {
                        Err(FaultKind::UnsupportedAddressingMode { byte: b })
                    },
                    Err(e) => Err(e),
                },
                Err(e) => Err(e),
            }
        } else {
            match displacement(mem, p, wide) {
                Ok(d) => Ok((add32(regs[m.rm as int], d), p + width)),
                Err(e) => Err(e),
            }
        }
    } else {
        Err(FaultKind::UnsupportedAddressingMode { byte: modrm_byte(m) })
    }
}

/// The register/memory operand that `m` names: register `m.rm` in mode 3 where
/// `reg_ok`, memory in modes 1 and 2 where `mem_ok`.
pub open spec fn rm_operand(
    mem: Seq<u8>,
    regs: Seq<u32>,
    m: ModRM,
    p: int,
    reg_ok: bool,
    mem_ok: bool,
) -> Result<(Operand, int), FaultKind> {
    if m.mode == 3 && reg_ok {
        Ok((Operand::Reg(m.rm), p))
    } else if m.mode != 3 && mem_ok {
        match effective_address(mem, regs, m, p) {
            Ok((a, q)) => Ok((Operand::Mem(a), q)),
            Err(e) => Err(e),
        }
    } else {
        Err(FaultKind::UnsupportedAddressingMode { byte: modrm_byte(m) })
    }
}

pub open spec fn decoded(instr: Instr, next: int) -> Decoded {
    Decoded { instr, next: next as u32 }
}

// ---------------------------------------------------------------- one-byte forms with ModRM

/// Opcodes whose whole operand is a ModRM byte and what it names.
pub open spec fn is_modrm_form(op: u8) -> bool {
    op == 0x01 || op == 0x03 || op == 0x29 || op == 0x2b || op == 0x31 || op == 0x3b || op
        == 0x89 || op == 0x8b || op == 0x8d
}

/// Whether the ModRM operand of `op` may be a register.
pub open spec fn register_form_allowed(op: u8) -> bool {
    op == 0x01 || op == 0x29 || op == 0x31 || op == 0x89
}

/// Whether the ModRM operand of `op` may be memory.
pub open spec fn memory_form_allowed(op: u8) -> bool {
    op != 0x29 && op != 0x31
}

/// The instruction of a ModRM form, given the ModRM reg field and operand.
pub open spec fn modrm_instr(op: u8, reg: u32, rm: Operand) -> Instr {
    if op == 0x01 {
        Instr::Alu { op: AluOp::Add, dst: rm, src: Operand::Reg(reg) }
    } else if op == 0x03 {
        Instr::Alu { op: AluOp::Add, dst: Operand::Reg(reg), src: rm }
    } else if op == 0x29 {
        Instr::Alu { op: AluOp::Sub, dst: rm, src: Operand::Reg(reg) }
    } else if op == 0x2b {
        Instr::Alu { op: AluOp::Sub, dst: Operand::Reg(reg), src: rm }
    } else if op == 0x31 {
        Instr::Alu { op: AluOp::Xor, dst: rm, src: Operand::Reg(reg) }
    } else if op == 0x3b {
        Instr::Cmp { lhs: Operand::Reg(reg), rhs: rm }
    } else if op == 0x89 {
        Instr::Mov { dst: rm, src: Operand::Reg(reg) }
    } else if op == 0x8b {
        Instr::Mov { dst: Operand::Reg(reg), src: rm }
    } else {
        Instr::Lea { reg, address: rm->Mem_0 }
    }
}

pub open spec fn decode_modrm_form(mem: Seq<u8>, regs: Seq<u32>, op: u8, p: int) -> Result<
    Decoded,
    FaultKind,
> {
    match modrm_at(mem, p) {
        Ok(m) => match rm_operand(
            mem,
            regs,
            m,
            p + 1,
            register_form_allowed(op),
            memory_form_allowed(op),
        ) {
            Ok((rm, q)) => Ok(decoded(modrm_instr(op, m.reg, rm), q)),
            Err(e) => Err(e),
        },
        Err(e) => Err(e),
    }
}

// ---------------------------------------------------------------- group opcodes

/// `0x0F 0x84` and `0x0F 0x85`: JZ and JNZ with a 32-bit displacement.
pub open spec fn decode_escape(mem: Seq<u8>, p: int) -> Result<Decoded, FaultKind> {
    match read8(mem, p) {
        Ok(b) => if b == 0x84 || b == 0x85 {
            match read32(mem, p + 1) {
                Ok(d) => Ok(
                    decoded(
                        Instr::JumpIf {
                            cond: if b == 0x84 {
                                Cond::Zero
                            } else {
                                Cond::NotZero
                            },
                            target: add32((p + 5) as u32, d),
                        },
                        p + 5,
                    ),
                ),
                Err(e) => Err(e),
            }
        } else {
            Err(FaultKind::UnsupportedOpcode { opcode: 0x0f, sub: Some(b) })
        },
        Err(e) => Err(e),
    }
}

pub open spec fn unsupported_sub(op: u8, m: ModRM) -> FaultKind {
    FaultKind::UnsupportedOpcode { opcode: op, sub: Some(m.opcode as u8) }
}

/// `0x81 /0` and `0x81 /5`: ADD and SUB of a dword to a register.
pub open spec fn decode_group81(mem: Seq<u8>, regs: Seq<u32>, p: int) -> Result<Decoded, FaultKind> {
    match modrm_at(mem, p) {
        Ok(m) => if m.opcode == 0 || m.opcode == 5 {
            match rm_operand(mem, regs, m, p + 1, true, false) {
                Ok((rm, q)) => match read32(mem, q) {
                    Ok(imm) => Ok(
                        decoded(
                            Instr::Alu {
                                op: if m.opcode == 0 {
                                    AluOp::Add
                                } else {
                                    AluOp::Sub
                                },
                                dst: rm,
                                src: Operand::Imm(imm),
                            },
                            q + 4,
                        ),
                    ),
                    Err(e) => Err(e),
                },
                Err(e) => Err(e),
            }
        } else {
            Err(unsupported_sub(0x81, m))
        },
        Err(e) => Err(e),
    }
}

/// The instruction of `0x83 /sub` with its sign-extended byte.
pub open spec fn group83_instr(sub: u32, rm: Operand, imm: u32) -> Instr {
    if sub == 0 {
        Instr::Alu { op: AluOp::Add, dst: rm, src: Operand::Imm(imm) }
    } else if sub == 4 {
        Instr::Alu { op: AluOp::And, dst: rm, src: Operand::Imm(imm) }
    } else if sub == 5 {
        Instr::Alu { op: AluOp::Sub, dst: rm, src: Operand::Imm(imm) }
    } else {
        Instr::Cmp { lhs: rm, rhs: Operand::Imm(imm) }
    }
}

/// `0x83 /0, /4, /5, /7`: ADD, AND, SUB and CMP with a sign-extended byte; AND
/// on a register only.
pub open spec fn decode_group83(mem: Seq<u8>, regs: Seq<u32>, p: int) -> Result<Decoded, FaultKind> {
    match modrm_at(mem, p) {
        Ok(m) => if m.opcode == 0 || m.opcode == 4 || m.opcode == 5 || m.opcode == 7 {
            match rm_operand(mem, regs, m, p + 1, true, m.opcode != 4) {
                Ok((rm, q)) => match read8(mem, q) {
                    Ok(b) => Ok(decoded(group83_instr(m.opcode, rm, sext8(b)), q + 1)),
                    Err(e) => Err(e),
                },
                Err(e) => Err(e),
            }
        } else {
            Err(unsupported_sub(0x83, m))
        },
        Err(e) => Err(e),
    }
}

/// `0xC7 /0`: MOV of a dword to memory.
pub open spec fn decode_group_c7(mem: Seq<u8>, regs: Seq<u32>, p: int) -> Result<Decoded, FaultKind> {
    match modrm_at(mem, p) {
        Ok(m) => match rm_operand(mem, regs, m, p + 1, false, true) {
            Ok((rm, q)) => if m.opcode == 0 {
                match read32(mem, q) {
                    Ok(imm) => Ok(decoded(Instr::Mov { dst: rm, src: Operand::Imm(imm) }, q + 4)),
                    Err(e) => Err(e),
                }
            } else {
                Err(unsupported_sub(0xc7, m))
            },
            Err(e) => Err(e),
        },
        Err(e) => Err(e),
    }
}

/// `0xD1 /5`: SHR of a register by one.
pub open spec fn decode_group_d1(mem: Seq<u8>, regs: Seq<u32>, p: int) -> Result<Decoded, FaultKind> {
    match modrm_at(mem, p) {
        Ok(m) => if m.opcode == 5 {
            match rm_operand(mem, regs, m, p + 1, true, false) {
                Ok((rm, q)) => Ok(decoded(Instr::Shr { dst: rm }, q)),
                Err(e) => Err(e),
            }
        } else {
            Err(unsupported_sub(0xd1, m))
        },
        Err(e) => Err(e),
    }
}

/// `0xFF /6`: PUSH of a dword in memory.
pub open spec fn decode_group_ff(mem: Seq<u8>, regs: Seq<u32>, p: int) -> Result<Decoded, FaultKind> {
    match modrm_at(mem, p) {
        Ok(m) => if m.opcode == 6 {
            match rm_operand(mem, regs, m, p + 1, false, true) {
                Ok((rm, q)) => Ok(decoded(Instr::Push { src: rm }, q)),
                Err(e) => Err(e),
            }
        } else {
            Err(unsupported_sub(0xff, m))
        },
        Err(e) => Err(e),
    }
}

// ---------------------------------------------------------------- immediate and plain forms

/// Opcodes followed by a dword and nothing else.
pub open spec fn is_imm32_form(op: u8) -> bool {
    op == 0x05 || op == 0x2d || op == 0xe8 || (0xb8 <= op && op <= 0xbf)
}

/// The instruction of an imm32 form; `next` is the address after it.
pub open spec fn imm32_instr(op: u8, v: u32, next: u32) -> Instr {
    if op == 0x05 {
        Instr::Alu { op: AluOp::Add, dst: Operand::Reg(EAX), src: Operand::Imm(v) }
    } else if op == 0x2d {
        Instr::Alu { op: AluOp::Sub, dst: Operand::Reg(EAX), src: Operand::Imm(v) }
    } else if op == 0xe8 {
        Instr::Call { target: add32(next, v) }
    } else {
        Instr::Mov { dst: Operand::Reg((op - 0xb8) as u32), src: Operand::Imm(v) }
    }
}

/// Opcodes followed by one byte and nothing else.
pub open spec fn is_imm8_form(op: u8) -> bool {
    op == 0x6a || op == 0x74 || op == 0x75 || op == 0x7e || op == 0x7f || op == 0xeb
}

/// The instruction of an imm8 form; `next` is the address after it.
pub open spec fn imm8_instr(op: u8, b: u8, next: u32) -> Instr {
    let target = add32(next, sext8(b));
    if op == 0x6a {
        Instr::Push { src: Operand::Imm(b as u32) }
    } else if op == 0x74 {
        Instr::JumpIf { cond: Cond::Zero, target }
    } else if op == 0x75 {
        Instr::JumpIf { cond: Cond::NotZero, target }
    } else if op == 0x7e {
        Instr::JumpIf { cond: Cond::NotGreater, target }
    } else if op == 0x7f {
        Instr::JumpIf { cond: Cond::Greater, target }
    } else {
        Instr::Jump { target }
    }
}

/// Opcodes with no operand bytes.
pub open spec fn is_plain_form(op: u8) -> bool {
    (0x50 <= op && op <= 0x5f) || op == 0x90 || op == 0xc3 || op == 0xc9
}

pub open spec fn plain_instr(op: u8) -> Instr {
    if op < 0x58 {
        Instr::Push { src: Operand::Reg((op - 0x50) as u32) }
    } else if op <= 0x5f {
        Instr::Pop { reg: (op - 0x58) as u32 }
    } else if op == 0x90 {
        Instr::Nop
    } else if op == 0xc3 {
        Instr::Ret
    } else {
        Instr::Leave
    }
}

// ---------------------------------------------------------------- dispatch

/// The instruction whose opcode `op` has been read; `p` is the position after it.
pub open spec fn decode_opcode(mem: Seq<u8>, regs: Seq<u32>, op: u8, p: int) -> Result<
    Decoded,
    FaultKind,
> {
    if is_modrm_form(op) {
        decode_modrm_form(mem, regs, op, p)
    } else if op == 0x0f {
        decode_escape(mem, p)
    } else if op == 0x81 {
        decode_group81(mem, regs, p)
    } else if op == 0x83 {
        decode_group83(mem, regs, p)
    } else if op == 0xc7 {
        decode_group_c7(mem, regs, p)
    } else if op == 0xd1 {
        decode_group_d1(mem, regs, p)
    } else if op == 0xff {
        decode_group_ff(mem, regs, p)
    } else if is_imm32_form(op) {
        match read32(mem, p) {
            Ok(v) => Ok(decoded(imm32_instr(op, v, (p + 4) as u32), p + 4)),
            Err(e) => Err(e),
        }
    } else if is_imm8_form(op) {
        match read8(mem, p) {
            Ok(b) => Ok(decoded(imm8_instr(op, b, (p + 1) as u32), p + 1)),
            Err(e) => Err(e),
        }
    } else if is_plain_form(op) {
        Ok(decoded(plain_instr(op), p))
    } else {
        Err(FaultKind::UnsupportedOpcode { opcode: op, sub: None })
    }
}

/// The instruction at `eip`.
pub open spec fn decode_at(mem: Seq<u8>, regs: Seq<u32>, eip: u32) -> Result<Decoded, FaultKind> {
    match read8(mem, eip as int) {
        Ok(op) => decode_opcode(mem, regs, op, eip + 1),
        Err(e) => Err(e),
    }
}

} // verus!
