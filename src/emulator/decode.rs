//! Decoding the instruction at EIP. Decoding reads memory and registers and
//! changes nothing.
use vstd::prelude::*;
use super::Emulator;
use crate::encoding::{
    sext8, displacement, modrm_at, effective_address, rm_operand, decode_modrm_form, decode_escape,
    decode_group81, decode_group83, decode_group_c7, decode_group_d1, decode_group_ff, decode_at,
};
use crate::instr::{AluOp, Cond, Decoded, FaultKind, Instr, Operand, EAX};
use crate::machine::at_pos;
use crate::modrm::{ModRM, Sib};

verus! {

/// `b` read as a signed byte and sign-extended to 32 bits.
pub fn sign_extend8(b: u8) -> (r: u32)
    ensures
        r == sext8(b),
{
    if b < 0x80 {
        b as u32
    } else {
        b as u32 + 0xffff_ff00
    }
}

impl Emulator {
    /// The byte at `at`, sign-extended.
    fn sign_code8(&self, at: u32) -> (r: Result<u32, FaultKind>)
        requires
            self.wf(),
        ensures
            r == displacement(self@.mem, at as int, false),
    {
        match self.memory(at) {
            Ok(b) => Ok(sign_extend8(b)),
            Err(e) => Err(e),
        }
    }

    /// The displacement at `at`: a dword when `wide`, else a sign-extended byte.
    fn read_displacement(&self, at: u32, wide: bool) -> (r: Result<u32, FaultKind>)
        requires
            self.wf(),
        ensures
            r == displacement(self@.mem, at as int, wide),
    {
        if wide {
            self.memory_u32(at)
        } else {
            self.sign_code8(at)
        }
    }

    /// The ModRM byte at `at`.
    pub fn read_modrm(&self, at: u32) -> (r: Result<ModRM, FaultKind>)
        requires
            self.wf(),
        ensures
            r == modrm_at(self@.mem, at as int),
            r is Ok ==> r->Ok_0.wf() && at < self@.mem.len(),
    {
        match self.memory(at) {
            Ok(b) => Ok(ModRM::new(b as u32)),
            Err(e) => Err(e),
        }
    }

    /// The memory address that `m` names and the position after its bytes;
    /// `at` is the position after the ModRM byte.
    pub fn read_effective_address_from_modrm(&self, m: ModRM, at: u32) -> (r: Result<
        (u32, u32),
        FaultKind,
    >)
        requires
            self.wf(),
            m.wf(),
        ensures
            at_pos(r, effective_address(self@.mem, self@.regs, m, at as int), self@.mem.len()),
    {
        if m.mode == 1 || m.mode == 2 {
            let wide = m.mode == 2;
            let width: u32 = if wide {
                4
            } else {
                1
            };
            if m.rm == 4 {
                let b = match self.memory(at) {
                    Ok(b) => b,
                    Err(e) => return Err(e),
                };
                let sib = Sib::new(b);
                let d = match self.read_displacement(at + 1, wide) {
                    Ok(d) => d,
                    Err(e) => return Err(e),
                };
                if sib.scale == 0 && sib.index == 4 {
                    Ok((self.registers[sib.base as usize].wrapping_add(d), at + 1 + width))
                } else {
                    Err(FaultKind::UnsupportedAddressingMode { byte: b })
                }
            } else {
                let d = match self.read_displacement(at, wide) {
                    Ok(d) => d,
                    Err(e) => return Err(e),
                };
                Ok((self.registers[m.rm as usize].wrapping_add(d), at + width))
            }
        } else {
            Err(FaultKind::UnsupportedAddressingMode { byte: m.code() })
        }
    }

    /// The register/memory operand that `m` names, where the form allows it.
    fn read_rm_operand(&self, m: ModRM, at: u32, reg_ok: bool, mem_ok: bool) -> (r: Result<
        (Operand, u32),
        FaultKind,
    >)
        requires
            self.wf(),
            m.wf(),
            at <= self@.mem.len(),
        ensures
            at_pos(r, rm_operand(self@.mem, self@.regs, m, at as int, reg_ok, mem_ok), self@.mem.len()),
            r is Ok ==> r->Ok_0.0.is_place(),
    {
        if m.mode == 3 && reg_ok {
            Ok((Operand::Reg(m.rm), at))
        } else if m.mode != 3 && mem_ok {
            match self.read_effective_address_from_modrm(m, at) {
                Ok((a, q)) => Ok((Operand::Mem(a), q)),
                Err(e) => Err(e),
            }
        } else {
            Err(FaultKind::UnsupportedAddressingMode { byte: m.code() })
        }
    }

    /// A one-byte opcode whose operands are all given by a ModRM byte at `at`.
    fn decode_modrm_form(&self, op: u8, at: u32) -> (r: Result<Decoded, FaultKind>)
        requires
            self.wf(),
        ensures
            r == decode_modrm_form(self@.mem, self@.regs, op, at as int),
            r is Ok ==> r->Ok_0.instr.wf(),
    {
        let m = match self.read_modrm(at) {
            Ok(m) => m,
            Err(e) => return Err(e),
        };
        let reg_ok = op == 0x01 || op == 0x29 || op == 0x31 || op == 0x89;
        let mem_ok = op != 0x29 && op != 0x31;
        let (rm, q) = match self.read_rm_operand(m, at + 1, reg_ok, mem_ok) {
            Ok(x) => x,
            Err(e) => return Err(e),
        };
        let reg = Operand::Reg(m.reg);
        let instr = if op == 0x01 {
            Instr::Alu { op: AluOp::Add, dst: rm, src: reg }
        } else if op == 0x03 {
            Instr::Alu { op: AluOp::Add, dst: reg, src: rm }
        } else if op == 0x29 {
            Instr::Alu { op: AluOp::Sub, dst: rm, src: reg }
        } else if op == 0x2b {
            Instr::Alu { op: AluOp::Sub, dst: reg, src: rm }
        } else if op == 0x31 {
            Instr::Alu { op: AluOp::Xor, dst: rm, src: reg }
        } else if op == 0x3b {
            Instr::Cmp { lhs: reg, rhs: rm }
        } else if op == 0x89 {
            Instr::Mov { dst: rm, src: reg }
        } else if op == 0x8b {
            Instr::Mov { dst: reg, src: rm }
        } else {
            let address = match rm {
                Operand::Mem(a) => a,
                _ => 0,
            };
            Instr::Lea { reg: m.reg, address }
        };
        Ok(Decoded { instr, next: q })
    }

    /// The two-byte escape `0x0F`: JZ and JNZ with a dword displacement.
    fn opcode0f(&self, at: u32) -> (r: Result<Decoded, FaultKind>)
        requires
            self.wf(),
        ensures
            r == decode_escape(self@.mem, at as int),
            r is Ok ==> r->Ok_0.instr.wf(),
    {
        let b = match self.memory(at) {
            Ok(b) => b,
            Err(e) => return Err(e),
        };
        if b == 0x84 || b == 0x85 {
            let d = match self.memory_u32(at + 1) {
                Ok(d) => d,
                Err(e) => return Err(e),
            };
            let next = at + 5;
            let cond = if b == 0x84 {
                Cond::Zero
            } else {
                Cond::NotZero
            };
            Ok(Decoded { instr: Instr::JumpIf { cond, target: next.wrapping_add(d) }, next })
        } else {
            Err(FaultKind::UnsupportedOpcode { opcode: 0x0f, sub: Some(b) })
        }
    }

    /// Group `0x81`: ADD and SUB of a dword to a register.
    fn opcode81(&self, at: u32) -> (r: Result<Decoded, FaultKind>)
        requires
            self.wf(),
        ensures
            r == decode_group81(self@.mem, self@.regs, at as int),
            r is Ok ==> r->Ok_0.instr.wf(),
    {
        let m = match self.read_modrm(at) {
            Ok(m) => m,
            Err(e) => return Err(e),
        };
        if m.opcode == 0 || m.opcode == 5 {
            let (rm, q) = match self.read_rm_operand(m, at + 1, true, false) {
                Ok(x) => x,
                Err(e) => return Err(e),
            };
            let imm = match self.memory_u32(q) {
                Ok(v) => v,
                Err(e) => return Err(e),
            };
            let op = if m.opcode == 0 {
                AluOp::Add
            } else {
                AluOp::Sub
            };
            Ok(Decoded { instr: Instr::Alu { op, dst: rm, src: Operand::Imm(imm) }, next: q + 4 })
        } else {
            Err(FaultKind::UnsupportedOpcode { opcode: 0x81, sub: Some(m.opcode as u8) })
        }
    }

    /// Group `0x83`: ADD, AND, SUB and CMP with a sign-extended byte.
    fn opcode83(&self, at: u32) -> (r: Result<Decoded, FaultKind>)
        requires
            self.wf(),
        ensures
            r == decode_group83(self@.mem, self@.regs, at as int),
            r is Ok ==> r->Ok_0.instr.wf(),
    {
        let m = match self.read_modrm(at) {
            Ok(m) => m,
            Err(e) => return Err(e),
        };
        if m.opcode == 0 || m.opcode == 4 || m.opcode == 5 || m.opcode == 7 {
            let (rm, q) = match self.read_rm_operand(m, at + 1, true, m.opcode != 4) {
                Ok(x) => x,
                Err(e) => return Err(e),
            };
            let imm = match self.sign_code8(q) {
                Ok(v) => Operand::Imm(v),
                Err(e) => return Err(e),
            };
            let instr = if m.opcode == 0 {
                Instr::Alu { op: AluOp::Add, dst: rm, src: imm }
            } else if m.opcode == 4 {
                Instr::Alu { op: AluOp::And, dst: rm, src: imm }
            } else if m.opcode == 5 {
                Instr::Alu { op: AluOp::Sub, dst: rm, src: imm }
            } else {
                Instr::Cmp { lhs: rm, rhs: imm }
            };
            Ok(Decoded { instr, next: q + 1 })
        } else {
            Err(FaultKind::UnsupportedOpcode { opcode: 0x83, sub: Some(m.opcode as u8) })
        }
    }

    /// `0xC7`: MOV of a dword to memory.
    fn opcodec7(&self, at: u32) -> (r: Result<Decoded, FaultKind>)
        requires
            self.wf(),
        ensures
            r == decode_group_c7(self@.mem, self@.regs, at as int),
            r is Ok ==> r->Ok_0.instr.wf(),
    {
        let m = match self.read_modrm(at) {
            Ok(m) => m,
            Err(e) => return Err(e),
        };
        let (rm, q) = match self.read_rm_operand(m, at + 1, false, true) {
            Ok(x) => x,
            Err(e) => return Err(e),
        };
        if m.opcode == 0 {
            let imm = match self.memory_u32(q) {
                Ok(v) => v,
                Err(e) => return Err(e),
            };
            Ok(Decoded { instr: Instr::Mov { dst: rm, src: Operand::Imm(imm) }, next: q + 4 })
        } else {
            Err(FaultKind::UnsupportedOpcode { opcode: 0xc7, sub: Some(m.opcode as u8) })
        }
    }

    /// Group `0xD1`: SHR of a register by one.
    fn opcoded1(&self, at: u32) -> (r: Result<Decoded, FaultKind>)
        requires
            self.wf(),
        ensures
            r == decode_group_d1(self@.mem, self@.regs, at as int),
            r is Ok ==> r->Ok_0.instr.wf(),
    {
        let m = match self.read_modrm(at) {
            Ok(m) => m,
            Err(e) => return Err(e),
        };
        if m.opcode == 5 {
            match self.read_rm_operand(m, at + 1, true, false) {
                Ok((rm, q)) => Ok(Decoded { instr: Instr::Shr { dst: rm }, next: q }),
                Err(e) => Err(e),
            }
        } else {
            Err(FaultKind::UnsupportedOpcode { opcode: 0xd1, sub: Some(m.opcode as u8) })
        }
    }

    /// Group `0xFF`: PUSH of a dword in memory.
    fn opcodeff(&self, at: u32) -> (r: Result<Decoded, FaultKind>)
        requires
            self.wf(),
        ensures
            r == decode_group_ff(self@.mem, self@.regs, at as int),
            r is Ok ==> r->Ok_0.instr.wf(),
    {
        let m = match self.read_modrm(at) {
            Ok(m) => m,
            Err(e) => return Err(e),
        };
        if m.opcode == 6 {
            match self.read_rm_operand(m, at + 1, false, true) {
                Ok((rm, q)) => Ok(Decoded { instr: Instr::Push { src: rm }, next: q }),
                Err(e) => Err(e),
            }
        } else {
            Err(FaultKind::UnsupportedOpcode { opcode: 0xff, sub: Some(m.opcode as u8) })
        }
    }

    /// The instruction at EIP, with the address of the byte after it.
    pub fn decode(&self) -> (r: Result<Decoded, FaultKind>)
        requires
            self.wf(),
        ensures
            r == decode_at(self@.mem, self@.regs, self@.eip),
            r is Ok ==> r->Ok_0.instr.wf(),
    {
        let op = match self.memory(self.eip) {
            Ok(b) => b,
            Err(e) => return Err(e),
        };
        let at = self.eip + 1;
        if op == 0x01 || op == 0x03 || op == 0x29 || op == 0x2b || op == 0x31 || op == 0x3b || op
            == 0x89 || op == 0x8b || op == 0x8d {
            self.decode_modrm_form(op, at)
        } else if op == 0x0f {
            self.opcode0f(at)
        } else if op == 0x81 {
            self.opcode81(at)
        } else if op == 0x83 {
            self.opcode83(at)
        } else if op == 0xc7 {
            self.opcodec7(at)
        } else if op == 0xd1 {
            self.opcoded1(at)
        } else if op == 0xff {
            self.opcodeff(at)
        } else if op == 0x05 || op == 0x2d || op == 0xe8 || (0xb8 <= op && op <= 0xbf) {
            let v = match self.memory_u32(at) {
                Ok(v) => v,
                Err(e) => return Err(e),
            };
            let next = at + 4;
            let instr = if op == 0x05 {
                Instr::Alu { op: AluOp::Add, dst: Operand::Reg(EAX), src: Operand::Imm(v) }
            } else if op == 0x2d {
                Instr::Alu { op: AluOp::Sub, dst: Operand::Reg(EAX), src: Operand::Imm(v) }
            } else if op == 0xe8 {
                Instr::Call { target: next.wrapping_add(v) }
            } else {
                Instr::Mov { dst: Operand::Reg((op - 0xb8) as u32), src: Operand::Imm(v) }
            };
            Ok(Decoded { instr, next })
        } else if op == 0x6a || op == 0x74 || op == 0x75 || op == 0x7e || op == 0x7f || op == 0xeb {
            let b = match self.memory(at) {
                Ok(b) => b,
                Err(e) => return Err(e),
            };
            let next = at + 1;
            let target = next.wrapping_add(sign_extend8(b));
            let instr = if op == 0x6a {
                Instr::Push { src: Operand::Imm(b as u32) }
            } else if op == 0x74 {
                Instr::JumpIf { cond: Cond::Zero, target }
            } else if op == 0x75 {
                Instr::JumpIf { cond: Cond::NotZero, target }
            } else if op == 0x7e {
                Instr::JumpIf { cond: Cond::NotGreater, target }
            } else if op == 0x7f {
                Instr::JumpIf { cond: Cond::Greater, target }
            } else {
                Instr::Jump { target }
            };
            Ok(Decoded { instr, next })
        } else if (0x50 <= op && op <= 0x5f) || op == 0x90 || op == 0xc3 || op == 0xc9 {
            let instr = if op < 0x58 {
                Instr::Push { src: Operand::Reg((op - 0x50) as u32) }
            } else if op <= 0x5f {
                Instr::Pop { reg: (op - 0x58) as u32 }
            } else if op == 0x90 {
                Instr::Nop
            } else if op == 0xc3 {
                Instr::Ret
            } else {
                Instr::Leave
            };
            Ok(Decoded { instr, next: at })
        } else {
            Err(FaultKind::UnsupportedOpcode { opcode: op, sub: None })
        }
    }
}

} // verus!
