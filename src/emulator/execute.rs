//! Running a decoded instruction.
use vstd::prelude::*;
use super::Emulator;
use crate::instr::{AluOp, Cond, Decoded, FaultKind, Instr, Operand, Status, ESP, EBP};
use crate::machine::{
    read_operand, check_place, write_operand, cond_holds, alu_step, cmp_step, mov_step,
    shr_step, push_step, pop_step, call_step, ret_step, leave_step, execute_spec, follows,
};

verus! {

impl Emulator {
    /// The value of `op`.
    fn read_operand(&self, op: Operand) -> (r: Result<u32, FaultKind>)
        requires
            self.wf(),
            op.wf(),
        ensures
            r == read_operand(self@, op),
    {
        match op {
            Operand::Reg(r) => Ok(self.registers[r as usize]),
            Operand::Mem(a) => self.memory_u32(a),
            Operand::Imm(v) => Ok(v),
        }
    }

    /// Whether `op` can be written.
    fn check_place(&self, op: Operand) -> (r: Result<(), FaultKind>)
        requires
            self.wf(),
        ensures
            r == check_place(self@, op),
    {
        match op {
            Operand::Mem(a) => {
                let i = a as usize;
                if i < self.memory.len() && self.memory.len() - i >= 4 {
                    Ok(())
                } else {
                    Err(FaultKind::OutOfBounds { address: a })
                }
            },
            _ => Ok(()),
        }
    }

    /// Writes `v` to a place that `check_place` accepts.
    fn write_operand(&mut self, op: Operand, v: u32)
        requires
            old(self).wf(),
            op.is_place(),
            check_place(old(self)@, op) is Ok,
        ensures
            final(self).wf(),
            final(self)@ == write_operand(old(self)@, op, v),
    {
        match op {
            Operand::Reg(r) => self.registers.set(r as usize, v),
            Operand::Mem(a) => {
                let _ = self.memory_set32(a, v);
            },
            Operand::Imm(_) => {},
        }
    }

    /// ADD, SUB, AND and XOR: `dst = dst op src`, wrapping, flags untouched.
    fn alu_rm32(&mut self, op: AluOp, dst: Operand, src: Operand) -> (r: Result<Status, FaultKind>)
        requires
            old(self).wf(),
            dst.is_place(),
            src.wf(),
        ensures
            final(self).wf(),
            follows(old(self)@, final(self)@, r, alu_step(old(self)@, op, dst, src)),
    {
        let a = match self.read_operand(dst) {
            Ok(a) => a,
            Err(e) => return Err(e),
        };
        let b = match self.read_operand(src) {
            Ok(b) => b,
            Err(e) => return Err(e),
        };
        let v = match op {
            AluOp::Add => a.wrapping_add(b),
            AluOp::Sub => a.wrapping_sub(b),
            AluOp::And => a & b,
            AluOp::Xor => a ^ b,
        };
        self.write_operand(dst, v);
        Ok(Status::Running)
    }

    /// CMP: the flags of `lhs - rhs`; the operands are not written.
    fn cmp_rm32(&mut self, lhs: Operand, rhs: Operand) -> (r: Result<Status, FaultKind>)
        requires
            old(self).wf(),
            lhs.wf(),
            rhs.wf(),
        ensures
            final(self).wf(),
            follows(old(self)@, final(self)@, r, cmp_step(old(self)@, lhs, rhs)),
    {
        let a = match self.read_operand(lhs) {
            Ok(a) => a,
            Err(e) => return Err(e),
        };
        let b = match self.read_operand(rhs) {
            Ok(b) => b,
            Err(e) => return Err(e),
        };
        self.cmp_u32_u32(a, b);
        Ok(Status::Running)
    }

    /// MOV: `dst = src`.
    fn mov_rm32(&mut self, dst: Operand, src: Operand) -> (r: Result<Status, FaultKind>)
        requires
            old(self).wf(),
            dst.is_place(),
            src.wf(),
        ensures
            final(self).wf(),
            follows(old(self)@, final(self)@, r, mov_step(old(self)@, dst, src)),
    {
        match self.check_place(dst) {
            Ok(()) => {},
            Err(e) => return Err(e),
        }
        let b = match self.read_operand(src) {
            Ok(b) => b,
            Err(e) => return Err(e),
        };
        self.write_operand(dst, b);
        Ok(Status::Running)
    }

    /// SHR by one: a logical shift, flags untouched.
    fn shr_rm32(&mut self, dst: Operand) -> (r: Result<Status, FaultKind>)
        requires
            old(self).wf(),
            dst.is_place(),
        ensures
            final(self).wf(),
            follows(old(self)@, final(self)@, r, shr_step(old(self)@, dst)),
    {
        let a = match self.read_operand(dst) {
            Ok(a) => a,
            Err(e) => return Err(e),
        };
        self.write_operand(dst, a >> 1u32);
        Ok(Status::Running)
    }

    /// PUSH of a register, a dword in memory or a zero-extended byte.
    fn push_rm32(&mut self, src: Operand) -> (r: Result<Status, FaultKind>)
        requires
            old(self).wf(),
            src.wf(),
        ensures
            final(self).wf(),
            follows(old(self)@, final(self)@, r, push_step(old(self)@, src)),
    {
        let v = match self.read_operand(src) {
            Ok(v) => v,
            Err(e) => return Err(e),
        };
        match self.push32(v) {
            Ok(()) => Ok(Status::Running),
            Err(e) => Err(e),
        }
    }

    /// POP into register `reg`.
    fn pop_r32(&mut self, reg: u32) -> (r: Result<Status, FaultKind>)
        requires
            old(self).wf(),
            reg < 8,
        ensures
            final(self).wf(),
            follows(old(self)@, final(self)@, r, pop_step(old(self)@, reg)),
    {
        match self.pop32() {
            Ok(v) => {
                self.registers.set(reg as usize, v);
                Ok(Status::Running)
            },
            Err(e) => Err(e),
        }
    }

    /// CALL: pushes the return address, which EIP holds, and jumps.
    fn call_rel32(&mut self, target: u32) -> (r: Result<Status, FaultKind>)
        requires
            old(self).wf(),
        ensures
            final(self).wf(),
            follows(old(self)@, final(self)@, r, call_step(old(self)@, target)),
    {
        match self.push32(self.eip) {
            Ok(()) => {
                self.eip = target;
                Ok(Status::Running)
            },
            Err(e) => Err(e),
        }
    }

    /// RET: pops the return address; the address 0 halts the machine.
    fn ret(&mut self) -> (r: Result<Status, FaultKind>)
        requires
            old(self).wf(),
        ensures
            final(self).wf(),
            follows(old(self)@, final(self)@, r, ret_step(old(self)@)),
    {
        match self.pop32() {
            Ok(a) => if a == 0 {
                Ok(Status::Halted)
            } else {
                self.eip = a;
                Ok(Status::Running)
            },
            Err(e) => Err(e),
        }
    }

    /// LEAVE: ESP takes the value of EBP, then EBP is popped.
    fn leave(&mut self) -> (r: Result<Status, FaultKind>)
        requires
            old(self).wf(),
        ensures
            final(self).wf(),
            follows(old(self)@, final(self)@, r, leave_step(old(self)@)),
    {
        let bp = self.registers[EBP as usize];
        let v = match self.memory_u32(bp) {
            Ok(v) => v,
            Err(e) => return Err(e),
        };
        let ghost regs = self.registers@;
        self.registers.set(ESP as usize, bp.wrapping_add(4));
        self.registers.set(EBP as usize, v);
        assert(regs.update(ESP as int, bp).update(ESP as int, bp.wrapping_add(4)) =~= regs.update(
            ESP as int,
            bp.wrapping_add(4),
        ));
        Ok(Status::Running)
    }

    /// Whether the condition of a conditional jump holds.
    fn condition(&self, c: Cond) -> (r: bool)
        ensures
            r == cond_holds(self@.eflags, c),
    {
        let zf = self.is_zero();
        let sf_is_of = self.is_sign_flag() == self.is_overflow();
        match c {
            Cond::Zero => zf,
            Cond::NotZero => !zf,
            Cond::Greater => !zf && sf_is_of,
            Cond::NotGreater => zf || !sf_is_of,
        }
    }

    /// Runs the decoded instruction `d`: EIP moves to `d.next`, then the
    /// instruction does its work. On a fault nothing has changed.
    pub fn execute(&mut self, d: Decoded) -> (r: Result<Status, FaultKind>)
        requires
            old(self).wf(),
            d.instr.wf(),
        ensures
            final(self).wf(),
            follows(old(self)@, final(self)@, r, execute_spec(old(self)@, d)),
    {
        let saved = self.eip;
        let jump = match d.instr {
            Instr::Jump { target } => Some(target),
            Instr::JumpIf { cond, target } => if self.condition(cond) {
                Some(target)
            } else {
                None
            },
            _ => None,
        };
        self.eip = d.next;
        let r = match d.instr {
            Instr::Alu { op, dst, src } => self.alu_rm32(op, dst, src),
            Instr::Cmp { lhs, rhs } => self.cmp_rm32(lhs, rhs),
            Instr::Mov { dst, src } => self.mov_rm32(dst, src),
            Instr::Lea { reg, address } => {
                self.registers.set(reg as usize, address);
                Ok(Status::Running)
            },
            Instr::Shr { dst } => self.shr_rm32(dst),
            Instr::Push { src } => self.push_rm32(src),
            Instr::Pop { reg } => self.pop_r32(reg),
            Instr::Call { target } => self.call_rel32(target),
            Instr::Ret => self.ret(),
            Instr::Leave => self.leave(),
            _ => Ok(Status::Running),
        };
        match jump {
            Some(target) => {
                self.eip = target;
            },
            None => {},
        }
        match r {
            Ok(_) => {},
            Err(_) => {
                self.eip = saved;
            },
        }
        r
    }
}

} // verus!
