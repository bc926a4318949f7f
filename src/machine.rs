//! The machine as a mathematical object: its state, its memory reads and
//! writes, the decoding of an instruction from the bytes at EIP, and what each
//! instruction does. The executable emulator is proved to follow this model.
use vstd::prelude::*;
use crate::flags::{add32, sub32, compare_flags, flag_set, ZERO_MASK, SIGN_MASK, OVERFLOW_MASK};
use crate::instr::{AluOp, Cond, Decoded, Fault, FaultKind, Instr, Operand, Status, ESP, EBP};
use crate::encoding::decode_at;

verus! {

/// The whole state of the machine: memory, the eight registers, the
/// instruction pointer and the flags word.
pub struct Machine {
    pub mem: Seq<u8>,
    pub regs: Seq<u32>,
    pub eip: u32,
    pub eflags: u32,
}

impl Machine {
    /// Eight registers, and every memory address fits in 32 bits.
    pub open spec fn wf(self) -> bool {
        self.regs.len() == 8 && self.mem.len() <= u32::MAX
    }

    pub open spec fn esp(self) -> u32 {
        self.regs[ESP as int]
    }

    pub open spec fn with_eip(self, eip: u32) -> Machine {
        Machine { eip, ..self }
    }

    pub open spec fn with_reg(self, r: u32, v: u32) -> Machine {
        Machine { regs: self.regs.update(r as int, v), ..self }
    }

    pub open spec fn with_eflags(self, eflags: u32) -> Machine {
        Machine { eflags, ..self }
    }

    pub open spec fn with_mem32(self, address: u32, v: u32) -> Machine {
        Machine { mem: write32(self.mem, address as int, v), ..self }
    }
}

// ---------------------------------------------------------------- memory

pub open spec fn in_bounds(mem: Seq<u8>, address: int, width: int) -> bool {
    0 <= address && address + width <= mem.len()
}

/// The little-endian dword whose lowest byte is at `a`.
pub open spec fn le32(mem: Seq<u8>, a: int) -> u32 {
    (mem[a] + mem[a + 1] * 0x100 + mem[a + 2] * 0x1_0000 + mem[a + 3] * 0x100_0000) as u32
}

/// Memory with the four bytes of `v` stored little-endian from `a` on.
pub open spec fn write32(mem: Seq<u8>, a: int, v: u32) -> Seq<u8> {
    mem.update(a, (v % 0x100) as u8).update(a + 1, (v / 0x100 % 0x100) as u8).update(
        a + 2,
        (v / 0x1_0000 % 0x100) as u8,
    ).update(a + 3, (v / 0x100_0000) as u8)
}

/// The byte at `p`, or the fault of reading it.
pub open spec fn read8(mem: Seq<u8>, p: int) -> Result<u8, FaultKind> {
    if in_bounds(mem, p, 1) {
        Ok(mem[p])
    } else {
        Err(FaultKind::OutOfBounds { address: p as u32 })
    }
}

/// The dword at `p`, or the fault of reading it.
pub open spec fn read32(mem: Seq<u8>, p: int) -> Result<u32, FaultKind> {
    if in_bounds(mem, p, 4) {
        Ok(le32(mem, p))
    } else {
        Err(FaultKind::OutOfBounds { address: p as u32 })
    }
}

/// The state after storing `v` at `a`, or the fault of that store.
pub open spec fn store8_spec(s: Machine, a: u32, v: u8) -> Result<Machine, FaultKind> {
    if in_bounds(s.mem, a as int, 1) {
        Ok(Machine { mem: s.mem.update(a as int, v), ..s })
    } else {
        Err(FaultKind::OutOfBounds { address: a })
    }
}

/// The state after storing the dword `v` at `a`, or the fault of that store.
pub open spec fn store32_spec(s: Machine, a: u32, v: u32) -> Result<Machine, FaultKind> {
    if in_bounds(s.mem, a as int, 4) {
        Ok(s.with_mem32(a, v))
    } else {
        Err(FaultKind::OutOfBounds { address: a })
    }
}

/// The state with `image` copied to the start of memory.
pub open spec fn loaded(s: Machine, image: Seq<u8>) -> Machine {
    Machine { mem: image + s.mem.subrange(image.len() as int, s.mem.len() as int), ..s }
}

/// An operation that went from `old` to `new` and returned `r` did what `spec`
/// says: on success the state and value it gives, on a fault that fault with
/// the state unchanged.
pub open spec fn follows<T, E>(
    old: Machine,
    new: Machine,
    r: Result<T, E>,
    spec: Result<(Machine, T), E>,
) -> bool {
    match spec {
        Ok((m, v)) => r == Ok::<T, E>(v) && new == m,
        Err(e) => r == Err::<T, E>(e) && new == old,
    }
}

/// As `follows`, for an operation that returns no value.
pub open spec fn follows_unit(
    old: Machine,
    new: Machine,
    r: Result<(), FaultKind>,
    spec: Result<Machine, FaultKind>,
) -> bool {
    match spec {
        Ok(m) => r is Ok && new == m,
        Err(e) => r == Err::<(), FaultKind>(e) && new == old,
    }
}

/// A decoding result `r` that gives its position as a `u32` matches `s`, which
/// gives it as an integer no greater than `len`.
pub open spec fn at_pos<T>(r: Result<(T, u32), FaultKind>, s: Result<(T, int), FaultKind>, len: nat) -> bool {
    match s {
        Ok((v, q)) => 0 <= q <= len && r == Ok::<(T, u32), FaultKind>((v, q as u32)),
        Err(e) => r == Err::<(T, u32), FaultKind>(e),
    }
}

// ---------------------------------------------------------------- stack

/// ESP goes down by four and `v` is stored at the new ESP.
pub open spec fn push_spec(s: Machine, v: u32) -> Result<Machine, FaultKind> {
    let sp = sub32(s.esp(), 4);
    if in_bounds(s.mem, sp as int, 4) {
        Ok(s.with_mem32(sp, v).with_reg(ESP, sp))
    } else {
        Err(FaultKind::OutOfBounds { address: sp })
    }
}

/// The dword at ESP is read and ESP goes up by four.
pub open spec fn pop_spec(s: Machine) -> Result<(Machine, u32), FaultKind> {
    match read32(s.mem, s.esp() as int) {
        Ok(v) => Ok((s.with_reg(ESP, add32(s.esp(), 4)), v)),
        Err(e) => Err(e),
    }
}

// ---------------------------------------------------------------- operands

pub open spec fn read_operand(s: Machine, op: Operand) -> Result<u32, FaultKind> {
    match op {
        Operand::Reg(r) => Ok(s.regs[r as int]),
        Operand::Mem(a) => read32(s.mem, a as int),
        Operand::Imm(v) => Ok(v),
    }
}

/// Whether `op` can be written without leaving memory.
pub open spec fn check_place(s: Machine, op: Operand) -> Result<(), FaultKind> {
    match op {
        Operand::Mem(a) => if in_bounds(s.mem, a as int, 4) {
            Ok(())
        } else {
            Err(FaultKind::OutOfBounds { address: a })
        },
        _ => Ok(()),
    }
}

pub open spec fn write_operand(s: Machine, op: Operand, v: u32) -> Machine {
    match op {
        Operand::Reg(r) => s.with_reg(r, v),
        Operand::Mem(a) => s.with_mem32(a, v),
        Operand::Imm(_) => s,
    }
}

pub open spec fn alu(op: AluOp, a: u32, b: u32) -> u32 {
    match op {
        AluOp::Add => add32(a, b),
        AluOp::Sub => sub32(a, b),
        AluOp::And => a & b,
        AluOp::Xor => a ^ b,
    }
}

pub open spec fn cond_holds(eflags: u32, c: Cond) -> bool {
    let zf = flag_set(eflags, ZERO_MASK);
    let sf_is_of = flag_set(eflags, SIGN_MASK) == flag_set(eflags, OVERFLOW_MASK);
    match c {
        Cond::Zero => zf,
        Cond::NotZero => !zf,
        Cond::Greater => !zf && sf_is_of,
        Cond::NotGreater => zf || !sf_is_of,
    }
}

// ---------------------------------------------------------------- execution

/// `dst = dst op src`.
pub open spec fn alu_step(s: Machine, op: AluOp, dst: Operand, src: Operand) -> Result<
    (Machine, Status),
    FaultKind,
> {
    match (read_operand(s, dst), read_operand(s, src)) {
        (Ok(a), Ok(b)) => Ok((write_operand(s, dst, alu(op, a, b)), Status::Running)),
        (Err(e), _) => Err(e),
        (_, Err(e)) => Err(e),
    }
}

/// The flags from comparing `lhs` with `rhs`, whose signed reading is its bits
/// as an `i32`.
pub open spec fn cmp_step(s: Machine, lhs: Operand, rhs: Operand) -> Result<
    (Machine, Status),
    FaultKind,
> {
    match (read_operand(s, lhs), read_operand(s, rhs)) {
        (Ok(a), Ok(b)) => Ok(
            (s.with_eflags(compare_flags(s.eflags, a, b, b as i32)), Status::Running),
        ),
        (Err(e), _) => Err(e),
        (_, Err(e)) => Err(e),
    }
}

/// `dst = src`.
pub open spec fn mov_step(s: Machine, dst: Operand, src: Operand) -> Result<
    (Machine, Status),
    FaultKind,
> {
    match (check_place(s, dst), read_operand(s, src)) {
        (Ok(_), Ok(b)) => Ok((write_operand(s, dst, b), Status::Running)),
        (Err(e), _) => Err(e),
        (_, Err(e)) => Err(e),
    }
}

/// Logical right shift of `dst` by one.
pub open spec fn shr_step(s: Machine, dst: Operand) -> Result<(Machine, Status), FaultKind> {
    match read_operand(s, dst) {
        Ok(a) => Ok((write_operand(s, dst, a >> 1u32), Status::Running)),
        Err(e) => Err(e),
    }
}

/// Pushes the value of `src`.
pub open spec fn push_step(s: Machine, src: Operand) -> Result<(Machine, Status), FaultKind> {
    match read_operand(s, src) {
        Ok(v) => match push_spec(s, v) {
            Ok(m) => Ok((m, Status::Running)),
            Err(e) => Err(e),
        },
        Err(e) => Err(e),
    }
}

/// Pops into register `reg`.
pub open spec fn pop_step(s: Machine, reg: u32) -> Result<(Machine, Status), FaultKind> {
    match pop_spec(s) {
        Ok((m, v)) => Ok((m.with_reg(reg, v), Status::Running)),
        Err(e) => Err(e),
    }
}

/// Pushes EIP, the return address, and jumps to `target`.
pub open spec fn call_step(s: Machine, target: u32) -> Result<(Machine, Status), FaultKind> {
    match push_spec(s, s.eip) {
        Ok(m) => Ok((m.with_eip(target), Status::Running)),
        Err(e) => Err(e),
    }
}

/// Pops an address: 0 halts the machine, any other is jumped to.
pub open spec fn ret_step(s: Machine) -> Result<(Machine, Status), FaultKind> {
    match pop_spec(s) {
        Ok((m, a)) => if a == 0 {
            Ok((m, Status::Halted))
        } else {
            Ok((m.with_eip(a), Status::Running))
        },
        Err(e) => Err(e),
    }
}

/// ESP takes the value of EBP, then EBP is popped.
pub open spec fn leave_step(s: Machine) -> Result<(Machine, Status), FaultKind> {
    match pop_spec(s.with_reg(ESP, s.regs[EBP as int])) {
        Ok((m, v)) => Ok((m.with_reg(EBP, v), Status::Running)),
        Err(e) => Err(e),
    }
}

/// What running the decoded instruction `d` does to `s`. EIP first moves past
/// the instruction; a fault leaves the state as it was.
pub open spec fn execute_spec(s: Machine, d: Decoded) -> Result<(Machine, Status), FaultKind> {
    let t = s.with_eip(d.next);
    match d.instr {
        Instr::Alu { op, dst, src } => alu_step(t, op, dst, src),
        Instr::Cmp { lhs, rhs } => cmp_step(t, lhs, rhs),
        Instr::Mov { dst, src } => mov_step(t, dst, src),
        Instr::Lea { reg, address } => Ok((t.with_reg(reg, address), Status::Running)),
        Instr::Shr { dst } => shr_step(t, dst),
        Instr::Push { src } => push_step(t, src),
        Instr::Pop { reg } => pop_step(t, reg),
        Instr::Jump { target } => Ok((s.with_eip(target), Status::Running)),
        Instr::JumpIf { cond, target } => Ok(
            (if cond_holds(s.eflags, cond) { s.with_eip(target) } else { t }, Status::Running),
        ),
        Instr::Call { target } => call_step(t, target),
        Instr::Ret => ret_step(t),
        Instr::Leave => leave_step(t),
        Instr::Nop => Ok((t, Status::Running)),
    }
}

} // verus!

verus! {

// ---------------------------------------------------------------- steps and runs

/// One step: decode the instruction at EIP and run it. A fault names the
/// instruction's address, and the state stays as it was.
#[verifier::opaque]
pub open spec fn step_spec(s: Machine) -> Result<(Machine, Status), Fault> {
    match decode_at(s.mem, s.regs, s.eip) {
        Ok(d) => match execute_spec(s, d) {
            Ok(r) => Ok(r),
            Err(k) => Err(Fault { eip: s.eip, kind: k }),
        },
        Err(k) => Err(Fault { eip: s.eip, kind: k }),
    }
}

/// At most `fuel` steps from `s`, stopping at a halt or a fault: the state at
/// the end, and `Running` if the steps ran out first.
pub open spec fn run_spec(s: Machine, fuel: nat) -> (Machine, Result<Status, Fault>)
    decreases fuel,
{
    if fuel == 0 {
        (s, Ok(Status::Running))
    } else {
        match step_spec(s) {
            Ok((t, Status::Running)) => run_spec(t, (fuel - 1) as nat),
            Ok((t, Status::Halted)) => (t, Ok(Status::Halted)),
            Err(f) => (s, Err(f)),
        }
    }
}

} // verus!
