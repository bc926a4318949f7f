//! Properties of the machine model that relate several operations.
use vstd::prelude::*;
use crate::flags::{add32, sub32};
use crate::instr::{Fault, Status, ESP};
use crate::machine::{Machine, le32, write32, push_spec, pop_spec, step_spec, in_bounds};

verus! {

/// A dword stored little-endian reads back as the same dword.
pub proof fn lemma_write_read32(mem: Seq<u8>, a: int, v: u32)
    requires
        in_bounds(mem, a, 4),
    ensures
        le32(write32(mem, a, v), a) == v,
        write32(mem, a, v).len() == mem.len(),
{
    let w = write32(mem, a, v);
    assert(w[a] == v % 0x100);
    assert(w[a + 1] == v / 0x100 % 0x100);
    assert(w[a + 2] == v / 0x1_0000 % 0x100);
    assert(w[a + 3] == v / 0x100_0000);
    assert(v % 0x100 + (v / 0x100 % 0x100) * 0x100 + (v / 0x1_0000 % 0x100) * 0x1_0000 + (v
        / 0x100_0000) * 0x100_0000 == v) by (bit_vector);
}

/// Pushing a dword and popping at once gives back that dword, and the
/// registers, ESP among them, are as they were before the push.
pub proof fn lemma_push_pop_round_trip(s: Machine, v: u32)
    requires
        s.wf(),
        push_spec(s, v) is Ok,
    ensures
        pop_spec(push_spec(s, v)->Ok_0) is Ok,
        pop_spec(push_spec(s, v)->Ok_0)->Ok_0.1 == v,
        pop_spec(push_spec(s, v)->Ok_0)->Ok_0.0.regs == s.regs,
        pop_spec(push_spec(s, v)->Ok_0)->Ok_0.0.esp() == s.esp(),
        pop_spec(push_spec(s, v)->Ok_0)->Ok_0.0.eip == s.eip,
        pop_spec(push_spec(s, v)->Ok_0)->Ok_0.0.eflags == s.eflags,
{
    let sp = sub32(s.esp(), 4);
    lemma_write_read32(s.mem, sp as int, v);
    let pushed = push_spec(s, v)->Ok_0;
    assert(pushed.esp() == sp);
    assert(add32(sp, 4) == s.esp());
    assert(pushed.regs.update(ESP as int, s.esp()) =~= s.regs);
}

/// NOP changes no register, flag or byte of memory, and moves EIP on by one.
pub proof fn lemma_nop(s: Machine)
    requires
        s.wf(),
        0 <= s.eip < s.mem.len(),
        s.mem[s.eip as int] == 0x90,
    ensures
        step_spec(s) == Ok::<(Machine, Status), Fault>(
            (s.with_eip((s.eip + 1) as u32), Status::Running),
        ),
        step_spec(s)->Ok_0.0.regs == s.regs,
        step_spec(s)->Ok_0.0.mem == s.mem,
        step_spec(s)->Ok_0.0.eflags == s.eflags,
        step_spec(s)->Ok_0.0.eip == s.eip + 1,
{
    reveal(step_spec);
}

} // verus!
