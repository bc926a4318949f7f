//! The executable emulator: memory, registers, flags and EIP, and the
//! operations on them, each proved against the model in `machine`.
use vstd::prelude::*;
use crate::flags::{
    sub32, compare_flags, flag_set, lemma_four_flags, CARRY_MASK, ZERO_MASK, SIGN_MASK,
    OVERFLOW_MASK, DEFINED_FLAGS, top_bit, sub_overflows,
};
use crate::instr::{Fault, FaultKind, Status, ESP};
use crate::machine::{
    Machine, read8, read32, push_spec, pop_spec, store8_spec, store32_spec, loaded, follows,
    follows_unit, step_spec, run_spec,
};

mod decode;
mod execute;

verus! {

/// The default size of memory: 1 MiB.
pub const MEMORY_SIZE: u32 = 1024 * 1024;

/// A machine: memory, eight general-purpose registers, the flags word and the
/// instruction pointer.
pub struct Emulator {
    memory: Vec<u8>,
    eip: u32,
    registers: Vec<u32>,
    eflags: u32,
}

impl View for Emulator {
    type V = Machine;

    closed spec fn view(&self) -> Machine {
        Machine {
            mem: self.memory@,
            regs: self.registers@,
            eip: self.eip,
            eflags: self.eflags,
        }
    }
}

/// Returned by `load` when the image does not fit in memory.
#[derive(Clone, Copy, Debug, PartialEq, Eq)]
pub struct ImageTooLarge {
    pub size: usize,
    pub capacity: usize,
}

impl Emulator {
    pub open spec fn wf(&self) -> bool {
        self@.wf()
    }

    /// A machine with `mem_size` bytes of zeroed memory, registers at zero but
    /// ESP, which points four bytes below the end of memory, EIP at 0 and the
    /// flags clear.
    pub fn new(mem_size: u32) -> (r: Emulator)
        requires
            mem_size >= 4,
        ensures
            r.wf(),
            r@.mem == Seq::new(mem_size as nat, |i: int| 0u8),
            r@.regs == seq![0u32, 0, 0, 0, (mem_size - 4) as u32, 0, 0, 0],
            r@.eip == 0,
            r@.eflags == 0,
    {
        let mut memory: Vec<u8> = Vec::new();
        let mut i: u32 = 0;
        while i < mem_size
            invariant
                i <= mem_size,
                memory@ == Seq::new(i as nat, |j: int| 0u8),
            decreases mem_size - i,
        {
            memory.push(0);
            i = i + 1;
        }
        let registers: Vec<u32> = vec![0, 0, 0, 0, mem_size - 4, 0, 0, 0];
        Emulator { memory, eip: 0, registers, eflags: 0 }
    }

    /// Copies `image` into memory from address 0 on; the rest of memory keeps
    /// its bytes. An image longer than memory is refused and nothing changes.
    pub fn load(&mut self, image: &[u8]) -> (r: Result<(), ImageTooLarge>)
        requires
            old(self).wf(),
        ensures
            final(self).wf(),
            image@.len() <= old(self)@.mem.len() ==> r is Ok && final(self)@ == loaded(
                old(self)@,
                image@,
            ),
            image@.len() > old(self)@.mem.len() ==> final(self)@ == old(self)@ && r == (Err::<
                (),
                ImageTooLarge,
            >(ImageTooLarge { size: image@.len() as usize, capacity: old(self)@.mem.len() as usize })),
    {
        if image.len() > self.memory.len() {
            return Err(ImageTooLarge { size: image.len(), capacity: self.memory.len() });
        }
        let ghost before = self.memory@;
        let ghost s0 = self@;
        let mut i: usize = 0;
        while i < image.len()
            invariant
                image@.len() <= before.len(),
                i <= image@.len(),
                self.memory@.len() == before.len(),
                forall|j: int| 0 <= j < i ==> self.memory@[j] == image@[j],
                forall|j: int| i <= j < before.len() ==> self.memory@[j] == before[j],
                self.registers@ == s0.regs,
                self.eip == s0.eip,
                self.eflags == s0.eflags,
            decreases image@.len() - i,
        {
            self.memory.set(i, image[i]);
            i = i + 1;
        }
        assert(self.memory@ =~= image@ + before.subrange(image@.len() as int, before.len() as int));
        Ok(())
    }

    /// Size of memory in bytes.
    pub fn memory_size(&self) -> (r: usize)
        ensures
            r == self@.mem.len(),
    {
        self.memory.len()
    }

    pub fn eip(&self) -> (r: u32)
        ensures
            r == self@.eip,
    {
        self.eip
    }

    pub fn eflags(&self) -> (r: u32)
        ensures
            r == self@.eflags,
    {
        self.eflags
    }

    /// Replaces the whole flags word.
    pub fn set_eflags(&mut self, value: u32)
        requires
            old(self).wf(),
        ensures
            final(self).wf(),
            final(self)@ == old(self)@.with_eflags(value),
    {
        self.eflags = value;
    }

    /// The register in slot `index` (EAX, ECX, EDX, EBX, ESP, EBP, ESI, EDI).
    pub fn register(&self, index: u32) -> (r: u32)
        requires
            self.wf(),
            index < 8,
        ensures
            r == self@.regs[index as int],
    {
        self.registers[index as usize]
    }

    /// The byte at `address`.
    pub fn memory(&self, address: u32) -> (r: Result<u8, FaultKind>)
        requires
            self.wf(),
        ensures
            r == read8(self@.mem, address as int),
    {
        if (address as usize) < self.memory.len() {
            Ok(self.memory[address as usize])
        } else {
            Err(FaultKind::OutOfBounds { address })
        }
    }

    /// The little-endian dword at `address`.
    pub fn memory_u32(&self, address: u32) -> (r: Result<u32, FaultKind>)
        requires
            self.wf(),
        ensures
            r == read32(self@.mem, address as int),
    {
        let a = address as usize;
        if a < self.memory.len() && self.memory.len() - a >= 4 {
            let b0 = self.memory[a] as u32;
            let b1 = self.memory[a + 1] as u32;
            let b2 = self.memory[a + 2] as u32;
            let b3 = self.memory[a + 3] as u32;
            Ok(b0 + b1 * 0x100 + b2 * 0x1_0000 + b3 * 0x100_0000)
        } else {
            Err(FaultKind::OutOfBounds { address })
        }
    }

    /// Stores `value` at `address`.
    pub fn memory_set8(&mut self, address: u32, value: u8) -> (r: Result<(), FaultKind>)
        requires
            old(self).wf(),
        ensures
            final(self).wf(),
            follows_unit(old(self)@, final(self)@, r, store8_spec(old(self)@, address, value)),
    {
        if (address as usize) < self.memory.len() {
            self.memory.set(address as usize, value);
            Ok(())
        } else {
            Err(FaultKind::OutOfBounds { address })
        }
    }

    /// Stores `value` little-endian at `address`, as four byte stores.
    pub fn memory_set32(&mut self, address: u32, value: u32) -> (r: Result<(), FaultKind>)
        requires
            old(self).wf(),
        ensures
            final(self).wf(),
            follows_unit(old(self)@, final(self)@, r, store32_spec(old(self)@, address, value)),
    {
        let a = address as usize;
        if a < self.memory.len() && self.memory.len() - a >= 4 {
            self.memory.set(a, (value % 0x100) as u8);
            self.memory.set(a + 1, (value / 0x100 % 0x100) as u8);
            self.memory.set(a + 2, (value / 0x1_0000 % 0x100) as u8);
            self.memory.set(a + 3, (value / 0x100_0000) as u8);
            Ok(())
        } else {
            Err(FaultKind::OutOfBounds { address })
        }
    }

    /// Moves ESP down by four and stores `value` there.
    pub fn push32(&mut self, value: u32) -> (r: Result<(), FaultKind>)
        requires
            old(self).wf(),
        ensures
            final(self).wf(),
            follows_unit(old(self)@, final(self)@, r, push_spec(old(self)@, value)),
    {
        let sp = self.registers[ESP as usize].wrapping_sub(4);
        match self.memory_set32(sp, value) {
            Ok(()) => {
                self.registers.set(ESP as usize, sp);
                Ok(())
            },
            Err(e) => Err(e),
        }
    }

    /// Reads the dword at ESP and moves ESP up by four.
    pub fn pop32(&mut self) -> (r: Result<u32, FaultKind>)
        requires
            old(self).wf(),
        ensures
            final(self).wf(),
            follows(old(self)@, final(self)@, r, pop_spec(old(self)@)),
    {
        let sp = self.registers[ESP as usize];
        match self.memory_u32(sp) {
            Ok(v) => {
                self.registers.set(ESP as usize, sp.wrapping_add(4));
                Ok(v)
            },
            Err(e) => Err(e),
        }
    }

    /// Whether CF is set.
    pub fn is_carry(&self) -> (r: bool)
        ensures
            r == flag_set(self@.eflags, CARRY_MASK),
    {
        (self.eflags & CARRY_MASK) == CARRY_MASK
    }

    /// Whether ZF is set.
    pub fn is_zero(&self) -> (r: bool)
        ensures
            r == flag_set(self@.eflags, ZERO_MASK),
    {
        (self.eflags & ZERO_MASK) == ZERO_MASK
    }

    /// Whether SF is set.
    pub fn is_sign_flag(&self) -> (r: bool)
        ensures
            r == flag_set(self@.eflags, SIGN_MASK),
    {
        (self.eflags & SIGN_MASK) == SIGN_MASK
    }

    /// Whether OF is set.
    pub fn is_overflow(&self) -> (r: bool)
        ensures
            r == flag_set(self@.eflags, OVERFLOW_MASK),
    {
        (self.eflags & OVERFLOW_MASK) == OVERFLOW_MASK
    }

    /// Sets the flags from the subtraction `target - value`: CF on a borrow,
    /// ZF on a zero result, SF from bit 31 of the wrapped result, and OF when
    /// `(target as i32) - signed_value` overflows. `signed_value` is the same
    /// operand read as signed. Nothing else changes.
    pub fn compare(&mut self, target: u32, value: u32, signed_value: i32)
        requires
            old(self).wf(),
        ensures
            final(self).wf(),
            final(self)@ == old(self)@.with_eflags(
                compare_flags(old(self)@.eflags, target, value, signed_value),
            ),
            flag_set(final(self)@.eflags, CARRY_MASK) == (target < value),
            flag_set(final(self)@.eflags, ZERO_MASK) == (sub32(target, value) == 0),
            flag_set(final(self)@.eflags, SIGN_MASK) == top_bit(sub32(target, value)),
            flag_set(final(self)@.eflags, OVERFLOW_MASK) == sub_overflows(target, signed_value),
            final(self)@.eflags & !DEFINED_FLAGS == old(self)@.eflags & !DEFINED_FLAGS,
    {
        let result = target.wrapping_sub(value);
        let mut f = self.eflags;
        if target < value {
            f = f | CARRY_MASK;
        } else {
            f = f & !CARRY_MASK;
        }
        if result == 0 {
            f = f | ZERO_MASK;
        } else {
            f = f & !ZERO_MASK;
        }
        if result >= 0x8000_0000 {
            f = f | SIGN_MASK;
        } else {
            f = f & !SIGN_MASK;
        }
        let overflow = match (target as i32).checked_sub(signed_value) {
            Some(_) => false,
            None => true,
        };
        if overflow {
            f = f | OVERFLOW_MASK;
        } else {
            f = f & !OVERFLOW_MASK;
        }
        proof {
            lemma_four_flags(
                self.eflags,
                target < value,
                sub32(target, value) == 0,
                top_bit(sub32(target, value)),
                sub_overflows(target, signed_value),
            );
        }
        self.eflags = f;
    }

    /// Compares with an unsigned operand: for all `target` and `value`, ZF is
    /// set iff they are equal, CF iff `target < value`, SF iff bit 31 of
    /// `target - value` (wrapped) is set, and OF iff `(target as i32) - (value
    /// as i32)` leaves the range of `i32`.
    pub fn cmp_u32_u32(&mut self, target: u32, value: u32)
        requires
            old(self).wf(),
        ensures
            final(self).wf(),
            final(self)@ == old(self)@.with_eflags(
                compare_flags(old(self)@.eflags, target, value, value as i32),
            ),
            flag_set(final(self)@.eflags, ZERO_MASK) == (target == value),
            flag_set(final(self)@.eflags, CARRY_MASK) == (target < value),
            flag_set(final(self)@.eflags, SIGN_MASK) == top_bit(sub32(target, value)),
            flag_set(final(self)@.eflags, OVERFLOW_MASK) == ((target as i32) - (value as i32)
                < i32::MIN || (target as i32) - (value as i32) > i32::MAX),
    {
        self.compare(target, value, value as i32);
    }

    /// Compares with a signed operand, such as a sign-extended immediate: its
    /// bits are the unsigned operand.
    pub fn cmp_u32_i32(&mut self, target: u32, sign_value: i32)
        requires
            old(self).wf(),
        ensures
            final(self).wf(),
            final(self)@ == old(self)@.with_eflags(
                compare_flags(old(self)@.eflags, target, sign_value as u32, sign_value),
            ),
            flag_set(final(self)@.eflags, ZERO_MASK) == (target == sign_value as u32),
            flag_set(final(self)@.eflags, CARRY_MASK) == (target < sign_value as u32),
            flag_set(final(self)@.eflags, SIGN_MASK) == top_bit(sub32(target, sign_value as u32)),
            flag_set(final(self)@.eflags, OVERFLOW_MASK) == sub_overflows(target, sign_value),
    {
        self.compare(target, sign_value as u32, sign_value);
    }

    /// One step: decodes the instruction at EIP and runs it. A fault carries
    /// the instruction's address, and then nothing has changed.
    pub fn step(&mut self) -> (r: Result<Status, Fault>)
        requires
            old(self).wf(),
        ensures
            final(self).wf(),
            follows(old(self)@, final(self)@, r, step_spec(old(self)@)),
    {
        let eip = self.eip;
        proof {
            reveal(step_spec);
        }
        match self.decode() {
            Ok(d) => match self.execute(d) {
                Ok(status) => Ok(status),
                Err(kind) => Err(Fault { eip, kind }),
            },
            Err(kind) => Err(Fault { eip, kind }),
        }
    }

    /// Steps until the machine halts or faults, for at most `max_steps` steps.
    /// Returns `Halted`, the fault, or `Running` when the steps ran out; the
    /// state is the one `run_spec` gives.
    pub fn run(&mut self, max_steps: u64) -> (r: Result<Status, Fault>)
        requires
            old(self).wf(),
        ensures
            final(self).wf(),
            (final(self)@, r) == run_spec(old(self)@, max_steps as nat),
    {
        let mut n: u64 = max_steps;
        while n > 0
            invariant
                self.wf(),
                run_spec(self@, n as nat) == run_spec(old(self)@, max_steps as nat),
            decreases n,
        {
            let ghost cur = self@;
            let r = self.step();
            assert(run_spec(cur, n as nat) == match step_spec(cur) {
                Ok((t, Status::Running)) => run_spec(t, (n - 1) as nat),
                Ok((t, Status::Halted)) => (t, Ok(Status::Halted)),
                Err(f) => (cur, Err(f)),
            });
            match r {
                Ok(Status::Running) => {
                    n = n - 1;
                },
                Ok(Status::Halted) => {
                    return Ok(Status::Halted);
                },
                Err(f) => {
                    return Err(f);
                },
            }
        }
        Ok(Status::Running)
    }
}

} // verus!
