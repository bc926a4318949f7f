//! The flags word and the comparison that sets it.
use vstd::prelude::*;

verus! {

/// Carry flag (bit 0).
pub const CARRY_MASK: u32 = 0x1;

/// Zero flag (bit 6).
pub const ZERO_MASK: u32 = 0x40;

/// Sign flag (bit 7).
pub const SIGN_MASK: u32 = 0x80;

/// Overflow flag (bit 11).
pub const OVERFLOW_MASK: u32 = 0x800;

/// The four bits of the flags word that this machine defines.
pub const DEFINED_FLAGS: u32 = 0x8c1;

/// Wrapping 32-bit addition.
pub open spec fn add32(a: u32, b: u32) -> u32 {
    if a + b > u32::MAX {
        (a + b - 0x1_0000_0000) as u32
    } else {
        (a + b) as u32
    }
}

/// Wrapping 32-bit subtraction.
pub open spec fn sub32(a: u32, b: u32) -> u32 {
    if a < b {
        (a - b + 0x1_0000_0000) as u32
    } else {
        (a - b) as u32
    }
}

/// Whether bit 31 of `x` is set.
pub open spec fn top_bit(x: u32) -> bool {
    x >= 0x8000_0000
}

/// Whether every bit of `mask` is set in the flags word.
pub open spec fn flag_set(eflags: u32, mask: u32) -> bool {
    eflags & mask == mask
}

/// The flags word with the bits of `mask` set when `on` holds and cleared otherwise.
pub open spec fn with_flag(eflags: u32, mask: u32, on: bool) -> u32 {
    if on {
        eflags | mask
    } else {
        eflags & !mask
    }
}

/// Whether the two's-complement subtraction `(target as i32) - value` leaves the
/// range of `i32`.
pub open spec fn sub_overflows(target: u32, value: i32) -> bool {
    (target as i32) - value < i32::MIN || (target as i32) - value > i32::MAX
}

/// The flags word after comparing `target` with an operand whose unsigned reading
/// is `value` and whose signed reading is `signed_value`: CF is the borrow of the
/// unsigned subtraction, ZF and SF describe its wrapped result, OF the overflow of
/// the signed one. The other bits are kept.
pub open spec fn compare_flags(eflags: u32, target: u32, value: u32, signed_value: i32) -> u32 {
    let result = sub32(target, value);
    with_flag(
        with_flag(
            with_flag(with_flag(eflags, CARRY_MASK, target < value), ZERO_MASK, result == 0),
            SIGN_MASK,
            top_bit(result),
        ),
        OVERFLOW_MASK,
        sub_overflows(target, signed_value),
    )
}

/// Setting or clearing the four defined flags one after the other leaves each of
/// them as it was last set, and every other bit of the word as it was.
pub proof fn lemma_four_flags(f: u32, c: bool, z: bool, s: bool, o: bool)
    by (bit_vector)
    ensures
        ({
            let g = with_flag(
                with_flag(
                    with_flag(with_flag(f, CARRY_MASK, c), ZERO_MASK, z),
                    SIGN_MASK,
                    s,
                ),
                OVERFLOW_MASK,
                o,
            );
            &&& flag_set(g, CARRY_MASK) == c
            &&& flag_set(g, ZERO_MASK) == z
            &&& flag_set(g, SIGN_MASK) == s
            &&& flag_set(g, OVERFLOW_MASK) == o
            &&& g & !DEFINED_FLAGS == f & !DEFINED_FLAGS
        }),
{
}

} // verus!
