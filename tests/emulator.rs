use x86_emu::{Emulator, ModRM};

const TEST_MEMSIZE: u32 = 1024;

#[test]
fn emulator_new() {
    let emu = Emulator::new(TEST_MEMSIZE);
    assert_eq!(emu.eip(), 0);
    assert_eq!(emu.eflags(), 0);
}

#[test]
fn cmp_u32_u32() {
    let mut emu = Emulator::new(TEST_MEMSIZE);
    emu.cmp_u32_u32(0xffff, 0xffff);
    assert_eq!(emu.is_zero(), true);
    assert_eq!(emu.is_sign_flag(), false);
    assert_eq!(emu.is_carry(), false);
    assert_eq!(emu.is_overflow(), false);
}

#[test]
fn cmp_u32_i32() {
    let mut emu = Emulator::new(TEST_MEMSIZE);
    emu.cmp_u32_i32(0xffffffff, -1);
    assert_eq!(emu.is_zero(), true);
    assert_eq!(emu.is_sign_flag(), false);
    assert_eq!(emu.is_carry(), false);
    assert_eq!(emu.is_overflow(), false);
}

#[test]
fn cmp_zero() {
    let mut emu = Emulator::new(TEST_MEMSIZE);
    emu.cmp_u32_u32(0xffff, 0xffff);
    assert_eq!(emu.is_zero(), true);
    assert_eq!(emu.is_sign_flag(), false);
    assert_eq!(emu.is_carry(), false);
    assert_eq!(emu.is_overflow(), false);
}

#[test]
fn cmp_carry() {
    let mut emu = Emulator::new(TEST_MEMSIZE);
    emu.cmp_u32_u32(0, 1);
    assert_eq!(emu.is_zero(), false);
    assert_eq!(emu.is_sign_flag(), true);
    assert_eq!(emu.is_carry(), true);
    assert_eq!(emu.is_overflow(), false);
}

#[test]
fn cmp_overflow() {
    let mut emu = Emulator::new(TEST_MEMSIZE);
    emu.cmp_u32_u32(0x80000000, 1);
    assert_eq!(emu.is_zero(), false);
    assert_eq!(emu.is_sign_flag(), false);
    assert_eq!(emu.is_carry(), false);
    assert_eq!(emu.is_overflow(), true);
}

#[test]
fn eflags_carry() {
    let mut emu = Emulator::new(TEST_MEMSIZE);
    emu.set_eflags(1);
    assert_eq!(emu.is_zero(), false);
    assert_eq!(emu.is_sign_flag(), false);
    assert_eq!(emu.is_carry(), true);
    assert_eq!(emu.is_overflow(), false);
}

#[test]
fn eflags_zero() {
    let mut emu = Emulator::new(TEST_MEMSIZE);
    emu.set_eflags(1 << 6);
    assert_eq!(emu.is_zero(), true);
    assert_eq!(emu.is_sign_flag(), false);
    assert_eq!(emu.is_carry(), false);
    assert_eq!(emu.is_overflow(), false);
}

#[test]
fn eflags_sign() {
    let mut emu = Emulator::new(TEST_MEMSIZE);
    emu.set_eflags(1 << 7);
    assert_eq!(emu.is_zero(), false);
    assert_eq!(emu.is_sign_flag(), true);
    assert_eq!(emu.is_carry(), false);
    assert_eq!(emu.is_overflow(), false);
}

#[test]
fn eflags_overflow() {
    let mut emu = Emulator::new(TEST_MEMSIZE);
    emu.set_eflags(1 << 11);
    assert_eq!(emu.is_zero(), false);
    assert_eq!(emu.is_sign_flag(), false);
    assert_eq!(emu.is_carry(), false);
    assert_eq!(emu.is_overflow(), true);
}

#[test]
fn modrm_new() {
    let modrm = ModRM::new(0x61);
    assert_eq!(modrm.mode, 0b01);
    assert_eq!(modrm.reg, 0b100);
    assert_eq!(modrm.rm, 0b001);
}
