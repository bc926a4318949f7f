use x86_emu::{
    register_name, AluOp, Decoded, Emulator, Fault, FaultKind, ImageTooLarge, Instr, Operand,
    Status,
};

const EAX: u32 = 0;
const ECX: u32 = 1;
const EDX: u32 = 2;
const EBX: u32 = 3;
const ESP: u32 = 4;
const EBP: u32 = 5;

fn boot(image: &[u8]) -> Emulator {
    let mut emu = Emulator::new(1024);
    assert_eq!(emu.load(image), Ok(()));
    emu
}

fn registers(emu: &Emulator) -> Vec<u32> {
    (0..8).map(|i| emu.register(i)).collect()
}

fn fault(eip: u32, kind: FaultKind) -> Result<Status, Fault> {
    Err(Fault { eip, kind })
}

#[test]
fn mov_eax_then_ret_halts() {
    let mut emu = boot(&[0xb8, 0x05, 0x00, 0x00, 0x00, 0xc3]);
    assert_eq!(emu.run(100), Ok(Status::Halted));
    assert_eq!(emu.register(EAX), 5);
    assert_eq!(emu.register(ESP), 1024);
}

#[test]
fn push_imm8_then_ret_pops_the_pushed_value() {
    let mut emu = boot(&[0x6a, 0x7b, 0xc3]);
    assert_eq!(emu.step(), Ok(Status::Running));
    assert_eq!(emu.register(ESP), 1016);
    assert_eq!(emu.memory_u32(1016), Ok(0x7b));
    assert_eq!(emu.step(), Ok(Status::Running));
    assert_eq!(emu.eip(), 0x7b);
    assert_eq!(emu.register(ESP), 1020);
    // the byte at 0x7b is 0x00, which has no handler
    let unsupported = FaultKind::UnsupportedOpcode { opcode: 0, sub: None };
    assert_eq!(emu.step(), fault(0x7b, unsupported));
}

#[test]
fn unsupported_opcode_faults_without_change() {
    let mut emu = Emulator::new(1024);
    let before = registers(&emu);
    let unsupported = FaultKind::UnsupportedOpcode { opcode: 0, sub: None };
    assert_eq!(emu.run(10), fault(0, unsupported));
    assert_eq!(registers(&emu), before);
    assert_eq!(emu.eip(), 0);
    assert_eq!(emu.eflags(), 0);
}

#[test]
fn push_pop_round_trip() {
    let mut emu = Emulator::new(1024);
    assert_eq!(emu.push32(0xdead_beef), Ok(()));
    assert_eq!(emu.register(ESP), 1016);
    assert_eq!(emu.pop32(), Ok(0xdead_beef));
    assert_eq!(emu.register(ESP), 1020);
}

#[test]
fn push_below_memory_faults() {
    let mut emu = Emulator::new(8);
    assert_eq!(emu.push32(1), Ok(()));
    assert_eq!(emu.register(ESP), 0);
    assert_eq!(emu.push32(2), Err(FaultKind::OutOfBounds { address: 0xffff_fffc }));
    assert_eq!(emu.register(ESP), 0);
}

#[test]
fn nop_advances_eip_only() {
    let mut emu = boot(&[0x90]);
    emu.set_eflags(0x8c1);
    let before = registers(&emu);
    assert_eq!(emu.step(), Ok(Status::Running));
    assert_eq!(emu.eip(), 1);
    assert_eq!(registers(&emu), before);
    assert_eq!(emu.eflags(), 0x8c1);
    assert_eq!(emu.memory(0), Ok(0x90));
    assert_eq!(emu.memory(1), Ok(0));
}

#[test]
fn compare_boundaries() {
    let mut emu = Emulator::new(16);
    emu.compare(0xffff_ffff, 0xffff_ffff, -1);
    assert!(emu.is_zero() && !emu.is_carry() && !emu.is_sign_flag() && !emu.is_overflow());
    emu.compare(0, 1, 1);
    assert!(!emu.is_zero() && emu.is_carry() && emu.is_sign_flag() && !emu.is_overflow());
    emu.compare(0x8000_0000, 1, 1);
    assert!(!emu.is_zero() && !emu.is_carry() && !emu.is_sign_flag() && emu.is_overflow());
}

#[test]
fn compare_keeps_undefined_bits() {
    let mut emu = Emulator::new(16);
    emu.set_eflags(0xffff_ffff);
    emu.cmp_u32_u32(2, 1);
    assert_eq!(emu.eflags(), 0xffff_ffff & !0x8c1);
}

#[test]
fn cmp_with_sign_extended_immediate() {
    let mut emu = boot(&[0xb8, 0xff, 0xff, 0xff, 0xff, 0x83, 0xf8, 0xff, 0xc3]);
    assert_eq!(emu.run(10), Ok(Status::Halted));
    assert!(emu.is_zero());
    assert!(!emu.is_carry());
}

#[test]
fn add_sub_immediates() {
    let mut emu = boot(&[
        0x05, 0xff, 0xff, 0xff, 0xff, // add eax, 0xffffffff
        0x2d, 0x01, 0x00, 0x00, 0x00, // sub eax, 1
        0x81, 0xc2, 0x00, 0x01, 0x00, 0x00, // add edx, 0x100
        0x81, 0xe9, 0x01, 0x00, 0x00, 0x00, // sub ecx, 1
        0x83, 0xc3, 0xff, // add ebx, -1
        0xc3,
    ]);
    assert_eq!(emu.run(10), Ok(Status::Halted));
    assert_eq!(emu.register(EAX), 0xffff_fffe);
    assert_eq!(emu.register(EDX), 0x100);
    assert_eq!(emu.register(ECX), 0xffff_ffff);
    assert_eq!(emu.register(EBX), 0xffff_ffff);
}

#[test]
fn and_xor_shr() {
    let mut emu = boot(&[
        0xb8, 0xff, 0x00, 0x00, 0x00, // mov eax, 0xff
        0x83, 0xe0, 0xf0, // and eax, -16
        0xb9, 0x10, 0x00, 0x00, 0x00, // mov ecx, 0x10
        0xd1, 0xe9, // shr ecx, 1
        0xba, 0x33, 0x00, 0x00, 0x00, // mov edx, 0x33
        0x31, 0xd2, // xor edx, edx
        0xc3,
    ]);
    assert_eq!(emu.run(10), Ok(Status::Halted));
    assert_eq!(emu.register(EAX), 0xf0);
    assert_eq!(emu.register(ECX), 8);
    assert_eq!(emu.register(EDX), 0);
    assert_eq!(emu.register(EBP), 0);
}

#[test]
fn memory_operands() {
    let mut emu = boot(&[
        0x89, 0xe5, // mov ebp, esp
        0xc7, 0x45, 0xf8, 0x11, 0x22, 0x33, 0x44, // mov dword [ebp-8], 0x44332211
        0x8b, 0x45, 0xf8, // mov eax, [ebp-8]
        0x01, 0x45, 0xf8, // add [ebp-8], eax
        0x03, 0x4d, 0xf8, // add ecx, [ebp-8]
        0x2b, 0x4d, 0xf8, // sub ecx, [ebp-8]
        0x3b, 0x45, 0xf8, // cmp eax, [ebp-8]
        0x8d, 0x5d, 0xf8, // lea ebx, [ebp-8]
        0xff, 0x75, 0xf8, // push dword [ebp-8]
        0x5a, // pop edx
        0xc3,
    ]);
    assert_eq!(emu.run(20), Ok(Status::Halted));
    assert_eq!(emu.register(EBP), 1020);
    assert_eq!(emu.register(EAX), 0x4433_2211);
    assert_eq!(emu.register(ECX), 0);
    assert_eq!(emu.register(EBX), 1012);
    assert_eq!(emu.register(EDX), 0x8866_4422);
    assert_eq!(emu.memory_u32(1012), Ok(0x8866_4422));
    assert_eq!(emu.memory(1012), Ok(0x22));
    assert_eq!(emu.memory(1015), Ok(0x88));
    assert!(emu.is_carry());
    assert!(!emu.is_zero());
}

#[test]
fn group83_on_memory() {
    let mut emu = boot(&[
        0x89, 0xe5, // mov ebp, esp
        0x6a, 0x05, // push 5
        0x83, 0x45, 0xfc, 0x03, // add dword [ebp-4], 3
        0x83, 0x6d, 0xfc, 0x01, // sub dword [ebp-4], 1
        0x83, 0x7d, 0xfc, 0x07, // cmp dword [ebp-4], 7
        0x58, // pop eax
        0xc3,
    ]);
    assert_eq!(emu.run(20), Ok(Status::Halted));
    assert_eq!(emu.register(EAX), 7);
    assert!(emu.is_zero());
}

#[test]
fn sib_and_wide_displacements() {
    let mut emu = boot(&[
        0x6a, 0x2a, // push 42
        0x8b, 0x44, 0x24, 0x00, // mov eax, [esp+0]
        0x8b, 0x8c, 0x24, 0x00, 0x00, 0x00, 0x00, // mov ecx, [esp+0] (dword displacement)
        0x8b, 0x95, 0x00, 0x01, 0x00, 0x00, // mov edx, [ebp+0x100]
        0x5b, // pop ebx
        0xc3,
    ]);
    assert_eq!(emu.memory_set32(0x100, 0x1234_5678), Ok(()));
    assert_eq!(emu.run(20), Ok(Status::Halted));
    assert_eq!(emu.register(EAX), 42);
    assert_eq!(emu.register(ECX), 42);
    assert_eq!(emu.register(EDX), 0x1234_5678);
    assert_eq!(emu.register(EBX), 42);
}

#[test]
fn call_and_ret() {
    let mut emu = boot(&[
        0xe8, 0x01, 0x00, 0x00, 0x00, // call +1
        0xc3, // ret (to the sentinel)
        0xb8, 0x07, 0x00, 0x00, 0x00, // mov eax, 7
        0xc3, // ret (to 5)
    ]);
    assert_eq!(emu.step(), Ok(Status::Running));
    assert_eq!(emu.eip(), 6);
    assert_eq!(emu.memory_u32(1016), Ok(5));
    assert_eq!(emu.run(10), Ok(Status::Halted));
    assert_eq!(emu.register(EAX), 7);
    assert_eq!(emu.register(ESP), 1024);
}

#[test]
fn loop_with_backward_jump() {
    let mut emu = boot(&[
        0xb8, 0x03, 0x00, 0x00, 0x00, // mov eax, 3
        0x83, 0xc1, 0x02, // add ecx, 2
        0x83, 0xe8, 0x01, // sub eax, 1
        0x83, 0xf8, 0x00, // cmp eax, 0
        0x75, 0xf5, // jnz -11
        0xc3,
    ]);
    assert_eq!(emu.run(100), Ok(Status::Halted));
    assert_eq!(emu.register(EAX), 0);
    assert_eq!(emu.register(ECX), 6);
}

#[test]
fn conditional_jumps() {
    // cmp eax, imm; jcc +5 over "mov eax, 1"; ret
    let program = |imm: u8, jcc: u8| {
        let mut emu = boot(&[
            0xb8, 0x05, 0x00, 0x00, 0x00, 0x83, 0xf8, imm, jcc, 0x05, 0xb8, 0x01, 0x00, 0x00,
            0x00, 0xc3,
        ]);
        assert_eq!(emu.run(10), Ok(Status::Halted));
        emu.register(EAX)
    };
    assert_eq!(program(5, 0x74), 5); // jz taken
    assert_eq!(program(4, 0x74), 1); // jz not taken
    assert_eq!(program(5, 0x75), 1); // jnz not taken
    assert_eq!(program(3, 0x7f), 5); // jg taken
    assert_eq!(program(7, 0x7f), 1); // jg not taken
    assert_eq!(program(7, 0x7e), 5); // jng taken
    assert_eq!(program(3, 0x7e), 1); // jng not taken
    assert_eq!(program(0xff, 0x7f), 5); // 5 > -1 signed
}

#[test]
fn jz_rel32_and_short_jump() {
    let mut emu = boot(&[
        0x83, 0xf8, 0x00, // cmp eax, 0
        0x0f, 0x84, 0x05, 0x00, 0x00, 0x00, // jz +5
        0xb8, 0x01, 0x00, 0x00, 0x00, // mov eax, 1
        0xeb, 0x05, // jmp +5
        0xb9, 0x01, 0x00, 0x00, 0x00, // mov ecx, 1
        0xc3,
    ]);
    assert_eq!(emu.step(), Ok(Status::Running));
    assert_eq!(emu.step(), Ok(Status::Running));
    assert_eq!(emu.eip(), 14);
    assert_eq!(emu.run(10), Ok(Status::Halted));
    assert_eq!(emu.register(EAX), 0);
    assert_eq!(emu.register(ECX), 0);
}

#[test]
fn leave_restores_frame() {
    let mut emu = boot(&[
        0x55, // push ebp
        0x89, 0xe5, // mov ebp, esp
        0x83, 0xec, 0x10, // sub esp, 16
        0xc9, // leave
        0xc3,
    ]);
    assert_eq!(emu.step(), Ok(Status::Running));
    assert_eq!(emu.step(), Ok(Status::Running));
    assert_eq!(emu.step(), Ok(Status::Running));
    assert_eq!(emu.register(ESP), 1000);
    assert_eq!(emu.step(), Ok(Status::Running));
    assert_eq!(emu.register(ESP), 1020);
    assert_eq!(emu.register(EBP), 0);
    assert_eq!(emu.run(10), Ok(Status::Halted));
}

#[test]
fn push_and_pop_registers() {
    let mut emu = boot(&[0xb8, 0x09, 0x00, 0x00, 0x00, 0x50, 0x5b, 0xc3]);
    assert_eq!(emu.run(10), Ok(Status::Halted));
    assert_eq!(emu.register(EBX), 9);
}

#[test]
fn unsupported_addressing_modes() {
    let mut emu = boot(&[0x8b, 0x00]);
    let kind = FaultKind::UnsupportedAddressingMode { byte: 0x00 };
    assert_eq!(emu.step(), fault(0, kind));
    let mut emu = boot(&[0x8b, 0x44, 0x88, 0x04]);
    let kind = FaultKind::UnsupportedAddressingMode { byte: 0x88 };
    assert_eq!(emu.step(), fault(0, kind));
    let mut emu = boot(&[0x29, 0x45, 0x00]);
    let kind = FaultKind::UnsupportedAddressingMode { byte: 0x45 };
    assert_eq!(emu.step(), fault(0, kind));
    let mut emu = boot(&[0xd1, 0x68, 0x00]);
    let kind = FaultKind::UnsupportedAddressingMode { byte: 0x68 };
    assert_eq!(emu.step(), fault(0, kind));
    assert_eq!(emu.eip(), 0);
}

#[test]
fn unsupported_sub_opcodes() {
    let cases: [(&[u8], u8, u8); 5] = [
        (&[0x83, 0xc8, 0x01], 0x83, 1),
        (&[0x81, 0xf0, 0, 0, 0, 0], 0x81, 6),
        (&[0x0f, 0x05], 0x0f, 0x05),
        (&[0xd1, 0xe0], 0xd1, 4),
        (&[0xff, 0x45, 0x00], 0xff, 0),
    ];
    for (image, opcode, sub) in cases {
        let mut emu = boot(image);
        let kind = FaultKind::UnsupportedOpcode { opcode, sub: Some(sub) };
        assert_eq!(emu.step(), fault(0, kind));
    }
}

#[test]
fn out_of_bounds_accesses() {
    // ret to 2000, past the end of memory
    let mut emu = boot(&[0xb8, 0xd0, 0x07, 0x00, 0x00, 0x50, 0xc3]);
    let kind = FaultKind::OutOfBounds { address: 2000 };
    assert_eq!(emu.run(10), fault(2000, kind));
    // mov eax, [ebx-1] with ebx = 0
    let mut emu = boot(&[0x8b, 0x43, 0xff]);
    let kind = FaultKind::OutOfBounds { address: 0xffff_ffff };
    assert_eq!(emu.step(), fault(0, kind));
    assert_eq!(emu.eip(), 0);
    // an instruction cut off by the end of memory
    let mut emu = boot(&[0xb8, 0xff, 0x03, 0x00, 0x00, 0x50, 0xc3]);
    assert_eq!(emu.memory_set8(1023, 0xb8), Ok(()));
    let kind = FaultKind::OutOfBounds { address: 1024 };
    assert_eq!(emu.run(10), fault(1023, kind));
    assert_eq!(emu.memory_u32(1021), Err(FaultKind::OutOfBounds { address: 1021 }));
    assert_eq!(emu.memory(1024), Err(FaultKind::OutOfBounds { address: 1024 }));
}

#[test]
fn load_checks_capacity() {
    let mut emu = Emulator::new(4);
    assert_eq!(emu.load(&[1, 2, 3, 4, 5]), Err(ImageTooLarge { size: 5, capacity: 4 }));
    assert_eq!(emu.memory(0), Ok(0));
    assert_eq!(emu.load(&[1, 2]), Ok(()));
    assert_eq!(emu.memory(1), Ok(2));
    assert_eq!(emu.memory(2), Ok(0));
    assert_eq!(emu.memory_size(), 4);
}

#[test]
fn run_stops_when_steps_run_out() {
    let mut emu = boot(&[0xeb, 0xfe]);
    assert_eq!(emu.run(0), Ok(Status::Running));
    assert_eq!(emu.run(5), Ok(Status::Running));
    assert_eq!(emu.eip(), 0);
}

#[test]
fn decode_sign_extends_imm8() {
    let emu = boot(&[0x83, 0xc0, 0xff]);
    let add = Instr::Alu { op: AluOp::Add, dst: Operand::Reg(EAX), src: Operand::Imm(0xffff_ffff) };
    assert_eq!(emu.decode(), Ok(Decoded { instr: add, next: 3 }));
}

#[test]
fn register_names() {
    assert_eq!(register_name(0), "EAX");
    assert_eq!(register_name(4), "ESP");
    assert_eq!(register_name(7), "EDI");
}
