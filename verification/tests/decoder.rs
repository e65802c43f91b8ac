use emulator101::op_code::{Instruction, OpCodeError, Register, RegisterPair};
use emulator101::ram::{MemoryError, Ram};
use emulator101::system::System;

#[test]
fn decode_each_length() {
    let bytes: &[u8] = &[0x00, 0x3e, 0x42, 0xc3, 0x34, 0x12, 0x76];
    assert_eq!(Instruction::read_at(bytes, 0), Ok(Instruction::Nop));
    assert_eq!(Instruction::read_at(bytes, 1), Ok(Instruction::Mvi(Register::A, 0x42)));
    assert_eq!(Instruction::read_at(bytes, 3), Ok(Instruction::Jmp(0x1234)));
    assert_eq!(Instruction::read_at(bytes, 6), Ok(Instruction::Hlt));
}

#[test]
fn decode_errors() {
    let bytes: &[u8] = &[0xc3, 0x34];
    assert!(matches!(Instruction::read_at(bytes, 2), Err(OpCodeError::EndOfDataInstr)));
    assert!(matches!(Instruction::read_at(bytes, 0), Err(OpCodeError::EndOfDataParam(0xc3))));
    assert!(matches!(Instruction::read_at(&[0x3e], 0), Err(OpCodeError::EndOfDataParam(0x3e))));
}

#[test]
fn unknown_opcodes_decode_to_nop() {
    for op in [0x08u8, 0x10, 0x18, 0x20, 0x28, 0x30, 0x38, 0xcb, 0xd9, 0xdd, 0xed, 0xfd] {
        assert_eq!(Instruction::read_at(&[op], 0), Ok(Instruction::Nop));
    }
}

#[test]
fn sizes_and_cycles() {
    assert_eq!(Instruction::Nop.size(), 1);
    assert_eq!(Instruction::Mvi(Register::B, 1).size(), 2);
    assert_eq!(Instruction::Call(0).size(), 3);
    assert_eq!(Instruction::Rst(3).size(), 1);

    assert_eq!(Instruction::Nop.cycles(), 4);
    assert_eq!(Instruction::Call(0).cycles(), 17);
    assert_eq!(Instruction::Xthl.cycles(), 18);
    assert_eq!(Instruction::Mvi(Register::B, 1).cycles(), 7);
    assert_eq!(Instruction::Mvi(Register::M, 1).cycles(), 10);
    assert_eq!(Instruction::Add(Register::M).cycles(), 7);
    assert_eq!(Instruction::Add(Register::B).cycles(), 4);
    assert_eq!(Instruction::Push(RegisterPair::B).cycles(), 11);
    assert_eq!(Instruction::Ret.cycles(), 10);
    assert_eq!(Instruction::Rz.cycles(), 5);
}

#[test]
fn split_pairs() {
    assert_eq!(RegisterPair::PSW.split(), (Register::A, Register::F));
    assert_eq!(RegisterPair::B.split(), (Register::B, Register::C));
    assert_eq!(RegisterPair::D.split(), (Register::D, Register::E));
    assert_eq!(RegisterPair::H.split(), (Register::H, Register::L));
}

#[test]
fn next_instruction_reads_at_pc() {
    let mut ram = Ram::new(0x100, false);
    ram.register_rom(&[0x3e, 0x07], 0x10).unwrap();
    let s = System::new(ram, 0x10);
    assert_eq!(s.next_instruction(), Ok(Instruction::Mvi(Register::A, 0x07)));
}

#[test]
fn rom_registration_too_long() {
    let mut ram = Ram::new(100, false);
    assert_eq!(
        ram.register_rom(&[0; 200], 0),
        Err(MemoryError::TooLongRomSection(0, 200, 100))
    );
    assert_eq!(
        ram.register_rom(&[0; 10], 95),
        Err(MemoryError::TooLongRomSection(95, 10, 100))
    );
}

#[test]
fn reads_ignore_rom_and_bounds_fail() {
    let mut ram = Ram::new(100, false);
    ram.register_rom(&[7; 10], 50).unwrap();
    assert_eq!(ram.get(50), Ok(7));
    assert_eq!(ram.get(59), Ok(7));
    assert!(matches!(ram.get(100), Err(MemoryError::OutOfBoundRead(100))));
}

#[test]
fn rom_write_allowed_in_diagnostic_mode() {
    let mut ram = Ram::new(100, true);
    ram.register_rom(&[7; 10], 50).unwrap();
    assert!(ram.write(55, 9).is_ok());
    assert_eq!(ram.get(55), Ok(9));
}

#[test]
fn framebuffer_slice() {
    let mut s = System::new(Ram::new(0x4000, false), 0);
    let io = emulator101::in_out::DummyInOut;
    s.execute(Instruction::Lxi(RegisterPair::H, 0x00, 0x24), &io).unwrap();
    s.execute(Instruction::Mvi(Register::M, 0xa5), &io).unwrap();
    let frame = s.get_slice(0x2400).unwrap();
    assert_eq!(frame.len(), 0x4000 - 0x2400);
    assert_eq!(frame[0], 0xa5);
}
