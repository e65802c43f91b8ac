use emulator101::cpu::{Cpu, Flag};
use emulator101::in_out::DummyInOut;
use emulator101::op_code::{Instruction, Register, RegisterPair};
use emulator101::ram::{MemoryError, Ram};
use emulator101::system::System;

#[test]
fn fresh_cpu() {
    let cpu = Cpu::new(0x0100);
    assert_eq!(cpu.pc(), 0x0100);
    assert_eq!(cpu.sp(), 0xf000);
    assert!(!cpu.inte());
    assert_eq!(cpu.a(), 0);
    assert_eq!(cpu.flags(), 0);
    assert_eq!(cpu.psw(), 0);
}

#[test]
fn flag_bits() {
    let mut cpu = Cpu::new(0);
    cpu.set(Flag::Cy);
    assert!(cpu.cy());
    assert_eq!(cpu.flags(), 0x01);
    cpu.set(Flag::S);
    cpu.set(Flag::Z);
    cpu.set(Flag::Ac);
    cpu.set(Flag::P);
    assert_eq!(cpu.flags(), 0xd5);
    assert!(cpu.s() && cpu.z() && cpu.ac() && cpu.p() && cpu.cy());
    cpu.clear(Flag::Z);
    assert!(!cpu.z());
    assert!(cpu.s() && cpu.ac() && cpu.p() && cpu.cy());
    cpu.toggle(Flag::Z, true);
    assert!(cpu.z());
    cpu.toggle(Flag::Z, false);
    assert!(!cpu.z());
    cpu.clear_all();
    assert_eq!(cpu.flags(), 0);
}

#[test]
fn flags_mut_writes_f() {
    let mut cpu = Cpu::new(0);
    *cpu.flags_mut() = 0x44;
    assert_eq!(cpu.flags(), 0x44);
    assert!(cpu.z());
    assert!(cpu.p());
}

#[test]
fn accumulator_mut() {
    let mut s = System::new(Ram::new(0x100, false), 0);
    *s.a_mut() = 0x3c;
    assert_eq!(s.a(), 0x3c);
    assert_eq!(s.cpu().get(Register::A), 0x3c);
}

#[test]
fn pairs_and_psw() {
    let mut s = System::new(Ram::new(0x100, false), 0);
    *s.a_mut() = 0xab;
    let io = DummyInOut;
    s.execute(Instruction::Lxi(RegisterPair::B, 0x22, 0x11), &io).unwrap();
    s.execute(Instruction::Lxi(RegisterPair::D, 0x44, 0x33), &io).unwrap();
    s.execute(Instruction::Lxi(RegisterPair::H, 0x66, 0x55), &io).unwrap();
    assert_eq!(s.cpu().get_rp(RegisterPair::B), 0x1122);
    assert_eq!(s.cpu().get_rp(RegisterPair::D), 0x3344);
    assert_eq!(s.cpu().get_rp(RegisterPair::H), 0x5566);
    assert_eq!(s.cpu().psw(), 0xab00);
    assert_eq!(s.get_rp(RegisterPair::SP), s.cpu().sp());
}

#[test]
fn logic_and_complement() {
    let io = DummyInOut;
    let mut s = System::new(Ram::new(0x100, false), 0);
    s.execute(Instruction::Mvi(Register::A, 0b1100_1010), &io).unwrap();
    s.execute(Instruction::Ani(0b1010_1100), &io).unwrap();
    assert_eq!(s.cpu().a(), 0b1000_1000);
    assert!(!s.cpu().cy());
    s.execute(Instruction::Ori(0b0000_0111), &io).unwrap();
    assert_eq!(s.cpu().a(), 0b1000_1111);
    s.execute(Instruction::Xri(0b1111_0000), &io).unwrap();
    assert_eq!(s.cpu().a(), 0b0111_1111);
    s.execute(Instruction::Cma, &io).unwrap();
    assert_eq!(s.cpu().a(), 0b1000_0000);

    s.execute(Instruction::Mvi(Register::B, 0x0f), &io).unwrap();
    s.execute(Instruction::Ana(Register::B), &io).unwrap();
    assert_eq!(s.cpu().a(), 0);
    s.execute(Instruction::Ora(Register::B), &io).unwrap();
    assert_eq!(s.cpu().a(), 0x0f);
    s.execute(Instruction::Xra(Register::B), &io).unwrap();
    assert_eq!(s.cpu().a(), 0);
}

#[test]
fn carry_chain_arithmetic() {
    let io = DummyInOut;
    let mut s = System::new(Ram::new(0x100, false), 0);
    // 0xff + 0x01 carries; ACI then folds the carry in.
    s.execute(Instruction::Mvi(Register::A, 0xff), &io).unwrap();
    s.execute(Instruction::Adi(0x01), &io).unwrap();
    assert_eq!(s.cpu().a(), 0);
    assert!(s.cpu().cy());
    assert!(s.cpu().ac());
    s.execute(Instruction::Aci(0x10), &io).unwrap();
    assert_eq!(s.cpu().a(), 0x11);
    assert!(!s.cpu().cy());

    // SBB subtracts the borrow left by a previous subtraction.
    s.execute(Instruction::Mvi(Register::A, 0x00), &io).unwrap();
    s.execute(Instruction::Sui(0x01), &io).unwrap();
    assert_eq!(s.cpu().a(), 0xff);
    assert!(s.cpu().cy());
    s.execute(Instruction::Mvi(Register::B, 0x0f), &io).unwrap();
    s.execute(Instruction::Sbb(Register::B), &io).unwrap();
    assert_eq!(s.cpu().a(), 0xef);
    assert!(!s.cpu().cy());

    // ADC folds a set carry into a register addition.
    s.execute(Instruction::Mvi(Register::A, 0x80), &io).unwrap();
    s.execute(Instruction::Adi(0x80), &io).unwrap();
    assert!(s.cpu().cy());
    s.execute(Instruction::Mvi(Register::C, 0x02), &io).unwrap();
    s.execute(Instruction::Adc(Register::C), &io).unwrap();
    assert_eq!(s.cpu().a(), 0x03);

    // STC and CMC drive the carry directly.
    s.execute(Instruction::Stc, &io).unwrap();
    assert!(s.cpu().cy());
    s.execute(Instruction::Cmc, &io).unwrap();
    assert!(!s.cpu().cy());
}

#[test]
fn memory_faults_during_execution() {
    let io = DummyInOut;
    let mut s = System::new(Ram::new(0x100, false), 0);
    assert_eq!(
        s.execute(Instruction::Sta(0x200), &io),
        Err(MemoryError::OutOfBoundRead(0x200))
    );
    assert_eq!(
        s.execute(Instruction::Lda(0x200), &io),
        Err(MemoryError::OutOfBoundRead(0x200))
    );

    let mut ram = Ram::new(0x100, false);
    ram.register_rom(&[0; 16], 0x40).unwrap();
    let mut s = System::new(ram, 0);
    s.execute(Instruction::Lxi(RegisterPair::H, 0x45, 0x00), &io).unwrap();
    assert_eq!(
        s.execute(Instruction::Mvi(Register::M, 1), &io),
        Err(MemoryError::ReadOnlyWrite(0x45))
    );
    // The fault leaves PC alone.
    assert_eq!(s.cpu().pc(), 3);
    // Reading through M still works.
    assert_eq!(s.get(Register::M), Ok(0));
    // INR M hits the same protection.
    assert_eq!(
        s.execute(Instruction::Inr(Register::M), &io),
        Err(MemoryError::ReadOnlyWrite(0x45))
    );
}

#[test]
fn word_packing() {
    assert_eq!(emulator101::arith::to_u16(0x34, 0x12), 0x1234);
    assert_eq!(emulator101::arith::to_u8(0x1234), (0x12, 0x34));
    assert_eq!(emulator101::arith::add_u16(0xffff, 0x0002), (0x0001, true));
    assert_eq!(emulator101::arith::add_u16(0x1234, 0x0001), (0x1235, false));
    assert_eq!(emulator101::arith::parity_even_of(0b1011_0000), false);
    assert_eq!(emulator101::arith::parity_even_of(0b1011_0001), true);
    assert_eq!(emulator101::arith::parity_even_of(0), true);
}
