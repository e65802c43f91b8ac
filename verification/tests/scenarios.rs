use emulator101::in_out::DummyInOut;
use emulator101::op_code::{Instruction, Register, RegisterPair};
use emulator101::ram::Ram;
use emulator101::system::System;

struct EchoPorts;

impl emulator101::in_out::InOut for EchoPorts {
    fn write(&self, _port: u8, _value: u8) {}

    fn read(&self, port: u8) -> u8 {
        port.wrapping_add(1)
    }
}

fn full_system() -> System {
    let ram = Ram::new(0x10000, false);
    let mut s = System::new(ram, 0);
    s.execute(Instruction::Lxi(RegisterPair::SP, 0x00, 0xff), &DummyInOut).unwrap();
    s
}

#[test]
fn call_ret_program() {
    let mut ram = Ram::new(0x10000, false);
    // 0x0000: CALL 0x0100; NOP.  0x0100: RET.
    ram.register_rom(&[0xcd, 0x00, 0x01, 0x00], 0).unwrap();
    ram.register_rom(&[0xc9], 0x0100).unwrap();
    let mut s = System::new(ram, 0);
    let initial_sp = s.cpu().sp();

    let call = s.next_instruction().unwrap();
    assert_eq!(call, Instruction::Call(0x0100));
    s.execute(call, &DummyInOut).unwrap();
    assert_eq!(s.cpu().pc(), 0x0100);
    assert_eq!(s.cpu().sp(), initial_sp - 2);

    let ret = s.next_instruction().unwrap();
    assert_eq!(ret, Instruction::Ret);
    s.execute(ret, &DummyInOut).unwrap();
    assert_eq!(s.cpu().pc(), 0x0003);
    assert_eq!(s.cpu().sp(), initial_sp);

    let nop = s.next_instruction().unwrap();
    assert_eq!(nop, Instruction::Nop);
    s.execute(nop, &DummyInOut).unwrap();
    assert_eq!(s.cpu().pc(), 0x0004);

    // The popped bytes are still sitting below the stack pointer.
    assert_eq!(s.ram().get(initial_sp - 2), Ok(0x03));
    assert_eq!(s.ram().get(initial_sp - 1), Ok(0x00));
}

#[test]
fn interrupt_gating() {
    let mut s = full_system();
    let pc = s.cpu().pc();
    let sp = s.cpu().sp();

    // INTE starts false: the injection does nothing and costs nothing.
    assert!(!s.cpu().inte());
    let r = s.process(Instruction::Rst(1), &DummyInOut).unwrap();
    assert_eq!(r, Some(0));
    assert_eq!(s.cpu().pc(), pc);
    assert_eq!(s.cpu().sp(), sp);

    // After EI the injected RST pushes PC and jumps to its vector.
    s.execute(Instruction::Ei, &DummyInOut).unwrap();
    let pc_after_ei = s.cpu().pc();
    let r = s.process(Instruction::Rst(1), &DummyInOut).unwrap();
    assert_eq!(r, Some(11));
    assert_eq!(s.cpu().pc(), 0x0008);
    assert_eq!(s.cpu().sp(), sp - 2);
    assert_eq!(s.ram().get(sp - 2), Ok((pc_after_ei & 0xff) as u8));
    assert_eq!(s.ram().get(sp - 1), Ok((pc_after_ei >> 8) as u8));
}

#[test]
fn push_pop_round_trip() {
    let mut s = full_system();
    let sp = s.cpu().sp();
    s.execute(Instruction::Lxi(RegisterPair::B, 0x34, 0x12), &DummyInOut).unwrap();
    s.execute(Instruction::Push(RegisterPair::B), &DummyInOut).unwrap();
    s.execute(Instruction::Lxi(RegisterPair::B, 0, 0), &DummyInOut).unwrap();
    assert_eq!(s.cpu().get_rp(RegisterPair::B), 0);
    s.execute(Instruction::Pop(RegisterPair::B), &DummyInOut).unwrap();
    assert_eq!(s.cpu().get_rp(RegisterPair::B), 0x1234);
    assert_eq!(s.cpu().sp(), sp);
}

#[test]
fn push_pop_psw_round_trip() {
    let mut s = full_system();
    s.execute(Instruction::Mvi(Register::A, 0x9c), &DummyInOut).unwrap();
    s.execute(Instruction::Sui(1), &DummyInOut).unwrap();
    let psw = s.cpu().psw();
    s.execute(Instruction::Push(RegisterPair::PSW), &DummyInOut).unwrap();
    s.execute(Instruction::Mvi(Register::A, 0), &DummyInOut).unwrap();
    s.execute(Instruction::Cpi(5), &DummyInOut).unwrap();
    s.execute(Instruction::Pop(RegisterPair::PSW), &DummyInOut).unwrap();
    assert_eq!(s.cpu().psw(), psw);
}

#[test]
fn rotate_round_trip() {
    let mut s = full_system();
    s.execute(Instruction::Mvi(Register::A, 0x95), &DummyInOut).unwrap();
    s.execute(Instruction::Rlc, &DummyInOut).unwrap();
    assert_eq!(s.cpu().a(), 0x2b);
    assert!(s.cpu().cy());
    s.execute(Instruction::Rrc, &DummyInOut).unwrap();
    assert_eq!(s.cpu().a(), 0x95);
}

#[test]
fn rotate_through_carry() {
    let mut s = full_system();
    s.execute(Instruction::Mvi(Register::A, 0x6a), &DummyInOut).unwrap();
    s.execute(Instruction::Stc, &DummyInOut).unwrap();
    s.execute(Instruction::Ral, &DummyInOut).unwrap();
    assert_eq!(s.cpu().a(), 0xd5);
    assert!(!s.cpu().cy());
    s.execute(Instruction::Rar, &DummyInOut).unwrap();
    assert_eq!(s.cpu().a(), 0x6a);
    assert!(s.cpu().cy());
}

#[test]
fn inx_dcx_leave_flags_alone() {
    let mut s = full_system();
    s.execute(Instruction::Mvi(Register::A, 1), &DummyInOut).unwrap();
    s.execute(Instruction::Sui(2), &DummyInOut).unwrap();
    let flags = s.cpu().flags();
    s.execute(Instruction::Lxi(RegisterPair::B, 0xff, 0xff), &DummyInOut).unwrap();
    s.execute(Instruction::Inx(RegisterPair::B), &DummyInOut).unwrap();
    assert_eq!(s.cpu().get_rp(RegisterPair::B), 0);
    assert_eq!(s.cpu().flags(), flags);
    s.execute(Instruction::Dcx(RegisterPair::B), &DummyInOut).unwrap();
    assert_eq!(s.cpu().get_rp(RegisterPair::B), 0xffff);
    assert_eq!(s.cpu().flags(), flags);
    s.execute(Instruction::Inx(RegisterPair::SP), &DummyInOut).unwrap();
    assert_eq!(s.cpu().sp(), 0xff01);
    assert_eq!(s.cpu().flags(), flags);
    s.execute(Instruction::Dcx(RegisterPair::SP), &DummyInOut).unwrap();
    assert_eq!(s.cpu().sp(), 0xff00);
    assert_eq!(s.cpu().flags(), flags);
}

#[test]
fn inr_dcr_leave_carry_alone() {
    let mut s = full_system();
    s.execute(Instruction::Stc, &DummyInOut).unwrap();
    s.execute(Instruction::Mvi(Register::B, 0xff), &DummyInOut).unwrap();
    s.execute(Instruction::Inr(Register::B), &DummyInOut).unwrap();
    assert_eq!(s.cpu().get(Register::B), 0);
    assert!(s.cpu().z());
    assert!(s.cpu().cy());
    s.execute(Instruction::Dcr(Register::B), &DummyInOut).unwrap();
    assert_eq!(s.cpu().get(Register::B), 0xff);
    assert!(s.cpu().cy());
}

#[test]
fn dad_carry() {
    let mut s = full_system();
    s.execute(Instruction::Lxi(RegisterPair::H, 0xff, 0xff), &DummyInOut).unwrap();
    s.execute(Instruction::Lxi(RegisterPair::B, 0x01, 0x00), &DummyInOut).unwrap();
    s.execute(Instruction::Dad(RegisterPair::B), &DummyInOut).unwrap();
    assert_eq!(s.cpu().get_rp(RegisterPair::H), 0);
    assert!(s.cpu().cy());

    let mut s = full_system();
    s.execute(Instruction::Lxi(RegisterPair::H, 0x34, 0x12), &DummyInOut).unwrap();
    s.execute(Instruction::Lxi(RegisterPair::B, 0x01, 0x00), &DummyInOut).unwrap();
    s.execute(Instruction::Dad(RegisterPair::B), &DummyInOut).unwrap();
    assert_eq!(s.cpu().get_rp(RegisterPair::H), 0x1235);
    assert!(!s.cpu().cy());
}

#[test]
fn cmp_leaves_accumulator() {
    let mut s = full_system();
    s.execute(Instruction::Mvi(Register::A, 5), &DummyInOut).unwrap();
    s.execute(Instruction::Cpi(3), &DummyInOut).unwrap();
    assert_eq!(s.cpu().a(), 5);
    let cmp_flags = s.cpu().flags();

    let mut s = full_system();
    s.execute(Instruction::Mvi(Register::A, 5), &DummyInOut).unwrap();
    s.execute(Instruction::Sui(3), &DummyInOut).unwrap();
    assert_eq!(s.cpu().a(), 2);
    assert_eq!(s.cpu().flags(), cmp_flags);
}

#[test]
fn result_flags() {
    // XRA A clears the accumulator: Z set, S clear, P even, CY clear.
    let mut s = full_system();
    s.execute(Instruction::Mvi(Register::A, 0x5a), &DummyInOut).unwrap();
    s.execute(Instruction::Xra(Register::A), &DummyInOut).unwrap();
    assert_eq!(s.cpu().a(), 0);
    assert!(s.cpu().z());
    assert!(!s.cpu().s());
    assert!(s.cpu().p());
    assert!(!s.cpu().cy());

    // 0x80 + 0x03: sign set, three bits set so parity odd.
    let mut s = full_system();
    s.execute(Instruction::Mvi(Register::A, 0x80), &DummyInOut).unwrap();
    s.execute(Instruction::Adi(0x03), &DummyInOut).unwrap();
    assert_eq!(s.cpu().a(), 0x83);
    assert!(!s.cpu().z());
    assert!(s.cpu().s());
    assert!(!s.cpu().p());

    // 0x81 + 0x81 = 0x02 with carry: two's parity is even.
    let mut s = full_system();
    s.execute(Instruction::Mvi(Register::A, 0x81), &DummyInOut).unwrap();
    s.execute(Instruction::Adi(0x81), &DummyInOut).unwrap();
    assert_eq!(s.cpu().a(), 0x02);
    assert!(s.cpu().cy());
    assert!(!s.cpu().s());
    assert!(!s.cpu().z());
}

#[test]
fn mov_through_memory() {
    let mut s = full_system();
    s.execute(Instruction::Lxi(RegisterPair::H, 0x00, 0x24), &DummyInOut).unwrap();
    s.execute(Instruction::Mvi(Register::M, 0x7f), &DummyInOut).unwrap();
    assert_eq!(s.ram().get(0x2400), Ok(0x7f));
    s.execute(Instruction::Mov(Register::C, Register::M), &DummyInOut).unwrap();
    assert_eq!(s.cpu().get(Register::C), 0x7f);
    s.execute(Instruction::Mvi(Register::B, 0x11), &DummyInOut).unwrap();
    s.execute(Instruction::Mov(Register::M, Register::B), &DummyInOut).unwrap();
    assert_eq!(s.ram().get(0x2400), Ok(0x11));
}

#[test]
fn xchg_xthl_sphl_pchl() {
    let mut s = full_system();
    s.execute(Instruction::Lxi(RegisterPair::D, 0x22, 0x11), &DummyInOut).unwrap();
    s.execute(Instruction::Lxi(RegisterPair::H, 0x44, 0x33), &DummyInOut).unwrap();
    s.execute(Instruction::Xchg, &DummyInOut).unwrap();
    assert_eq!(s.cpu().get_rp(RegisterPair::D), 0x3344);
    assert_eq!(s.cpu().get_rp(RegisterPair::H), 0x1122);

    s.execute(Instruction::Push(RegisterPair::D), &DummyInOut).unwrap();
    s.execute(Instruction::Xthl, &DummyInOut).unwrap();
    assert_eq!(s.cpu().get_rp(RegisterPair::H), 0x3344);

    s.execute(Instruction::Sphl, &DummyInOut).unwrap();
    assert_eq!(s.cpu().sp(), 0x3344);

    s.execute(Instruction::Pchl, &DummyInOut).unwrap();
    assert_eq!(s.cpu().pc(), 0x3344);
}

#[test]
fn load_store_wide() {
    let mut s = full_system();
    s.execute(Instruction::Lxi(RegisterPair::H, 0xcd, 0xab), &DummyInOut).unwrap();
    s.execute(Instruction::Shld(0x2400), &DummyInOut).unwrap();
    assert_eq!(s.ram().get(0x2400), Ok(0xcd));
    assert_eq!(s.ram().get(0x2401), Ok(0xab));
    s.execute(Instruction::Lxi(RegisterPair::H, 0, 0), &DummyInOut).unwrap();
    s.execute(Instruction::Lhld(0x2400), &DummyInOut).unwrap();
    assert_eq!(s.cpu().get_rp(RegisterPair::H), 0xabcd);

    s.execute(Instruction::Mvi(Register::A, 0x66), &DummyInOut).unwrap();
    s.execute(Instruction::Sta(0x3000), &DummyInOut).unwrap();
    s.execute(Instruction::Mvi(Register::A, 0), &DummyInOut).unwrap();
    s.execute(Instruction::Lda(0x3000), &DummyInOut).unwrap();
    assert_eq!(s.cpu().a(), 0x66);

    s.execute(Instruction::Lxi(RegisterPair::B, 0x01, 0x30), &DummyInOut).unwrap();
    s.execute(Instruction::Mvi(Register::A, 0x77), &DummyInOut).unwrap();
    s.execute(Instruction::Stax(RegisterPair::B), &DummyInOut).unwrap();
    s.execute(Instruction::Mvi(Register::A, 0), &DummyInOut).unwrap();
    s.execute(Instruction::Ldax(RegisterPair::B), &DummyInOut).unwrap();
    assert_eq!(s.cpu().a(), 0x77);
}

#[test]
fn conditional_branches() {
    let mut s = full_system();
    // Z is clear after 1 - 0: a false JZ falls through, a true JNZ jumps.
    s.execute(Instruction::Mvi(Register::A, 1), &DummyInOut).unwrap();
    s.execute(Instruction::Sui(0), &DummyInOut).unwrap();
    let pc = s.cpu().pc();
    let r = s.execute(Instruction::Jz(0x1234), &DummyInOut).unwrap();
    assert_eq!(s.cpu().pc(), pc + 3);
    assert_eq!(r, Some(10));
    s.execute(Instruction::Jnz(0x1234), &DummyInOut).unwrap();
    assert_eq!(s.cpu().pc(), 0x1234);

    // A conditional call that takes the branch costs five extra cycles.
    let sp = s.cpu().sp();
    let r = s.execute(Instruction::Cnz(0x0200), &DummyInOut).unwrap();
    assert_eq!(r, Some(16));
    assert_eq!(s.cpu().pc(), 0x0200);
    let r = s.execute(Instruction::Cz(0x0300), &DummyInOut).unwrap();
    assert_eq!(r, Some(11));
    assert_eq!(s.cpu().pc(), 0x0203);

    // A conditional return that takes the branch also adds five.
    let r = s.execute(Instruction::Rnz, &DummyInOut).unwrap();
    assert_eq!(r, Some(10));
    assert_eq!(s.cpu().pc(), 0x1237);
    assert_eq!(s.cpu().sp(), sp);
    let r = s.execute(Instruction::Rz, &DummyInOut).unwrap();
    assert_eq!(r, Some(5));
    assert_eq!(s.cpu().pc(), 0x1238);
}

#[test]
fn halt_keeps_state() {
    let mut s = full_system();
    let pc = s.cpu().pc();
    let r = s.execute(Instruction::Hlt, &DummyInOut).unwrap();
    assert_eq!(r, None);
    assert_eq!(s.cpu().pc(), pc);
}

#[test]
fn ports_roundtrip() {
    let mut s = full_system();
    s.execute(Instruction::In(4), &EchoPorts).unwrap();
    assert_eq!(s.cpu().a(), 5);
    s.execute(Instruction::Out(2), &EchoPorts).unwrap();
    assert_eq!(s.cpu().a(), 5);
}
