use emulator101::in_out::DummyInOut;
use emulator101::op_code::{Instruction, Register, RegisterPair};
use emulator101::ram::{MemoryError, Ram};
use emulator101::system::System;

fn system() -> System {
    let ram = Ram::new(0x1000, false);
    let init_stack = Instruction::Lxi(RegisterPair::SP, 0, 0xff);
    let mut s = System::new(ram, 0);
    s.execute(init_stack, &DummyInOut).unwrap();
    s
}

#[test]
fn overflow_sub_page_13() {
    let mut s = system();
    s.execute(Instruction::Mvi(Register::A, 197), &DummyInOut).unwrap();
    s.execute(Instruction::Sui(98), &DummyInOut).unwrap();
    assert!(!s.cpu().cy());
    assert_eq!(s.cpu().get(Register::A), 99);

    let mut s = system();
    s.execute(Instruction::Mvi(Register::A, 12), &DummyInOut).unwrap();
    s.execute(Instruction::Sui(15), &DummyInOut).unwrap();
    assert!(s.cpu().cy());
    assert_eq!(s.cpu().get(Register::A), -3i8 as u8);
}

#[test]
fn daa_page_56() {
    let ulhs = 0x29;
    let llhs = 0x85;
    let urhs = 0x49;
    let lrhs = 0x36;

    let mut s = system();

    s.execute(Instruction::Mvi(Register::A, llhs), &DummyInOut).unwrap();
    s.execute(Instruction::Adi(lrhs), &DummyInOut).unwrap();
    assert!(!s.cpu().cy());
    assert!(!s.cpu().ac());
    assert_eq!(s.cpu().get(Register::A), 0xbb);

    s.execute(Instruction::Daa, &DummyInOut).unwrap();
    assert_eq!(s.cpu().get(Register::A), 0x21);
    assert!(s.cpu().cy());

    s.execute(Instruction::Mvi(Register::A, ulhs), &DummyInOut).unwrap();
    s.execute(Instruction::Aci(urhs), &DummyInOut).unwrap();
    assert!(!s.cpu().cy());
    assert!(s.cpu().ac());
    assert_eq!(s.cpu().get(Register::A), 0x73);

    s.execute(Instruction::Daa, &DummyInOut).unwrap();
    assert_eq!(s.cpu().get(Register::A), 0x79);
    assert!(!s.cpu().cy());
}

#[test]
fn daa_auto_test_5a3() {
    let a = 0x88;
    let cpi = 0x76;

    let mut s = system();
    s.execute(Instruction::Mvi(Register::A, a), &DummyInOut).unwrap();
    s.execute(Instruction::Add(Register::A), &DummyInOut).unwrap();
    s.execute(Instruction::Daa, &DummyInOut).unwrap();
    s.execute(Instruction::Cpi(cpi), &DummyInOut).unwrap();
    assert_eq!(s.cpu().a(), cpi);
}

#[test]
fn rom_boundaries() {
    let mut ram = Ram::new(100, false);
    ram.register_rom(&[0; 10], 50).unwrap();
    ram.register_rom(&[0; 20], 60).unwrap();

    assert!(ram.write(0, 0).is_ok());
    assert!(ram.write(49, 0).is_ok());

    assert!(matches!(ram.write(50, 0), Err(MemoryError::ReadOnlyWrite(_))));
    assert!(matches!(ram.write(59, 0), Err(MemoryError::ReadOnlyWrite(_))));
    assert!(matches!(ram.write(60, 0), Err(MemoryError::ReadOnlyWrite(_))));
    assert!(matches!(ram.write(79, 0), Err(MemoryError::ReadOnlyWrite(_))));

    assert!(ram.write(80, 0).is_ok());
    assert!(ram.write(99, 0).is_ok());

    assert!(matches!(ram.write(100, 0), Err(MemoryError::OutOfBoundRead(_))));
}

#[test]
fn rom_overlap() {
    let mut ram = Ram::new(100, false);
    ram.register_rom(&[0; 10], 50).unwrap();
    assert_eq!(
        ram.register_rom(&[0; 20], 55),
        Err(MemoryError::OverlappingRomSections(50, 10, 55, 20))
    );
}
