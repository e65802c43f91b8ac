//! The 8080 instruction set: registers, register pairs, the decoded
//! instruction type, and the decoder that reads one instruction from a
//! byte slice, together with the instruction size and base cycle tables.

use vstd::prelude::*;

use crate::arith::word;

verus! {

/// An 8-bit register name, plus the pseudo-operand `M` that denotes the
/// memory byte addressed by the HL pair.
#[derive(Copy, Clone, Debug, Eq, PartialEq, Structural)]
pub enum Register {
    A,
    F,
    B,
    C,
    D,
    E,
    H,
    L,
    M,
}

/// A 16-bit register pair: PSW is (A, F); SP never splits into bytes.
#[derive(Copy, Clone, Debug, Eq, PartialEq, Structural)]
pub enum RegisterPair {
    PSW,
    B,
    D,
    H,
    SP,
}

/// The high (first) register of a splittable pair.
pub open spec fn pair_high(rp: RegisterPair) -> Register {
    match rp {
        RegisterPair::PSW => Register::A,
        RegisterPair::B => Register::B,
        RegisterPair::D => Register::D,
        RegisterPair::H => Register::H,
        RegisterPair::SP => Register::A,
    }
}

/// The low (second) register of a splittable pair.
pub open spec fn pair_low(rp: RegisterPair) -> Register {
    match rp {
        RegisterPair::PSW => Register::F,
        RegisterPair::B => Register::C,
        RegisterPair::D => Register::E,
        RegisterPair::H => Register::L,
        RegisterPair::SP => Register::F,
    }
}

impl RegisterPair {
    /// The component registers (high, low) of an 8-bit pair; SP has none.
    pub fn split(self) -> (r: (Register, Register))
        requires
            self != RegisterPair::SP,
        ensures
            r.0 == pair_high(self),
            r.1 == pair_low(self),
    {
        match self {
            RegisterPair::PSW => (Register::A, Register::F),
            RegisterPair::B => (Register::B, Register::C),
            RegisterPair::D => (Register::D, Register::E),
            RegisterPair::H => (Register::H, Register::L),
            RegisterPair::SP => (Register::A, Register::F),
        }
    }
}

/// One decoded 8080 instruction, carrying its operands.
#[derive(Copy, Clone, Debug, Eq, PartialEq, Structural)]
pub enum Instruction {
    Aci(u8),
    Adc(Register),
    Add(Register),
    Adi(u8),
    Ana(Register),
    Ani(u8),
    Call(u16),
    Cc(u16),
    Cm(u16),
    Cma,
    Cmc,
    Cmp(Register),
    Cnc(u16),
    Cnz(u16),
    Cp(u16),
    Cpe(u16),
    Cpi(u8),
    Cpo(u16),
    Cz(u16),
    Daa,
    Dad(RegisterPair),
    Dcr(Register),
    Dcx(RegisterPair),
    Di,
    Ei,
    Hlt,
    In(u8),
    Inr(Register),
    Inx(RegisterPair),
    Jc(u16),
    Jm(u16),
    Jmp(u16),
    Jnc(u16),
    Jnz(u16),
    Jp(u16),
    Jpe(u16),
    Jpo(u16),
    Jz(u16),
    Lda(u16),
    Ldax(RegisterPair),
    Lhld(u16),
    Lxi(RegisterPair, u8, u8),
    Mov(Register, Register),
    Mvi(Register, u8),
    Nop,
    Ora(Register),
    Ori(u8),
    Out(u8),
    Pchl,
    Pop(RegisterPair),
    Push(RegisterPair),
    Ral,
    Rar,
    Rc,
    Ret,
    Rlc,
    Rm,
    Rnc,
    Rnz,
    Rp,
    Rpe,
    Rpo,
    Rrc,
    Rst(u8),
    Rz,
    Sbb(Register),
    Sbi(u8),
    Shld(u16),
    Sphl,
    Sta(u16),
    Stax(RegisterPair),
    Stc,
    Sub(Register),
    Sui(u8),
    Xchg,
    Xra(Register),
    Xri(u8),
    Xthl,
}

/// Errors of the instruction decoder.
#[derive(Copy, Clone, Debug, Eq, PartialEq, Structural)]
pub enum OpCodeError {
    EndOfDataInstr,
    EndOfDataParam(u8),
    WrongInstruction(u8),
}

/// How many bytes an opcode occupies, operands included.
pub open spec fn arg_len(op: u8) -> int {
    match op {
        0x01 => 3,
        0x06 => 2,
        0x0e => 2,
        0x11 => 3,
        0x16 => 2,
        0x1e => 2,
        0x21 => 3,
        0x22 => 3,
        0x26 => 2,
        0x2a => 3,
        0x2e => 2,
        0x31 => 3,
        0x32 => 3,
        0x36 => 2,
        0x3a => 3,
        0x3e => 2,
        0xc2 => 3,
        0xc3 => 3,
        0xc4 => 3,
        0xc6 => 2,
        0xca => 3,
        0xcc => 3,
        0xcd => 3,
        0xce => 2,
        0xd2 => 3,
        0xd3 => 2,
        0xd4 => 3,
        0xd6 => 2,
        0xda => 3,
        0xdb => 2,
        0xdc => 3,
        0xde => 2,
        0xe2 => 3,
        0xe4 => 3,
        0xe6 => 2,
        0xea => 3,
        0xec => 3,
        0xee => 2,
        0xf2 => 3,
        0xf4 => 3,
        0xf6 => 2,
        0xfa => 3,
        0xfc => 3,
        0xfe => 2,
        _ => 1,
    }
}

/// The instruction an opcode decodes to, given its operand bytes; one-byte
/// instructions ignore both operands and two-byte instructions ignore the
/// high one. Opcodes outside the published table decode to NOP, as the
/// hardware treats them.
pub open spec fn decode(op: u8, lo: u8, hi: u8) -> Instruction {
    match op {
        0x01 => Instruction::Lxi(RegisterPair::B, lo, hi),
        0x11 => Instruction::Lxi(RegisterPair::D, lo, hi),
        0x21 => Instruction::Lxi(RegisterPair::H, lo, hi),
        0x22 => Instruction::Shld(word(lo, hi)),
        0x2a => Instruction::Lhld(word(lo, hi)),
        0x31 => Instruction::Lxi(RegisterPair::SP, lo, hi),
        0x32 => Instruction::Sta(word(lo, hi)),
        0x3a => Instruction::Lda(word(lo, hi)),
        0xc2 => Instruction::Jnz(word(lo, hi)),
        0xc3 => Instruction::Jmp(word(lo, hi)),
        0xc4 => Instruction::Cnz(word(lo, hi)),
        0xca => Instruction::Jz(word(lo, hi)),
        0xcc => Instruction::Cz(word(lo, hi)),
        0xcd => Instruction::Call(word(lo, hi)),
        0xd2 => Instruction::Jnc(word(lo, hi)),
        0xd4 => Instruction::Cnc(word(lo, hi)),
        0xda => Instruction::Jc(word(lo, hi)),
        0xdc => Instruction::Cc(word(lo, hi)),
        0xe2 => Instruction::Jpo(word(lo, hi)),
        0xe4 => Instruction::Cpo(word(lo, hi)),
        0xea => Instruction::Jpe(word(lo, hi)),
        0xec => Instruction::Cpe(word(lo, hi)),
        0xf2 => Instruction::Jp(word(lo, hi)),
        0xf4 => Instruction::Cp(word(lo, hi)),
        0xfa => Instruction::Jm(word(lo, hi)),
        0xfc => Instruction::Cm(word(lo, hi)),
        0x06 => Instruction::Mvi(Register::B, lo),
        0x0e => Instruction::Mvi(Register::C, lo),
        0x16 => Instruction::Mvi(Register::D, lo),
        0x1e => Instruction::Mvi(Register::E, lo),
        0x26 => Instruction::Mvi(Register::H, lo),
        0x2e => Instruction::Mvi(Register::L, lo),
        0x36 => Instruction::Mvi(Register::M, lo),
        0x3e => Instruction::Mvi(Register::A, lo),
        0xc6 => Instruction::Adi(lo),
        0xce => Instruction::Aci(lo),
        0xd3 => Instruction::Out(lo),
        0xd6 => Instruction::Sui(lo),
        0xdb => Instruction::In(lo),
        0xde => Instruction::Sbi(lo),
        0xe6 => Instruction::Ani(lo),
        0xee => Instruction::Xri(lo),
        0xf6 => Instruction::Ori(lo),
        0xfe => Instruction::Cpi(lo),
        0x02 => Instruction::Stax(RegisterPair::B),
        0x03 => Instruction::Inx(RegisterPair::B),
        0x04 => Instruction::Inr(Register::B),
        0x05 => Instruction::Dcr(Register::B),
        0x07 => Instruction::Rlc,
        0x09 => Instruction::Dad(RegisterPair::B),
        0x0a => Instruction::Ldax(RegisterPair::B),
        0x0b => Instruction::Dcx(RegisterPair::B),
        0x0c => Instruction::Inr(Register::C),
        0x0d => Instruction::Dcr(Register::C),
        0x0f => Instruction::Rrc,
        0x12 => Instruction::Stax(RegisterPair::D),
        0x13 => Instruction::Inx(RegisterPair::D),
        0x14 => Instruction::Inr(Register::D),
        0x15 => Instruction::Dcr(Register::D),
        0x17 => Instruction::Ral,
        0x19 => Instruction::Dad(RegisterPair::D),
        0x1a => Instruction::Ldax(RegisterPair::D),
        0x1b => Instruction::Dcx(RegisterPair::D),
        0x1c => Instruction::Inr(Register::E),
        0x1d => Instruction::Dcr(Register::E),
        0x1f => Instruction::Rar,
        0x23 => Instruction::Inx(RegisterPair::H),
        0x24 => Instruction::Inr(Register::H),
        0x25 => Instruction::Dcr(Register::H),
        0x27 => Instruction::Daa,
        0x29 => Instruction::Dad(RegisterPair::H),
        0x2b => Instruction::Dcx(RegisterPair::H),
        0x2c => Instruction::Inr(Register::L),
        0x2d => Instruction::Dcr(Register::L),
        0x2f => Instruction::Cma,
        0x33 => Instruction::Inx(RegisterPair::SP),
        0x34 => Instruction::Inr(Register::M),
        0x35 => Instruction::Dcr(Register::M),
        0x37 => Instruction::Stc,
        0x39 => Instruction::Dad(RegisterPair::SP),
        0x3b => Instruction::Dcx(RegisterPair::SP),
        0x3c => Instruction::Inr(Register::A),
        0x3d => Instruction::Dcr(Register::A),
        0x3f => Instruction::Cmc,
        0x40 => Instruction::Mov(Register::B, Register::B),
        0x41 => Instruction::Mov(Register::B, Register::C),
        0x42 => Instruction::Mov(Register::B, Register::D),
        0x43 => Instruction::Mov(Register::B, Register::E),
        0x44 => Instruction::Mov(Register::B, Register::H),
        0x45 => Instruction::Mov(Register::B, Register::L),
        0x46 => Instruction::Mov(Register::B, Register::M),
        0x47 => Instruction::Mov(Register::B, Register::A),
        0x48 => Instruction::Mov(Register::C, Register::B),
        0x49 => Instruction::Mov(Register::C, Register::C),
        0x4a => Instruction::Mov(Register::C, Register::D),
        0x4b => Instruction::Mov(Register::C, Register::E),
        0x4c => Instruction::Mov(Register::C, Register::H),
        0x4d => Instruction::Mov(Register::C, Register::L),
        0x4e => Instruction::Mov(Register::C, Register::M),
        0x4f => Instruction::Mov(Register::C, Register::A),
        0x50 => Instruction::Mov(Register::D, Register::B),
        0x51 => Instruction::Mov(Register::D, Register::C),
        0x52 => Instruction::Mov(Register::D, Register::D),
        0x53 => Instruction::Mov(Register::D, Register::E),
        0x54 => Instruction::Mov(Register::D, Register::H),
        0x55 => Instruction::Mov(Register::D, Register::L),
        0x56 => Instruction::Mov(Register::D, Register::M),
        0x57 => Instruction::Mov(Register::D, Register::A),
        0x58 => Instruction::Mov(Register::E, Register::B),
        0x59 => Instruction::Mov(Register::E, Register::C),
        0x5a => Instruction::Mov(Register::E, Register::D),
        0x5b => Instruction::Mov(Register::E, Register::E),
        0x5c => Instruction::Mov(Register::E, Register::H),
        0x5d => Instruction::Mov(Register::E, Register::L),
        0x5e => Instruction::Mov(Register::E, Register::M),
        0x5f => Instruction::Mov(Register::E, Register::A),
        0x60 => Instruction::Mov(Register::H, Register::B),
        0x61 => Instruction::Mov(Register::H, Register::C),
        0x62 => Instruction::Mov(Register::H, Register::D),
        0x63 => Instruction::Mov(Register::H, Register::E),
        0x64 => Instruction::Mov(Register::H, Register::H),
        0x65 => Instruction::Mov(Register::H, Register::L),
        0x66 => Instruction::Mov(Register::H, Register::M),
        0x67 => Instruction::Mov(Register::H, Register::A),
        0x68 => Instruction::Mov(Register::L, Register::B),
        0x69 => Instruction::Mov(Register::L, Register::C),
        0x6a => Instruction::Mov(Register::L, Register::D),
        0x6b => Instruction::Mov(Register::L, Register::E),
        0x6c => Instruction::Mov(Register::L, Register::H),
        0x6d => Instruction::Mov(Register::L, Register::L),
        0x6e => Instruction::Mov(Register::L, Register::M),
        0x6f => Instruction::Mov(Register::L, Register::A),
        0x70 => Instruction::Mov(Register::M, Register::B),
        0x71 => Instruction::Mov(Register::M, Register::C),
        0x72 => Instruction::Mov(Register::M, Register::D),
        0x73 => Instruction::Mov(Register::M, Register::E),
        0x74 => Instruction::Mov(Register::M, Register::H),
        0x75 => Instruction::Mov(Register::M, Register::L),
        0x76 => Instruction::Hlt,
        0x77 => Instruction::Mov(Register::M, Register::A),
        0x78 => Instruction::Mov(Register::A, Register::B),
        0x79 => Instruction::Mov(Register::A, Register::C),
        0x7a => Instruction::Mov(Register::A, Register::D),
        0x7b => Instruction::Mov(Register::A, Register::E),
        0x7c => Instruction::Mov(Register::A, Register::H),
        0x7d => Instruction::Mov(Register::A, Register::L),
        0x7e => Instruction::Mov(Register::A, Register::M),
        0x7f => Instruction::Mov(Register::A, Register::A),
        0x80 => Instruction::Add(Register::B),
        0x81 => Instruction::Add(Register::C),
        0x82 => Instruction::Add(Register::D),
        0x83 => Instruction::Add(Register::E),
        0x84 => Instruction::Add(Register::H),
        0x85 => Instruction::Add(Register::L),
        0x86 => Instruction::Add(Register::M),
        0x87 => Instruction::Add(Register::A),
        0x88 => Instruction::Adc(Register::B),
        0x89 => Instruction::Adc(Register::C),
        0x8a => Instruction::Adc(Register::D),
        0x8b => Instruction::Adc(Register::E),
        0x8c => Instruction::Adc(Register::H),
        0x8d => Instruction::Adc(Register::L),
        0x8e => Instruction::Adc(Register::M),
        0x8f => Instruction::Adc(Register::A),
        0x90 => Instruction::Sub(Register::B),
        0x91 => Instruction::Sub(Register::C),
        0x92 => Instruction::Sub(Register::D),
        0x93 => Instruction::Sub(Register::E),
        0x94 => Instruction::Sub(Register::H),
        0x95 => Instruction::Sub(Register::L),
        0x96 => Instruction::Sub(Register::M),
        0x97 => Instruction::Sub(Register::A),
        0x98 => Instruction::Sbb(Register::B),
        0x99 => Instruction::Sbb(Register::C),
        0x9a => Instruction::Sbb(Register::D),
        0x9b => Instruction::Sbb(Register::E),
        0x9c => Instruction::Sbb(Register::H),
        0x9d => Instruction::Sbb(Register::L),
        0x9e => Instruction::Sbb(Register::M),
        0x9f => Instruction::Sbb(Register::A),
        0xa0 => Instruction::Ana(Register::B),
        0xa1 => Instruction::Ana(Register::C),
        0xa2 => Instruction::Ana(Register::D),
        0xa3 => Instruction::Ana(Register::E),
        0xa4 => Instruction::Ana(Register::H),
        0xa5 => Instruction::Ana(Register::L),
        0xa6 => Instruction::Ana(Register::M),
        0xa7 => Instruction::Ana(Register::A),
        0xa8 => Instruction::Xra(Register::B),
        0xa9 => Instruction::Xra(Register::C),
        0xaa => Instruction::Xra(Register::D),
        0xab => Instruction::Xra(Register::E),
        0xac => Instruction::Xra(Register::H),
        0xad => Instruction::Xra(Register::L),
        0xae => Instruction::Xra(Register::M),
        0xaf => Instruction::Xra(Register::A),
        0xb0 => Instruction::Ora(Register::B),
        0xb1 => Instruction::Ora(Register::C),
        0xb2 => Instruction::Ora(Register::D),
        0xb3 => Instruction::Ora(Register::E),
        0xb4 => Instruction::Ora(Register::H),
        0xb5 => Instruction::Ora(Register::L),
        0xb6 => Instruction::Ora(Register::M),
        0xb7 => Instruction::Ora(Register::A),
        0xb8 => Instruction::Cmp(Register::B),
        0xb9 => Instruction::Cmp(Register::C),
        0xba => Instruction::Cmp(Register::D),
        0xbb => Instruction::Cmp(Register::E),
        0xbc => Instruction::Cmp(Register::H),
        0xbd => Instruction::Cmp(Register::L),
        0xbe => Instruction::Cmp(Register::M),
        0xbf => Instruction::Cmp(Register::A),
        0xc0 => Instruction::Rnz,
        0xc1 => Instruction::Pop(RegisterPair::B),
        0xc5 => Instruction::Push(RegisterPair::B),
        0xc7 => Instruction::Rst(0),
        0xc8 => Instruction::Rz,
        0xc9 => Instruction::Ret,
        0xcf => Instruction::Rst(1),
        0xd0 => Instruction::Rnc,
        0xd1 => Instruction::Pop(RegisterPair::D),
        0xd5 => Instruction::Push(RegisterPair::D),
        0xd7 => Instruction::Rst(2),
        0xd8 => Instruction::Rc,
        0xdf => Instruction::Rst(3),
        0xe0 => Instruction::Rpo,
        0xe1 => Instruction::Pop(RegisterPair::H),
        0xe3 => Instruction::Xthl,
        0xe5 => Instruction::Push(RegisterPair::H),
        0xe7 => Instruction::Rst(4),
        0xe8 => Instruction::Rpe,
        0xe9 => Instruction::Pchl,
        0xeb => Instruction::Xchg,
        0xef => Instruction::Rst(5),
        0xf0 => Instruction::Rp,
        0xf1 => Instruction::Pop(RegisterPair::PSW),
        0xf3 => Instruction::Di,
        0xf5 => Instruction::Push(RegisterPair::PSW),
        0xf7 => Instruction::Rst(6),
        0xf8 => Instruction::Rm,
        0xf9 => Instruction::Sphl,
        0xfb => Instruction::Ei,
        0xff => Instruction::Rst(7),
        _ => Instruction::Nop,
    }
}
/// The byte length (1 to 3) of a decoded instruction.
pub open spec fn instr_size(i: Instruction) -> u16 {
    match i {
        Instruction::Lxi(_, _, _) | Instruction::Shld(_) | Instruction::Lhld(_)
        | Instruction::Sta(_) | Instruction::Lda(_) | Instruction::Jnz(_)
        | Instruction::Jmp(_) | Instruction::Cnz(_) | Instruction::Jz(_)
        | Instruction::Cz(_) | Instruction::Call(_) | Instruction::Jnc(_)
        | Instruction::Cnc(_) | Instruction::Jc(_) | Instruction::Cc(_)
        | Instruction::Jpo(_) | Instruction::Cpo(_) | Instruction::Jpe(_)
        | Instruction::Cpe(_) | Instruction::Jp(_) | Instruction::Cp(_) | Instruction::Jm(_)
        | Instruction::Cm(_) => 3,
        Instruction::Mvi(_, _) | Instruction::Adi(_) | Instruction::Aci(_)
        | Instruction::Out(_) | Instruction::Sui(_) | Instruction::In(_)
        | Instruction::Sbi(_) | Instruction::Ani(_) | Instruction::Xri(_)
        | Instruction::Ori(_) | Instruction::Cpi(_) => 2,
        _ => 1,
    }
}

/// The base cycle count of an instruction, before the taken-branch bonus
/// of conditional calls and returns.
pub open spec fn instr_cycles(i: Instruction) -> u8 {
    match i {
        Instruction::Xthl => 18,
        Instruction::Call(_) => 17,
        Instruction::Shld(_) | Instruction::Lhld(_) => 16,
        Instruction::Sta(_) | Instruction::Lda(_) => 13,
        Instruction::Cc(_) | Instruction::Cnc(_) | Instruction::Cz(_) | Instruction::Cnz(_)
        | Instruction::Cp(_) | Instruction::Cm(_) | Instruction::Cpe(_)
        | Instruction::Cpo(_) | Instruction::Rst(_) | Instruction::Push(_) => 11,
        Instruction::Dad(_) | Instruction::Pop(_) | Instruction::In(_) | Instruction::Out(_)
        | Instruction::Lxi(_, _, _) | Instruction::Ret | Instruction::Jmp(_)
        | Instruction::Jc(_) | Instruction::Jnc(_) | Instruction::Jz(_)
        | Instruction::Jnz(_) | Instruction::Jp(_) | Instruction::Jm(_)
        | Instruction::Jpe(_) | Instruction::Jpo(_) => 10,
        Instruction::Inr(Register::M) | Instruction::Dcr(Register::M)
        | Instruction::Mvi(Register::M, _) => 10,
        Instruction::Hlt | Instruction::Ldax(_) | Instruction::Stax(_)
        | Instruction::Add(Register::M) | Instruction::Adc(Register::M)
        | Instruction::Sub(Register::M) | Instruction::Sbb(Register::M)
        | Instruction::Xra(Register::M) | Instruction::Ora(Register::M)
        | Instruction::Cmp(Register::M) | Instruction::Ana(Register::M) => 7,
        Instruction::Adi(_) | Instruction::Aci(_) | Instruction::Sui(_)
        | Instruction::Sbi(_) | Instruction::Ani(_) | Instruction::Xri(_)
        | Instruction::Ori(_) | Instruction::Cpi(_) | Instruction::Mvi(_, _)
        | Instruction::Mov(Register::M, _) | Instruction::Mov(_, Register::M) => 7,
        Instruction::Pchl | Instruction::Sphl | Instruction::Rc | Instruction::Rnc
        | Instruction::Rz | Instruction::Rnz | Instruction::Rp | Instruction::Rm
        | Instruction::Rpe | Instruction::Rpo | Instruction::Dcx(_) | Instruction::Inx(_)
        | Instruction::Mov(_, _) | Instruction::Inr(_) | Instruction::Dcr(_) => 5,
        _ => 4,
    }
}

impl Instruction {
    /// The byte length of this instruction.
    pub fn size(self) -> (r: u16)
        ensures
            r == instr_size(self),
            1 <= r <= 3,
    {
        match self {
            Instruction::Lxi(_, _, _) | Instruction::Shld(_) | Instruction::Lhld(_)
            | Instruction::Sta(_) | Instruction::Lda(_) | Instruction::Jnz(_)
            | Instruction::Jmp(_) | Instruction::Cnz(_) | Instruction::Jz(_)
            | Instruction::Cz(_) | Instruction::Call(_) | Instruction::Jnc(_)
            | Instruction::Cnc(_) | Instruction::Jc(_) | Instruction::Cc(_)
            | Instruction::Jpo(_) | Instruction::Cpo(_) | Instruction::Jpe(_)
            | Instruction::Cpe(_) | Instruction::Jp(_) | Instruction::Cp(_)
            | Instruction::Jm(_) | Instruction::Cm(_) => 3,
            Instruction::Mvi(_, _) | Instruction::Adi(_) | Instruction::Aci(_)
            | Instruction::Out(_) | Instruction::Sui(_) | Instruction::In(_)
            | Instruction::Sbi(_) | Instruction::Ani(_) | Instruction::Xri(_)
            | Instruction::Ori(_) | Instruction::Cpi(_) => 2,
            _ => 1,
        }
    }

    /// The base cycle count of this instruction.
    pub fn cycles(self) -> (r: u8)
        ensures
            r == instr_cycles(self),
    {
        match self {
            Instruction::Xthl => 18,
            Instruction::Call(_) => 17,
            Instruction::Shld(_) | Instruction::Lhld(_) => 16,
            Instruction::Sta(_) | Instruction::Lda(_) => 13,
            Instruction::Cc(_) | Instruction::Cnc(_) | Instruction::Cz(_)
            | Instruction::Cnz(_) | Instruction::Cp(_) | Instruction::Cm(_)
            | Instruction::Cpe(_) | Instruction::Cpo(_) | Instruction::Rst(_)
            | Instruction::Push(_) => 11,
            Instruction::Dad(_) | Instruction::Pop(_) | Instruction::In(_)
            | Instruction::Out(_) | Instruction::Lxi(_, _, _) | Instruction::Ret
            | Instruction::Jmp(_) | Instruction::Jc(_) | Instruction::Jnc(_)
            | Instruction::Jz(_) | Instruction::Jnz(_) | Instruction::Jp(_)
            | Instruction::Jm(_) | Instruction::Jpe(_) | Instruction::Jpo(_) => 10,
            Instruction::Inr(Register::M) | Instruction::Dcr(Register::M)
            | Instruction::Mvi(Register::M, _) => 10,
            Instruction::Hlt | Instruction::Ldax(_) | Instruction::Stax(_)
            | Instruction::Add(Register::M) | Instruction::Adc(Register::M)
            | Instruction::Sub(Register::M) | Instruction::Sbb(Register::M)
            | Instruction::Xra(Register::M) | Instruction::Ora(Register::M)
            | Instruction::Cmp(Register::M) | Instruction::Ana(Register::M) => 7,
            Instruction::Adi(_) | Instruction::Aci(_) | Instruction::Sui(_)
            | Instruction::Sbi(_) | Instruction::Ani(_) | Instruction::Xri(_)
            | Instruction::Ori(_) | Instruction::Cpi(_) | Instruction::Mvi(_, _)
            | Instruction::Mov(Register::M, _) | Instruction::Mov(_, Register::M) => 7,
            Instruction::Pchl | Instruction::Sphl | Instruction::Rc | Instruction::Rnc
            | Instruction::Rz | Instruction::Rnz | Instruction::Rp | Instruction::Rm
            | Instruction::Rpe | Instruction::Rpo | Instruction::Dcx(_)
            | Instruction::Inx(_) | Instruction::Mov(_, _) | Instruction::Inr(_)
            | Instruction::Dcr(_) => 5,
            _ => 4,
        }
    }
}
/// The opcode length table: how many bytes to fetch for an opcode.
pub(crate) fn op_code_to_argsize(op_code: u8) -> (r: usize)
    ensures
        r == arg_len(op_code),
        1 <= r <= 3,
{
    match op_code {
        0x01 => 3,
        0x06 => 2,
        0x0e => 2,
        0x11 => 3,
        0x16 => 2,
        0x1e => 2,
        0x21 => 3,
        0x22 => 3,
        0x26 => 2,
        0x2a => 3,
        0x2e => 2,
        0x31 => 3,
        0x32 => 3,
        0x36 => 2,
        0x3a => 3,
        0x3e => 2,
        0xc2 => 3,
        0xc3 => 3,
        0xc4 => 3,
        0xc6 => 2,
        0xca => 3,
        0xcc => 3,
        0xcd => 3,
        0xce => 2,
        0xd2 => 3,
        0xd3 => 2,
        0xd4 => 3,
        0xd6 => 2,
        0xda => 3,
        0xdb => 2,
        0xdc => 3,
        0xde => 2,
        0xe2 => 3,
        0xe4 => 3,
        0xe6 => 2,
        0xea => 3,
        0xec => 3,
        0xee => 2,
        0xf2 => 3,
        0xf4 => 3,
        0xf6 => 2,
        0xfa => 3,
        0xfc => 3,
        0xfe => 2,
        _ => 1,
    }
}

/// Builds the instruction of a one-byte opcode.
pub(crate) fn no_arg_op_code(op_code: u8) -> (r: Instruction)
    requires
        arg_len(op_code) == 1,
    ensures
        r == decode(op_code, 0, 0),
        instr_size(r) == 1,
{
    match op_code {
        0x02 => Instruction::Stax(RegisterPair::B),
        0x03 => Instruction::Inx(RegisterPair::B),
        0x04 => Instruction::Inr(Register::B),
        0x05 => Instruction::Dcr(Register::B),
        0x07 => Instruction::Rlc,
        0x09 => Instruction::Dad(RegisterPair::B),
        0x0a => Instruction::Ldax(RegisterPair::B),
        0x0b => Instruction::Dcx(RegisterPair::B),
        0x0c => Instruction::Inr(Register::C),
        0x0d => Instruction::Dcr(Register::C),
        0x0f => Instruction::Rrc,
        0x12 => Instruction::Stax(RegisterPair::D),
        0x13 => Instruction::Inx(RegisterPair::D),
        0x14 => Instruction::Inr(Register::D),
        0x15 => Instruction::Dcr(Register::D),
        0x17 => Instruction::Ral,
        0x19 => Instruction::Dad(RegisterPair::D),
        0x1a => Instruction::Ldax(RegisterPair::D),
        0x1b => Instruction::Dcx(RegisterPair::D),
        0x1c => Instruction::Inr(Register::E),
        0x1d => Instruction::Dcr(Register::E),
        0x1f => Instruction::Rar,
        0x23 => Instruction::Inx(RegisterPair::H),
        0x24 => Instruction::Inr(Register::H),
        0x25 => Instruction::Dcr(Register::H),
        0x27 => Instruction::Daa,
        0x29 => Instruction::Dad(RegisterPair::H),
        0x2b => Instruction::Dcx(RegisterPair::H),
        0x2c => Instruction::Inr(Register::L),
        0x2d => Instruction::Dcr(Register::L),
        0x2f => Instruction::Cma,
        0x33 => Instruction::Inx(RegisterPair::SP),
        0x34 => Instruction::Inr(Register::M),
        0x35 => Instruction::Dcr(Register::M),
        0x37 => Instruction::Stc,
        0x39 => Instruction::Dad(RegisterPair::SP),
        0x3b => Instruction::Dcx(RegisterPair::SP),
        0x3c => Instruction::Inr(Register::A),
        0x3d => Instruction::Dcr(Register::A),
        0x3f => Instruction::Cmc,
        0x40 => Instruction::Mov(Register::B, Register::B),
        0x41 => Instruction::Mov(Register::B, Register::C),
        0x42 => Instruction::Mov(Register::B, Register::D),
        0x43 => Instruction::Mov(Register::B, Register::E),
        0x44 => Instruction::Mov(Register::B, Register::H),
        0x45 => Instruction::Mov(Register::B, Register::L),
        0x46 => Instruction::Mov(Register::B, Register::M),
        0x47 => Instruction::Mov(Register::B, Register::A),
        0x48 => Instruction::Mov(Register::C, Register::B),
        0x49 => Instruction::Mov(Register::C, Register::C),
        0x4a => Instruction::Mov(Register::C, Register::D),
        0x4b => Instruction::Mov(Register::C, Register::E),
        0x4c => Instruction::Mov(Register::C, Register::H),
        0x4d => Instruction::Mov(Register::C, Register::L),
        0x4e => Instruction::Mov(Register::C, Register::M),
        0x4f => Instruction::Mov(Register::C, Register::A),
        0x50 => Instruction::Mov(Register::D, Register::B),
        0x51 => Instruction::Mov(Register::D, Register::C),
        0x52 => Instruction::Mov(Register::D, Register::D),
        0x53 => Instruction::Mov(Register::D, Register::E),
        0x54 => Instruction::Mov(Register::D, Register::H),
        0x55 => Instruction::Mov(Register::D, Register::L),
        0x56 => Instruction::Mov(Register::D, Register::M),
        0x57 => Instruction::Mov(Register::D, Register::A),
        0x58 => Instruction::Mov(Register::E, Register::B),
        0x59 => Instruction::Mov(Register::E, Register::C),
        0x5a => Instruction::Mov(Register::E, Register::D),
        0x5b => Instruction::Mov(Register::E, Register::E),
        0x5c => Instruction::Mov(Register::E, Register::H),
        0x5d => Instruction::Mov(Register::E, Register::L),
        0x5e => Instruction::Mov(Register::E, Register::M),
        0x5f => Instruction::Mov(Register::E, Register::A),
        0x60 => Instruction::Mov(Register::H, Register::B),
        0x61 => Instruction::Mov(Register::H, Register::C),
        0x62 => Instruction::Mov(Register::H, Register::D),
        0x63 => Instruction::Mov(Register::H, Register::E),
        0x64 => Instruction::Mov(Register::H, Register::H),
        0x65 => Instruction::Mov(Register::H, Register::L),
        0x66 => Instruction::Mov(Register::H, Register::M),
        0x67 => Instruction::Mov(Register::H, Register::A),
        0x68 => Instruction::Mov(Register::L, Register::B),
        0x69 => Instruction::Mov(Register::L, Register::C),
        0x6a => Instruction::Mov(Register::L, Register::D),
        0x6b => Instruction::Mov(Register::L, Register::E),
        0x6c => Instruction::Mov(Register::L, Register::H),
        0x6d => Instruction::Mov(Register::L, Register::L),
        0x6e => Instruction::Mov(Register::L, Register::M),
        0x6f => Instruction::Mov(Register::L, Register::A),
        0x70 => Instruction::Mov(Register::M, Register::B),
        0x71 => Instruction::Mov(Register::M, Register::C),
        0x72 => Instruction::Mov(Register::M, Register::D),
        0x73 => Instruction::Mov(Register::M, Register::E),
        0x74 => Instruction::Mov(Register::M, Register::H),
        0x75 => Instruction::Mov(Register::M, Register::L),
        0x76 => Instruction::Hlt,
        0x77 => Instruction::Mov(Register::M, Register::A),
        0x78 => Instruction::Mov(Register::A, Register::B),
        0x79 => Instruction::Mov(Register::A, Register::C),
        0x7a => Instruction::Mov(Register::A, Register::D),
        0x7b => Instruction::Mov(Register::A, Register::E),
        0x7c => Instruction::Mov(Register::A, Register::H),
        0x7d => Instruction::Mov(Register::A, Register::L),
        0x7e => Instruction::Mov(Register::A, Register::M),
        0x7f => Instruction::Mov(Register::A, Register::A),
        0x80 => Instruction::Add(Register::B),
        0x81 => Instruction::Add(Register::C),
        0x82 => Instruction::Add(Register::D),
        0x83 => Instruction::Add(Register::E),
        0x84 => Instruction::Add(Register::H),
        0x85 => Instruction::Add(Register::L),
        0x86 => Instruction::Add(Register::M),
        0x87 => Instruction::Add(Register::A),
        0x88 => Instruction::Adc(Register::B),
        0x89 => Instruction::Adc(Register::C),
        0x8a => Instruction::Adc(Register::D),
        0x8b => Instruction::Adc(Register::E),
        0x8c => Instruction::Adc(Register::H),
        0x8d => Instruction::Adc(Register::L),
        0x8e => Instruction::Adc(Register::M),
        0x8f => Instruction::Adc(Register::A),
        0x90 => Instruction::Sub(Register::B),
        0x91 => Instruction::Sub(Register::C),
        0x92 => Instruction::Sub(Register::D),
        0x93 => Instruction::Sub(Register::E),
        0x94 => Instruction::Sub(Register::H),
        0x95 => Instruction::Sub(Register::L),
        0x96 => Instruction::Sub(Register::M),
        0x97 => Instruction::Sub(Register::A),
        0x98 => Instruction::Sbb(Register::B),
        0x99 => Instruction::Sbb(Register::C),
        0x9a => Instruction::Sbb(Register::D),
        0x9b => Instruction::Sbb(Register::E),
        0x9c => Instruction::Sbb(Register::H),
        0x9d => Instruction::Sbb(Register::L),
        0x9e => Instruction::Sbb(Register::M),
        0x9f => Instruction::Sbb(Register::A),
        0xa0 => Instruction::Ana(Register::B),
        0xa1 => Instruction::Ana(Register::C),
        0xa2 => Instruction::Ana(Register::D),
        0xa3 => Instruction::Ana(Register::E),
        0xa4 => Instruction::Ana(Register::H),
        0xa5 => Instruction::Ana(Register::L),
        0xa6 => Instruction::Ana(Register::M),
        0xa7 => Instruction::Ana(Register::A),
        0xa8 => Instruction::Xra(Register::B),
        0xa9 => Instruction::Xra(Register::C),
        0xaa => Instruction::Xra(Register::D),
        0xab => Instruction::Xra(Register::E),
        0xac => Instruction::Xra(Register::H),
        0xad => Instruction::Xra(Register::L),
        0xae => Instruction::Xra(Register::M),
        0xaf => Instruction::Xra(Register::A),
        0xb0 => Instruction::Ora(Register::B),
        0xb1 => Instruction::Ora(Register::C),
        0xb2 => Instruction::Ora(Register::D),
        0xb3 => Instruction::Ora(Register::E),
        0xb4 => Instruction::Ora(Register::H),
        0xb5 => Instruction::Ora(Register::L),
        0xb6 => Instruction::Ora(Register::M),
        0xb7 => Instruction::Ora(Register::A),
        0xb8 => Instruction::Cmp(Register::B),
        0xb9 => Instruction::Cmp(Register::C),
        0xba => Instruction::Cmp(Register::D),
        0xbb => Instruction::Cmp(Register::E),
        0xbc => Instruction::Cmp(Register::H),
        0xbd => Instruction::Cmp(Register::L),
        0xbe => Instruction::Cmp(Register::M),
        0xbf => Instruction::Cmp(Register::A),
        0xc0 => Instruction::Rnz,
        0xc1 => Instruction::Pop(RegisterPair::B),
        0xc5 => Instruction::Push(RegisterPair::B),
        0xc7 => Instruction::Rst(0),
        0xc8 => Instruction::Rz,
        0xc9 => Instruction::Ret,
        0xcf => Instruction::Rst(1),
        0xd0 => Instruction::Rnc,
        0xd1 => Instruction::Pop(RegisterPair::D),
        0xd5 => Instruction::Push(RegisterPair::D),
        0xd7 => Instruction::Rst(2),
        0xd8 => Instruction::Rc,
        0xdf => Instruction::Rst(3),
        0xe0 => Instruction::Rpo,
        0xe1 => Instruction::Pop(RegisterPair::H),
        0xe3 => Instruction::Xthl,
        0xe5 => Instruction::Push(RegisterPair::H),
        0xe7 => Instruction::Rst(4),
        0xe8 => Instruction::Rpe,
        0xe9 => Instruction::Pchl,
        0xeb => Instruction::Xchg,
        0xef => Instruction::Rst(5),
        0xf0 => Instruction::Rp,
        0xf1 => Instruction::Pop(RegisterPair::PSW),
        0xf3 => Instruction::Di,
        0xf5 => Instruction::Push(RegisterPair::PSW),
        0xf7 => Instruction::Rst(6),
        0xf8 => Instruction::Rm,
        0xf9 => Instruction::Sphl,
        0xfb => Instruction::Ei,
        0xff => Instruction::Rst(7),
        _ => Instruction::Nop,
    }
}

/// Builds the instruction of a two-byte opcode from its operand byte.
pub(crate) fn one_arg_op_code(op_code: u8, arg: u8) -> (r: Instruction)
    requires
        arg_len(op_code) == 2,
    ensures
        r == decode(op_code, arg, 0),
        instr_size(r) == 2,
{
    match op_code {
        0x06 => Instruction::Mvi(Register::B, arg),
        0x0e => Instruction::Mvi(Register::C, arg),
        0x16 => Instruction::Mvi(Register::D, arg),
        0x1e => Instruction::Mvi(Register::E, arg),
        0x26 => Instruction::Mvi(Register::H, arg),
        0x2e => Instruction::Mvi(Register::L, arg),
        0x36 => Instruction::Mvi(Register::M, arg),
        0x3e => Instruction::Mvi(Register::A, arg),
        0xc6 => Instruction::Adi(arg),
        0xce => Instruction::Aci(arg),
        0xd3 => Instruction::Out(arg),
        0xd6 => Instruction::Sui(arg),
        0xdb => Instruction::In(arg),
        0xde => Instruction::Sbi(arg),
        0xe6 => Instruction::Ani(arg),
        0xee => Instruction::Xri(arg),
        0xf6 => Instruction::Ori(arg),
        0xfe => Instruction::Cpi(arg),
        _ => Instruction::Nop,
    }
}

/// Builds the instruction of a three-byte opcode from its two operand
/// bytes, the low one first (immediates are little-endian).
pub(crate) fn two_arg_op_code(op_code: u8, arg1: u8, arg2: u8) -> (r: Instruction)
    requires
        arg_len(op_code) == 3,
    ensures
        r == decode(op_code, arg1, arg2),
        instr_size(r) == 3,
{
    let addr: u16 = crate::arith::to_u16(arg1, arg2);
    match op_code {
        0x01 => Instruction::Lxi(RegisterPair::B, arg1, arg2),
        0x11 => Instruction::Lxi(RegisterPair::D, arg1, arg2),
        0x21 => Instruction::Lxi(RegisterPair::H, arg1, arg2),
        0x22 => Instruction::Shld(addr),
        0x2a => Instruction::Lhld(addr),
        0x31 => Instruction::Lxi(RegisterPair::SP, arg1, arg2),
        0x32 => Instruction::Sta(addr),
        0x3a => Instruction::Lda(addr),
        0xc2 => Instruction::Jnz(addr),
        0xc3 => Instruction::Jmp(addr),
        0xc4 => Instruction::Cnz(addr),
        0xca => Instruction::Jz(addr),
        0xcc => Instruction::Cz(addr),
        0xcd => Instruction::Call(addr),
        0xd2 => Instruction::Jnc(addr),
        0xd4 => Instruction::Cnc(addr),
        0xda => Instruction::Jc(addr),
        0xdc => Instruction::Cc(addr),
        0xe2 => Instruction::Jpo(addr),
        0xe4 => Instruction::Cpo(addr),
        0xea => Instruction::Jpe(addr),
        0xec => Instruction::Cpe(addr),
        0xf2 => Instruction::Jp(addr),
        0xf4 => Instruction::Cp(addr),
        0xfa => Instruction::Jm(addr),
        0xfc => Instruction::Cm(addr),
        _ => Instruction::Nop,
    }
}impl Instruction {
    /// Reads and decodes one instruction at `pc` from a byte slice: the
    /// opcode, then its operand bytes per the length table. Running past the
    /// end of the slice is an error; the decoder itself never fails on byte
    /// values.
    pub fn read_at(data: &[u8], pc: u16) -> (r: Result<Instruction, OpCodeError>)
        ensures
            ({
                let n = data@.len();
                let p = pc as int;
                if p >= n {
                    r == Err::<Instruction, OpCodeError>(OpCodeError::EndOfDataInstr)
                } else {
                    let op = data@[p];
                    let len = arg_len(op);
                    if p + len <= n {
                        let lo = if len >= 2 { data@[p + 1] } else { 0u8 };
                        let hi = if len == 3 { data@[p + 2] } else { 0u8 };
                        r == Ok::<Instruction, OpCodeError>(decode(op, lo, hi))
                            && instr_size(decode(op, lo, hi)) == len
                    } else {
                        r == Err::<Instruction, OpCodeError>(OpCodeError::EndOfDataParam(op))
                    }
                }
            }),
    {
        let pcu = pc as usize;
        if pcu >= data.len() {
            return Err(OpCodeError::EndOfDataInstr);
        }
        let op_code = data[pcu];
        let instruction_size = op_code_to_argsize(op_code);
        if instruction_size == 1 {
            Ok(no_arg_op_code(op_code))
        } else if instruction_size == 2 {
            if pcu + 1 >= data.len() {
                return Err(OpCodeError::EndOfDataParam(op_code));
            }
            Ok(one_arg_op_code(op_code, data[pcu + 1]))
        } else {
            if pcu + 2 >= data.len() {
                return Err(OpCodeError::EndOfDataParam(op_code));
            }
            Ok(two_arg_op_code(op_code, data[pcu + 1], data[pcu + 2]))
        }
    }
}

} // verus!
