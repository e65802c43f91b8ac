//! The 8080 register file: eight 8-bit registers (A and the flags register F
//! among them), the 16-bit stack pointer and program counter, and the
//! interrupt-enable latch, together with the flag-bit bookkeeping.
//!
//! The flags register F holds, from bit 7 down: S, Z, AC (bit 4), P (bit 2)
//! and CY (bit 0). The unused bits 1, 3 and 5 are left as they are.

use vstd::prelude::*;

use crate::arith::{parity_even, parity_even_of, word};
use crate::op_code::{pair_high, pair_low, Register, RegisterPair};

verus! {

/// One of the five 8080 condition flags.
#[derive(Copy, Clone, Debug, Eq, PartialEq, Structural)]
pub enum Flag {
    S,
    Z,
    Ac,
    P,
    Cy,
}

/// The bit of the F register that holds a flag.
pub open spec fn spec_flag_mask(flag: Flag) -> u8 {
    match flag {
        Flag::S => 0x80,
        Flag::Z => 0x40,
        Flag::Ac => 0x10,
        Flag::P => 0x04,
        Flag::Cy => 0x01,
    }
}

/// The bit of the F register that holds a flag.
#[verifier::when_used_as_spec(spec_flag_mask)]
pub fn flag_mask(flag: Flag) -> (m: u8)
    ensures
        m == spec_flag_mask(flag),
{
    match flag {
        Flag::S => 0x80,
        Flag::Z => 0x40,
        Flag::Ac => 0x10,
        Flag::P => 0x04,
        Flag::Cy => 0x01,
    }
}

/// A flags byte with the given bit forced to the given value.
pub open spec fn set_flag(f: u8, mask: u8, v: bool) -> u8 {
    if v {
        f | mask
    } else {
        f & !mask
    }
}

/// The S (sign) flag of a flags byte.
pub open spec fn flag_s(f: u8) -> bool {
    f & 0x80 != 0
}

/// The Z (zero) flag of a flags byte.
pub open spec fn flag_z(f: u8) -> bool {
    f & 0x40 != 0
}

/// The AC (auxiliary carry) flag of a flags byte.
pub open spec fn flag_ac(f: u8) -> bool {
    f & 0x10 != 0
}

/// The P (parity) flag of a flags byte.
pub open spec fn flag_p(f: u8) -> bool {
    f & 0x04 != 0
}

/// The CY (carry) flag of a flags byte.
pub open spec fn flag_cy(f: u8) -> bool {
    f & 0x01 != 0
}

/// The flags byte after an operation that sets S, Z and P from a result
/// byte: S from bit 7, Z from equality with zero, P from even parity. CY and
/// AC keep their old values.
pub open spec fn flags_szp(f: u8, out: u8) -> u8 {
    set_flag(set_flag(set_flag(f, 0x80, out & 0x80 != 0), 0x40, out == 0), 0x04, parity_even(out))
}

/// The flags byte after an operation that sets S, Z, P and CY; AC keeps its
/// old value.
pub open spec fn flags_szp_cy(f: u8, out: u8, cy: bool) -> u8 {
    set_flag(flags_szp(f, out), 0x01, cy)
}

/// The flags byte after an operation that sets all five flags.
pub open spec fn flags_szp_cy_ac(f: u8, out: u8, cy: bool, ac: bool) -> u8 {
    set_flag(flags_szp_cy(f, out, cy), 0x10, ac)
}

/// The flags byte after an operation that sets S, Z, P and AC but preserves
/// CY (the INR/DCR rule).
pub open spec fn flags_szp_ac(f: u8, out: u8, ac: bool) -> u8 {
    set_flag(flags_szp(f, out), 0x10, ac)
}

/// Forcing one flag bit neither reads nor disturbs any other flag bit: each
/// getter returns the value just set for its own mask and the old value for
/// every other mask.
pub proof fn lemma_flag_independence(f: u8, v: bool)
    by (bit_vector)
    ensures
        flag_s(set_flag(f, 0x80, v)) == v,
        flag_z(set_flag(f, 0x40, v)) == v,
        flag_ac(set_flag(f, 0x10, v)) == v,
        flag_p(set_flag(f, 0x04, v)) == v,
        flag_cy(set_flag(f, 0x01, v)) == v,
        flag_s(set_flag(f, 0x40, v)) == flag_s(f),
        flag_s(set_flag(f, 0x10, v)) == flag_s(f),
        flag_s(set_flag(f, 0x04, v)) == flag_s(f),
        flag_s(set_flag(f, 0x01, v)) == flag_s(f),
        flag_z(set_flag(f, 0x80, v)) == flag_z(f),
        flag_z(set_flag(f, 0x10, v)) == flag_z(f),
        flag_z(set_flag(f, 0x04, v)) == flag_z(f),
        flag_z(set_flag(f, 0x01, v)) == flag_z(f),
        flag_ac(set_flag(f, 0x80, v)) == flag_ac(f),
        flag_ac(set_flag(f, 0x40, v)) == flag_ac(f),
        flag_ac(set_flag(f, 0x04, v)) == flag_ac(f),
        flag_ac(set_flag(f, 0x01, v)) == flag_ac(f),
        flag_p(set_flag(f, 0x80, v)) == flag_p(f),
        flag_p(set_flag(f, 0x40, v)) == flag_p(f),
        flag_p(set_flag(f, 0x10, v)) == flag_p(f),
        flag_p(set_flag(f, 0x01, v)) == flag_p(f),
        flag_cy(set_flag(f, 0x80, v)) == flag_cy(f),
        flag_cy(set_flag(f, 0x40, v)) == flag_cy(f),
        flag_cy(set_flag(f, 0x10, v)) == flag_cy(f),
        flag_cy(set_flag(f, 0x04, v)) == flag_cy(f),
{
}

/// Every flag of a flags byte produced by an operation that updates all five
/// flags: S is the sign bit of the result, Z is whether the result is zero,
/// P is whether the result has even parity, and CY and AC are the carries
/// the operation computed.
pub proof fn lemma_flags_szp_cy_ac(f: u8, out: u8, cy: bool, ac: bool)
    ensures
        flag_s(flags_szp_cy_ac(f, out, cy, ac)) == (out & 0x80 != 0),
        flag_z(flags_szp_cy_ac(f, out, cy, ac)) == (out == 0),
        flag_p(flags_szp_cy_ac(f, out, cy, ac)) == parity_even(out),
        flag_cy(flags_szp_cy_ac(f, out, cy, ac)) == cy,
        flag_ac(flags_szp_cy_ac(f, out, cy, ac)) == ac,
{
    let s0 = set_flag(f, 0x80, out & 0x80 != 0);
    let s1 = set_flag(s0, 0x40, out == 0);
    let s2 = set_flag(s1, 0x04, parity_even(out));
    let s3 = set_flag(s2, 0x01, cy);
    lemma_flag_independence(f, out & 0x80 != 0);
    lemma_flag_independence(s0, out == 0);
    lemma_flag_independence(s1, parity_even(out));
    lemma_flag_independence(s2, cy);
    lemma_flag_independence(s3, ac);
}

/// Every flag of a flags byte produced by an operation that updates S, Z, P
/// and AC: CY is preserved (the INR/DCR rule).
pub proof fn lemma_flags_szp_ac(f: u8, out: u8, ac: bool)
    ensures
        flag_s(flags_szp_ac(f, out, ac)) == (out & 0x80 != 0),
        flag_z(flags_szp_ac(f, out, ac)) == (out == 0),
        flag_p(flags_szp_ac(f, out, ac)) == parity_even(out),
        flag_cy(flags_szp_ac(f, out, ac)) == flag_cy(f),
        flag_ac(flags_szp_ac(f, out, ac)) == ac,
{
    let s0 = set_flag(f, 0x80, out & 0x80 != 0);
    let s1 = set_flag(s0, 0x40, out == 0);
    let s2 = set_flag(s1, 0x04, parity_even(out));
    lemma_flag_independence(f, out & 0x80 != 0);
    lemma_flag_independence(s0, out == 0);
    lemma_flag_independence(s1, parity_even(out));
    lemma_flag_independence(s2, ac);
}

/// Every flag of a flags byte produced by a logical operation: S, Z and P
/// come from the result, CY is the value the operation forces (always
/// false on the 8080's AND/OR/XOR), and AC is preserved.
pub proof fn lemma_flags_szp_cy(f: u8, out: u8, cy: bool)
    ensures
        flag_s(flags_szp_cy(f, out, cy)) == (out & 0x80 != 0),
        flag_z(flags_szp_cy(f, out, cy)) == (out == 0),
        flag_p(flags_szp_cy(f, out, cy)) == parity_even(out),
        flag_cy(flags_szp_cy(f, out, cy)) == cy,
        flag_ac(flags_szp_cy(f, out, cy)) == flag_ac(f),
{
    let s0 = set_flag(f, 0x80, out & 0x80 != 0);
    let s1 = set_flag(s0, 0x40, out == 0);
    let s2 = set_flag(s1, 0x04, parity_even(out));
    lemma_flag_independence(f, out & 0x80 != 0);
    lemma_flag_independence(s0, out == 0);
    lemma_flag_independence(s1, parity_even(out));
    lemma_flag_independence(s2, cy);
}

/// The 8080 register file and control state.
#[derive(Debug, Clone, Copy)]
pub struct Cpu {
    pub a: u8,
    pub f: u8,
    pub b: u8,
    pub c: u8,
    pub d: u8,
    pub e: u8,
    pub h: u8,
    pub l: u8,
    pub sp: u16,
    pub pc: u16,
    pub inte: bool,
}

impl Cpu {
    /// The value of an 8-bit register; the pseudo-register M has none.
    pub open spec fn reg(self, r: Register) -> u8 {
        match r {
            Register::A => self.a,
            Register::F => self.f,
            Register::B => self.b,
            Register::C => self.c,
            Register::D => self.d,
            Register::E => self.e,
            Register::H => self.h,
            Register::L => self.l,
            Register::M => 0,
        }
    }

    /// This register file with one 8-bit register replaced.
    pub open spec fn with_reg(self, r: Register, v: u8) -> Cpu {
        match r {
            Register::A => Cpu { a: v, ..self },
            Register::F => Cpu { f: v, ..self },
            Register::B => Cpu { b: v, ..self },
            Register::C => Cpu { c: v, ..self },
            Register::D => Cpu { d: v, ..self },
            Register::E => Cpu { e: v, ..self },
            Register::H => Cpu { h: v, ..self },
            Register::L => Cpu { l: v, ..self },
            Register::M => self,
        }
    }

    /// The 16-bit value of a register pair; SP is its own value.
    pub open spec fn pair(self, rp: RegisterPair) -> u16 {
        match rp {
            RegisterPair::SP => self.sp,
            _ => word(self.reg(pair_low(rp)), self.reg(pair_high(rp))),
        }
    }

    /// A fresh register file: all registers zero, SP at 0xf000, the
    /// interrupt latch off, and PC at the given start address.
    pub fn new(pc: u16) -> (r: Cpu)
        ensures
            r == (Cpu { a: 0, f: 0, b: 0, c: 0, d: 0, e: 0, h: 0, l: 0, sp: 0xf000, pc, inte: false }),
    {
        Cpu { a: 0, f: 0, b: 0, c: 0, d: 0, e: 0, h: 0, l: 0, sp: 0xf000, pc, inte: false }
    }

    /// The interrupt-enable latch.
    pub fn inte(&self) -> (r: bool)
        ensures
            r == self.inte,
    {
        self.inte
    }

    /// The program counter.
    pub fn pc(&self) -> (r: u16)
        ensures
            r == self.pc,
    {
        self.pc
    }

    /// The program status word: A in the high byte, F in the low byte.
    pub fn psw(&self) -> (r: u16)
        ensures
            r == self.pair(RegisterPair::PSW),
    {
        crate::arith::to_u16(self.f, self.a)
    }

    /// The stack pointer.
    pub fn sp(&self) -> (r: u16)
        ensures
            r == self.sp,
    {
        self.sp
    }

    /// The accumulator.
    pub fn a(&self) -> (r: u8)
        ensures
            r == self.a,
    {
        self.a
    }

    /// The flags register.
    pub fn flags(&self) -> (r: u8)
        ensures
            r == self.f,
    {
        self.f
    }

    /// A mutable borrow of the flags register.
    pub fn flags_mut(&mut self) -> (r: &mut u8)
        ensures
            *r == old(self).f,
            *final(self) == (Cpu { f: *final(r), ..*old(self) }),
    {
        &mut self.f
    }

    /// The Z flag.
    pub fn z(&self) -> (r: bool)
        ensures
            r == flag_z(self.f),
    {
        self.f & 0x40 != 0
    }

    /// The S flag.
    pub fn s(&self) -> (r: bool)
        ensures
            r == flag_s(self.f),
    {
        self.f & 0x80 != 0
    }

    /// The P flag.
    pub fn p(&self) -> (r: bool)
        ensures
            r == flag_p(self.f),
    {
        self.f & 0x04 != 0
    }

    /// The CY flag.
    pub fn cy(&self) -> (r: bool)
        ensures
            r == flag_cy(self.f),
    {
        self.f & 0x01 != 0
    }

    /// The AC flag.
    pub fn ac(&self) -> (r: bool)
        ensures
            r == flag_ac(self.f),
    {
        self.f & 0x10 != 0
    }

    /// Sets S, Z and P from a result byte; CY and AC keep their values.
    pub(crate) fn update_flags(&mut self, byte: u8)
        ensures
            *final(self) == (Cpu { f: flags_szp(old(self).f, byte), ..*old(self) }),
    {
        self.toggle(Flag::S, byte & 0x80 != 0);
        self.toggle(Flag::Z, byte == 0);
        self.toggle(Flag::P, parity_even_of(byte));
    }

    /// Sets S, Z and P from a result byte and CY to the given carry.
    pub(crate) fn update_flags_with_carry(&mut self, byte: u8, cy: bool)
        ensures
            *final(self) == (Cpu { f: flags_szp_cy(old(self).f, byte, cy), ..*old(self) }),
    {
        self.update_flags(byte);
        self.toggle(Flag::Cy, cy);
    }

    /// Sets S, Z and P from a result byte, CY and AC to the given carries.
    pub(crate) fn update_flags_with_carries(&mut self, byte: u8, cy: bool, ac: bool)
        ensures
            *final(self) == (Cpu { f: flags_szp_cy_ac(old(self).f, byte, cy, ac), ..*old(self) }),
    {
        self.update_flags(byte);
        self.toggle(Flag::Cy, cy);
        self.toggle(Flag::Ac, ac);
    }

    /// Sets S, Z and P from a result byte and AC to the given carry; CY
    /// keeps its value.
    pub(crate) fn update_flags_with_ac(&mut self, byte: u8, ac: bool)
        ensures
            *final(self) == (Cpu { f: flags_szp_ac(old(self).f, byte, ac), ..*old(self) }),
    {
        self.update_flags(byte);
        self.toggle(Flag::Ac, ac);
    }

    /// Forces one flag to the given value.
    pub fn toggle(&mut self, bit: Flag, value: bool)
        ensures
            *final(self) == (Cpu { f: set_flag(old(self).f, spec_flag_mask(bit), value), ..*old(self) }),
    {
        if value {
            self.set(bit)
        } else {
            self.clear(bit)
        }
    }

    /// Sets one flag.
    pub fn set(&mut self, bit: Flag)
        ensures
            *final(self) == (Cpu { f: set_flag(old(self).f, spec_flag_mask(bit), true), ..*old(self) }),
    {
        self.f = self.f | flag_mask(bit);
    }

    /// Clears one flag.
    pub fn clear(&mut self, bit: Flag)
        ensures
            *final(self) == (Cpu { f: set_flag(old(self).f, spec_flag_mask(bit), false), ..*old(self) }),
    {
        self.f = self.f & !flag_mask(bit);
    }

    /// Clears the whole flags register, unused bits included.
    pub fn clear_all(&mut self)
        ensures
            *final(self) == (Cpu { f: 0, ..*old(self) }),
    {
        self.f = 0;
    }

    /// The 16-bit value of a splittable register pair.
    pub fn get_rp(&self, rp: RegisterPair) -> (r: u16)
        requires
            rp != RegisterPair::SP,
        ensures
            r == self.pair(rp),
    {
        let (h, l) = rp.split();
        crate::arith::to_u16(self.get(l), self.get(h))
    }

    /// The value of an 8-bit register; M is not a register and cannot be
    /// read here.
    pub fn get(&self, register: Register) -> (r: u8)
        requires
            register != Register::M,
        ensures
            r == self.reg(register),
    {
        match register {
            Register::A => self.a,
            Register::F => self.f,
            Register::B => self.b,
            Register::C => self.c,
            Register::D => self.d,
            Register::E => self.e,
            Register::H => self.h,
            Register::L => self.l,
            Register::M => 0,
        }
    }

    /// Stores a value into an 8-bit register; M is not a register and
    /// cannot be written here.
    pub(crate) fn set_reg(&mut self, register: Register, value: u8)
        requires
            register != Register::M,
        ensures
            *final(self) == old(self).with_reg(register, value),
    {
        match register {
            Register::A => self.a = value,
            Register::F => self.f = value,
            Register::B => self.b = value,
            Register::C => self.c = value,
            Register::D => self.d = value,
            Register::E => self.e = value,
            Register::H => self.h = value,
            Register::L => self.l = value,
            Register::M => (),
        }
    }
}

} // verus!
