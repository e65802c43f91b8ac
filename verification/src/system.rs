//! The processor: the register file coupled to the memory, the execute step
//! for every 8080 instruction, and the interrupt-gated entry the host uses
//! to inject RST instructions.

use vstd::prelude::*;

use crate::arith::{
    add16_cy, add8, add8_ac, add8_cy, add_u16, add_with_carry, daa_ac_out, daa_cy_out, daa_result,
    hi8, lo8, ral_val, rar_val, rlc_val, rot_left_cy, rot_right_cy, rrc_val, sub8, sub8_ac,
    sub8_cy, sub_with_borrow, to_u16, to_u8, word, wrap_add16, wrap_sub16,
};
use crate::cpu::{
    flag_ac, flag_cy, flag_p, flag_s, flag_z, flags_szp_ac, flags_szp_cy, flags_szp_cy_ac,
    set_flag, Cpu, Flag,
};
use crate::in_out::InOut;
use crate::op_code::{
    decode, instr_cycles, instr_size, pair_high, pair_low, Instruction, OpCodeError, Register,
    RegisterPair,
};
use crate::ram::{in_ranges, MemoryError, Ram};

verus! {

/// The mathematical state of a running system: the register file and the
/// memory contents with its ROM ranges.
#[verifier::ext_equal]
pub struct SystemView {
    pub cpu: Cpu,
    pub mem: Seq<u8>,
    pub roms: Seq<(usize, usize)>,
    pub allow_rom_write: bool,
}

impl SystemView {
    /// The value of an 8-bit register.
    pub open spec fn reg(self, r: Register) -> u8 {
        self.cpu.reg(r)
    }

    /// The 16-bit value of a register pair (SP included).
    pub open spec fn pair(self, rp: RegisterPair) -> u16 {
        self.cpu.pair(rp)
    }

    /// The memory address held in HL.
    pub open spec fn hl(self) -> u16 {
        self.pair(RegisterPair::H)
    }

    /// This state with another register file.
    pub open spec fn with_cpu(self, cpu: Cpu) -> SystemView {
        SystemView { cpu, ..self }
    }

    /// This state with the program counter moved.
    pub open spec fn with_pc(self, pc: u16) -> SystemView {
        self.with_cpu(Cpu { pc, ..self.cpu })
    }

    /// This state with one memory byte replaced.
    pub open spec fn with_mem(self, addr: u16, v: u8) -> SystemView {
        SystemView { mem: self.mem.update(addr as int, v), ..self }
    }

    /// This state with one register pair loaded from two bytes; loading SP
    /// packs them into the stack pointer.
    pub open spec fn with_pair(self, rp: RegisterPair, lo: u8, hi: u8) -> SystemView {
        if rp == RegisterPair::SP {
            self.with_cpu(Cpu { sp: word(lo, hi), ..self.cpu })
        } else {
            self.with_cpu(self.cpu.with_reg(pair_high(rp), hi).with_reg(pair_low(rp), lo))
        }
    }

    /// Whether a read of one memory byte succeeds.
    pub open spec fn read_ok(self, addr: u16) -> bool {
        (addr as int) < self.mem.len()
    }

    /// The byte at a memory address.
    pub open spec fn byte(self, addr: u16) -> u8 {
        self.mem[addr as int]
    }

    /// The error of a failing read.
    pub open spec fn read_err(self, addr: u16) -> MemoryError {
        MemoryError::OutOfBoundRead(addr as usize)
    }

    /// Whether a write of one memory byte succeeds.
    pub open spec fn writable(self, addr: u16) -> bool {
        (addr as int) < self.mem.len() && (self.allow_rom_write || !in_ranges(
            self.roms,
            addr as int,
        ))
    }

    /// The error of a failing write: a ROM hit wins over an out-of-bounds
    /// address.
    pub open spec fn write_err(self, addr: u16) -> MemoryError {
        if !self.allow_rom_write && in_ranges(self.roms, addr as int) {
            MemoryError::ReadOnlyWrite(addr)
        } else {
            MemoryError::OutOfBoundRead(addr as usize)
        }
    }

    /// Where a push stores the low byte: two below the stack pointer.
    pub open spec fn push_lo_addr(self) -> u16 {
        wrap_sub16(self.cpu.sp, 2)
    }

    /// Where a push stores the high byte: one below the stack pointer.
    pub open spec fn push_hi_addr(self) -> u16 {
        wrap_sub16(self.cpu.sp, 1)
    }

    /// Whether a push succeeds: both stack bytes must be writable.
    pub open spec fn push_ok(self) -> bool {
        self.writable(self.push_lo_addr()) && self.writable(self.push_hi_addr())
    }

    /// The error of a failing push; the low byte is stored first.
    pub open spec fn push_err(self) -> MemoryError {
        if !self.writable(self.push_lo_addr()) {
            self.write_err(self.push_lo_addr())
        } else {
            self.write_err(self.push_hi_addr())
        }
    }

    /// The state after a successful push of a 16-bit word: both bytes
    /// stored, SP lowered by two.
    pub open spec fn pushed(self, v: u16) -> SystemView {
        SystemView {
            cpu: Cpu { sp: self.push_lo_addr(), ..self.cpu },
            mem: self.mem.update(self.push_lo_addr() as int, lo8(v)).update(
                self.push_hi_addr() as int,
                hi8(v),
            ),
            ..self
        }
    }

    /// The state a failing push leaves: the low byte may already be stored;
    /// SP does not move.
    pub open spec fn push_partial(self, v: u16) -> SystemView {
        if self.writable(self.push_lo_addr()) {
            self.with_mem(self.push_lo_addr(), lo8(v))
        } else {
            self
        }
    }

    /// Whether a pop succeeds: both stack bytes must be readable.
    pub open spec fn pop_ok(self) -> bool {
        self.read_ok(self.cpu.sp) && self.read_ok(wrap_add16(self.cpu.sp, 1))
    }

    /// The error of a failing pop; the low byte is read first.
    pub open spec fn pop_err(self) -> MemoryError {
        if !self.read_ok(self.cpu.sp) {
            self.read_err(self.cpu.sp)
        } else {
            self.read_err(wrap_add16(self.cpu.sp, 1))
        }
    }

    /// The 16-bit word a pop reads: the low byte at SP, the high byte above
    /// it.
    pub open spec fn pop_val(self) -> u16 {
        word(self.byte(self.cpu.sp), self.byte(wrap_add16(self.cpu.sp, 1)))
    }

    /// The state after a pop moved the stack pointer up by two.
    pub open spec fn popped(self) -> SystemView {
        self.with_cpu(Cpu { sp: wrap_add16(self.cpu.sp, 2), ..self.cpu })
    }

    /// Whether reading an instruction operand succeeds; only the
    /// pseudo-register M can fail.
    pub open spec fn src_ok(self, src: Register) -> bool {
        src != Register::M || self.read_ok(self.hl())
    }

    /// The value of an instruction operand; M reads memory at HL.
    pub open spec fn src_val(self, src: Register) -> u8 {
        if src == Register::M {
            self.byte(self.hl())
        } else {
            self.reg(src)
        }
    }

    /// Whether writing an instruction operand succeeds; only M can fail.
    pub open spec fn dst_ok(self, dst: Register) -> bool {
        dst != Register::M || self.writable(self.hl())
    }

    /// The state after storing a value into an instruction operand; M writes
    /// memory at HL.
    pub open spec fn with_dst(self, dst: Register, v: u8) -> SystemView {
        if dst == Register::M {
            self.with_mem(self.hl(), v)
        } else {
            self.with_cpu(self.cpu.with_reg(dst, v))
        }
    }

    /// The state after an arithmetic operation left a result in the
    /// accumulator and set all five flags.
    pub open spec fn acc_arith(self, out: u8, cy: bool, ac: bool) -> SystemView {
        self.with_cpu(
            Cpu { a: out, f: flags_szp_cy_ac(self.cpu.f, out, cy, ac), ..self.cpu },
        )
    }

    /// The state after adding a byte (plus carry-in) to the accumulator.
    pub open spec fn add_acc(self, b: u8, c: bool) -> SystemView {
        self.acc_arith(add8(self.cpu.a, b, c), add8_cy(self.cpu.a, b, c), add8_ac(self.cpu.a, b, c))
    }

    /// The state after subtracting a byte (plus borrow-in) from the
    /// accumulator.
    pub open spec fn sub_acc(self, b: u8, c: bool) -> SystemView {
        self.acc_arith(sub8(self.cpu.a, b, c), sub8_cy(self.cpu.a, b, c), sub8_ac(self.cpu.a, b, c))
    }

    /// The state after comparing the accumulator with a byte: the flags of
    /// the subtraction, the accumulator untouched.
    pub open spec fn cmp_acc(self, b: u8) -> SystemView {
        self.with_cpu(
            Cpu {
                f: flags_szp_cy_ac(
                    self.cpu.f,
                    sub8(self.cpu.a, b, false),
                    sub8_cy(self.cpu.a, b, false),
                    sub8_ac(self.cpu.a, b, false),
                ),
                ..self.cpu
            },
        )
    }

    /// The state after a logical operation left a result in the accumulator:
    /// S, Z and P from the result, CY cleared, AC untouched.
    pub open spec fn logic_acc(self, out: u8) -> SystemView {
        self.with_cpu(Cpu { a: out, f: flags_szp_cy(self.cpu.f, out, false), ..self.cpu })
    }
}

/// A processor wired to its memory.
#[derive(Debug, Clone)]
pub struct System {
    pub cpu: Cpu,
    pub ram: Ram,
}

impl View for System {
    type V = SystemView;

    open spec fn view(&self) -> SystemView {
        SystemView {
            cpu: self.cpu,
            mem: self.ram.ram@,
            roms: self.ram.rom_ranges@,
            allow_rom_write: self.ram.allow_rom_write,
        }
    }
}

impl System {
    /// A system over the given memory, starting execution at `pc`.
    pub fn new(ram: Ram, pc: u16) -> (r: System)
        ensures
            r.cpu == (Cpu {
                a: 0,
                f: 0,
                b: 0,
                c: 0,
                d: 0,
                e: 0,
                h: 0,
                l: 0,
                sp: 0xf000,
                pc,
                inte: false,
            }),
            r.ram == ram,
    {
        System { cpu: Cpu::new(pc), ram }
    }

    /// The register file.
    pub fn cpu(&self) -> (r: &Cpu)
        ensures
            r == self.cpu,
    {
        &self.cpu
    }

    /// The memory.
    pub fn ram(&self) -> (r: &Ram)
        ensures
            r == self.ram,
    {
        &self.ram
    }

    /// The accumulator.
    pub fn a(&self) -> (r: u8)
        ensures
            r == self.cpu.a,
    {
        self.cpu.a
    }

    /// A mutable borrow of the accumulator.
    pub fn a_mut(&mut self) -> (r: &mut u8)
        ensures
            *r == old(self).cpu.a,
            final(self).cpu == (Cpu { a: *final(r), ..old(self).cpu }),
            final(self).ram == old(self).ram,
    {
        &mut self.cpu.a
    }

    /// The memory from `addr` to its end (the host reads the framebuffer
    /// through this).
    pub fn get_slice(&self, addr: u16) -> (r: Result<&[u8], MemoryError>)
        ensures
            (addr as int) <= self@.mem.len() ==> (r matches Ok(s) && s@ == self@.mem.skip(
                addr as int,
            )),
            (addr as int) > self@.mem.len() ==> r == Err::<&[u8], MemoryError>(
                MemoryError::OutOfBoundRead(addr as usize),
            ),
    {
        self.ram.get_slice(addr)
    }

    /// The value of an instruction operand: a register, or, for M, the
    /// memory byte at HL.
    pub fn get(&self, reg: Register) -> (r: Result<u8, MemoryError>)
        ensures
            self@.src_ok(reg) ==> r == Ok::<u8, MemoryError>(self@.src_val(reg)),
            !self@.src_ok(reg) ==> r == Err::<u8, MemoryError>(self@.read_err(self@.hl())),
    {
        match reg {
            Register::M => self.ram.get(self.get_rp(RegisterPair::H)),
            _ => Ok(self.cpu.get(reg)),
        }
    }

    /// Stores a value into an instruction operand: a register, or, for M,
    /// the memory byte at HL.
    pub fn write(&mut self, dst: Register, value: u8) -> (r: Result<(), MemoryError>)
        ensures
            old(self)@.dst_ok(dst) ==> r == Ok::<(), MemoryError>(()) && final(self)@ == old(
                self,
            )@.with_dst(dst, value),
            !old(self)@.dst_ok(dst) ==> r == Err::<(), MemoryError>(
                old(self)@.write_err(old(self)@.hl()),
            ) && final(self)@ == old(self)@,
    {
        if dst == Register::M {
            let addr = self.get_rp(RegisterPair::H);
            self.ram.write(addr, value)
        } else {
            self.cpu.set_reg(dst, value);
            Ok(())
        }
    }

    /// The 16-bit value of a register pair; SP is the stack pointer itself.
    pub fn get_rp(&self, rp: RegisterPair) -> (r: u16)
        ensures
            r == self@.pair(rp),
    {
        match rp {
            RegisterPair::SP => self.cpu.sp,
            _ => self.cpu.get_rp(rp),
        }
    }

    /// Pushes a 16-bit word: the low byte two below SP, the high byte one
    /// below, then SP moves down by two.
    fn push_word(&mut self, value: u16) -> (r: Result<(), MemoryError>)
        ensures
            ({
                let pre = old(self)@;
                if pre.push_ok() {
                    r == Ok::<(), MemoryError>(()) && final(self)@ == pre.pushed(value)
                } else {
                    r == Err::<(), MemoryError>(pre.push_err()) && final(self)@ == pre.push_partial(
                        value,
                    )
                }
            }),
    {
        let (h, l) = to_u8(value);
        let lo_addr = self.cpu.sp.wrapping_sub(2);
        let hi_addr = self.cpu.sp.wrapping_sub(1);
        self.ram.write(lo_addr, l)?;
        self.ram.write(hi_addr, h)?;
        self.cpu.sp = lo_addr;
        Ok(())
    }

    /// Pops a 16-bit word: the low byte at SP, the high byte above it, then
    /// SP moves up by two. A failing pop changes nothing.
    fn pop_word(&mut self) -> (r: Result<u16, MemoryError>)
        ensures
            ({
                let pre = old(self)@;
                if pre.pop_ok() {
                    r == Ok::<u16, MemoryError>(pre.pop_val()) && final(self)@ == pre.popped()
                } else {
                    r == Err::<u16, MemoryError>(pre.pop_err()) && final(self)@ == pre
                }
            }),
    {
        let l = self.ram.get(self.cpu.sp)?;
        let h = self.ram.get(self.cpu.sp.wrapping_add(1))?;
        self.cpu.sp = self.cpu.sp.wrapping_add(2);
        Ok(to_u16(l, h))
    }
}

/// The address of the instruction after this one: PC advanced by the
/// instruction's size, wrapping modulo 2^16.
pub open spec fn next_pc(pre: SystemView, instr: Instruction) -> u16 {
    wrap_add16(pre.cpu.pc, instr_size(instr))
}

/// The state after a call-class instruction (CALL, conditional calls, RST):
/// when the condition holds, the address of the next instruction is pushed
/// and PC moves to the target; when it fails, PC just advances.
pub open spec fn call_step(pre: SystemView, instr: Instruction, test: bool, addr: u16) -> SystemView {
    if !test {
        pre.with_pc(next_pc(pre, instr))
    } else if pre.push_ok() {
        pre.pushed(next_pc(pre, instr)).with_pc(addr)
    } else {
        pre.push_partial(next_pc(pre, instr))
    }
}

/// The result of a call-class instruction: its base cycles, plus `extra`
/// when a conditional call takes the branch; a failing push is the error.
pub open spec fn call_step_result(pre: SystemView, instr: Instruction, test: bool, extra: u8) -> Result<
    Option<u8>,
    MemoryError,
> {
    if !test {
        Ok(Some(instr_cycles(instr)))
    } else if pre.push_ok() {
        Ok(Some((instr_cycles(instr) + extra) as u8))
    } else {
        Err(pre.push_err())
    }
}

/// The state after a return-class instruction (RET, conditional returns):
/// when the condition holds, PC is popped from the stack; when it fails, PC
/// just advances. A failing pop changes nothing.
pub open spec fn ret_step(pre: SystemView, instr: Instruction, test: bool) -> SystemView {
    if !test {
        pre.with_pc(next_pc(pre, instr))
    } else if pre.pop_ok() {
        pre.popped().with_pc(pre.pop_val())
    } else {
        pre
    }
}

/// The result of a return-class instruction: its base cycles, plus `extra`
/// when a conditional return takes the branch.
pub open spec fn ret_step_result(pre: SystemView, instr: Instruction, test: bool, extra: u8) -> Result<
    Option<u8>,
    MemoryError,
> {
    if !test {
        Ok(Some(instr_cycles(instr)))
    } else if pre.pop_ok() {
        Ok(Some((instr_cycles(instr) + extra) as u8))
    } else {
        Err(pre.pop_err())
    }
}

/// The state after a jump-class instruction: PC moves to the target when the
/// condition holds and advances linearly when it fails.
pub open spec fn jump_step(pre: SystemView, instr: Instruction, test: bool, addr: u16) -> SystemView {
    if test {
        pre.with_pc(addr)
    } else {
        pre.with_pc(next_pc(pre, instr))
    }
}

/// Whether an INR/DCR on this operand succeeds: only M can fail, on the
/// read or on the write of the memory byte at HL.
pub open spec fn incdec_ok(pre: SystemView, reg: Register) -> bool {
    pre.src_ok(reg) && pre.dst_ok(reg)
}

/// The error of a failing INR/DCR: the read error if the byte cannot be
/// read, else the write error.
pub open spec fn incdec_err(pre: SystemView, reg: Register) -> MemoryError {
    if !pre.src_ok(reg) {
        pre.read_err(pre.hl())
    } else {
        pre.write_err(pre.hl())
    }
}

/// The state after a successful INR/DCR: the operand replaced by `out`, and
/// S, Z, P and AC updated while CY is preserved.
pub open spec fn incdec_state(pre: SystemView, reg: Register, out: u8, ac: bool) -> SystemView {
    let stored = pre.with_dst(reg, out);
    stored.with_cpu(Cpu { f: flags_szp_ac(stored.cpu.f, out, ac), ..stored.cpu })
}

/// The state after LHLD: L and H loaded from two consecutive memory bytes.
/// A failing read changes nothing.
pub open spec fn lhld_step(pre: SystemView, instr: Instruction, addr: u16) -> SystemView {
    if pre.read_ok(addr) && pre.read_ok(wrap_add16(addr, 1)) {
        pre.with_cpu(
            Cpu { l: pre.byte(addr), h: pre.byte(wrap_add16(addr, 1)), ..pre.cpu },
        ).with_pc(next_pc(pre, instr))
    } else {
        pre
    }
}

/// The state after SHLD: L and H stored into two consecutive memory bytes.
/// When only the first write succeeds, it stays.
pub open spec fn shld_step(pre: SystemView, instr: Instruction, addr: u16) -> SystemView {
    if !pre.writable(addr) {
        pre
    } else if !pre.writable(wrap_add16(addr, 1)) {
        pre.with_mem(addr, pre.cpu.l)
    } else {
        pre.with_mem(addr, pre.cpu.l).with_mem(wrap_add16(addr, 1), pre.cpu.h).with_pc(
            next_pc(pre, instr),
        )
    }
}

/// The state after XTHL: L and H swapped with the two bytes at the stack
/// top. Reads come first; when only the first write succeeds, it stays.
pub open spec fn xthl_step(pre: SystemView, instr: Instruction) -> SystemView {
    let sp = pre.cpu.sp;
    let sp1 = wrap_add16(sp, 1);
    if !pre.read_ok(sp) || !pre.read_ok(sp1) {
        pre
    } else if !pre.writable(sp) {
        pre
    } else if !pre.writable(sp1) {
        pre.with_mem(sp, pre.cpu.l)
    } else {
        pre.with_mem(sp, pre.cpu.l).with_mem(sp1, pre.cpu.h).with_cpu(
            Cpu { l: pre.byte(sp), h: pre.byte(sp1), ..pre.cpu },
        ).with_pc(next_pc(pre, instr))
    }
}

/// The state after loading the accumulator from a memory address (LDA,
/// LDAX). A failing read changes nothing.
pub open spec fn load_a_step(pre: SystemView, instr: Instruction, addr: u16) -> SystemView {
    if pre.read_ok(addr) {
        pre.with_cpu(Cpu { a: pre.byte(addr), ..pre.cpu }).with_pc(next_pc(pre, instr))
    } else {
        pre
    }
}

/// The state after storing the accumulator to a memory address (STA, STAX).
/// A failing write changes nothing.
pub open spec fn store_a_step(pre: SystemView, instr: Instruction, addr: u16) -> SystemView {
    if pre.writable(addr) {
        pre.with_mem(addr, pre.cpu.a).with_pc(next_pc(pre, instr))
    } else {
        pre
    }
}

/// The state `execute` leaves behind, for every instruction, from the state
/// it started in. `a_in` is the byte the port peripheral answered when the
/// instruction is IN; every other instruction ignores it. For an instruction
/// that fails on a memory access the state is the one the failure leaves:
/// PC, SP and the interrupt latch never move on a failure, and only a
/// two-byte store (a push, SHLD, XTHL) can leave its first byte behind.
pub open spec fn step_state(pre: SystemView, instr: Instruction, a_in: u8) -> SystemView {
    let next = next_pc(pre, instr);
    let f = pre.cpu.f;
    let a = pre.cpu.a;
    match instr {
        Instruction::Nop => pre.with_pc(next),
        Instruction::Jmp(addr) => pre.with_pc(addr),
        Instruction::Jz(addr) => jump_step(pre, instr, flag_z(f), addr),
        Instruction::Jnz(addr) => jump_step(pre, instr, !flag_z(f), addr),
        Instruction::Jm(addr) => jump_step(pre, instr, flag_s(f), addr),
        Instruction::Jp(addr) => jump_step(pre, instr, !flag_s(f), addr),
        Instruction::Jpe(addr) => jump_step(pre, instr, flag_p(f), addr),
        Instruction::Jpo(addr) => jump_step(pre, instr, !flag_p(f), addr),
        Instruction::Jc(addr) => jump_step(pre, instr, flag_cy(f), addr),
        Instruction::Jnc(addr) => jump_step(pre, instr, !flag_cy(f), addr),
        Instruction::Call(addr) => call_step(pre, instr, true, addr),
        Instruction::Cz(addr) => call_step(pre, instr, flag_z(f), addr),
        Instruction::Cnz(addr) => call_step(pre, instr, !flag_z(f), addr),
        Instruction::Cm(addr) => call_step(pre, instr, flag_s(f), addr),
        Instruction::Cp(addr) => call_step(pre, instr, !flag_s(f), addr),
        Instruction::Cpe(addr) => call_step(pre, instr, flag_p(f), addr),
        Instruction::Cpo(addr) => call_step(pre, instr, !flag_p(f), addr),
        Instruction::Cc(addr) => call_step(pre, instr, flag_cy(f), addr),
        Instruction::Cnc(addr) => call_step(pre, instr, !flag_cy(f), addr),
        Instruction::Rst(n) => call_step(pre, instr, true, (8 * n) as u16),
        Instruction::Ret => ret_step(pre, instr, true),
        Instruction::Rz => ret_step(pre, instr, flag_z(f)),
        Instruction::Rnz => ret_step(pre, instr, !flag_z(f)),
        Instruction::Rm => ret_step(pre, instr, flag_s(f)),
        Instruction::Rp => ret_step(pre, instr, !flag_s(f)),
        Instruction::Rpe => ret_step(pre, instr, flag_p(f)),
        Instruction::Rpo => ret_step(pre, instr, !flag_p(f)),
        Instruction::Rc => ret_step(pre, instr, flag_cy(f)),
        Instruction::Rnc => ret_step(pre, instr, !flag_cy(f)),
        Instruction::Cma => pre.with_cpu(Cpu { a: (255 - a) as u8, ..pre.cpu }).with_pc(next),
        Instruction::Push(rp) => if pre.push_ok() {
            pre.pushed(pre.pair(rp)).with_pc(next)
        } else {
            pre.push_partial(pre.pair(rp))
        },
        Instruction::Pop(rp) => if pre.pop_ok() {
            pre.with_cpu(
                Cpu {
                    sp: wrap_add16(pre.cpu.sp, 2),
                    ..pre.cpu.with_reg(pair_low(rp), pre.byte(pre.cpu.sp)).with_reg(
                        pair_high(rp),
                        pre.byte(wrap_add16(pre.cpu.sp, 1)),
                    )
                },
            ).with_pc(next)
        } else {
            pre
        },
        Instruction::Cpi(b) => pre.cmp_acc(b).with_pc(next),
        Instruction::Cmp(reg) => if pre.src_ok(reg) {
            pre.cmp_acc(pre.src_val(reg)).with_pc(next)
        } else {
            pre
        },
        Instruction::Inx(rp) => {
            let v = wrap_add16(pre.pair(rp), 1);
            pre.with_pair(rp, lo8(v), hi8(v)).with_pc(next)
        },
        Instruction::Dcx(rp) => {
            let v = wrap_sub16(pre.pair(rp), 1);
            pre.with_pair(rp, lo8(v), hi8(v)).with_pc(next)
        },
        Instruction::Inr(reg) => if incdec_ok(pre, reg) {
            incdec_state(
                pre,
                reg,
                add8(pre.src_val(reg), 1, false),
                add8_ac(pre.src_val(reg), 1, false),
            ).with_pc(next)
        } else {
            pre
        },
        Instruction::Dcr(reg) => if incdec_ok(pre, reg) {
            incdec_state(
                pre,
                reg,
                sub8(pre.src_val(reg), 1, false),
                sub8_ac(pre.src_val(reg), 1, false),
            ).with_pc(next)
        } else {
            pre
        },
        Instruction::Ldax(rp) => load_a_step(pre, instr, pre.pair(rp)),
        Instruction::Lda(addr) => load_a_step(pre, instr, addr),
        Instruction::Dad(rp) => {
            let sum = wrap_add16(pre.pair(rp), pre.pair(RegisterPair::H));
            pre.with_cpu(
                Cpu {
                    h: hi8(sum),
                    l: lo8(sum),
                    f: set_flag(f, 0x01, add16_cy(pre.pair(rp), pre.pair(RegisterPair::H))),
                    ..pre.cpu
                },
            ).with_pc(next)
        },
        Instruction::Lxi(rp, lb, hb) => pre.with_pair(rp, lb, hb).with_pc(next),
        Instruction::Mvi(dst, v) => if pre.dst_ok(dst) {
            pre.with_dst(dst, v).with_pc(next)
        } else {
            pre
        },
        Instruction::Mov(dst, src) => if !pre.src_ok(src) {
            pre
        } else if !pre.dst_ok(dst) {
            pre
        } else {
            pre.with_dst(dst, pre.src_val(src)).with_pc(next)
        },
        Instruction::Xchg => pre.with_cpu(
            Cpu { d: pre.cpu.h, e: pre.cpu.l, h: pre.cpu.d, l: pre.cpu.e, ..pre.cpu },
        ).with_pc(next),
        Instruction::Xthl => xthl_step(pre, instr),
        Instruction::Rlc => pre.with_cpu(
            Cpu { a: rlc_val(a), f: set_flag(f, 0x01, rot_left_cy(a)), ..pre.cpu },
        ).with_pc(next),
        Instruction::Rrc => pre.with_cpu(
            Cpu { a: rrc_val(a), f: set_flag(f, 0x01, rot_right_cy(a)), ..pre.cpu },
        ).with_pc(next),
        Instruction::Ral => pre.with_cpu(
            Cpu { a: ral_val(a, flag_cy(f)), f: set_flag(f, 0x01, rot_left_cy(a)), ..pre.cpu },
        ).with_pc(next),
        Instruction::Rar => pre.with_cpu(
            Cpu { a: rar_val(a, flag_cy(f)), f: set_flag(f, 0x01, rot_right_cy(a)), ..pre.cpu },
        ).with_pc(next),
        Instruction::Sta(addr) => store_a_step(pre, instr, addr),
        Instruction::Stax(rp) => store_a_step(pre, instr, pre.pair(rp)),
        Instruction::Ana(reg) => if pre.src_ok(reg) {
            pre.logic_acc(a & pre.src_val(reg)).with_pc(next)
        } else {
            pre
        },
        Instruction::Xra(reg) => if pre.src_ok(reg) {
            pre.logic_acc(a ^ pre.src_val(reg)).with_pc(next)
        } else {
            pre
        },
        Instruction::Ora(reg) => if pre.src_ok(reg) {
            pre.logic_acc(a | pre.src_val(reg)).with_pc(next)
        } else {
            pre
        },
        Instruction::Ani(b) => pre.logic_acc(a & b).with_pc(next),
        Instruction::Xri(b) => pre.logic_acc(a ^ b).with_pc(next),
        Instruction::Ori(b) => pre.logic_acc(a | b).with_pc(next),
        Instruction::Out(_) => pre.with_pc(next),
        Instruction::In(_) => pre.with_cpu(Cpu { a: a_in, ..pre.cpu }).with_pc(next),
        Instruction::Adi(b) => pre.add_acc(b, false).with_pc(next),
        Instruction::Sui(b) => pre.sub_acc(b, false).with_pc(next),
        Instruction::Aci(b) => pre.add_acc(b, flag_cy(f)).with_pc(next),
        Instruction::Sbi(b) => pre.sub_acc(b, flag_cy(f)).with_pc(next),
        Instruction::Adc(reg) => if pre.src_ok(reg) {
            pre.add_acc(pre.src_val(reg), flag_cy(f)).with_pc(next)
        } else {
            pre
        },
        Instruction::Sbb(reg) => if pre.src_ok(reg) {
            pre.sub_acc(pre.src_val(reg), flag_cy(f)).with_pc(next)
        } else {
            pre
        },
        Instruction::Add(reg) => if pre.src_ok(reg) {
            pre.add_acc(pre.src_val(reg), false).with_pc(next)
        } else {
            pre
        },
        Instruction::Sub(reg) => if pre.src_ok(reg) {
            pre.sub_acc(pre.src_val(reg), false).with_pc(next)
        } else {
            pre
        },
        Instruction::Stc => pre.with_cpu(Cpu { f: set_flag(f, 0x01, true), ..pre.cpu }).with_pc(
            next,
        ),
        Instruction::Cmc => pre.with_cpu(
            Cpu { f: set_flag(f, 0x01, !flag_cy(f)), ..pre.cpu },
        ).with_pc(next),
        Instruction::Daa => pre.acc_arith(
            daa_result(a, flag_ac(f), flag_cy(f)),
            daa_cy_out(a, flag_ac(f), flag_cy(f)),
            daa_ac_out(a, flag_ac(f)),
        ).with_pc(next),
        Instruction::Lhld(addr) => lhld_step(pre, instr, addr),
        Instruction::Shld(addr) => shld_step(pre, instr, addr),
        Instruction::Sphl => pre.with_cpu(Cpu { sp: pre.hl(), ..pre.cpu }).with_pc(next),
        Instruction::Pchl => pre.with_pc(pre.hl()),
        Instruction::Ei => pre.with_cpu(Cpu { inte: true, ..pre.cpu }).with_pc(next),
        Instruction::Di => pre.with_cpu(Cpu { inte: false, ..pre.cpu }).with_pc(next),
        Instruction::Hlt => pre,
    }
}

/// What `execute` returns, for every instruction: `Ok(Some(cycles))` on
/// success (the base cycles, plus five when a conditional call or return
/// takes its branch), `Ok(None)` for HLT, and the error of the memory access
/// that failed otherwise.
pub open spec fn step_result(pre: SystemView, instr: Instruction) -> Result<Option<u8>, MemoryError> {
    let f = pre.cpu.f;
    match instr {
        Instruction::Call(addr) => call_step_result(pre, instr, true, 0),
        Instruction::Cz(addr) => call_step_result(pre, instr, flag_z(f), 5),
        Instruction::Cnz(addr) => call_step_result(pre, instr, !flag_z(f), 5),
        Instruction::Cm(addr) => call_step_result(pre, instr, flag_s(f), 5),
        Instruction::Cp(addr) => call_step_result(pre, instr, !flag_s(f), 5),
        Instruction::Cpe(addr) => call_step_result(pre, instr, flag_p(f), 5),
        Instruction::Cpo(addr) => call_step_result(pre, instr, !flag_p(f), 5),
        Instruction::Cc(addr) => call_step_result(pre, instr, flag_cy(f), 5),
        Instruction::Cnc(addr) => call_step_result(pre, instr, !flag_cy(f), 5),
        Instruction::Rst(_) => call_step_result(pre, instr, true, 0),
        Instruction::Ret => ret_step_result(pre, instr, true, 0),
        Instruction::Rz => ret_step_result(pre, instr, flag_z(f), 5),
        Instruction::Rnz => ret_step_result(pre, instr, !flag_z(f), 5),
        Instruction::Rm => ret_step_result(pre, instr, flag_s(f), 5),
        Instruction::Rp => ret_step_result(pre, instr, !flag_s(f), 5),
        Instruction::Rpe => ret_step_result(pre, instr, flag_p(f), 5),
        Instruction::Rpo => ret_step_result(pre, instr, !flag_p(f), 5),
        Instruction::Rc => ret_step_result(pre, instr, flag_cy(f), 5),
        Instruction::Rnc => ret_step_result(pre, instr, !flag_cy(f), 5),
        Instruction::Push(_) => if pre.push_ok() {
            Ok(Some(instr_cycles(instr)))
        } else {
            Err(pre.push_err())
        },
        Instruction::Pop(_) => if pre.pop_ok() {
            Ok(Some(instr_cycles(instr)))
        } else {
            Err(pre.pop_err())
        },
        Instruction::Cmp(reg) | Instruction::Adc(reg) | Instruction::Sbb(reg)
            | Instruction::Add(reg) | Instruction::Sub(reg) | Instruction::Ana(reg)
            | Instruction::Xra(reg) | Instruction::Ora(reg) => if pre.src_ok(reg) {
            Ok(Some(instr_cycles(instr)))
        } else {
            Err(pre.read_err(pre.hl()))
        },
        Instruction::Inr(reg) | Instruction::Dcr(reg) => if incdec_ok(pre, reg) {
            Ok(Some(instr_cycles(instr)))
        } else {
            Err(incdec_err(pre, reg))
        },
        Instruction::Ldax(rp) => if pre.read_ok(pre.pair(rp)) {
            Ok(Some(instr_cycles(instr)))
        } else {
            Err(pre.read_err(pre.pair(rp)))
        },
        Instruction::Lda(addr) => if pre.read_ok(addr) {
            Ok(Some(instr_cycles(instr)))
        } else {
            Err(pre.read_err(addr))
        },
        Instruction::Sta(addr) => if pre.writable(addr) {
            Ok(Some(instr_cycles(instr)))
        } else {
            Err(pre.write_err(addr))
        },
        Instruction::Stax(rp) => if pre.writable(pre.pair(rp)) {
            Ok(Some(instr_cycles(instr)))
        } else {
            Err(pre.write_err(pre.pair(rp)))
        },
        Instruction::Mvi(dst, _) => if pre.dst_ok(dst) {
            Ok(Some(instr_cycles(instr)))
        } else {
            Err(pre.write_err(pre.hl()))
        },
        Instruction::Mov(dst, src) => if !pre.src_ok(src) {
            Err(pre.read_err(pre.hl()))
        } else if !pre.dst_ok(dst) {
            Err(pre.write_err(pre.hl()))
        } else {
            Ok(Some(instr_cycles(instr)))
        },
        Instruction::Xthl => {
            let sp = pre.cpu.sp;
            let sp1 = wrap_add16(sp, 1);
            if !pre.read_ok(sp) {
                Err(pre.read_err(sp))
            } else if !pre.read_ok(sp1) {
                Err(pre.read_err(sp1))
            } else if !pre.writable(sp) {
                Err(pre.write_err(sp))
            } else if !pre.writable(sp1) {
                Err(pre.write_err(sp1))
            } else {
                Ok(Some(instr_cycles(instr)))
            }
        },
        Instruction::Lhld(addr) => if !pre.read_ok(addr) {
            Err(pre.read_err(addr))
        } else if !pre.read_ok(wrap_add16(addr, 1)) {
            Err(pre.read_err(wrap_add16(addr, 1)))
        } else {
            Ok(Some(instr_cycles(instr)))
        },
        Instruction::Shld(addr) => if !pre.writable(addr) {
            Err(pre.write_err(addr))
        } else if !pre.writable(wrap_add16(addr, 1)) {
            Err(pre.write_err(wrap_add16(addr, 1)))
        } else {
            Ok(Some(instr_cycles(instr)))
        },
        Instruction::Hlt => Ok(None),
        _ => Ok(Some(instr_cycles(instr))),
    }
}

impl System {
    /// Reads and decodes the instruction at PC from this system's memory.
    pub fn next_instruction(&self) -> (r: Result<Instruction, OpCodeError>)
        ensures
            ({
                let n = self@.mem.len();
                let p = self.cpu.pc as int;
                if p >= n {
                    r == Err::<Instruction, OpCodeError>(OpCodeError::EndOfDataInstr)
                } else {
                    let op = self@.mem[p];
                    let len = crate::op_code::arg_len(op);
                    if p + len <= n {
                        let lo = if len >= 2 { self@.mem[p + 1] } else { 0u8 };
                        let hi = if len == 3 { self@.mem[p + 2] } else { 0u8 };
                        r == Ok::<Instruction, OpCodeError>(decode(op, lo, hi))
                    } else {
                        r == Err::<Instruction, OpCodeError>(OpCodeError::EndOfDataParam(op))
                    }
                }
            }),
    {
        Instruction::read_at(self.ram.ram.as_slice(), self.cpu.pc)
    }

    /// Pushes the return address and hands back the call target as the new
    /// PC.
    fn call(&mut self, addr: u16, ret_to: u16) -> (r: Result<u16, MemoryError>)
        ensures
            ({
                let pre = old(self)@;
                if pre.push_ok() {
                    r == Ok::<u16, MemoryError>(addr) && final(self)@ == pre.pushed(ret_to)
                } else {
                    r == Err::<u16, MemoryError>(pre.push_err()) && final(self)@
                        == pre.push_partial(ret_to)
                }
            }),
    {
        self.push_word(ret_to)?;
        Ok(addr)
    }

    /// Pops the return address off the stack.
    fn ret(&mut self) -> (r: Result<u16, MemoryError>)
        ensures
            ({
                let pre = old(self)@;
                if pre.pop_ok() {
                    r == Ok::<u16, MemoryError>(pre.pop_val()) && final(self)@ == pre.popped()
                } else {
                    r == Err::<u16, MemoryError>(pre.pop_err()) && final(self)@ == pre
                }
            }),
    {
        self.pop_word()
    }

    /// Pushes the value of a register pair.
    fn push(&mut self, rp: RegisterPair) -> (r: Result<(), MemoryError>)
        ensures
            ({
                let pre = old(self)@;
                if pre.push_ok() {
                    r == Ok::<(), MemoryError>(()) && final(self)@ == pre.pushed(pre.pair(rp))
                } else {
                    r == Err::<(), MemoryError>(pre.push_err()) && final(self)@
                        == pre.push_partial(pre.pair(rp))
                }
            }),
    {
        let value = self.get_rp(rp);
        self.push_word(value)
    }

    /// Pops the stack top into a register pair; SP is not a target.
    fn pop(&mut self, rp: RegisterPair) -> (r: Result<(), MemoryError>)
        requires
            rp != RegisterPair::SP,
        ensures
            ({
                let pre = old(self)@;
                if pre.pop_ok() {
                    r == Ok::<(), MemoryError>(()) && final(self)@ == pre.with_cpu(
                        Cpu {
                            sp: wrap_add16(pre.cpu.sp, 2),
                            ..pre.cpu.with_reg(pair_low(rp), pre.byte(pre.cpu.sp)).with_reg(
                                pair_high(rp),
                                pre.byte(wrap_add16(pre.cpu.sp, 1)),
                            )
                        },
                    )
                } else {
                    r == Err::<(), MemoryError>(pre.pop_err()) && final(self)@ == pre
                }
            }),
    {
        proof {
            crate::arith::lemma_word_parts(
                old(self)@.byte(old(self).cpu.sp),
                old(self)@.byte(wrap_add16(old(self).cpu.sp, 1)),
            );
        }
        let value = self.pop_word()?;
        let (h, l) = rp.split();
        let (hb, lb) = to_u8(value);
        self.cpu.set_reg(l, lb);
        self.cpu.set_reg(h, hb);
        Ok(())
    }

    /// Adds a byte (plus carry-in) to the accumulator, updating all flags.
    fn add_acc(&mut self, byte: u8, carry: bool)
        ensures
            final(self)@ == old(self)@.add_acc(byte, carry),
    {
        let (out, cy, ac) = add_with_carry(self.cpu.a, byte, carry);
        self.cpu.update_flags_with_carries(out, cy, ac);
        self.cpu.a = out;
    }

    /// Subtracts a byte (plus borrow-in) from the accumulator, updating all
    /// flags.
    fn sub_acc(&mut self, byte: u8, borrow: bool)
        ensures
            final(self)@ == old(self)@.sub_acc(byte, borrow),
    {
        let (out, cy, ac) = sub_with_borrow(self.cpu.a, byte, borrow);
        self.cpu.update_flags_with_carries(out, cy, ac);
        self.cpu.a = out;
    }

    /// Compares the accumulator with a byte: the flags of the subtraction,
    /// the accumulator kept.
    fn cpi(&mut self, byte: u8)
        ensures
            final(self)@ == old(self)@.cmp_acc(byte),
    {
        let (out, cy, ac) = sub_with_borrow(self.cpu.a, byte, false);
        self.cpu.update_flags_with_carries(out, cy, ac);
    }

    /// Stores a logical result in the accumulator: S, Z and P from the
    /// result, CY cleared.
    fn logic_a(&mut self, out: u8)
        ensures
            final(self)@ == old(self)@.logic_acc(out),
    {
        self.cpu.update_flags_with_carry(out, false);
        self.cpu.a = out;
    }

    /// Decimal-adjusts the accumulator: adds 0x06 when the low nibble
    /// exceeds 9 or AC is set, then 0x60 when the high nibble exceeds 9 or a
    /// carry is pending; the carry is sticky.
    fn daa(&mut self)
        ensures
            ({
                let pre = old(self)@;
                let a = pre.cpu.a;
                let ac = flag_ac(pre.cpu.f);
                let cy = flag_cy(pre.cpu.f);
                final(self)@ == pre.acc_arith(
                    daa_result(a, ac, cy),
                    daa_cy_out(a, ac, cy),
                    daa_ac_out(a, ac),
                )
            }),
    {
        let a = self.cpu.a;
        let ac = self.cpu.ac();
        let cy = self.cpu.cy();
        let low = a % 16 > 9 || ac;
        let (a1, c1, ac1) = if low {
            add_with_carry(a, 6, false)
        } else {
            (a, false, false)
        };
        let cy1 = cy || (low && c1);
        let high = a1 / 16 > 9 || cy1;
        let (a2, c2, _unused) = if high {
            add_with_carry(a1, 0x60, false)
        } else {
            (a1, false, false)
        };
        let cy_out = cy1 || (high && c2);
        let ac_out = low && ac1;
        self.cpu.update_flags_with_carries(a2, cy_out, ac_out);
        self.cpu.a = a2;
    }

    /// Rotates the accumulator left; bit 7 goes to both bit 0 and CY.
    fn rlc(&mut self)
        ensures
            final(self)@ == old(self)@.with_cpu(
                Cpu {
                    a: rlc_val(old(self).cpu.a),
                    f: set_flag(old(self).cpu.f, 0x01, rot_left_cy(old(self).cpu.a)),
                    ..old(self).cpu
                },
            ),
    {
        let a = self.cpu.a;
        self.cpu.toggle(Flag::Cy, a >= 128);
        self.cpu.a = (a % 128) * 2 + a / 128;
    }

    /// Rotates the accumulator right; bit 0 goes to both bit 7 and CY.
    fn rrc(&mut self)
        ensures
            final(self)@ == old(self)@.with_cpu(
                Cpu {
                    a: rrc_val(old(self).cpu.a),
                    f: set_flag(old(self).cpu.f, 0x01, rot_right_cy(old(self).cpu.a)),
                    ..old(self).cpu
                },
            ),
    {
        let a = self.cpu.a;
        self.cpu.toggle(Flag::Cy, a % 2 == 1);
        self.cpu.a = a / 2 + (a % 2) * 128;
    }

    /// Rotates the accumulator left through the carry.
    fn ral(&mut self)
        ensures
            final(self)@ == old(self)@.with_cpu(
                Cpu {
                    a: ral_val(old(self).cpu.a, flag_cy(old(self).cpu.f)),
                    f: set_flag(old(self).cpu.f, 0x01, rot_left_cy(old(self).cpu.a)),
                    ..old(self).cpu
                },
            ),
    {
        let a = self.cpu.a;
        let cy = self.cpu.cy();
        self.cpu.toggle(Flag::Cy, a >= 128);
        self.cpu.a = (a % 128) * 2 + if cy {
            1
        } else {
            0
        };
    }

    /// Rotates the accumulator right through the carry.
    fn rar(&mut self)
        ensures
            final(self)@ == old(self)@.with_cpu(
                Cpu {
                    a: rar_val(old(self).cpu.a, flag_cy(old(self).cpu.f)),
                    f: set_flag(old(self).cpu.f, 0x01, rot_right_cy(old(self).cpu.a)),
                    ..old(self).cpu
                },
            ),
    {
        let a = self.cpu.a;
        let cy = self.cpu.cy();
        self.cpu.toggle(Flag::Cy, a % 2 == 1);
        self.cpu.a = a / 2 + if cy {
            128
        } else {
            0
        };
    }

    /// Adds or subtracts one on an instruction operand, updating S, Z, P and
    /// AC while preserving CY. `up` selects INR over DCR.
    fn incdec(&mut self, reg: Register, up: bool) -> (r: Result<(), MemoryError>)
        ensures
            ({
                let pre = old(self)@;
                if incdec_ok(pre, reg) {
                    let v = pre.src_val(reg);
                    let out = if up {
                        add8(v, 1, false)
                    } else {
                        sub8(v, 1, false)
                    };
                    let ac = if up {
                        add8_ac(v, 1, false)
                    } else {
                        sub8_ac(v, 1, false)
                    };
                    r == Ok::<(), MemoryError>(()) && final(self)@ == incdec_state(
                        pre,
                        reg,
                        out,
                        ac,
                    )
                } else {
                    r == Err::<(), MemoryError>(incdec_err(pre, reg)) && final(self)@ == pre
                }
            }),
    {
        let v = self.get(reg)?;
        let (out, _cy, ac) = if up {
            add_with_carry(v, 1, false)
        } else {
            sub_with_borrow(v, 1, false)
        };
        self.write(reg, out)?;
        self.cpu.update_flags_with_ac(out, ac);
        Ok(())
    }

    /// Moves a register pair up or down by one; no flag is touched.
    fn incdec16(&mut self, rp: RegisterPair, up: bool)
        ensures
            ({
                let pre = old(self)@;
                let v = if up {
                    wrap_add16(pre.pair(rp), 1)
                } else {
                    wrap_sub16(pre.pair(rp), 1)
                };
                final(self)@ == pre.with_pair(rp, lo8(v), hi8(v))
            }),
    {
        let cur = self.get_rp(rp);
        let v = if up {
            cur.wrapping_add(1)
        } else {
            cur.wrapping_sub(1)
        };
        proof {
            crate::arith::lemma_word_roundtrip(v);
        }
        if rp == RegisterPair::SP {
            self.cpu.sp = v;
        } else {
            let (h, l) = rp.split();
            let (hb, lb) = to_u8(v);
            self.cpu.set_reg(h, hb);
            self.cpu.set_reg(l, lb);
        }
    }

    /// Adds a register pair into HL; only CY is affected.
    fn dad(&mut self, rp: RegisterPair)
        ensures
            ({
                let pre = old(self)@;
                let sum = wrap_add16(pre.pair(rp), pre.pair(RegisterPair::H));
                final(self)@ == pre.with_cpu(
                    Cpu {
                        h: hi8(sum),
                        l: lo8(sum),
                        f: set_flag(
                            pre.cpu.f,
                            0x01,
                            add16_cy(pre.pair(rp), pre.pair(RegisterPair::H)),
                        ),
                        ..pre.cpu
                    },
                )
            }),
    {
        let to_add = self.get_rp(rp);
        let to_add_to = self.get_rp(RegisterPair::H);
        let (val, cy) = add_u16(to_add, to_add_to);
        let (h, l) = to_u8(val);
        self.cpu.toggle(Flag::Cy, cy);
        self.cpu.h = h;
        self.cpu.l = l;
    }

    /// Loads a register pair from two immediate bytes.
    fn lxi(&mut self, rp: RegisterPair, lb: u8, hb: u8)
        ensures
            final(self)@ == old(self)@.with_pair(rp, lb, hb),
    {
        if rp == RegisterPair::SP {
            self.cpu.sp = to_u16(lb, hb);
        } else {
            let (h, l) = rp.split();
            self.cpu.set_reg(h, hb);
            self.cpu.set_reg(l, lb);
        }
    }

    /// Loads L and H from two consecutive memory bytes.
    fn lhld(&mut self, addr: u16) -> (r: Result<(), MemoryError>)
        ensures
            ({
                let pre = old(self)@;
                if pre.read_ok(addr) && pre.read_ok(wrap_add16(addr, 1)) {
                    r == Ok::<(), MemoryError>(()) && final(self)@ == pre.with_cpu(
                        Cpu { l: pre.byte(addr), h: pre.byte(wrap_add16(addr, 1)), ..pre.cpu },
                    )
                } else if !pre.read_ok(addr) {
                    r == Err::<(), MemoryError>(pre.read_err(addr)) && final(self)@ == pre
                } else {
                    r == Err::<(), MemoryError>(pre.read_err(wrap_add16(addr, 1))) && final(self)@
                        == pre
                }
            }),
    {
        let l = self.ram.get(addr)?;
        let h = self.ram.get(addr.wrapping_add(1))?;
        self.cpu.l = l;
        self.cpu.h = h;
        Ok(())
    }

    /// Stores L and H into two consecutive memory bytes.
    fn shld(&mut self, addr: u16) -> (r: Result<(), MemoryError>)
        ensures
            ({
                let pre = old(self)@;
                if !pre.writable(addr) {
                    r == Err::<(), MemoryError>(pre.write_err(addr)) && final(self)@ == pre
                } else if !pre.writable(wrap_add16(addr, 1)) {
                    r == Err::<(), MemoryError>(pre.write_err(wrap_add16(addr, 1))) && final(self)@
                        == pre.with_mem(addr, pre.cpu.l)
                } else {
                    r == Ok::<(), MemoryError>(()) && final(self)@ == pre.with_mem(
                        addr,
                        pre.cpu.l,
                    ).with_mem(wrap_add16(addr, 1), pre.cpu.h)
                }
            }),
    {
        self.ram.write(addr, self.cpu.l)?;
        self.ram.write(addr.wrapping_add(1), self.cpu.h)?;
        Ok(())
    }

    /// Swaps the DE and HL pairs.
    fn xchg(&mut self)
        ensures
            final(self)@ == old(self)@.with_cpu(
                Cpu {
                    d: old(self).cpu.h,
                    e: old(self).cpu.l,
                    h: old(self).cpu.d,
                    l: old(self).cpu.e,
                    ..old(self).cpu
                },
            ),
    {
        let d = self.cpu.d;
        let e = self.cpu.e;
        self.cpu.d = self.cpu.h;
        self.cpu.e = self.cpu.l;
        self.cpu.h = d;
        self.cpu.l = e;
    }

    /// Swaps L and H with the two bytes at the stack top.
    fn xthl(&mut self) -> (r: Result<(), MemoryError>)
        ensures
            ({
                let pre = old(self)@;
                let sp = pre.cpu.sp;
                let sp1 = wrap_add16(sp, 1);
                if !pre.read_ok(sp) {
                    r == Err::<(), MemoryError>(pre.read_err(sp)) && final(self)@ == pre
                } else if !pre.read_ok(sp1) {
                    r == Err::<(), MemoryError>(pre.read_err(sp1)) && final(self)@ == pre
                } else if !pre.writable(sp) {
                    r == Err::<(), MemoryError>(pre.write_err(sp)) && final(self)@ == pre
                } else if !pre.writable(sp1) {
                    r == Err::<(), MemoryError>(pre.write_err(sp1)) && final(self)@ == pre.with_mem(
                        sp,
                        pre.cpu.l,
                    )
                } else {
                    r == Ok::<(), MemoryError>(()) && final(self)@ == pre.with_mem(
                        sp,
                        pre.cpu.l,
                    ).with_mem(sp1, pre.cpu.h).with_cpu(
                        Cpu { l: pre.byte(sp), h: pre.byte(sp1), ..pre.cpu },
                    )
                }
            }),
    {
        let sp_v = self.ram.get(self.cpu.sp)?;
        let sp1_v = self.ram.get(self.cpu.sp.wrapping_add(1))?;
        self.ram.write(self.cpu.sp, self.cpu.l)?;
        self.ram.write(self.cpu.sp.wrapping_add(1), self.cpu.h)?;
        self.cpu.l = sp_v;
        self.cpu.h = sp1_v;
        Ok(())
    }

    /// Loads the accumulator from a memory address.
    fn lda(&mut self, addr: u16) -> (r: Result<(), MemoryError>)
        ensures
            ({
                let pre = old(self)@;
                if pre.read_ok(addr) {
                    r == Ok::<(), MemoryError>(()) && final(self)@ == pre.with_cpu(
                        Cpu { a: pre.byte(addr), ..pre.cpu },
                    )
                } else {
                    r == Err::<(), MemoryError>(pre.read_err(addr)) && final(self)@ == pre
                }
            }),
    {
        self.cpu.a = self.ram.get(addr)?;
        Ok(())
    }

    /// Stores the accumulator to a memory address.
    fn sta(&mut self, addr: u16) -> (r: Result<(), MemoryError>)
        ensures
            ({
                let pre = old(self)@;
                if pre.writable(addr) {
                    r == Ok::<(), MemoryError>(()) && final(self)@ == pre.with_mem(addr, pre.cpu.a)
                } else {
                    r == Err::<(), MemoryError>(pre.write_err(addr)) && final(self)@ == pre
                }
            }),
    {
        self.ram.write(addr, self.cpu.a)?;
        Ok(())
    }

    /// Delivers the accumulator to an output port.
    fn output<IO: InOut>(&mut self, port: u8, io: &IO) -> (r: Result<(), MemoryError>)
        ensures
            r == Ok::<(), MemoryError>(()),
            *final(self) == *old(self),
    {
        io.write(port, self.cpu.a);
        Ok(())
    }

    /// Loads the accumulator from an input port; nothing is assumed of the
    /// byte the port answers.
    fn input<IO: InOut>(&mut self, port: u8, io: &IO) -> (r: Result<(), MemoryError>)
        ensures
            r == Ok::<(), MemoryError>(()),
            final(self)@ == old(self)@.with_cpu(Cpu { a: final(self).cpu.a, ..old(self).cpu }),
    {
        self.cpu.a = io.read(port);
        Ok(())
    }

    /// Stores an immediate into an instruction operand.
    fn mvi(&mut self, dst: Register, value: u8) -> (r: Result<(), MemoryError>)
        ensures
            ({
                let pre = old(self)@;
                if pre.dst_ok(dst) {
                    r == Ok::<(), MemoryError>(()) && final(self)@ == pre.with_dst(dst, value)
                } else {
                    r == Err::<(), MemoryError>(pre.write_err(pre.hl())) && final(self)@ == pre
                }
            }),
    {
        self.write(dst, value)
    }

    /// Copies one instruction operand into another.
    fn mov(&mut self, dst: Register, src: Register) -> (r: Result<(), MemoryError>)
        ensures
            ({
                let pre = old(self)@;
                if !pre.src_ok(src) {
                    r == Err::<(), MemoryError>(pre.read_err(pre.hl())) && final(self)@ == pre
                } else if !pre.dst_ok(dst) {
                    r == Err::<(), MemoryError>(pre.write_err(pre.hl())) && final(self)@ == pre
                } else {
                    r == Ok::<(), MemoryError>(()) && final(self)@ == pre.with_dst(
                        dst,
                        pre.src_val(src),
                    )
                }
            }),
    {
        let value = self.get(src)?;
        self.write(dst, value)
    }
}

impl System {
    /// The jump instructions: JMP, the eight conditional jumps, and PCHL.
    fn exec_jump(&mut self, instruction: Instruction) -> (r: Result<
        Option<u8>,
        MemoryError,
    >)
        requires
            instruction matches Instruction::Jmp(_)
                || instruction matches Instruction::Jz(_)
                || instruction matches Instruction::Jnz(_)
                || instruction matches Instruction::Jm(_)
                || instruction matches Instruction::Jp(_)
                || instruction matches Instruction::Jpe(_)
                || instruction matches Instruction::Jpo(_)
                || instruction matches Instruction::Jc(_)
                || instruction matches Instruction::Jnc(_)
                || instruction matches Instruction::Pchl,
        ensures
            final(self)@ == step_state(old(self)@, instruction, 0),
            r == step_result(old(self)@, instruction),
    {
        let mut pc = self.cpu.pc.wrapping_add(instruction.size());
        let mut cycles = instruction.cycles();
        match instruction {
            Instruction::Jmp(addr) => {
                pc = addr;
            },
            Instruction::Jz(addr) => {
                if self.cpu.z() {
                    pc = addr;
                }
            },
            Instruction::Jnz(addr) => {
                if !self.cpu.z() {
                    pc = addr;
                }
            },
            Instruction::Jm(addr) => {
                if self.cpu.s() {
                    pc = addr;
                }
            },
            Instruction::Jp(addr) => {
                if !self.cpu.s() {
                    pc = addr;
                }
            },
            Instruction::Jpe(addr) => {
                if self.cpu.p() {
                    pc = addr;
                }
            },
            Instruction::Jpo(addr) => {
                if !self.cpu.p() {
                    pc = addr;
                }
            },
            Instruction::Jc(addr) => {
                if self.cpu.cy() {
                    pc = addr;
                }
            },
            Instruction::Jnc(addr) => {
                if !self.cpu.cy() {
                    pc = addr;
                }
            },
            Instruction::Pchl => {
                pc = self.get_rp(RegisterPair::H);
            },
            _ => {
                proof {
                    assert(false);
                }
            },
        }
        self.cpu.pc = pc;
        Ok(Some(cycles))
    }

    /// The call instructions: CALL, the eight conditional calls, and RST.
    fn exec_call(&mut self, instruction: Instruction) -> (r: Result<
        Option<u8>,
        MemoryError,
    >)
        requires
            instruction matches Instruction::Call(_)
                || instruction matches Instruction::Cz(_)
                || instruction matches Instruction::Cnz(_)
                || instruction matches Instruction::Cm(_)
                || instruction matches Instruction::Cp(_)
                || instruction matches Instruction::Cpe(_)
                || instruction matches Instruction::Cpo(_)
                || instruction matches Instruction::Cc(_)
                || instruction matches Instruction::Cnc(_)
                || instruction matches Instruction::Rst(_),
        ensures
            final(self)@ == step_state(old(self)@, instruction, 0),
            r == step_result(old(self)@, instruction),
    {
        let mut pc = self.cpu.pc.wrapping_add(instruction.size());
        let mut cycles = instruction.cycles();
        match instruction {
            Instruction::Call(addr) => {
                pc = self.call(addr, pc)?;
            },
            Instruction::Cz(addr) => {
                if self.cpu.z() {
                    pc = self.call(addr, pc)?;
                    cycles = cycles + 5;
                }
            },
            Instruction::Cnz(addr) => {
                if !self.cpu.z() {
                    pc = self.call(addr, pc)?;
                    cycles = cycles + 5;
                }
            },
            Instruction::Cm(addr) => {
                if self.cpu.s() {
                    pc = self.call(addr, pc)?;
                    cycles = cycles + 5;
                }
            },
            Instruction::Cp(addr) => {
                if !self.cpu.s() {
                    pc = self.call(addr, pc)?;
                    cycles = cycles + 5;
                }
            },
            Instruction::Cpe(addr) => {
                if self.cpu.p() {
                    pc = self.call(addr, pc)?;
                    cycles = cycles + 5;
                }
            },
            Instruction::Cpo(addr) => {
                if !self.cpu.p() {
                    pc = self.call(addr, pc)?;
                    cycles = cycles + 5;
                }
            },
            Instruction::Cc(addr) => {
                if self.cpu.cy() {
                    pc = self.call(addr, pc)?;
                    cycles = cycles + 5;
                }
            },
            Instruction::Cnc(addr) => {
                if !self.cpu.cy() {
                    pc = self.call(addr, pc)?;
                    cycles = cycles + 5;
                }
            },
            Instruction::Rst(value) => {
                pc = self.call(8 * value as u16, pc)?;
            },
            _ => {
                proof {
                    assert(false);
                }
            },
        }
        self.cpu.pc = pc;
        Ok(Some(cycles))
    }

    /// The return instructions: RET and the eight conditional returns.
    fn exec_ret(&mut self, instruction: Instruction) -> (r: Result<
        Option<u8>,
        MemoryError,
    >)
        requires
            instruction matches Instruction::Ret || instruction matches Instruction::Rz
                || instruction matches Instruction::Rnz
                || instruction matches Instruction::Rm
                || instruction matches Instruction::Rp
                || instruction matches Instruction::Rpe
                || instruction matches Instruction::Rpo
                || instruction matches Instruction::Rc
                || instruction matches Instruction::Rnc,
        ensures
            final(self)@ == step_state(old(self)@, instruction, 0),
            r == step_result(old(self)@, instruction),
    {
        let mut pc = self.cpu.pc.wrapping_add(instruction.size());
        let mut cycles = instruction.cycles();
        match instruction {
            Instruction::Ret => {
                pc = self.ret()?;
            },
            Instruction::Rz => {
                if self.cpu.z() {
                    pc = self.ret()?;
                    cycles = cycles + 5;
                }
            },
            Instruction::Rnz => {
                if !self.cpu.z() {
                    pc = self.ret()?;
                    cycles = cycles + 5;
                }
            },
            Instruction::Rm => {
                if self.cpu.s() {
                    pc = self.ret()?;
                    cycles = cycles + 5;
                }
            },
            Instruction::Rp => {
                if !self.cpu.s() {
                    pc = self.ret()?;
                    cycles = cycles + 5;
                }
            },
            Instruction::Rpe => {
                if self.cpu.p() {
                    pc = self.ret()?;
                    cycles = cycles + 5;
                }
            },
            Instruction::Rpo => {
                if !self.cpu.p() {
                    pc = self.ret()?;
                    cycles = cycles + 5;
                }
            },
            Instruction::Rc => {
                if self.cpu.cy() {
                    pc = self.ret()?;
                    cycles = cycles + 5;
                }
            },
            Instruction::Rnc => {
                if !self.cpu.cy() {
                    pc = self.ret()?;
                    cycles = cycles + 5;
                }
            },
            _ => {
                proof {
                    assert(false);
                }
            },
        }
        self.cpu.pc = pc;
        Ok(Some(cycles))
    }

    /// The accumulator arithmetic: additions, subtractions, compares and DAA.
    fn exec_acc_arith(&mut self, instruction: Instruction) -> (r: Result<
        Option<u8>,
        MemoryError,
    >)
        requires
            instruction matches Instruction::Adi(_)
                || instruction matches Instruction::Sui(_)
                || instruction matches Instruction::Aci(_)
                || instruction matches Instruction::Sbi(_)
                || instruction matches Instruction::Adc(_)
                || instruction matches Instruction::Sbb(_)
                || instruction matches Instruction::Add(_)
                || instruction matches Instruction::Sub(_)
                || instruction matches Instruction::Cpi(_)
                || instruction matches Instruction::Cmp(_)
                || instruction matches Instruction::Daa,
        ensures
            final(self)@ == step_state(old(self)@, instruction, 0),
            r == step_result(old(self)@, instruction),
    {
        let mut pc = self.cpu.pc.wrapping_add(instruction.size());
        let mut cycles = instruction.cycles();
        match instruction {
            Instruction::Adi(byte) => self.add_acc(byte, false),
            Instruction::Sui(byte) => self.sub_acc(byte, false),
            Instruction::Aci(byte) => {
                let cy = self.cpu.cy();
                self.add_acc(byte, cy);
            },
            Instruction::Sbi(byte) => {
                let cy = self.cpu.cy();
                self.sub_acc(byte, cy);
            },
            Instruction::Adc(reg) => {
                let v = self.get(reg)?;
                let cy = self.cpu.cy();
                self.add_acc(v, cy);
            },
            Instruction::Sbb(reg) => {
                let v = self.get(reg)?;
                let cy = self.cpu.cy();
                self.sub_acc(v, cy);
            },
            Instruction::Add(reg) => {
                let v = self.get(reg)?;
                self.add_acc(v, false);
            },
            Instruction::Sub(reg) => {
                let v = self.get(reg)?;
                self.sub_acc(v, false);
            },
            Instruction::Cpi(byte) => self.cpi(byte),
            Instruction::Cmp(reg) => {
                let v = self.get(reg)?;
                self.cpi(v);
            },
            Instruction::Daa => self.daa(),
            _ => {
                proof {
                    assert(false);
                }
            },
        }
        self.cpu.pc = pc;
        Ok(Some(cycles))
    }

    /// The logical and rotate instructions, and the plain flag writes.
    fn exec_acc_logic(&mut self, instruction: Instruction) -> (r: Result<
        Option<u8>,
        MemoryError,
    >)
        requires
            instruction matches Instruction::Ana(_)
                || instruction matches Instruction::Xra(_)
                || instruction matches Instruction::Ora(_)
                || instruction matches Instruction::Ani(_)
                || instruction matches Instruction::Xri(_)
                || instruction matches Instruction::Ori(_)
                || instruction matches Instruction::Cma
                || instruction matches Instruction::Rlc
                || instruction matches Instruction::Rrc
                || instruction matches Instruction::Ral
                || instruction matches Instruction::Rar
                || instruction matches Instruction::Stc
                || instruction matches Instruction::Cmc,
        ensures
            final(self)@ == step_state(old(self)@, instruction, 0),
            r == step_result(old(self)@, instruction),
    {
        let mut pc = self.cpu.pc.wrapping_add(instruction.size());
        let mut cycles = instruction.cycles();
        match instruction {
            Instruction::Ana(reg) => {
                let v = self.get(reg)?;
                let out = self.cpu.a & v;
                self.logic_a(out);
            },
            Instruction::Xra(reg) => {
                let v = self.get(reg)?;
                let out = self.cpu.a ^ v;
                self.logic_a(out);
            },
            Instruction::Ora(reg) => {
                let v = self.get(reg)?;
                let out = self.cpu.a | v;
                self.logic_a(out);
            },
            Instruction::Ani(byte) => {
                let out = self.cpu.a & byte;
                self.logic_a(out);
            },
            Instruction::Xri(byte) => {
                let out = self.cpu.a ^ byte;
                self.logic_a(out);
            },
            Instruction::Ori(byte) => {
                let out = self.cpu.a | byte;
                self.logic_a(out);
            },
            Instruction::Cma => {
                let a = self.cpu.a;
                self.cpu.a = 255 - a;
            },
            Instruction::Rlc => self.rlc(),
            Instruction::Rrc => self.rrc(),
            Instruction::Ral => self.ral(),
            Instruction::Rar => self.rar(),
            Instruction::Stc => self.cpu.set(Flag::Cy),
            Instruction::Cmc => {
                let cy = self.cpu.cy();
                self.cpu.toggle(Flag::Cy, !cy);
            },
            _ => {
                proof {
                    assert(false);
                }
            },
        }
        self.cpu.pc = pc;
        Ok(Some(cycles))
    }

    /// The data transfers between registers, immediates and memory.
    fn exec_transfer(&mut self, instruction: Instruction) -> (r: Result<
        Option<u8>,
        MemoryError,
    >)
        requires
            instruction matches Instruction::Mov(_, _)
                || instruction matches Instruction::Mvi(_, _)
                || instruction matches Instruction::Lxi(_, _, _)
                || instruction matches Instruction::Lda(_)
                || instruction matches Instruction::Sta(_)
                || instruction matches Instruction::Ldax(_)
                || instruction matches Instruction::Stax(_)
                || instruction matches Instruction::Lhld(_)
                || instruction matches Instruction::Shld(_)
                || instruction matches Instruction::Sphl
                || instruction matches Instruction::Xchg
                || instruction matches Instruction::Xthl,
        ensures
            final(self)@ == step_state(old(self)@, instruction, 0),
            r == step_result(old(self)@, instruction),
    {
        let mut pc = self.cpu.pc.wrapping_add(instruction.size());
        let mut cycles = instruction.cycles();
        match instruction {
            Instruction::Mov(dst, src) => self.mov(dst, src)?,
            Instruction::Mvi(dst, val) => self.mvi(dst, val)?,
            Instruction::Lxi(rp, byte2, byte3) => self.lxi(rp, byte2, byte3),
            Instruction::Lda(addr) => self.lda(addr)?,
            Instruction::Sta(addr) => self.sta(addr)?,
            Instruction::Ldax(rp) => {
                let addr = self.get_rp(rp);
                self.lda(addr)?;
            },
            Instruction::Stax(rp) => {
                let addr = self.get_rp(rp);
                self.sta(addr)?;
            },
            Instruction::Lhld(addr) => self.lhld(addr)?,
            Instruction::Shld(addr) => self.shld(addr)?,
            Instruction::Sphl => {
                self.cpu.sp = self.get_rp(RegisterPair::H);
            },
            Instruction::Xchg => self.xchg(),
            Instruction::Xthl => self.xthl()?,
            _ => {
                proof {
                    assert(false);
                }
            },
        }
        self.cpu.pc = pc;
        Ok(Some(cycles))
    }

    /// The counting instructions: INX, DCX, INR, DCR and DAD.
    fn exec_count(&mut self, instruction: Instruction) -> (r: Result<
        Option<u8>,
        MemoryError,
    >)
        requires
            instruction matches Instruction::Inx(_)
                || instruction matches Instruction::Dcx(_)
                || instruction matches Instruction::Inr(_)
                || instruction matches Instruction::Dcr(_)
                || instruction matches Instruction::Dad(_),
        ensures
            final(self)@ == step_state(old(self)@, instruction, 0),
            r == step_result(old(self)@, instruction),
    {
        let mut pc = self.cpu.pc.wrapping_add(instruction.size());
        let mut cycles = instruction.cycles();
        match instruction {
            Instruction::Inx(rp) => self.incdec16(rp, true),
            Instruction::Dcx(rp) => self.incdec16(rp, false),
            Instruction::Inr(reg) => self.incdec(reg, true)?,
            Instruction::Dcr(reg) => self.incdec(reg, false)?,
            Instruction::Dad(rp) => self.dad(rp),
            _ => {
                proof {
                    assert(false);
                }
            },
        }
        self.cpu.pc = pc;
        Ok(Some(cycles))
    }

    /// The rest: NOP, stack push and pop, port I/O, EI, DI and HLT.
    fn exec_misc<IO: InOut>(&mut self, instruction: Instruction, io: &IO) -> (r: Result<
        Option<u8>,
        MemoryError,
    >)
        requires
            instruction matches Instruction::Nop || instruction matches Instruction::Push(_)
                || instruction matches Instruction::Pop(_)
                || instruction matches Instruction::In(_)
                || instruction matches Instruction::Out(_)
                || instruction matches Instruction::Ei
                || instruction matches Instruction::Di
                || instruction matches Instruction::Hlt,
            !(instruction matches Instruction::Pop(RegisterPair::SP)),
        ensures
            instruction matches Instruction::In(_) ==> final(self)@ == step_state(
                old(self)@,
                instruction,
                final(self).cpu.a,
            ),
            !(instruction matches Instruction::In(_)) ==> final(self)@ == step_state(
                old(self)@,
                instruction,
                0,
            ),
            r == step_result(old(self)@, instruction),
    {
        let mut pc = self.cpu.pc.wrapping_add(instruction.size());
        let mut cycles = instruction.cycles();
        match instruction {
            Instruction::Nop => {},
            Instruction::Push(rp) => self.push(rp)?,
            Instruction::Pop(rp) => self.pop(rp)?,
            Instruction::In(byte) => self.input(byte, io)?,
            Instruction::Out(byte) => self.output(byte, io)?,
            Instruction::Ei => {
                self.cpu.inte = true;
            },
            Instruction::Di => {
                self.cpu.inte = false;
            },
            Instruction::Hlt => {
                return Ok(None);
            },
            _ => {
                proof {
                    assert(false);
                }
            },
        }
        self.cpu.pc = pc;
        Ok(Some(cycles))
    }

    /// Executes one decoded instruction: dispatches on its tag, mutates the
    /// registers and memory as `step_state` defines, and returns the cycles
    /// consumed as `step_result` defines. HLT returns `Ok(None)` and leaves
    /// everything, PC included, where it was. On a memory error the
    /// instruction is abandoned where it failed: PC, SP and the interrupt
    /// latch do not move. POP with SP names no register pair and is not an
    /// instruction.
    pub fn execute<IO: InOut>(&mut self, instruction: Instruction, io: &IO) -> (r: Result<
        Option<u8>,
        MemoryError,
    >)
        requires
            !(instruction matches Instruction::Pop(RegisterPair::SP)),
        ensures
            instruction matches Instruction::In(_) ==> final(self)@ == step_state(
                old(self)@,
                instruction,
                final(self).cpu.a,
            ),
            !(instruction matches Instruction::In(_)) ==> final(self)@ == step_state(
                old(self)@,
                instruction,
                0,
            ),
            r == step_result(old(self)@, instruction),
    {
        match instruction {
            Instruction::Jmp(_)
            | Instruction::Jz(_)
            | Instruction::Jnz(_)
            | Instruction::Jm(_)
            | Instruction::Jp(_)
            | Instruction::Jpe(_)
            | Instruction::Jpo(_)
            | Instruction::Jc(_)
            | Instruction::Jnc(_)
            | Instruction::Pchl => self.exec_jump(instruction),
            Instruction::Call(_)
            | Instruction::Cz(_)
            | Instruction::Cnz(_)
            | Instruction::Cm(_)
            | Instruction::Cp(_)
            | Instruction::Cpe(_)
            | Instruction::Cpo(_)
            | Instruction::Cc(_)
            | Instruction::Cnc(_)
            | Instruction::Rst(_) => self.exec_call(instruction),
            Instruction::Ret
            | Instruction::Rz
            | Instruction::Rnz
            | Instruction::Rm
            | Instruction::Rp
            | Instruction::Rpe
            | Instruction::Rpo
            | Instruction::Rc
            | Instruction::Rnc => self.exec_ret(instruction),
            Instruction::Adi(_)
            | Instruction::Sui(_)
            | Instruction::Aci(_)
            | Instruction::Sbi(_)
            | Instruction::Adc(_)
            | Instruction::Sbb(_)
            | Instruction::Add(_)
            | Instruction::Sub(_)
            | Instruction::Cpi(_)
            | Instruction::Cmp(_)
            | Instruction::Daa => self.exec_acc_arith(instruction),
            Instruction::Ana(_)
            | Instruction::Xra(_)
            | Instruction::Ora(_)
            | Instruction::Ani(_)
            | Instruction::Xri(_)
            | Instruction::Ori(_)
            | Instruction::Cma
            | Instruction::Rlc
            | Instruction::Rrc
            | Instruction::Ral
            | Instruction::Rar
            | Instruction::Stc
            | Instruction::Cmc => self.exec_acc_logic(instruction),
            Instruction::Mov(_, _)
            | Instruction::Mvi(_, _)
            | Instruction::Lxi(_, _, _)
            | Instruction::Lda(_)
            | Instruction::Sta(_)
            | Instruction::Ldax(_)
            | Instruction::Stax(_)
            | Instruction::Lhld(_)
            | Instruction::Shld(_)
            | Instruction::Sphl
            | Instruction::Xchg
            | Instruction::Xthl => self.exec_transfer(instruction),
            Instruction::Inx(_)
            | Instruction::Dcx(_)
            | Instruction::Inr(_)
            | Instruction::Dcr(_)
            | Instruction::Dad(_) => self.exec_count(instruction),
            Instruction::Nop
            | Instruction::Push(_)
            | Instruction::Pop(_)
            | Instruction::In(_)
            | Instruction::Out(_)
            | Instruction::Ei
            | Instruction::Di
            | Instruction::Hlt => self.exec_misc(instruction, io),
        }
    }

    /// Interrupt entry: executes an injected instruction in place. When the
    /// interrupt latch is off, nothing happens and zero cycles are reported.
    /// When it is on, PC is first moved back by the instruction's size, so
    /// that the injected instruction (typically an RST) sees the address of
    /// the instruction it interrupted as its return address.
    pub fn process<IO: InOut>(&mut self, instruction: Instruction, io: &IO) -> (r: Result<
        Option<u8>,
        MemoryError,
    >)
        requires
            !(instruction matches Instruction::Pop(RegisterPair::SP)),
        ensures
            !old(self).cpu.inte ==> r == Ok::<Option<u8>, MemoryError>(Some(0u8)) && *final(self)
                == *old(self),
            old(self).cpu.inte ==> ({
                let pre = old(self)@.with_pc(
                    wrap_sub16(old(self).cpu.pc, instr_size(instruction)),
                );
                &&& (instruction matches Instruction::In(_) ==> final(self)@ == step_state(
                    pre,
                    instruction,
                    final(self).cpu.a,
                ))
                &&& (!(instruction matches Instruction::In(_)) ==> final(self)@ == step_state(
                    pre,
                    instruction,
                    0,
                ))
                &&& r == step_result(pre, instruction)
            }),
    {
        if self.cpu.inte {
            self.cpu.pc = self.cpu.pc.wrapping_sub(instruction.size());
            self.execute(instruction, io)
        } else {
            Ok(Some(0))
        }
    }
}

} // verus!
