//! Laws of the execute step, stated over the step relation that `execute`'s
//! contract pins down. Each proof function here is a statement about every
//! state and every operand, not about chosen values.

use vstd::prelude::*;

use crate::arith::{
    add8, add8_ac, add8_cy, lemma_rotate_round_trip, lemma_word_parts, lemma_word_roundtrip,
    parity_even, sub8, sub8_ac, sub8_cy, wrap_add16,
};
use crate::cpu::{
    flag_cy, flag_p, flag_s, flag_z, lemma_flag_independence, lemma_flags_szp_ac,
    lemma_flags_szp_cy_ac,
};
use crate::op_code::{instr_cycles, instr_size, Instruction, Register, RegisterPair};
use crate::ram::{in_ranges, MemoryError};
use crate::system::{step_result, step_state, SystemView};

verus! {

/// CMP and CPI leave the accumulator unchanged and set exactly the flags
/// that SUB and SUI set for the same operands.
pub proof fn lemma_cmp_matches_sub(pre: SystemView, b: u8, reg: Register)
    ensures
        step_state(pre, Instruction::Cpi(b), 0).cpu.a == pre.cpu.a,
        step_state(pre, Instruction::Cpi(b), 0).cpu.f == step_state(
            pre,
            Instruction::Sui(b),
            0,
        ).cpu.f,
        step_state(pre, Instruction::Cmp(reg), 0).cpu.a == pre.cpu.a,
        step_state(pre, Instruction::Cmp(reg), 0).cpu.f == step_state(
            pre,
            Instruction::Sub(reg),
            0,
        ).cpu.f,
{
}

/// PUSH then POP of the same pair restores the pair and the stack pointer,
/// whatever the pair held; the two stack bytes keep the pushed value.
pub proof fn lemma_push_pop_round_trip(pre: SystemView, rp: RegisterPair)
    requires
        rp != RegisterPair::SP,
        pre.push_ok(),
    ensures
        ({
            let s1 = step_state(pre, Instruction::Push(rp), 0);
            let s2 = step_state(s1, Instruction::Pop(rp), 0);
            &&& s2.pair(rp) == pre.pair(rp)
            &&& s2.cpu.sp == pre.cpu.sp
        }),
{
    let v = pre.pair(rp);
    let s1 = step_state(pre, Instruction::Push(rp), 0);
    lemma_word_parts(
        crate::arith::lo8(v),
        crate::arith::hi8(v),
    );
    assert(s1.pop_ok());
    assert(s1.byte(s1.cpu.sp) == crate::arith::lo8(v));
    assert(s1.byte(wrap_add16(s1.cpu.sp, 1)) == crate::arith::hi8(v));
    lemma_word_roundtrip(v);
}

/// CALL followed by RET returns to the instruction after the CALL, with the
/// stack pointer back where it started.
pub proof fn lemma_call_ret_round_trip(pre: SystemView, addr: u16)
    requires
        pre.push_ok(),
    ensures
        ({
            let s1 = step_state(pre, Instruction::Call(addr), 0);
            let s2 = step_state(s1, Instruction::Ret, 0);
            &&& s1.cpu.pc == addr
            &&& s2.cpu.pc == wrap_add16(pre.cpu.pc, 3)
            &&& s2.cpu.sp == pre.cpu.sp
        }),
{
    let ret_to = wrap_add16(pre.cpu.pc, 3);
    let s1 = step_state(pre, Instruction::Call(addr), 0);
    lemma_word_parts(
        crate::arith::lo8(ret_to),
        crate::arith::hi8(ret_to),
    );
    assert(s1.pop_ok());
    lemma_word_roundtrip(ret_to);
}

/// ROM protection: with ROM writes disallowed, a store into a registered
/// range fails with `ReadOnlyWrite` and changes nothing, while a load from
/// the same address succeeds.
pub proof fn lemma_rom_protection(pre: SystemView, addr: u16)
    requires
        !pre.allow_rom_write,
        in_ranges(pre.roms, addr as int),
        (addr as int) < pre.mem.len(),
    ensures
        step_result(pre, Instruction::Sta(addr)) == Err::<Option<u8>, MemoryError>(
            MemoryError::ReadOnlyWrite(addr),
        ),
        step_state(pre, Instruction::Sta(addr), 0) == pre,
        step_result(pre, Instruction::Lda(addr)) == Ok::<Option<u8>, MemoryError>(
            Some(instr_cycles(Instruction::Lda(addr))),
        ),
        step_state(pre, Instruction::Lda(addr), 0).cpu.a == pre.byte(addr),
{
}

/// INX and DCX on the counting pairs (B, D, H and SP) touch no flag.
pub proof fn lemma_inx_dcx_preserve_flags(pre: SystemView, rp: RegisterPair)
    requires
        rp != RegisterPair::PSW,
    ensures
        step_state(pre, Instruction::Inx(rp), 0).cpu.f == pre.cpu.f,
        step_state(pre, Instruction::Dcx(rp), 0).cpu.f == pre.cpu.f,
{
}

/// INR and DCR on any true operand (a register other than F, or memory)
/// never modify CY.
pub proof fn lemma_inr_dcr_preserve_cy(pre: SystemView, reg: Register)
    requires
        reg != Register::F,
    ensures
        flag_cy(step_state(pre, Instruction::Inr(reg), 0).cpu.f) == flag_cy(pre.cpu.f),
        flag_cy(step_state(pre, Instruction::Dcr(reg), 0).cpu.f) == flag_cy(pre.cpu.f),
{
    let pre_f = pre.cpu.f;
    if crate::system::incdec_ok(pre, reg) {
        let v = pre.src_val(reg);
        lemma_flags_szp_ac(pre_f, crate::arith::add8(v, 1, false), crate::arith::add8_ac(v, 1, false));
        lemma_flags_szp_ac(pre_f, crate::arith::sub8(v, 1, false), crate::arith::sub8_ac(v, 1, false));
    }
}

/// RLC followed by RRC restores the accumulator.
pub proof fn lemma_rlc_rrc_round_trip(pre: SystemView)
    ensures
        step_state(step_state(pre, Instruction::Rlc, 0), Instruction::Rrc, 0).cpu.a == pre.cpu.a,
{
    lemma_rotate_round_trip(pre.cpu.a);
}

/// The DAD carry: CY is set exactly when HL plus the pair overflows as an
/// unsigned 16-bit sum; no other flag moves.
pub proof fn lemma_dad_carry(pre: SystemView, rp: RegisterPair)
    ensures
        flag_cy(step_state(pre, Instruction::Dad(rp), 0).cpu.f) == (pre.pair(rp) + pre.pair(
            RegisterPair::H,
        ) >= 0x10000),
        step_state(pre, Instruction::Dad(rp), 0).cpu.f & 0xfe == pre.cpu.f & 0xfe,
{
    lemma_flag_independence(pre.cpu.f, crate::arith::add16_cy(pre.pair(rp), pre.pair(RegisterPair::H)));
    assert forall|f: u8, v: bool| crate::cpu::set_flag(f, 0x01, v) & 0xfe == f & 0xfe by {
        assert(crate::cpu::set_flag(f, 0x01, v) & 0xfe == f & 0xfe) by (bit_vector);
    }
}

/// The flags every S/Z/P-updating operation leaves, voiced on the step
/// relation for an addition, a subtraction, a logical AND and a compare: Z
/// is set exactly when the result byte is zero, S exactly when its bit 7 is
/// set, and P exactly when it has an even number of set bits.
pub proof fn lemma_result_flags(pre: SystemView, b: u8)
    ensures
        ({
            let out = add8(pre.cpu.a, b, false);
            let post = step_state(pre, Instruction::Adi(b), 0);
            &&& flag_z(post.cpu.f) == (out == 0)
            &&& flag_s(post.cpu.f) == (out & 0x80 != 0)
            &&& flag_p(post.cpu.f) == parity_even(out)
        }),
        ({
            let out = sub8(pre.cpu.a, b, false);
            let post = step_state(pre, Instruction::Sui(b), 0);
            &&& flag_z(post.cpu.f) == (out == 0)
            &&& flag_s(post.cpu.f) == (out & 0x80 != 0)
            &&& flag_p(post.cpu.f) == parity_even(out)
        }),
        ({
            let out = pre.cpu.a & b;
            let post = step_state(pre, Instruction::Ani(b), 0);
            &&& flag_z(post.cpu.f) == (out == 0)
            &&& flag_s(post.cpu.f) == (out & 0x80 != 0)
            &&& flag_p(post.cpu.f) == parity_even(out)
        }),
        ({
            let out = sub8(pre.cpu.a, b, false);
            let post = step_state(pre, Instruction::Cpi(b), 0);
            &&& flag_z(post.cpu.f) == (out == 0)
            &&& flag_s(post.cpu.f) == (out & 0x80 != 0)
            &&& flag_p(post.cpu.f) == parity_even(out)
        }),
{
    let f = pre.cpu.f;
    lemma_flags_szp_cy_ac(
        f,
        add8(pre.cpu.a, b, false),
        add8_cy(pre.cpu.a, b, false),
        add8_ac(pre.cpu.a, b, false),
    );
    lemma_flags_szp_cy_ac(
        f,
        sub8(pre.cpu.a, b, false),
        sub8_cy(pre.cpu.a, b, false),
        sub8_ac(pre.cpu.a, b, false),
    );
    crate::cpu::lemma_flags_szp_cy(f, pre.cpu.a & b, false);
}

/// A failing instruction freezes the control state: when the step reports a
/// memory error, the program counter, the stack pointer and the interrupt
/// latch all keep their old values.
pub proof fn lemma_failure_freezes_control(pre: SystemView, instr: Instruction, a_in: u8)
    ensures
        step_result(pre, instr) matches Err(_) ==> {
            let post = step_state(pre, instr, a_in);
            &&& post.cpu.pc == pre.cpu.pc
            &&& post.cpu.sp == pre.cpu.sp
            &&& post.cpu.inte == pre.cpu.inte
        },
{
}

/// The program counter rule for the straight-line instructions: every
/// instruction that neither jumps, calls, returns, loads PC from HL nor
/// halts moves PC, on success, to exactly the next instruction: the old PC
/// plus the instruction's size, modulo 2^16. The control transfers are
/// covered by `call_step`, `ret_step` and `jump_step` in the step relation
/// and by the round-trip laws; HLT leaves PC alone.
pub proof fn lemma_pc_advances_linearly(pre: SystemView, instr: Instruction, a_in: u8)
    requires
        !(instr matches Instruction::Jmp(_)),
        !(instr matches Instruction::Jz(_)),
        !(instr matches Instruction::Jnz(_)),
        !(instr matches Instruction::Jm(_)),
        !(instr matches Instruction::Jp(_)),
        !(instr matches Instruction::Jpe(_)),
        !(instr matches Instruction::Jpo(_)),
        !(instr matches Instruction::Jc(_)),
        !(instr matches Instruction::Jnc(_)),
        !(instr matches Instruction::Call(_)),
        !(instr matches Instruction::Cz(_)),
        !(instr matches Instruction::Cnz(_)),
        !(instr matches Instruction::Cm(_)),
        !(instr matches Instruction::Cp(_)),
        !(instr matches Instruction::Cpe(_)),
        !(instr matches Instruction::Cpo(_)),
        !(instr matches Instruction::Cc(_)),
        !(instr matches Instruction::Cnc(_)),
        !(instr matches Instruction::Rst(_)),
        !(instr matches Instruction::Ret),
        !(instr matches Instruction::Rz),
        !(instr matches Instruction::Rnz),
        !(instr matches Instruction::Rm),
        !(instr matches Instruction::Rp),
        !(instr matches Instruction::Rpe),
        !(instr matches Instruction::Rpo),
        !(instr matches Instruction::Rc),
        !(instr matches Instruction::Rnc),
        !(instr matches Instruction::Pchl),
        !(instr matches Instruction::Hlt),
    ensures
        step_result(pre, instr) matches Ok(_) ==> step_state(pre, instr, a_in).cpu.pc
            == wrap_add16(pre.cpu.pc, instr_size(instr)),
{
}

} // verus!
