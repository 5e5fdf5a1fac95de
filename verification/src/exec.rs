//! Execution semantics: applying a decoded instruction to the register
//! file and memory.
//!
//! Each operation's effect is stated by a step function over the plain
//! machine state (a register file and the memory byte sequence);
//! [`Instruction::execute`] is proved to realise exactly that step.
//! Afterwards PC holds either the old PC plus the instruction's size
//! (computed before execution, wrapping modulo 65536) or the target of
//! a taken jump, call or return.

use vstd::prelude::*;

use crate::alu::{
    spec_add16_flags, spec_add8_flags, spec_add8_val, spec_dec8_flags, spec_flags_byte,
    spec_inc8_flags, spec_logic_flags, spec_shift_flags, spec_shift_val, spec_sub8_flags,
    spec_sub8_val, ShiftKind,
};
use crate::alu::{alu_add8, alu_shift, alu_sub8, flags_byte, lemma_add16_flags_wf};
use crate::cpu::{Flag, Register16, Registers};
use crate::instructions::{Data16, Data8, Instruction, MutableData16, MutableData8, Op};
use crate::memory::{spec_read16, spec_write16, Memory};

verus! {

/// An 8-bit load: read the source, then write the destination, each
/// applying its own post-increment or post-decrement side effect.
pub open spec fn spec_load8_step(
    into: MutableData8,
    from: Data8,
    r: Registers,
    m: Seq<u8>,
) -> (Registers, Seq<u8>) {
    let v = from.spec_read_val(r, m);
    let r1 = from.spec_touch_regs(r);
    (into.spec_write_regs(v, r1), into.spec_write_mem(v, r1, m))
}

/// A 16-bit load: read the source, write the destination. No flags.
pub open spec fn spec_load16_step(
    into: MutableData16,
    from: Data16,
    r: Registers,
    m: Seq<u8>,
) -> (Registers, Seq<u8>) {
    let v = from.spec_read_val(r, m);
    (into.spec_write_regs(v, r), into.spec_write_mem(v, m))
}

/// An 8-bit increment: the destination wraps modulo 256; Zero and
/// HalfCarry follow the operation, Negative clears, Carry is untouched.
pub open spec fn spec_inc8_step(into: MutableData8, r: Registers, m: Seq<u8>) -> (
    Registers,
    Seq<u8>,
) {
    let v = into.spec_read_val(r, m);
    let res = spec_add8_val(v, 1, false);
    let r1 = into.spec_touch_regs(r);
    let r2 = Registers { flags: spec_inc8_flags(v, r.flags), ..r1 };
    (into.spec_write_regs(res, r2), into.spec_write_mem(res, r2, m))
}

/// An 8-bit decrement: the destination wraps modulo 256; Zero and
/// HalfCarry follow the operation, Negative sets, Carry is untouched.
pub open spec fn spec_dec8_step(into: MutableData8, r: Registers, m: Seq<u8>) -> (
    Registers,
    Seq<u8>,
) {
    let v = into.spec_read_val(r, m);
    let res = spec_sub8_val(v, 1, false);
    let r1 = into.spec_touch_regs(r);
    let r2 = Registers { flags: spec_dec8_flags(v, r.flags), ..r1 };
    (into.spec_write_regs(res, r2), into.spec_write_mem(res, r2, m))
}

/// A 16-bit increment: wraps modulo 65536 and touches no flags.
pub open spec fn spec_inc16_step(into: MutableData16, r: Registers, m: Seq<u8>) -> (
    Registers,
    Seq<u8>,
) {
    let v = into.spec_read_val(r, m);
    let res = vstd::wrapping::u16_specs::wrapping_add(v, 1);
    (into.spec_write_regs(res, r), into.spec_write_mem(res, m))
}

/// A 16-bit decrement: wraps modulo 65536 and touches no flags.
pub open spec fn spec_dec16_step(into: MutableData16, r: Registers, m: Seq<u8>) -> (
    Registers,
    Seq<u8>,
) {
    let v = into.spec_read_val(r, m);
    let res = vstd::wrapping::u16_specs::wrapping_sub(v, 1);
    (into.spec_write_regs(res, r), into.spec_write_mem(res, m))
}

/// The 16-bit add onto a pair: wraps modulo 65536; HalfCarry is the
/// carry out of bit 11, Carry the carry out of bit 15; Zero and
/// Negative are untouched.
pub open spec fn spec_add16_step(
    into: MutableData16,
    from: Data16,
    r: Registers,
    m: Seq<u8>,
) -> (Registers, Seq<u8>) {
    let v1 = into.spec_read_val(r, m);
    let v2 = from.spec_read_val(r, m);
    let res = vstd::wrapping::u16_specs::wrapping_add(v1, v2);
    let f = spec_add16_flags(r.flags, (v1 & 0x0FFF) + (v2 & 0x0FFF) > 0x0FFF, v1 + v2 > 0xFFFF);
    let r1 = Registers { flags: f, ..r };
    (into.spec_write_regs(res, r1), into.spec_write_mem(res, m))
}

/// Accumulator addition, with the old Carry added in when `use_carry`.
pub open spec fn spec_add_step(
    into: MutableData8,
    from: Data8,
    use_carry: bool,
    r: Registers,
    m: Seq<u8>,
) -> (Registers, Seq<u8>) {
    let cin = use_carry && r.spec_flag(Flag::Carry);
    let v1 = into.spec_read_val(r, m);
    let r1 = into.spec_touch_regs(r);
    let v2 = from.spec_read_val(r1, m);
    let r2 = from.spec_touch_regs(r1);
    let res = spec_add8_val(v1, v2, cin);
    let r3 = Registers { flags: spec_add8_flags(v1, v2, cin), ..r2 };
    (into.spec_write_regs(res, r3), into.spec_write_mem(res, r3, m))
}

/// Accumulator subtraction, with the old Carry borrowed in when
/// `use_carry`.
pub open spec fn spec_sub_step(
    into: MutableData8,
    from: Data8,
    use_carry: bool,
    r: Registers,
    m: Seq<u8>,
) -> (Registers, Seq<u8>) {
    let cin = use_carry && r.spec_flag(Flag::Carry);
    let v1 = into.spec_read_val(r, m);
    let r1 = into.spec_touch_regs(r);
    let v2 = from.spec_read_val(r1, m);
    let r2 = from.spec_touch_regs(r1);
    let res = spec_sub8_val(v1, v2, cin);
    let r3 = Registers { flags: spec_sub8_flags(v1, v2, cin), ..r2 };
    (into.spec_write_regs(res, r3), into.spec_write_mem(res, r3, m))
}

/// The three bitwise accumulator operations, told apart by the function
/// combining the bytes; only And sets HalfCarry.
pub open spec fn spec_logic_step(
    into: MutableData8,
    from: Data8,
    res_of: spec_fn(u8, u8) -> u8,
    h: bool,
    r: Registers,
    m: Seq<u8>,
) -> (Registers, Seq<u8>) {
    let v1 = into.spec_read_val(r, m);
    let r1 = into.spec_touch_regs(r);
    let v2 = from.spec_read_val(r1, m);
    let r2 = from.spec_touch_regs(r1);
    let res = res_of(v1, v2);
    let r3 = Registers { flags: spec_logic_flags(res, h), ..r2 };
    (into.spec_write_regs(res, r3), into.spec_write_mem(res, r3, m))
}

/// Compare: subtraction flags without writing the result.
pub open spec fn spec_compare_step(into: Data8, from: Data8, r: Registers, m: Seq<u8>) -> Registers {
    let v1 = into.spec_read_val(r, m);
    let r1 = into.spec_touch_regs(r);
    let v2 = from.spec_read_val(r1, m);
    let r2 = from.spec_touch_regs(r1);
    Registers { flags: spec_sub8_flags(v1, v2, false), ..r2 }
}

/// A rotate, shift or swap of an 8-bit destination; `legacy` marks the
/// single-byte accumulator rotates, whose Zero flag always clears.
pub open spec fn spec_shift_step(
    k: ShiftKind,
    into: MutableData8,
    legacy: bool,
    r: Registers,
    m: Seq<u8>,
) -> (Registers, Seq<u8>) {
    let cin = r.spec_flag(Flag::Carry);
    let v = into.spec_read_val(r, m);
    let res = spec_shift_val(k, v, cin);
    let r1 = into.spec_touch_regs(r);
    let r2 = Registers { flags: spec_shift_flags(k, v, cin, legacy), ..r1 };
    (into.spec_write_regs(res, r2), into.spec_write_mem(res, r2, m))
}

/// Bit test: Zero from the complement of the tested bit, Negative
/// clear, HalfCarry set, Carry untouched.
pub open spec fn spec_bit_step(into: Data8, bit: u8, r: Registers, m: Seq<u8>) -> Registers {
    let v = into.spec_read_val(r, m);
    let r1 = into.spec_touch_regs(r);
    Registers {
        flags: spec_flags_byte(v & (1u8 << bit) == 0, false, true, r.spec_flag(Flag::Carry)),
        ..r1
    }
}

/// Force one bit of the destination clear; no flags.
pub open spec fn spec_resbit_step(into: MutableData8, bit: u8, r: Registers, m: Seq<u8>) -> (
    Registers,
    Seq<u8>,
) {
    let v = into.spec_read_val(r, m);
    let res = v & !(1u8 << bit);
    let r1 = into.spec_touch_regs(r);
    (into.spec_write_regs(res, r1), into.spec_write_mem(res, r1, m))
}

/// Force one bit of the destination set; no flags.
pub open spec fn spec_setbit_step(into: MutableData8, bit: u8, r: Registers, m: Seq<u8>) -> (
    Registers,
    Seq<u8>,
) {
    let v = into.spec_read_val(r, m);
    let res = v | (1u8 << bit);
    let r1 = into.spec_touch_regs(r);
    (into.spec_write_regs(res, r1), into.spec_write_mem(res, r1, m))
}

/// Target of a relative jump: the signed displacement is added after
/// the instruction's own length has been consumed, wrapping modulo
/// 65536.
pub open spec fn spec_rel_target(pc: u16, size: u8, amount: i8) -> u16 {
    vstd::wrapping::u16_specs::wrapping_add_signed(
        vstd::wrapping::u16_specs::wrapping_add(pc, size as u16),
        amount as i16,
    )
}

/// A call: the address of the next instruction goes onto the stack
/// (SP drops by two first), and the target comes from the operand.
pub open spec fn spec_call_step(address: Data16, size: u8, r: Registers, m: Seq<u8>) -> (
    Registers,
    Seq<u8>,
    u16,
) {
    let target = address.spec_read_val(r, m);
    let ret = vstd::wrapping::u16_specs::wrapping_add(r.pc, size as u16);
    let sp1 = vstd::wrapping::u16_specs::wrapping_sub(r.sp, 2);
    (Registers { sp: sp1, ..r }, spec_write16(m, sp1, ret), target)
}

/// A return: the target is the word at SP, and SP rises by two after.
pub open spec fn spec_return_step(r: Registers, m: Seq<u8>) -> (Registers, u16) {
    (
        Registers { sp: vstd::wrapping::u16_specs::wrapping_add(r.sp, 2), ..r },
        spec_read16(m, r.sp),
    )
}

/// A push: SP drops by two, then the operand's word is stored at SP.
pub open spec fn spec_push_step(from: Data16, r: Registers, m: Seq<u8>) -> (Registers, Seq<u8>) {
    let v = from.spec_read_val(r, m);
    let sp1 = vstd::wrapping::u16_specs::wrapping_sub(r.sp, 2);
    (Registers { sp: sp1, ..r }, spec_write16(m, sp1, v))
}

/// A pop: the word at SP goes to the destination and SP rises by two.
/// A pop into AF masks the low nibble of the restored flags to zero.
pub open spec fn spec_pop_step(into: MutableData16, r: Registers, m: Seq<u8>) -> (
    Registers,
    Seq<u8>,
) {
    let v = spec_read16(m, r.sp);
    let r1 = Registers { sp: vstd::wrapping::u16_specs::wrapping_add(r.sp, 2), ..r };
    (into.spec_write_regs(v, r1), into.spec_write_mem(v, m))
}

/// The whole effect of one operation on the machine state, plus the
/// control-flow target of a taken jump, call or return (`None` means
/// the default advance past the instruction).
pub open spec fn spec_apply_op(i: Instruction, r: Registers, m: Seq<u8>) -> (
    Registers,
    Seq<u8>,
    Option<u16>,
) {
    match i.op {
        Op::Nop => (r, m, None),
        Op::Stop => (r, m, None),
        Op::Halt => (r, m, None),
        Op::Load8 { into, from } => {
            let s = spec_load8_step(into, from, r, m);
            (s.0, s.1, None)
        },
        Op::Load16 { into, from } => {
            let s = spec_load16_step(into, from, r, m);
            (s.0, s.1, None)
        },
        Op::Inc8 { into } => {
            let s = spec_inc8_step(into, r, m);
            (s.0, s.1, None)
        },
        Op::Dec8 { into } => {
            let s = spec_dec8_step(into, r, m);
            (s.0, s.1, None)
        },
        Op::Inc16 { into } => {
            let s = spec_inc16_step(into, r, m);
            (s.0, s.1, None)
        },
        Op::Dec16 { into } => {
            let s = spec_dec16_step(into, r, m);
            (s.0, s.1, None)
        },
        Op::Ror { into } => {
            let s = spec_shift_step(ShiftKind::RotateRight, into, i.size == 1, r, m);
            (s.0, s.1, None)
        },
        Op::RorCarry { into } => {
            let s = spec_shift_step(ShiftKind::RotateRightCarry, into, i.size == 1, r, m);
            (s.0, s.1, None)
        },
        Op::Rol { into } => {
            let s = spec_shift_step(ShiftKind::RotateLeft, into, i.size == 1, r, m);
            (s.0, s.1, None)
        },
        Op::RolCarry { into } => {
            let s = spec_shift_step(ShiftKind::RotateLeftCarry, into, i.size == 1, r, m);
            (s.0, s.1, None)
        },
        Op::Add { into, from } => {
            let s = spec_add_step(into, from, false, r, m);
            (s.0, s.1, None)
        },
        Op::Add16 { into, from } => {
            let s = spec_add16_step(into, from, r, m);
            (s.0, s.1, None)
        },
        Op::AddCarry { into, from } => {
            let s = spec_add_step(into, from, true, r, m);
            (s.0, s.1, None)
        },
        Op::Sub { into, from } => {
            let s = spec_sub_step(into, from, false, r, m);
            (s.0, s.1, None)
        },
        Op::SubCarry { into, from } => {
            let s = spec_sub_step(into, from, true, r, m);
            (s.0, s.1, None)
        },
        Op::And { into, from } => {
            let s = spec_logic_step(into, from, |x: u8, y: u8| x & y, true, r, m);
            (s.0, s.1, None)
        },
        Op::Or { into, from } => {
            let s = spec_logic_step(into, from, |x: u8, y: u8| x | y, false, r, m);
            (s.0, s.1, None)
        },
        Op::Xor { into, from } => {
            let s = spec_logic_step(into, from, |x: u8, y: u8| x ^ y, false, r, m);
            (s.0, s.1, None)
        },
        Op::Compare { into, from } => (spec_compare_step(into, from, r, m), m, None),
        Op::JumpRelative { amount } => (r, m, Some(spec_rel_target(r.pc, i.size, amount))),
        Op::JumpRelativeIf { condition, amount } => (
            r,
            m,
            if r.spec_flag(condition) {
                Some(spec_rel_target(r.pc, i.size, amount))
            } else {
                None
            },
        ),
        Op::Call { address } => {
            let s = spec_call_step(address, i.size, r, m);
            (s.0, s.1, Some(s.2))
        },
        Op::CallIf { condition, address } => {
            if r.spec_flag(condition) {
                let s = spec_call_step(address, i.size, r, m);
                (s.0, s.1, Some(s.2))
            } else {
                (r, m, None)
            }
        },
        Op::Return => {
            let s = spec_return_step(r, m);
            (s.0, m, Some(s.1))
        },
        Op::ReturnIf { condition } => {
            if r.spec_flag(condition) {
                let s = spec_return_step(r, m);
                (s.0, m, Some(s.1))
            } else {
                (r, m, None)
            }
        },
        Op::Push { from } => {
            let s = spec_push_step(from, r, m);
            (s.0, s.1, None)
        },
        Op::Pop { into } => {
            let s = spec_pop_step(into, r, m);
            (s.0, s.1, None)
        },
        Op::ShiftLeftAccumulator { into } => {
            let s = spec_shift_step(ShiftKind::ShiftLeftArithmetic, into, false, r, m);
            (s.0, s.1, None)
        },
        Op::ShiftRightLogical { into } => {
            let s = spec_shift_step(ShiftKind::ShiftRightLogical, into, false, r, m);
            (s.0, s.1, None)
        },
        Op::ShiftRightAccumulator { into } => {
            let s = spec_shift_step(ShiftKind::ShiftRightArithmetic, into, false, r, m);
            (s.0, s.1, None)
        },
        Op::Swap { into } => {
            let s = spec_shift_step(ShiftKind::Swap, into, false, r, m);
            (s.0, s.1, None)
        },
        Op::Bit { into, bit } => (spec_bit_step(into, bit, r, m), m, None),
        Op::Reset { into, bit } => {
            let s = spec_resbit_step(into, bit, r, m);
            (s.0, s.1, None)
        },
        Op::SetBit { into, bit } => {
            let s = spec_setbit_step(into, bit, r, m);
            (s.0, s.1, None)
        },
        Op::Unimplemented(_) => (r, m, None),
    }
}

/// The machine state after one instruction: its operation's effect,
/// then PC goes to the taken control-flow target, or past the
/// instruction by its size (from the PC before execution), wrapping.
pub open spec fn spec_step(i: Instruction, r: Registers, m: Seq<u8>) -> (Registers, Seq<u8>) {
    let t = spec_apply_op(i, r, m);
    let pc1 = match t.2 {
        Some(a) => a,
        None => vstd::wrapping::u16_specs::wrapping_add(r.pc, i.size as u16),
    };
    (Registers { pc: pc1, ..t.0 }, t.1)
}

/// The register file after one instruction.
pub open spec fn spec_step_regs(i: Instruction, r: Registers, m: Seq<u8>) -> Registers {
    spec_step(i, r, m).0
}

/// Memory after one instruction.
pub open spec fn spec_step_mem(i: Instruction, r: Registers, m: Seq<u8>) -> Seq<u8> {
    spec_step(i, r, m).1
}

fn exec_load8(into: &MutableData8, from: &Data8, state: &mut Registers, memory: &mut Memory)
    requires
        old(state).wf(),
        old(memory).wf(),
    ensures
        (*final(state), final(memory)@) == spec_load8_step(
            *into,
            *from,
            *old(state),
            old(memory)@,
        ),
        final(state).wf(),
        final(memory).wf(),
{
    let v = from.get(state, memory);
    into.set(v, state, memory);
}

fn exec_load16(into: &MutableData16, from: &Data16, state: &mut Registers, memory: &mut Memory)
    requires
        old(state).wf(),
        old(memory).wf(),
    ensures
        (*final(state), final(memory)@) == spec_load16_step(
            *into,
            *from,
            *old(state),
            old(memory)@,
        ),
        final(state).wf(),
        final(memory).wf(),
{
    let v = from.get(state, memory);
    into.set(v, state, memory);
}

fn exec_inc8(into: &MutableData8, state: &mut Registers, memory: &mut Memory)
    requires
        old(state).wf(),
        old(memory).wf(),
    ensures
        (*final(state), final(memory)@) == spec_inc8_step(*into, *old(state), old(memory)@),
        final(state).wf(),
        final(memory).wf(),
{
    let old_flags = state.flags;
    let v = into.get(state, memory);
    let (res, _) = alu_add8(v, 1, false);
    let f = flags_byte(res == 0, false, v & 0xF == 0xF, old_flags & 0x10 != 0);
    state.flags = f;
    into.set(res, state, memory);
}

fn exec_dec8(into: &MutableData8, state: &mut Registers, memory: &mut Memory)
    requires
        old(state).wf(),
        old(memory).wf(),
    ensures
        (*final(state), final(memory)@) == spec_dec8_step(*into, *old(state), old(memory)@),
        final(state).wf(),
        final(memory).wf(),
{
    let old_flags = state.flags;
    let v = into.get(state, memory);
    let (res, _) = alu_sub8(v, 1, false);
    let f = flags_byte(res == 0, true, v & 0xF == 0, old_flags & 0x10 != 0);
    state.flags = f;
    into.set(res, state, memory);
}

fn exec_inc16(into: &MutableData16, state: &mut Registers, memory: &mut Memory)
    requires
        old(state).wf(),
        old(memory).wf(),
    ensures
        (*final(state), final(memory)@) == spec_inc16_step(*into, *old(state), old(memory)@),
        final(state).wf(),
        final(memory).wf(),
{
    let v = into.get(state, memory);
    into.set(v.wrapping_add(1), state, memory);
}

fn exec_dec16(into: &MutableData16, state: &mut Registers, memory: &mut Memory)
    requires
        old(state).wf(),
        old(memory).wf(),
    ensures
        (*final(state), final(memory)@) == spec_dec16_step(*into, *old(state), old(memory)@),
        final(state).wf(),
        final(memory).wf(),
{
    let v = into.get(state, memory);
    into.set(v.wrapping_sub(1), state, memory);
}

fn exec_add16(into: &MutableData16, from: &Data16, state: &mut Registers, memory: &mut Memory)
    requires
        old(state).wf(),
        old(memory).wf(),
    ensures
        (*final(state), final(memory)@) == spec_add16_step(
            *into,
            *from,
            *old(state),
            old(memory)@,
        ),
        final(state).wf(),
        final(memory).wf(),
{
    let v1 = into.get(state, memory);
    let v2 = from.get(state, memory);
    proof {
        assert(v1 & 0x0FFF < 0x1000 && v2 & 0x0FFF < 0x1000) by (bit_vector);
    }
    let h = (v1 & 0x0FFF) + (v2 & 0x0FFF) > 0x0FFF;
    let c = (v1 as u32) + (v2 as u32) > 0xFFFF;
    let f = (state.flags & 0xC0) | (if h { 0x20u8 } else { 0u8 }) | (if c { 0x10u8 } else { 0u8 });
    proof {
        lemma_add16_flags_wf(state.flags, h, c);
    }
    state.flags = f;
    into.set(v1.wrapping_add(v2), state, memory);
}

fn exec_add(
    into: &MutableData8,
    from: &Data8,
    use_carry: bool,
    state: &mut Registers,
    memory: &mut Memory,
)
    requires
        old(state).wf(),
        old(memory).wf(),
    ensures
        (*final(state), final(memory)@) == spec_add_step(
            *into,
            *from,
            use_carry,
            *old(state),
            old(memory)@,
        ),
        final(state).wf(),
        final(memory).wf(),
{
    let cin = use_carry && state.flag(Flag::Carry);
    let v1 = into.get(state, memory);
    let v2 = from.get(state, memory);
    let (res, f) = alu_add8(v1, v2, cin);
    proof {
        crate::alu::lemma_flags_byte(
            spec_add8_val(v1, v2, cin) == 0,
            false,
            (v1 & 0xF) + (v2 & 0xF) + (if cin { 1int } else { 0int }) > 0xF,
            v1 + v2 + (if cin { 1int } else { 0int }) > 0xFF,
        );
    }
    state.flags = f;
    into.set(res, state, memory);
}

fn exec_sub(
    into: &MutableData8,
    from: &Data8,
    use_carry: bool,
    state: &mut Registers,
    memory: &mut Memory,
)
    requires
        old(state).wf(),
        old(memory).wf(),
    ensures
        (*final(state), final(memory)@) == spec_sub_step(
            *into,
            *from,
            use_carry,
            *old(state),
            old(memory)@,
        ),
        final(state).wf(),
        final(memory).wf(),
{
    let cin = use_carry && state.flag(Flag::Carry);
    let v1 = into.get(state, memory);
    let v2 = from.get(state, memory);
    let (res, f) = alu_sub8(v1, v2, cin);
    proof {
        crate::alu::lemma_flags_byte(
            spec_sub8_val(v1, v2, cin) == 0,
            true,
            (v1 & 0xF) < (v2 & 0xF) + (if cin { 1int } else { 0int }),
            v1 < v2 + (if cin { 1int } else { 0int }),
        );
    }
    state.flags = f;
    into.set(res, state, memory);
}

fn exec_and(into: &MutableData8, from: &Data8, state: &mut Registers, memory: &mut Memory)
    requires
        old(state).wf(),
        old(memory).wf(),
    ensures
        (*final(state), final(memory)@) == spec_logic_step(
            *into,
            *from,
            |x: u8, y: u8| x & y,
            true,
            *old(state),
            old(memory)@,
        ),
        final(state).wf(),
        final(memory).wf(),
{
    let v1 = into.get(state, memory);
    let v2 = from.get(state, memory);
    let res = v1 & v2;
    state.flags = flags_byte(res == 0, false, true, false);
    into.set(res, state, memory);
}

fn exec_or(into: &MutableData8, from: &Data8, state: &mut Registers, memory: &mut Memory)
    requires
        old(state).wf(),
        old(memory).wf(),
    ensures
        (*final(state), final(memory)@) == spec_logic_step(
            *into,
            *from,
            |x: u8, y: u8| x | y,
            false,
            *old(state),
            old(memory)@,
        ),
        final(state).wf(),
        final(memory).wf(),
{
    let v1 = into.get(state, memory);
    let v2 = from.get(state, memory);
    let res = v1 | v2;
    state.flags = flags_byte(res == 0, false, false, false);
    into.set(res, state, memory);
}

fn exec_xor(into: &MutableData8, from: &Data8, state: &mut Registers, memory: &mut Memory)
    requires
        old(state).wf(),
        old(memory).wf(),
    ensures
        (*final(state), final(memory)@) == spec_logic_step(
            *into,
            *from,
            |x: u8, y: u8| x ^ y,
            false,
            *old(state),
            old(memory)@,
        ),
        final(state).wf(),
        final(memory).wf(),
{
    let v1 = into.get(state, memory);
    let v2 = from.get(state, memory);
    let res = v1 ^ v2;
    state.flags = flags_byte(res == 0, false, false, false);
    into.set(res, state, memory);
}

fn exec_compare(into: &Data8, from: &Data8, state: &mut Registers, memory: &Memory)
    requires
        old(state).wf(),
        memory.wf(),
    ensures
        *final(state) == spec_compare_step(*into, *from, *old(state), memory@),
        final(state).wf(),
{
    let v1 = into.get(state, memory);
    let v2 = from.get(state, memory);
    let (_, f) = alu_sub8(v1, v2, false);
    proof {
        crate::alu::lemma_flags_byte(
            spec_sub8_val(v1, v2, false) == 0,
            true,
            (v1 & 0xF) < (v2 & 0xF),
            (v1 as int) < v2 as int,
        );
    }
    state.flags = f;
}

fn exec_shift(
    k: ShiftKind,
    into: &MutableData8,
    legacy: bool,
    state: &mut Registers,
    memory: &mut Memory,
)
    requires
        old(state).wf(),
        old(memory).wf(),
    ensures
        (*final(state), final(memory)@) == spec_shift_step(
            k,
            *into,
            legacy,
            *old(state),
            old(memory)@,
        ),
        final(state).wf(),
        final(memory).wf(),
{
    let cin = state.flag(Flag::Carry);
    let v = into.get(state, memory);
    let (res, f) = alu_shift(k, v, cin, legacy);
    proof {
        crate::alu::lemma_flags_byte(
            if legacy {
                false
            } else {
                spec_shift_val(k, v, cin) == 0
            },
            false,
            false,
            crate::alu::spec_shift_carry(k, v),
        );
    }
    state.flags = f;
    into.set(res, state, memory);
}

fn exec_bit(into: &Data8, bit: u8, state: &mut Registers, memory: &Memory)
    requires
        bit < 8,
        old(state).wf(),
        memory.wf(),
    ensures
        *final(state) == spec_bit_step(*into, bit, *old(state), memory@),
        final(state).wf(),
{
    let cin = state.flag(Flag::Carry);
    let v = into.get(state, memory);
    let z = v & (1u8 << bit) == 0;
    state.flags = flags_byte(z, false, true, cin);
}

fn exec_resbit(into: &MutableData8, bit: u8, state: &mut Registers, memory: &mut Memory)
    requires
        bit < 8,
        old(state).wf(),
        old(memory).wf(),
    ensures
        (*final(state), final(memory)@) == spec_resbit_step(
            *into,
            bit,
            *old(state),
            old(memory)@,
        ),
        final(state).wf(),
        final(memory).wf(),
{
    let v = into.get(state, memory);
    into.set(v & !(1u8 << bit), state, memory);
}

fn exec_setbit(into: &MutableData8, bit: u8, state: &mut Registers, memory: &mut Memory)
    requires
        bit < 8,
        old(state).wf(),
        old(memory).wf(),
    ensures
        (*final(state), final(memory)@) == spec_setbit_step(
            *into,
            bit,
            *old(state),
            old(memory)@,
        ),
        final(state).wf(),
        final(memory).wf(),
{
    let v = into.get(state, memory);
    into.set(v | (1u8 << bit), state, memory);
}

fn exec_call(address: &Data16, size: u8, state: &mut Registers, memory: &mut Memory) -> (target:
    u16)
    requires
        old(state).wf(),
        old(memory).wf(),
    ensures
        ({
            let s = spec_call_step(*address, size, *old(state), old(memory)@);
            *final(state) == s.0 && final(memory)@ == s.1 && target == s.2
        }),
        final(state).wf(),
        final(memory).wf(),
{
    let target = address.get(state, memory);
    let ret = state.pc().wrapping_add(size as u16);
    let sp1 = state.sp().wrapping_sub(2);
    state.set_sp(sp1);
    memory.write_u16(sp1, ret);
    target
}

fn exec_return(state: &mut Registers, memory: &Memory) -> (target: u16)
    requires
        old(state).wf(),
        memory.wf(),
    ensures
        ({
            let s = spec_return_step(*old(state), memory@);
            *final(state) == s.0 && target == s.1
        }),
        final(state).wf(),
{
    let target = memory.read_u16(state.sp());
    let sp1 = state.sp().wrapping_add(2);
    state.set_sp(sp1);
    target
}

fn exec_push(from: &Data16, state: &mut Registers, memory: &mut Memory)
    requires
        old(state).wf(),
        old(memory).wf(),
    ensures
        (*final(state), final(memory)@) == spec_push_step(*from, *old(state), old(memory)@),
        final(state).wf(),
        final(memory).wf(),
{
    let v = from.get(state, memory);
    let sp1 = state.sp().wrapping_sub(2);
    state.set_sp(sp1);
    memory.write_u16(sp1, v);
}

fn exec_pop(into: &MutableData16, state: &mut Registers, memory: &mut Memory)
    requires
        old(state).wf(),
        old(memory).wf(),
    ensures
        (*final(state), final(memory)@) == spec_pop_step(*into, *old(state), old(memory)@),
        final(state).wf(),
        final(memory).wf(),
{
    let v = memory.read_u16(state.sp());
    let sp1 = state.sp().wrapping_add(2);
    state.set_sp(sp1);
    into.set(v, state, memory);
}

impl Instruction {
    /// Apply this instruction to the register file and memory. The
    /// caller must not hand an `Unimplemented` operation here: decode
    /// marks those with size 0, and running one is the fatal condition
    /// the caller reports instead.
    pub fn execute(&self, state: &mut Registers, memory: &mut Memory)
        requires
            !(self.op is Unimplemented),
            self.wf(),
            old(state).wf(),
            old(memory).wf(),
        ensures
            *final(state) == spec_step_regs(*self, *old(state), old(memory)@),
            final(memory)@ == spec_step_mem(*self, *old(state), old(memory)@),
            final(state).wf(),
            final(memory).wf(),
    {
        let ghost r0 = *state;
        let ghost m0 = memory@;
        let default_addr = state.pc().wrapping_add(self.size as u16);
        let target: Option<u16> = match self.op {
            Op::Nop | Op::Stop | Op::Halt => None,
            Op::Load8 { into, from } => {
                exec_load8(&into, &from, state, memory);
                None
            },
            Op::Load16 { into, from } => {
                exec_load16(&into, &from, state, memory);
                None
            },
            Op::Inc8 { into } => {
                exec_inc8(&into, state, memory);
                None
            },
            Op::Dec8 { into } => {
                exec_dec8(&into, state, memory);
                None
            },
            Op::Inc16 { into } => {
                exec_inc16(&into, state, memory);
                None
            },
            Op::Dec16 { into } => {
                exec_dec16(&into, state, memory);
                None
            },
            Op::Ror { into } => {
                exec_shift(ShiftKind::RotateRight, &into, self.size == 1, state, memory);
                None
            },
            Op::RorCarry { into } => {
                exec_shift(ShiftKind::RotateRightCarry, &into, self.size == 1, state, memory);
                None
            },
            Op::Rol { into } => {
                exec_shift(ShiftKind::RotateLeft, &into, self.size == 1, state, memory);
                None
            },
            Op::RolCarry { into } => {
                exec_shift(ShiftKind::RotateLeftCarry, &into, self.size == 1, state, memory);
                None
            },
            Op::Add { into, from } => {
                exec_add(&into, &from, false, state, memory);
                None
            },
            Op::Add16 { into, from } => {
                exec_add16(&into, &from, state, memory);
                None
            },
            Op::AddCarry { into, from } => {
                exec_add(&into, &from, true, state, memory);
                None
            },
            Op::Sub { into, from } => {
                exec_sub(&into, &from, false, state, memory);
                None
            },
            Op::SubCarry { into, from } => {
                exec_sub(&into, &from, true, state, memory);
                None
            },
            Op::And { into, from } => {
                exec_and(&into, &from, state, memory);
                None
            },
            Op::Or { into, from } => {
                exec_or(&into, &from, state, memory);
                None
            },
            Op::Xor { into, from } => {
                exec_xor(&into, &from, state, memory);
                None
            },
            Op::Compare { into, from } => {
                exec_compare(&into, &from, state, memory);
                None
            },
            Op::JumpRelative { amount } => {
                Some(default_addr.wrapping_add_signed(amount as i16))
            },
            Op::JumpRelativeIf { condition, amount } => {
                if state.flag(condition) {
                    Some(default_addr.wrapping_add_signed(amount as i16))
                } else {
                    None
                }
            },
            Op::Call { address } => Some(exec_call(&address, self.size, state, memory)),
            Op::CallIf { condition, address } => {
                if state.flag(condition) {
                    Some(exec_call(&address, self.size, state, memory))
                } else {
                    None
                }
            },
            Op::Return => Some(exec_return(state, memory)),
            Op::ReturnIf { condition } => {
                if state.flag(condition) {
                    Some(exec_return(state, memory))
                } else {
                    None
                }
            },
            Op::Push { from } => {
                exec_push(&from, state, memory);
                None
            },
            Op::Pop { into } => {
                exec_pop(&into, state, memory);
                None
            },
            Op::ShiftLeftAccumulator { into } => {
                exec_shift(ShiftKind::ShiftLeftArithmetic, &into, false, state, memory);
                None
            },
            Op::ShiftRightLogical { into } => {
                exec_shift(ShiftKind::ShiftRightLogical, &into, false, state, memory);
                None
            },
            Op::ShiftRightAccumulator { into } => {
                exec_shift(ShiftKind::ShiftRightArithmetic, &into, false, state, memory);
                None
            },
            Op::Swap { into } => {
                exec_shift(ShiftKind::Swap, &into, false, state, memory);
                None
            },
            Op::Bit { into, bit } => {
                exec_bit(&into, bit, state, memory);
                None
            },
            Op::Reset { into, bit } => {
                exec_resbit(&into, bit, state, memory);
                None
            },
            Op::SetBit { into, bit } => {
                exec_setbit(&into, bit, state, memory);
                None
            },
            Op::Unimplemented(_) => None,
        };
        proof {
            let t = spec_apply_op(*self, r0, m0);
            assert(*state == t.0 && memory@ == t.1 && target == t.2);
        }
        let new_addr = match target {
            Some(a) => a,
            None => default_addr,
        };
        state.set_pc(new_addr);
    }
}

} // verus!
