//! Laws of the core, proved once and for all states: decoder totality
//! over the encoded opcode space, the register-pair round trip, the
//! increment/decrement round trip, the tight-loop relative jump, and
//! the push/pop round trip on AF.

use vstd::prelude::*;

use crate::cpu::{
    spec_high_byte, spec_join_u8, spec_low_byte, Flag, Register16, Register8, Registers,
};
use crate::decode::{spec_decode, spec_decode3};
use crate::exec::{spec_step_mem, spec_step_regs};
use crate::instructions::{Data16, Instruction, MutableData16, MutableData8, Op};

verus! {

/// Joining the split bytes of a word gives the word back.
pub proof fn lemma_join_split(x: u16)
    ensures
        spec_join_u8(spec_low_byte(x), spec_high_byte(x)) == x,
{
    assert((((((x >> 8) & 0xff) as u8) as u16) << 8) | (((x & 0xff) as u8) as u16) == x)
        by (bit_vector);
}

/// Splitting a joined word gives the bytes back.
pub proof fn lemma_split_join(low: u8, high: u8)
    ensures
        spec_high_byte(spec_join_u8(low, high)) == high,
        spec_low_byte(spec_join_u8(low, high)) == low,
{
    assert(((((((high as u16) << 8) | (low as u16)) >> 8) & 0xff) as u8) == high && (((((high
        as u16) << 8) | (low as u16)) & 0xff) as u8) == low) by (bit_vector);
}

/// A flags cell with a zero low nibble is unchanged by masking to its
/// high nibble.
pub proof fn lemma_flags_high_nibble(f: u8)
    requires
        f & 0x0F == 0,
    ensures
        f & 0xF0 == f,
{
    assert(f & 0x0F == 0 ==> f & 0xF0 == f) by (bit_vector);
}

/// The primary opcodes the encoding table covers: the whole 0x00..=0xBF
/// block except 0x27, 0x2F, 0x37 and 0x3F, the 0xCB prefix, and the
/// encoded part of the high block.
pub open spec fn spec_primary_implemented(b: u8) -> bool {
    (b <= 0x3F && b != 0x27 && b != 0x2F && b != 0x37 && b != 0x3F) || (0x40 <= b && b <= 0xBF)
        || b == 0xCB || b == 0xC1 || b == 0xD1 || b == 0xE1 || b == 0xF1 || b == 0xC5 || b == 0xD5
        || b == 0xE5 || b == 0xF5 || b == 0xC9 || b == 0xCC || b == 0xDC || b == 0xCD || b == 0xE0
        || b == 0xF0 || b == 0xE2 || b == 0xF2 || b == 0xEA || b == 0xFA || b == 0xFE
}

/// Decoder totality over the encoded primary space: on a full window,
/// every covered primary opcode decodes to a real instruction, with at
/// least one byte of size and one cycle of cost.
pub proof fn lemma_decode_primary_total(w: Seq<u8>)
    requires
        w.len() >= 3,
        spec_primary_implemented(w[0]),
    ensures
        !(spec_decode(w).op is Unimplemented),
        spec_decode(w).size >= 1,
        spec_decode(w).cycles >= 1,
{
    assert(spec_decode(w) == spec_decode3(w[0], w[1], w[2], 3));
}

/// Decoder totality over the whole extended space: behind a 0xCB
/// prefix, every one of the 256 second bytes decodes to a real
/// two-byte instruction with at least one cycle of cost.
pub proof fn lemma_decode_extended_total(w: Seq<u8>)
    requires
        w.len() >= 2,
        w[0] == 0xCB,
    ensures
        !(spec_decode(w).op is Unimplemented),
        spec_decode(w).size == 2,
        spec_decode(w).cycles >= 1,
{
}

/// Register-pair round trip: writing BC and reading it back gives the
/// written word, and the 8-bit cells hold its high and low bytes.
pub proof fn lemma_bc_round_trip(r: Registers, x: u16)
    ensures
        r.spec_set16(Register16::BC, x).spec_get16(Register16::BC) == x,
        r.spec_set16(Register16::BC, x).b == spec_high_byte(x),
        r.spec_set16(Register16::BC, x).c == spec_low_byte(x),
{
    lemma_join_split(x);
}

/// INC then DEC on an 8-bit register returns it to its original value
/// and leaves Carry unchanged from its pre-INC state.
pub proof fn lemma_inc_dec_round_trip(reg: Register8, r: Registers, m: Seq<u8>)
    ensures
        ({
            let inc = Instruction {
                op: Op::Inc8 { into: MutableData8::Register8(reg) },
                size: 1,
                cycles: 1,
            };
            let dec = Instruction {
                op: Op::Dec8 { into: MutableData8::Register8(reg) },
                size: 1,
                cycles: 1,
            };
            let r1 = spec_step_regs(inc, r, m);
            let r2 = spec_step_regs(dec, r1, spec_step_mem(inc, r, m));
            r2.spec_get8(reg) == r.spec_get8(reg) && r2.spec_flag(Flag::Carry) == r.spec_flag(
                Flag::Carry,
            )
        }),
{
    let v = r.spec_get8(reg);
    let res1 = crate::alu::spec_add8_val(v, 1, false);
    crate::alu::lemma_flags_byte(
        res1 == 0,
        false,
        v & 0xF == 0xF,
        r.flags & 0x10 != 0,
    );
    let f1 = crate::alu::spec_inc8_flags(v, r.flags);
    crate::alu::lemma_flags_byte(
        crate::alu::spec_sub8_val(res1, 1, false) == 0,
        true,
        res1 & 0xF == 0,
        f1 & 0x10 != 0,
    );
    if v == 255 {
        assert(res1 == 0);
        assert(crate::alu::spec_sub8_val(res1, 1, false) == v);
    } else {
        assert(res1 == v + 1);
        assert(crate::alu::spec_sub8_val(res1, 1, false) == v);
    }
}

/// The tight loop: a relative jump of minus two (bytes 0x18 0xFE)
/// executed at any address leaves PC where it was, since the
/// displacement is anchored after the instruction's two bytes.
pub proof fn lemma_jr_minus_two_loops(w: Seq<u8>, r: Registers, m: Seq<u8>)
    requires
        w.len() >= 2,
        w[0] == 0x18,
        w[1] == 0xFE,
    ensures
        spec_step_regs(spec_decode(w), r, m) == r,
        spec_step_mem(spec_decode(w), r, m) == m,
{
    let i = spec_decode(w);
    assert(0xFEu8 as i8 == -2i8) by (bit_vector);
    assert(i == Instruction { op: Op::JumpRelative { amount: -2i8 }, size: 2, cycles: 3 });
    let t = crate::exec::spec_rel_target(r.pc, 2, -2i8);
    assert(t == r.pc);
    assert(spec_step_regs(i, r, m) == Registers { pc: t, ..r });
}

/// PUSH AF then POP AF is the identity on A and on the flag bits, and
/// restores SP, because the flags cell never carries a low nibble.
pub proof fn lemma_push_pop_af_round_trip(r: Registers, m: Seq<u8>)
    requires
        r.wf(),
        m.len() == 0x10000,
    ensures
        ({
            let push = Instruction {
                op: Op::Push {
                    from: Data16::Mutable(MutableData16::Register16(Register16::AF)),
                },
                size: 1,
                cycles: 4,
            };
            let pop = Instruction {
                op: Op::Pop { into: MutableData16::Register16(Register16::AF) },
                size: 1,
                cycles: 3,
            };
            let r1 = spec_step_regs(push, r, m);
            let m1 = spec_step_mem(push, r, m);
            let r2 = spec_step_regs(pop, r1, m1);
            r2.a == r.a && r2.flags == r.flags && r2.sp == r.sp
        }),
{
    let v = r.spec_get16(Register16::AF);
    let sp1 = vstd::wrapping::u16_specs::wrapping_sub(r.sp, 2);
    let sp2 = vstd::wrapping::u16_specs::wrapping_add(sp1, 1);
    assert(sp2 != sp1);
    let m1 = crate::memory::spec_write16(m, sp1, v);
    assert(m1[sp1 as int] == spec_low_byte(v));
    assert(m1[sp2 as int] == spec_high_byte(v));
    assert(crate::memory::spec_read16(m1, sp1) == spec_join_u8(
        spec_low_byte(v),
        spec_high_byte(v),
    ));
    lemma_join_split(v);
    lemma_split_join(r.flags, r.a);
    lemma_flags_high_nibble(r.flags);
    assert(vstd::wrapping::u16_specs::wrapping_add(sp1, 2) == r.sp);
}

} // verus!
