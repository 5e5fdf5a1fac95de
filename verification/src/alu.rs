//! Flag arithmetic of the 8-bit ALU and of the rotate/shift family.
//!
//! Every arithmetic or logic instruction rebuilds the flags cell from
//! four booleans: Zero (bit 7), Negative (bit 6), HalfCarry (bit 5,
//! carry out of bit 3) and Carry (bit 4, carry or borrow out of bit 7).
//! The low nibble of the rebuilt cell is always zero.

use vstd::prelude::*;

verus! {

/// The flags cell built from the four condition bits, high to low:
/// Zero, Negative, HalfCarry, Carry. The low nibble is zero.
pub open spec fn spec_flags_byte(z: bool, n: bool, h: bool, c: bool) -> u8 {
    (if z { 0x80u8 } else { 0u8 }) | (if n { 0x40u8 } else { 0u8 }) | (if h { 0x20u8 } else { 0u8 })
        | (if c { 0x10u8 } else { 0u8 })
}

/// How each bit of the built flags cell reads back, and that its low
/// nibble is zero.
pub proof fn lemma_flags_byte(z: bool, n: bool, h: bool, c: bool)
    ensures
        spec_flags_byte(z, n, h, c) & 0x0F == 0,
        (spec_flags_byte(z, n, h, c) & 0x80 != 0) == z,
        (spec_flags_byte(z, n, h, c) & 0x40 != 0) == n,
        (spec_flags_byte(z, n, h, c) & 0x20 != 0) == h,
        (spec_flags_byte(z, n, h, c) & 0x10 != 0) == c,
{
    let zb: u8 = if z { 0x80 } else { 0 };
    let nb: u8 = if n { 0x40 } else { 0 };
    let hb: u8 = if h { 0x20 } else { 0 };
    let cb: u8 = if c { 0x10 } else { 0 };
    assert((zb == 0x80 || zb == 0) && (nb == 0x40 || nb == 0) && (hb == 0x20 || hb == 0) && (cb
        == 0x10 || cb == 0) ==> ((zb | nb | hb | cb) & 0x0F == 0 && ((zb | nb | hb | cb) & 0x80
        != 0) == (zb == 0x80) && ((zb | nb | hb | cb) & 0x40 != 0) == (nb == 0x40) && ((zb | nb
        | hb | cb) & 0x20 != 0) == (hb == 0x20) && ((zb | nb | hb | cb) & 0x10 != 0) == (cb
        == 0x10))) by (bit_vector);
}

/// The flags cell built from the four condition bits.
pub fn flags_byte(z: bool, n: bool, h: bool, c: bool) -> (r: u8)
    ensures
        r == spec_flags_byte(z, n, h, c),
        r & 0x0F == 0,
{
    proof {
        lemma_flags_byte(z, n, h, c);
    }
    (if z { 0x80u8 } else { 0u8 }) | (if n { 0x40u8 } else { 0u8 }) | (if h { 0x20u8 } else { 0u8 })
        | (if c { 0x10u8 } else { 0u8 })
}

/// 8-bit addition modulo 256, with optional carry in.
pub open spec fn spec_add8_val(a: u8, b: u8, cin: bool) -> u8 {
    (((a + b + (if cin { 1int } else { 0int })) % 256) as u8)
}

/// Flags of 8-bit addition: Zero of the result, Negative clear,
/// HalfCarry out of bit 3, Carry out of bit 7.
pub open spec fn spec_add8_flags(a: u8, b: u8, cin: bool) -> u8 {
    let cv = if cin { 1int } else { 0int };
    spec_flags_byte(
        spec_add8_val(a, b, cin) == 0,
        false,
        (a & 0xF) + (b & 0xF) + cv > 0xF,
        a + b + cv > 0xFF,
    )
}

/// 8-bit subtraction modulo 256, with optional borrow in.
pub open spec fn spec_sub8_val(a: u8, b: u8, cin: bool) -> u8 {
    (((256 + a - b - (if cin { 1int } else { 0int })) % 256) as u8)
}

/// Flags of 8-bit subtraction: Zero of the result, Negative set,
/// HalfCarry is the borrow into bit 3, Carry the borrow into bit 7.
pub open spec fn spec_sub8_flags(a: u8, b: u8, cin: bool) -> u8 {
    let cv = if cin { 1int } else { 0int };
    spec_flags_byte(
        spec_sub8_val(a, b, cin) == 0,
        true,
        (a & 0xF) < (b & 0xF) + cv,
        a < b + cv,
    )
}

/// 8-bit addition and its flags.
pub fn alu_add8(a: u8, b: u8, cin: bool) -> (r: (u8, u8))
    ensures
        r.0 == spec_add8_val(a, b, cin),
        r.1 == spec_add8_flags(a, b, cin),
{
    let cv: u16 = if cin { 1 } else { 0 };
    let sum: u16 = a as u16 + b as u16 + cv;
    let v: u8 = (sum % 256) as u8;
    let h: bool = (a & 0xF) as u16 + (b & 0xF) as u16 + cv > 0xF;
    let c: bool = sum > 0xFF;
    (v, flags_byte(v == 0, false, h, c))
}

/// 8-bit subtraction and its flags.
pub fn alu_sub8(a: u8, b: u8, cin: bool) -> (r: (u8, u8))
    ensures
        r.0 == spec_sub8_val(a, b, cin),
        r.1 == spec_sub8_flags(a, b, cin),
{
    let cv: u16 = if cin { 1 } else { 0 };
    let diff: u16 = 256 + a as u16 - b as u16 - cv;
    let v: u8 = (diff % 256) as u8;
    let h: bool = ((a & 0xF) as u16) < ((b & 0xF) as u16) + cv;
    let c: bool = (a as u16) < b as u16 + cv;
    (v, flags_byte(v == 0, true, h, c))
}

/// Flags of the logical operations: Zero of the result, Negative clear,
/// Carry clear; only And sets HalfCarry.
pub open spec fn spec_logic_flags(v: u8, h: bool) -> u8 {
    spec_flags_byte(v == 0, false, h, false)
}

/// Flags of an 8-bit increment: Zero and HalfCarry of the new value,
/// Negative clear, Carry untouched from the flags before.
pub open spec fn spec_inc8_flags(a: u8, old_flags: u8) -> u8 {
    spec_flags_byte(spec_add8_val(a, 1, false) == 0, false, a & 0xF == 0xF, old_flags & 0x10 != 0)
}

/// Flags of an 8-bit decrement: Zero and HalfCarry of the operation,
/// Negative set, Carry untouched from the flags before.
pub open spec fn spec_dec8_flags(a: u8, old_flags: u8) -> u8 {
    spec_flags_byte(spec_sub8_val(a, 1, false) == 0, true, a & 0xF == 0, old_flags & 0x10 != 0)
}

/// Flags of the 16-bit add onto HL: Zero and Negative kept from the
/// flags before, HalfCarry out of bit 11, Carry out of bit 15.
pub open spec fn spec_add16_flags(old_flags: u8, h: bool, c: bool) -> u8 {
    (old_flags & 0xC0) | (if h { 0x20u8 } else { 0u8 }) | (if c { 0x10u8 } else { 0u8 })
}

/// The 16-bit-add flags keep a zero low nibble.
pub proof fn lemma_add16_flags_wf(old_flags: u8, h: bool, c: bool)
    ensures
        spec_add16_flags(old_flags, h, c) & 0x0F == 0,
{
    let hb: u8 = if h { 0x20 } else { 0 };
    let cb: u8 = if c { 0x10 } else { 0 };
    assert((hb == 0x20 || hb == 0) && (cb == 0x10 || cb == 0) ==> ((old_flags & 0xC0) | hb | cb)
        & 0x0F == 0) by (bit_vector);
}

/// The rotate, shift and swap operations of the extended space, plus
/// the four legacy accumulator rotates that share their semantics.
#[derive(Clone, Copy, Debug, PartialEq, Eq, Structural)]
pub enum ShiftKind {
    /// RLC: rotate left, bit 7 to both Carry and bit 0.
    RotateLeftCarry,
    /// RRC: rotate right, bit 0 to both Carry and bit 7.
    RotateRightCarry,
    /// RL: rotate left through Carry: old Carry to bit 0, bit 7 to Carry.
    RotateLeft,
    /// RR: rotate right through Carry: old Carry to bit 7, bit 0 to Carry.
    RotateRight,
    /// SLA: shift left, zero into bit 0, bit 7 to Carry.
    ShiftLeftArithmetic,
    /// SRA: shift right keeping bit 7, bit 0 to Carry.
    ShiftRightArithmetic,
    /// SWAP: exchange the nibbles, Carry clear.
    Swap,
    /// SRL: shift right, zero into bit 7, bit 0 to Carry.
    ShiftRightLogical,
}

/// The rotated, shifted or swapped byte; `cin` is the Carry flag before
/// the operation, fed back only by the through-carry rotates.
pub open spec fn spec_shift_val(k: ShiftKind, v: u8, cin: bool) -> u8 {
    match k {
        ShiftKind::RotateLeftCarry => (v << 1) | (v >> 7),
        ShiftKind::RotateRightCarry => (v >> 1) | (v << 7),
        ShiftKind::RotateLeft => (v << 1) | (if cin { 1u8 } else { 0u8 }),
        ShiftKind::RotateRight => (v >> 1) | (if cin { 0x80u8 } else { 0u8 }),
        ShiftKind::ShiftLeftArithmetic => v << 1,
        ShiftKind::ShiftRightArithmetic => (v >> 1) | (v & 0x80),
        ShiftKind::Swap => (v << 4) | (v >> 4),
        ShiftKind::ShiftRightLogical => v >> 1,
    }
}

/// Which bit of the old byte feeds Carry: bit 7 for the left forms,
/// bit 0 for the right forms, nothing for Swap.
pub open spec fn spec_shift_carry(k: ShiftKind, v: u8) -> bool {
    match k {
        ShiftKind::RotateLeftCarry | ShiftKind::RotateLeft | ShiftKind::ShiftLeftArithmetic => v
            & 0x80 != 0,
        ShiftKind::RotateRightCarry | ShiftKind::RotateRight | ShiftKind::ShiftRightArithmetic
            | ShiftKind::ShiftRightLogical => v & 0x01 != 0,
        ShiftKind::Swap => false,
    }
}

/// Flags of a rotate, shift or swap: Negative and HalfCarry clear,
/// Carry from the bit shifted out; Zero reflects the result for the
/// extended forms and is always clear for the legacy single-byte
/// accumulator rotates.
pub open spec fn spec_shift_flags(k: ShiftKind, v: u8, cin: bool, legacy: bool) -> u8 {
    spec_flags_byte(
        if legacy { false } else { spec_shift_val(k, v, cin) == 0 },
        false,
        false,
        spec_shift_carry(k, v),
    )
}

/// One rotate, shift or swap step and its flags.
pub fn alu_shift(k: ShiftKind, v: u8, cin: bool, legacy: bool) -> (r: (u8, u8))
    ensures
        r.0 == spec_shift_val(k, v, cin),
        r.1 == spec_shift_flags(k, v, cin, legacy),
{
    let out = match k {
        ShiftKind::RotateLeftCarry => (v << 1) | (v >> 7),
        ShiftKind::RotateRightCarry => (v >> 1) | (v << 7),
        ShiftKind::RotateLeft => (v << 1) | (if cin { 1u8 } else { 0u8 }),
        ShiftKind::RotateRight => (v >> 1) | (if cin { 0x80u8 } else { 0u8 }),
        ShiftKind::ShiftLeftArithmetic => v << 1,
        ShiftKind::ShiftRightArithmetic => (v >> 1) | (v & 0x80),
        ShiftKind::Swap => (v << 4) | (v >> 4),
        ShiftKind::ShiftRightLogical => v >> 1,
    };
    let c = match k {
        ShiftKind::RotateLeftCarry | ShiftKind::RotateLeft | ShiftKind::ShiftLeftArithmetic => v
            & 0x80 != 0,
        ShiftKind::RotateRightCarry | ShiftKind::RotateRight | ShiftKind::ShiftRightArithmetic
            | ShiftKind::ShiftRightLogical => v & 0x01 != 0,
        ShiftKind::Swap => false,
    };
    let z = if legacy { false } else { out == 0 };
    (out, flags_byte(z, false, false, c))
}

} // verus!
