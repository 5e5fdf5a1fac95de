//! The two-level opcode decoder.
//!
//! A byte window anchored at the program counter maps to one decoded
//! [`Instruction`]. Most opcodes are matched by literal byte value; the
//! 0x40..=0x7F block (register-to-register loads), the 0x80..=0xBF block
//! (accumulator ALU operations) and the whole 0xCB-prefixed extended
//! space are driven by bit fields, sharing one low-three-bit operand
//! selector. Decoding is total and never panics: an opcode with no
//! defined encoding, or one whose operand bytes run past the window,
//! yields `Unimplemented` with size 0 and cycles 0, the signal that
//! execution cannot proceed.

use vstd::prelude::*;

use crate::cpu::{Flag, Register16, Register8};
use crate::instructions::{Data16, Data8, Instruction, MutableData16, MutableData8, Op};

verus! {

/// The undecodable instruction: zero size and zero cycles tell the
/// caller to stop before executing.
pub open spec fn spec_unimplemented(b: u8) -> Instruction {
    Instruction { op: Op::Unimplemented(b), cycles: 0, size: 0 }
}

/// The 8-bit operand a three-bit field selects, in the fixed hardware
/// order B, C, D, E, H, L, (HL), A.
pub open spec fn spec_operand_from_bits(bits: u8) -> MutableData8 {
    if bits == 0 {
        MutableData8::Register8(Register8::B)
    } else if bits == 1 {
        MutableData8::Register8(Register8::C)
    } else if bits == 2 {
        MutableData8::Register8(Register8::D)
    } else if bits == 3 {
        MutableData8::Register8(Register8::E)
    } else if bits == 4 {
        MutableData8::Register8(Register8::H)
    } else if bits == 5 {
        MutableData8::Register8(Register8::L)
    } else if bits == 6 {
        MutableData8::IndirectRegister16(Register16::HL)
    } else {
        MutableData8::Register8(Register8::A)
    }
}

/// Decode of the 0x40..=0x7F block: 8-bit register-to-register loads
/// driven by bit fields, except 0x76, which is HALT. An operand through
/// (HL) raises the cycle cost from 4 to 8.
pub open spec fn spec_decode_load_block(b: u8) -> Instruction {
    if b == 0x76 {
        Instruction { size: 1, cycles: 4, op: Op::Halt }
    } else {
        let src = b & 0x07;
        let dst = (b >> 3) & 0x07;
        Instruction {
            size: 1,
            cycles: if src == 6 || dst == 6 { 8 } else { 4 },
            op: Op::Load8 {
                into: spec_operand_from_bits(dst),
                from: Data8::Mutable(spec_operand_from_bits(src)),
            },
        }
    }
}

/// Decode of the 0x80..=0xBF block: the eight accumulator ALU operations
/// in fixed order Add, AddCarry, Sub, SubCarry, And, Xor, Or, Compare,
/// each against the source the low three bits select.
pub open spec fn spec_decode_alu_block(b: u8) -> Instruction {
    let src = b & 0x07;
    let sel = ((b - 0x80) as u8) >> 3;
    let from = Data8::Mutable(spec_operand_from_bits(src));
    let a = MutableData8::Register8(Register8::A);
    Instruction {
        size: 1,
        cycles: if src == 6 { 8 } else { 4 },
        op: if sel == 0 {
            Op::Add { into: a, from }
        } else if sel == 1 {
            Op::AddCarry { into: a, from }
        } else if sel == 2 {
            Op::Sub { into: a, from }
        } else if sel == 3 {
            Op::SubCarry { into: a, from }
        } else if sel == 4 {
            Op::And { into: a, from }
        } else if sel == 5 {
            Op::Xor { into: a, from }
        } else if sel == 6 {
            Op::Or { into: a, from }
        } else {
            Op::Compare { into: Data8::Mutable(a), from }
        },
    }
}

/// Decode of the 0xCB-prefixed extended space: rotates, shifts, swap,
/// then the bit-test, reset and set groups indexed 0..=7. The low three
/// bits select the destination; through (HL) the cost is 16, else 8.
pub open spec fn spec_decode_extended(b: u8) -> Instruction {
    let dst = spec_operand_from_bits(b & 0x07);
    let cycles: u8 = if b & 0x07 == 6 { 16 } else { 8 };
    let sel = b >> 3;
    Instruction {
        size: 2,
        cycles,
        op: if sel == 0 {
            Op::RolCarry { into: dst }
        } else if sel == 1 {
            Op::RorCarry { into: dst }
        } else if sel == 2 {
            Op::Rol { into: dst }
        } else if sel == 3 {
            Op::Ror { into: dst }
        } else if sel == 4 {
            Op::ShiftLeftAccumulator { into: dst }
        } else if sel == 5 {
            Op::ShiftRightAccumulator { into: dst }
        } else if sel == 6 {
            Op::Swap { into: dst }
        } else if sel == 7 {
            Op::ShiftRightLogical { into: dst }
        } else if sel <= 15 {
            Op::Bit { into: Data8::Mutable(dst), bit: (sel - 8) as u8 }
        } else if sel <= 23 {
            Op::Reset { into: dst, bit: (sel - 16) as u8 }
        } else {
            Op::SetBit { into: dst, bit: (sel - 24) as u8 }
        },
    }
}

/// Decode of the literal-matched opcodes: the 0x00..=0x3F block and the
/// miscellaneous high block. `b1` and `b2` are the operand bytes after
/// the opcode, meaningful only while `avail` covers them; an instruction
/// whose operands run past the window decodes as `Unimplemented`.
pub open spec fn spec_decode_misc(b0: u8, b1: u8, b2: u8, avail: int) -> Instruction {
    let imm16 = crate::cpu::spec_join_u8(b1, b2);
    if b0 == 0x00 {
        Instruction { size: 1, cycles: 4, op: Op::Nop }
    } else if b0 == 0x10 {
        Instruction { size: 2, cycles: 1, op: Op::Stop }
    } else if b0 == 0x20 && avail >= 2 {
        Instruction {
            size: 2,
            cycles: 1,
            op: Op::JumpRelativeIf { condition: Flag::NotZero, amount: b1 as i8 },
        }
    } else if b0 == 0x30 && avail >= 2 {
        Instruction {
            size: 2,
            cycles: 1,
            op: Op::JumpRelativeIf { condition: Flag::NotCarry, amount: b1 as i8 },
        }
    } else if b0 == 0x01 && avail >= 3 {
        Instruction {
            size: 3,
            cycles: 3,
            op: Op::Load16 {
                into: MutableData16::Register16(Register16::BC),
                from: Data16::Immutable(imm16),
            },
        }
    } else if b0 == 0x11 && avail >= 3 {
        Instruction {
            size: 3,
            cycles: 3,
            op: Op::Load16 {
                into: MutableData16::Register16(Register16::DE),
                from: Data16::Immutable(imm16),
            },
        }
    } else if b0 == 0x21 && avail >= 3 {
        Instruction {
            size: 3,
            cycles: 3,
            op: Op::Load16 {
                into: MutableData16::Register16(Register16::HL),
                from: Data16::Immutable(imm16),
            },
        }
    } else if b0 == 0x31 && avail >= 3 {
        Instruction {
            size: 3,
            cycles: 3,
            op: Op::Load16 {
                into: MutableData16::Register16(Register16::SP),
                from: Data16::Immutable(imm16),
            },
        }
    } else if b0 == 0x02 {
        Instruction {
            size: 1,
            cycles: 2,
            op: Op::Load8 {
                into: MutableData8::IndirectRegister16(Register16::BC),
                from: Data8::Mutable(MutableData8::Register8(Register8::A)),
            },
        }
    } else if b0 == 0x12 {
        Instruction {
            size: 1,
            cycles: 2,
            op: Op::Load8 {
                into: MutableData8::IndirectRegister16(Register16::DE),
                from: Data8::Mutable(MutableData8::Register8(Register8::A)),
            },
        }
    } else if b0 == 0x22 {
        Instruction {
            size: 1,
            cycles: 2,
            op: Op::Load8 {
                into: MutableData8::IndirectRegister16Inc(Register16::HL),
                from: Data8::Mutable(MutableData8::Register8(Register8::A)),
            },
        }
    } else if b0 == 0x32 {
        Instruction {
            size: 1,
            cycles: 2,
            op: Op::Load8 {
                into: MutableData8::IndirectRegister16Dec(Register16::HL),
                from: Data8::Mutable(MutableData8::Register8(Register8::A)),
            },
        }
    } else if b0 == 0x03 {
        Instruction {
            size: 1,
            cycles: 8,
            op: Op::Inc16 { into: MutableData16::Register16(Register16::BC) },
        }
    } else if b0 == 0x13 {
        Instruction {
            size: 1,
            cycles: 8,
            op: Op::Inc16 { into: MutableData16::Register16(Register16::DE) },
        }
    } else if b0 == 0x23 {
        Instruction {
            size: 1,
            cycles: 8,
            op: Op::Inc16 { into: MutableData16::Register16(Register16::HL) },
        }
    } else if b0 == 0x33 {
        Instruction {
            size: 1,
            cycles: 8,
            op: Op::Inc16 { into: MutableData16::Register16(Register16::SP) },
        }
    } else if b0 == 0x04 {
        Instruction {
            size: 1,
            cycles: 1,
            op: Op::Inc8 { into: MutableData8::Register8(Register8::B) },
        }
    } else if b0 == 0x14 {
        Instruction {
            size: 1,
            cycles: 1,
            op: Op::Inc8 { into: MutableData8::Register8(Register8::D) },
        }
    } else if b0 == 0x24 {
        Instruction {
            size: 1,
            cycles: 1,
            op: Op::Inc8 { into: MutableData8::Register8(Register8::H) },
        }
    } else if b0 == 0x34 {
        Instruction {
            size: 1,
            cycles: 3,
            op: Op::Inc8 { into: MutableData8::IndirectRegister16(Register16::HL) },
        }
    } else if b0 == 0x05 {
        Instruction {
            size: 1,
            cycles: 1,
            op: Op::Dec8 { into: MutableData8::Register8(Register8::B) },
        }
    } else if b0 == 0x15 {
        Instruction {
            size: 1,
            cycles: 1,
            op: Op::Dec8 { into: MutableData8::Register8(Register8::D) },
        }
    } else if b0 == 0x25 {
        Instruction {
            size: 1,
            cycles: 1,
            op: Op::Dec8 { into: MutableData8::Register8(Register8::H) },
        }
    } else if b0 == 0x35 {
        Instruction {
            size: 1,
            cycles: 3,
            op: Op::Dec8 { into: MutableData8::IndirectRegister16(Register16::HL) },
        }
    } else if b0 == 0x06 && avail >= 2 {
        Instruction {
            size: 2,
            cycles: 2,
            op: Op::Load8 {
                into: MutableData8::Register8(Register8::B),
                from: Data8::Immutable(b1),
            },
        }
    } else if b0 == 0x16 && avail >= 2 {
        Instruction {
            size: 2,
            cycles: 2,
            op: Op::Load8 {
                into: MutableData8::Register8(Register8::D),
                from: Data8::Immutable(b1),
            },
        }
    } else if b0 == 0x26 && avail >= 2 {
        Instruction {
            size: 2,
            cycles: 2,
            op: Op::Load8 {
                into: MutableData8::Register8(Register8::H),
                from: Data8::Immutable(b1),
            },
        }
    } else if b0 == 0x36 && avail >= 2 {
        Instruction {
            size: 2,
            cycles: 3,
            op: Op::Load8 {
                into: MutableData8::IndirectRegister16(Register16::HL),
                from: Data8::Immutable(b1),
            },
        }
    } else if b0 == 0x07 {
        Instruction {
            size: 1,
            cycles: 1,
            op: Op::RolCarry { into: MutableData8::Register8(Register8::A) },
        }
    } else if b0 == 0x17 {
        Instruction {
            size: 1,
            cycles: 1,
            op: Op::Rol { into: MutableData8::Register8(Register8::A) },
        }
    } else if b0 == 0x08 && avail >= 3 {
        Instruction {
            size: 3,
            cycles: 5,
            op: Op::Load16 {
                into: MutableData16::IndirectValue16(imm16),
                from: Data16::Mutable(MutableData16::Register16(Register16::SP)),
            },
        }
    } else if b0 == 0x18 && avail >= 2 {
        Instruction { size: 2, cycles: 3, op: Op::JumpRelative { amount: b1 as i8 } }
    } else if b0 == 0x28 && avail >= 2 {
        Instruction {
            size: 2,
            cycles: 2,
            op: Op::JumpRelativeIf { condition: Flag::Zero, amount: b1 as i8 },
        }
    } else if b0 == 0x38 && avail >= 2 {
        Instruction {
            size: 2,
            cycles: 2,
            op: Op::JumpRelativeIf { condition: Flag::Carry, amount: b1 as i8 },
        }
    } else if b0 == 0x09 {
        Instruction {
            size: 1,
            cycles: 2,
            op: Op::Add16 {
                into: MutableData16::Register16(Register16::HL),
                from: Data16::Mutable(MutableData16::Register16(Register16::BC)),
            },
        }
    } else if b0 == 0x19 {
        Instruction {
            size: 1,
            cycles: 2,
            op: Op::Add16 {
                into: MutableData16::Register16(Register16::HL),
                from: Data16::Mutable(MutableData16::Register16(Register16::DE)),
            },
        }
    } else if b0 == 0x29 {
        Instruction {
            size: 1,
            cycles: 2,
            op: Op::Add16 {
                into: MutableData16::Register16(Register16::HL),
                from: Data16::Mutable(MutableData16::Register16(Register16::HL)),
            },
        }
    } else if b0 == 0x39 {
        Instruction {
            size: 1,
            cycles: 2,
            op: Op::Add16 {
                into: MutableData16::Register16(Register16::HL),
                from: Data16::Mutable(MutableData16::Register16(Register16::SP)),
            },
        }
    } else if b0 == 0x0A {
        Instruction {
            size: 1,
            cycles: 2,
            op: Op::Load8 {
                into: MutableData8::Register8(Register8::A),
                from: Data8::Mutable(MutableData8::IndirectRegister16(Register16::BC)),
            },
        }
    } else if b0 == 0x1A {
        Instruction {
            size: 1,
            cycles: 2,
            op: Op::Load8 {
                into: MutableData8::Register8(Register8::A),
                from: Data8::Mutable(MutableData8::IndirectRegister16(Register16::DE)),
            },
        }
    } else if b0 == 0x2A {
        Instruction {
            size: 1,
            cycles: 2,
            op: Op::Load8 {
                into: MutableData8::Register8(Register8::A),
                from: Data8::Mutable(MutableData8::IndirectRegister16Inc(Register16::HL)),
            },
        }
    } else if b0 == 0x3A {
        Instruction {
            size: 1,
            cycles: 2,
            op: Op::Load8 {
                into: MutableData8::Register8(Register8::A),
                from: Data8::Mutable(MutableData8::IndirectRegister16Dec(Register16::HL)),
            },
        }
    } else if b0 == 0x0B {
        Instruction {
            size: 1,
            cycles: 2,
            op: Op::Dec16 { into: MutableData16::Register16(Register16::BC) },
        }
    } else if b0 == 0x1B {
        Instruction {
            size: 1,
            cycles: 2,
            op: Op::Dec16 { into: MutableData16::Register16(Register16::DE) },
        }
    } else if b0 == 0x2B {
        Instruction {
            size: 1,
            cycles: 2,
            op: Op::Dec16 { into: MutableData16::Register16(Register16::HL) },
        }
    } else if b0 == 0x3B {
        Instruction {
            size: 1,
            cycles: 2,
            op: Op::Dec16 { into: MutableData16::Register16(Register16::SP) },
        }
    } else if b0 == 0x0C {
        Instruction {
            size: 1,
            cycles: 1,
            op: Op::Inc8 { into: MutableData8::Register8(Register8::C) },
        }
    } else if b0 == 0x1C {
        Instruction {
            size: 1,
            cycles: 1,
            op: Op::Inc8 { into: MutableData8::Register8(Register8::E) },
        }
    } else if b0 == 0x2C {
        Instruction {
            size: 1,
            cycles: 1,
            op: Op::Inc8 { into: MutableData8::Register8(Register8::L) },
        }
    } else if b0 == 0x3C {
        Instruction {
            size: 1,
            cycles: 1,
            op: Op::Inc8 { into: MutableData8::Register8(Register8::A) },
        }
    } else if b0 == 0x0D {
        Instruction {
            size: 1,
            cycles: 1,
            op: Op::Dec8 { into: MutableData8::Register8(Register8::C) },
        }
    } else if b0 == 0x1D {
        Instruction {
            size: 1,
            cycles: 1,
            op: Op::Dec8 { into: MutableData8::Register8(Register8::E) },
        }
    } else if b0 == 0x2D {
        Instruction {
            size: 1,
            cycles: 1,
            op: Op::Dec8 { into: MutableData8::Register8(Register8::L) },
        }
    } else if b0 == 0x3D {
        Instruction {
            size: 1,
            cycles: 1,
            op: Op::Dec8 { into: MutableData8::Register8(Register8::A) },
        }
    } else if b0 == 0x0E && avail >= 2 {
        Instruction {
            size: 2,
            cycles: 2,
            op: Op::Load8 {
                into: MutableData8::Register8(Register8::C),
                from: Data8::Immutable(b1),
            },
        }
    } else if b0 == 0x1E && avail >= 2 {
        Instruction {
            size: 2,
            cycles: 2,
            op: Op::Load8 {
                into: MutableData8::Register8(Register8::E),
                from: Data8::Immutable(b1),
            },
        }
    } else if b0 == 0x2E && avail >= 2 {
        Instruction {
            size: 2,
            cycles: 2,
            op: Op::Load8 {
                into: MutableData8::Register8(Register8::L),
                from: Data8::Immutable(b1),
            },
        }
    } else if b0 == 0x3E && avail >= 2 {
        Instruction {
            size: 2,
            cycles: 2,
            op: Op::Load8 {
                into: MutableData8::Register8(Register8::A),
                from: Data8::Immutable(b1),
            },
        }
    } else if b0 == 0x0F {
        Instruction {
            size: 1,
            cycles: 1,
            op: Op::RorCarry { into: MutableData8::Register8(Register8::A) },
        }
    } else if b0 == 0x1F {
        Instruction {
            size: 1,
            cycles: 1,
            op: Op::Ror { into: MutableData8::Register8(Register8::A) },
        }
    } else if b0 == 0xC1 {
        Instruction {
            size: 1,
            cycles: 3,
            op: Op::Pop { into: MutableData16::Register16(Register16::BC) },
        }
    } else if b0 == 0xD1 {
        Instruction {
            size: 1,
            cycles: 3,
            op: Op::Pop { into: MutableData16::Register16(Register16::DE) },
        }
    } else if b0 == 0xE1 {
        Instruction {
            size: 1,
            cycles: 3,
            op: Op::Pop { into: MutableData16::Register16(Register16::HL) },
        }
    } else if b0 == 0xF1 {
        Instruction {
            size: 1,
            cycles: 3,
            op: Op::Pop { into: MutableData16::Register16(Register16::AF) },
        }
    } else if b0 == 0xC5 {
        Instruction {
            size: 1,
            cycles: 4,
            op: Op::Push { from: Data16::Mutable(MutableData16::Register16(Register16::BC)) },
        }
    } else if b0 == 0xD5 {
        Instruction {
            size: 1,
            cycles: 4,
            op: Op::Push { from: Data16::Mutable(MutableData16::Register16(Register16::DE)) },
        }
    } else if b0 == 0xE5 {
        Instruction {
            size: 1,
            cycles: 4,
            op: Op::Push { from: Data16::Mutable(MutableData16::Register16(Register16::HL)) },
        }
    } else if b0 == 0xF5 {
        Instruction {
            size: 1,
            cycles: 4,
            op: Op::Push { from: Data16::Mutable(MutableData16::Register16(Register16::AF)) },
        }
    } else if b0 == 0xC9 {
        Instruction { size: 1, cycles: 4, op: Op::Return }
    } else if b0 == 0xCC && avail >= 3 {
        Instruction {
            size: 3,
            cycles: 6,
            op: Op::CallIf { condition: Flag::Zero, address: Data16::Immutable(imm16) },
        }
    } else if b0 == 0xDC && avail >= 3 {
        Instruction {
            size: 3,
            cycles: 6,
            op: Op::CallIf { condition: Flag::Carry, address: Data16::Immutable(imm16) },
        }
    } else if b0 == 0xCD && avail >= 3 {
        Instruction { size: 3, cycles: 6, op: Op::Call { address: Data16::Immutable(imm16) } }
    } else if b0 == 0xE0 && avail >= 2 {
        Instruction {
            size: 2,
            cycles: 3,
            op: Op::Load8 {
                into: MutableData8::IndirectValue8(b1),
                from: Data8::Mutable(MutableData8::Register8(Register8::A)),
            },
        }
    } else if b0 == 0xF0 && avail >= 2 {
        Instruction {
            size: 2,
            cycles: 3,
            op: Op::Load8 {
                into: MutableData8::Register8(Register8::A),
                from: Data8::Mutable(MutableData8::IndirectValue8(b1)),
            },
        }
    } else if b0 == 0xE2 {
        Instruction {
            size: 1,
            cycles: 2,
            op: Op::Load8 {
                into: MutableData8::IndirectRegister8(Register8::C),
                from: Data8::Mutable(MutableData8::Register8(Register8::A)),
            },
        }
    } else if b0 == 0xF2 {
        Instruction {
            size: 1,
            cycles: 2,
            op: Op::Load8 {
                into: MutableData8::Register8(Register8::A),
                from: Data8::Mutable(MutableData8::IndirectRegister8(Register8::C)),
            },
        }
    } else if b0 == 0xEA && avail >= 3 {
        Instruction {
            size: 3,
            cycles: 4,
            op: Op::Load8 {
                into: MutableData8::IndirectValue16(imm16),
                from: Data8::Mutable(MutableData8::Register8(Register8::A)),
            },
        }
    } else if b0 == 0xFA && avail >= 3 {
        Instruction {
            size: 3,
            cycles: 4,
            op: Op::Load8 {
                into: MutableData8::Register8(Register8::A),
                from: Data8::Mutable(MutableData8::IndirectValue16(imm16)),
            },
        }
    } else if b0 == 0xFE && avail >= 2 {
        Instruction {
            size: 2,
            cycles: 2,
            op: Op::Compare {
                into: Data8::Mutable(MutableData8::Register8(Register8::A)),
                from: Data8::Immutable(b1),
            },
        }
    } else {
        spec_unimplemented(b0)
    }
}

/// Decode of a window summarised as its first three bytes plus how many
/// of them are really there (`avail`, at most 3).
pub open spec fn spec_decode3(b0: u8, b1: u8, b2: u8, avail: int) -> Instruction {
    if avail < 1 {
        spec_unimplemented(0)
    } else if 0x40 <= b0 && b0 <= 0x7F {
        spec_decode_load_block(b0)
    } else if 0x80 <= b0 && b0 <= 0xBF {
        spec_decode_alu_block(b0)
    } else if b0 == 0xCB {
        if avail >= 2 {
            spec_decode_extended(b1)
        } else {
            spec_unimplemented(0xCB)
        }
    } else {
        spec_decode_misc(b0, b1, b2, avail)
    }
}

/// Decode of a byte window. No instruction is longer than three bytes,
/// so only the window's first three bytes matter.
pub open spec fn spec_decode(w: Seq<u8>) -> Instruction {
    spec_decode3(
        if w.len() >= 1 { w[0] } else { 0 },
        if w.len() >= 2 { w[1] } else { 0 },
        if w.len() >= 3 { w[2] } else { 0 },
        if w.len() >= 3 { 3 } else { w.len() as int },
    )
}

/// The 8-bit operand a three-bit field selects.
fn operand_from_bits(bits: u8) -> (d: MutableData8)
    requires
        bits < 8,
    ensures
        d == spec_operand_from_bits(bits),
{
    if bits == 0 {
        MutableData8::Register8(Register8::B)
    } else if bits == 1 {
        MutableData8::Register8(Register8::C)
    } else if bits == 2 {
        MutableData8::Register8(Register8::D)
    } else if bits == 3 {
        MutableData8::Register8(Register8::E)
    } else if bits == 4 {
        MutableData8::Register8(Register8::H)
    } else if bits == 5 {
        MutableData8::Register8(Register8::L)
    } else if bits == 6 {
        MutableData8::IndirectRegister16(Register16::HL)
    } else {
        MutableData8::Register8(Register8::A)
    }
}

/// Decode of the 0x40..=0x7F register-to-register load block.
fn decode_load_block(b: u8) -> (i: Instruction)
    requires
        0x40 <= b <= 0x7F,
    ensures
        i == spec_decode_load_block(b),
{
    if b == 0x76 {
        Instruction { size: 1, cycles: 4, op: Op::Halt }
    } else {
        let src = b & 0x07;
        let dst = (b >> 3) & 0x07;
        proof {
            assert(b & 0x07 < 8 && (b >> 3) & 0x07 < 8) by (bit_vector);
        }
        let cycles: u8 = if src == 6 || dst == 6 { 8 } else { 4 };
        Instruction {
            size: 1,
            cycles,
            op: Op::Load8 {
                into: operand_from_bits(dst),
                from: Data8::Mutable(operand_from_bits(src)),
            },
        }
    }
}

/// Decode of the 0x80..=0xBF accumulator ALU block.
fn decode_alu_block(b: u8) -> (i: Instruction)
    requires
        0x80 <= b <= 0xBF,
    ensures
        i == spec_decode_alu_block(b),
{
    let src = b & 0x07;
    let sel = (b - 0x80) >> 3;
    proof {
        assert(b & 0x07 < 8) by (bit_vector);
        assert(0x80 <= b <= 0xBF ==> (((b - 0x80) as u8) >> 3) < 8) by (bit_vector);
    }
    let from = Data8::Mutable(operand_from_bits(src));
    let a = MutableData8::Register8(Register8::A);
    let cycles: u8 = if src == 6 { 8 } else { 4 };
    let op = if sel == 0 {
        Op::Add { into: a, from }
    } else if sel == 1 {
        Op::AddCarry { into: a, from }
    } else if sel == 2 {
        Op::Sub { into: a, from }
    } else if sel == 3 {
        Op::SubCarry { into: a, from }
    } else if sel == 4 {
        Op::And { into: a, from }
    } else if sel == 5 {
        Op::Xor { into: a, from }
    } else if sel == 6 {
        Op::Or { into: a, from }
    } else {
        Op::Compare { into: Data8::Mutable(a), from }
    };
    Instruction { size: 1, cycles, op }
}

impl Instruction {
    /// Decode of the byte after a 0xCB prefix: the extended rotate,
    /// shift, swap and bit-test/reset/set space.
    pub fn extended_instruction_from_opcode(opcode: u8) -> (i: Instruction)
        ensures
            i == spec_decode_extended(opcode),
            i.wf(),
    {
        let low = opcode & 0x07;
        let sel = opcode >> 3;
        proof {
            assert(opcode & 0x07 < 8 && opcode >> 3 < 32) by (bit_vector);
        }
        let dst = operand_from_bits(low);
        let cycles: u8 = if low == 6 { 16 } else { 8 };
        let op = if sel == 0 {
            Op::RolCarry { into: dst }
        } else if sel == 1 {
            Op::RorCarry { into: dst }
        } else if sel == 2 {
            Op::Rol { into: dst }
        } else if sel == 3 {
            Op::Ror { into: dst }
        } else if sel == 4 {
            Op::ShiftLeftAccumulator { into: dst }
        } else if sel == 5 {
            Op::ShiftRightAccumulator { into: dst }
        } else if sel == 6 {
            Op::Swap { into: dst }
        } else if sel == 7 {
            Op::ShiftRightLogical { into: dst }
        } else if sel <= 15 {
            Op::Bit { into: Data8::Mutable(dst), bit: sel - 8 }
        } else if sel <= 23 {
            Op::Reset { into: dst, bit: sel - 16 }
        } else {
            Op::SetBit { into: dst, bit: sel - 24 }
        };
        Instruction { size: 2, cycles, op }
    }

    /// Decode the instruction at `addr` inside `data`. Total: a byte
    /// pattern with no defined instruction, or one whose operand bytes
    /// run past the window, yields `Unimplemented` with size 0 and
    /// cycles 0 rather than a failure, so callers can report the
    /// offending address before attempting execution.
    pub fn from_bytes(addr: usize, data: &[u8]) -> (r: Option<Instruction>)
        requires
            addr <= data@.len(),
        ensures
            r == Some(spec_decode(data@.skip(addr as int))),
            r matches Some(i) && i.wf(),
    {
        let n = data.len();
        let avail: usize = if n - addr >= 3 { 3 } else { n - addr };
        let b0 = if avail >= 1 { data[addr] } else { 0 };
        let b1 = if avail >= 2 { data[addr + 1] } else { 0 };
        let b2 = if avail >= 3 { data[addr + 2] } else { 0 };
        proof {
            let w = data@.skip(addr as int);
            assert(w.len() == data@.len() - addr);
            assert(w.len() >= 1 ==> w[0] == data@[addr as int]);
            assert(w.len() >= 2 ==> w[1] == data@[addr as int + 1]);
            assert(w.len() >= 3 ==> w[2] == data@[addr as int + 2]);
        }
        let i = if avail < 1 {
            Instruction { op: Op::Unimplemented(0), cycles: 0, size: 0 }
        } else if 0x40 <= b0 && b0 <= 0x7F {
            decode_load_block(b0)
        } else if 0x80 <= b0 && b0 <= 0xBF {
            decode_alu_block(b0)
        } else if b0 == 0xCB {
            if avail >= 2 {
                Instruction::extended_instruction_from_opcode(b1)
            } else {
                Instruction { op: Op::Unimplemented(0xCB), cycles: 0, size: 0 }
            }
        } else {
            decode_misc(b0, b1, b2, avail)
        };
        Some(i)
    }
}

/// Decode of the literal-matched opcodes.
fn decode_misc(b0: u8, b1: u8, b2: u8, avail: usize) -> (i: Instruction)
    requires
        avail >= 1,
        !(0x40 <= b0 <= 0xBF),
        b0 != 0xCB,
    ensures
        i == spec_decode_misc(b0, b1, b2, avail as int),
        i.wf(),
{
    let imm16 = crate::cpu::join_u8(b1, b2);
    if b0 == 0x00 {
        Instruction { size: 1, cycles: 4, op: Op::Nop }
    } else if b0 == 0x10 {
        Instruction { size: 2, cycles: 1, op: Op::Stop }
    } else if b0 == 0x20 && avail >= 2 {
        Instruction {
            size: 2,
            cycles: 1,
            op: Op::JumpRelativeIf { condition: Flag::NotZero, amount: b1 as i8 },
        }
    } else if b0 == 0x30 && avail >= 2 {
        Instruction {
            size: 2,
            cycles: 1,
            op: Op::JumpRelativeIf { condition: Flag::NotCarry, amount: b1 as i8 },
        }
    } else if b0 == 0x01 && avail >= 3 {
        Instruction {
            size: 3,
            cycles: 3,
            op: Op::Load16 {
                into: MutableData16::Register16(Register16::BC),
                from: Data16::Immutable(imm16),
            },
        }
    } else if b0 == 0x11 && avail >= 3 {
        Instruction {
            size: 3,
            cycles: 3,
            op: Op::Load16 {
                into: MutableData16::Register16(Register16::DE),
                from: Data16::Immutable(imm16),
            },
        }
    } else if b0 == 0x21 && avail >= 3 {
        Instruction {
            size: 3,
            cycles: 3,
            op: Op::Load16 {
                into: MutableData16::Register16(Register16::HL),
                from: Data16::Immutable(imm16),
            },
        }
    } else if b0 == 0x31 && avail >= 3 {
        Instruction {
            size: 3,
            cycles: 3,
            op: Op::Load16 {
                into: MutableData16::Register16(Register16::SP),
                from: Data16::Immutable(imm16),
            },
        }
    } else if b0 == 0x02 {
        Instruction {
            size: 1,
            cycles: 2,
            op: Op::Load8 {
                into: MutableData8::IndirectRegister16(Register16::BC),
                from: Data8::Mutable(MutableData8::Register8(Register8::A)),
            },
        }
    } else if b0 == 0x12 {
        Instruction {
            size: 1,
            cycles: 2,
            op: Op::Load8 {
                into: MutableData8::IndirectRegister16(Register16::DE),
                from: Data8::Mutable(MutableData8::Register8(Register8::A)),
            },
        }
    } else if b0 == 0x22 {
        Instruction {
            size: 1,
            cycles: 2,
            op: Op::Load8 {
                into: MutableData8::IndirectRegister16Inc(Register16::HL),
                from: Data8::Mutable(MutableData8::Register8(Register8::A)),
            },
        }
    } else if b0 == 0x32 {
        Instruction {
            size: 1,
            cycles: 2,
            op: Op::Load8 {
                into: MutableData8::IndirectRegister16Dec(Register16::HL),
                from: Data8::Mutable(MutableData8::Register8(Register8::A)),
            },
        }
    } else if b0 == 0x03 {
        Instruction {
            size: 1,
            cycles: 8,
            op: Op::Inc16 { into: MutableData16::Register16(Register16::BC) },
        }
    } else if b0 == 0x13 {
        Instruction {
            size: 1,
            cycles: 8,
            op: Op::Inc16 { into: MutableData16::Register16(Register16::DE) },
        }
    } else if b0 == 0x23 {
        Instruction {
            size: 1,
            cycles: 8,
            op: Op::Inc16 { into: MutableData16::Register16(Register16::HL) },
        }
    } else if b0 == 0x33 {
        Instruction {
            size: 1,
            cycles: 8,
            op: Op::Inc16 { into: MutableData16::Register16(Register16::SP) },
        }
    } else if b0 == 0x04 {
        Instruction {
            size: 1,
            cycles: 1,
            op: Op::Inc8 { into: MutableData8::Register8(Register8::B) },
        }
    } else if b0 == 0x14 {
        Instruction {
            size: 1,
            cycles: 1,
            op: Op::Inc8 { into: MutableData8::Register8(Register8::D) },
        }
    } else if b0 == 0x24 {
        Instruction {
            size: 1,
            cycles: 1,
            op: Op::Inc8 { into: MutableData8::Register8(Register8::H) },
        }
    } else if b0 == 0x34 {
        Instruction {
            size: 1,
            cycles: 3,
            op: Op::Inc8 { into: MutableData8::IndirectRegister16(Register16::HL) },
        }
    } else if b0 == 0x05 {
        Instruction {
            size: 1,
            cycles: 1,
            op: Op::Dec8 { into: MutableData8::Register8(Register8::B) },
        }
    } else if b0 == 0x15 {
        Instruction {
            size: 1,
            cycles: 1,
            op: Op::Dec8 { into: MutableData8::Register8(Register8::D) },
        }
    } else if b0 == 0x25 {
        Instruction {
            size: 1,
            cycles: 1,
            op: Op::Dec8 { into: MutableData8::Register8(Register8::H) },
        }
    } else if b0 == 0x35 {
        Instruction {
            size: 1,
            cycles: 3,
            op: Op::Dec8 { into: MutableData8::IndirectRegister16(Register16::HL) },
        }
    } else if b0 == 0x06 && avail >= 2 {
        Instruction {
            size: 2,
            cycles: 2,
            op: Op::Load8 {
                into: MutableData8::Register8(Register8::B),
                from: Data8::Immutable(b1),
            },
        }
    } else if b0 == 0x16 && avail >= 2 {
        Instruction {
            size: 2,
            cycles: 2,
            op: Op::Load8 {
                into: MutableData8::Register8(Register8::D),
                from: Data8::Immutable(b1),
            },
        }
    } else if b0 == 0x26 && avail >= 2 {
        Instruction {
            size: 2,
            cycles: 2,
            op: Op::Load8 {
                into: MutableData8::Register8(Register8::H),
                from: Data8::Immutable(b1),
            },
        }
    } else if b0 == 0x36 && avail >= 2 {
        Instruction {
            size: 2,
            cycles: 3,
            op: Op::Load8 {
                into: MutableData8::IndirectRegister16(Register16::HL),
                from: Data8::Immutable(b1),
            },
        }
    } else if b0 == 0x07 {
        Instruction {
            size: 1,
            cycles: 1,
            op: Op::RolCarry { into: MutableData8::Register8(Register8::A) },
        }
    } else if b0 == 0x17 {
        Instruction {
            size: 1,
            cycles: 1,
            op: Op::Rol { into: MutableData8::Register8(Register8::A) },
        }
    } else if b0 == 0x08 && avail >= 3 {
        Instruction {
            size: 3,
            cycles: 5,
            op: Op::Load16 {
                into: MutableData16::IndirectValue16(imm16),
                from: Data16::Mutable(MutableData16::Register16(Register16::SP)),
            },
        }
    } else if b0 == 0x18 && avail >= 2 {
        Instruction { size: 2, cycles: 3, op: Op::JumpRelative { amount: b1 as i8 } }
    } else if b0 == 0x28 && avail >= 2 {
        Instruction {
            size: 2,
            cycles: 2,
            op: Op::JumpRelativeIf { condition: Flag::Zero, amount: b1 as i8 },
        }
    } else if b0 == 0x38 && avail >= 2 {
        Instruction {
            size: 2,
            cycles: 2,
            op: Op::JumpRelativeIf { condition: Flag::Carry, amount: b1 as i8 },
        }
    } else if b0 == 0x09 {
        Instruction {
            size: 1,
            cycles: 2,
            op: Op::Add16 {
                into: MutableData16::Register16(Register16::HL),
                from: Data16::Mutable(MutableData16::Register16(Register16::BC)),
            },
        }
    } else if b0 == 0x19 {
        Instruction {
            size: 1,
            cycles: 2,
            op: Op::Add16 {
                into: MutableData16::Register16(Register16::HL),
                from: Data16::Mutable(MutableData16::Register16(Register16::DE)),
            },
        }
    } else if b0 == 0x29 {
        Instruction {
            size: 1,
            cycles: 2,
            op: Op::Add16 {
                into: MutableData16::Register16(Register16::HL),
                from: Data16::Mutable(MutableData16::Register16(Register16::HL)),
            },
        }
    } else if b0 == 0x39 {
        Instruction {
            size: 1,
            cycles: 2,
            op: Op::Add16 {
                into: MutableData16::Register16(Register16::HL),
                from: Data16::Mutable(MutableData16::Register16(Register16::SP)),
            },
        }
    } else if b0 == 0x0A {
        Instruction {
            size: 1,
            cycles: 2,
            op: Op::Load8 {
                into: MutableData8::Register8(Register8::A),
                from: Data8::Mutable(MutableData8::IndirectRegister16(Register16::BC)),
            },
        }
    } else if b0 == 0x1A {
        Instruction {
            size: 1,
            cycles: 2,
            op: Op::Load8 {
                into: MutableData8::Register8(Register8::A),
                from: Data8::Mutable(MutableData8::IndirectRegister16(Register16::DE)),
            },
        }
    } else if b0 == 0x2A {
        Instruction {
            size: 1,
            cycles: 2,
            op: Op::Load8 {
                into: MutableData8::Register8(Register8::A),
                from: Data8::Mutable(MutableData8::IndirectRegister16Inc(Register16::HL)),
            },
        }
    } else if b0 == 0x3A {
        Instruction {
            size: 1,
            cycles: 2,
            op: Op::Load8 {
                into: MutableData8::Register8(Register8::A),
                from: Data8::Mutable(MutableData8::IndirectRegister16Dec(Register16::HL)),
            },
        }
    } else if b0 == 0x0B {
        Instruction {
            size: 1,
            cycles: 2,
            op: Op::Dec16 { into: MutableData16::Register16(Register16::BC) },
        }
    } else if b0 == 0x1B {
        Instruction {
            size: 1,
            cycles: 2,
            op: Op::Dec16 { into: MutableData16::Register16(Register16::DE) },
        }
    } else if b0 == 0x2B {
        Instruction {
            size: 1,
            cycles: 2,
            op: Op::Dec16 { into: MutableData16::Register16(Register16::HL) },
        }
    } else if b0 == 0x3B {
        Instruction {
            size: 1,
            cycles: 2,
            op: Op::Dec16 { into: MutableData16::Register16(Register16::SP) },
        }
    } else if b0 == 0x0C {
        Instruction {
            size: 1,
            cycles: 1,
            op: Op::Inc8 { into: MutableData8::Register8(Register8::C) },
        }
    } else if b0 == 0x1C {
        Instruction {
            size: 1,
            cycles: 1,
            op: Op::Inc8 { into: MutableData8::Register8(Register8::E) },
        }
    } else if b0 == 0x2C {
        Instruction {
            size: 1,
            cycles: 1,
            op: Op::Inc8 { into: MutableData8::Register8(Register8::L) },
        }
    } else if b0 == 0x3C {
        Instruction {
            size: 1,
            cycles: 1,
            op: Op::Inc8 { into: MutableData8::Register8(Register8::A) },
        }
    } else if b0 == 0x0D {
        Instruction {
            size: 1,
            cycles: 1,
            op: Op::Dec8 { into: MutableData8::Register8(Register8::C) },
        }
    } else if b0 == 0x1D {
        Instruction {
            size: 1,
            cycles: 1,
            op: Op::Dec8 { into: MutableData8::Register8(Register8::E) },
        }
    } else if b0 == 0x2D {
        Instruction {
            size: 1,
            cycles: 1,
            op: Op::Dec8 { into: MutableData8::Register8(Register8::L) },
        }
    } else if b0 == 0x3D {
        Instruction {
            size: 1,
            cycles: 1,
            op: Op::Dec8 { into: MutableData8::Register8(Register8::A) },
        }
    } else if b0 == 0x0E && avail >= 2 {
        Instruction {
            size: 2,
            cycles: 2,
            op: Op::Load8 {
                into: MutableData8::Register8(Register8::C),
                from: Data8::Immutable(b1),
            },
        }
    } else if b0 == 0x1E && avail >= 2 {
        Instruction {
            size: 2,
            cycles: 2,
            op: Op::Load8 {
                into: MutableData8::Register8(Register8::E),
                from: Data8::Immutable(b1),
            },
        }
    } else if b0 == 0x2E && avail >= 2 {
        Instruction {
            size: 2,
            cycles: 2,
            op: Op::Load8 {
                into: MutableData8::Register8(Register8::L),
                from: Data8::Immutable(b1),
            },
        }
    } else if b0 == 0x3E && avail >= 2 {
        Instruction {
            size: 2,
            cycles: 2,
            op: Op::Load8 {
                into: MutableData8::Register8(Register8::A),
                from: Data8::Immutable(b1),
            },
        }
    } else if b0 == 0x0F {
        Instruction {
            size: 1,
            cycles: 1,
            op: Op::RorCarry { into: MutableData8::Register8(Register8::A) },
        }
    } else if b0 == 0x1F {
        Instruction {
            size: 1,
            cycles: 1,
            op: Op::Ror { into: MutableData8::Register8(Register8::A) },
        }
    } else if b0 == 0xC1 {
        Instruction {
            size: 1,
            cycles: 3,
            op: Op::Pop { into: MutableData16::Register16(Register16::BC) },
        }
    } else if b0 == 0xD1 {
        Instruction {
            size: 1,
            cycles: 3,
            op: Op::Pop { into: MutableData16::Register16(Register16::DE) },
        }
    } else if b0 == 0xE1 {
        Instruction {
            size: 1,
            cycles: 3,
            op: Op::Pop { into: MutableData16::Register16(Register16::HL) },
        }
    } else if b0 == 0xF1 {
        Instruction {
            size: 1,
            cycles: 3,
            op: Op::Pop { into: MutableData16::Register16(Register16::AF) },
        }
    } else if b0 == 0xC5 {
        Instruction {
            size: 1,
            cycles: 4,
            op: Op::Push { from: Data16::Mutable(MutableData16::Register16(Register16::BC)) },
        }
    } else if b0 == 0xD5 {
        Instruction {
            size: 1,
            cycles: 4,
            op: Op::Push { from: Data16::Mutable(MutableData16::Register16(Register16::DE)) },
        }
    } else if b0 == 0xE5 {
        Instruction {
            size: 1,
            cycles: 4,
            op: Op::Push { from: Data16::Mutable(MutableData16::Register16(Register16::HL)) },
        }
    } else if b0 == 0xF5 {
        Instruction {
            size: 1,
            cycles: 4,
            op: Op::Push { from: Data16::Mutable(MutableData16::Register16(Register16::AF)) },
        }
    } else if b0 == 0xC9 {
        Instruction { size: 1, cycles: 4, op: Op::Return }
    } else if b0 == 0xCC && avail >= 3 {
        Instruction {
            size: 3,
            cycles: 6,
            op: Op::CallIf { condition: Flag::Zero, address: Data16::Immutable(imm16) },
        }
    } else if b0 == 0xDC && avail >= 3 {
        Instruction {
            size: 3,
            cycles: 6,
            op: Op::CallIf { condition: Flag::Carry, address: Data16::Immutable(imm16) },
        }
    } else if b0 == 0xCD && avail >= 3 {
        Instruction { size: 3, cycles: 6, op: Op::Call { address: Data16::Immutable(imm16) } }
    } else if b0 == 0xE0 && avail >= 2 {
        Instruction {
            size: 2,
            cycles: 3,
            op: Op::Load8 {
                into: MutableData8::IndirectValue8(b1),
                from: Data8::Mutable(MutableData8::Register8(Register8::A)),
            },
        }
    } else if b0 == 0xF0 && avail >= 2 {
        Instruction {
            size: 2,
            cycles: 3,
            op: Op::Load8 {
                into: MutableData8::Register8(Register8::A),
                from: Data8::Mutable(MutableData8::IndirectValue8(b1)),
            },
        }
    } else if b0 == 0xE2 {
        Instruction {
            size: 1,
            cycles: 2,
            op: Op::Load8 {
                into: MutableData8::IndirectRegister8(Register8::C),
                from: Data8::Mutable(MutableData8::Register8(Register8::A)),
            },
        }
    } else if b0 == 0xF2 {
        Instruction {
            size: 1,
            cycles: 2,
            op: Op::Load8 {
                into: MutableData8::Register8(Register8::A),
                from: Data8::Mutable(MutableData8::IndirectRegister8(Register8::C)),
            },
        }
    } else if b0 == 0xEA && avail >= 3 {
        Instruction {
            size: 3,
            cycles: 4,
            op: Op::Load8 {
                into: MutableData8::IndirectValue16(imm16),
                from: Data8::Mutable(MutableData8::Register8(Register8::A)),
            },
        }
    } else if b0 == 0xFA && avail >= 3 {
        Instruction {
            size: 3,
            cycles: 4,
            op: Op::Load8 {
                into: MutableData8::Register8(Register8::A),
                from: Data8::Mutable(MutableData8::IndirectValue16(imm16)),
            },
        }
    } else if b0 == 0xFE && avail >= 2 {
        Instruction {
            size: 2,
            cycles: 2,
            op: Op::Compare {
                into: Data8::Mutable(MutableData8::Register8(Register8::A)),
                from: Data8::Immutable(b1),
            },
        }
    } else {
        Instruction { op: Op::Unimplemented(b0), cycles: 0, size: 0 }
    }
}

} // verus!
