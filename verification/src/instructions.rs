//! Operand model and instruction type.
//!
//! Operands are data, not control flow: decoding produces tagged
//! descriptors saying where an instruction's value comes from and goes
//! to, and execution later interprets them against the register file and
//! memory. The mutable operand sets exclude immediates, so a write to an
//! immediate is unrepresentable by construction.

use vstd::prelude::*;

use crate::cpu::{Register16, Register8, Registers};
use crate::memory::Memory;

verus! {

/// A writable 8-bit location: a register, or memory reached through a
/// register pair (plain, post-increment or post-decrement), through the
/// high page (0xFF00 + offset from an immediate or from register C), or
/// through an absolute address.
#[derive(Clone, Copy, Debug, PartialEq, Eq, Structural)]
pub enum MutableData8 {
    Register8(Register8),
    IndirectRegister16(Register16),
    IndirectRegister16Inc(Register16),
    IndirectRegister16Dec(Register16),
    IndirectRegister8(Register8),
    IndirectValue8(u8),
    IndirectValue16(u16),
}

/// A readable 8-bit operand: an immediate, or any writable location.
#[derive(Clone, Copy, Debug, PartialEq, Eq, Structural)]
pub enum Data8 {
    Immutable(u8),
    Mutable(MutableData8),
}

/// A writable 16-bit location: a register pair or an absolute address.
#[derive(Clone, Copy, Debug, PartialEq, Eq, Structural)]
pub enum MutableData16 {
    Register16(Register16),
    IndirectValue16(u16),
}

/// A readable 16-bit operand: an immediate, or any writable location.
#[derive(Clone, Copy, Debug, PartialEq, Eq, Structural)]
pub enum Data16 {
    Immutable(u16),
    Mutable(MutableData16),
}

impl MutableData8 {
    /// The memory address an indirect operand resolves to, from the
    /// current register file; a direct register operand has none and
    /// resolves to an arbitrary address here.
    pub open spec fn spec_addr(self, r: Registers) -> u16 {
        match self {
            MutableData8::Register8(_) => arbitrary(),
            MutableData8::IndirectRegister16(p) => r.spec_get16(p),
            MutableData8::IndirectRegister16Inc(p) => r.spec_get16(p),
            MutableData8::IndirectRegister16Dec(p) => r.spec_get16(p),
            MutableData8::IndirectRegister8(reg) => (0xFF00 + r.spec_get8(reg)) as u16,
            MutableData8::IndirectValue8(off) => (0xFF00 + off) as u16,
            MutableData8::IndirectValue16(addr) => addr,
        }
    }

    /// The value read from the operand. A post-increment or
    /// post-decrement operand reads through the old pair value.
    pub open spec fn spec_read_val(self, r: Registers, m: Seq<u8>) -> u8 {
        match self {
            MutableData8::Register8(reg) => r.spec_get8(reg),
            _ => m[self.spec_addr(r) as int],
        }
    }

    /// The register file after the operand's resolution side effect: a
    /// post-increment or post-decrement operand steps its pair, wrapping
    /// modulo 65536; every other operand leaves the registers alone.
    pub open spec fn spec_touch_regs(self, r: Registers) -> Registers {
        match self {
            MutableData8::IndirectRegister16Inc(p) => r.spec_set16(
                p,
                vstd::wrapping::u16_specs::wrapping_add(r.spec_get16(p), 1),
            ),
            MutableData8::IndirectRegister16Dec(p) => r.spec_set16(
                p,
                vstd::wrapping::u16_specs::wrapping_sub(r.spec_get16(p), 1),
            ),
            _ => r,
        }
    }

    /// The register file after a write to the operand: a direct register
    /// operand takes the value; an indirect one only has its resolution
    /// side effect.
    pub open spec fn spec_write_regs(self, v: u8, r: Registers) -> Registers {
        match self {
            MutableData8::Register8(reg) => r.spec_set8(reg, v),
            _ => self.spec_touch_regs(r),
        }
    }

    /// Memory after a write to the operand: an indirect operand stores
    /// the value at its address; a direct register leaves memory alone.
    pub open spec fn spec_write_mem(self, v: u8, r: Registers, m: Seq<u8>) -> Seq<u8> {
        match self {
            MutableData8::Register8(_) => m,
            _ => m.update(self.spec_addr(r) as int, v),
        }
    }

    /// Read the operand, applying its resolution side effect.
    pub fn get(&self, state: &mut Registers, memory: &Memory) -> (v: u8)
        requires
            memory.wf(),
        ensures
            v == self.spec_read_val(*old(state), memory@),
            *final(state) == self.spec_touch_regs(*old(state)),
            old(state).wf() ==> final(state).wf(),
    {
        match self {
            MutableData8::Register8(reg) => state.get_u8_register(reg),
            MutableData8::IndirectRegister16(reg) => memory.read(state.get_u16_register(reg)),
            MutableData8::IndirectRegister16Inc(reg) => memory.read(
                state.increment_u16_register(reg),
            ),
            MutableData8::IndirectRegister16Dec(reg) => memory.read(
                state.decrement_u16_register(reg),
            ),
            MutableData8::IndirectRegister8(reg) => memory.read(
                0xFF00 + state.get_u8_register(reg) as u16,
            ),
            MutableData8::IndirectValue16(addr) => memory.read(*addr),
            MutableData8::IndirectValue8(addr) => memory.read(0xFF00 + *addr as u16),
        }
    }

    /// Write the operand, applying its resolution side effect.
    pub fn set(&self, value: u8, state: &mut Registers, memory: &mut Memory)
        requires
            old(memory).wf(),
        ensures
            *final(state) == self.spec_write_regs(value, *old(state)),
            final(memory)@ == self.spec_write_mem(value, *old(state), old(memory)@),
            old(state).wf() ==> final(state).wf(),
            final(memory).wf(),
    {
        match self {
            MutableData8::Register8(reg) => state.set_u8_register(reg, value),
            MutableData8::IndirectRegister16(reg) => memory.write(
                state.get_u16_register(reg),
                value,
            ),
            MutableData8::IndirectRegister16Inc(reg) => memory.write(
                state.increment_u16_register(reg),
                value,
            ),
            MutableData8::IndirectRegister16Dec(reg) => memory.write(
                state.decrement_u16_register(reg),
                value,
            ),
            MutableData8::IndirectRegister8(reg) => memory.write(
                0xFF00 + state.get_u8_register(reg) as u16,
                value,
            ),
            MutableData8::IndirectValue16(addr) => memory.write(*addr, value),
            MutableData8::IndirectValue8(addr) => memory.write(0xFF00 + *addr as u16, value),
        }
    }
}

impl Data8 {
    /// The value read from the operand.
    pub open spec fn spec_read_val(self, r: Registers, m: Seq<u8>) -> u8 {
        match self {
            Data8::Immutable(v) => v,
            Data8::Mutable(d) => d.spec_read_val(r, m),
        }
    }

    /// The register file after the operand's resolution side effect.
    pub open spec fn spec_touch_regs(self, r: Registers) -> Registers {
        match self {
            Data8::Immutable(_) => r,
            Data8::Mutable(d) => d.spec_touch_regs(r),
        }
    }

    /// Read the operand, applying its resolution side effect.
    pub fn get(&self, state: &mut Registers, memory: &Memory) -> (v: u8)
        requires
            memory.wf(),
        ensures
            v == self.spec_read_val(*old(state), memory@),
            *final(state) == self.spec_touch_regs(*old(state)),
            old(state).wf() ==> final(state).wf(),
    {
        match self {
            Data8::Immutable(data) => *data,
            Data8::Mutable(mutable) => mutable.get(state, memory),
        }
    }
}

impl MutableData16 {
    /// The value read from the operand: a pair's current value, or the
    /// little-endian word at an absolute address. Resolution of a 16-bit
    /// operand has no side effect.
    pub open spec fn spec_read_val(self, r: Registers, m: Seq<u8>) -> u16 {
        match self {
            MutableData16::Register16(reg) => r.spec_get16(reg),
            MutableData16::IndirectValue16(addr) => crate::memory::spec_read16(m, addr),
        }
    }

    /// The register file after a write to the operand. A write to AF
    /// masks the low nibble of F to zero.
    pub open spec fn spec_write_regs(self, v: u16, r: Registers) -> Registers {
        match self {
            MutableData16::Register16(reg) => r.spec_set16(reg, v),
            MutableData16::IndirectValue16(_) => r,
        }
    }

    /// Memory after a write to the operand.
    pub open spec fn spec_write_mem(self, v: u16, m: Seq<u8>) -> Seq<u8> {
        match self {
            MutableData16::Register16(_) => m,
            MutableData16::IndirectValue16(addr) => crate::memory::spec_write16(m, addr, v),
        }
    }

    /// Read the operand.
    pub fn get(&self, state: &Registers, memory: &Memory) -> (v: u16)
        requires
            memory.wf(),
        ensures
            v == self.spec_read_val(*state, memory@),
    {
        match self {
            MutableData16::Register16(reg) => state.get_u16_register(reg),
            MutableData16::IndirectValue16(addr) => memory.read_u16(*addr),
        }
    }

    /// Write the operand.
    pub fn set(&self, value: u16, state: &mut Registers, memory: &mut Memory)
        requires
            old(memory).wf(),
        ensures
            *final(state) == self.spec_write_regs(value, *old(state)),
            final(memory)@ == self.spec_write_mem(value, old(memory)@),
            old(state).wf() ==> final(state).wf(),
            final(memory).wf(),
    {
        match self {
            MutableData16::Register16(reg) => state.set_u16_register(reg, value),
            MutableData16::IndirectValue16(addr) => memory.write_u16(*addr, value),
        }
    }
}

impl Data16 {
    /// The value read from the operand.
    pub open spec fn spec_read_val(self, r: Registers, m: Seq<u8>) -> u16 {
        match self {
            Data16::Immutable(v) => v,
            Data16::Mutable(d) => d.spec_read_val(r, m),
        }
    }

    /// Read the operand.
    pub fn get(&self, state: &Registers, memory: &Memory) -> (v: u16)
        requires
            memory.wf(),
        ensures
            v == self.spec_read_val(*state, memory@),
    {
        match self {
            Data16::Immutable(v) => *v,
            Data16::Mutable(d) => d.get(state, memory),
        }
    }
}

/// The closed set of semantic operations. Each variant carries only the
/// operands that operation needs; an opcode with no defined encoding
/// decodes to `Unimplemented` with the offending byte.
#[derive(Clone, Copy, Debug, PartialEq, Eq, Structural)]
#[allow(inconsistent_fields)]
pub enum Op {
    Nop,
    Stop,
    Halt,
    Load8 { into: MutableData8, from: Data8 },
    Load16 { into: MutableData16, from: Data16 },
    Inc8 { into: MutableData8 },
    Dec8 { into: MutableData8 },
    Inc16 { into: MutableData16 },
    Dec16 { into: MutableData16 },
    Ror { into: MutableData8 },
    RorCarry { into: MutableData8 },
    Rol { into: MutableData8 },
    RolCarry { into: MutableData8 },
    Add { into: MutableData8, from: Data8 },
    Add16 { into: MutableData16, from: Data16 },
    AddCarry { into: MutableData8, from: Data8 },
    Sub { into: MutableData8, from: Data8 },
    SubCarry { into: MutableData8, from: Data8 },
    And { into: MutableData8, from: Data8 },
    Or { into: MutableData8, from: Data8 },
    Xor { into: MutableData8, from: Data8 },
    Compare { into: Data8, from: Data8 },
    JumpRelative { amount: i8 },
    JumpRelativeIf { condition: crate::cpu::Flag, amount: i8 },
    Call { address: Data16 },
    CallIf { condition: crate::cpu::Flag, address: Data16 },
    Return,
    ReturnIf { condition: crate::cpu::Flag },
    Push { from: Data16 },
    Pop { into: MutableData16 },
    ShiftLeftAccumulator { into: MutableData8 },
    ShiftRightLogical { into: MutableData8 },
    ShiftRightAccumulator { into: MutableData8 },
    Swap { into: MutableData8 },
    Bit { into: Data8, bit: u8 },
    Reset { into: MutableData8, bit: u8 },
    SetBit { into: MutableData8, bit: u8 },
    Unimplemented(u8),
}

/// One decoded instruction: its operation, its machine-cycle cost and
/// the bytes it consumed, opcode and operands included. Built once per
/// fetch by the decoder, consumed once by the executor, never reused.
#[derive(Clone, Copy, Debug, PartialEq, Eq, Structural)]
pub struct Instruction {
    pub op: Op,
    pub cycles: u8,
    pub size: u8,
}

impl Instruction {
    /// Well-formedness of a decoded instruction: a bit-indexed operation
    /// names one of the eight bits.
    pub open spec fn wf(self) -> bool {
        match self.op {
            Op::Bit { bit, .. } => bit < 8,
            Op::Reset { bit, .. } => bit < 8,
            Op::SetBit { bit, .. } => bit < 8,
            _ => true,
        }
    }
}

} // verus!
