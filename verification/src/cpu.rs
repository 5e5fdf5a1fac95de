//! Register file of the SM83: seven independent 8-bit cells (A, B, C, D,
//! E, H, L), the flags cell F, and the 16-bit SP and PC. The virtual
//! 16-bit pairs AF, BC, DE and HL are computed views over the 8-bit cells.
//!
//! Invariant: only the top four bits of F (Zero, Negative, HalfCarry,
//! Carry, from high to low) are meaningful; the low nibble is always zero.

use vstd::prelude::*;

verus! {

/// Names of the 8-bit registers. F is not addressable here: flags are
/// reached only through the flag operations, never as a plain byte cell.
#[derive(Clone, Copy, Debug, PartialEq, Eq, Structural)]
pub enum Register8 {
    A,
    B,
    C,
    D,
    E,
    H,
    L,
}

/// Names of the 16-bit registers: the four virtual pairs plus SP and PC.
#[derive(Clone, Copy, Debug, PartialEq, Eq, Structural)]
pub enum Register16 {
    AF,
    BC,
    DE,
    HL,
    SP,
    PC,
}

/// Processor condition: the four positive flags each test one bit of F;
/// the four negated forms test equality-to-zero of the same bit and are
/// used as predicates of conditional jumps, calls and returns.
#[derive(Clone, Copy, Debug, PartialEq, Eq, Structural)]
pub enum Flag {
    Zero,
    Negative,
    HalfCarry,
    Carry,
    NotZero,
    NotNegative,
    NotHalfCarry,
    NotCarry,
}

/// The register file. All cells are plain machine integers; the flags
/// cell keeps its low nibble zero (see [`Registers::wf`]).
#[derive(Clone, Copy, Debug, PartialEq, Eq, Structural)]
pub struct Registers {
    pub a: u8,
    pub b: u8,
    pub c: u8,
    pub d: u8,
    pub e: u8,
    pub h: u8,
    pub l: u8,
    pub flags: u8,
    pub sp: u16,
    pub pc: u16,
}

/// The 16-bit value formed by a high and a low byte.
pub open spec fn spec_join_u8(low: u8, high: u8) -> u16 {
    ((high as u16) << 8) | (low as u16)
}

/// High byte of a 16-bit value.
pub open spec fn spec_high_byte(v: u16) -> u8 {
    ((v >> 8) & 0xff) as u8
}

/// Low byte of a 16-bit value.
pub open spec fn spec_low_byte(v: u16) -> u8 {
    (v & 0xff) as u8
}

/// Mask of the F bit that a positive flag tests.
pub open spec fn spec_flag_mask(f: Flag) -> u8 {
    match f {
        Flag::Zero | Flag::NotZero => 0x80,
        Flag::Negative | Flag::NotNegative => 0x40,
        Flag::HalfCarry | Flag::NotHalfCarry => 0x20,
        Flag::Carry | Flag::NotCarry => 0x10,
    }
}

impl Registers {
    /// Flags-register invariant: the low nibble of F is always zero.
    pub open spec fn wf(self) -> bool {
        self.flags & 0x0F == 0
    }

    /// Value of an 8-bit register.
    pub open spec fn spec_get8(self, r: Register8) -> u8 {
        match r {
            Register8::A => self.a,
            Register8::B => self.b,
            Register8::C => self.c,
            Register8::D => self.d,
            Register8::E => self.e,
            Register8::H => self.h,
            Register8::L => self.l,
        }
    }

    /// The register file after writing an 8-bit register.
    pub open spec fn spec_set8(self, r: Register8, v: u8) -> Registers {
        match r {
            Register8::A => Registers { a: v, ..self },
            Register8::B => Registers { b: v, ..self },
            Register8::C => Registers { c: v, ..self },
            Register8::D => Registers { d: v, ..self },
            Register8::E => Registers { e: v, ..self },
            Register8::H => Registers { h: v, ..self },
            Register8::L => Registers { l: v, ..self },
        }
    }

    /// Value of a 16-bit register; the pairs are recomputed from their
    /// 8-bit cells, never cached. F plays the low byte of AF.
    pub open spec fn spec_get16(self, r: Register16) -> u16 {
        match r {
            Register16::AF => spec_join_u8(self.flags, self.a),
            Register16::BC => spec_join_u8(self.c, self.b),
            Register16::DE => spec_join_u8(self.e, self.d),
            Register16::HL => spec_join_u8(self.l, self.h),
            Register16::SP => self.sp,
            Register16::PC => self.pc,
        }
    }

    /// The register file after writing a 16-bit register. Writing a pair
    /// writes both underlying 8-bit cells; a write to AF masks the low
    /// nibble of F to zero, keeping the flags invariant.
    pub open spec fn spec_set16(self, r: Register16, v: u16) -> Registers {
        match r {
            Register16::AF => Registers {
                a: spec_high_byte(v),
                flags: spec_low_byte(v) & 0xF0,
                ..self
            },
            Register16::BC => Registers { b: spec_high_byte(v), c: spec_low_byte(v), ..self },
            Register16::DE => Registers { d: spec_high_byte(v), e: spec_low_byte(v), ..self },
            Register16::HL => Registers { h: spec_high_byte(v), l: spec_low_byte(v), ..self },
            Register16::SP => Registers { sp: v, ..self },
            Register16::PC => Registers { pc: v, ..self },
        }
    }

    /// Whether a condition holds of the flags cell: a positive flag tests
    /// its bit, a negated form tests that the same bit is clear.
    pub open spec fn spec_flag(self, f: Flag) -> bool {
        match f {
            Flag::Zero | Flag::Negative | Flag::HalfCarry | Flag::Carry => self.flags
                & spec_flag_mask(f) != 0,
            Flag::NotZero | Flag::NotNegative | Flag::NotHalfCarry | Flag::NotCarry => self.flags
                & spec_flag_mask(f) == 0,
        }
    }

    /// The register file after setting a condition: a positive flag sets
    /// its bit, a negated form clears it.
    pub open spec fn spec_set_flag(self, f: Flag) -> Registers {
        match f {
            Flag::Zero | Flag::Negative | Flag::HalfCarry | Flag::Carry => Registers {
                flags: self.flags | spec_flag_mask(f),
                ..self
            },
            Flag::NotZero | Flag::NotNegative | Flag::NotHalfCarry | Flag::NotCarry => Registers {
                flags: self.flags & !spec_flag_mask(f),
                ..self
            },
        }
    }

    /// The register file after resetting a condition: a positive flag
    /// clears its bit, a negated form sets it.
    pub open spec fn spec_reset_flag(self, f: Flag) -> Registers {
        match f {
            Flag::Zero | Flag::Negative | Flag::HalfCarry | Flag::Carry => Registers {
                flags: self.flags & !spec_flag_mask(f),
                ..self
            },
            Flag::NotZero | Flag::NotNegative | Flag::NotHalfCarry | Flag::NotCarry => Registers {
                flags: self.flags | spec_flag_mask(f),
                ..self
            },
        }
    }

    pub fn af(&self) -> (r: u16)
        ensures
            r == self.spec_get16(Register16::AF),
    {
        join_u8(self.flags, self.a)
    }

    pub fn set_af(&mut self, value: u16)
        ensures
            *final(self) == old(self).spec_set16(Register16::AF, value),
            final(self).wf(),
    {
        self.a = high_byte(value);
        self.flags = low_byte(value) & 0xF0;
        proof {
            lemma_high_nibble_mask(spec_low_byte(value));
        }
    }

    pub fn bc(&self) -> (r: u16)
        ensures
            r == self.spec_get16(Register16::BC),
    {
        join_u8(self.c, self.b)
    }

    pub fn set_bc(&mut self, value: u16)
        ensures
            *final(self) == old(self).spec_set16(Register16::BC, value),
    {
        self.b = high_byte(value);
        self.c = low_byte(value);
    }

    pub fn de(&self) -> (r: u16)
        ensures
            r == self.spec_get16(Register16::DE),
    {
        join_u8(self.e, self.d)
    }

    pub fn set_de(&mut self, value: u16)
        ensures
            *final(self) == old(self).spec_set16(Register16::DE, value),
    {
        self.d = high_byte(value);
        self.e = low_byte(value);
    }

    pub fn hl(&self) -> (r: u16)
        ensures
            r == self.spec_get16(Register16::HL),
    {
        join_u8(self.l, self.h)
    }

    pub fn set_hl(&mut self, value: u16)
        ensures
            *final(self) == old(self).spec_set16(Register16::HL, value),
    {
        self.h = high_byte(value);
        self.l = low_byte(value);
    }

    pub fn set_pc(&mut self, value: u16)
        ensures
            *final(self) == old(self).spec_set16(Register16::PC, value),
    {
        self.pc = value;
    }

    pub fn pc(&self) -> (r: u16)
        ensures
            r == self.pc,
    {
        self.pc
    }

    pub fn set_sp(&mut self, value: u16)
        ensures
            *final(self) == old(self).spec_set16(Register16::SP, value),
    {
        self.sp = value;
    }

    pub fn sp(&self) -> (r: u16)
        ensures
            r == self.sp,
    {
        self.sp
    }

    /// Test a condition against the flags cell.
    pub fn flag(&self, f: Flag) -> (r: bool)
        ensures
            r == self.spec_flag(f),
    {
        match f {
            Flag::Zero => self.flags & 0x80 != 0,
            Flag::Negative => self.flags & 0x40 != 0,
            Flag::HalfCarry => self.flags & 0x20 != 0,
            Flag::Carry => self.flags & 0x10 != 0,
            Flag::NotZero => self.flags & 0x80 == 0,
            Flag::NotNegative => self.flags & 0x40 == 0,
            Flag::NotHalfCarry => self.flags & 0x20 == 0,
            Flag::NotCarry => self.flags & 0x10 == 0,
        }
    }

    /// Make a condition hold: set the bit of a positive flag, clear the
    /// bit of a negated form.
    pub fn set_flag(&mut self, f: Flag)
        ensures
            *final(self) == old(self).spec_set_flag(f),
            old(self).wf() ==> final(self).wf(),
    {
        match f {
            Flag::Zero => self.flags = self.flags | 0x80,
            Flag::Negative => self.flags = self.flags | 0x40,
            Flag::HalfCarry => self.flags = self.flags | 0x20,
            Flag::Carry => self.flags = self.flags | 0x10,
            Flag::NotZero => self.flags = self.flags & !0x80,
            Flag::NotNegative => self.flags = self.flags & !0x40,
            Flag::NotHalfCarry => self.flags = self.flags & !0x20,
            Flag::NotCarry => self.flags = self.flags & !0x10,
        }
        proof {
            lemma_flag_update_wf(old(self).flags, self.flags);
        }
    }

    /// Make a condition fail: clear the bit of a positive flag, set the
    /// bit of a negated form.
    pub fn reset_flag(&mut self, f: Flag)
        ensures
            *final(self) == old(self).spec_reset_flag(f),
            old(self).wf() ==> final(self).wf(),
    {
        match f {
            Flag::Zero => self.flags = self.flags & !0x80,
            Flag::Negative => self.flags = self.flags & !0x40,
            Flag::HalfCarry => self.flags = self.flags & !0x20,
            Flag::Carry => self.flags = self.flags & !0x10,
            Flag::NotZero => self.flags = self.flags | 0x80,
            Flag::NotNegative => self.flags = self.flags | 0x40,
            Flag::NotHalfCarry => self.flags = self.flags | 0x20,
            Flag::NotCarry => self.flags = self.flags | 0x10,
        }
        proof {
            lemma_flag_update_wf(old(self).flags, self.flags);
        }
    }

    pub fn set_u8_register(&mut self, r: &Register8, value: u8)
        ensures
            *final(self) == old(self).spec_set8(*r, value),
    {
        match r {
            Register8::A => self.a = value,
            Register8::B => self.b = value,
            Register8::C => self.c = value,
            Register8::D => self.d = value,
            Register8::E => self.e = value,
            Register8::H => self.h = value,
            Register8::L => self.l = value,
        }
    }

    pub fn set_u16_register(&mut self, r: &Register16, value: u16)
        ensures
            *final(self) == old(self).spec_set16(*r, value),
            old(self).wf() ==> final(self).wf(),
    {
        match r {
            Register16::AF => self.set_af(value),
            Register16::BC => self.set_bc(value),
            Register16::DE => self.set_de(value),
            Register16::HL => self.set_hl(value),
            Register16::SP => self.sp = value,
            Register16::PC => self.pc = value,
        }
    }

    pub fn get_u8_register(&self, r: &Register8) -> (v: u8)
        ensures
            v == self.spec_get8(*r),
    {
        match r {
            Register8::A => self.a,
            Register8::B => self.b,
            Register8::C => self.c,
            Register8::D => self.d,
            Register8::E => self.e,
            Register8::H => self.h,
            Register8::L => self.l,
        }
    }

    /// Borrow an 8-bit cell mutably; the register file afterwards holds
    /// whatever the caller leaves behind the borrow.
    pub fn get_u8_register_mut<'a>(&'a mut self, r: &Register8) -> (cell: &'a mut u8)
        ensures
            *cell == old(self).spec_get8(*r),
            *final(self) == old(self).spec_set8(*r, *final(cell)),
    {
        match r {
            Register8::A => &mut self.a,
            Register8::B => &mut self.b,
            Register8::C => &mut self.c,
            Register8::D => &mut self.d,
            Register8::E => &mut self.e,
            Register8::H => &mut self.h,
            Register8::L => &mut self.l,
        }
    }

    pub fn get_u16_register(&self, r: &Register16) -> (v: u16)
        ensures
            v == self.spec_get16(*r),
    {
        match r {
            Register16::AF => self.af(),
            Register16::BC => self.bc(),
            Register16::DE => self.de(),
            Register16::HL => self.hl(),
            Register16::SP => self.sp,
            Register16::PC => self.pc,
        }
    }

    /// Add one to a 16-bit register, wrapping modulo 65536, and return the
    /// value it held before: post-increment addressing reads the old pair.
    pub fn increment_u16_register(&mut self, r: &Register16) -> (prev: u16)
        ensures
            prev == old(self).spec_get16(*r),
            *final(self) == old(self).spec_set16(
                *r,
                vstd::wrapping::u16_specs::wrapping_add(prev, 1),
            ),
            old(self).wf() ==> final(self).wf(),
    {
        let prev = self.get_u16_register(r);
        self.set_u16_register(r, prev.wrapping_add(1));
        prev
    }

    /// Take one from a 16-bit register, wrapping modulo 65536, and return
    /// the value it held before.
    pub fn decrement_u16_register(&mut self, r: &Register16) -> (prev: u16)
        ensures
            prev == old(self).spec_get16(*r),
            *final(self) == old(self).spec_set16(
                *r,
                vstd::wrapping::u16_specs::wrapping_sub(prev, 1),
            ),
            old(self).wf() ==> final(self).wf(),
    {
        let prev = self.get_u16_register(r);
        self.set_u16_register(r, prev.wrapping_sub(1));
        prev
    }
}

impl Default for Registers {
    /// The power-on register file: every cell zero.
    fn default() -> (r: Registers)
        ensures
            r == (Registers { a: 0, b: 0, c: 0, d: 0, e: 0, h: 0, l: 0, flags: 0, sp: 0, pc: 0 }),
            r.wf(),
    {
        proof {
            assert(0u8 & 0x0F == 0) by (bit_vector);
        }
        Registers { a: 0, b: 0, c: 0, d: 0, e: 0, h: 0, l: 0, flags: 0, sp: 0, pc: 0 }
    }
}

/// Join a low and a high byte into a 16-bit value.
pub fn join_u8(low: u8, high: u8) -> (r: u16)
    ensures
        r == spec_join_u8(low, high),
{
    ((high as u16) << 8) | (low as u16)
}

/// High byte of a 16-bit value.
pub fn high_byte(v: u16) -> (r: u8)
    ensures
        r == spec_high_byte(v),
{
    ((v >> 8) & 0xff) as u8
}

/// Low byte of a 16-bit value.
pub fn low_byte(v: u16) -> (r: u8)
    ensures
        r == spec_low_byte(v),
{
    (v & 0xff) as u8
}

/// A byte masked to its high nibble has a zero low nibble.
pub proof fn lemma_high_nibble_mask(v: u8)
    ensures
        (v & 0xF0) & 0x0F == 0,
{
    assert((v & 0xF0) & 0x0F == 0) by (bit_vector);
}

/// Setting or clearing one of the four flag bits keeps the low nibble of
/// F zero.
pub proof fn lemma_flag_update_wf(before: u8, after: u8)
    requires
        after == before | 0x80 || after == before | 0x40 || after == before | 0x20 || after
            == before | 0x10 || after == before & !0x80 || after == before & !0x40 || after
            == before & !0x20 || after == before & !0x10,
    ensures
        before & 0x0F == 0 ==> after & 0x0F == 0,
{
    assert(before & 0x0F == 0 ==> ((before | 0x80) & 0x0F == 0 && (before | 0x40) & 0x0F == 0 && (
    before | 0x20) & 0x0F == 0 && (before | 0x10) & 0x0F == 0 && (before & !0x80) & 0x0F == 0 && (
    before & !0x40) & 0x0F == 0 && (before & !0x20) & 0x0F == 0 && (before & !0x10) & 0x0F == 0))
        by (bit_vector);
}

} // verus!
