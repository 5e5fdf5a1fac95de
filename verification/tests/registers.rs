use sm83_core::cpu::{Flag, Register16, Register8, Registers};

#[test]
fn pair_round_trip_bc_all_values() {
    // set16(BC, x); get16(BC) == x for every x, and the cells hold the
    // high and low bytes of x.
    let mut r = Registers::default();
    for x in 0..=0xFFFFu16 {
        r.set_bc(x);
        assert_eq!(r.bc(), x);
        assert_eq!(r.b, (x >> 8) as u8);
        assert_eq!(r.c, (x & 0xFF) as u8);
    }
}

#[test]
fn pair_round_trip_de_hl() {
    let mut r = Registers::default();
    r.set_de(0xBEEF);
    assert_eq!(r.de(), 0xBEEF);
    assert_eq!(r.d, 0xBE);
    assert_eq!(r.e, 0xEF);
    r.set_hl(0x1234);
    assert_eq!(r.hl(), 0x1234);
    assert_eq!(r.h, 0x12);
    assert_eq!(r.l, 0x34);
}

#[test]
fn af_write_masks_flag_low_nibble() {
    let mut r = Registers::default();
    r.set_af(0x12FF);
    assert_eq!(r.a, 0x12);
    assert_eq!(r.flags, 0xF0);
    assert_eq!(r.af(), 0x12F0);
}

#[test]
fn sp_pc_accessors() {
    let mut r = Registers::default();
    r.set_sp(0xFFFE);
    r.set_pc(0x0100);
    assert_eq!(r.sp(), 0xFFFE);
    assert_eq!(r.pc(), 0x0100);
}

#[test]
fn positive_flags_set_and_reset() {
    let mut r = Registers::default();
    for f in [Flag::Zero, Flag::Negative, Flag::HalfCarry, Flag::Carry] {
        assert!(!r.flag(f));
        r.set_flag(f);
        assert!(r.flag(f));
    }
    assert_eq!(r.flags, 0xF0);
    r.reset_flag(Flag::Negative);
    assert!(!r.flag(Flag::Negative));
    assert!(r.flag(Flag::Zero));
    assert!(r.flag(Flag::HalfCarry));
    assert!(r.flag(Flag::Carry));
}

#[test]
fn negated_flags_mirror_positive_bits() {
    let mut r = Registers::default();
    assert!(r.flag(Flag::NotZero));
    assert!(r.flag(Flag::NotCarry));
    r.set_flag(Flag::Zero);
    assert!(!r.flag(Flag::NotZero));
    // Setting a negated form clears the underlying bit.
    r.set_flag(Flag::NotZero);
    assert!(!r.flag(Flag::Zero));
    // Resetting a negated form sets the underlying bit.
    r.reset_flag(Flag::NotCarry);
    assert!(r.flag(Flag::Carry));
}

#[test]
fn named_u8_register_access() {
    let mut r = Registers::default();
    let names = [
        Register8::A,
        Register8::B,
        Register8::C,
        Register8::D,
        Register8::E,
        Register8::H,
        Register8::L,
    ];
    for (i, n) in names.iter().enumerate() {
        r.set_u8_register(n, 0x10 + i as u8);
    }
    for (i, n) in names.iter().enumerate() {
        assert_eq!(r.get_u8_register(n), 0x10 + i as u8);
    }
    *r.get_u8_register_mut(&Register8::E) = 0x99;
    assert_eq!(r.e, 0x99);
}

#[test]
fn named_u16_register_access() {
    let mut r = Registers::default();
    r.set_u16_register(&Register16::BC, 0x1122);
    r.set_u16_register(&Register16::DE, 0x3344);
    r.set_u16_register(&Register16::HL, 0x5566);
    r.set_u16_register(&Register16::SP, 0x7788);
    r.set_u16_register(&Register16::PC, 0x99AA);
    assert_eq!(r.get_u16_register(&Register16::BC), 0x1122);
    assert_eq!(r.get_u16_register(&Register16::DE), 0x3344);
    assert_eq!(r.get_u16_register(&Register16::HL), 0x5566);
    assert_eq!(r.get_u16_register(&Register16::SP), 0x7788);
    assert_eq!(r.get_u16_register(&Register16::PC), 0x99AA);
    // AF as a 16-bit register keeps the flags invariant.
    r.set_u16_register(&Register16::AF, 0xABCD);
    assert_eq!(r.get_u16_register(&Register16::AF), 0xABC0);
}

#[test]
fn increment_returns_previous_and_wraps() {
    let mut r = Registers::default();
    r.set_hl(0xFFFF);
    let prev = r.increment_u16_register(&Register16::HL);
    assert_eq!(prev, 0xFFFF);
    assert_eq!(r.hl(), 0x0000);
}

#[test]
fn decrement_returns_previous_and_wraps() {
    let mut r = Registers::default();
    r.set_bc(0x0000);
    let prev = r.decrement_u16_register(&Register16::BC);
    assert_eq!(prev, 0x0000);
    assert_eq!(r.bc(), 0xFFFF);
}
