use sm83_core::cpu::{Flag, Register16, Register8};
use sm83_core::instructions::{Data16, Data8, Instruction, MutableData16, MutableData8, Op};

fn decode(bytes: &[u8]) -> Instruction {
    Instruction::from_bytes(0, bytes).unwrap()
}

fn primary_implemented(b: u8) -> bool {
    (b <= 0x3F && b != 0x27 && b != 0x2F && b != 0x37 && b != 0x3F)
        || (0x40..=0xBF).contains(&b)
        || [
            0xCB, 0xC1, 0xD1, 0xE1, 0xF1, 0xC5, 0xD5, 0xE5, 0xF5, 0xC9, 0xCC, 0xDC, 0xCD, 0xE0,
            0xF0, 0xE2, 0xF2, 0xEA, 0xFA, 0xFE,
        ]
        .contains(&b)
}

#[test]
fn every_encoded_primary_opcode_has_size_and_cycles() {
    for b in 0..=0xFFu8 {
        let i = decode(&[b, 0x00, 0x00]);
        if primary_implemented(b) {
            assert!(!matches!(i.op, Op::Unimplemented(_)), "opcode {b:#04x}");
            assert!(i.size >= 1, "opcode {b:#04x}");
            assert!(i.cycles >= 1, "opcode {b:#04x}");
        } else {
            assert!(matches!(i.op, Op::Unimplemented(x) if x == b));
            assert_eq!(i.size, 0);
            assert_eq!(i.cycles, 0);
        }
    }
}

#[test]
fn every_extended_opcode_has_size_and_cycles() {
    for b in 0..=0xFFu8 {
        let i = decode(&[0xCB, b]);
        assert!(!matches!(i.op, Op::Unimplemented(_)), "extended {b:#04x}");
        assert_eq!(i.size, 2);
        let indirect = b & 0x07 == 6;
        assert_eq!(i.cycles, if indirect { 16 } else { 8 });
    }
}

#[test]
fn truncated_windows_decode_as_unimplemented() {
    // A last byte that would need an operand cannot decode.
    let i = decode(&[0x3E]);
    assert!(matches!(i.op, Op::Unimplemented(0x3E)));
    assert_eq!(i.size, 0);
    let i = decode(&[0xCB]);
    assert!(matches!(i.op, Op::Unimplemented(0xCB)));
    let i = decode(&[0x01, 0x34]);
    assert!(matches!(i.op, Op::Unimplemented(0x01)));
    // An empty window decodes as unimplemented too.
    let i = Instruction::from_bytes(1, &[0x00]).unwrap();
    assert!(matches!(i.op, Op::Unimplemented(0)));
}

#[test]
fn fixed_single_byte_encodings() {
    assert_eq!(decode(&[0x00]).op, Op::Nop);
    assert_eq!(decode(&[0x00]).cycles, 4);
    assert_eq!(decode(&[0x76]).op, Op::Halt);
    let stop = decode(&[0x10, 0x00]);
    assert_eq!(stop.op, Op::Stop);
    assert_eq!(stop.size, 2);
    assert_eq!(decode(&[0xC9]).op, Op::Return);
}

#[test]
fn load_block_uses_bit_fields() {
    // 0x41 is LD B, C: destination from bits 3..=5, source from bits 0..=2.
    let i = decode(&[0x41]);
    assert_eq!(
        i.op,
        Op::Load8 {
            into: MutableData8::Register8(Register8::B),
            from: Data8::Mutable(MutableData8::Register8(Register8::C)),
        }
    );
    assert_eq!(i.cycles, 4);
    // 0x77 is LD (HL), A; the indirect operand costs more.
    let i = decode(&[0x77]);
    assert_eq!(
        i.op,
        Op::Load8 {
            into: MutableData8::IndirectRegister16(Register16::HL),
            from: Data8::Mutable(MutableData8::Register8(Register8::A)),
        }
    );
    assert_eq!(i.cycles, 8);
    // 0x7E is LD A, (HL).
    let i = decode(&[0x7E]);
    assert_eq!(
        i.op,
        Op::Load8 {
            into: MutableData8::Register8(Register8::A),
            from: Data8::Mutable(MutableData8::IndirectRegister16(Register16::HL)),
        }
    );
    assert_eq!(i.cycles, 8);
}

#[test]
fn alu_block_selects_operation_from_high_bits() {
    let a = MutableData8::Register8(Register8::A);
    let b = Data8::Mutable(MutableData8::Register8(Register8::B));
    assert_eq!(decode(&[0x80]).op, Op::Add { into: a, from: b });
    assert_eq!(decode(&[0x88]).op, Op::AddCarry { into: a, from: b });
    assert_eq!(decode(&[0x90]).op, Op::Sub { into: a, from: b });
    assert_eq!(decode(&[0x98]).op, Op::SubCarry { into: a, from: b });
    assert_eq!(decode(&[0xA0]).op, Op::And { into: a, from: b });
    assert_eq!(decode(&[0xA8]).op, Op::Xor { into: a, from: b });
    assert_eq!(decode(&[0xB0]).op, Op::Or { into: a, from: b });
    assert_eq!(
        decode(&[0xB8]).op,
        Op::Compare { into: Data8::Mutable(a), from: b }
    );
    // (HL) as source costs 8 cycles, a register 4.
    assert_eq!(decode(&[0x86]).cycles, 8);
    assert_eq!(decode(&[0x87]).cycles, 4);
}

#[test]
fn immediate_operands_are_little_endian() {
    let i = decode(&[0x01, 0x34, 0x12]);
    assert_eq!(
        i.op,
        Op::Load16 {
            into: MutableData16::Register16(Register16::BC),
            from: Data16::Immutable(0x1234),
        }
    );
    assert_eq!(i.size, 3);
    let i = decode(&[0xCD, 0xCD, 0xAB]);
    assert_eq!(i.op, Op::Call { address: Data16::Immutable(0xABCD) });
    let i = decode(&[0xEA, 0x00, 0xC0]);
    assert_eq!(
        i.op,
        Op::Load8 {
            into: MutableData8::IndirectValue16(0xC000),
            from: Data8::Mutable(MutableData8::Register8(Register8::A)),
        }
    );
}

#[test]
fn relative_jumps_carry_signed_displacements() {
    let i = decode(&[0x18, 0xFE]);
    assert_eq!(i.op, Op::JumpRelative { amount: -2 });
    assert_eq!(i.size, 2);
    let i = decode(&[0x20, 0x05]);
    assert_eq!(
        i.op,
        Op::JumpRelativeIf { condition: Flag::NotZero, amount: 5 }
    );
    let i = decode(&[0x28, 0x80]);
    assert_eq!(
        i.op,
        Op::JumpRelativeIf { condition: Flag::Zero, amount: -128 }
    );
    let i = decode(&[0x30, 0xFF]);
    assert_eq!(
        i.op,
        Op::JumpRelativeIf { condition: Flag::NotCarry, amount: -1 }
    );
    assert_eq!(decode(&[0x38, 0x01]).op, Op::JumpRelativeIf { condition: Flag::Carry, amount: 1 });
}

#[test]
fn post_increment_and_post_decrement_loads() {
    let i = decode(&[0x22]);
    assert_eq!(
        i.op,
        Op::Load8 {
            into: MutableData8::IndirectRegister16Inc(Register16::HL),
            from: Data8::Mutable(MutableData8::Register8(Register8::A)),
        }
    );
    let i = decode(&[0x3A]);
    assert_eq!(
        i.op,
        Op::Load8 {
            into: MutableData8::Register8(Register8::A),
            from: Data8::Mutable(MutableData8::IndirectRegister16Dec(Register16::HL)),
        }
    );
}

#[test]
fn high_page_loads() {
    let i = decode(&[0xE0, 0x47]);
    assert_eq!(
        i.op,
        Op::Load8 {
            into: MutableData8::IndirectValue8(0x47),
            from: Data8::Mutable(MutableData8::Register8(Register8::A)),
        }
    );
    let i = decode(&[0xF2]);
    assert_eq!(
        i.op,
        Op::Load8 {
            into: MutableData8::Register8(Register8::A),
            from: Data8::Mutable(MutableData8::IndirectRegister8(Register8::C)),
        }
    );
}

#[test]
fn stack_and_call_encodings() {
    assert_eq!(
        decode(&[0xF5]).op,
        Op::Push { from: Data16::Mutable(MutableData16::Register16(Register16::AF)) }
    );
    assert_eq!(
        decode(&[0xF1]).op,
        Op::Pop { into: MutableData16::Register16(Register16::AF) }
    );
    assert_eq!(decode(&[0xF1]).cycles, 3);
    assert_eq!(
        decode(&[0xCC, 0x00, 0x80]).op,
        Op::CallIf { condition: Flag::Zero, address: Data16::Immutable(0x8000) }
    );
    assert_eq!(
        decode(&[0xDC, 0x00, 0x80]).op,
        Op::CallIf { condition: Flag::Carry, address: Data16::Immutable(0x8000) }
    );
}

#[test]
fn compare_immediate_tests_accumulator() {
    let i = decode(&[0xFE, 0x90]);
    assert_eq!(
        i.op,
        Op::Compare {
            into: Data8::Mutable(MutableData8::Register8(Register8::A)),
            from: Data8::Immutable(0x90),
        }
    );
}

#[test]
fn extended_block_encodings() {
    // BIT 7, H: the famous boot-sequence test.
    let i = decode(&[0xCB, 0x7C]);
    assert_eq!(
        i.op,
        Op::Bit { into: Data8::Mutable(MutableData8::Register8(Register8::H)), bit: 7 }
    );
    // RL C.
    let i = decode(&[0xCB, 0x11]);
    assert_eq!(i.op, Op::Rol { into: MutableData8::Register8(Register8::C) });
    // SWAP A.
    let i = decode(&[0xCB, 0x37]);
    assert_eq!(i.op, Op::Swap { into: MutableData8::Register8(Register8::A) });
    // RES 0, A and SET 7, (HL).
    let i = decode(&[0xCB, 0x87]);
    assert_eq!(i.op, Op::Reset { into: MutableData8::Register8(Register8::A), bit: 0 });
    let i = decode(&[0xCB, 0xFE]);
    assert_eq!(
        i.op,
        Op::SetBit { into: MutableData8::IndirectRegister16(Register16::HL), bit: 7 }
    );
    // The four shifts.
    let i = decode(&[0xCB, 0x27]);
    assert_eq!(i.op, Op::ShiftLeftAccumulator { into: MutableData8::Register8(Register8::A) });
    let i = decode(&[0xCB, 0x28]);
    assert_eq!(i.op, Op::ShiftRightAccumulator { into: MutableData8::Register8(Register8::B) });
    let i = decode(&[0xCB, 0x38]);
    assert_eq!(i.op, Op::ShiftRightLogical { into: MutableData8::Register8(Register8::B) });
}

#[test]
fn legacy_rotates_differ_from_extended_by_size() {
    let legacy = decode(&[0x07]);
    assert_eq!(legacy.op, Op::RolCarry { into: MutableData8::Register8(Register8::A) });
    assert_eq!(legacy.size, 1);
    let extended = decode(&[0xCB, 0x07]);
    assert_eq!(extended.op, Op::RolCarry { into: MutableData8::Register8(Register8::A) });
    assert_eq!(extended.size, 2);
}

#[test]
fn decode_is_anchored_at_the_given_address() {
    let data = [0x00, 0x3E, 0x55];
    let i = Instruction::from_bytes(1, &data).unwrap();
    assert_eq!(
        i.op,
        Op::Load8 {
            into: MutableData8::Register8(Register8::A),
            from: Data8::Immutable(0x55),
        }
    );
}
