use sm83_core::cpu::{Flag, Registers};
use sm83_core::instructions::{Instruction, Op};
use sm83_core::memory::Memory;

/// Step a program image from PC until `steps` instructions have run,
/// refusing to run anything undecodable, as a harness must.
fn run(program: &[u8], steps: usize, state: &mut Registers, memory: &mut Memory) {
    for _ in 0..steps {
        let addr = state.pc() as usize;
        assert!(addr <= program.len());
        let i = Instruction::from_bytes(addr, program).unwrap();
        assert!(!matches!(i.op, Op::Unimplemented(_)), "undecodable at {addr:#06x}");
        assert!(i.size >= 1);
        i.execute(state, memory);
    }
}

fn fresh() -> (Registers, Memory) {
    (Registers::default(), Memory::new())
}

#[test]
fn ld_a_then_xor_a_leaves_zero_flag_only() {
    // LD A, $00 ; XOR A, A.
    let (mut r, mut m) = fresh();
    run(&[0x3E, 0x00, 0xAF], 2, &mut r, &mut m);
    assert_eq!(r.a, 0x00);
    assert!(r.flag(Flag::Zero));
    assert!(!r.flag(Flag::Negative));
    assert!(!r.flag(Flag::HalfCarry));
    assert!(!r.flag(Flag::Carry));
    assert_eq!(r.flags, 0x80);
    assert_eq!(r.pc(), 3);
}

#[test]
fn ld_hl_then_post_increment_store() {
    // LD HL, $1234 ; LD (HL+), A.
    let (mut r, mut m) = fresh();
    r.a = 0x77;
    run(&[0x21, 0x34, 0x12, 0x22], 2, &mut r, &mut m);
    assert_eq!(m.read(0x1234), 0x77);
    assert_eq!(r.hl(), 0x1235);
}

#[test]
fn post_decrement_load_reads_old_address() {
    // LD HL, $C000 ; LD A, (HL-).
    let (mut r, mut m) = fresh();
    m.write(0xC000, 0x5A);
    run(&[0x21, 0x00, 0xC0, 0x3A], 2, &mut r, &mut m);
    assert_eq!(r.a, 0x5A);
    assert_eq!(r.hl(), 0xBFFF);
}

#[test]
fn relative_jump_minus_two_is_a_tight_loop() {
    // JR -2 decoded at N leaves PC at N.
    let (mut r, mut m) = fresh();
    let mut program = [0u8; 0x0202];
    program[0x0200] = 0x18;
    program[0x0201] = 0xFE;
    r.set_pc(0x0200);
    run(&program, 1, &mut r, &mut m);
    assert_eq!(r.pc(), 0x0200);
    run(&program, 1, &mut r, &mut m);
    assert_eq!(r.pc(), 0x0200);
}

#[test]
fn push_af_then_pop_af_restores_state() {
    // PUSH AF ; POP AF.
    let (mut r, mut m) = fresh();
    r.a = 0x5A;
    r.set_flag(Flag::Zero);
    r.set_flag(Flag::Carry);
    r.set_sp(0xFFFE);
    let flags_before = r.flags;
    run(&[0xF5, 0xF1], 2, &mut r, &mut m);
    assert_eq!(r.a, 0x5A);
    assert_eq!(r.flags, flags_before);
    assert_eq!(r.sp(), 0xFFFE);
    // The word went through the stack, low byte (F) first.
    assert_eq!(m.read(0xFFFC), flags_before);
    assert_eq!(m.read(0xFFFD), 0x5A);
}

#[test]
fn inc_then_dec_restores_value_and_carry() {
    // INC B ; DEC B with Carry set beforehand.
    let (mut r, mut m) = fresh();
    r.b = 0x0F;
    r.set_flag(Flag::Carry);
    run(&[0x04, 0x05], 2, &mut r, &mut m);
    assert_eq!(r.b, 0x0F);
    assert!(r.flag(Flag::Carry));
    // And with Carry clear.
    let (mut r, mut m) = fresh();
    r.b = 0xFF;
    run(&[0x04, 0x05], 2, &mut r, &mut m);
    assert_eq!(r.b, 0xFF);
    assert!(!r.flag(Flag::Carry));
}

#[test]
fn inc8_flags() {
    // INC B from 0x0F: half-carry out of bit 3, Negative clear.
    let (mut r, mut m) = fresh();
    r.b = 0x0F;
    run(&[0x04], 1, &mut r, &mut m);
    assert_eq!(r.b, 0x10);
    assert!(r.flag(Flag::HalfCarry));
    assert!(!r.flag(Flag::Zero));
    assert!(!r.flag(Flag::Negative));
    assert!(!r.flag(Flag::Carry));
    // INC A from 0xFF wraps to zero without touching Carry.
    let (mut r, mut m) = fresh();
    r.a = 0xFF;
    run(&[0x3C], 1, &mut r, &mut m);
    assert_eq!(r.a, 0x00);
    assert!(r.flag(Flag::Zero));
    assert!(r.flag(Flag::HalfCarry));
    assert!(!r.flag(Flag::Carry));
}

#[test]
fn dec8_flags() {
    // DEC C from 0x01: result zero, Negative set.
    let (mut r, mut m) = fresh();
    r.c = 0x01;
    run(&[0x0D], 1, &mut r, &mut m);
    assert_eq!(r.c, 0x00);
    assert!(r.flag(Flag::Zero));
    assert!(r.flag(Flag::Negative));
    assert!(!r.flag(Flag::HalfCarry));
    // DEC C from 0x10 borrows into bit 3.
    let (mut r, mut m) = fresh();
    r.c = 0x10;
    run(&[0x0D], 1, &mut r, &mut m);
    assert_eq!(r.c, 0x0F);
    assert!(r.flag(Flag::HalfCarry));
    // DEC C from 0x00 wraps.
    let (mut r, mut m) = fresh();
    run(&[0x0D], 1, &mut r, &mut m);
    assert_eq!(r.c, 0xFF);
    assert!(!r.flag(Flag::Zero));
}

#[test]
fn add_sets_all_four_flags() {
    // ADD A, B with 0x3A + 0xC6 = 0x100: zero, half-carry and carry.
    let (mut r, mut m) = fresh();
    r.a = 0x3A;
    r.b = 0xC6;
    run(&[0x80], 1, &mut r, &mut m);
    assert_eq!(r.a, 0x00);
    assert!(r.flag(Flag::Zero));
    assert!(!r.flag(Flag::Negative));
    assert!(r.flag(Flag::HalfCarry));
    assert!(r.flag(Flag::Carry));
}

#[test]
fn add_carry_adds_the_carry_bit() {
    // ADC A, B: 0x10 + 0x20 + carry = 0x31.
    let (mut r, mut m) = fresh();
    r.a = 0x10;
    r.b = 0x20;
    r.set_flag(Flag::Carry);
    run(&[0x88], 1, &mut r, &mut m);
    assert_eq!(r.a, 0x31);
    assert!(!r.flag(Flag::Carry));
}

#[test]
fn sub_borrows_and_sets_negative() {
    // SUB A, B with 0x3E - 0x40: borrow out of bit 7.
    let (mut r, mut m) = fresh();
    r.a = 0x3E;
    r.b = 0x40;
    run(&[0x90], 1, &mut r, &mut m);
    assert_eq!(r.a, 0xFE);
    assert!(r.flag(Flag::Negative));
    assert!(r.flag(Flag::Carry));
    assert!(!r.flag(Flag::HalfCarry));
}

#[test]
fn sub_carry_borrows_the_carry_bit() {
    // SBC A, B: 0x3B - 0x2A - 1 = 0x10.
    let (mut r, mut m) = fresh();
    r.a = 0x3B;
    r.b = 0x2A;
    r.set_flag(Flag::Carry);
    run(&[0x98], 1, &mut r, &mut m);
    assert_eq!(r.a, 0x10);
    assert!(!r.flag(Flag::Carry));
    assert!(r.flag(Flag::Negative));
}

#[test]
fn logical_operations_and_their_flags() {
    // AND A, B: HalfCarry always set.
    let (mut r, mut m) = fresh();
    r.a = 0xF0;
    r.b = 0x0F;
    run(&[0xA0], 1, &mut r, &mut m);
    assert_eq!(r.a, 0x00);
    assert!(r.flag(Flag::Zero));
    assert!(r.flag(Flag::HalfCarry));
    assert!(!r.flag(Flag::Carry));
    // OR A, C.
    let (mut r, mut m) = fresh();
    r.a = 0xF0;
    r.c = 0x0F;
    run(&[0xB1], 1, &mut r, &mut m);
    assert_eq!(r.a, 0xFF);
    assert!(!r.flag(Flag::Zero));
    assert!(!r.flag(Flag::HalfCarry));
    // XOR A, D.
    let (mut r, mut m) = fresh();
    r.a = 0xFF;
    r.d = 0x0F;
    run(&[0xAA], 1, &mut r, &mut m);
    assert_eq!(r.a, 0xF0);
}

#[test]
fn compare_immediate_leaves_accumulator() {
    // CP $42 against A = 0x42: equality shows as Zero.
    let (mut r, mut m) = fresh();
    r.a = 0x42;
    run(&[0xFE, 0x42], 1, &mut r, &mut m);
    assert_eq!(r.a, 0x42);
    assert!(r.flag(Flag::Zero));
    assert!(r.flag(Flag::Negative));
    // CP $90 against A = 0x42: borrow shows as Carry.
    let (mut r, mut m) = fresh();
    r.a = 0x42;
    run(&[0xFE, 0x90], 1, &mut r, &mut m);
    assert_eq!(r.a, 0x42);
    assert!(r.flag(Flag::Carry));
    assert!(!r.flag(Flag::Zero));
}

#[test]
fn legacy_rotates_clear_zero_even_on_zero_result() {
    // RLCA on A = 0x00: result zero, Zero flag still clear.
    let (mut r, mut m) = fresh();
    run(&[0x07], 1, &mut r, &mut m);
    assert_eq!(r.a, 0x00);
    assert!(!r.flag(Flag::Zero));
    // The extended RLC A reports Zero for the same byte.
    let (mut r, mut m) = fresh();
    run(&[0xCB, 0x07], 1, &mut r, &mut m);
    assert_eq!(r.a, 0x00);
    assert!(r.flag(Flag::Zero));
}

#[test]
fn rotate_left_carry_wraps_bit_seven() {
    // RLCA on 0x85: bit 7 to Carry and to bit 0.
    let (mut r, mut m) = fresh();
    r.a = 0x85;
    run(&[0x07], 1, &mut r, &mut m);
    assert_eq!(r.a, 0x0B);
    assert!(r.flag(Flag::Carry));
}

#[test]
fn rotate_through_carry_feeds_old_carry_in() {
    // RLA with Carry set on A = 0x00: carry enters bit 0 and leaves.
    let (mut r, mut m) = fresh();
    r.set_flag(Flag::Carry);
    run(&[0x17], 1, &mut r, &mut m);
    assert_eq!(r.a, 0x01);
    assert!(!r.flag(Flag::Carry));
    // RRA with Carry set on A = 0x01: both directions at once.
    let (mut r, mut m) = fresh();
    r.a = 0x01;
    r.set_flag(Flag::Carry);
    run(&[0x1F], 1, &mut r, &mut m);
    assert_eq!(r.a, 0x80);
    assert!(r.flag(Flag::Carry));
}

#[test]
fn extended_shifts() {
    // SLA B on 0x81.
    let (mut r, mut m) = fresh();
    r.b = 0x81;
    run(&[0xCB, 0x20], 1, &mut r, &mut m);
    assert_eq!(r.b, 0x02);
    assert!(r.flag(Flag::Carry));
    // SRA B keeps the sign bit.
    let (mut r, mut m) = fresh();
    r.b = 0x81;
    run(&[0xCB, 0x28], 1, &mut r, &mut m);
    assert_eq!(r.b, 0xC0);
    assert!(r.flag(Flag::Carry));
    // SRL B clears the sign bit.
    let (mut r, mut m) = fresh();
    r.b = 0x81;
    run(&[0xCB, 0x38], 1, &mut r, &mut m);
    assert_eq!(r.b, 0x40);
    assert!(r.flag(Flag::Carry));
    // SWAP A exchanges the nibbles and clears Carry.
    let (mut r, mut m) = fresh();
    r.a = 0xAB;
    r.set_flag(Flag::Carry);
    run(&[0xCB, 0x37], 1, &mut r, &mut m);
    assert_eq!(r.a, 0xBA);
    assert!(!r.flag(Flag::Carry));
}

#[test]
fn bit_test_sets_zero_from_complement() {
    // BIT 7, H with the bit set: Zero clear, HalfCarry forced on.
    let (mut r, mut m) = fresh();
    r.h = 0x80;
    r.set_flag(Flag::Carry);
    run(&[0xCB, 0x7C], 1, &mut r, &mut m);
    assert!(!r.flag(Flag::Zero));
    assert!(r.flag(Flag::HalfCarry));
    assert!(!r.flag(Flag::Negative));
    assert!(r.flag(Flag::Carry), "Carry must survive BIT");
    assert_eq!(r.h, 0x80);
    // With the bit clear, Zero sets.
    let (mut r, mut m) = fresh();
    run(&[0xCB, 0x7C], 1, &mut r, &mut m);
    assert!(r.flag(Flag::Zero));
}

#[test]
fn set_and_reset_force_single_bits() {
    // SET 7, A then RES 7, A.
    let (mut r, mut m) = fresh();
    run(&[0xCB, 0xFF], 1, &mut r, &mut m);
    assert_eq!(r.a, 0x80);
    r.set_pc(0);
    run(&[0xCB, 0xBF], 1, &mut r, &mut m);
    assert_eq!(r.a, 0x00);
    // Memory destinations work through (HL).
    let (mut r, mut m) = fresh();
    r.set_hl(0xC000);
    run(&[0xCB, 0xC6], 1, &mut r, &mut m);
    assert_eq!(m.read(0xC000), 0x01);
}

#[test]
fn sixteen_bit_inc_dec_leave_flags_alone() {
    // INC HL wraps from 0xFFFF without touching flags.
    let (mut r, mut m) = fresh();
    r.set_hl(0xFFFF);
    r.set_flag(Flag::Zero);
    r.set_flag(Flag::Carry);
    run(&[0x23], 1, &mut r, &mut m);
    assert_eq!(r.hl(), 0x0000);
    assert!(r.flag(Flag::Zero));
    assert!(r.flag(Flag::Carry));
    // DEC BC wraps from zero.
    let (mut r, mut m) = fresh();
    run(&[0x0B], 1, &mut r, &mut m);
    assert_eq!(r.bc(), 0xFFFF);
    assert!(!r.flag(Flag::Zero));
}

#[test]
fn add16_flags_and_wrap() {
    // ADD HL, BC carrying out of bit 11; Zero kept from before.
    let (mut r, mut m) = fresh();
    r.set_hl(0x0FFF);
    r.set_bc(0x0001);
    r.set_flag(Flag::Zero);
    run(&[0x09], 1, &mut r, &mut m);
    assert_eq!(r.hl(), 0x1000);
    assert!(r.flag(Flag::HalfCarry));
    assert!(!r.flag(Flag::Carry));
    assert!(r.flag(Flag::Zero), "Zero is untouched by ADD HL, rr");
    // Carry out of bit 15.
    let (mut r, mut m) = fresh();
    r.set_hl(0xFFFF);
    r.set_bc(0x0001);
    run(&[0x09], 1, &mut r, &mut m);
    assert_eq!(r.hl(), 0x0000);
    assert!(r.flag(Flag::Carry));
    // ADD HL, HL doubles.
    let (mut r, mut m) = fresh();
    r.set_hl(0x1200);
    run(&[0x29], 1, &mut r, &mut m);
    assert_eq!(r.hl(), 0x2400);
}

#[test]
fn load16_stores_stack_pointer_to_memory() {
    // LD ($C000), SP.
    let (mut r, mut m) = fresh();
    r.set_sp(0xBEEF);
    run(&[0x08, 0x00, 0xC0], 1, &mut r, &mut m);
    assert_eq!(m.read(0xC000), 0xEF);
    assert_eq!(m.read(0xC001), 0xBE);
}

#[test]
fn high_page_and_indirect_loads() {
    // LD ($FF00+$47), A then LD A, ($FF00+C).
    let (mut r, mut m) = fresh();
    r.a = 0x91;
    run(&[0xE0, 0x47], 1, &mut r, &mut m);
    assert_eq!(m.read(0xFF47), 0x91);
    let (mut r, mut m) = fresh();
    r.c = 0x44;
    m.write(0xFF44, 0x33);
    run(&[0xF2], 1, &mut r, &mut m);
    assert_eq!(r.a, 0x33);
    // LD A, (BC).
    let (mut r, mut m) = fresh();
    r.set_bc(0x9000);
    m.write(0x9000, 0x66);
    run(&[0x0A], 1, &mut r, &mut m);
    assert_eq!(r.a, 0x66);
}

#[test]
fn call_pushes_return_address_and_ret_pops_it() {
    let (mut r, mut m) = fresh();
    let mut program = vec![0u8; 0x300];
    // At 0x0100: CALL $0200. At 0x0200: RET.
    program[0x0100] = 0xCD;
    program[0x0101] = 0x00;
    program[0x0102] = 0x02;
    program[0x0200] = 0xC9;
    r.set_pc(0x0100);
    r.set_sp(0xFFFE);
    run(&program, 1, &mut r, &mut m);
    assert_eq!(r.pc(), 0x0200);
    assert_eq!(r.sp(), 0xFFFC);
    assert_eq!(m.read(0xFFFC), 0x03);
    assert_eq!(m.read(0xFFFD), 0x01);
    run(&program, 1, &mut r, &mut m);
    assert_eq!(r.pc(), 0x0103);
    assert_eq!(r.sp(), 0xFFFE);
}

#[test]
fn conditional_call_and_jump_test_the_flag() {
    // CALL Z not taken: PC just advances.
    let (mut r, mut m) = fresh();
    r.set_sp(0xFFFE);
    run(&[0xCC, 0x00, 0x02], 1, &mut r, &mut m);
    assert_eq!(r.pc(), 3);
    assert_eq!(r.sp(), 0xFFFE);
    // CALL Z taken.
    let (mut r, mut m) = fresh();
    r.set_sp(0xFFFE);
    r.set_flag(Flag::Zero);
    run(&[0xCC, 0x00, 0x02], 1, &mut r, &mut m);
    assert_eq!(r.pc(), 0x0200);
    assert_eq!(r.sp(), 0xFFFC);
    // JR NZ taken while Zero is clear.
    let (mut r, mut m) = fresh();
    run(&[0x20, 0x10], 1, &mut r, &mut m);
    assert_eq!(r.pc(), 0x12);
    // JR NZ not taken once Zero is set.
    let (mut r, mut m) = fresh();
    r.set_flag(Flag::Zero);
    run(&[0x20, 0x10], 1, &mut r, &mut m);
    assert_eq!(r.pc(), 2);
}

#[test]
fn push_pop_move_words_through_the_stack() {
    // PUSH BC ; POP DE copies BC into DE.
    let (mut r, mut m) = fresh();
    r.set_bc(0x1234);
    r.set_sp(0xFFFE);
    run(&[0xC5, 0xD1], 2, &mut r, &mut m);
    assert_eq!(r.de(), 0x1234);
    assert_eq!(r.sp(), 0xFFFE);
    // POP AF masks the low nibble of the restored flags.
    let (mut r, mut m) = fresh();
    r.set_bc(0x12FF);
    r.set_sp(0xFFFE);
    run(&[0xC5, 0xF1], 2, &mut r, &mut m);
    assert_eq!(r.a, 0x12);
    assert_eq!(r.flags, 0xF0);
}

#[test]
fn nop_halt_stop_only_advance_pc() {
    let (mut r, mut m) = fresh();
    run(&[0x00], 1, &mut r, &mut m);
    assert_eq!(r.pc(), 1);
    let (mut r, mut m) = fresh();
    run(&[0x76], 1, &mut r, &mut m);
    assert_eq!(r.pc(), 1);
    let (mut r, mut m) = fresh();
    run(&[0x10, 0x00], 1, &mut r, &mut m);
    assert_eq!(r.pc(), 2);
}

#[test]
fn boot_style_sequence() {
    // LD SP, $FFFE ; XOR A, A ; LD HL, $9FFF ; LD (HL-), A — the first
    // four steps of the canonical boot sequence.
    let (mut r, mut m) = fresh();
    m.write(0x9FFF, 0xAA);
    run(
        &[0x31, 0xFE, 0xFF, 0xAF, 0x21, 0xFF, 0x9F, 0x32],
        4,
        &mut r,
        &mut m,
    );
    assert_eq!(r.sp(), 0xFFFE);
    assert_eq!(r.a, 0x00);
    assert_eq!(m.read(0x9FFF), 0x00);
    assert_eq!(r.hl(), 0x9FFE);
    assert_eq!(r.pc(), 8);
}
