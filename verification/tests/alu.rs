use emu8080::state::State;

fn fresh() -> State {
    State::new()
}

#[test]
fn add_register_computes_sum_and_flags() {
    let mut s = fresh();
    s.regs.a = 5;
    s.regs.b = 3;
    emu8080::alu_instr::add(0x80, &mut s);
    assert_eq!(s.regs.a, 8);
    assert!(!s.alu.carry);
    assert!(!s.alu.zero);
    assert!(!s.alu.sign);
    // 8 = 0b1000 has one set bit: odd, so parity is false.
    assert!(!s.alu.parity);
    assert!(!s.alu.acarry);
}

#[test]
fn add_sub_round_trip_restores_accumulator() {
    // Adding x and subtracting x again restores A for every x tried,
    // including values that wrap; the final carry reflects only the
    // subtraction.
    for &(a, x) in &[(0x12u8, 0xABu8), (0x01, 0xFF), (0x00, 0x00), (0x80, 0x80), (0xFF, 0x01)] {
        let mut s = fresh();
        s.regs.a = a;
        s.regs.b = x;
        s.alu.carry = true;
        emu8080::alu_instr::add(0x80, &mut s);
        emu8080::alu_instr::sub(0x90, &mut s);
        assert_eq!(s.regs.a, a);
        let after_add = a.wrapping_add(x);
        assert_eq!(s.alu.carry, x > after_add);
        assert_eq!(s.alu.acarry, x % 16 > after_add % 16);
    }
}

#[test]
fn add_wraps_and_sets_carry() {
    let mut s = fresh();
    s.regs.a = 0xFF;
    s.regs.b = 0x02;
    emu8080::alu_instr::add(0x80, &mut s);
    assert_eq!(s.regs.a, 0x01);
    assert!(s.alu.carry);
    assert!(s.alu.acarry);
}

#[test]
fn add_low_nibble_overflow_sets_auxiliary_carry() {
    let mut s = fresh();
    s.regs.a = 0x0F;
    s.regs.b = 0x01;
    emu8080::alu_instr::add(0x80, &mut s);
    assert_eq!(s.regs.a, 0x10);
    assert!(s.alu.acarry);
    assert!(!s.alu.carry);
}

#[test]
fn adc_folds_prior_carry_into_operand() {
    let mut s = fresh();
    s.regs.a = 0x10;
    s.regs.b = 0x20;
    s.alu.carry = true;
    emu8080::alu_instr::adc(0x88, &mut s);
    assert_eq!(s.regs.a, 0x31);
    assert!(!s.alu.carry);
}

#[test]
fn sub_borrow_sets_carry() {
    let mut s = fresh();
    s.regs.a = 0x01;
    s.regs.b = 0x02;
    emu8080::alu_instr::sub(0x90, &mut s);
    assert_eq!(s.regs.a, 0xFF);
    assert!(s.alu.carry);
    assert!(s.alu.sign);
    assert!(s.alu.acarry);
}

#[test]
fn sbb_folds_prior_borrow() {
    let mut s = fresh();
    s.regs.a = 0x10;
    s.regs.b = 0x01;
    s.alu.carry = true;
    emu8080::alu_instr::sbb(0x98, &mut s);
    assert_eq!(s.regs.a, 0x0E);
    assert!(!s.alu.carry);
}

#[test]
fn logical_ops_force_carries_false() {
    // ANA, XRA, ORA always clear carry and auxiliary carry, whatever the
    // operands and whatever the flags held before.
    for &op in &[0xA0u8, 0xA8, 0xB0] {
        let mut s = fresh();
        s.regs.a = 0xF0;
        s.regs.b = 0x3C;
        s.alu.carry = true;
        s.alu.acarry = true;
        match op {
            0xA0 => emu8080::alu_instr::ana(op, &mut s),
            0xA8 => emu8080::alu_instr::xra(op, &mut s),
            _ => emu8080::alu_instr::ora(op, &mut s),
        }
        assert!(!s.alu.carry);
        assert!(!s.alu.acarry);
    }
}

#[test]
fn ana_computes_bitwise_and() {
    let mut s = fresh();
    s.regs.a = 0xF0;
    s.regs.b = 0x3C;
    emu8080::alu_instr::ana(0xA0, &mut s);
    assert_eq!(s.regs.a, 0x30);
    // 0x30 has two set bits: even, so parity is true.
    assert!(s.alu.parity);
}

#[test]
fn xra_with_self_clears_accumulator() {
    let mut s = fresh();
    s.regs.a = 0x5A;
    emu8080::alu_instr::xra(0xAF, &mut s);
    assert_eq!(s.regs.a, 0);
    assert!(s.alu.zero);
    // Zero has no set bits: even parity.
    assert!(s.alu.parity);
}

#[test]
fn ora_computes_bitwise_or() {
    let mut s = fresh();
    s.regs.a = 0x81;
    s.regs.c = 0x42;
    emu8080::alu_instr::ora(0xB1, &mut s);
    assert_eq!(s.regs.a, 0xC3);
    assert!(s.alu.sign);
}

#[test]
fn cmp_with_self_sets_zero_clears_carry() {
    for &a in &[0x00u8, 0x01, 0x7F, 0x80, 0xFF] {
        let mut s = fresh();
        s.regs.a = a;
        emu8080::alu_instr::cmp(0xBF, &mut s);
        assert!(s.alu.zero);
        assert!(!s.alu.carry);
        assert_eq!(s.regs.a, a);
    }
}

#[test]
fn cmp_smaller_accumulator_sets_carry() {
    let mut s = fresh();
    s.regs.a = 0x01;
    s.regs.b = 0x02;
    emu8080::alu_instr::cmp(0xB8, &mut s);
    assert!(!s.alu.zero);
    assert!(s.alu.carry);
    // The discarded difference is 0xFF: sign set, eight set bits.
    assert!(s.alu.sign);
    assert!(s.alu.parity);
    assert_eq!(s.regs.a, 0x01);
}

#[test]
fn inr_never_changes_carry() {
    let mut s = fresh();
    s.regs.a = 0xFF;
    s.alu.carry = true;
    emu8080::alu_instr::inr_dcr(0x3C, &mut s);
    assert_eq!(s.regs.a, 0x00);
    assert!(s.alu.zero);
    assert!(s.alu.carry);
    assert!(s.alu.acarry);
}

#[test]
fn dcr_never_changes_carry() {
    let mut s = fresh();
    s.regs.b = 0x10;
    s.alu.carry = true;
    emu8080::alu_instr::inr_dcr(0x05, &mut s);
    assert_eq!(s.regs.b, 0x0F);
    assert!(s.alu.carry);
    assert!(s.alu.acarry);
    assert!(!s.alu.zero);
}

#[test]
fn inr_dcr_work_on_memory_cell() {
    let mut s = fresh();
    s.regs.h = 0x01;
    s.regs.l = 0x00;
    s.memory[0x0100] = 0x41;
    emu8080::alu_instr::inr_dcr(0x34, &mut s);
    assert_eq!(s.memory[0x0100], 0x42);
    emu8080::alu_instr::inr_dcr(0x35, &mut s);
    assert_eq!(s.memory[0x0100], 0x41);
}

#[test]
fn immediate_form_fetches_at_pc_and_advances() {
    let mut s = fresh();
    s.regs.a = 2;
    s.memory[0] = 5;
    emu8080::alu_instr::add(0xC6, &mut s);
    assert_eq!(s.regs.a, 7);
    assert_eq!(s.regs.pc, 1);
}

#[test]
fn memory_operand_reads_cell_at_hl() {
    let mut s = fresh();
    s.regs.a = 1;
    s.regs.h = 0x20;
    s.regs.l = 0x10;
    s.memory[0x2010] = 0x30;
    emu8080::alu_instr::add(0x86, &mut s);
    assert_eq!(s.regs.a, 0x31);
}
