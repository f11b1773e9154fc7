//! Arithmetic/logic instructions and the flag derivation rules: `INR`/`DCR`,
//! `ADD`/`ADC`/`SUB`/`SBB`, `ANA`/`XRA`/`ORA` and `CMP`, each in its
//! register, memory and immediate operand forms.

use vstd::prelude::*;

use crate::state::lemma_opcode_fields;
use crate::state::pc_inc;
use crate::state::Alu;
use crate::state::Registers;
use crate::state::State;
use crate::state::StateView;

verus! {

/// Number of set bits in a byte, read off digit by digit.
pub open spec fn popcount(r: u8) -> int {
    (r as int) % 2 + ((r as int) / 2) % 2 + ((r as int) / 4) % 2 + ((r as int) / 8) % 2 + ((r
        as int) / 16) % 2 + ((r as int) / 32) % 2 + ((r as int) / 64) % 2 + ((r as int) / 128) % 2
}

/// Zero flag: the eight-bit result is zero.
pub open spec fn flag_zero(r: u8) -> bool {
    r == 0
}

/// Sign flag: the result read as a signed byte is negative, i.e. its top
/// bit is set.
pub open spec fn flag_sign(r: u8) -> bool {
    r >= 0x80
}

/// Parity flag: the result has an even number of set bits.
pub open spec fn flag_parity(r: u8) -> bool {
    popcount(r) % 2 == 0
}

/// A carry-in or borrow-in flag as the number it contributes.
pub open spec fn bool_bit(b: bool) -> int {
    if b {
        1
    } else {
        0
    }
}

/// Eight-bit wraparound sum.
pub open spec fn add_val(a: u8, b: u8, cin: bool) -> u8 {
    ((a + b + bool_bit(cin)) % 256) as u8
}

/// Carry out of an addition: the operands overflow the eight-bit domain.
pub open spec fn add_carry(a: u8, b: u8, cin: bool) -> bool {
    a + b + bool_bit(cin) > 255
}

/// Auxiliary carry of an addition: carry out of the low nibble.
pub open spec fn add_acarry(a: u8, b: u8, cin: bool) -> bool {
    a % 16 + b % 16 + bool_bit(cin) > 15
}

/// Eight-bit wraparound difference.
pub open spec fn sub_val(a: u8, b: u8, bin: bool) -> u8 {
    ((a + 256 - b - bool_bit(bin)) % 256) as u8
}

/// Carry out of a subtraction: the subtrahend plus borrow numerically
/// exceeds the minuend, i.e. a borrow was required.
pub open spec fn sub_carry(a: u8, b: u8, bin: bool) -> bool {
    b + bool_bit(bin) > a
}

/// Auxiliary carry of a subtraction: the low-nibble difference underflows.
pub open spec fn sub_acarry(a: u8, b: u8, bin: bool) -> bool {
    b % 16 + bool_bit(bin) > a % 16
}

/// The flag bank after an arithmetic instruction: zero, sign and parity
/// from the result, carry and auxiliary carry as computed.
pub open spec fn arith_flags(res: u8, carry: bool, acarry: bool) -> Alu {
    Alu {
        zero: flag_zero(res),
        sign: flag_sign(res),
        parity: flag_parity(res),
        carry: carry,
        acarry: acarry,
    }
}

/// The flag bank after a logical instruction: zero, sign and parity from
/// the result; carry and auxiliary carry forced to false.
pub open spec fn logic_flags(res: u8) -> Alu {
    arith_flags(res, false, false)
}

/// The source operand of an arithmetic/logic instruction: the immediate
/// byte at `pc` when the opcode's immediate bit is set, otherwise the
/// memory cell at `HL` for field 6 or the named register.
pub open spec fn alu_src(op: u8, s: StateView) -> u8 {
    if op & 0x40 == 0x40 {
        s.mem[s.regs.pc as int]
    } else if op & 7 == 6 {
        s.mem[s.regs.pair_val(Registers::PAIR_H) as int]
    } else {
        s.regs.reg_val(op & 7)
    }
}

/// The program counter after resolving the source operand: advanced once
/// for an immediate fetch, unchanged otherwise.
pub open spec fn alu_next_pc(op: u8, s: StateView) -> u16 {
    if op & 0x40 == 0x40 {
        pc_inc(s.regs.pc)
    } else {
        s.regs.pc
    }
}

/// The state after `ADD`/`ADI` (with `cin` false) or `ADC`/`ACI` (with the
/// prior carry as `cin`).
pub open spec fn add_effect(op: u8, s: StateView, cin: bool) -> StateView {
    let a = s.regs.a;
    let b = alu_src(op, s);
    StateView {
        regs: s.regs.with_pc(alu_next_pc(op, s)).with_a(add_val(a, b, cin)),
        alu: arith_flags(add_val(a, b, cin), add_carry(a, b, cin), add_acarry(a, b, cin)),
        mem: s.mem,
    }
}

/// The state after `SUB`/`SUI` (with `bin` false) or `SBB`/`SBI` (with the
/// prior carry as borrow-in `bin`).
pub open spec fn sub_effect(op: u8, s: StateView, bin: bool) -> StateView {
    let a = s.regs.a;
    let b = alu_src(op, s);
    StateView {
        regs: s.regs.with_pc(alu_next_pc(op, s)).with_a(sub_val(a, b, bin)),
        alu: arith_flags(sub_val(a, b, bin), sub_carry(a, b, bin), sub_acarry(a, b, bin)),
        mem: s.mem,
    }
}

/// The state after `ANA`/`ANI`.
pub open spec fn ana_effect(op: u8, s: StateView) -> StateView {
    let res = s.regs.a & alu_src(op, s);
    StateView {
        regs: s.regs.with_pc(alu_next_pc(op, s)).with_a(res),
        alu: logic_flags(res),
        mem: s.mem,
    }
}

/// The state after `XRA`/`XRI`.
pub open spec fn xra_effect(op: u8, s: StateView) -> StateView {
    let res = s.regs.a ^ alu_src(op, s);
    StateView {
        regs: s.regs.with_pc(alu_next_pc(op, s)).with_a(res),
        alu: logic_flags(res),
        mem: s.mem,
    }
}

/// The state after `ORA`/`ORI`.
pub open spec fn ora_effect(op: u8, s: StateView) -> StateView {
    let res = s.regs.a | alu_src(op, s);
    StateView {
        regs: s.regs.with_pc(alu_next_pc(op, s)).with_a(res),
        alu: logic_flags(res),
        mem: s.mem,
    }
}

/// The state after `CMP`/`CPI`: the accumulator is unmodified; zero and
/// carry come from the direct comparison, sign, parity and auxiliary carry
/// from the discarded subtraction result.
pub open spec fn cmp_effect(op: u8, s: StateView) -> StateView {
    let a = s.regs.a;
    let b = alu_src(op, s);
    StateView {
        regs: s.regs.with_pc(alu_next_pc(op, s)),
        alu: Alu {
            zero: a == b,
            carry: a < b,
            sign: flag_sign(sub_val(a, b, false)),
            parity: flag_parity(sub_val(a, b, false)),
            acarry: sub_acarry(a, b, false),
        },
        mem: s.mem,
    }
}

/// The state after `INR` or `DCR`: the destination register or memory cell
/// is incremented or decremented in place; zero, sign, parity and auxiliary
/// carry are set from the result; carry is left untouched.
pub open spec fn inr_dcr_effect(op: u8, s: StateView) -> StateView {
    let dst = (op >> 3) & 7;
    let inc = op & 1 == 0;
    let x = if dst == 6 {
        s.mem[s.regs.pair_val(Registers::PAIR_H) as int]
    } else {
        s.regs.reg_val(dst)
    };
    let res = if inc {
        add_val(x, 1, false)
    } else {
        sub_val(x, 1, false)
    };
    let acy = if inc {
        add_acarry(x, 1, false)
    } else {
        sub_acarry(x, 1, false)
    };
    StateView {
        regs: if dst == 6 {
            s.regs
        } else {
            s.regs.with_reg(dst, res)
        },
        alu: Alu {
            zero: flag_zero(res),
            sign: flag_sign(res),
            parity: flag_parity(res),
            carry: s.alu.carry,
            acarry: acy,
        },
        mem: if dst == 6 {
            s.mem.update(s.regs.pair_val(Registers::PAIR_H) as int, res)
        } else {
            s.mem
        },
    }
}

fn set_zero_flag(result: u8, state: &mut State)
    ensures
        final(state).regs == old(state).regs,
        final(state).memory@ == old(state).memory@,
        final(state).alu == (Alu { zero: flag_zero(result), ..old(state).alu }),
{
    state.alu.zero = result == 0;
}

fn set_parity_flag(result: u8, state: &mut State)
    ensures
        final(state).regs == old(state).regs,
        final(state).memory@ == old(state).memory@,
        final(state).alu == (Alu { parity: flag_parity(result), ..old(state).alu }),
{
    let ones: u8 = result % 2 + (result / 2) % 2 + (result / 4) % 2 + (result / 8) % 2 + (result
        / 16) % 2 + (result / 32) % 2 + (result / 64) % 2 + (result / 128) % 2;
    state.alu.parity = ones % 2 == 0;
}

fn set_sign_flag(result: u8, state: &mut State)
    ensures
        final(state).regs == old(state).regs,
        final(state).memory@ == old(state).memory@,
        final(state).alu == (Alu { sign: flag_sign(result), ..old(state).alu }),
{
    state.alu.sign = result >= 0x80;
}

fn set_zps_flags(result: u8, state: &mut State)
    ensures
        final(state).regs == old(state).regs,
        final(state).memory@ == old(state).memory@,
        final(state).alu == (Alu {
            zero: flag_zero(result),
            parity: flag_parity(result),
            sign: flag_sign(result),
            ..old(state).alu
        }),
{
    set_zero_flag(result, state);
    set_parity_flag(result, state);
    set_sign_flag(result, state);
}

/// Resolves the source operand of an arithmetic/logic opcode, fetching and
/// consuming the immediate byte at `pc` when the immediate bit is set.
fn get_alu_oper_src(opcode: u8, state: &mut State) -> (r: u8)
    requires
        old(state).wf(),
    ensures
        final(state).wf(),
        r == alu_src(opcode, old(state)@),
        final(state).regs == old(state).regs.with_pc(alu_next_pc(opcode, old(state)@)),
        final(state).alu == old(state).alu,
        final(state).memory@ == old(state).memory@,
{
    if opcode & 0x40 == 0x40 {
        let pc = state.regs.pc;
        let imm = state.memory[pc as usize];
        state.regs.pc = if pc == 0xFFFF {
            0
        } else {
            pc + 1
        };
        imm
    } else {
        let code: u8 = opcode & 7;
        if code == 6 {
            let addr = state.regs.get_pair(Registers::PAIR_H);
            state.memory[addr as usize]
        } else {
            proof {
                lemma_opcode_fields(opcode);
            }
            state.regs.get_by_id(code)
        }
    }
}

/// INR, DCR - increment or decrement a register or memory cell in place.
/// Sets zero, sign, parity and auxiliary carry; never touches carry.
pub fn inr_dcr(opcode: u8, state: &mut State)
    requires
        old(state).wf(),
    ensures
        final(state).wf(),
        final(state)@ == inr_dcr_effect(opcode, old(state)@),
{
    let dst_code: u8 = (opcode >> 3) & 7;
    let inc = opcode & 1 == 0;
    let x: u8;
    if dst_code == 6 {
        let addr = state.regs.get_pair(Registers::PAIR_H);
        x = state.memory[addr as usize];
        let res: u8 = ((x as u16 + if inc {
            1
        } else {
            255
        }) % 256) as u8;
        state.memory.set(addr as usize, res);
        set_zps_flags(res, state);
    } else {
        proof {
            lemma_opcode_fields(opcode);
        }
        x = state.regs.get_by_id(dst_code);
        let res: u8 = ((x as u16 + if inc {
            1
        } else {
            255
        }) % 256) as u8;
        let dst = state.regs.get_ref_by_id(dst_code);
        *dst = res;
        set_zps_flags(res, state);
    }
    state.alu.acarry = if inc {
        x % 16 == 15
    } else {
        x % 16 == 0
    };
}

/// ADD r|M, ADI - add the operand to the accumulator.
pub fn add(opcode: u8, state: &mut State)
    requires
        old(state).wf(),
    ensures
        final(state).wf(),
        final(state)@ == add_effect(opcode, old(state)@, false),
{
    let src = get_alu_oper_src(opcode, state);
    let a = state.regs.a;
    let sum: u16 = a as u16 + src as u16;
    state.alu.carry = sum > 0xFF;
    state.alu.acarry = a % 16 + src % 16 > 0xF;
    let res: u8 = (sum % 256) as u8;
    state.regs.a = res;
    set_zps_flags(res, state);
}

/// ADC r|M, ACI - add the operand and the prior carry to the accumulator.
pub fn adc(opcode: u8, state: &mut State)
    requires
        old(state).wf(),
    ensures
        final(state).wf(),
        final(state)@ == add_effect(opcode, old(state)@, old(state).alu.carry),
{
    let src = get_alu_oper_src(opcode, state);
    let a = state.regs.a;
    let carry: u8 = if state.alu.carry {
        1
    } else {
        0
    };
    let sum: u16 = a as u16 + src as u16 + carry as u16;
    state.alu.carry = sum > 0xFF;
    state.alu.acarry = a % 16 + src % 16 + carry > 0xF;
    let res: u8 = (sum % 256) as u8;
    state.regs.a = res;
    set_zps_flags(res, state);
}

/// SUB r|M, SUI - subtract the operand from the accumulator.
pub fn sub(opcode: u8, state: &mut State)
    requires
        old(state).wf(),
    ensures
        final(state).wf(),
        final(state)@ == sub_effect(opcode, old(state)@, false),
{
    let src = get_alu_oper_src(opcode, state);
    let a = state.regs.a;
    state.alu.carry = src > a;
    state.alu.acarry = src % 16 > a % 16;
    let res: u8 = ((a as u16 + 256 - src as u16) % 256) as u8;
    state.regs.a = res;
    set_zps_flags(res, state);
}

/// SBB r|M, SBI - subtract the operand and the prior carry (as borrow)
/// from the accumulator.
pub fn sbb(opcode: u8, state: &mut State)
    requires
        old(state).wf(),
    ensures
        final(state).wf(),
        final(state)@ == sub_effect(opcode, old(state)@, old(state).alu.carry),
{
    let src = get_alu_oper_src(opcode, state);
    let a = state.regs.a;
    let borrow: u8 = if state.alu.carry {
        1
    } else {
        0
    };
    state.alu.carry = src as u16 + borrow as u16 > a as u16;
    state.alu.acarry = src % 16 + borrow > a % 16;
    let res: u8 = ((a as u16 + 256 - src as u16 - borrow as u16) % 256) as u8;
    state.regs.a = res;
    set_zps_flags(res, state);
}

/// ANA r|M, ANI - bitwise and the operand into the accumulator; carry and
/// auxiliary carry are forced to false.
pub fn ana(opcode: u8, state: &mut State)
    requires
        old(state).wf(),
    ensures
        final(state).wf(),
        final(state)@ == ana_effect(opcode, old(state)@),
{
    let src = get_alu_oper_src(opcode, state);
    let res: u8 = state.regs.a & src;
    state.regs.a = res;
    set_zps_flags(res, state);
    state.alu.carry = false;
    state.alu.acarry = false;
}

/// XRA r|M, XRI - bitwise xor the operand into the accumulator; carry and
/// auxiliary carry are forced to false.
pub fn xra(opcode: u8, state: &mut State)
    requires
        old(state).wf(),
    ensures
        final(state).wf(),
        final(state)@ == xra_effect(opcode, old(state)@),
{
    let src = get_alu_oper_src(opcode, state);
    let res: u8 = state.regs.a ^ src;
    state.regs.a = res;
    set_zps_flags(res, state);
    state.alu.carry = false;
    state.alu.acarry = false;
}

/// ORA r|M, ORI - bitwise or the operand into the accumulator; carry and
/// auxiliary carry are forced to false.
pub fn ora(opcode: u8, state: &mut State)
    requires
        old(state).wf(),
    ensures
        final(state).wf(),
        final(state)@ == ora_effect(opcode, old(state)@),
{
    let src = get_alu_oper_src(opcode, state);
    let res: u8 = state.regs.a | src;
    state.regs.a = res;
    set_zps_flags(res, state);
    state.alu.carry = false;
    state.alu.acarry = false;
}

/// CMP r|M, CPI - compare the operand with the accumulator and set all
/// five flags; the accumulator is unmodified.
pub fn cmp(opcode: u8, state: &mut State)
    requires
        old(state).wf(),
    ensures
        final(state).wf(),
        final(state)@ == cmp_effect(opcode, old(state)@),
{
    let src = get_alu_oper_src(opcode, state);
    let a = state.regs.a;
    let diff: u8 = ((a as u16 + 256 - src as u16) % 256) as u8;
    state.alu.zero = a == src;
    state.alu.carry = a < src;
    set_parity_flag(diff, state);
    set_sign_flag(diff, state);
    state.alu.acarry = src % 16 > a % 16;
}

/// ADD then SUB round-trip: adding a register's value to the accumulator
/// and subtracting it again restores the accumulator's prior value,
/// and the final carry and auxiliary carry reflect only the second
/// operation.
pub proof fn lemma_add_sub_round_trip(s: StateView, x: u8)
    requires
        s.regs.b == x,
    ensures
        ({
            let s1 = add_effect(0x80, s, false);
            let s2 = sub_effect(0x90, s1, false);
            &&& s2.regs.a == s.regs.a
            &&& s2.alu.carry == sub_carry(s1.regs.a, x, false)
            &&& s2.alu.acarry == sub_acarry(s1.regs.a, x, false)
        }),
{
    assert(0x80u8 & 0x40 != 0x40 && 0x80u8 & 7 == 0 && 0x90u8 & 0x40 != 0x40 && 0x90u8 & 7 == 0)
        by (bit_vector);
    let a = s.regs.a;
    assert(sub_val(add_val(a, x, false), x, false) == a) by (bit_vector);
}

/// The logical instructions always force carry and auxiliary carry to
/// false, regardless of operand values.
pub proof fn lemma_logic_clears_carries(op: u8, s: StateView)
    ensures
        ana_effect(op, s).alu.carry == false,
        ana_effect(op, s).alu.acarry == false,
        xra_effect(op, s).alu.carry == false,
        xra_effect(op, s).alu.acarry == false,
        ora_effect(op, s).alu.carry == false,
        ora_effect(op, s).alu.acarry == false,
{
}

/// INR and DCR never change the carry flag.
pub proof fn lemma_inr_dcr_preserves_carry(op: u8, s: StateView)
    ensures
        inr_dcr_effect(op, s).alu.carry == s.alu.carry,
{
}

} // verus!
