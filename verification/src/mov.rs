//! Data-transfer instructions: `MOV dst,src` and `MVI dst,imm`.

use vstd::prelude::*;

use crate::dispatch::ExecError;
use crate::state::lemma_opcode_fields;
use crate::state::pc_inc;
use crate::state::Registers;
use crate::state::State;
use crate::state::StateView;

verus! {

/// A `MOV` encoding is illegal exactly when both three-bit fields name the
/// memory operand: memory-to-memory transfer is architecturally impossible.
pub open spec fn mov_illegal(op: u8) -> bool {
    op & 7 == 6 && (op >> 3) & 7 == 6
}

/// The source byte of a `MOV`: the memory cell at `HL` for field 6,
/// otherwise the named register.
pub open spec fn mov_src_val(op: u8, s: StateView) -> u8 {
    if op & 7 == 6 {
        s.mem[s.regs.pair_val(Registers::PAIR_H) as int]
    } else {
        s.regs.reg_val(op & 7)
    }
}

/// The state after a legal `MOV`: the source byte stored in the named
/// register or in the memory cell at `HL`; no flags affected.
pub open spec fn mov_effect(op: u8, s: StateView) -> StateView {
    let src = mov_src_val(op, s);
    let dst = (op >> 3) & 7;
    if dst == 6 {
        StateView {
            regs: s.regs,
            alu: s.alu,
            mem: s.mem.update(s.regs.pair_val(Registers::PAIR_H) as int, src),
        }
    } else {
        StateView { regs: s.regs.with_reg(dst, src), alu: s.alu, mem: s.mem }
    }
}

/// The state after `MVI`: the immediate byte at `pc` is fetched (advancing
/// `pc` once, with wraparound) and stored in the named register or in the
/// memory cell at `HL`; no flags affected.
pub open spec fn mvi_effect(op: u8, s: StateView) -> StateView {
    let imm = s.mem[s.regs.pc as int];
    let dst = (op >> 3) & 7;
    let regs1 = s.regs.with_pc(pc_inc(s.regs.pc));
    if dst == 6 {
        StateView {
            regs: regs1,
            alu: s.alu,
            mem: s.mem.update(s.regs.pair_val(Registers::PAIR_H) as int, imm),
        }
    } else {
        StateView { regs: regs1.with_reg(dst, imm), alu: s.alu, mem: s.mem }
    }
}

/// MOV - copy a register or memory byte into a register or memory cell.
/// Rejects the memory-to-memory combination and otherwise leaves the state
/// as `mov_effect` describes.
pub fn mov(opcode: u8, state: &mut State) -> (r: Result<(), ExecError>)
    requires
        old(state).wf(),
    ensures
        final(state).wf(),
        mov_illegal(opcode) ==> r == Err::<(), ExecError>(ExecError::IllegalMemoryToMemoryMove)
            && *final(state) == *old(state),
        !mov_illegal(opcode) ==> r == Ok::<(), ExecError>(()) && final(state)@ == mov_effect(
            opcode,
            old(state)@,
        ),
{
    let src_code: u8 = opcode & 7;
    let dst_code: u8 = (opcode >> 3) & 7;
    if dst_code == 6 && src_code == 6 {
        return Err(ExecError::IllegalMemoryToMemoryMove);
    }
    let src: u8 = if src_code == 6 {
        let addr = state.regs.get_pair(Registers::PAIR_H);
        state.memory[addr as usize]
    } else {
        proof {
            lemma_opcode_fields(opcode);
        }
        state.regs.get_by_id(src_code)
    };
    if dst_code == 6 {
        let addr = state.regs.get_pair(Registers::PAIR_H);
        state.memory.set(addr as usize, src);
    } else {
        proof {
            lemma_opcode_fields(opcode);
        }
        let dst = state.regs.get_ref_by_id(dst_code);
        *dst = src;
    }
    Ok(())
}

/// MVI - fetch the immediate byte at `pc` (advancing `pc`) and store it in
/// a register or memory cell; no flags affected.
pub fn mvi(opcode: u8, state: &mut State)
    requires
        old(state).wf(),
    ensures
        final(state).wf(),
        final(state)@ == mvi_effect(opcode, old(state)@),
{
    let pc = state.regs.pc;
    let imm = state.memory[pc as usize];
    state.regs.pc = if pc == 0xFFFF {
        0
    } else {
        pc + 1
    };
    let dst_code: u8 = (opcode >> 3) & 7;
    if dst_code == 6 {
        let addr = state.regs.get_pair(Registers::PAIR_H);
        state.memory.set(addr as usize, imm);
    } else {
        proof {
            lemma_opcode_fields(opcode);
        }
        let dst = state.regs.get_ref_by_id(dst_code);
        *dst = imm;
    }
}

} // verus!
