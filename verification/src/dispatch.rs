//! The opcode classifier and dispatcher: partitions the 256 opcode byte
//! values into instruction classes by fixed bit masks, in a defined
//! priority order, and invokes the matching handler.  Also the program
//! loader that places an image at the bottom of memory.

use vstd::prelude::*;

use crate::alu_instr;
use crate::mov;
use crate::state::State;
use crate::state::StateView;
use crate::state::MEM_SIZE;

verus! {

/// What executing one instruction did, when it did not fail.
#[derive(Clone, Copy, PartialEq, Eq, Structural, Debug)]
pub enum Step {
    /// An ordinary instruction ran; execution may continue.
    Ran,
    /// The halt instruction was reached; the run is over.
    Halted,
}

/// The fatal error conditions of the decode/execute core.  None is
/// recoverable: each one stops execution immediately.
#[derive(Clone, Copy, PartialEq, Eq, Structural, Debug)]
pub enum ExecError {
    /// A `MOV` resolved both operands to memory: an architecturally
    /// impossible encoding that must be rejected, never executed.
    IllegalMemoryToMemoryMove,
    /// The fetched byte matches none of the classifier's patterns; carries
    /// the offending opcode value for diagnosis.
    UnimplementedOpcode(u8),
}

/// The `MOV` class: `01 ddd sss`, every byte but the halt opcode, which
/// occupies the memory-to-memory slot.
pub open spec fn is_mov_op(op: u8) -> bool {
    op & 0xC0 == 0x40 && op != 0x76
}

/// The `MVI` class: `00 ddd 110`.
pub open spec fn is_mvi_op(op: u8) -> bool {
    op & 0xC7 == 0x06
}

/// The `INR`/`DCR` class: `00 ddd 10o`, the low bit selecting decrement.
pub open spec fn is_inr_dcr_op(op: u8) -> bool {
    op & 0xC6 == 0x04
}

/// The arithmetic/logic class: `10 fff sss` for the register and memory
/// forms, `11 fff 110` for the immediate forms; the `fff` field selects
/// among ADD, ADC, SUB, SBB, ANA, XRA, ORA and CMP.
pub open spec fn is_alu_op(op: u8) -> bool {
    op & 0xC0 == 0x80 || op & 0xC7 == 0xC6
}

/// The state after an arithmetic/logic instruction, selected by the
/// three-bit function field of the opcode.
pub open spec fn alu_effect(op: u8, s: StateView) -> StateView {
    let sel = (op >> 3) & 7;
    if sel == 0 {
        alu_instr::add_effect(op, s, false)
    } else if sel == 1 {
        alu_instr::add_effect(op, s, s.alu.carry)
    } else if sel == 2 {
        alu_instr::sub_effect(op, s, false)
    } else if sel == 3 {
        alu_instr::sub_effect(op, s, s.alu.carry)
    } else if sel == 4 {
        alu_instr::ana_effect(op, s)
    } else if sel == 5 {
        alu_instr::xra_effect(op, s)
    } else if sel == 6 {
        alu_instr::ora_effect(op, s)
    } else {
        alu_instr::cmp_effect(op, s)
    }
}

/// One decode-and-execute step as a mathematical function: the fixed halt
/// opcode first, then the bit-mask patterns in priority order; a byte that
/// matches none of them is an unimplemented opcode.
pub open spec fn step_spec(op: u8, s: StateView) -> Result<(StateView, Step), ExecError> {
    if op == 0x76 {
        Ok((s, Step::Halted))
    } else if is_mov_op(op) {
        Ok((mov::mov_effect(op, s), Step::Ran))
    } else if is_mvi_op(op) {
        Ok((mov::mvi_effect(op, s), Step::Ran))
    } else if is_inr_dcr_op(op) {
        Ok((alu_instr::inr_dcr_effect(op, s), Step::Ran))
    } else if is_alu_op(op) {
        Ok((alu_effect(op, s), Step::Ran))
    } else {
        Err(ExecError::UnimplementedOpcode(op))
    }
}

/// Decodes one opcode byte and executes the matching instruction, exactly
/// as `step_spec` describes: on success the state is the stepped state; on
/// failure the state is untouched and the error says why.  Every byte
/// outside the classified patterns yields `UnimplementedOpcode`.
pub fn run_instruction(opcode: u8, state: &mut State) -> (r: Result<Step, ExecError>)
    requires
        old(state).wf(),
    ensures
        final(state).wf(),
        (match r {
            Ok(step) => step_spec(opcode, old(state)@) == Ok::<(StateView, Step), ExecError>(
                (final(state)@, step),
            ),
            Err(e) => step_spec(opcode, old(state)@) == Err::<(StateView, Step), ExecError>(e)
                && *final(state) == *old(state),
        }),
{
    if opcode == 0x76 {
        Ok(Step::Halted)
    } else if opcode & 0xC0 == 0x40 {
        match mov::mov(opcode, state) {
            Ok(()) => Ok(Step::Ran),
            Err(e) => {
                proof {
                    assert(!(opcode & 0xC0 == 0x40 && opcode & 7 == 6 && (opcode >> 3) & 7 == 6
                        && opcode != 0x76)) by (bit_vector);
                }
                Err(e)
            },
        }
    } else if opcode & 0xC7 == 0x06 {
        mov::mvi(opcode, state);
        Ok(Step::Ran)
    } else if opcode & 0xC6 == 0x04 {
        alu_instr::inr_dcr(opcode, state);
        Ok(Step::Ran)
    } else if opcode & 0xC0 == 0x80 || opcode & 0xC7 == 0xC6 {
        let sel: u8 = (opcode >> 3) & 7;
        if sel == 0 {
            alu_instr::add(opcode, state);
        } else if sel == 1 {
            alu_instr::adc(opcode, state);
        } else if sel == 2 {
            alu_instr::sub(opcode, state);
        } else if sel == 3 {
            alu_instr::sbb(opcode, state);
        } else if sel == 4 {
            alu_instr::ana(opcode, state);
        } else if sel == 5 {
            alu_instr::xra(opcode, state);
        } else if sel == 6 {
            alu_instr::ora(opcode, state);
        } else {
            alu_instr::cmp(opcode, state);
        }
        Ok(Step::Ran)
    } else {
        Err(ExecError::UnimplementedOpcode(opcode))
    }
}

/// The byte image actually placed in memory: the program itself when it
/// already ends in the halt opcode, otherwise the program with one halt
/// byte appended.
pub open spec fn loaded_image(prog: Seq<u8>) -> Seq<u8> {
    if prog.len() > 0 && prog[prog.len() - 1] == 0x76 {
        prog
    } else {
        prog.push(0x76)
    }
}

/// Copies a program image into memory starting at address zero, appending
/// a halt opcode when the image does not end in one; the rest of memory
/// and the registers and flags are untouched.
pub fn load_program(program: &Vec<u8>, state: &mut State)
    requires
        old(state).wf(),
        program@.len() <= MEM_SIZE,
        program@.len() == MEM_SIZE ==> program@[MEM_SIZE - 1] == 0x76,
    ensures
        final(state).wf(),
        final(state).regs == old(state).regs,
        final(state).alu == old(state).alu,
        final(state).memory@ == loaded_image(program@) + old(state).memory@.skip(
            loaded_image(program@).len() as int,
        ),
{
    let n = program.len();
    let mut i: usize = 0;
    while i < n
        invariant
            old(state).wf(),
            state.wf(),
            i <= n,
            n == program@.len() <= MEM_SIZE,
            state.regs == old(state).regs,
            state.alu == old(state).alu,
            forall|j: int| 0 <= j < i ==> state.memory@[j] == program@[j],
            forall|j: int| i <= j < MEM_SIZE ==> state.memory@[j] == old(state).memory@[j],
        decreases n - i,
    {
        state.memory.set(i, program[i]);
        i += 1;
    }
    if n == 0 || program[n - 1] != 0x76 {
        state.memory.set(n, 0x76);
    }
    proof {
        assert(state.memory@ =~= loaded_image(program@) + old(state).memory@.skip(
            loaded_image(program@).len() as int,
        ));
    }
}

/// Comparing the accumulator with itself always yields zero set and carry
/// clear, for every accumulator value.
pub proof fn lemma_cmp_self(s: StateView)
    ensures
        step_spec(0xBF, s) matches Ok(p) && p.0.alu.zero == true && p.0.alu.carry == false && p.1
            == Step::Ran,
{
    assert(0xBFu8 != 0x76 && 0xBFu8 & 0xC0 == 0x80 && 0xBFu8 & 0xC7 != 0x06 && 0xBFu8 & 0xC6
        != 0x04 && (0xBFu8 >> 3) & 7 == 7 && 0xBFu8 & 0x40 != 0x40 && 0xBFu8 & 7 == 7)
        by (bit_vector);
}

} // verus!
