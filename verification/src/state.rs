//! The processor state: register file, flag bank and memory, together with
//! the mathematical model (`StateView`) that every contract speaks of.

use vstd::prelude::*;

verus! {

/// Size of the flat byte-addressable memory: the full 16-bit address space.
pub const MEM_SIZE: usize = 65536;

/// The eight-bit general-purpose registers plus the two sixteen-bit
/// pointers.  `pc` always holds the address of the next byte to fetch.
#[derive(Clone, Copy, PartialEq, Eq, Structural, Debug)]
pub struct Registers {
    pub pc: u16,
    pub sp: u16,
    pub a: u8,
    pub b: u8,
    pub c: u8,
    pub d: u8,
    pub e: u8,
    pub h: u8,
    pub l: u8,
}

/// The five status flags of the flag bank.
#[derive(Clone, Copy, PartialEq, Eq, Structural, Debug)]
pub struct Alu {
    pub zero: bool,
    pub carry: bool,
    pub sign: bool,
    pub parity: bool,
    pub acarry: bool,
}

/// The whole mutable processor state handed to every instruction handler.
#[derive(Debug)]
pub struct State {
    pub regs: Registers,
    pub alu: Alu,
    pub memory: Vec<u8>,
}

/// The mathematical model of a `State`: the same registers and flags, with
/// the memory abstracted to a sequence of bytes.
#[verifier::ext_equal]
pub struct StateView {
    pub regs: Registers,
    pub alu: Alu,
    pub mem: Seq<u8>,
}

impl View for State {
    type V = StateView;

    open spec fn view(&self) -> StateView {
        StateView { regs: self.regs, alu: self.alu, mem: self.memory@ }
    }
}

/// The register ids a three-bit operand field may name; id 6 always means
/// "use memory" and never reaches the register file.
pub open spec fn is_reg_id(id: u8) -> bool {
    id <= 5 || id == 7
}

/// The two-bit register-pair id space: BC, DE, HL.
pub open spec fn is_pair_id(id: i8) -> bool {
    0 <= id <= 2
}

/// The register holding the high byte of a pair.
pub open spec fn pair_high_id(id: i8) -> u8 {
    if id == 0 {
        0
    } else if id == 1 {
        2
    } else {
        4
    }
}

/// The register holding the low byte of a pair.
pub open spec fn pair_low_id(id: i8) -> u8 {
    if id == 0 {
        1
    } else if id == 1 {
        3
    } else {
        5
    }
}

/// The program counter after fetching one byte: wraparound addressing,
/// no bounds error.
pub open spec fn pc_inc(pc: u16) -> u16 {
    if pc == 0xFFFF {
        0
    } else {
        (pc + 1) as u16
    }
}

impl Registers {
    /// Internal pair ids of this interpreter, not part of the architectural
    /// register-id encoding.
    pub const PAIR_B: i8 = 0;

    pub const PAIR_D: i8 = 1;

    pub const PAIR_H: i8 = 2;

    /// The value of the register named by `id` under the fixed encoding
    /// 0:B 1:C 2:D 3:E 4:H 5:L 7:A.
    pub open spec fn reg_val(self, id: u8) -> u8 {
        if id == 0 {
            self.b
        } else if id == 1 {
            self.c
        } else if id == 2 {
            self.d
        } else if id == 3 {
            self.e
        } else if id == 4 {
            self.h
        } else if id == 5 {
            self.l
        } else {
            self.a
        }
    }

    /// The register file after storing `v` in the register named by `id`.
    pub open spec fn with_reg(self, id: u8, v: u8) -> Registers {
        if id == 0 {
            Registers { b: v, ..self }
        } else if id == 1 {
            Registers { c: v, ..self }
        } else if id == 2 {
            Registers { d: v, ..self }
        } else if id == 3 {
            Registers { e: v, ..self }
        } else if id == 4 {
            Registers { h: v, ..self }
        } else if id == 5 {
            Registers { l: v, ..self }
        } else {
            Registers { a: v, ..self }
        }
    }

    /// The register file with the accumulator replaced.
    pub open spec fn with_a(self, v: u8) -> Registers {
        Registers { a: v, ..self }
    }

    /// The register file with the program counter replaced.
    pub open spec fn with_pc(self, v: u16) -> Registers {
        Registers { pc: v, ..self }
    }

    /// The sixteen-bit value of a register pair: high byte shifted left by
    /// eight, or-ed with the low byte.
    pub open spec fn pair_val(self, id: i8) -> u16 {
        if id == 0 {
            ((self.b as u16) << 8) | (self.c as u16)
        } else if id == 1 {
            ((self.d as u16) << 8) | (self.e as u16)
        } else {
            ((self.h as u16) << 8) | (self.l as u16)
        }
    }

    /// A mutable slot for the register named by `id`.  Id 6 is reserved for
    /// memory operands and must never reach the register file.
    pub fn get_ref_by_id<'a>(&'a mut self, id: u8) -> (r: &'a mut u8)
        requires
            is_reg_id(id),
        ensures
            *r == old(self).reg_val(id),
            *final(self) == old(self).with_reg(id, *final(r)),
    {
        match id {
            0 => &mut self.b,
            1 => &mut self.c,
            2 => &mut self.d,
            3 => &mut self.e,
            4 => &mut self.h,
            5 => &mut self.l,
            _ => &mut self.a,
        }
    }

    /// The value of the register named by `id`.  Id 6 is reserved for
    /// memory operands and must never reach the register file.
    pub fn get_by_id(&self, id: u8) -> (r: u8)
        requires
            is_reg_id(id),
        ensures
            r == self.reg_val(id),
    {
        match id {
            0 => self.b,
            1 => self.c,
            2 => self.d,
            3 => self.e,
            4 => self.h,
            5 => self.l,
            _ => self.a,
        }
    }

    /// The sixteen-bit value of the pair named by an internal pair id
    /// (`PAIR_B`, `PAIR_D` or `PAIR_H`): `(high << 8) | low`.
    pub fn get_pair(&self, id: i8) -> (r: u16)
        requires
            is_pair_id(id),
        ensures
            r == self.pair_val(id),
    {
        let (regh, regl) = match id {
            0 => (self.b, self.c),
            1 => (self.d, self.e),
            _ => (self.h, self.l),
        };
        ((regh as u16) << 8) | (regl as u16)
    }
}

impl State {
    /// Well-formedness: the memory covers the whole 16-bit address space.
    pub open spec fn wf(self) -> bool {
        self.memory@.len() == MEM_SIZE
    }

    /// A freshly constructed processor state: registers, flags and memory
    /// all zeroed, except the stack pointer, which starts at the top of the
    /// address space.
    pub fn new() -> (s: State)
        ensures
            s.wf(),
            s.regs == (Registers { pc: 0, sp: 0xFFFF, a: 0, b: 0, c: 0, d: 0, e: 0, h: 0, l: 0 }),
            s.alu == (Alu { zero: false, carry: false, sign: false, parity: false, acarry: false }),
            forall|i: int| 0 <= i < MEM_SIZE ==> s.memory@[i] == 0u8,
    {
        let mut memory: Vec<u8> = Vec::new();
        let mut i: usize = 0;
        while i < MEM_SIZE
            invariant
                i <= MEM_SIZE,
                memory@.len() == i,
                forall|j: int| 0 <= j < i ==> memory@[j] == 0u8,
            decreases MEM_SIZE - i,
        {
            memory.push(0);
            i += 1;
        }
        State {
            regs: Registers { pc: 0, sp: 0xFFFF, a: 0, b: 0, c: 0, d: 0, e: 0, h: 0, l: 0 },
            alu: Alu { zero: false, carry: false, sign: false, parity: false, acarry: false },
            memory,
        }
    }
}

/// The three-bit fields of an opcode byte stay within the register-id
/// space.
pub(crate) proof fn lemma_opcode_fields(op: u8)
    ensures
        (op >> 3) & 7 <= 7,
        op & 7 <= 7,
{
    assert((op >> 3) & 7 <= 7 && op & 7 <= 7) by (bit_vector);
}

/// Writing any valid register and reading the same id back returns the
/// written value.
pub proof fn lemma_reg_write_read(regs: Registers, id: u8, v: u8)
    requires
        is_reg_id(id),
    ensures
        regs.with_reg(id, v).reg_val(id) == v,
{
}

/// Reading a register pair always yields `(high << 8) | low` of its two
/// constituent registers, whichever order the two halves were written in.
pub proof fn lemma_pair_write_order(regs: Registers, id: i8, hi: u8, lo: u8)
    requires
        is_pair_id(id),
    ensures
        regs.with_reg(pair_high_id(id), hi).with_reg(pair_low_id(id), lo).pair_val(id) == ((hi
            as u16) << 8) | (lo as u16),
        regs.with_reg(pair_low_id(id), lo).with_reg(pair_high_id(id), hi).pair_val(id) == ((hi
            as u16) << 8) | (lo as u16),
{
}

} // verus!
