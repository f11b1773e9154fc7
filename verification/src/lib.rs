//! An interpreter core for a subset of the Intel 8080 instruction set.
//!
//! The library models the processor state (register file, flag bank and a
//! flat 64 KiB memory), decodes one opcode byte at a time and executes the
//! matching instruction semantics.  Every executable function carries a
//! contract that pins its effect on the processor state down to a
//! mathematical model of the machine.

pub mod alu_instr;
pub mod dispatch;
pub mod mov;
pub mod state;
