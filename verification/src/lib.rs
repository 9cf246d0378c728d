//! Instruction decode-and-execution core of an ARM7TDMI (ARMv4T) CPU emulator.
//!
//! The crate classifies raw 32-bit (ARM) and 16-bit (THUMB) opcodes into
//! instruction families, computes operands and memory addresses through the
//! processor's addressing modes, evaluates condition codes, maintains the
//! banked register file across processor modes, and applies instruction
//! semantics to that register file. The byte-addressable memory bus is an
//! external collaborator reached through a minimal byte read/write contract.

use vstd::prelude::*;

pub mod block;
pub mod bus;
pub mod classify;
pub mod condition;
pub mod exec_unit;
pub mod loadstore;
pub mod psr;
pub mod registers;
pub mod shifter;

verus! {

/// Signalled when an opcode matches no known instruction family or matches a
/// family-specific sub-encoding that the architecture leaves undefined.
/// The caller decides whether to trap, skip, or abort; the core itself
/// performs none of the instruction's side effects in that case.
#[derive(Clone, Copy, Debug, PartialEq, Eq, Structural)]
pub struct UndefinedInstruction;

} // verus!
