//! The condition evaluator: the NZCV-based predicate test shared by every
//! conditionally-executed instruction.
//!
//! The 4-bit condition field (opcode bits 31-28) selects one of the fixed
//! ARM predicates over the N, Z, C and V flags. Every conditional
//! instruction consults this exactly once before mutating any state; when the
//! condition fails the instruction performs no side effect at all.

use crate::psr::{spec_get_flag, Flag};
use crate::registers::ARM7TDMI;
use vstd::prelude::*;

verus! {

/// The fixed ARM condition table over the four flags. `cond` is the 4-bit
/// condition-field value; the reserved encoding 15 is treated as non-passing.
pub open spec fn spec_cond_passes(cond: u32, n: bool, z: bool, c: bool, v: bool) -> bool {
    if cond == 0 {
        z  // EQ
    } else if cond == 1 {
        !z  // NE
    } else if cond == 2 {
        c  // CS/HS
    } else if cond == 3 {
        !c  // CC/LO
    } else if cond == 4 {
        n  // MI
    } else if cond == 5 {
        !n  // PL
    } else if cond == 6 {
        v  // VS
    } else if cond == 7 {
        !v  // VC
    } else if cond == 8 {
        c && !z  // HI
    } else if cond == 9 {
        !c || z  // LS
    } else if cond == 10 {
        n == v  // GE
    } else if cond == 11 {
        n != v  // LT
    } else if cond == 12 {
        !z && n == v  // GT
    } else if cond == 13 {
        z || n != v  // LE
    } else if cond == 14 {
        true  // AL
    } else {
        false  // reserved
    }
}

/// Whether `opcode`'s condition field passes against the given flag values,
/// exactly per the ARM condition table.
pub fn passes(opcode: u32, n: bool, z: bool, c: bool, v: bool) -> (r: bool)
    ensures
        r == spec_cond_passes(opcode >> 28, n, z, c, v),
{
    match opcode >> 28 {
        0 => z,
        1 => !z,
        2 => c,
        3 => !c,
        4 => n,
        5 => !n,
        6 => v,
        7 => !v,
        8 => c && !z,
        9 => !c || z,
        10 => n == v,
        11 => n != v,
        12 => !z && n == v,
        13 => z || n != v,
        14 => true,
        _ => false,
    }
}

/// `spec_cond_passes` applied to the flags held in the status word `psr`.
pub open spec fn spec_pass_condition(psr: u32, opcode: u32) -> bool {
    spec_cond_passes(
        opcode >> 28,
        spec_get_flag(psr, Flag::N),
        spec_get_flag(psr, Flag::Z),
        spec_get_flag(psr, Flag::C),
        spec_get_flag(psr, Flag::V),
    )
}

impl ARM7TDMI {
    /// Evaluates `opcode`'s condition field against the current CPSR flags.
    pub fn pass_condition(&self, opcode: u32) -> (r: bool)
        requires
            self.wf(),
        ensures
            r == spec_pass_condition(self@[16], opcode),
    {
        let n = self.get_flag(Flag::N);
        let z = self.get_flag(Flag::Z);
        let c = self.get_flag(Flag::C);
        let v = self.get_flag(Flag::V);
        passes(opcode, n, z, c, v)
    }
}

} // verus!
