//! The execution unit: applies family-specific semantics against the
//! register bank, consulting the condition evaluator and the addressing-mode
//! components.
//!
//! Every implemented family follows the same shape: decode operands, gate on
//! the condition evaluator, compute the result, and conditionally commit the
//! result and flags. No family performs a partial register write when its
//! condition fails. The program counter is a plain register here: no
//! pipeline prefetch offset is modelled.

use crate::classify::{spec_classify_arm, Instruction};
use crate::condition::spec_pass_condition;
use crate::psr::{has_spsr, spec_mode_from_bits, spec_set_flag, Flag, Mode};
use crate::registers::{spec_read, spec_write, spsr_slot_of, ARM7TDMI};
use crate::shifter::{bit, spec_decode_shift, spec_shifter_of, ShiftKind};
use crate::UndefinedInstruction;
use vstd::prelude::*;
use vstd::wrapping::u32_specs;

verus! {

/// The three data-processing operations this core implements.
#[derive(Clone, Copy, Debug, PartialEq, Eq, Structural)]
pub enum DpOp {
    /// Move: the shifter operand itself.
    Mov,
    /// Logical OR of Rn and the shifter operand.
    Orr,
    /// Bit clear: Rn with the shifter operand's bits removed.
    Bic,
}

/// Whether the instruction requests flag update (the S bit).
pub open spec fn s_bit(op: u32) -> bool {
    op & 0x0010_0000 != 0
}

/// The destination register field (bits 15-12) of a data-processing opcode.
pub open spec fn rd_field(op: u32) -> int {
    ((op >> 12) & 0xF) as int
}

/// The data-processing result for the given operand values.
pub open spec fn spec_dp_value(dp: DpOp, rn_val: u32, shifter_val: u32) -> u32 {
    match dp {
        DpOp::Mov => shifter_val,
        DpOp::Orr => rn_val | shifter_val,
        DpOp::Bic => rn_val & !shifter_val,
    }
}

/// The status word after a flag-setting data-processing instruction: N from
/// the result's sign bit, Z from the result being zero, C from the shifter
/// carry-out, V untouched.
pub open spec fn spec_dp_flags(psr: u32, res: u32, carry: bool) -> u32 {
    spec_set_flag(
        spec_set_flag(spec_set_flag(psr, Flag::N, bit(res, 31)), Flag::Z, res == 0),
        Flag::C,
        carry,
    )
}

/// Whether the mode's SPSR holds a well-formed mode encoding, so the
/// exception-return idiom (flag-setting write to the PC) can restore it.
pub open spec fn spec_exception_return_ok(s: Seq<u32>, m: Mode) -> bool {
    has_spsr(m) && (spec_mode_from_bits(s[spsr_slot_of(m)]) is Some)
}

/// The guard the data-processing instructions place on their callers: the
/// exception-return idiom is only taken from a mode whose SPSR is
/// restorable.
pub open spec fn spec_dp_requires(op: u32, s: Seq<u32>, m: Mode) -> bool {
    (spec_decode_shift(op) != ShiftKind::Undefined && spec_pass_condition(s[16], op) && s_bit(op)
        && rd_field(op) == 15) ==> spec_exception_return_ok(s, m)
}

/// The register state after a data-processing instruction: no change when
/// the condition fails; otherwise the result lands in Rd, and if the S bit
/// is set either the flags are updated or, for Rd = PC, the whole CPSR is
/// restored from the SPSR.
pub open spec fn spec_dp_final(dp: DpOp, op: u32, s: Seq<u32>, m: Mode) -> Seq<u32> {
    if !spec_pass_condition(s[16], op) {
        s
    } else {
        let sh = spec_shifter_of(op, s, m);
        let res = spec_dp_value(dp, spec_read(s, m, crate::loadstore::rn_field(op)), sh.value);
        let s1 = spec_write(s, m, rd_field(op), res);
        if s_bit(op) && rd_field(op) == 15 {
            s1.update(16, s1[spsr_slot_of(m)])
        } else if s_bit(op) {
            s1.update(16, spec_dp_flags(s1[16], res, sh.carry))
        } else {
            s1
        }
    }
}

/// The mode after a data-processing instruction: unchanged except by the
/// exception-return idiom, which installs the mode saved in the SPSR.
pub open spec fn spec_dp_final_mode(dp: DpOp, op: u32, s: Seq<u32>, m: Mode) -> Mode {
    if spec_pass_condition(s[16], op) && s_bit(op) && rd_field(op) == 15 {
        match spec_mode_from_bits(s[spsr_slot_of(m)]) {
            Some(nm) => nm,
            None => m,
        }
    } else {
        m
    }
}

/// The register state after branch-and-exchange: the THUMB state bit takes
/// bit 0 of the target register and the PC its remaining bits.
pub open spec fn spec_bx_final(op: u32, s: Seq<u32>, m: Mode) -> Seq<u32> {
    if !spec_pass_condition(s[16], op) {
        s
    } else {
        let rm_val = spec_read(s, m, (op & 0xF) as int);
        let s1 = s.update(16, spec_set_flag(s[16], Flag::T, rm_val & 1 == 1));
        spec_write(s1, m, 15, rm_val & 0xFFFF_FFFE)
    }
}

/// The branch displacement: the 24-bit offset field, sign-extended and
/// shifted left twice.
pub open spec fn spec_branch_offset(op: u32) -> u32 {
    (if op & 0x0080_0000 != 0 {
        (op & 0x00FF_FFFF) | 0xFF00_0000u32
    } else {
        op & 0x00FF_FFFF
    }) << 2
}

/// Whether a branch saves the return address (the link bit).
pub open spec fn l_bit(op: u32) -> bool {
    op & 0x0100_0000 != 0
}

/// The register state after branch / branch-with-link: the PC steps by the
/// sign-extended displacement (wrapping), and with the link bit the address
/// of the following instruction lands in the link register first.
pub open spec fn spec_branch_final(op: u32, s: Seq<u32>, m: Mode) -> Seq<u32> {
    if !spec_pass_condition(s[16], op) {
        s
    } else {
        let s1 = if l_bit(op) {
            spec_write(s, m, 14, u32_specs::wrapping_add(spec_read(s, m, 15), 4))
        } else {
            s
        };
        spec_write(s1, m, 15, u32_specs::wrapping_add(spec_read(s, m, 15), spec_branch_offset(op)))
    }
}

/// The multiply result: Rm times Rs, plus Rn for the accumulate variant,
/// all wrapping over the 32-bit word.
pub open spec fn spec_mul_result(op: u32, s: Seq<u32>, m: Mode) -> u32 {
    let rm_val = spec_read(s, m, (op & 0xF) as int);
    let rs_val = spec_read(s, m, ((op >> 8) & 0xF) as int);
    let rn_val = spec_read(s, m, ((op >> 12) & 0xF) as int);
    let prod = u32_specs::wrapping_mul(rm_val, rs_val);
    if op & 0x0020_0000 != 0 {
        u32_specs::wrapping_add(prod, rn_val)
    } else {
        prod
    }
}

/// The register state after multiply / multiply-accumulate: the result in
/// Rd (bits 19-16 for this family), with N and Z updated when the S bit is
/// set.
pub open spec fn spec_mla_final(op: u32, s: Seq<u32>, m: Mode) -> Seq<u32> {
    if !spec_pass_condition(s[16], op) {
        s
    } else {
        let res = spec_mul_result(op, s, m);
        let s1 = spec_write(s, m, ((op >> 16) & 0xF) as int, res);
        if s_bit(op) {
            s1.update(
                16,
                spec_set_flag(spec_set_flag(s1[16], Flag::N, bit(res, 31)), Flag::Z, res == 0),
            )
        } else {
            s1
        }
    }
}

/// The data-processing operation selected by opcode bits 24-21, among the
/// three this core implements.
pub open spec fn spec_dp_op(op: u32) -> Option<DpOp> {
    if (op >> 21) & 0xF == 0xD {
        Some(DpOp::Mov)
    } else if (op >> 21) & 0xF == 0xC {
        Some(DpOp::Orr)
    } else if (op >> 21) & 0xF == 0xE {
        Some(DpOp::Bic)
    } else {
        None
    }
}

/// The ARM opcodes this execution unit implements: branch-and-exchange,
/// branch and branch-with-link, 32-bit multiply/multiply-accumulate, and the
/// move/or/bit-clear data-processing operations with a defined shifter
/// operand. Everything else is surfaced to the caller as undefined.
pub open spec fn spec_arm_supported(op: u32) -> bool {
    match spec_classify_arm(op) {
        Instruction::BranchAndBranchExchange => true,
        Instruction::BranchAndBranchWithLink => true,
        Instruction::MultiplyAndMultiplyLong => op & 0x0F80_00F0 == 0x0000_0090,
        Instruction::DataProcessing => (spec_dp_op(op) is Some) && spec_decode_shift(op)
            != ShiftKind::Undefined,
        _ => false,
    }
}

/// The register state after executing one supported ARM instruction; the
/// state unchanged for unsupported or undefined opcodes.
pub open spec fn spec_execute_arm_final(op: u32, s: Seq<u32>, m: Mode) -> Seq<u32> {
    match spec_classify_arm(op) {
        Instruction::BranchAndBranchExchange => spec_bx_final(op, s, m),
        Instruction::BranchAndBranchWithLink => spec_branch_final(op, s, m),
        Instruction::MultiplyAndMultiplyLong => spec_mla_final(op, s, m),
        Instruction::DataProcessing => match spec_dp_op(op) {
            Some(dp) => spec_dp_final(dp, op, s, m),
            None => s,
        },
        _ => s,
    }
}

/// The mode after executing one supported ARM instruction: only the
/// data-processing exception-return idiom can change it.
pub open spec fn spec_execute_arm_mode(op: u32, s: Seq<u32>, m: Mode) -> Mode {
    match spec_classify_arm(op) {
        Instruction::DataProcessing => match spec_dp_op(op) {
            Some(dp) => spec_dp_final_mode(dp, op, s, m),
            None => m,
        },
        _ => m,
    }
}

impl ARM7TDMI {
    /// Branch and exchange: loads the PC from Rm and selects the
    /// ARM/THUMB decoder from the register's bit 0.
    #[allow(non_snake_case)]
    pub fn BX(&mut self, op: u32)
        requires
            old(self).wf(),
        ensures
            final (self).wf(),
            final (self).cur_mode() == old(self).cur_mode(),
            final (self)@ == spec_bx_final(op, old(self)@, old(self).cur_mode()),
    {
        proof {
            crate::shifter::lemma_field_bounds(op);
        }
        if self.pass_condition(op) {
            let rm_val = self.read((op & 0xF) as usize);
            self.set_flag(Flag::T, rm_val & 1 == 1);
            self.write(15, rm_val & 0xFFFF_FFFE);
        }
    }

    /// Branch and branch-with-link: steps the PC by the sign-extended
    /// 24-bit displacement; the link bit first saves the address of the
    /// following instruction in the link register.
    pub fn branch(&mut self, op: u32)
        requires
            old(self).wf(),
        ensures
            final (self).wf(),
            final (self).cur_mode() == old(self).cur_mode(),
            final (self)@ == spec_branch_final(op, old(self)@, old(self).cur_mode()),
    {
        if self.pass_condition(op) {
            let pc = self.read(15);
            if op & 0x0100_0000 != 0 {
                self.write(14, pc.wrapping_add(4));
            }
            let ext = if op & 0x0080_0000 != 0 {
                (op & 0x00FF_FFFF) | 0xFF00_0000u32
            } else {
                op & 0x00FF_FFFF
            };
            let target = pc.wrapping_add(ext << 2);
            self.write(15, target);
            proof {
                crate::registers::lemma_slot_of_props(old(self).cur_mode(), 14);
                assert(spec_read(old(self)@, old(self).cur_mode(), 15) == pc);
            }
        }
    }

    /// Multiply and multiply-accumulate: a 32-by-32 unsigned wrapping
    /// multiply, plus a third register for the accumulate variant, with
    /// optional N/Z flag update.
    #[allow(non_snake_case)]
    pub fn MLA(&mut self, op: u32)
        requires
            old(self).wf(),
        ensures
            final (self).wf(),
            final (self).cur_mode() == old(self).cur_mode(),
            final (self)@ == spec_mla_final(op, old(self)@, old(self).cur_mode()),
    {
        proof {
            crate::shifter::lemma_field_bounds(op);
        }
        if self.pass_condition(op) {
            let rm_val = self.read((op & 0xF) as usize);
            let rs_val = self.read(((op >> 8) & 0xF) as usize);
            let rn_val = self.read(((op >> 12) & 0xF) as usize);
            let prod = rm_val.wrapping_mul(rs_val);
            let res = if op & 0x0020_0000 != 0 {
                prod.wrapping_add(rn_val)
            } else {
                prod
            };
            let rd = ((op >> 16) & 0xF) as usize;
            self.write(rd, res);
            if op & 0x0010_0000 != 0 {
                self.set_flag(Flag::N, (res >> 31) & 1 == 1);
                self.set_flag(Flag::Z, res == 0);
                proof {
                    let m = old(self).cur_mode();
                    crate::registers::lemma_view_len(old(self));
                    crate::registers::lemma_slot_of_props(m, ((op >> 16) & 0xF) as int);
                    assert(self@ =~= spec_mla_final(op, old(self)@, m));
                }
            }
        }
    }

    /// The shared data-processing path: shifter operand, condition gate,
    /// result commit, and the S-bit flag or exception-return handling.
    fn dp_execute(&mut self, op: u32, dp: DpOp) -> (r: Result<(), UndefinedInstruction>)
        requires
            old(self).wf(),
            spec_dp_requires(op, old(self)@, old(self).cur_mode()),
        ensures
            final (self).wf(),
            match r {
                Ok(_) => spec_decode_shift(op) != ShiftKind::Undefined && final (self)@
                    == spec_dp_final(dp, op, old(self)@, old(self).cur_mode()) && final (self).cur_mode() == spec_dp_final_mode(dp, op, old(self)@, old(self).cur_mode()),
                Err(_) => spec_decode_shift(op) == ShiftKind::Undefined && final (self)@ == old(
                    self,
                )@ && final (self).cur_mode() == old(self).cur_mode(),
            },
    {
        proof {
            crate::shifter::lemma_field_bounds(op);
        }
        let sh = match crate::shifter::addressing_mode_1(self, op) {
            Ok(sh) => sh,
            Err(e) => {
                return Err(e);
            },
        };
        if !self.pass_condition(op) {
            return Ok(());
        }
        let rn_val = self.read(((op >> 16) & 0xF) as usize);
        let res = match dp {
            DpOp::Mov => sh.value,
            DpOp::Orr => rn_val | sh.value,
            DpOp::Bic => rn_val & !sh.value,
        };
        let rd = ((op >> 12) & 0xF) as usize;
        let set_flags = op & 0x0010_0000 != 0;
        self.write(rd, res);
        proof {
            crate::registers::lemma_view_len(old(self));
            crate::registers::lemma_slot_of_props(old(self).cur_mode(), rd as int);
            crate::registers::lemma_spsr_slot_props(old(self).cur_mode());
        }
        if set_flags && rd == 15 {
            // Exception return: the whole CPSR, mode field included, is
            // restored from the SPSR, and the mapping table follows.
            let spsr = self.read_spsr();
            let nm = match crate::psr::mode_from_bits(spsr) {
                Some(nm) => nm,
                None => vstd::pervasive::unreached(),
            };
            proof {
                crate::psr::lemma_mode_from_bits_inverse(spsr);
            }
            self.enter_mode(nm);
            self.write(16, spsr);
            proof {
                let m = old(self).cur_mode();
                let s1 = spec_write(old(self)@, m, rd_field(op), res);
                assert(self@ =~= s1.update(16, s1[spsr_slot_of(m)]));
            }
        } else if set_flags {
            self.set_flag(Flag::N, (res >> 31) & 1 == 1);
            self.set_flag(Flag::Z, res == 0);
            self.set_flag(Flag::C, sh.carry);
            proof {
                let m = old(self).cur_mode();
                let s1 = spec_write(old(self)@, m, rd_field(op), res);
                assert(self@ =~= s1.update(16, spec_dp_flags(s1[16], res, sh.carry)));
            }
        }
        Ok(())
    }

    /// Move: commits the barrel-shifter operand to Rd, with optional flag
    /// update and the exception-return idiom for a flag-setting write to
    /// the PC.
    #[allow(non_snake_case)]
    pub fn MOV(&mut self, op: u32) -> (r: Result<(), UndefinedInstruction>)
        requires
            old(self).wf(),
            spec_dp_requires(op, old(self)@, old(self).cur_mode()),
        ensures
            final (self).wf(),
            match r {
                Ok(_) => spec_decode_shift(op) != ShiftKind::Undefined && final (self)@
                    == spec_dp_final(DpOp::Mov, op, old(self)@, old(self).cur_mode()) && final (self).cur_mode() == spec_dp_final_mode(DpOp::Mov, op, old(self)@, old(self).cur_mode()),
                Err(_) => spec_decode_shift(op) == ShiftKind::Undefined && final (self)@ == old(
                    self,
                )@ && final (self).cur_mode() == old(self).cur_mode(),
            },
    {
        self.dp_execute(op, DpOp::Mov)
    }

    /// Logical OR of Rn and the barrel-shifter operand, with the shared
    /// data-processing flag semantics.
    #[allow(non_snake_case)]
    pub fn ORR(&mut self, op: u32) -> (r: Result<(), UndefinedInstruction>)
        requires
            old(self).wf(),
            spec_dp_requires(op, old(self)@, old(self).cur_mode()),
        ensures
            final (self).wf(),
            match r {
                Ok(_) => spec_decode_shift(op) != ShiftKind::Undefined && final (self)@
                    == spec_dp_final(DpOp::Orr, op, old(self)@, old(self).cur_mode()) && final (self).cur_mode() == spec_dp_final_mode(DpOp::Orr, op, old(self)@, old(self).cur_mode()),
                Err(_) => spec_decode_shift(op) == ShiftKind::Undefined && final (self)@ == old(
                    self,
                )@ && final (self).cur_mode() == old(self).cur_mode(),
            },
    {
        self.dp_execute(op, DpOp::Orr)
    }

    /// Bit clear: Rn with the barrel-shifter operand's bits removed, with
    /// the shared data-processing flag semantics.
    #[allow(non_snake_case)]
    pub fn BIC(&mut self, op: u32) -> (r: Result<(), UndefinedInstruction>)
        requires
            old(self).wf(),
            spec_dp_requires(op, old(self)@, old(self).cur_mode()),
        ensures
            final (self).wf(),
            match r {
                Ok(_) => spec_decode_shift(op) != ShiftKind::Undefined && final (self)@
                    == spec_dp_final(DpOp::Bic, op, old(self)@, old(self).cur_mode()) && final (self).cur_mode() == spec_dp_final_mode(DpOp::Bic, op, old(self)@, old(self).cur_mode()),
                Err(_) => spec_decode_shift(op) == ShiftKind::Undefined && final (self)@ == old(
                    self,
                )@ && final (self).cur_mode() == old(self).cur_mode(),
            },
    {
        self.dp_execute(op, DpOp::Bic)
    }

    /// Classifies `op`, gates on the condition, and applies the family's
    /// semantics: one call decodes and fully executes one instruction.
    /// Opcodes outside the implemented set are surfaced as undefined, with
    /// no side effect at all.
    pub fn execute_arm(&mut self, op: u32) -> (r: Result<(), UndefinedInstruction>)
        requires
            old(self).wf(),
            spec_classify_arm(op) == Instruction::DataProcessing ==> spec_dp_requires(
                op,
                old(self)@,
                old(self).cur_mode(),
            ),
        ensures
            final (self).wf(),
            match r {
                Ok(_) => spec_arm_supported(op) && final (self)@ == spec_execute_arm_final(
                    op,
                    old(self)@,
                    old(self).cur_mode(),
                ) && final (self).cur_mode() == spec_execute_arm_mode(
                    op,
                    old(self)@,
                    old(self).cur_mode(),
                ),
                Err(_) => !spec_arm_supported(op) && final (self)@ == old(self)@ && final (self).cur_mode() == old(self).cur_mode(),
            },
    {
        match crate::classify::disassemble_arm(op) {
            Instruction::BranchAndBranchExchange => {
                self.BX(op);
                Ok(())
            },
            Instruction::BranchAndBranchWithLink => {
                self.branch(op);
                Ok(())
            },
            Instruction::MultiplyAndMultiplyLong => {
                if op & 0x0F80_00F0 == 0x0000_0090 {
                    self.MLA(op);
                    Ok(())
                } else {
                    Err(UndefinedInstruction)
                }
            },
            Instruction::DataProcessing => {
                let sel = (op >> 21) & 0xF;
                if sel == 0xD {
                    self.dp_execute(op, DpOp::Mov)
                } else if sel == 0xC {
                    self.dp_execute(op, DpOp::Orr)
                } else if sel == 0xE {
                    self.dp_execute(op, DpOp::Bic)
                } else {
                    Err(UndefinedInstruction)
                }
            },
            _ => Err(UndefinedInstruction),
        }
    }
}

} // verus!
