//! The barrel shifter (addressing mode one): computes the data-processing
//! operand value and its carry-out.
//!
//! Eleven sub-encodings are selected by opcode bit 25 (immediate) and bits
//! 6-4 (shift type, register-vs-immediate amount). The carry-out is exposed
//! to the caller but committed to the C flag only when the instruction
//! requests flag update; the shift computation itself is pure.

use crate::psr::{spec_get_flag, Flag, Mode};
use crate::registers::{spec_read, ARM7TDMI};
use crate::UndefinedInstruction;
use vstd::prelude::*;

verus! {

/// Whether bit `i` of `x` is set.
pub open spec fn bit(x: u32, i: int) -> bool {
    (x >> i) & 1 == 1
}

/// The operand value and carry-out produced by the barrel shifter.
#[derive(Clone, Copy, Debug, PartialEq, Eq, Structural)]
pub struct ShifterResult {
    pub value: u32,
    pub carry: bool,
}

/// The eleven barrel-shifter sub-encodings, plus the patterns (shift type
/// bits with both bit 7 and bit 4 set) that no data-processing operand uses.
#[derive(Clone, Copy, Debug, PartialEq, Eq, Structural)]
pub enum ShiftKind {
    /// 8-bit immediate rotated right by twice the rotate field.
    Immediate,
    /// Plain register operand, no shift.
    Register,
    LslImm,
    LslReg,
    LsrImm,
    LsrReg,
    AsrImm,
    AsrReg,
    RorImm,
    RorReg,
    /// Rotate right with extend: the `ROR #0` encoding.
    Rrx,
    Undefined,
}

/// Decodes the shifter sub-encoding of a data-processing operand. More
/// specific patterns are tested before the general ones they overlap.
pub open spec fn spec_decode_shift(op: u32) -> ShiftKind {
    if op & 0x0200_0000 != 0 {
        ShiftKind::Immediate
    } else if op & 0xFF0 == 0 {
        ShiftKind::Register
    } else if op & 0x070 == 0 {
        ShiftKind::LslImm
    } else if op & 0x0F0 == 0x010 {
        ShiftKind::LslReg
    } else if op & 0x070 == 0x020 {
        ShiftKind::LsrImm
    } else if op & 0x0F0 == 0x030 {
        ShiftKind::LsrReg
    } else if op & 0x070 == 0x040 {
        ShiftKind::AsrImm
    } else if op & 0x0F0 == 0x050 {
        ShiftKind::AsrReg
    } else if op & 0xFF0 == 0x060 {
        ShiftKind::Rrx
    } else if op & 0x0F0 == 0x070 {
        ShiftKind::RorReg
    } else if op & 0x070 == 0x060 {
        ShiftKind::RorImm
    } else {
        ShiftKind::Undefined
    }
}

/// Decodes the shifter sub-encoding of a data-processing operand.
pub fn decode_shift(op: u32) -> (k: ShiftKind)
    ensures
        k == spec_decode_shift(op),
{
    if op & 0x0200_0000 != 0 {
        ShiftKind::Immediate
    } else if op & 0xFF0 == 0 {
        ShiftKind::Register
    } else if op & 0x070 == 0 {
        ShiftKind::LslImm
    } else if op & 0x0F0 == 0x010 {
        ShiftKind::LslReg
    } else if op & 0x070 == 0x020 {
        ShiftKind::LsrImm
    } else if op & 0x0F0 == 0x030 {
        ShiftKind::LsrReg
    } else if op & 0x070 == 0x040 {
        ShiftKind::AsrImm
    } else if op & 0x0F0 == 0x050 {
        ShiftKind::AsrReg
    } else if op & 0xFF0 == 0x060 {
        ShiftKind::Rrx
    } else if op & 0x0F0 == 0x070 {
        ShiftKind::RorReg
    } else if op & 0x070 == 0x060 {
        ShiftKind::RorImm
    } else {
        ShiftKind::Undefined
    }
}

/// The shifter value/carry pair for `op`, given the values `rm_val` and
/// `rs_val` of the registers its Rm and Rs fields name and the incoming C
/// flag `c_in`. Defined arbitrarily (zero, no carry) for the undefined
/// patterns, which `shift_operand` rejects before reaching this.
pub open spec fn spec_shifter(op: u32, rm_val: u32, rs_val: u32, c_in: bool) -> ShifterResult {
    match spec_decode_shift(op) {
        ShiftKind::Immediate => {
            let immed8 = op & 0xFF;
            let amt = 2 * ((op >> 8) & 0xF);
            if amt == 0 {
                ShifterResult { value: immed8, carry: c_in }
            } else {
                let value = (immed8 >> amt) | (immed8 << (32 - amt));
                ShifterResult { value, carry: bit(value, 31) }
            }
        },
        ShiftKind::Register => ShifterResult { value: rm_val, carry: c_in },
        ShiftKind::LslImm => {
            let imm = (op >> 7) & 0x1F;
            if imm == 0 {
                ShifterResult { value: rm_val, carry: c_in }
            } else {
                ShifterResult { value: rm_val << imm, carry: bit(rm_val, 32 - imm) }
            }
        },
        ShiftKind::LslReg => {
            let amt = rs_val & 0xFF;
            if amt == 0 {
                ShifterResult { value: rm_val, carry: c_in }
            } else if amt < 32 {
                ShifterResult { value: rm_val << amt, carry: bit(rm_val, 32 - amt) }
            } else if amt == 32 {
                ShifterResult { value: 0, carry: rm_val & 1 == 1 }
            } else {
                ShifterResult { value: 0, carry: false }
            }
        },
        ShiftKind::LsrImm => {
            let imm = (op >> 7) & 0x1F;
            if imm == 0 {
                // LSR #0 encodes LSR #32.
                ShifterResult { value: 0, carry: bit(rm_val, 31) }
            } else {
                ShifterResult { value: rm_val >> imm, carry: bit(rm_val, imm - 1) }
            }
        },
        ShiftKind::LsrReg => {
            let amt = rs_val & 0xFF;
            if amt == 0 {
                ShifterResult { value: rm_val, carry: c_in }
            } else if amt < 32 {
                ShifterResult { value: rm_val >> amt, carry: bit(rm_val, amt - 1) }
            } else if amt == 32 {
                ShifterResult { value: 0, carry: bit(rm_val, 31) }
            } else {
                ShifterResult { value: 0, carry: false }
            }
        },
        ShiftKind::AsrImm => {
            let imm = (op >> 7) & 0x1F;
            if imm == 0 {
                // ASR #0 encodes ASR #32: pure sign fill.
                ShifterResult {
                    value: if bit(rm_val, 31) {
                        0xFFFF_FFFF
                    } else {
                        0
                    },
                    carry: bit(rm_val, 31),
                }
            } else {
                ShifterResult {
                    value: ((rm_val as i32) >> imm) as u32,
                    carry: bit(rm_val, imm - 1),
                }
            }
        },
        ShiftKind::AsrReg => {
            let amt = rs_val & 0xFF;
            if amt == 0 {
                ShifterResult { value: rm_val, carry: c_in }
            } else if amt < 32 {
                ShifterResult {
                    value: ((rm_val as i32) >> amt) as u32,
                    carry: bit(rm_val, amt - 1),
                }
            } else {
                ShifterResult {
                    value: if bit(rm_val, 31) {
                        0xFFFF_FFFF
                    } else {
                        0
                    },
                    carry: bit(rm_val, 31),
                }
            }
        },
        ShiftKind::RorImm => {
            let imm = (op >> 7) & 0x1F;
            if imm == 0 {
                // ROR #0 is the RRX encoding; the decoder classifies it as
                // `Rrx`, so this branch only keeps the table total.
                rrx_result(rm_val, c_in)
            } else {
                ShifterResult {
                    value: (rm_val >> imm) | (rm_val << (32 - imm)),
                    carry: bit(rm_val, imm - 1),
                }
            }
        },
        ShiftKind::RorReg => {
            let amt = rs_val & 0xFF;
            let rot = amt & 0x1F;
            if amt == 0 {
                ShifterResult { value: rm_val, carry: c_in }
            } else if rot == 0 {
                ShifterResult { value: rm_val, carry: bit(rm_val, 31) }
            } else {
                ShifterResult {
                    value: (rm_val >> rot) | (rm_val << (32 - rot)),
                    carry: bit(rm_val, rot - 1),
                }
            }
        },
        ShiftKind::Rrx => rrx_result(rm_val, c_in),
        ShiftKind::Undefined => ShifterResult { value: 0, carry: false },
    }
}

/// Rotate right with extend: the C flag shifts into bit 31, and bit 0 of the
/// register becomes the carry-out.
pub open spec fn rrx_result(rm_val: u32, c_in: bool) -> ShifterResult {
    ShifterResult {
        value: (if c_in {
            0x8000_0000u32
        } else {
            0
        }) | (rm_val >> 1),
        carry: rm_val & 1 == 1,
    }
}

/// `spec_shifter` applied to the register values `op` names in the physical
/// state `s` under mode `m`, with the C flag taken from the CPSR slot.
pub open spec fn spec_shifter_of(op: u32, s: Seq<u32>, m: Mode) -> ShifterResult {
    spec_shifter(
        op,
        spec_read(s, m, (op & 0xF) as int),
        spec_read(s, m, ((op >> 8) & 0xF) as int),
        spec_get_flag(s[16], Flag::C),
    )
}

/// Common opcode bit-field ranges. Stated once so exec code can index
/// registers and bound shift amounts without per-site bit reasoning.
pub(crate) proof fn lemma_field_bounds(op: u32)
    by (bit_vector)
    ensures
        op & 0xF < 16,
        (op >> 8) & 0xF < 16,
        (op >> 12) & 0xF < 16,
        (op >> 16) & 0xF < 16,
        (op >> 7) & 0x1F < 32,
        (op >> 6) & 0x1F < 32,
        (op >> 5) & 0x3 < 4,
        op & 0xFF < 256,
        op & 0x1F < 32,
        op & 0xFFF < 0x1000,
{
}

/// The pure barrel shifter: value and carry-out for `op` given the Rm and Rs
/// register values and the incoming C flag. Returns the error for the
/// operand patterns the architecture does not define, computing nothing.
pub fn shift_operand(op: u32, rm_val: u32, rs_val: u32, c_in: bool) -> (r: Result<
    ShifterResult,
    UndefinedInstruction,
>)
    ensures
        match r {
            Ok(res) => spec_decode_shift(op) != ShiftKind::Undefined && res == spec_shifter(
                op,
                rm_val,
                rs_val,
                c_in,
            ),
            Err(_) => spec_decode_shift(op) == ShiftKind::Undefined,
        },
{
    proof {
        lemma_field_bounds(op);
        lemma_field_bounds(rs_val);
        lemma_amount_bounds(rs_val);
    }
    match decode_shift(op) {
        ShiftKind::Immediate => {
            let immed8 = op & 0xFF;
            let amt = 2 * ((op >> 8) & 0xF);
            if amt == 0 {
                Ok(ShifterResult { value: immed8, carry: c_in })
            } else {
                let value = (immed8 >> amt) | (immed8 << (32 - amt));
                Ok(ShifterResult { value, carry: (value >> 31) & 1 == 1 })
            }
        },
        ShiftKind::Register => Ok(ShifterResult { value: rm_val, carry: c_in }),
        ShiftKind::LslImm => {
            let imm = (op >> 7) & 0x1F;
            if imm == 0 {
                Ok(ShifterResult { value: rm_val, carry: c_in })
            } else {
                Ok(
                    ShifterResult {
                        value: rm_val << imm,
                        carry: (rm_val >> (32 - imm)) & 1 == 1,
                    },
                )
            }
        },
        ShiftKind::LslReg => {
            let amt = rs_val & 0xFF;
            if amt == 0 {
                Ok(ShifterResult { value: rm_val, carry: c_in })
            } else if amt < 32 {
                Ok(
                    ShifterResult {
                        value: rm_val << amt,
                        carry: (rm_val >> (32 - amt)) & 1 == 1,
                    },
                )
            } else if amt == 32 {
                Ok(ShifterResult { value: 0, carry: rm_val & 1 == 1 })
            } else {
                Ok(ShifterResult { value: 0, carry: false })
            }
        },
        ShiftKind::LsrImm => {
            let imm = (op >> 7) & 0x1F;
            if imm == 0 {
                Ok(ShifterResult { value: 0, carry: (rm_val >> 31) & 1 == 1 })
            } else {
                Ok(
                    ShifterResult {
                        value: rm_val >> imm,
                        carry: (rm_val >> (imm - 1)) & 1 == 1,
                    },
                )
            }
        },
        ShiftKind::LsrReg => {
            let amt = rs_val & 0xFF;
            if amt == 0 {
                Ok(ShifterResult { value: rm_val, carry: c_in })
            } else if amt < 32 {
                Ok(
                    ShifterResult {
                        value: rm_val >> amt,
                        carry: (rm_val >> (amt - 1)) & 1 == 1,
                    },
                )
            } else if amt == 32 {
                Ok(ShifterResult { value: 0, carry: (rm_val >> 31) & 1 == 1 })
            } else {
                Ok(ShifterResult { value: 0, carry: false })
            }
        },
        ShiftKind::AsrImm => {
            let imm = (op >> 7) & 0x1F;
            if imm == 0 {
                let sign = (rm_val >> 31) & 1 == 1;
                Ok(ShifterResult { value: if sign { 0xFFFF_FFFF } else { 0 }, carry: sign })
            } else {
                Ok(
                    ShifterResult {
                        value: #[verifier::truncate] ((#[verifier::truncate] (rm_val as i32) >> imm) as u32),
                        carry: (rm_val >> (imm - 1)) & 1 == 1,
                    },
                )
            }
        },
        ShiftKind::AsrReg => {
            let amt = rs_val & 0xFF;
            if amt == 0 {
                Ok(ShifterResult { value: rm_val, carry: c_in })
            } else if amt < 32 {
                Ok(
                    ShifterResult {
                        value: #[verifier::truncate] ((#[verifier::truncate] (rm_val as i32) >> amt) as u32),
                        carry: (rm_val >> (amt - 1)) & 1 == 1,
                    },
                )
            } else {
                let sign = (rm_val >> 31) & 1 == 1;
                Ok(ShifterResult { value: if sign { 0xFFFF_FFFF } else { 0 }, carry: sign })
            }
        },
        ShiftKind::RorImm => {
            let imm = (op >> 7) & 0x1F;
            if imm == 0 {
                // A zero rotate amount is the RRX pattern, which the decoder
                // classifies separately; kept so every amount has a meaning.
                Ok(rrx(rm_val, c_in))
            } else {
                Ok(
                    ShifterResult {
                        value: (rm_val >> imm) | (rm_val << (32 - imm)),
                        carry: (rm_val >> (imm - 1)) & 1 == 1,
                    },
                )
            }
        },
        ShiftKind::RorReg => {
            let amt = rs_val & 0xFF;
            let rot = amt & 0x1F;
            if amt == 0 {
                Ok(ShifterResult { value: rm_val, carry: c_in })
            } else if rot == 0 {
                Ok(ShifterResult { value: rm_val, carry: (rm_val >> 31) & 1 == 1 })
            } else {
                Ok(
                    ShifterResult {
                        value: (rm_val >> rot) | (rm_val << (32 - rot)),
                        carry: (rm_val >> (rot - 1)) & 1 == 1,
                    },
                )
            }
        },
        ShiftKind::Rrx => Ok(rrx(rm_val, c_in)),
        ShiftKind::Undefined => Err(UndefinedInstruction),
    }
}

/// Rotate right with extend, executable form.
fn rrx(rm_val: u32, c_in: bool) -> (r: ShifterResult)
    ensures
        r == rrx_result(rm_val, c_in),
{
    let cbit: u32 = if c_in {
        0x8000_0000
    } else {
        0
    };
    ShifterResult { value: cbit | (rm_val >> 1), carry: rm_val & 1 == 1 }
}

/// A masked register-shift amount stays below 32.
proof fn lemma_amount_bounds(rs_val: u32)
    by (bit_vector)
    ensures
        (rs_val & 0xFF) & 0x1F < 32,
{
}

/// The barrel shifter over the live register file: reads Rm, Rs and the C
/// flag that `op` names and hands them to `shift_operand`.
pub fn addressing_mode_1(cpu: &ARM7TDMI, op: u32) -> (r: Result<
    ShifterResult,
    UndefinedInstruction,
>)
    requires
        cpu.wf(),
    ensures
        match r {
            Ok(res) => spec_decode_shift(op) != ShiftKind::Undefined && res == spec_shifter_of(
                op,
                cpu@,
                cpu.cur_mode(),
            ),
            Err(_) => spec_decode_shift(op) == ShiftKind::Undefined,
        },
{
    proof {
        lemma_field_bounds(op);
    }
    let rm_val = cpu.read((op & 0xF) as usize);
    let rs_val = cpu.read(((op >> 8) & 0xF) as usize);
    let c_in = cpu.get_flag(Flag::C);
    shift_operand(op, rm_val, rs_val, c_in)
}

/// The carry-out alone of the barrel shifter over the live register file.
pub fn shifter_carry_out(cpu: &ARM7TDMI, op: u32) -> (r: Result<bool, UndefinedInstruction>)
    requires
        cpu.wf(),
    ensures
        match r {
            Ok(c) => spec_decode_shift(op) != ShiftKind::Undefined && c == spec_shifter_of(
                op,
                cpu@,
                cpu.cur_mode(),
            ).carry,
            Err(_) => spec_decode_shift(op) == ShiftKind::Undefined,
        },
{
    match addressing_mode_1(cpu, op) {
        Ok(res) => Ok(res.carry),
        Err(e) => Err(e),
    }
}

/// `LSL #0` passes the register through unmodified and leaves the carry
/// untouched.
pub proof fn lemma_lsl_zero_is_identity(op: u32, rm_val: u32, rs_val: u32, c_in: bool)
    requires
        spec_decode_shift(op) == ShiftKind::LslImm || spec_decode_shift(op) == ShiftKind::Register,
        (op >> 7) & 0x1F == 0,
    ensures
        spec_shifter(op, rm_val, rs_val, c_in) == (ShifterResult { value: rm_val, carry: c_in }),
{
}

/// `LSR #0` encodes `LSR #32`: the value is zero and the carry is the
/// register's original bit 31.
pub proof fn lemma_lsr_zero_is_lsr_32(op: u32, rm_val: u32, rs_val: u32, c_in: bool)
    requires
        spec_decode_shift(op) == ShiftKind::LsrImm,
        (op >> 7) & 0x1F == 0,
    ensures
        spec_shifter(op, rm_val, rs_val, c_in) == (ShifterResult { value: 0, carry: bit(
            rm_val,
            31,
        ) }),
{
}

/// `ASR #0` (encoding `ASR #32`) and `ASR Rs` with an amount of 32 or more
/// sign-fill the value and set the carry from bit 31.
pub proof fn lemma_asr_sign_fills(op: u32, rm_val: u32, rs_val: u32, c_in: bool)
    requires
        (spec_decode_shift(op) == ShiftKind::AsrImm && (op >> 7) & 0x1F == 0) || (spec_decode_shift(
            op,
        ) == ShiftKind::AsrReg && rs_val & 0xFF >= 32),
    ensures
        spec_shifter(op, rm_val, rs_val, c_in) == (ShifterResult {
            value: if bit(rm_val, 31) {
                0xFFFF_FFFFu32
            } else {
                0u32
            },
            carry: bit(rm_val, 31),
        }),
{
}

/// The `ROR #0` pattern decodes as, and therefore behaves exactly as, the
/// rotate-right-with-extend form.
pub proof fn lemma_ror_zero_is_rrx(op: u32, rm_val: u32, rs_val: u32, c_in: bool)
    requires
        op & 0x0200_0000 == 0,
        op & 0xFF0 == 0x060,
    ensures
        spec_decode_shift(op) == ShiftKind::Rrx,
        spec_shifter(op, rm_val, rs_val, c_in) == rrx_result(rm_val, c_in),
{
    assert(op & 0xFF0 == 0x060 ==> op & 0x070 == 0x060 && op & 0x0F0 == 0x060)
        by (bit_vector);
}

/// A register-specified shift whose amount byte is zero passes the register
/// through and never touches the carry, for all four shift types.
pub proof fn lemma_reg_shift_zero_keeps_carry(op: u32, rm_val: u32, rs_val: u32, c_in: bool)
    requires
        rs_val & 0xFF == 0,
        spec_decode_shift(op) == ShiftKind::LslReg || spec_decode_shift(op) == ShiftKind::LsrReg
            || spec_decode_shift(op) == ShiftKind::AsrReg || spec_decode_shift(op)
            == ShiftKind::RorReg,
    ensures
        spec_shifter(op, rm_val, rs_val, c_in) == (ShifterResult { value: rm_val, carry: c_in }),
{
}

} // verus!
