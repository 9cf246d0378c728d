//! Load/store address calculation (addressing modes two and three):
//! effective address plus pre/post-index base writeback for word/byte and
//! halfword/signed transfers.
//!
//! Mode two (word/byte) offsets are a 12-bit immediate or a plain or scaled
//! register; mode three (halfword/signed byte) offsets are an 8-bit
//! immediate split into two nibbles or a plain register. Both share the
//! indexing forms: an unindexed offset form, a pre-indexed form whose
//! effective address is written back to the base, and a post-indexed form
//! that exposes the original base and writes the stepped base back. Base
//! writeback commits only when the instruction's condition passes, after the
//! address is taken; addresses wrap around the 32-bit space by design.

use crate::condition::spec_pass_condition;
use crate::psr::{spec_get_flag, Flag, Mode};
use crate::registers::{spec_read, spec_write, ARM7TDMI};
use crate::shifter::bit;
use crate::UndefinedInstruction;
use vstd::prelude::*;
use vstd::wrapping::u32_specs;

verus! {

/// The nine defined sub-forms of addressing mode two, plus the patterns
/// (register-specified shift amounts) the architecture does not define.
#[derive(Clone, Copy, Debug, PartialEq, Eq, Structural)]
pub enum Mode2Form {
    ImmOffset,
    RegOffset,
    ScaledOffset,
    ImmPre,
    RegPre,
    ScaledPre,
    ImmPost,
    RegPost,
    ScaledPost,
    Undefined,
}

/// The six defined sub-forms of addressing mode three, plus the undefined
/// combination that requests post-indexing without writeback.
#[derive(Clone, Copy, Debug, PartialEq, Eq, Structural)]
pub enum Mode3Form {
    ImmOffset,
    RegOffset,
    ImmPre,
    RegPre,
    ImmPost,
    RegPost,
    Undefined,
}

/// Decodes the mode-two sub-form from bit 25 (immediate vs register), bits
/// 11-4 (plain vs scaled register), bit 24 (pre vs post) and bit 21
/// (writeback requested).
pub open spec fn spec_decode_mode2(op: u32) -> Mode2Form {
    if op & 0x0200_0000 == 0 {
        if op & 0x0100_0000 == 0 {
            Mode2Form::ImmPost
        } else if op & 0x0020_0000 == 0 {
            Mode2Form::ImmOffset
        } else {
            Mode2Form::ImmPre
        }
    } else if op & 0x0000_0010 != 0 {
        // A register-specified shift amount is not a load/store encoding.
        Mode2Form::Undefined
    } else if op & 0x0000_0FF0 == 0 {
        if op & 0x0100_0000 == 0 {
            Mode2Form::RegPost
        } else if op & 0x0020_0000 == 0 {
            Mode2Form::RegOffset
        } else {
            Mode2Form::RegPre
        }
    } else {
        if op & 0x0100_0000 == 0 {
            Mode2Form::ScaledPost
        } else if op & 0x0020_0000 == 0 {
            Mode2Form::ScaledOffset
        } else {
            Mode2Form::ScaledPre
        }
    }
}

/// Decodes the mode-two sub-form.
pub fn decode_mode2(op: u32) -> (f: Mode2Form)
    ensures
        f == spec_decode_mode2(op),
{
    if op & 0x0200_0000 == 0 {
        if op & 0x0100_0000 == 0 {
            Mode2Form::ImmPost
        } else if op & 0x0020_0000 == 0 {
            Mode2Form::ImmOffset
        } else {
            Mode2Form::ImmPre
        }
    } else if op & 0x0000_0010 != 0 {
        Mode2Form::Undefined
    } else if op & 0x0000_0FF0 == 0 {
        if op & 0x0100_0000 == 0 {
            Mode2Form::RegPost
        } else if op & 0x0020_0000 == 0 {
            Mode2Form::RegOffset
        } else {
            Mode2Form::RegPre
        }
    } else {
        if op & 0x0100_0000 == 0 {
            Mode2Form::ScaledPost
        } else if op & 0x0020_0000 == 0 {
            Mode2Form::ScaledOffset
        } else {
            Mode2Form::ScaledPre
        }
    }
}

/// Decodes the mode-three sub-form from bit 22 (immediate vs register),
/// bit 24 (pre vs post) and bit 21 (writeback requested). Post-indexing
/// without the writeback bit is left undefined.
pub open spec fn spec_decode_mode3(op: u32) -> Mode3Form {
    if op & 0x0040_0000 != 0 {
        if op & 0x0100_0000 != 0 {
            if op & 0x0020_0000 == 0 {
                Mode3Form::ImmOffset
            } else {
                Mode3Form::ImmPre
            }
        } else if op & 0x0020_0000 != 0 {
            Mode3Form::ImmPost
        } else {
            Mode3Form::Undefined
        }
    } else {
        if op & 0x0100_0000 != 0 {
            if op & 0x0020_0000 == 0 {
                Mode3Form::RegOffset
            } else {
                Mode3Form::RegPre
            }
        } else if op & 0x0020_0000 != 0 {
            Mode3Form::RegPost
        } else {
            Mode3Form::Undefined
        }
    }
}

/// Decodes the mode-three sub-form.
pub fn decode_mode3(op: u32) -> (f: Mode3Form)
    ensures
        f == spec_decode_mode3(op),
{
    if op & 0x0040_0000 != 0 {
        if op & 0x0100_0000 != 0 {
            if op & 0x0020_0000 == 0 {
                Mode3Form::ImmOffset
            } else {
                Mode3Form::ImmPre
            }
        } else if op & 0x0020_0000 != 0 {
            Mode3Form::ImmPost
        } else {
            Mode3Form::Undefined
        }
    } else {
        if op & 0x0100_0000 != 0 {
            if op & 0x0020_0000 == 0 {
                Mode3Form::RegOffset
            } else {
                Mode3Form::RegPre
            }
        } else if op & 0x0020_0000 != 0 {
            Mode3Form::RegPost
        } else {
            Mode3Form::Undefined
        }
    }
}

/// The scaled-register index of mode two: the register value run through the
/// shift-type table (LSL/LSR/ASR/ROR by an immediate amount, with the
/// zero-amount encodings meaning LSR #32, ASR #32 and RRX).
pub open spec fn spec_scaled_index(op: u32, rm_val: u32, c_in: bool) -> u32 {
    let imm = (op >> 7) & 0x1F;
    let ty = (op >> 5) & 0x3;
    if ty == 0 {
        rm_val << imm
    } else if ty == 1 {
        if imm == 0 {
            0
        } else {
            rm_val >> imm
        }
    } else if ty == 2 {
        if imm == 0 {
            if bit(rm_val, 31) {
                0xFFFF_FFFF
            } else {
                0
            }
        } else {
            ((rm_val as i32) >> imm) as u32
        }
    } else {
        if imm == 0 {
            (if c_in {
                0x8000_0000u32
            } else {
                0
            }) | (rm_val >> 1)
        } else {
            (rm_val >> imm) | (rm_val << (32 - imm))
        }
    }
}

/// The scaled-register index of mode two.
pub fn scaled_index(op: u32, rm_val: u32, c_in: bool) -> (r: u32)
    ensures
        r == spec_scaled_index(op, rm_val, c_in),
{
    proof {
        crate::shifter::lemma_field_bounds(op);
    }
    let imm = (op >> 7) & 0x1F;
    let ty = (op >> 5) & 0x3;
    if ty == 0 {
        rm_val << imm
    } else if ty == 1 {
        if imm == 0 {
            0
        } else {
            rm_val >> imm
        }
    } else if ty == 2 {
        if imm == 0 {
            if (rm_val >> 31) & 1 == 1 {
                0xFFFF_FFFF
            } else {
                0
            }
        } else {
            #[verifier::truncate]
            ((#[verifier::truncate] (rm_val as i32) >> imm) as u32)
        }
    } else {
        if imm == 0 {
            let cbit: u32 = if c_in {
                0x8000_0000
            } else {
                0
            };
            cbit | (rm_val >> 1)
        } else {
            (rm_val >> imm) | (rm_val << (32 - imm))
        }
    }
}

/// The base register field (Rn, bits 19-16) of a load/store opcode.
pub open spec fn rn_field(op: u32) -> int {
    ((op >> 16) & 0xF) as int
}

/// Whether the offset is added to (bit 23 set) or subtracted from the base.
pub open spec fn u_flag(op: u32) -> bool {
    op & 0x0080_0000 != 0
}

/// The mode-two offset magnitude: a 12-bit immediate, a register, or a
/// scaled register.
pub open spec fn spec_mode2_offset(op: u32, s: Seq<u32>, m: Mode) -> u32 {
    let rm_val = spec_read(s, m, (op & 0xF) as int);
    let c_in = spec_get_flag(s[16], Flag::C);
    match spec_decode_mode2(op) {
        Mode2Form::ImmOffset | Mode2Form::ImmPre | Mode2Form::ImmPost => op & 0xFFF,
        Mode2Form::RegOffset | Mode2Form::RegPre | Mode2Form::RegPost => rm_val,
        _ => spec_scaled_index(op, rm_val, c_in),
    }
}

/// Whether the mode-two form steps the base after the transfer.
pub open spec fn spec_mode2_is_post(op: u32) -> bool {
    match spec_decode_mode2(op) {
        Mode2Form::ImmPost | Mode2Form::RegPost | Mode2Form::ScaledPost => true,
        _ => false,
    }
}

/// Whether the mode-two form writes the base register back at all.
pub open spec fn spec_mode2_writes_back(op: u32) -> bool {
    match spec_decode_mode2(op) {
        Mode2Form::ImmOffset | Mode2Form::RegOffset | Mode2Form::ScaledOffset => false,
        Mode2Form::Undefined => false,
        _ => true,
    }
}

/// The stepped base: base plus or minus the offset, wrapping around the
/// 32-bit space. This is both the pre-indexed effective address and the
/// value every indexed form writes back.
pub open spec fn spec_mode2_stepped_base(op: u32, s: Seq<u32>, m: Mode) -> u32 {
    let rn_val = spec_read(s, m, rn_field(op));
    let off = spec_mode2_offset(op, s, m);
    if u_flag(op) {
        u32_specs::wrapping_add(rn_val, off)
    } else {
        u32_specs::wrapping_sub(rn_val, off)
    }
}

/// The effective address a mode-two transfer uses: the original base for
/// post-indexed forms, the stepped base otherwise.
pub open spec fn spec_mode2_address(op: u32, s: Seq<u32>, m: Mode) -> u32 {
    if spec_mode2_is_post(op) {
        spec_read(s, m, rn_field(op))
    } else {
        spec_mode2_stepped_base(op, s, m)
    }
}

/// The register state after a mode-two calculation: the stepped base lands
/// in Rn exactly when the form requests writeback and the condition passes;
/// otherwise nothing changes.
pub open spec fn spec_mode2_final(op: u32, s: Seq<u32>, m: Mode) -> Seq<u32> {
    if spec_mode2_writes_back(op) && spec_pass_condition(s[16], op) {
        spec_write(s, m, rn_field(op), spec_mode2_stepped_base(op, s, m))
    } else {
        s
    }
}

/// Computes the mode-two effective address and commits any base writeback.
/// The address is exposed first; the writeback commits only when the
/// instruction's condition passes. Undefined sub-encodings are rejected with
/// no side effect at all.
pub fn addressing_mode_2(cpu: &mut ARM7TDMI, op: u32) -> (r: Result<u32, UndefinedInstruction>)
    requires
        old(cpu).wf(),
    ensures
        final (cpu).wf(),
        final (cpu).cur_mode() == old(cpu).cur_mode(),
        match r {
            Ok(addr) => spec_decode_mode2(op) != Mode2Form::Undefined && addr
                == spec_mode2_address(op, old(cpu)@, old(cpu).cur_mode()) && final (cpu)@
                == spec_mode2_final(op, old(cpu)@, old(cpu).cur_mode()),
            Err(_) => spec_decode_mode2(op) == Mode2Form::Undefined && final (cpu)@ == old(cpu)@,
        },
{
    proof {
        crate::shifter::lemma_field_bounds(op);
    }
    let form = decode_mode2(op);
    if matches!(form, Mode2Form::Undefined) {
        return Err(UndefinedInstruction);
    }
    let rn = ((op >> 16) & 0xF) as usize;
    let rn_val = cpu.read(rn);
    let rm_val = cpu.read((op & 0xF) as usize);
    let c_in = cpu.get_flag(Flag::C);
    let off = match form {
        Mode2Form::ImmOffset | Mode2Form::ImmPre | Mode2Form::ImmPost => op & 0xFFF,
        Mode2Form::RegOffset | Mode2Form::RegPre | Mode2Form::RegPost => rm_val,
        _ => scaled_index(op, rm_val, c_in),
    };
    let stepped = if op & 0x0080_0000 != 0 {
        rn_val.wrapping_add(off)
    } else {
        rn_val.wrapping_sub(off)
    };
    let is_post = matches!(form, Mode2Form::ImmPost | Mode2Form::RegPost | Mode2Form::ScaledPost);
    let writes_back = !matches!(
        form,
        Mode2Form::ImmOffset | Mode2Form::RegOffset | Mode2Form::ScaledOffset,
    );
    let addr = if is_post {
        rn_val
    } else {
        stepped
    };
    if writes_back && cpu.pass_condition(op) {
        cpu.write(rn, stepped);
    }
    Ok(addr)
}

/// The mode-three offset magnitude: an 8-bit immediate assembled from the
/// two nibble fields, or a register.
pub open spec fn spec_mode3_offset(op: u32, s: Seq<u32>, m: Mode) -> u32 {
    match spec_decode_mode3(op) {
        Mode3Form::ImmOffset | Mode3Form::ImmPre | Mode3Form::ImmPost => (((op >> 8) & 0xF) << 4)
            | (op & 0xF),
        _ => spec_read(s, m, (op & 0xF) as int),
    }
}

/// Whether the mode-three form steps the base after the transfer.
pub open spec fn spec_mode3_is_post(op: u32) -> bool {
    match spec_decode_mode3(op) {
        Mode3Form::ImmPost | Mode3Form::RegPost => true,
        _ => false,
    }
}

/// Whether the mode-three form writes the base register back.
pub open spec fn spec_mode3_writes_back(op: u32) -> bool {
    match spec_decode_mode3(op) {
        Mode3Form::ImmPre | Mode3Form::RegPre | Mode3Form::ImmPost | Mode3Form::RegPost => true,
        _ => false,
    }
}

/// The stepped base of mode three: base plus or minus the offset, wrapping.
pub open spec fn spec_mode3_stepped_base(op: u32, s: Seq<u32>, m: Mode) -> u32 {
    let rn_val = spec_read(s, m, rn_field(op));
    let off = spec_mode3_offset(op, s, m);
    if u_flag(op) {
        u32_specs::wrapping_add(rn_val, off)
    } else {
        u32_specs::wrapping_sub(rn_val, off)
    }
}

/// The effective address a mode-three transfer uses.
pub open spec fn spec_mode3_address(op: u32, s: Seq<u32>, m: Mode) -> u32 {
    if spec_mode3_is_post(op) {
        spec_read(s, m, rn_field(op))
    } else {
        spec_mode3_stepped_base(op, s, m)
    }
}

/// The register state after a mode-three calculation.
pub open spec fn spec_mode3_final(op: u32, s: Seq<u32>, m: Mode) -> Seq<u32> {
    if spec_mode3_writes_back(op) && spec_pass_condition(s[16], op) {
        spec_write(s, m, rn_field(op), spec_mode3_stepped_base(op, s, m))
    } else {
        s
    }
}

/// Computes the mode-three effective address and commits any base
/// writeback, with the same exposure and commit order as mode two.
pub fn get_address(cpu: &mut ARM7TDMI, op: u32) -> (r: Result<u32, UndefinedInstruction>)
    requires
        old(cpu).wf(),
    ensures
        final (cpu).wf(),
        final (cpu).cur_mode() == old(cpu).cur_mode(),
        match r {
            Ok(addr) => spec_decode_mode3(op) != Mode3Form::Undefined && addr
                == spec_mode3_address(op, old(cpu)@, old(cpu).cur_mode()) && final (cpu)@
                == spec_mode3_final(op, old(cpu)@, old(cpu).cur_mode()),
            Err(_) => spec_decode_mode3(op) == Mode3Form::Undefined && final (cpu)@ == old(cpu)@,
        },
{
    proof {
        crate::shifter::lemma_field_bounds(op);
    }
    let form = decode_mode3(op);
    if matches!(form, Mode3Form::Undefined) {
        return Err(UndefinedInstruction);
    }
    let rn = ((op >> 16) & 0xF) as usize;
    let rn_val = cpu.read(rn);
    let off = match form {
        Mode3Form::ImmOffset | Mode3Form::ImmPre | Mode3Form::ImmPost => (((op >> 8) & 0xF) << 4)
            | (op & 0xF),
        _ => cpu.read((op & 0xF) as usize),
    };
    let stepped = if op & 0x0080_0000 != 0 {
        rn_val.wrapping_add(off)
    } else {
        rn_val.wrapping_sub(off)
    };
    let is_post = matches!(form, Mode3Form::ImmPost | Mode3Form::RegPost);
    let writes_back = !matches!(form, Mode3Form::ImmOffset | Mode3Form::RegOffset);
    let addr = if is_post {
        rn_val
    } else {
        stepped
    };
    if writes_back && cpu.pass_condition(op) {
        cpu.write(rn, stepped);
    }
    Ok(addr)
}

/// Same calculation as `get_address`, under the name the halfword/signed
/// transfer path uses.
pub fn addressing_mode_3(cpu: &mut ARM7TDMI, op: u32) -> (r: Result<u32, UndefinedInstruction>)
    requires
        old(cpu).wf(),
    ensures
        final (cpu).wf(),
        final (cpu).cur_mode() == old(cpu).cur_mode(),
        match r {
            Ok(addr) => spec_decode_mode3(op) != Mode3Form::Undefined && addr
                == spec_mode3_address(op, old(cpu)@, old(cpu).cur_mode()) && final (cpu)@
                == spec_mode3_final(op, old(cpu)@, old(cpu).cur_mode()),
            Err(_) => spec_decode_mode3(op) == Mode3Form::Undefined && final (cpu)@ == old(cpu)@,
        },
{
    get_address(cpu, op)
}

} // verus!
