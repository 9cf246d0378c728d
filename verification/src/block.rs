//! Block transfer address calculation (addressing mode four): the address
//! range and base writeback for multi-register load/store.
//!
//! The low 16 opcode bits are the register list, one bit per architectural
//! register; the number of set bits determines both the transfer count and
//! the address span. Four forms are selected by bit 24 (before/after) and
//! bit 23 (increment/decrement). Base writeback commits only when the W bit
//! is set and the instruction's condition passes, and its delta follows the
//! transfer direction: decrement forms subtract the span from the base.

use crate::condition::spec_pass_condition;
use crate::psr::Mode;
use crate::registers::{spec_read, spec_write, ARM7TDMI};
use vstd::prelude::*;
use vstd::wrapping::u32_specs;

verus! {

/// The number of set bits among the low `n` bits of `list`.
pub open spec fn count_set_bits(list: u16, n: int) -> int
    decreases n,
{
    if n <= 0 {
        0
    } else {
        count_set_bits(list, n - 1) + (if (list >> (n - 1)) & 1 == 1 {
            1int
        } else {
            0int
        })
    }
}

/// At most `n` of the low `n` bits are set.
pub proof fn lemma_count_set_bits_bounds(list: u16, n: int)
    requires
        n >= 0,
    ensures
        0 <= count_set_bits(list, n) <= n,
    decreases n,
{
    if n > 0 {
        lemma_count_set_bits_bounds(list, n - 1);
    }
}

/// Counts the set bits of a 16-bit register list.
pub fn popcount16(list: u16) -> (n: u32)
    ensures
        n == count_set_bits(list, 16),
        n <= 16,
{
    proof {
        lemma_count_set_bits_bounds(list, 16);
    }
    let mut n: u32 = 0;
    let mut i: u16 = 0;
    while i < 16
        invariant
            0 <= i <= 16,
            n == count_set_bits(list, i as int),
            n <= i,
        decreases 16 - i,
    {
        if (list >> i) & 1 == 1 {
            n = n + 1;
        }
        i = i + 1;
    }
    n
}

/// The register list: the low 16 bits of a block-transfer opcode.
pub open spec fn register_list(op: u32) -> u16 {
    (op & 0xFFFF) as u16
}

/// The byte span of the transfer: four bytes per listed register.
pub open spec fn spec_list_bytes(op: u32) -> u32 {
    (4 * count_set_bits(register_list(op), 16)) as u32
}

/// Whether the transfer increments (bit 23 set) or decrements the base.
pub open spec fn mode4_increment(op: u32) -> bool {
    op & 0x0080_0000 != 0
}

/// Whether the base is stepped before (bit 24 set) or after each transfer.
pub open spec fn mode4_before(op: u32) -> bool {
    op & 0x0100_0000 != 0
}

/// Whether the opcode requests base writeback (the W bit).
pub open spec fn spec_mode4_writes_back(op: u32) -> bool {
    op & 0x0020_0000 != 0
}

/// The lowest address the transfer touches.
pub open spec fn spec_mode4_start(op: u32, s: Seq<u32>, m: Mode) -> u32 {
    let rn_val = spec_read(s, m, crate::loadstore::rn_field(op));
    let bytes = spec_list_bytes(op);
    if mode4_increment(op) {
        if mode4_before(op) {
            u32_specs::wrapping_add(rn_val, 4)
        } else {
            rn_val
        }
    } else {
        if mode4_before(op) {
            u32_specs::wrapping_sub(rn_val, bytes)
        } else {
            u32_specs::wrapping_add(u32_specs::wrapping_sub(rn_val, bytes), 4)
        }
    }
}

/// The highest address the transfer touches.
pub open spec fn spec_mode4_end(op: u32, s: Seq<u32>, m: Mode) -> u32 {
    let rn_val = spec_read(s, m, crate::loadstore::rn_field(op));
    let bytes = spec_list_bytes(op);
    if mode4_increment(op) {
        if mode4_before(op) {
            u32_specs::wrapping_add(rn_val, bytes)
        } else {
            u32_specs::wrapping_sub(u32_specs::wrapping_add(rn_val, bytes), 4)
        }
    } else {
        if mode4_before(op) {
            u32_specs::wrapping_sub(rn_val, 4)
        } else {
            rn_val
        }
    }
}

/// The value written back to the base: stepped by the whole span, in the
/// transfer's direction.
pub open spec fn spec_mode4_wb(op: u32, s: Seq<u32>, m: Mode) -> u32 {
    let rn_val = spec_read(s, m, crate::loadstore::rn_field(op));
    let bytes = spec_list_bytes(op);
    if mode4_increment(op) {
        u32_specs::wrapping_add(rn_val, bytes)
    } else {
        u32_specs::wrapping_sub(rn_val, bytes)
    }
}

/// The register state after a mode-four calculation: the stepped base lands
/// in Rn exactly when the W bit is set and the condition passes.
pub open spec fn spec_mode4_final(op: u32, s: Seq<u32>, m: Mode) -> Seq<u32> {
    if spec_mode4_writes_back(op) && spec_pass_condition(s[16], op) {
        spec_write(s, m, crate::loadstore::rn_field(op), spec_mode4_wb(op, s, m))
    } else {
        s
    }
}

/// Computes the block-transfer address range and commits any base
/// writeback. Returns the (start, end) address pair; both bounds are
/// inclusive and wrap around the 32-bit space.
pub fn addressing_mode_4(cpu: &mut ARM7TDMI, op: u32) -> (r: (u32, u32))
    requires
        old(cpu).wf(),
    ensures
        final (cpu).wf(),
        final (cpu).cur_mode() == old(cpu).cur_mode(),
        r.0 == spec_mode4_start(op, old(cpu)@, old(cpu).cur_mode()),
        r.1 == spec_mode4_end(op, old(cpu)@, old(cpu).cur_mode()),
        final (cpu)@ == spec_mode4_final(op, old(cpu)@, old(cpu).cur_mode()),
{
    proof {
        crate::shifter::lemma_field_bounds(op);
        lemma_list_truncation(op);
    }
    let rn = ((op >> 16) & 0xF) as usize;
    let rn_val = cpu.read(rn);
    let count = popcount16((op & 0xFFFF) as u16);
    let bytes = count * 4;
    let increment = op & 0x0080_0000 != 0;
    let before = op & 0x0100_0000 != 0;
    let (start, end, wb) = if increment {
        let wb = rn_val.wrapping_add(bytes);
        if before {
            (rn_val.wrapping_add(4), wb, wb)
        } else {
            (rn_val, wb.wrapping_sub(4), wb)
        }
    } else {
        let wb = rn_val.wrapping_sub(bytes);
        if before {
            (wb, rn_val.wrapping_sub(4), wb)
        } else {
            (wb.wrapping_add(4), rn_val, wb)
        }
    };
    if op & 0x0020_0000 != 0 && cpu.pass_condition(op) {
        cpu.write(rn, wb);
    }
    (start, end)
}

/// Casting the register-list field through `u16` keeps its value.
proof fn lemma_list_truncation(op: u32)
    by (bit_vector)
    ensures
        (op & 0xFFFF) as u16 as u32 == op & 0xFFFF,
        op & 0xFFFF < 0x10000,
{
}

} // verus!
