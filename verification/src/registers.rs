//! The banked register file: 37 physical 32-bit slots backing 16
//! architectural registers (r0-r15) plus the CPSR and the per-mode saved
//! status and stack/link registers.
//!
//! A mode-indexed mapping table resolves a logical register number (0-16,
//! where 15 is the PC and 16 the CPSR) to a physical slot. Switching modes
//! changes which slot is addressed, never copies data: exactly one physical
//! slot is live per logical register at any time.

use crate::psr::{
    mode_bits, spec_get_flag, spec_mode_bits, spec_set_flag, Flag, Mode, MODE_FIELD_MASK,
};
use vstd::prelude::*;

verus! {

/// Architectural reset value of the user-mode stack pointer.
pub const RESET_SP_USR: u32 = 0x0300_7F00;

/// Architectural reset value of the program counter (ROM entry).
pub const RESET_PC: u32 = 0x0800_0000;

/// Architectural reset value of the CPSR: Supervisor mode, ARM state.
pub const RESET_CPSR: u32 = 0x13;

/// Architectural reset value of the IRQ-mode banked stack pointer.
pub const RESET_SP_IRQ: u32 = 0x0300_7FA0;

/// Architectural reset value of the Undefined-mode banked stack pointer.
pub const RESET_SP_UND: u32 = 0x0300_7FE0;

/// The physical slot backing logical register `r` (0-16) in mode `m`.
///
/// Slots 0-12 are the user general-purpose registers, 13/14 the user
/// SP/LR, 15 the PC, 16 the CPSR; 17-19 IRQ SP/LR/SPSR; 20-24 the FIQ
/// banked r8-r12; 25-27 FIQ SP/LR/SPSR; 28-30 Supervisor SP/LR/SPSR;
/// 31-33 Abort SP/LR/SPSR; 34-36 Undefined SP/LR/SPSR.
pub open spec fn slot_of(m: Mode, r: int) -> int {
    if 0 <= r < 8 {
        r
    } else if 8 <= r < 13 {
        if m == Mode::Fiq {
            r + 12
        } else {
            r
        }
    } else if r == 13 {
        match m {
            Mode::User => 13,
            Mode::System => 13,
            Mode::Irq => 17,
            Mode::Fiq => 25,
            Mode::Supervisor => 28,
            Mode::Abort => 31,
            Mode::Undef => 34,
        }
    } else if r == 14 {
        match m {
            Mode::User => 14,
            Mode::System => 14,
            Mode::Irq => 18,
            Mode::Fiq => 26,
            Mode::Supervisor => 29,
            Mode::Abort => 32,
            Mode::Undef => 35,
        }
    } else if r == 15 {
        15
    } else {
        16
    }
}

/// The physical slot holding the SPSR of mode `m`. User and System mode own
/// no SPSR; for them this aliases the CPSR slot, and every SPSR access in the
/// crate is guarded by `has_spsr` so the alias is never read or written.
pub open spec fn spsr_slot_of(m: Mode) -> int {
    match m {
        Mode::Irq => 19,
        Mode::Fiq => 27,
        Mode::Supervisor => 30,
        Mode::Abort => 33,
        Mode::Undef => 36,
        Mode::User => 16,
        Mode::System => 16,
    }
}

/// Reading logical register `r` in mode `m` from physical state `s`.
pub open spec fn spec_read(s: Seq<u32>, m: Mode, r: int) -> u32 {
    s[slot_of(m, r)]
}

/// Writing `v` to logical register `r` in mode `m`: only the one live
/// physical slot changes.
pub open spec fn spec_write(s: Seq<u32>, m: Mode, r: int, v: u32) -> Seq<u32> {
    s.update(slot_of(m, r), v)
}

/// Switching to mode `m`: only the CPSR mode field changes; no register
/// data moves.
pub open spec fn spec_enter(s: Seq<u32>, m: Mode) -> Seq<u32> {
    s.update(16, (s[16] & !MODE_FIELD_MASK) | spec_mode_bits(m))
}

/// The value physical slot `i` holds at reset.
pub open spec fn reset_value(i: int) -> u32 {
    if i == 13 {
        RESET_SP_USR
    } else if i == 15 {
        RESET_PC
    } else if i == 16 {
        RESET_CPSR
    } else if i == 17 {
        RESET_SP_IRQ
    } else if i == 34 {
        RESET_SP_UND
    } else {
        0
    }
}

/// The physical register state at reset.
pub open spec fn reset_state() -> Seq<u32> {
    Seq::new(37, |i: int| reset_value(i))
}

/// The register file of the core: physical slots, the mode-indexed mapping
/// table for logical registers 0-16, the current-SPSR pointer, and the
/// current mode (always in step with the CPSR mode field).
pub struct ARM7TDMI {
    regs: [u32; 37],
    idx: [usize; 17],
    spsr: usize,
    mode: Mode,
}

impl View for ARM7TDMI {
    type V = Seq<u32>;

    /// The physical register state: one 32-bit value per slot.
    closed spec fn view(&self) -> Seq<u32> {
        self.regs@
    }
}

impl ARM7TDMI {
    /// The current processor mode.
    pub closed spec fn cur_mode(&self) -> Mode {
        self.mode
    }

    /// Well-formedness: the mapping table and SPSR pointer agree with the
    /// current mode, and the CPSR mode field encodes that mode.
    pub closed spec fn wf(&self) -> bool {
        &&& forall|r: int|
            0 <= r < 17 ==> #[trigger] self.idx@[r] == slot_of(self.mode, r) as usize
        &&& self.spsr == spsr_slot_of(self.mode) as usize
        &&& self.regs@[16] & MODE_FIELD_MASK == spec_mode_bits(self.mode)
    }

    /// A fresh core in the architectural reset state: Supervisor mode, user
    /// and IRQ/Undefined stack pointers preloaded, PC at the ROM entry.
    pub fn new() -> (r: Self)
        ensures
            r.wf(),
            r.cur_mode() == Mode::Supervisor,
            r@ == reset_state(),
    {
        let mut regs: [u32; 37] = [0u32; 37];
        regs[13] = RESET_SP_USR;
        regs[15] = RESET_PC;
        regs[16] = RESET_CPSR;
        regs[17] = RESET_SP_IRQ;
        regs[34] = RESET_SP_UND;
        let idx: [usize; 17] = [0, 1, 2, 3, 4, 5, 6, 7, 8, 9, 10, 11, 12, 28, 29, 15, 16];
        let r = ARM7TDMI { regs, idx, spsr: 30, mode: Mode::Supervisor };
        proof {
            lemma_mode_field_consts();
            assert(r@ =~= reset_state());
        }
        r
    }

    /// The current processor mode.
    pub fn current_mode(&self) -> (m: Mode)
        ensures
            m == self.cur_mode(),
    {
        self.mode
    }

    /// Reads logical register `r` (0-15, or 16 for the CPSR) through the
    /// mode-indexed mapping.
    pub fn read(&self, r: usize) -> (v: u32)
        requires
            self.wf(),
            r < 17,
        ensures
            v == spec_read(self@, self.cur_mode(), r as int),
    {
        proof {
            lemma_slot_of_props(self.mode, r as int);
        }
        let s = self.idx[r];
        self.regs[s]
    }

    /// Writes logical register `r` through the mode-indexed mapping. A raw
    /// CPSR store that changes the mode field would desynchronise the mapping
    /// table, so it is ruled out by precondition: mode changes go through
    /// `enter_mode`.
    pub fn write(&mut self, r: usize, v: u32)
        requires
            old(self).wf(),
            r < 17,
            r == 16 ==> v & MODE_FIELD_MASK == spec_mode_bits(old(self).cur_mode()),
        ensures
            final (self).wf(),
            final (self).cur_mode() == old(self).cur_mode(),
            final (self)@ == spec_write(old(self)@, old(self).cur_mode(), r as int, v),
    {
        proof {
            lemma_slot_of_props(self.mode, r as int);
        }
        let s = self.idx[r];
        self.regs[s] = v;
    }

    /// Reads the saved program status register of the current mode. User and
    /// System mode own no SPSR, so access there is a precondition violation.
    pub fn read_spsr(&self) -> (v: u32)
        requires
            self.wf(),
            crate::psr::has_spsr(self.cur_mode()),
        ensures
            v == self@[spsr_slot_of(self.cur_mode())],
    {
        proof {
            lemma_spsr_slot_props(self.mode);
        }
        self.regs[self.spsr]
    }

    /// Writes the saved program status register of the current mode; same
    /// precondition as `read_spsr`.
    pub fn write_spsr(&mut self, v: u32)
        requires
            old(self).wf(),
            crate::psr::has_spsr(old(self).cur_mode()),
        ensures
            final (self).wf(),
            final (self).cur_mode() == old(self).cur_mode(),
            final (self)@ == old(self)@.update(spsr_slot_of(old(self).cur_mode()), v),
    {
        proof {
            lemma_spsr_slot_props(self.mode);
        }
        let s = self.spsr;
        self.regs[s] = v;
    }

    /// Reads one condition flag from the CPSR.
    pub fn get_flag(&self, f: Flag) -> (b: bool)
        requires
            self.wf(),
        ensures
            b == spec_get_flag(self@[16], f),
    {
        crate::psr::get_flag(self.regs[16], f)
    }

    /// Writes one condition flag in the CPSR; every other bit, the mode field
    /// included, is untouched.
    pub fn set_flag(&mut self, f: Flag, b: bool)
        requires
            old(self).wf(),
        ensures
            final (self).wf(),
            final (self).cur_mode() == old(self).cur_mode(),
            final (self)@ == old(self)@.update(16, spec_set_flag(old(self)@[16], f, b)),
    {
        proof {
            crate::psr::lemma_set_flag_preserves_mode_field(self.regs@[16], f, b);
        }
        let psr = crate::psr::set_flag(self.regs[16], f, b);
        self.regs[16] = psr;
    }

    /// Switches the core to mode `m`: rewrites the CPSR mode field and swaps
    /// the mapping table entries for the banked registers (r8-r12 under FIQ,
    /// r13/r14, and the SPSR pointer) to the slots owned by `m`. No register
    /// data is copied.
    pub fn enter_mode(&mut self, m: Mode)
        requires
            old(self).wf(),
        ensures
            final (self).wf(),
            final (self).cur_mode() == m,
            final (self)@ == spec_enter(old(self)@, m),
    {
        proof {
            lemma_mode_field_consts();
            lemma_mode_field_rewrite(self.regs@[16], spec_mode_bits(m));
        }
        let psr = (self.regs[16] & !MODE_FIELD_MASK) | mode_bits(m);
        self.regs[16] = psr;
        match m {
            Mode::Fiq => {
                self.idx[8] = 20;
                self.idx[9] = 21;
                self.idx[10] = 22;
                self.idx[11] = 23;
                self.idx[12] = 24;
            },
            _ => {
                self.idx[8] = 8;
                self.idx[9] = 9;
                self.idx[10] = 10;
                self.idx[11] = 11;
                self.idx[12] = 12;
            },
        }
        self.idx[13] = sp_slot(m);
        self.idx[14] = lr_slot(m);
        self.spsr = spsr_slot(m);
        self.mode = m;
        proof {
            assert forall|r: int| 0 <= r < 17 implies #[trigger] self.idx@[r] == slot_of(
                self.mode,
                r,
            ) as usize by {
                assert(old(self).idx@[r] == slot_of(old(self).mode, r) as usize);
            }
        }
    }
}

impl Default for ARM7TDMI {
    /// Same as `ARM7TDMI::new`: the architectural reset state.
    fn default() -> (r: Self)
        ensures
            r.wf(),
            r.cur_mode() == Mode::Supervisor,
            r@ == reset_state(),
    {
        ARM7TDMI::new()
    }
}

/// The physical slot of the banked stack pointer (r13) of mode `m`.
fn sp_slot(m: Mode) -> (s: usize)
    ensures
        s == slot_of(m, 13) as usize,
{
    match m {
        Mode::User => 13,
        Mode::System => 13,
        Mode::Irq => 17,
        Mode::Fiq => 25,
        Mode::Supervisor => 28,
        Mode::Abort => 31,
        Mode::Undef => 34,
    }
}

/// The physical slot of the banked link register (r14) of mode `m`.
fn lr_slot(m: Mode) -> (s: usize)
    ensures
        s == slot_of(m, 14) as usize,
{
    match m {
        Mode::User => 14,
        Mode::System => 14,
        Mode::Irq => 18,
        Mode::Fiq => 26,
        Mode::Supervisor => 29,
        Mode::Abort => 32,
        Mode::Undef => 35,
    }
}

/// The physical slot the SPSR pointer takes in mode `m`.
fn spsr_slot(m: Mode) -> (s: usize)
    ensures
        s == spsr_slot_of(m) as usize,
{
    match m {
        Mode::Irq => 19,
        Mode::Fiq => 27,
        Mode::Supervisor => 30,
        Mode::Abort => 33,
        Mode::Undef => 36,
        Mode::User => 16,
        Mode::System => 16,
    }
}

/// The slot of a logical register is a valid physical slot; the CPSR slot is
/// addressed exactly by logical register 16, and the PC slot exactly by 15.
pub proof fn lemma_slot_of_props(m: Mode, r: int)
    requires
        0 <= r < 17,
    ensures
        0 <= slot_of(m, r) < 37,
        slot_of(m, r) == 16 <==> r == 16,
        slot_of(m, r) == 15 <==> r == 15,
{
}

/// The SPSR slot is a valid physical slot and is never the CPSR slot for a
/// mode that owns an SPSR.
pub proof fn lemma_spsr_slot_props(m: Mode)
    ensures
        0 <= spsr_slot_of(m) < 37,
        crate::psr::has_spsr(m) ==> spsr_slot_of(m) != 16 && spsr_slot_of(m) != 15,
{
}

/// Each architectural mode encoding fits inside the mode field.
proof fn lemma_mode_field_consts()
    by (bit_vector)
    ensures
        0x10u32 & MODE_FIELD_MASK == 0x10 && 0x11u32 & MODE_FIELD_MASK == 0x11 && 0x12u32
            & MODE_FIELD_MASK == 0x12 && 0x13u32 & MODE_FIELD_MASK == 0x13 && 0x17u32
            & MODE_FIELD_MASK == 0x17 && 0x1Bu32 & MODE_FIELD_MASK == 0x1B && 0x1Fu32
            & MODE_FIELD_MASK == 0x1F,
{
}

/// Replacing the mode field of a status word installs exactly the new
/// encoding, provided that encoding fits inside the field.
proof fn lemma_mode_field_rewrite(psr: u32, mb: u32)
    by (bit_vector)
    requires
        mb & MODE_FIELD_MASK == mb,
    ensures
        ((psr & !MODE_FIELD_MASK) | mb) & MODE_FIELD_MASK == mb,
{
}

/// The view always holds the 37 physical slots.
pub proof fn lemma_view_len(c: &ARM7TDMI)
    ensures
        c@.len() == 37,
{
}

/// Banked registers are never cross-contaminated: writing any register other
/// than the CPSR in mode `m`, switching to any mode `m2`, and switching back
/// to `m` reproduces the written value exactly, because mode switches touch
/// only the CPSR slot.
pub proof fn lemma_banked_write_survives_mode_round_trip(
    s: Seq<u32>,
    m: Mode,
    m2: Mode,
    r: int,
    v: u32,
)
    requires
        s.len() == 37,
        0 <= r < 16,
    ensures
        spec_read(spec_enter(spec_enter(spec_write(s, m, r, v), m2), m), m, r) == v,
{
    lemma_slot_of_props(m, r);
}

/// A register write reads back through the same mode's mapping.
pub proof fn lemma_read_after_write(s: Seq<u32>, m: Mode, r: int, v: u32)
    requires
        s.len() == 37,
        0 <= r < 17,
    ensures
        spec_read(spec_write(s, m, r, v), m, r) == v,
{
    lemma_slot_of_props(m, r);
}

/// The banked stack and link registers of two different modes live in
/// different physical slots, except for User and System mode, which share
/// their whole register file.
pub proof fn lemma_banked_slots_distinct(m: Mode, m2: Mode, r: int)
    requires
        r == 13 || r == 14,
        m != m2,
        !((m == Mode::User || m == Mode::System) && (m2 == Mode::User || m2 == Mode::System)),
    ensures
        slot_of(m, r) != slot_of(m2, r),
{
}

/// A write through one mode's mapping is invisible to any logical register
/// whose live slot differs — in particular to the same register number in a
/// mode that banks it separately.
pub proof fn lemma_write_does_not_leak(s: Seq<u32>, m: Mode, m2: Mode, r: int, r2: int, v: u32)
    requires
        s.len() == 37,
        0 <= r < 17,
        0 <= r2 < 17,
        slot_of(m, r) != slot_of(m2, r2),
    ensures
        spec_read(spec_write(s, m, r, v), m2, r2) == spec_read(s, m2, r2),
{
    lemma_slot_of_props(m, r);
    lemma_slot_of_props(m2, r2);
}

} // verus!
