//! Program status word (CPSR/SPSR) layout: condition flags, sticky-overflow
//! flag, THUMB state bit, and the processor mode field.
//!
//! Flags are only ever read or written through the named accessors below,
//! which mask the correct bit; likewise the mode field. Direct arithmetic on
//! the raw word outside these accessors is disallowed by contract elsewhere
//! in the crate.

use vstd::prelude::*;

verus! {

/// Negative flag, bit 31 of a status word.
pub const FLAG_MASK_N: u32 = 0x8000_0000;

/// Zero flag, bit 30.
pub const FLAG_MASK_Z: u32 = 0x4000_0000;

/// Carry flag, bit 29.
pub const FLAG_MASK_C: u32 = 0x2000_0000;

/// Overflow flag, bit 28.
pub const FLAG_MASK_V: u32 = 0x1000_0000;

/// Sticky-overflow flag, bit 27.
pub const FLAG_MASK_Q: u32 = 0x0800_0000;

/// THUMB state bit, bit 5: selects 16-bit instruction decode when set.
pub const FLAG_MASK_T: u32 = 0x0000_0020;

/// The mode field occupies the low five bits of a status word.
pub const MODE_FIELD_MASK: u32 = 0x0000_001F;

/// A named single-bit field of a status word.
#[derive(Clone, Copy, Debug, PartialEq, Eq, Structural)]
pub enum Flag {
    N,
    Z,
    C,
    V,
    Q,
    T,
}

/// The seven ARMv4T processor modes. Each mode banks a subset of the
/// register file; see `registers`.
#[derive(Clone, Copy, Debug, PartialEq, Eq, Structural)]
pub enum Mode {
    User,
    Fiq,
    Irq,
    Supervisor,
    Abort,
    Undef,
    System,
}

/// The single-bit mask that isolates `f` in a status word.
pub open spec fn spec_flag_mask(f: Flag) -> u32 {
    match f {
        Flag::N => FLAG_MASK_N,
        Flag::Z => FLAG_MASK_Z,
        Flag::C => FLAG_MASK_C,
        Flag::V => FLAG_MASK_V,
        Flag::Q => FLAG_MASK_Q,
        Flag::T => FLAG_MASK_T,
    }
}

/// Whether `f` is set in the status word `psr`.
pub open spec fn spec_get_flag(psr: u32, f: Flag) -> bool {
    psr & spec_flag_mask(f) != 0
}

/// The status word `psr` with `f` forced to `b` and every other bit kept.
pub open spec fn spec_set_flag(psr: u32, f: Flag, b: bool) -> u32 {
    if b {
        psr | spec_flag_mask(f)
    } else {
        psr & !spec_flag_mask(f)
    }
}

/// The architectural encoding of `m` in the mode field.
pub open spec fn spec_mode_bits(m: Mode) -> u32 {
    match m {
        Mode::User => 0x10,
        Mode::Fiq => 0x11,
        Mode::Irq => 0x12,
        Mode::Supervisor => 0x13,
        Mode::Abort => 0x17,
        Mode::Undef => 0x1B,
        Mode::System => 0x1F,
    }
}

/// The mode encoded by the low five bits of `bits`, if any.
pub open spec fn spec_mode_from_bits(bits: u32) -> Option<Mode> {
    match bits & MODE_FIELD_MASK {
        0x10 => Some(Mode::User),
        0x11 => Some(Mode::Fiq),
        0x12 => Some(Mode::Irq),
        0x13 => Some(Mode::Supervisor),
        0x17 => Some(Mode::Abort),
        0x1B => Some(Mode::Undef),
        0x1F => Some(Mode::System),
        _ => None,
    }
}

/// Whether `m` owns a saved program status register. User and System mode do
/// not; touching the SPSR there is architecturally unpredictable and is ruled
/// out by precondition throughout the crate.
pub open spec fn has_spsr(m: Mode) -> bool {
    m != Mode::User && m != Mode::System
}

/// The single-bit mask that isolates `f` in a status word.
pub fn flag_mask(f: Flag) -> (r: u32)
    ensures
        r == spec_flag_mask(f),
{
    match f {
        Flag::N => FLAG_MASK_N,
        Flag::Z => FLAG_MASK_Z,
        Flag::C => FLAG_MASK_C,
        Flag::V => FLAG_MASK_V,
        Flag::Q => FLAG_MASK_Q,
        Flag::T => FLAG_MASK_T,
    }
}

/// Reads `f` from the status word `psr`.
pub fn get_flag(psr: u32, f: Flag) -> (r: bool)
    ensures
        r == spec_get_flag(psr, f),
{
    psr & flag_mask(f) != 0
}

/// Returns `psr` with `f` forced to `b`; no other bit changes.
pub fn set_flag(psr: u32, f: Flag, b: bool) -> (r: u32)
    ensures
        r == spec_set_flag(psr, f, b),
{
    if b {
        psr | flag_mask(f)
    } else {
        psr & !flag_mask(f)
    }
}

/// The architectural encoding of `m` in the mode field.
pub fn mode_bits(m: Mode) -> (r: u32)
    ensures
        r == spec_mode_bits(m),
{
    match m {
        Mode::User => 0x10,
        Mode::Fiq => 0x11,
        Mode::Irq => 0x12,
        Mode::Supervisor => 0x13,
        Mode::Abort => 0x17,
        Mode::Undef => 0x1B,
        Mode::System => 0x1F,
    }
}

/// Decodes the low five bits of `bits` as a processor mode; `None` for the
/// encodings the architecture leaves unassigned.
pub fn mode_from_bits(bits: u32) -> (r: Option<Mode>)
    ensures
        r == spec_mode_from_bits(bits),
{
    match bits & MODE_FIELD_MASK {
        0x10 => Some(Mode::User),
        0x11 => Some(Mode::Fiq),
        0x12 => Some(Mode::Irq),
        0x13 => Some(Mode::Supervisor),
        0x17 => Some(Mode::Abort),
        0x1B => Some(Mode::Undef),
        0x1F => Some(Mode::System),
        _ => None,
    }
}

/// A successfully decoded mode field reads back: the word's low five bits
/// are exactly the decoded mode's encoding.
pub proof fn lemma_mode_from_bits_inverse(bits: u32)
    ensures
        (spec_mode_from_bits(bits) matches Some(m) ==> bits & MODE_FIELD_MASK == spec_mode_bits(
            m,
        )),
{
}

/// Setting or clearing bits under `m1` leaves everything under a disjoint
/// mask `m2` alone.
proof fn lemma_mask_write_disjoint(psr: u32, m1: u32, m2: u32)
    by (bit_vector)
    requires
        m1 & m2 == 0,
    ensures
        (psr | m1) & m2 == psr & m2,
        (psr & !m1) & m2 == psr & m2,
{
}

/// A set or cleared field under a nonzero mask `m` reads back.
proof fn lemma_mask_write_reads_back(psr: u32, m: u32)
    by (bit_vector)
    requires
        m != 0,
    ensures
        (psr | m) & m != 0,
        (psr & !m) & m == 0,
{
}

/// The six flag masks are nonzero, pairwise disjoint (in both argument
/// orders, since `&` is uninterpreted here), and disjoint from the mode field.
proof fn lemma_flag_masks_disjoint()
    by (bit_vector)
    ensures
        FLAG_MASK_N != 0 && FLAG_MASK_Z != 0 && FLAG_MASK_C != 0 && FLAG_MASK_V != 0 && FLAG_MASK_Q
            != 0 && FLAG_MASK_T != 0,
        FLAG_MASK_N & FLAG_MASK_Z == 0 && FLAG_MASK_N & FLAG_MASK_C == 0 && FLAG_MASK_N
            & FLAG_MASK_V == 0 && FLAG_MASK_N & FLAG_MASK_Q == 0 && FLAG_MASK_N & FLAG_MASK_T == 0,
        FLAG_MASK_Z & FLAG_MASK_N == 0 && FLAG_MASK_Z & FLAG_MASK_C == 0 && FLAG_MASK_Z
            & FLAG_MASK_V == 0 && FLAG_MASK_Z & FLAG_MASK_Q == 0 && FLAG_MASK_Z & FLAG_MASK_T == 0,
        FLAG_MASK_C & FLAG_MASK_N == 0 && FLAG_MASK_C & FLAG_MASK_Z == 0 && FLAG_MASK_C
            & FLAG_MASK_V == 0 && FLAG_MASK_C & FLAG_MASK_Q == 0 && FLAG_MASK_C & FLAG_MASK_T == 0,
        FLAG_MASK_V & FLAG_MASK_N == 0 && FLAG_MASK_V & FLAG_MASK_Z == 0 && FLAG_MASK_V
            & FLAG_MASK_C == 0 && FLAG_MASK_V & FLAG_MASK_Q == 0 && FLAG_MASK_V & FLAG_MASK_T == 0,
        FLAG_MASK_Q & FLAG_MASK_N == 0 && FLAG_MASK_Q & FLAG_MASK_Z == 0 && FLAG_MASK_Q
            & FLAG_MASK_C == 0 && FLAG_MASK_Q & FLAG_MASK_V == 0 && FLAG_MASK_Q & FLAG_MASK_T == 0,
        FLAG_MASK_T & FLAG_MASK_N == 0 && FLAG_MASK_T & FLAG_MASK_Z == 0 && FLAG_MASK_T
            & FLAG_MASK_C == 0 && FLAG_MASK_T & FLAG_MASK_V == 0 && FLAG_MASK_T & FLAG_MASK_Q == 0,
        FLAG_MASK_N & MODE_FIELD_MASK == 0 && FLAG_MASK_Z & MODE_FIELD_MASK == 0 && FLAG_MASK_C
            & MODE_FIELD_MASK == 0 && FLAG_MASK_V & MODE_FIELD_MASK == 0 && FLAG_MASK_Q
            & MODE_FIELD_MASK == 0 && FLAG_MASK_T & MODE_FIELD_MASK == 0,
{
}

/// Writing a flag reads back: after `spec_set_flag(psr, f, b)`, flag `f`
/// holds exactly `b`.
pub proof fn lemma_set_flag_reads_back(psr: u32, f: Flag, b: bool)
    ensures
        spec_get_flag(spec_set_flag(psr, f, b), f) == b,
{
    lemma_flag_masks_disjoint();
    lemma_mask_write_reads_back(psr, spec_flag_mask(f));
}

/// Writing one flag leaves every other flag unchanged.
pub proof fn lemma_set_flag_preserves_others(psr: u32, f: Flag, g: Flag, b: bool)
    requires
        f != g,
    ensures
        spec_get_flag(spec_set_flag(psr, f, b), g) == spec_get_flag(psr, g),
{
    lemma_flag_masks_disjoint();
    lemma_mask_write_disjoint(psr, spec_flag_mask(f), spec_flag_mask(g));
}

/// Writing a flag leaves the mode field unchanged.
pub proof fn lemma_set_flag_preserves_mode_field(psr: u32, f: Flag, b: bool)
    ensures
        spec_set_flag(psr, f, b) & MODE_FIELD_MASK == psr & MODE_FIELD_MASK,
{
    lemma_flag_masks_disjoint();
    lemma_mask_write_disjoint(psr, spec_flag_mask(f), MODE_FIELD_MASK);
}

} // verus!
