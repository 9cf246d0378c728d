//! Load/store address calculation (addressing modes two and three):
//! indexing forms, writeback gating, scaled offsets, and the undefined
//! sub-encodings.

use arm7core::loadstore::{addressing_mode_2, addressing_mode_3, get_address, scaled_index};
use arm7core::psr::Flag;
use arm7core::registers::ARM7TDMI;

const AL: u32 = 0xE000_0000;
const NV: u32 = 0xF000_0000;
const I_BIT: u32 = 1 << 25;
const P_BIT: u32 = 1 << 24;
const U_BIT: u32 = 1 << 23;
const W_BIT: u32 = 1 << 21;
const RN1: u32 = 1 << 16;

#[test]
fn mode2_post_indexed_exposes_base_then_steps_it() {
    let mut cpu = ARM7TDMI::new();
    cpu.write(1, 0x2000);
    // Post-indexed immediate, U = 1, offset 4 over base r1.
    let op = AL | U_BIT | RN1 | 4;
    let addr = addressing_mode_2(&mut cpu, op).expect("defined");
    assert_eq!(addr, 0x2000);
    assert_eq!(cpu.read(1), 0x2004);
}

#[test]
fn mode2_post_indexed_no_writeback_when_condition_fails() {
    let mut cpu = ARM7TDMI::new();
    cpu.write(1, 0x2000);
    let op = NV | U_BIT | RN1 | 4;
    let addr = addressing_mode_2(&mut cpu, op).expect("defined");
    assert_eq!(addr, 0x2000);
    assert_eq!(cpu.read(1), 0x2000);
}

#[test]
fn mode2_pre_indexed_writes_effective_address_back() {
    let mut cpu = ARM7TDMI::new();
    cpu.write(1, 0x2000);
    let op = AL | P_BIT | U_BIT | W_BIT | RN1 | 0x10;
    let addr = addressing_mode_2(&mut cpu, op).expect("defined");
    assert_eq!(addr, 0x2010);
    assert_eq!(cpu.read(1), 0x2010);
}

#[test]
fn mode2_offset_form_never_writes_back() {
    let mut cpu = ARM7TDMI::new();
    cpu.write(1, 0x2000);
    let op = AL | P_BIT | U_BIT | RN1 | 0x10;
    let addr = addressing_mode_2(&mut cpu, op).expect("defined");
    assert_eq!(addr, 0x2010);
    assert_eq!(cpu.read(1), 0x2000);
}

#[test]
fn mode2_subtracts_without_u_bit() {
    let mut cpu = ARM7TDMI::new();
    cpu.write(1, 0x2000);
    let op = AL | P_BIT | RN1 | 0x10;
    let addr = addressing_mode_2(&mut cpu, op).expect("defined");
    assert_eq!(addr, 0x1FF0);
}

#[test]
fn mode2_register_offset() {
    let mut cpu = ARM7TDMI::new();
    cpu.write(1, 0x2000);
    cpu.write(2, 0x100);
    let op = AL | I_BIT | P_BIT | U_BIT | RN1 | 2;
    let addr = addressing_mode_2(&mut cpu, op).expect("defined");
    assert_eq!(addr, 0x2100);
}

#[test]
fn mode2_scaled_offset_lsl() {
    let mut cpu = ARM7TDMI::new();
    cpu.write(1, 0x2000);
    cpu.write(2, 4);
    // Index = r2 LSL #2 = 16.
    let op = AL | I_BIT | P_BIT | U_BIT | RN1 | (2 << 7) | 2;
    let addr = addressing_mode_2(&mut cpu, op).expect("defined");
    assert_eq!(addr, 0x2010);
}

#[test]
fn mode2_register_shift_pattern_is_undefined() {
    let mut cpu = ARM7TDMI::new();
    cpu.write(1, 0x2000);
    // Bit 4 set with the register form requests a register-specified shift:
    // not a load/store encoding. Nothing changes.
    let op = AL | I_BIT | P_BIT | U_BIT | W_BIT | RN1 | (3 << 8) | 0x10 | 2;
    assert!(addressing_mode_2(&mut cpu, op).is_err());
    assert_eq!(cpu.read(1), 0x2000);
}

#[test]
fn scaled_index_zero_amount_encodings() {
    // LSR #0 means LSR #32: index 0.
    assert_eq!(scaled_index(0x20, 0xFFFF_FFFF, false), 0);
    // ASR #0 means ASR #32: sign fill.
    assert_eq!(scaled_index(0x40, 0x8000_0000, false), 0xFFFF_FFFF);
    assert_eq!(scaled_index(0x40, 0x7FFF_FFFF, false), 0);
    // ROR #0 is RRX.
    assert_eq!(scaled_index(0x60, 0x2, true), 0x8000_0001);
    // LSL #0 passes the register through.
    assert_eq!(scaled_index(0x00, 0x1234, false), 0x1234);
}

#[test]
fn mode2_scaled_rrx_uses_carry() {
    let mut cpu = ARM7TDMI::new();
    cpu.write(1, 0);
    cpu.write(2, 2);
    cpu.set_flag(Flag::C, true);
    // ROR #0 (RRX) scaled index over a zero base.
    let op = AL | I_BIT | P_BIT | U_BIT | RN1 | 0x60 | 2;
    let addr = addressing_mode_2(&mut cpu, op).expect("defined");
    assert_eq!(addr, 0x8000_0001);
}

#[test]
fn mode3_immediate_offset_assembles_nibbles() {
    let mut cpu = ARM7TDMI::new();
    cpu.write(1, 0x3000);
    // Immediate form (bit 22), offset 0x14 split as high nibble 1, low 4.
    let op = AL | P_BIT | U_BIT | (1 << 22) | RN1 | (1 << 8) | 4;
    let addr = get_address(&mut cpu, op).expect("defined");
    assert_eq!(addr, 0x3014);
    assert_eq!(cpu.read(1), 0x3000);
}

#[test]
fn mode3_register_pre_indexed_writes_back() {
    let mut cpu = ARM7TDMI::new();
    cpu.write(1, 0x3000);
    cpu.write(2, 0x20);
    let op = AL | P_BIT | U_BIT | W_BIT | RN1 | 2;
    let addr = get_address(&mut cpu, op).expect("defined");
    assert_eq!(addr, 0x3020);
    assert_eq!(cpu.read(1), 0x3020);
}

#[test]
fn mode3_post_indexed_subtract() {
    let mut cpu = ARM7TDMI::new();
    cpu.write(1, 0x3000);
    // Post-indexed immediate (P = 0, W = 1), U = 0, offset 8.
    let op = AL | W_BIT | (1 << 22) | RN1 | 8;
    let addr = addressing_mode_3(&mut cpu, op).expect("defined");
    assert_eq!(addr, 0x3000);
    assert_eq!(cpu.read(1), 0x2FF8);
}

#[test]
fn mode3_post_without_writeback_bit_is_undefined() {
    let mut cpu = ARM7TDMI::new();
    cpu.write(1, 0x3000);
    let op = AL | (1 << 22) | RN1 | 8;
    assert!(get_address(&mut cpu, op).is_err());
    assert_eq!(cpu.read(1), 0x3000);
}

#[test]
fn mode2_address_wraps_around() {
    let mut cpu = ARM7TDMI::new();
    cpu.write(1, 0xFFFF_FFFC);
    let op = AL | P_BIT | U_BIT | RN1 | 8;
    let addr = addressing_mode_2(&mut cpu, op).expect("defined");
    assert_eq!(addr, 4);
}
