//! The execution unit: branch and exchange, branch with link, multiply,
//! the data-processing operations, flag commits, condition gating, and the
//! dispatcher.

use arm7core::psr::{Flag, Mode};
use arm7core::registers::ARM7TDMI;

const AL: u32 = 0xE000_0000;
const NV: u32 = 0xF000_0000;
const S_BIT: u32 = 1 << 20;

#[test]
fn bx_sets_thumb_bit_and_pc() {
    let mut cpu = ARM7TDMI::new();
    cpu.write(3, 0x0000_1001);
    cpu.BX(AL | 0x012F_FF10 | 3);
    assert!(cpu.get_flag(Flag::T));
    assert_eq!(cpu.read(15), 0x1000);
}

#[test]
fn bx_clear_bit0_keeps_arm_state() {
    let mut cpu = ARM7TDMI::new();
    cpu.write(3, 0x0000_2000);
    cpu.BX(AL | 0x012F_FF10 | 3);
    assert!(!cpu.get_flag(Flag::T));
    assert_eq!(cpu.read(15), 0x2000);
}

#[test]
fn bx_condition_fail_is_a_no_op() {
    let mut cpu = ARM7TDMI::new();
    cpu.write(3, 0x0000_1001);
    cpu.BX(NV | 0x012F_FF10 | 3);
    assert!(!cpu.get_flag(Flag::T));
    assert_eq!(cpu.read(15), 0x0800_0000);
}

#[test]
fn branch_steps_pc_forward() {
    let mut cpu = ARM7TDMI::new();
    // B with offset field 0x10: PC moves by 0x40.
    cpu.branch(AL | 0x0A00_0000 | 0x10);
    assert_eq!(cpu.read(15), 0x0800_0040);
    assert_eq!(cpu.read(14), 0);
}

#[test]
fn branch_with_link_saves_return_address() {
    let mut cpu = ARM7TDMI::new();
    cpu.branch(AL | 0x0B00_0000 | 0x10);
    assert_eq!(cpu.read(15), 0x0800_0040);
    assert_eq!(cpu.read(14), 0x0800_0004);
}

#[test]
fn branch_negative_offset() {
    let mut cpu = ARM7TDMI::new();
    // Offset field all ones is -1: PC moves back by 4.
    cpu.branch(AL | 0x0A00_0000 | 0x00FF_FFFF);
    assert_eq!(cpu.read(15), 0x0800_0000 - 4);
}

#[test]
fn mul_wraps_and_sets_flags() {
    let mut cpu = ARM7TDMI::new();
    cpu.write(2, 0x8000_0001);
    cpu.write(3, 2);
    // MUL r4, r2, r3 with S: 0x8000_0001 * 2 wraps to 2.
    let op = AL | S_BIT | (4 << 16) | (3 << 8) | 0x90 | 2;
    cpu.MLA(op);
    assert_eq!(cpu.read(4), 2);
    assert!(!cpu.get_flag(Flag::N));
    assert!(!cpu.get_flag(Flag::Z));
}

#[test]
fn mla_accumulates_third_register() {
    let mut cpu = ARM7TDMI::new();
    cpu.write(2, 7);
    cpu.write(3, 6);
    cpu.write(5, 100);
    // MLA r4, r2, r3, r5: 7 * 6 + 100.
    let op = AL | (1 << 21) | (4 << 16) | (5 << 12) | (3 << 8) | 0x90 | 2;
    cpu.MLA(op);
    assert_eq!(cpu.read(4), 142);
}

#[test]
fn mul_zero_result_sets_z() {
    let mut cpu = ARM7TDMI::new();
    cpu.write(2, 0);
    cpu.write(3, 9);
    let op = AL | S_BIT | (4 << 16) | (3 << 8) | 0x90 | 2;
    cpu.MLA(op);
    assert_eq!(cpu.read(4), 0);
    assert!(cpu.get_flag(Flag::Z));
    assert!(!cpu.get_flag(Flag::N));
}

#[test]
fn mov_immediate() {
    let mut cpu = ARM7TDMI::new();
    // MOV r0, #0x37.
    let op = AL | (1 << 25) | (0xD << 21) | 0x37;
    cpu.MOV(op).expect("defined");
    assert_eq!(cpu.read(0), 0x37);
}

#[test]
fn mov_register_shifted() {
    let mut cpu = ARM7TDMI::new();
    cpu.write(2, 1);
    // MOV r0, r2, LSL #8.
    let op = AL | (0xD << 21) | (8 << 7) | 2;
    cpu.MOV(op).expect("defined");
    assert_eq!(cpu.read(0), 0x100);
}

#[test]
fn movs_commits_shifter_carry_and_nz() {
    let mut cpu = ARM7TDMI::new();
    cpu.write(2, 0x8000_0001);
    // MOVS r0, r2, LSR #1: result 0x40000000, carry out = old bit 0 = 1.
    let op = AL | (0xD << 21) | S_BIT | 0x20 | (1 << 7) | 2;
    cpu.MOV(op).expect("defined");
    assert_eq!(cpu.read(0), 0x4000_0000);
    assert!(cpu.get_flag(Flag::C));
    assert!(!cpu.get_flag(Flag::N));
    assert!(!cpu.get_flag(Flag::Z));
    // MOVS r0, #0 sets Z and clears C per the unrotated immediate rule.
    cpu.set_flag(Flag::C, false);
    let op0 = AL | (1 << 25) | (0xD << 21) | S_BIT;
    cpu.MOV(op0).expect("defined");
    assert!(cpu.get_flag(Flag::Z));
    assert!(!cpu.get_flag(Flag::N));
}

#[test]
fn movs_negative_result_sets_n() {
    let mut cpu = ARM7TDMI::new();
    cpu.write(2, 0x8000_0000);
    // MOVS r0, r2 (plain register operand).
    let op = AL | (0xD << 21) | S_BIT | 2;
    cpu.MOV(op).expect("defined");
    assert!(cpu.get_flag(Flag::N));
    assert!(!cpu.get_flag(Flag::Z));
}

#[test]
fn orr_combines_with_rn() {
    let mut cpu = ARM7TDMI::new();
    cpu.write(1, 0xF0);
    cpu.write(2, 0x0F);
    // ORR r0, r1, r2.
    let op = AL | (0xC << 21) | (1 << 16) | 2;
    cpu.ORR(op).expect("defined");
    assert_eq!(cpu.read(0), 0xFF);
}

#[test]
fn bic_clears_operand_bits() {
    let mut cpu = ARM7TDMI::new();
    cpu.write(1, 0xFF);
    cpu.write(2, 0x0F);
    // BIC r0, r1, r2.
    let op = AL | (0xE << 21) | (1 << 16) | 2;
    cpu.BIC(op).expect("defined");
    assert_eq!(cpu.read(0), 0xF0);
}

#[test]
fn data_processing_condition_fail_is_a_no_op() {
    let mut cpu = ARM7TDMI::new();
    cpu.write(0, 0xAAAA_AAAA);
    let op = NV | (1 << 25) | (0xD << 21) | S_BIT | 0x37;
    cpu.MOV(op).expect("defined");
    assert_eq!(cpu.read(0), 0xAAAA_AAAA);
    assert!(!cpu.get_flag(Flag::Z));
}

#[test]
fn data_processing_undefined_shifter_is_rejected() {
    let mut cpu = ARM7TDMI::new();
    cpu.write(0, 5);
    // Bit 7 and bit 4 both set: no shifter encoding, nothing changes.
    let op = AL | (0xD << 21) | 0x90;
    assert!(cpu.MOV(op).is_err());
    assert_eq!(cpu.read(0), 5);
}

#[test]
fn movs_to_pc_restores_cpsr_from_spsr() {
    let mut cpu = ARM7TDMI::new();
    // Supervisor's SPSR holds a User-mode word with N set.
    cpu.write_spsr(0x8000_0010);
    cpu.write(14, 0x4000);
    // MOVS pc, lr.
    let op = AL | (0xD << 21) | S_BIT | (15 << 12) | 14;
    cpu.MOV(op).expect("defined");
    assert_eq!(cpu.read(15), 0x4000);
    assert_eq!(cpu.current_mode(), Mode::User);
    assert_eq!(cpu.read(16), 0x8000_0010);
    assert!(cpu.get_flag(Flag::N));
}

#[test]
fn execute_arm_dispatches_by_family() {
    let mut cpu = ARM7TDMI::new();
    // MOV r0, #1 through the dispatcher.
    cpu.execute_arm(AL | (1 << 25) | (0xD << 21) | 1).expect("supported");
    assert_eq!(cpu.read(0), 1);
    // ORR r0, r0, #2.
    cpu.execute_arm(AL | (1 << 25) | (0xC << 21) | 2).expect("supported");
    assert_eq!(cpu.read(0), 3);
    // BX through r3.
    cpu.write(3, 0x5001);
    cpu.execute_arm(AL | 0x012F_FF10 | 3).expect("supported");
    assert_eq!(cpu.read(15), 0x5000);
    assert!(cpu.get_flag(Flag::T));
}

#[test]
fn execute_arm_rejects_unimplemented_families() {
    let mut cpu = ARM7TDMI::new();
    // Software interrupt is outside the implemented set.
    assert!(cpu.execute_arm(0xEF00_0000).is_err());
    // Multiply-long is outside the implemented set.
    assert!(cpu.execute_arm(0xE080_0090).is_err());
    // An unimplemented data-processing operation (ADD).
    assert!(cpu.execute_arm(AL | (1 << 25) | (0x4 << 21) | 1).is_err());
    // Nothing changed.
    assert_eq!(cpu.read(15), 0x0800_0000);
    assert_eq!(cpu.read(0), 0);
}
