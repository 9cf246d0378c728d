//! The barrel shifter: the zero-amount edge cases of every shift type, one
//! exact value per sub-encoding, and the undefined operand patterns.

use arm7core::psr::Flag;
use arm7core::registers::ARM7TDMI;
use arm7core::shifter::{addressing_mode_1, shift_operand, shifter_carry_out, ShifterResult};

fn ok(r: Result<ShifterResult, arm7core::UndefinedInstruction>) -> (u32, bool) {
    let res = r.expect("defined shifter encoding");
    (res.value, res.carry)
}

#[test]
fn lsl_zero_returns_register_and_keeps_carry() {
    // Bits 11-4 all zero: operand is Rm untouched, carry is the C flag in.
    assert_eq!(ok(shift_operand(0x0000_0000, 0xDEAD_BEEF, 0, true)), (0xDEAD_BEEF, true));
    assert_eq!(ok(shift_operand(0x0000_0000, 0xDEAD_BEEF, 0, false)), (0xDEAD_BEEF, false));
}

#[test]
fn lsl_immediate_exact() {
    // LSL #4: type bits 6-5 = 00, bit 4 = 0, shift_imm = 4.
    let op = 4u32 << 7;
    assert_eq!(ok(shift_operand(op, 0x0F00_000F, 0, false)), (0xF000_00F0, false));
    // Carry is bit (32 - 4) = 28 of Rm.
    assert_eq!(ok(shift_operand(op, 0x1000_0000, 0, false)), (0x0000_0000, true));
}

#[test]
fn lsr_zero_behaves_as_lsr_32() {
    // LSR #0: result 0, carry = original bit 31.
    let op = 0x20u32;
    assert_eq!(ok(shift_operand(op, 0x8000_0001, 0, false)), (0, true));
    assert_eq!(ok(shift_operand(op, 0x7FFF_FFFF, 0, true)), (0, false));
}

#[test]
fn lsr_immediate_exact() {
    // LSR #1: carry = bit 0.
    let op = 0x20u32 | (1 << 7);
    assert_eq!(ok(shift_operand(op, 0x0000_0003, 0, false)), (1, true));
}

#[test]
fn asr_zero_sign_fills() {
    // ASR #0 (encodes ASR #32): all ones and carry set when bit 31 is set,
    // all zeros and carry clear otherwise.
    let op = 0x40u32;
    assert_eq!(ok(shift_operand(op, 0x8000_0000, 0, false)), (0xFFFF_FFFF, true));
    assert_eq!(ok(shift_operand(op, 0x7FFF_FFFF, 0, true)), (0, false));
}

#[test]
fn asr_immediate_exact() {
    // ASR #4 of a negative value keeps the sign bits.
    let op = 0x40u32 | (4 << 7);
    assert_eq!(ok(shift_operand(op, 0x8000_0000, 0, false)), (0xF800_0000, false));
    assert_eq!(ok(shift_operand(op, 0x0000_00F8, 0, false)), (0x0000_000F, true));
}

#[test]
fn asr_register_large_amount_sign_fills() {
    // ASR by register, amounts 32 and over: pure sign fill.
    let op = 0x50u32;
    assert_eq!(ok(shift_operand(op, 0x8000_0000, 32, false)), (0xFFFF_FFFF, true));
    assert_eq!(ok(shift_operand(op, 0x8000_0000, 200, false)), (0xFFFF_FFFF, true));
    assert_eq!(ok(shift_operand(op, 0x7FFF_FFFF, 33, true)), (0, false));
}

#[test]
fn ror_zero_is_rrx() {
    // ROR #0 is the RRX encoding: C shifts into bit 31, bit 0 becomes carry.
    let op = 0x60u32;
    assert_eq!(ok(shift_operand(op, 0x0000_0003, 0, true)), (0x8000_0001, true));
    assert_eq!(ok(shift_operand(op, 0x0000_0002, 0, false)), (0x0000_0001, false));
}

#[test]
fn ror_immediate_exact() {
    // ROR #8.
    let op = 0x60u32 | (8 << 7);
    assert_eq!(ok(shift_operand(op, 0x0000_00FF, 0, false)), (0xFF00_0000, true));
}

#[test]
fn register_shift_amount_zero_never_touches_carry() {
    // All four register-specified shifts with a zero amount byte hand the
    // register through and keep the carry, set or clear.
    for op in [0x10u32, 0x30, 0x50, 0x70] {
        for c in [false, true] {
            assert_eq!(ok(shift_operand(op, 0x1234_5678, 0x0F00, c)), (0x1234_5678, c));
        }
    }
}

#[test]
fn lsl_register_boundary_amounts() {
    let op = 0x10u32;
    assert_eq!(ok(shift_operand(op, 0x0000_0001, 4, false)), (0x10, false));
    // Amount 32: value 0, carry = bit 0 of Rm.
    assert_eq!(ok(shift_operand(op, 0x0000_0001, 32, false)), (0, true));
    assert_eq!(ok(shift_operand(op, 0x0000_0002, 32, true)), (0, false));
    // Amount over 32: value 0, carry clear.
    assert_eq!(ok(shift_operand(op, 0xFFFF_FFFF, 33, true)), (0, false));
}

#[test]
fn lsr_register_boundary_amounts() {
    let op = 0x30u32;
    assert_eq!(ok(shift_operand(op, 0x0000_0010, 4, false)), (1, false));
    assert_eq!(ok(shift_operand(op, 0x8000_0000, 32, false)), (0, true));
    assert_eq!(ok(shift_operand(op, 0xFFFF_FFFF, 40, true)), (0, false));
}

#[test]
fn ror_register_multiple_of_32_sets_carry_from_bit_31() {
    let op = 0x70u32;
    assert_eq!(ok(shift_operand(op, 0x8000_0000, 32, false)), (0x8000_0000, true));
    assert_eq!(ok(shift_operand(op, 0x7000_0000, 64, true)), (0x7000_0000, false));
    // Nonzero rotate.
    assert_eq!(ok(shift_operand(op, 0x0000_00FF, 4, false)), (0xF000_000F, true));
}

#[test]
fn immediate_rotation_exact() {
    // 8-bit immediate 0xFF rotated right by 2*1: carry = bit 31 of result.
    let op = (1 << 25) | (1 << 8) | 0xFF;
    assert_eq!(ok(shift_operand(op, 0, 0, false)), (0xC000_003F, true));
    // Rotation 0 keeps the immediate and the carry.
    let op0 = (1 << 25) | 0xAB;
    assert_eq!(ok(shift_operand(op0, 0, 0, true)), (0xAB, true));
    assert_eq!(ok(shift_operand(op0, 0, 0, false)), (0xAB, false));
}

#[test]
fn undefined_operand_pattern_is_rejected() {
    // Bit 7 and bit 4 both set is no shifter encoding.
    assert!(shift_operand(0x0000_0090, 0, 0, false).is_err());
    assert!(shift_operand(0x0000_00B0, 1, 2, true).is_err());
}

#[test]
fn addressing_mode_1_reads_the_register_file() {
    let mut cpu = ARM7TDMI::new();
    cpu.write(2, 0x0000_0001);
    cpu.write(3, 4);
    // LSL R2 by R3: op with Rm = 2, Rs = 3, pattern LSL-register.
    let op = (3 << 8) | 0x10 | 2;
    let res = addressing_mode_1(&cpu, op).expect("defined");
    assert_eq!(res.value, 0x10);
    assert!(!res.carry);
    // The plain-register form follows the C flag.
    cpu.set_flag(Flag::C, true);
    let res = addressing_mode_1(&cpu, 2).expect("defined");
    assert_eq!(res.value, 0x0000_0001);
    assert!(res.carry);
    assert_eq!(shifter_carry_out(&cpu, 2).expect("defined"), true);
}
