//! Exhaustive check of the condition evaluator against the ARM condition
//! table, plus the CPSR-backed method.

use arm7core::condition::passes;
use arm7core::psr::Flag;
use arm7core::registers::ARM7TDMI;

/// The ARM condition table, written out independently: one row per 4-bit
/// condition-field value.
fn expected(cond: u32, n: bool, z: bool, c: bool, v: bool) -> bool {
    match cond {
        0 => z,
        1 => !z,
        2 => c,
        3 => !c,
        4 => n,
        5 => !n,
        6 => v,
        7 => !v,
        8 => c && !z,
        9 => !c || z,
        10 => n == v,
        11 => n != v,
        12 => !z && n == v,
        13 => z || n != v,
        14 => true,
        _ => false,
    }
}

#[test]
fn condition_table_exhaustive() {
    for cond in 0u32..16 {
        for flags in 0u32..16 {
            let n = flags & 8 != 0;
            let z = flags & 4 != 0;
            let c = flags & 2 != 0;
            let v = flags & 1 != 0;
            let opcode = (cond << 28) | 0x00BEEF00;
            assert_eq!(
                passes(opcode, n, z, c, v),
                expected(cond, n, z, c, v),
                "cond {} flags {:04b}",
                cond,
                flags
            );
        }
    }
}

#[test]
fn reserved_condition_never_passes() {
    for flags in 0u32..16 {
        let n = flags & 8 != 0;
        let z = flags & 4 != 0;
        let c = flags & 2 != 0;
        let v = flags & 1 != 0;
        assert!(!passes(0xF000_0000, n, z, c, v));
    }
}

#[test]
fn pass_condition_reads_cpsr_flags() {
    let mut cpu = ARM7TDMI::new();
    // EQ fails with Z clear, passes with Z set.
    assert!(!cpu.pass_condition(0x0000_0000));
    cpu.set_flag(Flag::Z, true);
    assert!(cpu.pass_condition(0x0000_0000));
    // NE is the complement.
    assert!(!cpu.pass_condition(0x1000_0000));
    // AL always passes.
    assert!(cpu.pass_condition(0xE000_0000));
    // GE: N equal to V.
    cpu.set_flag(Flag::N, true);
    cpu.set_flag(Flag::V, false);
    assert!(!cpu.pass_condition(0xA000_0000));
    cpu.set_flag(Flag::V, true);
    assert!(cpu.pass_condition(0xA000_0000));
}
