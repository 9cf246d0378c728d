//! The instruction classifier: one opcode per family of each instruction
//! set, and the priority order where patterns overlap.

use arm7core::classify::{disassemble, disassemble_arm, disassemble_thumb, Instruction,
    InstructionSet};

#[test]
fn mov_classifies_as_data_processing() {
    assert_eq!(disassemble(InstructionSet::ARM(0xE1A0_0000)), Instruction::DataProcessing);
}

#[test]
fn bx_classifies_before_data_processing() {
    // The branch-and-exchange pattern also matches the data-processing
    // mask; priority order must pick the specific family.
    assert_eq!(
        disassemble(InstructionSet::ARM(0xE12F_FF1E)),
        Instruction::BranchAndBranchExchange
    );
}

#[test]
fn thumb_swi_classifies() {
    assert_eq!(disassemble(InstructionSet::THUMB(0xDF00)), Instruction::SoftwareInterruptT);
}

#[test]
fn arm_families() {
    assert_eq!(disassemble_arm(0xE880_0003), Instruction::BlockDataTransfer);
    assert_eq!(disassemble_arm(0xEA00_0010), Instruction::BranchAndBranchWithLink);
    assert_eq!(disassemble_arm(0xEB00_0010), Instruction::BranchAndBranchWithLink);
    assert_eq!(disassemble_arm(0xEF00_0001), Instruction::SoftwareInterruptA);
    assert_eq!(disassemble_arm(0xE600_0010), Instruction::Undefined);
    assert_eq!(disassemble_arm(0xE410_0000), Instruction::SingleDataTransfer);
    assert_eq!(disassemble_arm(0xE100_0090), Instruction::SingleDataSwap);
    assert_eq!(disassemble_arm(0xE000_0090), Instruction::MultiplyAndMultiplyLong);
    assert_eq!(disassemble_arm(0xE080_0090), Instruction::MultiplyAndMultiplyLong);
    assert_eq!(disassemble_arm(0xE000_00B0), Instruction::HalfwordDataTransferR);
    assert_eq!(disassemble_arm(0xE040_00B0), Instruction::HalfwordDataTransferI);
    assert_eq!(disassemble_arm(0xE10F_0000), Instruction::PSRTransferMRS);
    assert_eq!(disassemble_arm(0xE129_F000), Instruction::PSRTransferMSR);
    assert_eq!(disassemble_arm(0xE3A0_0001), Instruction::DataProcessing);
}

#[test]
fn thumb_families() {
    assert_eq!(disassemble_thumb(0xE400), Instruction::UnconditionalBranch);
    assert_eq!(disassemble_thumb(0xD1FE), Instruction::ConditionalBranch);
    assert_eq!(disassemble_thumb(0xC801), Instruction::MultipleLoadStore);
    assert_eq!(disassemble_thumb(0xF123), Instruction::LongBranchWithLink);
    assert_eq!(disassemble_thumb(0xB042), Instruction::AddOffsetToSP);
    assert_eq!(disassemble_thumb(0xB501), Instruction::PushPopRegister);
    assert_eq!(disassemble_thumb(0x8042), Instruction::LoadStoreHalfword);
    assert_eq!(disassemble_thumb(0x9042), Instruction::SPRelativeLoadStore);
    assert_eq!(disassemble_thumb(0xA042), Instruction::LoadAddress);
    assert_eq!(disassemble_thumb(0x6042), Instruction::LoadStoreImmediateOffset);
    assert_eq!(disassemble_thumb(0x5042), Instruction::LoadStoreRegisterOffset);
    assert_eq!(disassemble_thumb(0x5242), Instruction::LoadStoreSignExtended);
    assert_eq!(disassemble_thumb(0x4842), Instruction::PCRelativeLoad);
    assert_eq!(disassemble_thumb(0x4442), Instruction::HiRegisterOperation);
    assert_eq!(disassemble_thumb(0x4042), Instruction::ALUOperations);
    assert_eq!(disassemble_thumb(0x2042), Instruction::MoveCompareAddSubImmediate);
    assert_eq!(disassemble_thumb(0x1842), Instruction::AddSubtract);
    assert_eq!(disassemble_thumb(0x0042), Instruction::MoveShiftedRegister);
}

#[test]
fn thumb_swi_beats_conditional_branch() {
    // 0xDFxx matches the conditional-branch mask too; the software
    // interrupt must win.
    assert_eq!(disassemble_thumb(0xDF42), Instruction::SoftwareInterruptT);
    assert_eq!(disassemble_thumb(0xDE42), Instruction::ConditionalBranch);
}

#[test]
fn multiply_beats_halfword_transfer() {
    // 0xE0000090 matches both the multiply and the halfword-register
    // patterns; the multiply family is checked first.
    assert_eq!(disassemble_arm(0xE000_0090), Instruction::MultiplyAndMultiplyLong);
}
