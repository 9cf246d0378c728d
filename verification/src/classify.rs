//! The instruction classifier: bit-pattern dispatch mapping an opcode to its
//! instruction family, for both instruction sets.
//!
//! Each family is recognised by a fixed-position mask/format pair. Families
//! overlap in their raw bit patterns, so matching is by priority: the first
//! family in the fixed order below whose `(opcode & mask) == format` test
//! succeeds wins, and more specific masks (branch-and-exchange) precede the
//! general ones (data processing) that would otherwise also match. Opcodes
//! matching no family classify as `UndefinedInstruction`.

use vstd::prelude::*;

verus! {

/// A raw opcode, tagged with the instruction set it belongs to.
#[derive(Clone, Copy, Debug, PartialEq, Eq, Structural)]
pub enum InstructionSet {
    ARM(u32),
    THUMB(u16),
}

/// The instruction families of both instruction sets: twelve ARM families,
/// nineteen THUMB families, the ARM undefined-space family, and the fallback
/// for opcodes matching nothing.
#[derive(Clone, Copy, Debug, PartialEq, Eq, Structural)]
pub enum Instruction {
    BranchAndBranchExchange,
    BlockDataTransfer,
    BranchAndBranchWithLink,
    SoftwareInterruptA,
    Undefined,
    SingleDataTransfer,
    SingleDataSwap,
    MultiplyAndMultiplyLong,
    HalfwordDataTransferR,
    HalfwordDataTransferI,
    PSRTransferMRS,
    PSRTransferMSR,
    DataProcessing,
    SoftwareInterruptT,
    UnconditionalBranch,
    ConditionalBranch,
    MultipleLoadStore,
    LongBranchWithLink,
    AddOffsetToSP,
    PushPopRegister,
    LoadStoreHalfword,
    SPRelativeLoadStore,
    LoadAddress,
    LoadStoreImmediateOffset,
    LoadStoreRegisterOffset,
    LoadStoreSignExtended,
    PCRelativeLoad,
    HiRegisterOperation,
    ALUOperations,
    MoveCompareAddSubImmediate,
    AddSubtract,
    MoveShiftedRegister,
    UndefinedInstruction,
}

/// The ARM family table: the ordered mask/format chain.
pub open spec fn spec_classify_arm(op: u32) -> Instruction {
    if op & 0x0FFF_FFF0 == 0x012F_FF10 {
        Instruction::BranchAndBranchExchange
    } else if op & 0x0E00_0000 == 0x0800_0000 {
        Instruction::BlockDataTransfer
    } else if op & 0x0F00_0000 == 0x0A00_0000 || op & 0x0F00_0000 == 0x0B00_0000 {
        Instruction::BranchAndBranchWithLink
    } else if op & 0x0F00_0000 == 0x0F00_0000 {
        Instruction::SoftwareInterruptA
    } else if op & 0x0E00_0010 == 0x0600_0010 {
        Instruction::Undefined
    } else if op & 0x0C00_0000 == 0x0400_0000 {
        Instruction::SingleDataTransfer
    } else if op & 0x0F80_0FF0 == 0x0100_0090 {
        Instruction::SingleDataSwap
    } else if op & 0x0F80_00F0 == 0x0000_0090 || op & 0x0F80_00F0 == 0x0080_0090 {
        Instruction::MultiplyAndMultiplyLong
    } else if op & 0x0E40_0F90 == 0x0000_0090 {
        Instruction::HalfwordDataTransferR
    } else if op & 0x0E40_0090 == 0x0040_0090 {
        Instruction::HalfwordDataTransferI
    } else if op & 0x0FBF_0000 == 0x010F_0000 {
        Instruction::PSRTransferMRS
    } else if op & 0x0DB0_F000 == 0x0120_F000 {
        Instruction::PSRTransferMSR
    } else if op & 0x0C00_0000 == 0 {
        Instruction::DataProcessing
    } else {
        Instruction::UndefinedInstruction
    }
}

/// The THUMB family table: the ordered mask/format chain.
pub open spec fn spec_classify_thumb(op: u16) -> Instruction {
    if op & 0xFF00 == 0xDF00 {
        Instruction::SoftwareInterruptT
    } else if op & 0xF800 == 0xE000 {
        Instruction::UnconditionalBranch
    } else if op & 0xF000 == 0xD000 {
        Instruction::ConditionalBranch
    } else if op & 0xF000 == 0xC000 {
        Instruction::MultipleLoadStore
    } else if op & 0xF000 == 0xF000 {
        Instruction::LongBranchWithLink
    } else if op & 0xFF00 == 0xB000 {
        Instruction::AddOffsetToSP
    } else if op & 0xF600 == 0xB400 {
        Instruction::PushPopRegister
    } else if op & 0xF000 == 0x8000 {
        Instruction::LoadStoreHalfword
    } else if op & 0xF000 == 0x9000 {
        Instruction::SPRelativeLoadStore
    } else if op & 0xF000 == 0xA000 {
        Instruction::LoadAddress
    } else if op & 0xE000 == 0x6000 {
        Instruction::LoadStoreImmediateOffset
    } else if op & 0xF200 == 0x5000 {
        Instruction::LoadStoreRegisterOffset
    } else if op & 0xF200 == 0x5200 {
        Instruction::LoadStoreSignExtended
    } else if op & 0xF800 == 0x4800 {
        Instruction::PCRelativeLoad
    } else if op & 0xFC00 == 0x4400 {
        Instruction::HiRegisterOperation
    } else if op & 0xFC00 == 0x4000 {
        Instruction::ALUOperations
    } else if op & 0xE000 == 0x2000 {
        Instruction::MoveCompareAddSubImmediate
    } else if op & 0xF800 == 0x1800 {
        Instruction::AddSubtract
    } else if op & 0xE000 == 0 {
        Instruction::MoveShiftedRegister
    } else {
        Instruction::UndefinedInstruction
    }
}

/// The family of an opcode of either instruction set.
pub open spec fn spec_classify(inset: InstructionSet) -> Instruction {
    match inset {
        InstructionSet::ARM(op) => spec_classify_arm(op),
        InstructionSet::THUMB(op) => spec_classify_thumb(op),
    }
}

/// Classifies an opcode of either instruction set into its family. Pure:
/// no register or memory state is read or written.
pub fn disassemble(inset: InstructionSet) -> (r: Instruction)
    ensures
        r == spec_classify(inset),
{
    match inset {
        InstructionSet::ARM(op) => disassemble_arm(op),
        InstructionSet::THUMB(op) => disassemble_thumb(op),
    }
}

/// Classifies a 32-bit ARM opcode by the ordered family table.
pub fn disassemble_arm(op: u32) -> (r: Instruction)
    ensures
        r == spec_classify_arm(op),
{
    if arm_branch_and_branch_exchange(op) {
        Instruction::BranchAndBranchExchange
    } else if arm_block_data_transfer(op) {
        Instruction::BlockDataTransfer
    } else if arm_branch_and_branch_with_link(op) {
        Instruction::BranchAndBranchWithLink
    } else if arm_software_interrupt(op) {
        Instruction::SoftwareInterruptA
    } else if arm_undefined(op) {
        Instruction::Undefined
    } else if arm_single_data_transfer(op) {
        Instruction::SingleDataTransfer
    } else if arm_single_data_swap(op) {
        Instruction::SingleDataSwap
    } else if arm_multiply_and_multiply_long(op) {
        Instruction::MultiplyAndMultiplyLong
    } else if arm_halfword_data_transfer_register(op) {
        Instruction::HalfwordDataTransferR
    } else if arm_halfword_data_transfer_immediate(op) {
        Instruction::HalfwordDataTransferI
    } else if arm_psr_transfer_mrs(op) {
        Instruction::PSRTransferMRS
    } else if arm_psr_transfer_msr(op) {
        Instruction::PSRTransferMSR
    } else if arm_data_processing(op) {
        Instruction::DataProcessing
    } else {
        Instruction::UndefinedInstruction
    }
}

/// Classifies a 16-bit THUMB opcode by the ordered family table.
pub fn disassemble_thumb(op: u16) -> (r: Instruction)
    ensures
        r == spec_classify_thumb(op),
{
    if thumb_software_interrupt(op) {
        Instruction::SoftwareInterruptT
    } else if thumb_unconditional_branch(op) {
        Instruction::UnconditionalBranch
    } else if thumb_conditional_branch(op) {
        Instruction::ConditionalBranch
    } else if thumb_multiple_load_store(op) {
        Instruction::MultipleLoadStore
    } else if thumb_long_branch_with_link(op) {
        Instruction::LongBranchWithLink
    } else if thumb_add_offset_to_stack_pointer(op) {
        Instruction::AddOffsetToSP
    } else if thumb_push_pop_registers(op) {
        Instruction::PushPopRegister
    } else if thumb_load_store_halfword(op) {
        Instruction::LoadStoreHalfword
    } else if thumb_sp_relative_load_store(op) {
        Instruction::SPRelativeLoadStore
    } else if thumb_load_address(op) {
        Instruction::LoadAddress
    } else if thumb_load_store_immediate_offset(op) {
        Instruction::LoadStoreImmediateOffset
    } else if thumb_load_store_register_offset(op) {
        Instruction::LoadStoreRegisterOffset
    } else if thumb_load_store_sign_extended(op) {
        Instruction::LoadStoreSignExtended
    } else if thumb_pc_relative_load(op) {
        Instruction::PCRelativeLoad
    } else if thumb_hi_register_operation(op) {
        Instruction::HiRegisterOperation
    } else if thumb_alu_operations(op) {
        Instruction::ALUOperations
    } else if thumb_move_compare_add_sub_immediate(op) {
        Instruction::MoveCompareAddSubImmediate
    } else if thumb_add_subtract(op) {
        Instruction::AddSubtract
    } else if thumb_move_shifted_register(op) {
        Instruction::MoveShiftedRegister
    } else {
        Instruction::UndefinedInstruction
    }
}

/// Matches the branch-and-exchange pattern.
pub fn arm_branch_and_branch_exchange(op: u32) -> (r: bool)
    ensures
        r == (op & 0x0FFF_FFF0 == 0x012F_FF10),
{
    op & 0x0FFF_FFF0 == 0x012F_FF10
}

/// Matches the multi-register load/store pattern.
pub fn arm_block_data_transfer(op: u32) -> (r: bool)
    ensures
        r == (op & 0x0E00_0000 == 0x0800_0000),
{
    op & 0x0E00_0000 == 0x0800_0000
}

/// Matches branch and branch-with-link (the two link-bit formats).
pub fn arm_branch_and_branch_with_link(op: u32) -> (r: bool)
    ensures
        r == (op & 0x0F00_0000 == 0x0A00_0000 || op & 0x0F00_0000 == 0x0B00_0000),
{
    op & 0x0F00_0000 == 0x0A00_0000 || op & 0x0F00_0000 == 0x0B00_0000
}

/// Matches the ARM software-interrupt pattern.
pub fn arm_software_interrupt(op: u32) -> (r: bool)
    ensures
        r == (op & 0x0F00_0000 == 0x0F00_0000),
{
    op & 0x0F00_0000 == 0x0F00_0000
}

/// Matches the architecturally undefined instruction space.
pub fn arm_undefined(op: u32) -> (r: bool)
    ensures
        r == (op & 0x0E00_0010 == 0x0600_0010),
{
    op & 0x0E00_0010 == 0x0600_0010
}

/// Matches the single word/byte transfer pattern.
pub fn arm_single_data_transfer(op: u32) -> (r: bool)
    ensures
        r == (op & 0x0C00_0000 == 0x0400_0000),
{
    op & 0x0C00_0000 == 0x0400_0000
}

/// Matches the single data-swap pattern.
pub fn arm_single_data_swap(op: u32) -> (r: bool)
    ensures
        r == (op & 0x0F80_0FF0 == 0x0100_0090),
{
    op & 0x0F80_0FF0 == 0x0100_0090
}

/// Matches multiply and multiply-long (the two accumulator-width formats).
pub fn arm_multiply_and_multiply_long(op: u32) -> (r: bool)
    ensures
        r == (op & 0x0F80_00F0 == 0x0000_0090 || op & 0x0F80_00F0 == 0x0080_0090),
{
    op & 0x0F80_00F0 == 0x0000_0090 || op & 0x0F80_00F0 == 0x0080_0090
}

/// Matches the halfword transfer pattern with a register offset.
pub fn arm_halfword_data_transfer_register(op: u32) -> (r: bool)
    ensures
        r == (op & 0x0E40_0F90 == 0x0000_0090),
{
    op & 0x0E40_0F90 == 0x0000_0090
}

/// Matches the halfword transfer pattern with an immediate offset.
pub fn arm_halfword_data_transfer_immediate(op: u32) -> (r: bool)
    ensures
        r == (op & 0x0E40_0090 == 0x0040_0090),
{
    op & 0x0E40_0090 == 0x0040_0090
}

/// Matches the status-register read (MRS) pattern.
pub fn arm_psr_transfer_mrs(op: u32) -> (r: bool)
    ensures
        r == (op & 0x0FBF_0000 == 0x010F_0000),
{
    op & 0x0FBF_0000 == 0x010F_0000
}

/// Matches the status-register write (MSR) pattern.
pub fn arm_psr_transfer_msr(op: u32) -> (r: bool)
    ensures
        r == (op & 0x0DB0_F000 == 0x0120_F000),
{
    op & 0x0DB0_F000 == 0x0120_F000
}

/// Matches the data-processing pattern (the most general ARM family).
pub fn arm_data_processing(op: u32) -> (r: bool)
    ensures
        r == (op & 0x0C00_0000 == 0),
{
    op & 0x0C00_0000 == 0
}

/// Matches the THUMB software-interrupt pattern.
pub fn thumb_software_interrupt(op: u16) -> (r: bool)
    ensures
        r == (op & 0xFF00 == 0xDF00),
{
    op & 0xFF00 == 0xDF00
}

/// Matches the THUMB unconditional branch pattern.
pub fn thumb_unconditional_branch(op: u16) -> (r: bool)
    ensures
        r == (op & 0xF800 == 0xE000),
{
    op & 0xF800 == 0xE000
}

/// Matches the THUMB conditional branch pattern.
pub fn thumb_conditional_branch(op: u16) -> (r: bool)
    ensures
        r == (op & 0xF000 == 0xD000),
{
    op & 0xF000 == 0xD000
}

/// Matches the THUMB multiple load/store pattern.
pub fn thumb_multiple_load_store(op: u16) -> (r: bool)
    ensures
        r == (op & 0xF000 == 0xC000),
{
    op & 0xF000 == 0xC000
}

/// Matches the THUMB long branch-with-link pattern.
pub fn thumb_long_branch_with_link(op: u16) -> (r: bool)
    ensures
        r == (op & 0xF000 == 0xF000),
{
    op & 0xF000 == 0xF000
}

/// Matches the THUMB add-offset-to-stack-pointer pattern.
pub fn thumb_add_offset_to_stack_pointer(op: u16) -> (r: bool)
    ensures
        r == (op & 0xFF00 == 0xB000),
{
    op & 0xFF00 == 0xB000
}

/// Matches the THUMB push/pop registers pattern.
pub fn thumb_push_pop_registers(op: u16) -> (r: bool)
    ensures
        r == (op & 0xF600 == 0xB400),
{
    op & 0xF600 == 0xB400
}

/// Matches the THUMB halfword load/store pattern.
pub fn thumb_load_store_halfword(op: u16) -> (r: bool)
    ensures
        r == (op & 0xF000 == 0x8000),
{
    op & 0xF000 == 0x8000
}

/// Matches the THUMB SP-relative load/store pattern.
pub fn thumb_sp_relative_load_store(op: u16) -> (r: bool)
    ensures
        r == (op & 0xF000 == 0x9000),
{
    op & 0xF000 == 0x9000
}

/// Matches the THUMB load-address pattern.
pub fn thumb_load_address(op: u16) -> (r: bool)
    ensures
        r == (op & 0xF000 == 0xA000),
{
    op & 0xF000 == 0xA000
}

/// Matches the THUMB load/store with immediate offset pattern.
pub fn thumb_load_store_immediate_offset(op: u16) -> (r: bool)
    ensures
        r == (op & 0xE000 == 0x6000),
{
    op & 0xE000 == 0x6000
}

/// Matches the THUMB load/store with register offset pattern.
pub fn thumb_load_store_register_offset(op: u16) -> (r: bool)
    ensures
        r == (op & 0xF200 == 0x5000),
{
    op & 0xF200 == 0x5000
}

/// Matches the THUMB load/store sign-extended pattern.
pub fn thumb_load_store_sign_extended(op: u16) -> (r: bool)
    ensures
        r == (op & 0xF200 == 0x5200),
{
    op & 0xF200 == 0x5200
}

/// Matches the THUMB PC-relative load pattern.
pub fn thumb_pc_relative_load(op: u16) -> (r: bool)
    ensures
        r == (op & 0xF800 == 0x4800),
{
    op & 0xF800 == 0x4800
}

/// Matches the THUMB hi-register operation pattern.
pub fn thumb_hi_register_operation(op: u16) -> (r: bool)
    ensures
        r == (op & 0xFC00 == 0x4400),
{
    op & 0xFC00 == 0x4400
}

/// Matches the THUMB ALU-operations pattern.
pub fn thumb_alu_operations(op: u16) -> (r: bool)
    ensures
        r == (op & 0xFC00 == 0x4000),
{
    op & 0xFC00 == 0x4000
}

/// Matches the THUMB move/compare/add/subtract-immediate pattern.
pub fn thumb_move_compare_add_sub_immediate(op: u16) -> (r: bool)
    ensures
        r == (op & 0xE000 == 0x2000),
{
    op & 0xE000 == 0x2000
}

/// Matches the THUMB add/subtract pattern.
pub fn thumb_add_subtract(op: u16) -> (r: bool)
    ensures
        r == (op & 0xF800 == 0x1800),
{
    op & 0xF800 == 0x1800
}

/// Matches the THUMB move-shifted-register pattern (the most general THUMB
/// family).
pub fn thumb_move_shifted_register(op: u16) -> (r: bool)
    ensures
        r == (op & 0xE000 == 0),
{
    op & 0xE000 == 0
}

} // verus!
