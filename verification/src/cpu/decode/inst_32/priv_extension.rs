//! The privileged instructions: trap return, wait for interrupt and the
//! address-translation fence.

use vstd::prelude::*;
use vstd::arithmetic::power2::lemma2_to64;
use super::{spec_imm32, spec_rd32, spec_rs1_32, spec_rs2_32};
use crate::cpu::decode::{illegal, spec_illegal, DecodeUtil};
use crate::cpu::instruction::{Extensions, OpecodeKind};
use crate::cpu::trap::Fault;
use crate::Isa;

verus! {

/// The encoding table: the instruction that the fields select, if any.
pub open spec fn spec_table(
    opmap: u32,
    funct3: u32,
    funct7: u32,
    rd: u32,
    inst: u32,
    isa: Isa,
) -> Option<OpecodeKind> {
    if opmap != 0b1110011 || funct3 != 0b000 {
        None
    } else if inst == 0x1020_0073 {
        Some(OpecodeKind::OP_SRET)
    } else if inst == 0x3020_0073 {
        Some(OpecodeKind::OP_MRET)
    } else if inst == 0x0020_0073 {
        Some(OpecodeKind::OP_URET)
    } else if inst == 0x1050_0073 {
        Some(OpecodeKind::OP_WFI)
    } else if funct7 == 0b0001001 && rd == 0 {
        Some(OpecodeKind::OP_SFENCE_VMA)
    } else {
        None
    }
}

fn table(opmap: u32, funct3: u32, funct7: u32, rd: u32, inst: u32, isa: Isa) -> (r: Option<OpecodeKind>)
    ensures
        r == spec_table(opmap, funct3, funct7, rd, inst, isa),
{
    if opmap != 0b1110011 || funct3 != 0b000 {
        None
    } else if inst == 0x1020_0073 {
        Some(OpecodeKind::OP_SRET)
    } else if inst == 0x3020_0073 {
        Some(OpecodeKind::OP_MRET)
    } else if inst == 0x0020_0073 {
        Some(OpecodeKind::OP_URET)
    } else if inst == 0x1050_0073 {
        Some(OpecodeKind::OP_WFI)
    } else if funct7 == 0b0001001 && rd == 0 {
        Some(OpecodeKind::OP_SFENCE_VMA)
    } else {
        None
    }
}

/// The privileged instruction that a 32-bit encoding names.
pub open spec fn spec_opecode(inst: u32, isa: Isa) -> Option<OpecodeKind> {
    let opmap: u32 = inst % 128;
    let funct3: u32 = (inst / 0x1000) % 8;
    let funct7: u32 = inst / 0x200_0000;
    let rd: u32 = (inst / 0x80) % 32;
    spec_table(opmap, funct3, funct7, rd, inst, isa)
}

/// Every instruction of the table belongs to this decoder's extension.
pub proof fn lemma_table_extension(
    opmap: u32,
    funct3: u32,
    funct7: u32,
    rd: u32,
    inst: u32,
    isa: Isa,
)
    ensures
        spec_table(opmap, funct3, funct7, rd, inst, isa) is Some ==> spec_table(
            opmap,
            funct3,
            funct7,
            rd,
            inst,
            isa,
        )->Some_0.spec_extension()
            == Extensions::Priv,
{
}

/// Finds the instruction that a 32-bit encoding names, where it is a privileged instruction.
pub fn parse_opecode(inst: u32, isa: Isa) -> (r: Result<OpecodeKind, Fault>)
    ensures
        r == (match spec_opecode(inst, isa) {
            Some(opc) => Ok::<OpecodeKind, Fault>(opc),
            None => Err::<OpecodeKind, Fault>(spec_illegal(inst as u64)),
        }),
        r is Ok ==> r->Ok_0.spec_extension() == Extensions::Priv,
{
    proof {
        lemma2_to64();
    }
    let opmap: u32 = inst.slice(6, 0);
    assert(opmap == inst % 0x80);
    let funct3: u32 = inst.slice(14, 12);
    assert(funct3 == (inst / 0x1000) % 0x8);
    let funct7: u32 = inst.slice(31, 25);
    assert(funct7 == (inst / 0x2000000) % 0x80);
    assert(funct7 == inst / 0x2000000);
    let rd: u32 = inst.slice(11, 7);
    assert(rd == (inst / 0x80) % 0x20);
    proof {
        lemma_table_extension(opmap, funct3, funct7, rd, inst, isa);
    }
    match table(opmap, funct3, funct7, rd, inst, isa) {
        Some(opc) => Ok(opc),
        None => Err(illegal(inst as u64)),
    }
}

/// Reads the destination register of a privileged instruction: bits 11:7.
pub fn parse_rd(inst: u32, opkind: &OpecodeKind) -> (r: Result<Option<usize>, Fault>)
    ensures
        r == Ok::<Option<usize>, Fault>(spec_rd32(inst, *opkind)),
{
    Ok(super::parse_rd_common(inst, opkind))
}

/// Reads the first source field of a privileged instruction: bits 19:15.
pub fn parse_rs1(inst: u32, opkind: &OpecodeKind) -> (r: Result<Option<usize>, Fault>)
    ensures
        r == Ok::<Option<usize>, Fault>(spec_rs1_32(inst, *opkind)),
{
    Ok(super::parse_rs1_common(inst, opkind))
}

/// Reads the second source field of a privileged instruction: bits 24:20.
pub fn parse_rs2(inst: u32, opkind: &OpecodeKind) -> (r: Result<Option<usize>, Fault>)
    ensures
        r == Ok::<Option<usize>, Fault>(spec_rs2_32(inst, *opkind)),
{
    Ok(super::parse_rs2_common(inst, opkind))
}

/// Reads the immediate of a privileged instruction.
pub fn parse_imm(inst: u32, opkind: &OpecodeKind) -> (r: Result<Option<i32>, Fault>)
    ensures
        r == Ok::<Option<i32>, Fault>(spec_imm32(inst, *opkind)),
{
    Ok(super::parse_imm_common(inst, opkind))
}

} // verus!
