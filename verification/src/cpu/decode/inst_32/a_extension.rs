//! The atomics of the A extension.

use vstd::prelude::*;
use vstd::arithmetic::power2::lemma2_to64;
use super::{spec_imm32, spec_rd32, spec_rs1_32, spec_rs2_32};
use crate::cpu::decode::{illegal, spec_illegal, DecodeUtil};
use crate::cpu::instruction::{Extensions, OpecodeKind};
use crate::cpu::trap::Fault;
use crate::Isa;

verus! {

/// The encoding table: the instruction that the fields select, if any.
pub open spec fn spec_table(
    opmap: u32,
    funct3: u32,
    funct5: u32,
    rs2: u32,
    inst: u32,
    isa: Isa,
) -> Option<OpecodeKind> {
    if opmap != 0b0101111 {
        None
    } else if funct3 == 0b010 {
        match funct5 {
            0b00010 => if rs2 == 0 {
                Some(OpecodeKind::OP_LR_W)
            } else {
                None
            },
            0b00011 => Some(OpecodeKind::OP_SC_W),
            0b00001 => Some(OpecodeKind::OP_AMOSWAP_W),
            0b00000 => Some(OpecodeKind::OP_AMOADD_W),
            0b00100 => Some(OpecodeKind::OP_AMOXOR_W),
            0b01100 => Some(OpecodeKind::OP_AMOAND_W),
            0b01000 => Some(OpecodeKind::OP_AMOOR_W),
            0b10000 => Some(OpecodeKind::OP_AMOMIN_W),
            0b10100 => Some(OpecodeKind::OP_AMOMAX_W),
            0b11000 => Some(OpecodeKind::OP_AMOMINU_W),
            0b11100 => Some(OpecodeKind::OP_AMOMAXU_W),
            _ => None,
        }
    } else if funct3 == 0b011 && isa == Isa::Rv64 {
        match funct5 {
            0b00010 => if rs2 == 0 {
                Some(OpecodeKind::OP_LR_D)
            } else {
                None
            },
            0b00011 => Some(OpecodeKind::OP_SC_D),
            0b00001 => Some(OpecodeKind::OP_AMOSWAP_D),
            0b00000 => Some(OpecodeKind::OP_AMOADD_D),
            0b00100 => Some(OpecodeKind::OP_AMOXOR_D),
            0b01100 => Some(OpecodeKind::OP_AMOAND_D),
            0b01000 => Some(OpecodeKind::OP_AMOOR_D),
            0b10000 => Some(OpecodeKind::OP_AMOMIN_D),
            0b10100 => Some(OpecodeKind::OP_AMOMAX_D),
            0b11000 => Some(OpecodeKind::OP_AMOMINU_D),
            0b11100 => Some(OpecodeKind::OP_AMOMAXU_D),
            _ => None,
        }
    } else {
        None
    }
}

fn table(opmap: u32, funct3: u32, funct5: u32, rs2: u32, inst: u32, isa: Isa) -> (r: Option<OpecodeKind>)
    ensures
        r == spec_table(opmap, funct3, funct5, rs2, inst, isa),
{
    if opmap != 0b0101111 {
        None
    } else if funct3 == 0b010 {
        match funct5 {
            0b00010 => if rs2 == 0 {
                Some(OpecodeKind::OP_LR_W)
            } else {
                None
            },
            0b00011 => Some(OpecodeKind::OP_SC_W),
            0b00001 => Some(OpecodeKind::OP_AMOSWAP_W),
            0b00000 => Some(OpecodeKind::OP_AMOADD_W),
            0b00100 => Some(OpecodeKind::OP_AMOXOR_W),
            0b01100 => Some(OpecodeKind::OP_AMOAND_W),
            0b01000 => Some(OpecodeKind::OP_AMOOR_W),
            0b10000 => Some(OpecodeKind::OP_AMOMIN_W),
            0b10100 => Some(OpecodeKind::OP_AMOMAX_W),
            0b11000 => Some(OpecodeKind::OP_AMOMINU_W),
            0b11100 => Some(OpecodeKind::OP_AMOMAXU_W),
            _ => None,
        }
    } else if funct3 == 0b011 && isa == Isa::Rv64 {
        match funct5 {
            0b00010 => if rs2 == 0 {
                Some(OpecodeKind::OP_LR_D)
            } else {
                None
            },
            0b00011 => Some(OpecodeKind::OP_SC_D),
            0b00001 => Some(OpecodeKind::OP_AMOSWAP_D),
            0b00000 => Some(OpecodeKind::OP_AMOADD_D),
            0b00100 => Some(OpecodeKind::OP_AMOXOR_D),
            0b01100 => Some(OpecodeKind::OP_AMOAND_D),
            0b01000 => Some(OpecodeKind::OP_AMOOR_D),
            0b10000 => Some(OpecodeKind::OP_AMOMIN_D),
            0b10100 => Some(OpecodeKind::OP_AMOMAX_D),
            0b11000 => Some(OpecodeKind::OP_AMOMINU_D),
            0b11100 => Some(OpecodeKind::OP_AMOMAXU_D),
            _ => None,
        }
    } else {
        None
    }
}

/// The atomic that a 32-bit encoding names: major opcode AMO, the width
/// selected by funct3 (word, or double word on RV64), the operation by
/// funct5 (bits 31:27).
pub open spec fn spec_opecode(inst: u32, isa: Isa) -> Option<OpecodeKind> {
    let opmap: u32 = inst % 128;
    let funct3: u32 = (inst / 0x1000) % 8;
    let funct5: u32 = inst / 0x800_0000;
    let rs2: u32 = (inst / 0x10_0000) % 32;
    spec_table(opmap, funct3, funct5, rs2, inst, isa)
}

/// Every instruction of the table belongs to this decoder's extension.
pub proof fn lemma_table_extension(
    opmap: u32,
    funct3: u32,
    funct5: u32,
    rs2: u32,
    inst: u32,
    isa: Isa,
)
    ensures
        spec_table(opmap, funct3, funct5, rs2, inst, isa) is Some ==> spec_table(
            opmap,
            funct3,
            funct5,
            rs2,
            inst,
            isa,
        )->Some_0.spec_extension()
            == Extensions::A,
{
}

/// Finds the instruction that a 32-bit encoding names, where it is an atomic.
pub fn parse_opecode(inst: u32, isa: Isa) -> (r: Result<OpecodeKind, Fault>)
    ensures
        r == (match spec_opecode(inst, isa) {
            Some(opc) => Ok::<OpecodeKind, Fault>(opc),
            None => Err::<OpecodeKind, Fault>(spec_illegal(inst as u64)),
        }),
        r is Ok ==> r->Ok_0.spec_extension() == Extensions::A,
{
    proof {
        lemma2_to64();
    }
    let opmap: u32 = inst.slice(6, 0);
    assert(opmap == inst % 0x80);
    let funct3: u32 = inst.slice(14, 12);
    assert(funct3 == (inst / 0x1000) % 0x8);
    let funct5: u32 = inst.slice(31, 27);
    assert(funct5 == (inst / 0x8000000) % 0x20);
    assert(funct5 == inst / 0x8000000);
    let rs2: u32 = inst.slice(24, 20);
    assert(rs2 == (inst / 0x100000) % 0x20);
    proof {
        lemma_table_extension(opmap, funct3, funct5, rs2, inst, isa);
    }
    match table(opmap, funct3, funct5, rs2, inst, isa) {
        Some(opc) => Ok(opc),
        None => Err(illegal(inst as u64)),
    }
}

/// Reads the destination register of an atomic: bits 11:7.
pub fn parse_rd(inst: u32, opkind: &OpecodeKind) -> (r: Option<usize>)
    requires
        opkind.spec_extension() == Extensions::A,
    ensures
        r == spec_rd32(inst, *opkind),
{
    super::parse_rd_common(inst, opkind)
}

/// Reads the first source field of an atomic: bits 19:15.
pub fn parse_rs1(inst: u32, opkind: &OpecodeKind) -> (r: Option<usize>)
    requires
        opkind.spec_extension() == Extensions::A,
    ensures
        r == spec_rs1_32(inst, *opkind),
{
    super::parse_rs1_common(inst, opkind)
}

/// Reads the second source field of an atomic: bits 24:20.
pub fn parse_rs2(inst: u32, opkind: &OpecodeKind) -> (r: Option<usize>)
    requires
        opkind.spec_extension() == Extensions::A,
    ensures
        r == spec_rs2_32(inst, *opkind),
{
    super::parse_rs2_common(inst, opkind)
}

/// Reads the immediate of an atomic.
pub fn parse_imm(inst: u32, opkind: &OpecodeKind) -> (r: Option<i32>)
    requires
        opkind.spec_extension() == Extensions::A,
    ensures
        r == spec_imm32(inst, *opkind),
{
    super::parse_imm_common(inst, opkind)
}

} // verus!
