//! The base integer instructions of RV32I and RV64I.

use vstd::prelude::*;
use vstd::arithmetic::power2::lemma2_to64;
use super::{spec_imm32, spec_rd32, spec_rs1_32, spec_rs2_32};
use crate::cpu::decode::{illegal, spec_illegal, DecodeUtil};
use crate::cpu::instruction::{Extensions, OpecodeKind};
use crate::cpu::trap::Fault;
use crate::Isa;

verus! {

/// The encoding table: the instruction that the fields select, if any.
pub open spec fn spec_table(
    opmap: u32,
    funct3: u32,
    funct7: u32,
    inst: u32,
    isa: Isa,
) -> Option<OpecodeKind> {
    let rv64 = isa == Isa::Rv64;
    let shtop = match isa {
        Isa::Rv32 => funct7,
        Isa::Rv64 => (funct7 - funct7 % 2) as u32,
    };
    match opmap {
        0b0110111 => Some(OpecodeKind::OP_LUI),
        0b0010111 => Some(OpecodeKind::OP_AUIPC),
        0b1101111 => Some(OpecodeKind::OP_JAL),
        0b1100111 => match funct3 {
            0b000 => Some(OpecodeKind::OP_JALR),
            _ => None,
        },
        0b1100011 => match funct3 {
            0b000 => Some(OpecodeKind::OP_BEQ),
            0b001 => Some(OpecodeKind::OP_BNE),
            0b100 => Some(OpecodeKind::OP_BLT),
            0b101 => Some(OpecodeKind::OP_BGE),
            0b110 => Some(OpecodeKind::OP_BLTU),
            0b111 => Some(OpecodeKind::OP_BGEU),
            _ => None,
        },
        0b0000011 => match funct3 {
            0b000 => Some(OpecodeKind::OP_LB),
            0b001 => Some(OpecodeKind::OP_LH),
            0b010 => Some(OpecodeKind::OP_LW),
            0b100 => Some(OpecodeKind::OP_LBU),
            0b101 => Some(OpecodeKind::OP_LHU),
            0b110 => if rv64 {
                Some(OpecodeKind::OP_LWU)
            } else {
                None
            },
            0b011 => if rv64 {
                Some(OpecodeKind::OP_LD)
            } else {
                None
            },
            _ => None,
        },
        0b0100011 => match funct3 {
            0b000 => Some(OpecodeKind::OP_SB),
            0b001 => Some(OpecodeKind::OP_SH),
            0b010 => Some(OpecodeKind::OP_SW),
            0b011 => if rv64 {
                Some(OpecodeKind::OP_SD)
            } else {
                None
            },
            _ => None,
        },
        0b0010011 => match funct3 {
            0b000 => Some(OpecodeKind::OP_ADDI),
            0b010 => Some(OpecodeKind::OP_SLTI),
            0b011 => Some(OpecodeKind::OP_SLTIU),
            0b100 => Some(OpecodeKind::OP_XORI),
            0b110 => Some(OpecodeKind::OP_ORI),
            0b111 => Some(OpecodeKind::OP_ANDI),
            0b001 => if shtop == 0 {
                Some(OpecodeKind::OP_SLLI)
            } else {
                None
            },
            _ => if shtop == 0 {
                Some(OpecodeKind::OP_SRLI)
            } else if shtop == 0b0100000 {
                Some(OpecodeKind::OP_SRAI)
            } else {
                None
            },
        },
        0b0110011 => match funct7 {
            0b0000000 => match funct3 {
                0b000 => Some(OpecodeKind::OP_ADD),
                0b001 => Some(OpecodeKind::OP_SLL),
                0b010 => Some(OpecodeKind::OP_SLT),
                0b011 => Some(OpecodeKind::OP_SLTU),
                0b100 => Some(OpecodeKind::OP_XOR),
                0b101 => Some(OpecodeKind::OP_SRL),
                0b110 => Some(OpecodeKind::OP_OR),
                _ => Some(OpecodeKind::OP_AND),
            },
            0b0100000 => match funct3 {
                0b000 => Some(OpecodeKind::OP_SUB),
                0b101 => Some(OpecodeKind::OP_SRA),
                _ => None,
            },
            _ => None,
        },
        0b0011011 => if rv64 {
            match funct3 {
                0b000 => Some(OpecodeKind::OP_ADDIW),
                0b001 => if funct7 == 0 {
                    Some(OpecodeKind::OP_SLLIW)
                } else {
                    None
                },
                0b101 => if funct7 == 0 {
                    Some(OpecodeKind::OP_SRLIW)
                } else if funct7 == 0b0100000 {
                    Some(OpecodeKind::OP_SRAIW)
                } else {
                    None
                },
                _ => None,
            }
        } else {
            None
        },
        0b0111011 => if rv64 {
            match funct7 {
                0b0000000 => match funct3 {
                    0b000 => Some(OpecodeKind::OP_ADDW),
                    0b001 => Some(OpecodeKind::OP_SLLW),
                    0b101 => Some(OpecodeKind::OP_SRLW),
                    _ => None,
                },
                0b0100000 => match funct3 {
                    0b000 => Some(OpecodeKind::OP_SUBW),
                    0b101 => Some(OpecodeKind::OP_SRAW),
                    _ => None,
                },
                _ => None,
            }
        } else {
            None
        },
        0b0001111 => Some(OpecodeKind::OP_FENCE),
        0b1110011 => if inst == 0x0000_0073 {
            Some(OpecodeKind::OP_ECALL)
        } else if inst == 0x0010_0073 {
            Some(OpecodeKind::OP_EBREAK)
        } else {
            None
        },
        _ => None,
    }
}

fn table(opmap: u32, funct3: u32, funct7: u32, inst: u32, isa: Isa) -> (r: Option<OpecodeKind>)
    ensures
        r == spec_table(opmap, funct3, funct7, inst, isa),
{
    let rv64 = isa == Isa::Rv64;
    let shtop = match isa {
        Isa::Rv32 => funct7,
        Isa::Rv64 => (funct7 - funct7 % 2) as u32,
    };
    match opmap {
        0b0110111 => Some(OpecodeKind::OP_LUI),
        0b0010111 => Some(OpecodeKind::OP_AUIPC),
        0b1101111 => Some(OpecodeKind::OP_JAL),
        0b1100111 => match funct3 {
            0b000 => Some(OpecodeKind::OP_JALR),
            _ => None,
        },
        0b1100011 => match funct3 {
            0b000 => Some(OpecodeKind::OP_BEQ),
            0b001 => Some(OpecodeKind::OP_BNE),
            0b100 => Some(OpecodeKind::OP_BLT),
            0b101 => Some(OpecodeKind::OP_BGE),
            0b110 => Some(OpecodeKind::OP_BLTU),
            0b111 => Some(OpecodeKind::OP_BGEU),
            _ => None,
        },
        0b0000011 => match funct3 {
            0b000 => Some(OpecodeKind::OP_LB),
            0b001 => Some(OpecodeKind::OP_LH),
            0b010 => Some(OpecodeKind::OP_LW),
            0b100 => Some(OpecodeKind::OP_LBU),
            0b101 => Some(OpecodeKind::OP_LHU),
            0b110 => if rv64 {
                Some(OpecodeKind::OP_LWU)
            } else {
                None
            },
            0b011 => if rv64 {
                Some(OpecodeKind::OP_LD)
            } else {
                None
            },
            _ => None,
        },
        0b0100011 => match funct3 {
            0b000 => Some(OpecodeKind::OP_SB),
            0b001 => Some(OpecodeKind::OP_SH),
            0b010 => Some(OpecodeKind::OP_SW),
            0b011 => if rv64 {
                Some(OpecodeKind::OP_SD)
            } else {
                None
            },
            _ => None,
        },
        0b0010011 => match funct3 {
            0b000 => Some(OpecodeKind::OP_ADDI),
            0b010 => Some(OpecodeKind::OP_SLTI),
            0b011 => Some(OpecodeKind::OP_SLTIU),
            0b100 => Some(OpecodeKind::OP_XORI),
            0b110 => Some(OpecodeKind::OP_ORI),
            0b111 => Some(OpecodeKind::OP_ANDI),
            0b001 => if shtop == 0 {
                Some(OpecodeKind::OP_SLLI)
            } else {
                None
            },
            _ => if shtop == 0 {
                Some(OpecodeKind::OP_SRLI)
            } else if shtop == 0b0100000 {
                Some(OpecodeKind::OP_SRAI)
            } else {
                None
            },
        },
        0b0110011 => match funct7 {
            0b0000000 => match funct3 {
                0b000 => Some(OpecodeKind::OP_ADD),
                0b001 => Some(OpecodeKind::OP_SLL),
                0b010 => Some(OpecodeKind::OP_SLT),
                0b011 => Some(OpecodeKind::OP_SLTU),
                0b100 => Some(OpecodeKind::OP_XOR),
                0b101 => Some(OpecodeKind::OP_SRL),
                0b110 => Some(OpecodeKind::OP_OR),
                _ => Some(OpecodeKind::OP_AND),
            },
            0b0100000 => match funct3 {
                0b000 => Some(OpecodeKind::OP_SUB),
                0b101 => Some(OpecodeKind::OP_SRA),
                _ => None,
            },
            _ => None,
        },
        0b0011011 => if rv64 {
            match funct3 {
                0b000 => Some(OpecodeKind::OP_ADDIW),
                0b001 => if funct7 == 0 {
                    Some(OpecodeKind::OP_SLLIW)
                } else {
                    None
                },
                0b101 => if funct7 == 0 {
                    Some(OpecodeKind::OP_SRLIW)
                } else if funct7 == 0b0100000 {
                    Some(OpecodeKind::OP_SRAIW)
                } else {
                    None
                },
                _ => None,
            }
        } else {
            None
        },
        0b0111011 => if rv64 {
            match funct7 {
                0b0000000 => match funct3 {
                    0b000 => Some(OpecodeKind::OP_ADDW),
                    0b001 => Some(OpecodeKind::OP_SLLW),
                    0b101 => Some(OpecodeKind::OP_SRLW),
                    _ => None,
                },
                0b0100000 => match funct3 {
                    0b000 => Some(OpecodeKind::OP_SUBW),
                    0b101 => Some(OpecodeKind::OP_SRAW),
                    _ => None,
                },
                _ => None,
            }
        } else {
            None
        },
        0b0001111 => Some(OpecodeKind::OP_FENCE),
        0b1110011 => if inst == 0x0000_0073 {
            Some(OpecodeKind::OP_ECALL)
        } else if inst == 0x0010_0073 {
            Some(OpecodeKind::OP_EBREAK)
        } else {
            None
        },
        _ => None,
    }
}

/// The base instruction that a 32-bit encoding names: selected by the major
/// opcode (bits 6:0), then funct3 (bits 14:12), then funct7 (bits 31:25).
/// The RV64-only instructions exist on RV64 alone, and a shift immediate
/// must fit the register width.
pub open spec fn spec_opecode(inst: u32, isa: Isa) -> Option<OpecodeKind> {
    let opmap: u32 = inst % 128;
    let funct3: u32 = (inst / 0x1000) % 8;
    let funct7: u32 = inst / 0x200_0000;
    spec_table(opmap, funct3, funct7, inst, isa)
}

/// Every instruction of the table belongs to this decoder's extension.
pub proof fn lemma_table_extension(
    opmap: u32,
    funct3: u32,
    funct7: u32,
    inst: u32,
    isa: Isa,
)
    ensures
        spec_table(opmap, funct3, funct7, inst, isa) is Some ==> spec_table(
            opmap,
            funct3,
            funct7,
            inst,
            isa,
        )->Some_0.spec_extension()
            == Extensions::BaseI,
{
}

/// Finds the instruction that a 32-bit encoding names, where it is a base instruction.
pub fn parse_opecode(inst: u32, isa: Isa) -> (r: Result<OpecodeKind, Fault>)
    ensures
        r == (match spec_opecode(inst, isa) {
            Some(opc) => Ok::<OpecodeKind, Fault>(opc),
            None => Err::<OpecodeKind, Fault>(spec_illegal(inst as u64)),
        }),
        r is Ok ==> r->Ok_0.spec_extension() == Extensions::BaseI,
{
    proof {
        lemma2_to64();
    }
    let opmap: u32 = inst.slice(6, 0);
    assert(opmap == inst % 0x80);
    let funct3: u32 = inst.slice(14, 12);
    assert(funct3 == (inst / 0x1000) % 0x8);
    let funct7: u32 = inst.slice(31, 25);
    assert(funct7 == (inst / 0x2000000) % 0x80);
    assert(funct7 == inst / 0x2000000);
    proof {
        lemma_table_extension(opmap, funct3, funct7, inst, isa);
    }
    match table(opmap, funct3, funct7, inst, isa) {
        Some(opc) => Ok(opc),
        None => Err(illegal(inst as u64)),
    }
}

/// Reads the destination register of a base instruction: bits 11:7.
pub fn parse_rd(inst: u32, opkind: &OpecodeKind) -> (r: Result<Option<usize>, Fault>)
    ensures
        r == Ok::<Option<usize>, Fault>(spec_rd32(inst, *opkind)),
{
    Ok(super::parse_rd_common(inst, opkind))
}

/// Reads the first source field of a base instruction: bits 19:15.
pub fn parse_rs1(inst: u32, opkind: &OpecodeKind) -> (r: Result<Option<usize>, Fault>)
    ensures
        r == Ok::<Option<usize>, Fault>(spec_rs1_32(inst, *opkind)),
{
    Ok(super::parse_rs1_common(inst, opkind))
}

/// Reads the second source field of a base instruction: bits 24:20.
pub fn parse_rs2(inst: u32, opkind: &OpecodeKind) -> (r: Result<Option<usize>, Fault>)
    ensures
        r == Ok::<Option<usize>, Fault>(spec_rs2_32(inst, *opkind)),
{
    Ok(super::parse_rs2_common(inst, opkind))
}

/// Reads the immediate of a base instruction.
pub fn parse_imm(inst: u32, opkind: &OpecodeKind) -> (r: Result<Option<i32>, Fault>)
    ensures
        r == Ok::<Option<i32>, Fault>(spec_imm32(inst, *opkind)),
{
    Ok(super::parse_imm_common(inst, opkind))
}

} // verus!
