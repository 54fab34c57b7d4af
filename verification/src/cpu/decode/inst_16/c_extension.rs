//! The compressed (16-bit) encodings of the C extension.

use vstd::prelude::*;
use vstd::arithmetic::power2::lemma2_to64;
use crate::cpu::decode::{fold_sign, illegal, spec_illegal, DecodeUtil};
use crate::cpu::instruction::{Extensions, OpecodeKind};
use crate::cpu::trap::Fault;
use crate::Isa;

verus! {

/// Quadrant 0 (bits 1:0 = 00): selected by bits 15:13.
pub open spec fn spec_quadrant0(inst: u16, opmap: u16, isa: Isa) -> Option<OpecodeKind> {
    let rv64 = isa == Isa::Rv64;
    match opmap {
        0b000 => Some(OpecodeKind::OP_C_ADDI4SPN),
        0b010 => Some(OpecodeKind::OP_C_LW),
        0b011 => if rv64 {
            Some(OpecodeKind::OP_C_LD)
        } else {
            None
        },
        0b110 => Some(OpecodeKind::OP_C_SW),
        0b111 => if rv64 {
            Some(OpecodeKind::OP_C_SD)
        } else {
            None
        },
        _ => None,
    }
}

fn quadrant0(inst: u16, opmap: u16, isa: Isa) -> (r: Option<OpecodeKind>)
    ensures
        r == spec_quadrant0(inst, opmap, isa),
{
    proof {
        lemma2_to64();
    }
    let rv64 = isa == Isa::Rv64;
    match opmap {
        0b000 => Some(OpecodeKind::OP_C_ADDI4SPN),
        0b010 => Some(OpecodeKind::OP_C_LW),
        0b011 => if rv64 {
            Some(OpecodeKind::OP_C_LD)
        } else {
            None
        },
        0b110 => Some(OpecodeKind::OP_C_SW),
        0b111 => if rv64 {
            Some(OpecodeKind::OP_C_SD)
        } else {
            None
        },
        _ => None,
    }
}

/// Quadrant 1 (bits 1:0 = 01): selected by bits 15:13, then by bits 11:7,
/// 11:10, 12 and 6:5 for the overloaded forms.
pub open spec fn spec_quadrant1(inst: u16, opmap: u16, isa: Isa) -> Option<OpecodeKind> {
    let sr_flag: u16 = (inst / 0x400) % 0x4;
    let lo_flag: u16 = (inst / 0x20) % 0x4;
    let mi_flag: u16 = (inst / 0x80) % 0x20;
    let hi_flag: u16 = (inst / 0x1000) % 0x2;
    let rv64 = isa == Isa::Rv64;
    match opmap {
        0b000 => if mi_flag == 0 {
            Some(OpecodeKind::OP_C_NOP)
        } else {
            Some(OpecodeKind::OP_C_ADDI)
        },
        0b001 => if rv64 {
            Some(OpecodeKind::OP_C_ADDIW)
        } else {
            Some(OpecodeKind::OP_C_JAL)
        },
        0b010 => Some(OpecodeKind::OP_C_LI),
        0b011 => if mi_flag == 2 {
            Some(OpecodeKind::OP_C_ADDI16SP)
        } else {
            Some(OpecodeKind::OP_C_LUI)
        },
        0b100 => match sr_flag {
            0b00 => Some(OpecodeKind::OP_C_SRLI),
            0b01 => Some(OpecodeKind::OP_C_SRAI),
            0b10 => Some(OpecodeKind::OP_C_ANDI),
            _ => if hi_flag == 0 {
                match lo_flag {
                    0b00 => Some(OpecodeKind::OP_C_SUB),
                    0b01 => Some(OpecodeKind::OP_C_XOR),
                    0b10 => Some(OpecodeKind::OP_C_OR),
                    _ => Some(OpecodeKind::OP_C_AND),
                }
            } else if rv64 {
                match lo_flag {
                    0b00 => Some(OpecodeKind::OP_C_SUBW),
                    0b01 => Some(OpecodeKind::OP_C_ADDW),
                    _ => None,
                }
            } else {
                None
            },
        },
        0b101 => Some(OpecodeKind::OP_C_J),
        0b110 => Some(OpecodeKind::OP_C_BEQZ),
        _ => Some(OpecodeKind::OP_C_BNEZ),
    }
}

fn quadrant1(inst: u16, opmap: u16, isa: Isa) -> (r: Option<OpecodeKind>)
    ensures
        r == spec_quadrant1(inst, opmap, isa),
{
    proof {
        lemma2_to64();
    }
    let sr_flag: u16 = inst.slice(11, 10);
    assert(sr_flag == (inst / 0x400) % 0x4);
    let lo_flag: u16 = inst.slice(6, 5);
    assert(lo_flag == (inst / 0x20) % 0x4);
    let mi_flag: u16 = inst.slice(11, 7);
    assert(mi_flag == (inst / 0x80) % 0x20);
    let hi_flag: u16 = inst.slice(12, 12);
    assert(hi_flag == (inst / 0x1000) % 0x2);
    let rv64 = isa == Isa::Rv64;
    match opmap {
        0b000 => if mi_flag == 0 {
            Some(OpecodeKind::OP_C_NOP)
        } else {
            Some(OpecodeKind::OP_C_ADDI)
        },
        0b001 => if rv64 {
            Some(OpecodeKind::OP_C_ADDIW)
        } else {
            Some(OpecodeKind::OP_C_JAL)
        },
        0b010 => Some(OpecodeKind::OP_C_LI),
        0b011 => if mi_flag == 2 {
            Some(OpecodeKind::OP_C_ADDI16SP)
        } else {
            Some(OpecodeKind::OP_C_LUI)
        },
        0b100 => match sr_flag {
            0b00 => Some(OpecodeKind::OP_C_SRLI),
            0b01 => Some(OpecodeKind::OP_C_SRAI),
            0b10 => Some(OpecodeKind::OP_C_ANDI),
            _ => if hi_flag == 0 {
                match lo_flag {
                    0b00 => Some(OpecodeKind::OP_C_SUB),
                    0b01 => Some(OpecodeKind::OP_C_XOR),
                    0b10 => Some(OpecodeKind::OP_C_OR),
                    _ => Some(OpecodeKind::OP_C_AND),
                }
            } else if rv64 {
                match lo_flag {
                    0b00 => Some(OpecodeKind::OP_C_SUBW),
                    0b01 => Some(OpecodeKind::OP_C_ADDW),
                    _ => None,
                }
            } else {
                None
            },
        },
        0b101 => Some(OpecodeKind::OP_C_J),
        0b110 => Some(OpecodeKind::OP_C_BEQZ),
        _ => Some(OpecodeKind::OP_C_BNEZ),
    }
}

/// Quadrant 2 (bits 1:0 = 10): selected by bits 15:13, then by bits 12, 6:2
/// and 11:7 for the overloaded forms.
pub open spec fn spec_quadrant2(inst: u16, opmap: u16, isa: Isa) -> Option<OpecodeKind> {
    let lo_flag: u16 = (inst / 0x4) % 0x20;
    let mi_flag: u16 = (inst / 0x80) % 0x20;
    let hi_flag: u16 = (inst / 0x1000) % 0x2;
    let rv64 = isa == Isa::Rv64;
    match opmap {
        0b000 => Some(OpecodeKind::OP_C_SLLI),
        0b010 => Some(OpecodeKind::OP_C_LWSP),
        0b011 => if rv64 {
            Some(OpecodeKind::OP_C_LDSP)
        } else {
            None
        },
        0b100 => if hi_flag == 0 {
            if lo_flag == 0 {
                Some(OpecodeKind::OP_C_JR)
            } else {
                Some(OpecodeKind::OP_C_MV)
            }
        } else if lo_flag == 0 {
            if mi_flag == 0 {
                Some(OpecodeKind::OP_C_EBREAK)
            } else {
                Some(OpecodeKind::OP_C_JALR)
            }
        } else {
            Some(OpecodeKind::OP_C_ADD)
        },
        0b110 => Some(OpecodeKind::OP_C_SWSP),
        0b111 => if rv64 {
            Some(OpecodeKind::OP_C_SDSP)
        } else {
            None
        },
        _ => None,
    }
}

fn quadrant2(inst: u16, opmap: u16, isa: Isa) -> (r: Option<OpecodeKind>)
    ensures
        r == spec_quadrant2(inst, opmap, isa),
{
    proof {
        lemma2_to64();
    }
    let lo_flag: u16 = inst.slice(6, 2);
    assert(lo_flag == (inst / 0x4) % 0x20);
    let mi_flag: u16 = inst.slice(11, 7);
    assert(mi_flag == (inst / 0x80) % 0x20);
    let hi_flag: u16 = inst.slice(12, 12);
    assert(hi_flag == (inst / 0x1000) % 0x2);
    let rv64 = isa == Isa::Rv64;
    match opmap {
        0b000 => Some(OpecodeKind::OP_C_SLLI),
        0b010 => Some(OpecodeKind::OP_C_LWSP),
        0b011 => if rv64 {
            Some(OpecodeKind::OP_C_LDSP)
        } else {
            None
        },
        0b100 => if hi_flag == 0 {
            if lo_flag == 0 {
                Some(OpecodeKind::OP_C_JR)
            } else {
                Some(OpecodeKind::OP_C_MV)
            }
        } else if lo_flag == 0 {
            if mi_flag == 0 {
                Some(OpecodeKind::OP_C_EBREAK)
            } else {
                Some(OpecodeKind::OP_C_JALR)
            }
        } else {
            Some(OpecodeKind::OP_C_ADD)
        },
        0b110 => Some(OpecodeKind::OP_C_SWSP),
        0b111 => if rv64 {
            Some(OpecodeKind::OP_C_SDSP)
        } else {
            None
        },
        _ => None,
    }
}

/// The instruction that a compressed encoding names. The all-zero half-word
/// names none, and neither does a half-word whose low two bits are 11.
pub open spec fn spec_opecode(inst: u16, isa: Isa) -> Option<OpecodeKind> {
    let opmap: u16 = (inst / 0x2000) % 0x8;
    let quadrant: u16 = inst % 0x4;
    if inst == 0 {
        None
    } else if quadrant == 0b00 {
        spec_quadrant0(inst, opmap, isa)
    } else if quadrant == 0b01 {
        spec_quadrant1(inst, opmap, isa)
    } else if quadrant == 0b10 {
        spec_quadrant2(inst, opmap, isa)
    } else {
        None
    }
}

/// Every instruction of the table is a compressed one.
pub proof fn lemma_table_extension(inst: u16, isa: Isa)
    ensures
        spec_opecode(inst, isa) is Some ==> spec_opecode(inst, isa)->Some_0.spec_extension()
            == Extensions::C,
{
}

/// Finds the instruction that a compressed encoding names.
pub fn parse_opecode(inst: u16, isa: Isa) -> (r: Result<OpecodeKind, Fault>)
    ensures
        r == (match spec_opecode(inst, isa) {
            Some(opc) => Ok::<OpecodeKind, Fault>(opc),
            None => Err::<OpecodeKind, Fault>(spec_illegal(inst as u64)),
        }),
        r is Ok ==> r->Ok_0.spec_extension() == Extensions::C,
{
    proof {
        lemma2_to64();
        lemma_table_extension(inst, isa);
    }
    let opmap: u16 = inst.slice(15, 13);
    assert(opmap == (inst / 0x2000) % 0x8);
    let quadrant: u16 = inst.slice(1, 0);
    assert(quadrant == inst % 0x4);

    if inst == 0b0000000000000000 {
        return Err(illegal(inst as u64));
    }
    let found = match quadrant {
        0b00 => quadrant0(inst, opmap, isa),
        0b01 => quadrant1(inst, opmap, isa),
        0b10 => quadrant2(inst, opmap, isa),
        _ => None,
    };
    match found {
        Some(opc) => Ok(opc),
        None => Err(illegal(inst as u64)),
    }
}

/// The destination register of a compressed encoding: a three-bit field
/// names one of x8 to x15, a five-bit field any register.
pub open spec fn spec_rd(inst: u16, opkind: OpecodeKind) -> Option<usize> {
    match opkind {
        OpecodeKind::OP_C_ADDI4SPN
        | OpecodeKind::OP_C_LW
        | OpecodeKind::OP_C_LD => Some((((inst / 0x4) % 0x8) + 8) as usize),
        OpecodeKind::OP_C_SRLI
        | OpecodeKind::OP_C_SRAI
        | OpecodeKind::OP_C_ANDI
        | OpecodeKind::OP_C_SUB
        | OpecodeKind::OP_C_XOR
        | OpecodeKind::OP_C_OR
        | OpecodeKind::OP_C_AND
        | OpecodeKind::OP_C_SUBW
        | OpecodeKind::OP_C_ADDW => Some((((inst / 0x80) % 0x8) + 8) as usize),
        OpecodeKind::OP_C_LI
        | OpecodeKind::OP_C_LUI
        | OpecodeKind::OP_C_ADDI
        | OpecodeKind::OP_C_ADDIW
        | OpecodeKind::OP_C_SLLI
        | OpecodeKind::OP_C_LWSP
        | OpecodeKind::OP_C_LDSP
        | OpecodeKind::OP_C_MV
        | OpecodeKind::OP_C_ADD => Some(((inst / 0x80) % 0x20) as usize),
        _ => None,
    }
}

/// Reads the destination register of a compressed encoding.
pub fn parse_rd(inst: u16, opkind: &OpecodeKind) -> (r: Result<Option<usize>, Fault>)
    ensures
        r == Ok::<Option<usize>, Fault>(spec_rd(inst, *opkind)),
        r->Ok_0 is Some ==> r->Ok_0->Some_0 < 32,
        r->Ok_0 is Some <==> opkind.spec_uses_rd() && opkind.spec_extension() == Extensions::C,
{
    // three-bit register fields name x8 to x15
    proof {
        lemma2_to64();
    }
    let f0: u16 = inst.slice(4, 2);
    assert(f0 == (inst / 0x4) % 0x8);
    let f1: u16 = inst.slice(9, 7);
    assert(f1 == (inst / 0x80) % 0x8);
    let f2: u16 = inst.slice(11, 7);
    assert(f2 == (inst / 0x80) % 0x20);
    let field = match opkind {
        OpecodeKind::OP_C_ADDI4SPN
        | OpecodeKind::OP_C_LW
        | OpecodeKind::OP_C_LD => Some((f0 + 8) as usize),
        OpecodeKind::OP_C_SRLI
        | OpecodeKind::OP_C_SRAI
        | OpecodeKind::OP_C_ANDI
        | OpecodeKind::OP_C_SUB
        | OpecodeKind::OP_C_XOR
        | OpecodeKind::OP_C_OR
        | OpecodeKind::OP_C_AND
        | OpecodeKind::OP_C_SUBW
        | OpecodeKind::OP_C_ADDW => Some((f1 + 8) as usize),
        OpecodeKind::OP_C_LI
        | OpecodeKind::OP_C_LUI
        | OpecodeKind::OP_C_ADDI
        | OpecodeKind::OP_C_ADDIW
        | OpecodeKind::OP_C_SLLI
        | OpecodeKind::OP_C_LWSP
        | OpecodeKind::OP_C_LDSP
        | OpecodeKind::OP_C_MV
        | OpecodeKind::OP_C_ADD => Some(f2 as usize),
        _ => None,
    };
    Ok(field)
}
/// The first source register of a compressed encoding.
pub open spec fn spec_rs1(inst: u16, opkind: OpecodeKind) -> Option<usize> {
    match opkind {
        OpecodeKind::OP_C_LW
        | OpecodeKind::OP_C_SW
        | OpecodeKind::OP_C_LD
        | OpecodeKind::OP_C_SD
        | OpecodeKind::OP_C_SRLI
        | OpecodeKind::OP_C_SRAI
        | OpecodeKind::OP_C_ANDI
        | OpecodeKind::OP_C_SUB
        | OpecodeKind::OP_C_XOR
        | OpecodeKind::OP_C_OR
        | OpecodeKind::OP_C_AND
        | OpecodeKind::OP_C_SUBW
        | OpecodeKind::OP_C_ADDW
        | OpecodeKind::OP_C_BEQZ
        | OpecodeKind::OP_C_BNEZ => Some((((inst / 0x80) % 0x8) + 8) as usize),
        OpecodeKind::OP_C_ADDI
        | OpecodeKind::OP_C_ADDIW
        | OpecodeKind::OP_C_ADDI16SP
        | OpecodeKind::OP_C_SLLI
        | OpecodeKind::OP_C_JR
        | OpecodeKind::OP_C_JALR
        | OpecodeKind::OP_C_ADD => Some(((inst / 0x80) % 0x20) as usize),
        _ => None,
    }
}

/// Reads the first source register of a compressed encoding.
pub fn parse_rs1(inst: u16, opkind: &OpecodeKind) -> (r: Result<Option<usize>, Fault>)
    ensures
        r == Ok::<Option<usize>, Fault>(spec_rs1(inst, *opkind)),
        r->Ok_0 is Some ==> r->Ok_0->Some_0 < 32,
        r->Ok_0 is Some <==> opkind.spec_uses_rs1() && opkind.spec_extension() == Extensions::C,
{
    // three-bit register fields name x8 to x15
    proof {
        lemma2_to64();
    }
    let f0: u16 = inst.slice(9, 7);
    assert(f0 == (inst / 0x80) % 0x8);
    let f1: u16 = inst.slice(11, 7);
    assert(f1 == (inst / 0x80) % 0x20);
    let field = match opkind {
        OpecodeKind::OP_C_LW
        | OpecodeKind::OP_C_SW
        | OpecodeKind::OP_C_LD
        | OpecodeKind::OP_C_SD
        | OpecodeKind::OP_C_SRLI
        | OpecodeKind::OP_C_SRAI
        | OpecodeKind::OP_C_ANDI
        | OpecodeKind::OP_C_SUB
        | OpecodeKind::OP_C_XOR
        | OpecodeKind::OP_C_OR
        | OpecodeKind::OP_C_AND
        | OpecodeKind::OP_C_SUBW
        | OpecodeKind::OP_C_ADDW
        | OpecodeKind::OP_C_BEQZ
        | OpecodeKind::OP_C_BNEZ => Some((f0 + 8) as usize),
        OpecodeKind::OP_C_ADDI
        | OpecodeKind::OP_C_ADDIW
        | OpecodeKind::OP_C_ADDI16SP
        | OpecodeKind::OP_C_SLLI
        | OpecodeKind::OP_C_JR
        | OpecodeKind::OP_C_JALR
        | OpecodeKind::OP_C_ADD => Some(f1 as usize),
        _ => None,
    };
    Ok(field)
}
/// The second source register of a compressed encoding.
pub open spec fn spec_rs2(inst: u16, opkind: OpecodeKind) -> Option<usize> {
    match opkind {
        OpecodeKind::OP_C_SW
        | OpecodeKind::OP_C_SD
        | OpecodeKind::OP_C_SUB
        | OpecodeKind::OP_C_XOR
        | OpecodeKind::OP_C_OR
        | OpecodeKind::OP_C_AND
        | OpecodeKind::OP_C_SUBW
        | OpecodeKind::OP_C_ADDW => Some((((inst / 0x4) % 0x8) + 8) as usize),
        OpecodeKind::OP_C_MV
        | OpecodeKind::OP_C_ADD
        | OpecodeKind::OP_C_SWSP
        | OpecodeKind::OP_C_SDSP => Some(((inst / 0x4) % 0x20) as usize),
        _ => None,
    }
}

/// Reads the second source register of a compressed encoding.
pub fn parse_rs2(inst: u16, opkind: &OpecodeKind) -> (r: Result<Option<usize>, Fault>)
    ensures
        r == Ok::<Option<usize>, Fault>(spec_rs2(inst, *opkind)),
        r->Ok_0 is Some ==> r->Ok_0->Some_0 < 32,
        r->Ok_0 is Some <==> opkind.spec_uses_rs2() && opkind.spec_extension() == Extensions::C,
{
    // three-bit register fields name x8 to x15
    proof {
        lemma2_to64();
    }
    let f0: u16 = inst.slice(4, 2);
    assert(f0 == (inst / 0x4) % 0x8);
    let f1: u16 = inst.slice(6, 2);
    assert(f1 == (inst / 0x4) % 0x20);
    let field = match opkind {
        OpecodeKind::OP_C_SW
        | OpecodeKind::OP_C_SD
        | OpecodeKind::OP_C_SUB
        | OpecodeKind::OP_C_XOR
        | OpecodeKind::OP_C_OR
        | OpecodeKind::OP_C_AND
        | OpecodeKind::OP_C_SUBW
        | OpecodeKind::OP_C_ADDW => Some((f0 + 8) as usize),
        OpecodeKind::OP_C_MV
        | OpecodeKind::OP_C_ADD
        | OpecodeKind::OP_C_SWSP
        | OpecodeKind::OP_C_SDSP => Some(f1 as usize),
        _ => None,
    };
    Ok(field)
}
/// The shape of the immediate of a compressed instruction: which bits of the
/// encoding hold which bits of the immediate.
#[derive(Clone, Copy, PartialEq, Eq, Structural, Debug)]
pub enum CImmForm {
    /// Zero-extended offset scaled by 4: bits 12:11 to 5:4, 10:7 to 9:6, 6 to 2, 5 to 3.
    Addi4spn,
    /// Word offset: bits 12:10 to 5:3, 6 to 2, 5 to 6.
    Lw,
    /// Double-word offset: bits 12:10 to 5:3, 6:5 to 7:6.
    Ld,
    /// Six-bit signed immediate: bit 12 to 5, bits 6:2 to 4:0.
    Ci,
    /// Shift amount: bit 12 to 5, bits 6:2 to 4:0.
    Shamt,
    /// Jump offset: bits 12:2 hold offset bits 11, 4, 9:8, 10, 6, 7, 3:1, 5.
    Cj,
    /// Branch offset: bits 12:10 hold offset bits 8, 4:3; bits 6:2 hold 7:6, 2:1, 5.
    Cb,
    /// Stack adjustment scaled by 16: bit 12 to 9; bits 6:2 hold bits 4, 6, 8:7, 5.
    Addi16sp,
    /// Upper immediate: bit 12 to 17, bits 6:2 to 16:12.
    Lui,
    /// Stack-relative word offset: bit 12 to 5, bits 6:4 to 4:2, 3:2 to 7:6.
    Lwsp,
    /// Stack-relative double-word offset: bit 12 to 5, bits 6:5 to 4:3, 4:2 to 8:6.
    Ldsp,
    /// Stack-relative word offset of a store: bits 12:9 to 5:2, 8:7 to 7:6.
    Swsp,
    /// Stack-relative double-word offset of a store: bits 12:10 to 5:3, 9:7 to 8:6.
    Sdsp,
}

/// The immediate form of a compressed instruction, if it has an immediate.
pub open spec fn spec_imm_form(opkind: OpecodeKind) -> Option<CImmForm> {
    match opkind {
        OpecodeKind::OP_C_ADDI4SPN => Some(CImmForm::Addi4spn),
        OpecodeKind::OP_C_LW
        | OpecodeKind::OP_C_SW => Some(CImmForm::Lw),
        OpecodeKind::OP_C_LD
        | OpecodeKind::OP_C_SD => Some(CImmForm::Ld),
        OpecodeKind::OP_C_NOP
        | OpecodeKind::OP_C_ADDI
        | OpecodeKind::OP_C_ADDIW
        | OpecodeKind::OP_C_LI
        | OpecodeKind::OP_C_ANDI => Some(CImmForm::Ci),
        OpecodeKind::OP_C_SRLI
        | OpecodeKind::OP_C_SRAI
        | OpecodeKind::OP_C_SLLI => Some(CImmForm::Shamt),
        OpecodeKind::OP_C_JAL
        | OpecodeKind::OP_C_J => Some(CImmForm::Cj),
        OpecodeKind::OP_C_BEQZ
        | OpecodeKind::OP_C_BNEZ => Some(CImmForm::Cb),
        OpecodeKind::OP_C_ADDI16SP => Some(CImmForm::Addi16sp),
        OpecodeKind::OP_C_LUI => Some(CImmForm::Lui),
        OpecodeKind::OP_C_LWSP => Some(CImmForm::Lwsp),
        OpecodeKind::OP_C_LDSP => Some(CImmForm::Ldsp),
        OpecodeKind::OP_C_SWSP => Some(CImmForm::Swsp),
        OpecodeKind::OP_C_SDSP => Some(CImmForm::Sdsp),
        _ => None,
    }
}

/// The immediate form of a compressed instruction, if it has an immediate.
#[verifier::when_used_as_spec(spec_imm_form)]
pub fn imm_form(opkind: OpecodeKind) -> (r: Option<CImmForm>)
    ensures
        r == spec_imm_form(opkind),
        r is Some <==> opkind.spec_uses_imm() && opkind.spec_extension() == Extensions::C,
{
    match opkind {
        OpecodeKind::OP_C_ADDI4SPN => Some(CImmForm::Addi4spn),
        OpecodeKind::OP_C_LW
        | OpecodeKind::OP_C_SW => Some(CImmForm::Lw),
        OpecodeKind::OP_C_LD
        | OpecodeKind::OP_C_SD => Some(CImmForm::Ld),
        OpecodeKind::OP_C_NOP
        | OpecodeKind::OP_C_ADDI
        | OpecodeKind::OP_C_ADDIW
        | OpecodeKind::OP_C_LI
        | OpecodeKind::OP_C_ANDI => Some(CImmForm::Ci),
        OpecodeKind::OP_C_SRLI
        | OpecodeKind::OP_C_SRAI
        | OpecodeKind::OP_C_SLLI => Some(CImmForm::Shamt),
        OpecodeKind::OP_C_JAL
        | OpecodeKind::OP_C_J => Some(CImmForm::Cj),
        OpecodeKind::OP_C_BEQZ
        | OpecodeKind::OP_C_BNEZ => Some(CImmForm::Cb),
        OpecodeKind::OP_C_ADDI16SP => Some(CImmForm::Addi16sp),
        OpecodeKind::OP_C_LUI => Some(CImmForm::Lui),
        OpecodeKind::OP_C_LWSP => Some(CImmForm::Lwsp),
        OpecodeKind::OP_C_LDSP => Some(CImmForm::Ldsp),
        OpecodeKind::OP_C_SWSP => Some(CImmForm::Swsp),
        OpecodeKind::OP_C_SDSP => Some(CImmForm::Sdsp),
        _ => None,
    }
}

/// The immediate of form `form` that a compressed encoding holds: each bit
/// field of the encoding weighs in at the place the form gives it, and the
/// signed forms are read in two's complement of their width.
pub open spec fn spec_imm_value(inst: u16, form: CImmForm) -> int {
    match form {
        CImmForm::Addi4spn => ((inst as int / 0x800) % 0x4) * 0x10
            + ((inst as int / 0x80) % 0x10) * 0x40
            + ((inst as int / 0x40) % 0x2) * 0x4
            + ((inst as int / 0x20) % 0x2) * 0x8,
        CImmForm::Lw => ((inst as int / 0x400) % 0x8) * 0x8
            + ((inst as int / 0x40) % 0x2) * 0x4
            + ((inst as int / 0x20) % 0x2) * 0x40,
        CImmForm::Ld => ((inst as int / 0x400) % 0x8) * 0x8 + ((inst as int / 0x20) % 0x4) * 0x40,
        CImmForm::Ci => fold_sign(
            ((inst as int / 0x1000) % 0x2) * 0x20
            + (inst as int / 0x4) % 0x20,
            0x40,
        ),
        CImmForm::Shamt => ((inst as int / 0x1000) % 0x2) * 0x20 + (inst as int / 0x4) % 0x20,
        CImmForm::Cj => fold_sign(
            ((inst as int / 0x1000) % 0x2) * 0x800
            + ((inst as int / 0x800) % 0x2) * 0x10
            + ((inst as int / 0x200) % 0x4) * 0x100
            + ((inst as int / 0x100) % 0x2) * 0x400
            + ((inst as int / 0x80) % 0x2) * 0x40
            + ((inst as int / 0x40) % 0x2) * 0x80
            + ((inst as int / 0x8) % 0x8) * 0x2
            + ((inst as int / 0x4) % 0x2) * 0x20,
            0x1000,
        ),
        CImmForm::Cb => fold_sign(
            ((inst as int / 0x1000) % 0x2) * 0x100
            + ((inst as int / 0x400) % 0x4) * 0x8
            + ((inst as int / 0x20) % 0x4) * 0x40
            + ((inst as int / 0x8) % 0x4) * 0x2
            + ((inst as int / 0x4) % 0x2) * 0x20,
            0x200,
        ),
        CImmForm::Addi16sp => fold_sign(
            ((inst as int / 0x1000) % 0x2) * 0x200
            + ((inst as int / 0x40) % 0x2) * 0x10
            + ((inst as int / 0x20) % 0x2) * 0x40
            + ((inst as int / 0x8) % 0x4) * 0x80
            + ((inst as int / 0x4) % 0x2) * 0x20,
            0x400,
        ),
        CImmForm::Lui => fold_sign(
            ((inst as int / 0x1000) % 0x2) * 0x20000
            + ((inst as int / 0x4) % 0x20) * 0x1000,
            0x40000,
        ),
        CImmForm::Lwsp => ((inst as int / 0x1000) % 0x2) * 0x20
            + ((inst as int / 0x10) % 0x8) * 0x4
            + ((inst as int / 0x4) % 0x4) * 0x40,
        CImmForm::Ldsp => ((inst as int / 0x1000) % 0x2) * 0x20
            + ((inst as int / 0x20) % 0x4) * 0x8
            + ((inst as int / 0x4) % 0x8) * 0x40,
        CImmForm::Swsp => ((inst as int / 0x200) % 0x10) * 0x4
            + ((inst as int / 0x80) % 0x4) * 0x40,
        CImmForm::Sdsp => ((inst as int / 0x400) % 0x8) * 0x8 + ((inst as int / 0x80) % 0x8) * 0x40,
    }
}

/// The immediate of a compressed encoding, where the instruction has one.
pub open spec fn spec_imm(inst: u16, opkind: OpecodeKind) -> Option<i32> {
    match spec_imm_form(opkind) {
        Some(form) => Some(spec_imm_value(inst, form) as i32),
        None => None,
    }
}


fn imm_addi4spn(inst: u16) -> (r: i32)
    ensures
        r == spec_imm_value(inst, CImmForm::Addi4spn),
{
    proof {
        lemma2_to64();
    }
    let x: u32 = inst as u32;
    let part0: u32 = x.slice(12, 11);
    assert(part0 == (x / 0x800) % 0x4);
    let part1: u32 = x.slice(10, 7);
    assert(part1 == (x / 0x80) % 0x10);
    let part2: u32 = x.slice(6, 6);
    assert(part2 == (x / 0x40) % 0x2);
    let part3: u32 = x.slice(5, 5);
    assert(part3 == (x / 0x20) % 0x2);
    let v: u32 = part0 * 0x10 + part1 * 0x40 + part2 * 0x4 + part3 * 0x8;
    v as i32
}

fn imm_lw(inst: u16) -> (r: i32)
    ensures
        r == spec_imm_value(inst, CImmForm::Lw),
{
    proof {
        lemma2_to64();
    }
    let x: u32 = inst as u32;
    let part0: u32 = x.slice(12, 10);
    assert(part0 == (x / 0x400) % 0x8);
    let part1: u32 = x.slice(6, 6);
    assert(part1 == (x / 0x40) % 0x2);
    let part2: u32 = x.slice(5, 5);
    assert(part2 == (x / 0x20) % 0x2);
    let v: u32 = part0 * 0x8 + part1 * 0x4 + part2 * 0x40;
    v as i32
}

fn imm_ld(inst: u16) -> (r: i32)
    ensures
        r == spec_imm_value(inst, CImmForm::Ld),
{
    proof {
        lemma2_to64();
    }
    let x: u32 = inst as u32;
    let part0: u32 = x.slice(12, 10);
    assert(part0 == (x / 0x400) % 0x8);
    let part1: u32 = x.slice(6, 5);
    assert(part1 == (x / 0x20) % 0x4);
    let v: u32 = part0 * 0x8 + part1 * 0x40;
    v as i32
}

fn imm_ci(inst: u16) -> (r: i32)
    ensures
        r == spec_imm_value(inst, CImmForm::Ci),
{
    proof {
        lemma2_to64();
    }
    let x: u32 = inst as u32;
    let part0: u32 = x.slice(12, 12);
    assert(part0 == (x / 0x1000) % 0x2);
    let part1: u32 = x.slice(6, 2);
    assert(part1 == (x / 0x4) % 0x20);
    let v: u32 = part0 * 0x20 + part1;
    inst.to_signed_nbit(v as i32, 6)
}

fn imm_shamt(inst: u16) -> (r: i32)
    ensures
        r == spec_imm_value(inst, CImmForm::Shamt),
{
    proof {
        lemma2_to64();
    }
    let x: u32 = inst as u32;
    let part0: u32 = x.slice(12, 12);
    assert(part0 == (x / 0x1000) % 0x2);
    let part1: u32 = x.slice(6, 2);
    assert(part1 == (x / 0x4) % 0x20);
    let v: u32 = part0 * 0x20 + part1;
    v as i32
}

fn imm_cj(inst: u16) -> (r: i32)
    ensures
        r == spec_imm_value(inst, CImmForm::Cj),
{
    proof {
        lemma2_to64();
    }
    let x: u32 = inst as u32;
    let part0: u32 = x.slice(12, 12);
    assert(part0 == (x / 0x1000) % 0x2);
    let part1: u32 = x.slice(11, 11);
    assert(part1 == (x / 0x800) % 0x2);
    let part2: u32 = x.slice(10, 9);
    assert(part2 == (x / 0x200) % 0x4);
    let part3: u32 = x.slice(8, 8);
    assert(part3 == (x / 0x100) % 0x2);
    let part4: u32 = x.slice(7, 7);
    assert(part4 == (x / 0x80) % 0x2);
    let part5: u32 = x.slice(6, 6);
    assert(part5 == (x / 0x40) % 0x2);
    let part6: u32 = x.slice(5, 3);
    assert(part6 == (x / 0x8) % 0x8);
    let part7: u32 = x.slice(2, 2);
    assert(part7 == (x / 0x4) % 0x2);
    let v: u32 = part0 * 0x800
        + part1 * 0x10
        + part2 * 0x100
        + part3 * 0x400
        + part4 * 0x40
        + part5 * 0x80
        + part6 * 0x2
        + part7 * 0x20;
    inst.to_signed_nbit(v as i32, 12)
}

fn imm_cb(inst: u16) -> (r: i32)
    ensures
        r == spec_imm_value(inst, CImmForm::Cb),
{
    proof {
        lemma2_to64();
    }
    let x: u32 = inst as u32;
    let part0: u32 = x.slice(12, 12);
    assert(part0 == (x / 0x1000) % 0x2);
    let part1: u32 = x.slice(11, 10);
    assert(part1 == (x / 0x400) % 0x4);
    let part2: u32 = x.slice(6, 5);
    assert(part2 == (x / 0x20) % 0x4);
    let part3: u32 = x.slice(4, 3);
    assert(part3 == (x / 0x8) % 0x4);
    let part4: u32 = x.slice(2, 2);
    assert(part4 == (x / 0x4) % 0x2);
    let v: u32 = part0 * 0x100 + part1 * 0x8 + part2 * 0x40 + part3 * 0x2 + part4 * 0x20;
    inst.to_signed_nbit(v as i32, 9)
}

fn imm_addi16sp(inst: u16) -> (r: i32)
    ensures
        r == spec_imm_value(inst, CImmForm::Addi16sp),
{
    proof {
        lemma2_to64();
    }
    let x: u32 = inst as u32;
    let part0: u32 = x.slice(12, 12);
    assert(part0 == (x / 0x1000) % 0x2);
    let part1: u32 = x.slice(6, 6);
    assert(part1 == (x / 0x40) % 0x2);
    let part2: u32 = x.slice(5, 5);
    assert(part2 == (x / 0x20) % 0x2);
    let part3: u32 = x.slice(4, 3);
    assert(part3 == (x / 0x8) % 0x4);
    let part4: u32 = x.slice(2, 2);
    assert(part4 == (x / 0x4) % 0x2);
    let v: u32 = part0 * 0x200 + part1 * 0x10 + part2 * 0x40 + part3 * 0x80 + part4 * 0x20;
    inst.to_signed_nbit(v as i32, 10)
}

fn imm_lui(inst: u16) -> (r: i32)
    ensures
        r == spec_imm_value(inst, CImmForm::Lui),
{
    proof {
        lemma2_to64();
    }
    let x: u32 = inst as u32;
    let part0: u32 = x.slice(12, 12);
    assert(part0 == (x / 0x1000) % 0x2);
    let part1: u32 = x.slice(6, 2);
    assert(part1 == (x / 0x4) % 0x20);
    let v: u32 = part0 * 0x20000 + part1 * 0x1000;
    inst.to_signed_nbit(v as i32, 18)
}

fn imm_lwsp(inst: u16) -> (r: i32)
    ensures
        r == spec_imm_value(inst, CImmForm::Lwsp),
{
    proof {
        lemma2_to64();
    }
    let x: u32 = inst as u32;
    let part0: u32 = x.slice(12, 12);
    assert(part0 == (x / 0x1000) % 0x2);
    let part1: u32 = x.slice(6, 4);
    assert(part1 == (x / 0x10) % 0x8);
    let part2: u32 = x.slice(3, 2);
    assert(part2 == (x / 0x4) % 0x4);
    let v: u32 = part0 * 0x20 + part1 * 0x4 + part2 * 0x40;
    v as i32
}

fn imm_ldsp(inst: u16) -> (r: i32)
    ensures
        r == spec_imm_value(inst, CImmForm::Ldsp),
{
    proof {
        lemma2_to64();
    }
    let x: u32 = inst as u32;
    let part0: u32 = x.slice(12, 12);
    assert(part0 == (x / 0x1000) % 0x2);
    let part1: u32 = x.slice(6, 5);
    assert(part1 == (x / 0x20) % 0x4);
    let part2: u32 = x.slice(4, 2);
    assert(part2 == (x / 0x4) % 0x8);
    let v: u32 = part0 * 0x20 + part1 * 0x8 + part2 * 0x40;
    v as i32
}

fn imm_swsp(inst: u16) -> (r: i32)
    ensures
        r == spec_imm_value(inst, CImmForm::Swsp),
{
    proof {
        lemma2_to64();
    }
    let x: u32 = inst as u32;
    let part0: u32 = x.slice(12, 9);
    assert(part0 == (x / 0x200) % 0x10);
    let part1: u32 = x.slice(8, 7);
    assert(part1 == (x / 0x80) % 0x4);
    let v: u32 = part0 * 0x4 + part1 * 0x40;
    v as i32
}

fn imm_sdsp(inst: u16) -> (r: i32)
    ensures
        r == spec_imm_value(inst, CImmForm::Sdsp),
{
    proof {
        lemma2_to64();
    }
    let x: u32 = inst as u32;
    let part0: u32 = x.slice(12, 10);
    assert(part0 == (x / 0x400) % 0x8);
    let part1: u32 = x.slice(9, 7);
    assert(part1 == (x / 0x80) % 0x8);
    let v: u32 = part0 * 0x8 + part1 * 0x40;
    v as i32
}

/// Reads the immediate of a compressed encoding.
pub fn parse_imm(inst: u16, opkind: &OpecodeKind) -> (r: Result<Option<i32>, Fault>)
    ensures
        r == Ok::<Option<i32>, Fault>(spec_imm(inst, *opkind)),
        r->Ok_0 is Some <==> opkind.spec_uses_imm() && opkind.spec_extension() == Extensions::C,
{
    let imm = match imm_form(*opkind) {
        Some(CImmForm::Addi4spn) => Some(imm_addi4spn(inst)),
        Some(CImmForm::Lw) => Some(imm_lw(inst)),
        Some(CImmForm::Ld) => Some(imm_ld(inst)),
        Some(CImmForm::Ci) => Some(imm_ci(inst)),
        Some(CImmForm::Shamt) => Some(imm_shamt(inst)),
        Some(CImmForm::Cj) => Some(imm_cj(inst)),
        Some(CImmForm::Cb) => Some(imm_cb(inst)),
        Some(CImmForm::Addi16sp) => Some(imm_addi16sp(inst)),
        Some(CImmForm::Lui) => Some(imm_lui(inst)),
        Some(CImmForm::Lwsp) => Some(imm_lwsp(inst)),
        Some(CImmForm::Ldsp) => Some(imm_ldsp(inst)),
        Some(CImmForm::Swsp) => Some(imm_swsp(inst)),
        Some(CImmForm::Sdsp) => Some(imm_sdsp(inst)),
        None => None,
    };
    Ok(imm)
}

} // verus!
