//! The decoded form of an instruction.

use vstd::prelude::*;

verus! {

/// One variant per architectural instruction of the base integer ISA
/// (RV32I and RV64I), Zicsr, the privileged instructions, the atomics and
/// the compressed encodings.
#[allow(non_camel_case_types)]
#[derive(Clone, Copy, PartialEq, Eq, Structural, Debug)]
pub enum OpecodeKind {
    OP_LUI,
    OP_AUIPC,
    OP_JAL,
    OP_JALR,
    OP_BEQ,
    OP_BNE,
    OP_BLT,
    OP_BGE,
    OP_BLTU,
    OP_BGEU,
    OP_LB,
    OP_LH,
    OP_LW,
    OP_LBU,
    OP_LHU,
    OP_LWU,
    OP_LD,
    OP_SB,
    OP_SH,
    OP_SW,
    OP_SD,
    OP_ADDI,
    OP_SLTI,
    OP_SLTIU,
    OP_XORI,
    OP_ORI,
    OP_ANDI,
    OP_SLLI,
    OP_SRLI,
    OP_SRAI,
    OP_ADD,
    OP_SUB,
    OP_SLL,
    OP_SLT,
    OP_SLTU,
    OP_XOR,
    OP_SRL,
    OP_SRA,
    OP_OR,
    OP_AND,
    OP_ADDIW,
    OP_SLLIW,
    OP_SRLIW,
    OP_SRAIW,
    OP_ADDW,
    OP_SUBW,
    OP_SLLW,
    OP_SRLW,
    OP_SRAW,
    OP_FENCE,
    OP_ECALL,
    OP_EBREAK,
    OP_CSRRW,
    OP_CSRRS,
    OP_CSRRC,
    OP_CSRRWI,
    OP_CSRRSI,
    OP_CSRRCI,
    OP_SRET,
    OP_MRET,
    OP_URET,
    OP_WFI,
    OP_SFENCE_VMA,
    OP_LR_W,
    OP_LR_D,
    OP_SC_W,
    OP_SC_D,
    OP_AMOSWAP_W,
    OP_AMOSWAP_D,
    OP_AMOADD_W,
    OP_AMOADD_D,
    OP_AMOXOR_W,
    OP_AMOXOR_D,
    OP_AMOAND_W,
    OP_AMOAND_D,
    OP_AMOOR_W,
    OP_AMOOR_D,
    OP_AMOMIN_W,
    OP_AMOMIN_D,
    OP_AMOMAX_W,
    OP_AMOMAX_D,
    OP_AMOMINU_W,
    OP_AMOMINU_D,
    OP_AMOMAXU_W,
    OP_AMOMAXU_D,
    OP_C_ADDI4SPN,
    OP_C_LW,
    OP_C_LD,
    OP_C_SW,
    OP_C_SD,
    OP_C_NOP,
    OP_C_ADDI,
    OP_C_JAL,
    OP_C_ADDIW,
    OP_C_LI,
    OP_C_ADDI16SP,
    OP_C_LUI,
    OP_C_SRLI,
    OP_C_SRAI,
    OP_C_ANDI,
    OP_C_SUB,
    OP_C_XOR,
    OP_C_OR,
    OP_C_AND,
    OP_C_SUBW,
    OP_C_ADDW,
    OP_C_J,
    OP_C_BEQZ,
    OP_C_BNEZ,
    OP_C_SLLI,
    OP_C_LWSP,
    OP_C_LDSP,
    OP_C_JR,
    OP_C_MV,
    OP_C_EBREAK,
    OP_C_JALR,
    OP_C_ADD,
    OP_C_SWSP,
    OP_C_SDSP,
}

/// The extension an instruction belongs to.
#[derive(Clone, Copy, PartialEq, Eq, Structural, Debug)]
pub enum Extensions {
    BaseI,
    A,
    C,
    Zicsr,
    Priv,
}

impl OpecodeKind {
    /// The extension that defines the instruction.
    pub open spec fn spec_extension(self) -> Extensions {
        match self {
            OpecodeKind::OP_CSRRW
            | OpecodeKind::OP_CSRRS
            | OpecodeKind::OP_CSRRC
            | OpecodeKind::OP_CSRRWI
            | OpecodeKind::OP_CSRRSI
            | OpecodeKind::OP_CSRRCI => Extensions::Zicsr,
            OpecodeKind::OP_SRET
            | OpecodeKind::OP_MRET
            | OpecodeKind::OP_URET
            | OpecodeKind::OP_WFI
            | OpecodeKind::OP_SFENCE_VMA => Extensions::Priv,
            OpecodeKind::OP_LR_W
            | OpecodeKind::OP_LR_D
            | OpecodeKind::OP_SC_W
            | OpecodeKind::OP_SC_D
            | OpecodeKind::OP_AMOSWAP_W
            | OpecodeKind::OP_AMOSWAP_D
            | OpecodeKind::OP_AMOADD_W
            | OpecodeKind::OP_AMOADD_D
            | OpecodeKind::OP_AMOXOR_W
            | OpecodeKind::OP_AMOXOR_D
            | OpecodeKind::OP_AMOAND_W
            | OpecodeKind::OP_AMOAND_D
            | OpecodeKind::OP_AMOOR_W
            | OpecodeKind::OP_AMOOR_D
            | OpecodeKind::OP_AMOMIN_W
            | OpecodeKind::OP_AMOMIN_D
            | OpecodeKind::OP_AMOMAX_W
            | OpecodeKind::OP_AMOMAX_D
            | OpecodeKind::OP_AMOMINU_W
            | OpecodeKind::OP_AMOMINU_D
            | OpecodeKind::OP_AMOMAXU_W
            | OpecodeKind::OP_AMOMAXU_D => Extensions::A,
            OpecodeKind::OP_C_ADDI4SPN
            | OpecodeKind::OP_C_LW
            | OpecodeKind::OP_C_LD
            | OpecodeKind::OP_C_SW
            | OpecodeKind::OP_C_SD
            | OpecodeKind::OP_C_NOP
            | OpecodeKind::OP_C_ADDI
            | OpecodeKind::OP_C_JAL
            | OpecodeKind::OP_C_ADDIW
            | OpecodeKind::OP_C_LI
            | OpecodeKind::OP_C_ADDI16SP
            | OpecodeKind::OP_C_LUI
            | OpecodeKind::OP_C_SRLI
            | OpecodeKind::OP_C_SRAI
            | OpecodeKind::OP_C_ANDI
            | OpecodeKind::OP_C_SUB
            | OpecodeKind::OP_C_XOR
            | OpecodeKind::OP_C_OR
            | OpecodeKind::OP_C_AND
            | OpecodeKind::OP_C_SUBW
            | OpecodeKind::OP_C_ADDW
            | OpecodeKind::OP_C_J
            | OpecodeKind::OP_C_BEQZ
            | OpecodeKind::OP_C_BNEZ
            | OpecodeKind::OP_C_SLLI
            | OpecodeKind::OP_C_LWSP
            | OpecodeKind::OP_C_LDSP
            | OpecodeKind::OP_C_JR
            | OpecodeKind::OP_C_MV
            | OpecodeKind::OP_C_EBREAK
            | OpecodeKind::OP_C_JALR
            | OpecodeKind::OP_C_ADD
            | OpecodeKind::OP_C_SWSP
            | OpecodeKind::OP_C_SDSP => Extensions::C,
            _ => Extensions::BaseI,
        }
    }

    /// The extension that defines the instruction.
    #[verifier::when_used_as_spec(spec_extension)]
    pub fn extension(self) -> (r: Extensions)
        ensures
            r == self.spec_extension(),
    {
        match self {
            OpecodeKind::OP_CSRRW
            | OpecodeKind::OP_CSRRS
            | OpecodeKind::OP_CSRRC
            | OpecodeKind::OP_CSRRWI
            | OpecodeKind::OP_CSRRSI
            | OpecodeKind::OP_CSRRCI => Extensions::Zicsr,
            OpecodeKind::OP_SRET
            | OpecodeKind::OP_MRET
            | OpecodeKind::OP_URET
            | OpecodeKind::OP_WFI
            | OpecodeKind::OP_SFENCE_VMA => Extensions::Priv,
            OpecodeKind::OP_LR_W
            | OpecodeKind::OP_LR_D
            | OpecodeKind::OP_SC_W
            | OpecodeKind::OP_SC_D
            | OpecodeKind::OP_AMOSWAP_W
            | OpecodeKind::OP_AMOSWAP_D
            | OpecodeKind::OP_AMOADD_W
            | OpecodeKind::OP_AMOADD_D
            | OpecodeKind::OP_AMOXOR_W
            | OpecodeKind::OP_AMOXOR_D
            | OpecodeKind::OP_AMOAND_W
            | OpecodeKind::OP_AMOAND_D
            | OpecodeKind::OP_AMOOR_W
            | OpecodeKind::OP_AMOOR_D
            | OpecodeKind::OP_AMOMIN_W
            | OpecodeKind::OP_AMOMIN_D
            | OpecodeKind::OP_AMOMAX_W
            | OpecodeKind::OP_AMOMAX_D
            | OpecodeKind::OP_AMOMINU_W
            | OpecodeKind::OP_AMOMINU_D
            | OpecodeKind::OP_AMOMAXU_W
            | OpecodeKind::OP_AMOMAXU_D => Extensions::A,
            OpecodeKind::OP_C_ADDI4SPN
            | OpecodeKind::OP_C_LW
            | OpecodeKind::OP_C_LD
            | OpecodeKind::OP_C_SW
            | OpecodeKind::OP_C_SD
            | OpecodeKind::OP_C_NOP
            | OpecodeKind::OP_C_ADDI
            | OpecodeKind::OP_C_JAL
            | OpecodeKind::OP_C_ADDIW
            | OpecodeKind::OP_C_LI
            | OpecodeKind::OP_C_ADDI16SP
            | OpecodeKind::OP_C_LUI
            | OpecodeKind::OP_C_SRLI
            | OpecodeKind::OP_C_SRAI
            | OpecodeKind::OP_C_ANDI
            | OpecodeKind::OP_C_SUB
            | OpecodeKind::OP_C_XOR
            | OpecodeKind::OP_C_OR
            | OpecodeKind::OP_C_AND
            | OpecodeKind::OP_C_SUBW
            | OpecodeKind::OP_C_ADDW
            | OpecodeKind::OP_C_J
            | OpecodeKind::OP_C_BEQZ
            | OpecodeKind::OP_C_BNEZ
            | OpecodeKind::OP_C_SLLI
            | OpecodeKind::OP_C_LWSP
            | OpecodeKind::OP_C_LDSP
            | OpecodeKind::OP_C_JR
            | OpecodeKind::OP_C_MV
            | OpecodeKind::OP_C_EBREAK
            | OpecodeKind::OP_C_JALR
            | OpecodeKind::OP_C_ADD
            | OpecodeKind::OP_C_SWSP
            | OpecodeKind::OP_C_SDSP => Extensions::C,
            _ => Extensions::BaseI,
        }
    }

    /// Whether the encoding has a destination register field.
    pub open spec fn spec_uses_rd(self) -> bool {
        match self {
            OpecodeKind::OP_LUI
            | OpecodeKind::OP_AUIPC
            | OpecodeKind::OP_JAL
            | OpecodeKind::OP_JALR
            | OpecodeKind::OP_LB
            | OpecodeKind::OP_LH
            | OpecodeKind::OP_LW
            | OpecodeKind::OP_LBU
            | OpecodeKind::OP_LHU
            | OpecodeKind::OP_LWU
            | OpecodeKind::OP_LD
            | OpecodeKind::OP_ADDI
            | OpecodeKind::OP_SLTI
            | OpecodeKind::OP_SLTIU
            | OpecodeKind::OP_XORI
            | OpecodeKind::OP_ORI
            | OpecodeKind::OP_ANDI
            | OpecodeKind::OP_SLLI
            | OpecodeKind::OP_SRLI
            | OpecodeKind::OP_SRAI
            | OpecodeKind::OP_ADD
            | OpecodeKind::OP_SUB
            | OpecodeKind::OP_SLL
            | OpecodeKind::OP_SLT
            | OpecodeKind::OP_SLTU
            | OpecodeKind::OP_XOR
            | OpecodeKind::OP_SRL
            | OpecodeKind::OP_SRA
            | OpecodeKind::OP_OR
            | OpecodeKind::OP_AND
            | OpecodeKind::OP_ADDIW
            | OpecodeKind::OP_SLLIW
            | OpecodeKind::OP_SRLIW
            | OpecodeKind::OP_SRAIW
            | OpecodeKind::OP_ADDW
            | OpecodeKind::OP_SUBW
            | OpecodeKind::OP_SLLW
            | OpecodeKind::OP_SRLW
            | OpecodeKind::OP_SRAW
            | OpecodeKind::OP_CSRRW
            | OpecodeKind::OP_CSRRS
            | OpecodeKind::OP_CSRRC
            | OpecodeKind::OP_CSRRWI
            | OpecodeKind::OP_CSRRSI
            | OpecodeKind::OP_CSRRCI
            | OpecodeKind::OP_LR_W
            | OpecodeKind::OP_LR_D
            | OpecodeKind::OP_SC_W
            | OpecodeKind::OP_SC_D
            | OpecodeKind::OP_AMOSWAP_W
            | OpecodeKind::OP_AMOSWAP_D
            | OpecodeKind::OP_AMOADD_W
            | OpecodeKind::OP_AMOADD_D
            | OpecodeKind::OP_AMOXOR_W
            | OpecodeKind::OP_AMOXOR_D
            | OpecodeKind::OP_AMOAND_W
            | OpecodeKind::OP_AMOAND_D
            | OpecodeKind::OP_AMOOR_W
            | OpecodeKind::OP_AMOOR_D
            | OpecodeKind::OP_AMOMIN_W
            | OpecodeKind::OP_AMOMIN_D
            | OpecodeKind::OP_AMOMAX_W
            | OpecodeKind::OP_AMOMAX_D
            | OpecodeKind::OP_AMOMINU_W
            | OpecodeKind::OP_AMOMINU_D
            | OpecodeKind::OP_AMOMAXU_W
            | OpecodeKind::OP_AMOMAXU_D
            | OpecodeKind::OP_C_ADDI4SPN
            | OpecodeKind::OP_C_LW
            | OpecodeKind::OP_C_LD
            | OpecodeKind::OP_C_ADDI
            | OpecodeKind::OP_C_ADDIW
            | OpecodeKind::OP_C_LI
            | OpecodeKind::OP_C_LUI
            | OpecodeKind::OP_C_SRLI
            | OpecodeKind::OP_C_SRAI
            | OpecodeKind::OP_C_ANDI
            | OpecodeKind::OP_C_SUB
            | OpecodeKind::OP_C_XOR
            | OpecodeKind::OP_C_OR
            | OpecodeKind::OP_C_AND
            | OpecodeKind::OP_C_SUBW
            | OpecodeKind::OP_C_ADDW
            | OpecodeKind::OP_C_SLLI
            | OpecodeKind::OP_C_LWSP
            | OpecodeKind::OP_C_LDSP
            | OpecodeKind::OP_C_MV
            | OpecodeKind::OP_C_ADD => true,
            _ => false,
        }
    }

    /// Whether the encoding has a destination register field.
    #[verifier::when_used_as_spec(spec_uses_rd)]
    pub fn uses_rd(self) -> (r: bool)
        ensures
            r == self.spec_uses_rd(),
    {
        match self {
            OpecodeKind::OP_LUI
            | OpecodeKind::OP_AUIPC
            | OpecodeKind::OP_JAL
            | OpecodeKind::OP_JALR
            | OpecodeKind::OP_LB
            | OpecodeKind::OP_LH
            | OpecodeKind::OP_LW
            | OpecodeKind::OP_LBU
            | OpecodeKind::OP_LHU
            | OpecodeKind::OP_LWU
            | OpecodeKind::OP_LD
            | OpecodeKind::OP_ADDI
            | OpecodeKind::OP_SLTI
            | OpecodeKind::OP_SLTIU
            | OpecodeKind::OP_XORI
            | OpecodeKind::OP_ORI
            | OpecodeKind::OP_ANDI
            | OpecodeKind::OP_SLLI
            | OpecodeKind::OP_SRLI
            | OpecodeKind::OP_SRAI
            | OpecodeKind::OP_ADD
            | OpecodeKind::OP_SUB
            | OpecodeKind::OP_SLL
            | OpecodeKind::OP_SLT
            | OpecodeKind::OP_SLTU
            | OpecodeKind::OP_XOR
            | OpecodeKind::OP_SRL
            | OpecodeKind::OP_SRA
            | OpecodeKind::OP_OR
            | OpecodeKind::OP_AND
            | OpecodeKind::OP_ADDIW
            | OpecodeKind::OP_SLLIW
            | OpecodeKind::OP_SRLIW
            | OpecodeKind::OP_SRAIW
            | OpecodeKind::OP_ADDW
            | OpecodeKind::OP_SUBW
            | OpecodeKind::OP_SLLW
            | OpecodeKind::OP_SRLW
            | OpecodeKind::OP_SRAW
            | OpecodeKind::OP_CSRRW
            | OpecodeKind::OP_CSRRS
            | OpecodeKind::OP_CSRRC
            | OpecodeKind::OP_CSRRWI
            | OpecodeKind::OP_CSRRSI
            | OpecodeKind::OP_CSRRCI
            | OpecodeKind::OP_LR_W
            | OpecodeKind::OP_LR_D
            | OpecodeKind::OP_SC_W
            | OpecodeKind::OP_SC_D
            | OpecodeKind::OP_AMOSWAP_W
            | OpecodeKind::OP_AMOSWAP_D
            | OpecodeKind::OP_AMOADD_W
            | OpecodeKind::OP_AMOADD_D
            | OpecodeKind::OP_AMOXOR_W
            | OpecodeKind::OP_AMOXOR_D
            | OpecodeKind::OP_AMOAND_W
            | OpecodeKind::OP_AMOAND_D
            | OpecodeKind::OP_AMOOR_W
            | OpecodeKind::OP_AMOOR_D
            | OpecodeKind::OP_AMOMIN_W
            | OpecodeKind::OP_AMOMIN_D
            | OpecodeKind::OP_AMOMAX_W
            | OpecodeKind::OP_AMOMAX_D
            | OpecodeKind::OP_AMOMINU_W
            | OpecodeKind::OP_AMOMINU_D
            | OpecodeKind::OP_AMOMAXU_W
            | OpecodeKind::OP_AMOMAXU_D
            | OpecodeKind::OP_C_ADDI4SPN
            | OpecodeKind::OP_C_LW
            | OpecodeKind::OP_C_LD
            | OpecodeKind::OP_C_ADDI
            | OpecodeKind::OP_C_ADDIW
            | OpecodeKind::OP_C_LI
            | OpecodeKind::OP_C_LUI
            | OpecodeKind::OP_C_SRLI
            | OpecodeKind::OP_C_SRAI
            | OpecodeKind::OP_C_ANDI
            | OpecodeKind::OP_C_SUB
            | OpecodeKind::OP_C_XOR
            | OpecodeKind::OP_C_OR
            | OpecodeKind::OP_C_AND
            | OpecodeKind::OP_C_SUBW
            | OpecodeKind::OP_C_ADDW
            | OpecodeKind::OP_C_SLLI
            | OpecodeKind::OP_C_LWSP
            | OpecodeKind::OP_C_LDSP
            | OpecodeKind::OP_C_MV
            | OpecodeKind::OP_C_ADD => true,
            _ => false,
        }
    }

    /// Whether the encoding has a first source field: a register, or the
    /// unsigned immediate of the immediate CSR instructions.
    pub open spec fn spec_uses_rs1(self) -> bool {
        match self {
            OpecodeKind::OP_JALR
            | OpecodeKind::OP_BEQ
            | OpecodeKind::OP_BNE
            | OpecodeKind::OP_BLT
            | OpecodeKind::OP_BGE
            | OpecodeKind::OP_BLTU
            | OpecodeKind::OP_BGEU
            | OpecodeKind::OP_LB
            | OpecodeKind::OP_LH
            | OpecodeKind::OP_LW
            | OpecodeKind::OP_LBU
            | OpecodeKind::OP_LHU
            | OpecodeKind::OP_LWU
            | OpecodeKind::OP_LD
            | OpecodeKind::OP_SB
            | OpecodeKind::OP_SH
            | OpecodeKind::OP_SW
            | OpecodeKind::OP_SD
            | OpecodeKind::OP_ADDI
            | OpecodeKind::OP_SLTI
            | OpecodeKind::OP_SLTIU
            | OpecodeKind::OP_XORI
            | OpecodeKind::OP_ORI
            | OpecodeKind::OP_ANDI
            | OpecodeKind::OP_SLLI
            | OpecodeKind::OP_SRLI
            | OpecodeKind::OP_SRAI
            | OpecodeKind::OP_ADD
            | OpecodeKind::OP_SUB
            | OpecodeKind::OP_SLL
            | OpecodeKind::OP_SLT
            | OpecodeKind::OP_SLTU
            | OpecodeKind::OP_XOR
            | OpecodeKind::OP_SRL
            | OpecodeKind::OP_SRA
            | OpecodeKind::OP_OR
            | OpecodeKind::OP_AND
            | OpecodeKind::OP_ADDIW
            | OpecodeKind::OP_SLLIW
            | OpecodeKind::OP_SRLIW
            | OpecodeKind::OP_SRAIW
            | OpecodeKind::OP_ADDW
            | OpecodeKind::OP_SUBW
            | OpecodeKind::OP_SLLW
            | OpecodeKind::OP_SRLW
            | OpecodeKind::OP_SRAW
            | OpecodeKind::OP_CSRRW
            | OpecodeKind::OP_CSRRS
            | OpecodeKind::OP_CSRRC
            | OpecodeKind::OP_CSRRWI
            | OpecodeKind::OP_CSRRSI
            | OpecodeKind::OP_CSRRCI
            | OpecodeKind::OP_SFENCE_VMA
            | OpecodeKind::OP_LR_W
            | OpecodeKind::OP_LR_D
            | OpecodeKind::OP_SC_W
            | OpecodeKind::OP_SC_D
            | OpecodeKind::OP_AMOSWAP_W
            | OpecodeKind::OP_AMOSWAP_D
            | OpecodeKind::OP_AMOADD_W
            | OpecodeKind::OP_AMOADD_D
            | OpecodeKind::OP_AMOXOR_W
            | OpecodeKind::OP_AMOXOR_D
            | OpecodeKind::OP_AMOAND_W
            | OpecodeKind::OP_AMOAND_D
            | OpecodeKind::OP_AMOOR_W
            | OpecodeKind::OP_AMOOR_D
            | OpecodeKind::OP_AMOMIN_W
            | OpecodeKind::OP_AMOMIN_D
            | OpecodeKind::OP_AMOMAX_W
            | OpecodeKind::OP_AMOMAX_D
            | OpecodeKind::OP_AMOMINU_W
            | OpecodeKind::OP_AMOMINU_D
            | OpecodeKind::OP_AMOMAXU_W
            | OpecodeKind::OP_AMOMAXU_D
            | OpecodeKind::OP_C_LW
            | OpecodeKind::OP_C_LD
            | OpecodeKind::OP_C_SW
            | OpecodeKind::OP_C_SD
            | OpecodeKind::OP_C_ADDI
            | OpecodeKind::OP_C_ADDIW
            | OpecodeKind::OP_C_ADDI16SP
            | OpecodeKind::OP_C_SRLI
            | OpecodeKind::OP_C_SRAI
            | OpecodeKind::OP_C_ANDI
            | OpecodeKind::OP_C_SUB
            | OpecodeKind::OP_C_XOR
            | OpecodeKind::OP_C_OR
            | OpecodeKind::OP_C_AND
            | OpecodeKind::OP_C_SUBW
            | OpecodeKind::OP_C_ADDW
            | OpecodeKind::OP_C_BEQZ
            | OpecodeKind::OP_C_BNEZ
            | OpecodeKind::OP_C_SLLI
            | OpecodeKind::OP_C_JR
            | OpecodeKind::OP_C_JALR
            | OpecodeKind::OP_C_ADD => true,
            _ => false,
        }
    }

    /// Whether the encoding has a first source field.
    #[verifier::when_used_as_spec(spec_uses_rs1)]
    pub fn uses_rs1(self) -> (r: bool)
        ensures
            r == self.spec_uses_rs1(),
    {
        match self {
            OpecodeKind::OP_JALR
            | OpecodeKind::OP_BEQ
            | OpecodeKind::OP_BNE
            | OpecodeKind::OP_BLT
            | OpecodeKind::OP_BGE
            | OpecodeKind::OP_BLTU
            | OpecodeKind::OP_BGEU
            | OpecodeKind::OP_LB
            | OpecodeKind::OP_LH
            | OpecodeKind::OP_LW
            | OpecodeKind::OP_LBU
            | OpecodeKind::OP_LHU
            | OpecodeKind::OP_LWU
            | OpecodeKind::OP_LD
            | OpecodeKind::OP_SB
            | OpecodeKind::OP_SH
            | OpecodeKind::OP_SW
            | OpecodeKind::OP_SD
            | OpecodeKind::OP_ADDI
            | OpecodeKind::OP_SLTI
            | OpecodeKind::OP_SLTIU
            | OpecodeKind::OP_XORI
            | OpecodeKind::OP_ORI
            | OpecodeKind::OP_ANDI
            | OpecodeKind::OP_SLLI
            | OpecodeKind::OP_SRLI
            | OpecodeKind::OP_SRAI
            | OpecodeKind::OP_ADD
            | OpecodeKind::OP_SUB
            | OpecodeKind::OP_SLL
            | OpecodeKind::OP_SLT
            | OpecodeKind::OP_SLTU
            | OpecodeKind::OP_XOR
            | OpecodeKind::OP_SRL
            | OpecodeKind::OP_SRA
            | OpecodeKind::OP_OR
            | OpecodeKind::OP_AND
            | OpecodeKind::OP_ADDIW
            | OpecodeKind::OP_SLLIW
            | OpecodeKind::OP_SRLIW
            | OpecodeKind::OP_SRAIW
            | OpecodeKind::OP_ADDW
            | OpecodeKind::OP_SUBW
            | OpecodeKind::OP_SLLW
            | OpecodeKind::OP_SRLW
            | OpecodeKind::OP_SRAW
            | OpecodeKind::OP_CSRRW
            | OpecodeKind::OP_CSRRS
            | OpecodeKind::OP_CSRRC
            | OpecodeKind::OP_CSRRWI
            | OpecodeKind::OP_CSRRSI
            | OpecodeKind::OP_CSRRCI
            | OpecodeKind::OP_SFENCE_VMA
            | OpecodeKind::OP_LR_W
            | OpecodeKind::OP_LR_D
            | OpecodeKind::OP_SC_W
            | OpecodeKind::OP_SC_D
            | OpecodeKind::OP_AMOSWAP_W
            | OpecodeKind::OP_AMOSWAP_D
            | OpecodeKind::OP_AMOADD_W
            | OpecodeKind::OP_AMOADD_D
            | OpecodeKind::OP_AMOXOR_W
            | OpecodeKind::OP_AMOXOR_D
            | OpecodeKind::OP_AMOAND_W
            | OpecodeKind::OP_AMOAND_D
            | OpecodeKind::OP_AMOOR_W
            | OpecodeKind::OP_AMOOR_D
            | OpecodeKind::OP_AMOMIN_W
            | OpecodeKind::OP_AMOMIN_D
            | OpecodeKind::OP_AMOMAX_W
            | OpecodeKind::OP_AMOMAX_D
            | OpecodeKind::OP_AMOMINU_W
            | OpecodeKind::OP_AMOMINU_D
            | OpecodeKind::OP_AMOMAXU_W
            | OpecodeKind::OP_AMOMAXU_D
            | OpecodeKind::OP_C_LW
            | OpecodeKind::OP_C_LD
            | OpecodeKind::OP_C_SW
            | OpecodeKind::OP_C_SD
            | OpecodeKind::OP_C_ADDI
            | OpecodeKind::OP_C_ADDIW
            | OpecodeKind::OP_C_ADDI16SP
            | OpecodeKind::OP_C_SRLI
            | OpecodeKind::OP_C_SRAI
            | OpecodeKind::OP_C_ANDI
            | OpecodeKind::OP_C_SUB
            | OpecodeKind::OP_C_XOR
            | OpecodeKind::OP_C_OR
            | OpecodeKind::OP_C_AND
            | OpecodeKind::OP_C_SUBW
            | OpecodeKind::OP_C_ADDW
            | OpecodeKind::OP_C_BEQZ
            | OpecodeKind::OP_C_BNEZ
            | OpecodeKind::OP_C_SLLI
            | OpecodeKind::OP_C_JR
            | OpecodeKind::OP_C_JALR
            | OpecodeKind::OP_C_ADD => true,
            _ => false,
        }
    }

    /// Whether the encoding has a second source field: a register, or the CSR
    /// address of the CSR instructions.
    pub open spec fn spec_uses_rs2(self) -> bool {
        match self {
            OpecodeKind::OP_BEQ
            | OpecodeKind::OP_BNE
            | OpecodeKind::OP_BLT
            | OpecodeKind::OP_BGE
            | OpecodeKind::OP_BLTU
            | OpecodeKind::OP_BGEU
            | OpecodeKind::OP_SB
            | OpecodeKind::OP_SH
            | OpecodeKind::OP_SW
            | OpecodeKind::OP_SD
            | OpecodeKind::OP_ADD
            | OpecodeKind::OP_SUB
            | OpecodeKind::OP_SLL
            | OpecodeKind::OP_SLT
            | OpecodeKind::OP_SLTU
            | OpecodeKind::OP_XOR
            | OpecodeKind::OP_SRL
            | OpecodeKind::OP_SRA
            | OpecodeKind::OP_OR
            | OpecodeKind::OP_AND
            | OpecodeKind::OP_ADDW
            | OpecodeKind::OP_SUBW
            | OpecodeKind::OP_SLLW
            | OpecodeKind::OP_SRLW
            | OpecodeKind::OP_SRAW
            | OpecodeKind::OP_CSRRW
            | OpecodeKind::OP_CSRRS
            | OpecodeKind::OP_CSRRC
            | OpecodeKind::OP_CSRRWI
            | OpecodeKind::OP_CSRRSI
            | OpecodeKind::OP_CSRRCI
            | OpecodeKind::OP_SFENCE_VMA
            | OpecodeKind::OP_SC_W
            | OpecodeKind::OP_SC_D
            | OpecodeKind::OP_AMOSWAP_W
            | OpecodeKind::OP_AMOSWAP_D
            | OpecodeKind::OP_AMOADD_W
            | OpecodeKind::OP_AMOADD_D
            | OpecodeKind::OP_AMOXOR_W
            | OpecodeKind::OP_AMOXOR_D
            | OpecodeKind::OP_AMOAND_W
            | OpecodeKind::OP_AMOAND_D
            | OpecodeKind::OP_AMOOR_W
            | OpecodeKind::OP_AMOOR_D
            | OpecodeKind::OP_AMOMIN_W
            | OpecodeKind::OP_AMOMIN_D
            | OpecodeKind::OP_AMOMAX_W
            | OpecodeKind::OP_AMOMAX_D
            | OpecodeKind::OP_AMOMINU_W
            | OpecodeKind::OP_AMOMINU_D
            | OpecodeKind::OP_AMOMAXU_W
            | OpecodeKind::OP_AMOMAXU_D
            | OpecodeKind::OP_C_SW
            | OpecodeKind::OP_C_SD
            | OpecodeKind::OP_C_SUB
            | OpecodeKind::OP_C_XOR
            | OpecodeKind::OP_C_OR
            | OpecodeKind::OP_C_AND
            | OpecodeKind::OP_C_SUBW
            | OpecodeKind::OP_C_ADDW
            | OpecodeKind::OP_C_MV
            | OpecodeKind::OP_C_ADD
            | OpecodeKind::OP_C_SWSP
            | OpecodeKind::OP_C_SDSP => true,
            _ => false,
        }
    }

    /// Whether the encoding has a second source field.
    #[verifier::when_used_as_spec(spec_uses_rs2)]
    pub fn uses_rs2(self) -> (r: bool)
        ensures
            r == self.spec_uses_rs2(),
    {
        match self {
            OpecodeKind::OP_BEQ
            | OpecodeKind::OP_BNE
            | OpecodeKind::OP_BLT
            | OpecodeKind::OP_BGE
            | OpecodeKind::OP_BLTU
            | OpecodeKind::OP_BGEU
            | OpecodeKind::OP_SB
            | OpecodeKind::OP_SH
            | OpecodeKind::OP_SW
            | OpecodeKind::OP_SD
            | OpecodeKind::OP_ADD
            | OpecodeKind::OP_SUB
            | OpecodeKind::OP_SLL
            | OpecodeKind::OP_SLT
            | OpecodeKind::OP_SLTU
            | OpecodeKind::OP_XOR
            | OpecodeKind::OP_SRL
            | OpecodeKind::OP_SRA
            | OpecodeKind::OP_OR
            | OpecodeKind::OP_AND
            | OpecodeKind::OP_ADDW
            | OpecodeKind::OP_SUBW
            | OpecodeKind::OP_SLLW
            | OpecodeKind::OP_SRLW
            | OpecodeKind::OP_SRAW
            | OpecodeKind::OP_CSRRW
            | OpecodeKind::OP_CSRRS
            | OpecodeKind::OP_CSRRC
            | OpecodeKind::OP_CSRRWI
            | OpecodeKind::OP_CSRRSI
            | OpecodeKind::OP_CSRRCI
            | OpecodeKind::OP_SFENCE_VMA
            | OpecodeKind::OP_SC_W
            | OpecodeKind::OP_SC_D
            | OpecodeKind::OP_AMOSWAP_W
            | OpecodeKind::OP_AMOSWAP_D
            | OpecodeKind::OP_AMOADD_W
            | OpecodeKind::OP_AMOADD_D
            | OpecodeKind::OP_AMOXOR_W
            | OpecodeKind::OP_AMOXOR_D
            | OpecodeKind::OP_AMOAND_W
            | OpecodeKind::OP_AMOAND_D
            | OpecodeKind::OP_AMOOR_W
            | OpecodeKind::OP_AMOOR_D
            | OpecodeKind::OP_AMOMIN_W
            | OpecodeKind::OP_AMOMIN_D
            | OpecodeKind::OP_AMOMAX_W
            | OpecodeKind::OP_AMOMAX_D
            | OpecodeKind::OP_AMOMINU_W
            | OpecodeKind::OP_AMOMINU_D
            | OpecodeKind::OP_AMOMAXU_W
            | OpecodeKind::OP_AMOMAXU_D
            | OpecodeKind::OP_C_SW
            | OpecodeKind::OP_C_SD
            | OpecodeKind::OP_C_SUB
            | OpecodeKind::OP_C_XOR
            | OpecodeKind::OP_C_OR
            | OpecodeKind::OP_C_AND
            | OpecodeKind::OP_C_SUBW
            | OpecodeKind::OP_C_ADDW
            | OpecodeKind::OP_C_MV
            | OpecodeKind::OP_C_ADD
            | OpecodeKind::OP_C_SWSP
            | OpecodeKind::OP_C_SDSP => true,
            _ => false,
        }
    }

    /// Whether the encoding has an immediate; for the atomics it holds the
    /// acquire and release bits.
    pub open spec fn spec_uses_imm(self) -> bool {
        match self {
            OpecodeKind::OP_LUI
            | OpecodeKind::OP_AUIPC
            | OpecodeKind::OP_JAL
            | OpecodeKind::OP_JALR
            | OpecodeKind::OP_BEQ
            | OpecodeKind::OP_BNE
            | OpecodeKind::OP_BLT
            | OpecodeKind::OP_BGE
            | OpecodeKind::OP_BLTU
            | OpecodeKind::OP_BGEU
            | OpecodeKind::OP_LB
            | OpecodeKind::OP_LH
            | OpecodeKind::OP_LW
            | OpecodeKind::OP_LBU
            | OpecodeKind::OP_LHU
            | OpecodeKind::OP_LWU
            | OpecodeKind::OP_LD
            | OpecodeKind::OP_SB
            | OpecodeKind::OP_SH
            | OpecodeKind::OP_SW
            | OpecodeKind::OP_SD
            | OpecodeKind::OP_ADDI
            | OpecodeKind::OP_SLTI
            | OpecodeKind::OP_SLTIU
            | OpecodeKind::OP_XORI
            | OpecodeKind::OP_ORI
            | OpecodeKind::OP_ANDI
            | OpecodeKind::OP_SLLI
            | OpecodeKind::OP_SRLI
            | OpecodeKind::OP_SRAI
            | OpecodeKind::OP_ADDIW
            | OpecodeKind::OP_SLLIW
            | OpecodeKind::OP_SRLIW
            | OpecodeKind::OP_SRAIW
            | OpecodeKind::OP_LR_W
            | OpecodeKind::OP_LR_D
            | OpecodeKind::OP_SC_W
            | OpecodeKind::OP_SC_D
            | OpecodeKind::OP_AMOSWAP_W
            | OpecodeKind::OP_AMOSWAP_D
            | OpecodeKind::OP_AMOADD_W
            | OpecodeKind::OP_AMOADD_D
            | OpecodeKind::OP_AMOXOR_W
            | OpecodeKind::OP_AMOXOR_D
            | OpecodeKind::OP_AMOAND_W
            | OpecodeKind::OP_AMOAND_D
            | OpecodeKind::OP_AMOOR_W
            | OpecodeKind::OP_AMOOR_D
            | OpecodeKind::OP_AMOMIN_W
            | OpecodeKind::OP_AMOMIN_D
            | OpecodeKind::OP_AMOMAX_W
            | OpecodeKind::OP_AMOMAX_D
            | OpecodeKind::OP_AMOMINU_W
            | OpecodeKind::OP_AMOMINU_D
            | OpecodeKind::OP_AMOMAXU_W
            | OpecodeKind::OP_AMOMAXU_D
            | OpecodeKind::OP_C_ADDI4SPN
            | OpecodeKind::OP_C_LW
            | OpecodeKind::OP_C_LD
            | OpecodeKind::OP_C_SW
            | OpecodeKind::OP_C_SD
            | OpecodeKind::OP_C_NOP
            | OpecodeKind::OP_C_ADDI
            | OpecodeKind::OP_C_JAL
            | OpecodeKind::OP_C_ADDIW
            | OpecodeKind::OP_C_LI
            | OpecodeKind::OP_C_ADDI16SP
            | OpecodeKind::OP_C_LUI
            | OpecodeKind::OP_C_SRLI
            | OpecodeKind::OP_C_SRAI
            | OpecodeKind::OP_C_ANDI
            | OpecodeKind::OP_C_J
            | OpecodeKind::OP_C_BEQZ
            | OpecodeKind::OP_C_BNEZ
            | OpecodeKind::OP_C_SLLI
            | OpecodeKind::OP_C_LWSP
            | OpecodeKind::OP_C_LDSP
            | OpecodeKind::OP_C_SWSP
            | OpecodeKind::OP_C_SDSP => true,
            _ => false,
        }
    }

    /// Whether the encoding has an immediate.
    #[verifier::when_used_as_spec(spec_uses_imm)]
    pub fn uses_imm(self) -> (r: bool)
        ensures
            r == self.spec_uses_imm(),
    {
        match self {
            OpecodeKind::OP_LUI
            | OpecodeKind::OP_AUIPC
            | OpecodeKind::OP_JAL
            | OpecodeKind::OP_JALR
            | OpecodeKind::OP_BEQ
            | OpecodeKind::OP_BNE
            | OpecodeKind::OP_BLT
            | OpecodeKind::OP_BGE
            | OpecodeKind::OP_BLTU
            | OpecodeKind::OP_BGEU
            | OpecodeKind::OP_LB
            | OpecodeKind::OP_LH
            | OpecodeKind::OP_LW
            | OpecodeKind::OP_LBU
            | OpecodeKind::OP_LHU
            | OpecodeKind::OP_LWU
            | OpecodeKind::OP_LD
            | OpecodeKind::OP_SB
            | OpecodeKind::OP_SH
            | OpecodeKind::OP_SW
            | OpecodeKind::OP_SD
            | OpecodeKind::OP_ADDI
            | OpecodeKind::OP_SLTI
            | OpecodeKind::OP_SLTIU
            | OpecodeKind::OP_XORI
            | OpecodeKind::OP_ORI
            | OpecodeKind::OP_ANDI
            | OpecodeKind::OP_SLLI
            | OpecodeKind::OP_SRLI
            | OpecodeKind::OP_SRAI
            | OpecodeKind::OP_ADDIW
            | OpecodeKind::OP_SLLIW
            | OpecodeKind::OP_SRLIW
            | OpecodeKind::OP_SRAIW
            | OpecodeKind::OP_LR_W
            | OpecodeKind::OP_LR_D
            | OpecodeKind::OP_SC_W
            | OpecodeKind::OP_SC_D
            | OpecodeKind::OP_AMOSWAP_W
            | OpecodeKind::OP_AMOSWAP_D
            | OpecodeKind::OP_AMOADD_W
            | OpecodeKind::OP_AMOADD_D
            | OpecodeKind::OP_AMOXOR_W
            | OpecodeKind::OP_AMOXOR_D
            | OpecodeKind::OP_AMOAND_W
            | OpecodeKind::OP_AMOAND_D
            | OpecodeKind::OP_AMOOR_W
            | OpecodeKind::OP_AMOOR_D
            | OpecodeKind::OP_AMOMIN_W
            | OpecodeKind::OP_AMOMIN_D
            | OpecodeKind::OP_AMOMAX_W
            | OpecodeKind::OP_AMOMAX_D
            | OpecodeKind::OP_AMOMINU_W
            | OpecodeKind::OP_AMOMINU_D
            | OpecodeKind::OP_AMOMAXU_W
            | OpecodeKind::OP_AMOMAXU_D
            | OpecodeKind::OP_C_ADDI4SPN
            | OpecodeKind::OP_C_LW
            | OpecodeKind::OP_C_LD
            | OpecodeKind::OP_C_SW
            | OpecodeKind::OP_C_SD
            | OpecodeKind::OP_C_NOP
            | OpecodeKind::OP_C_ADDI
            | OpecodeKind::OP_C_JAL
            | OpecodeKind::OP_C_ADDIW
            | OpecodeKind::OP_C_LI
            | OpecodeKind::OP_C_ADDI16SP
            | OpecodeKind::OP_C_LUI
            | OpecodeKind::OP_C_SRLI
            | OpecodeKind::OP_C_SRAI
            | OpecodeKind::OP_C_ANDI
            | OpecodeKind::OP_C_J
            | OpecodeKind::OP_C_BEQZ
            | OpecodeKind::OP_C_BNEZ
            | OpecodeKind::OP_C_SLLI
            | OpecodeKind::OP_C_LWSP
            | OpecodeKind::OP_C_LDSP
            | OpecodeKind::OP_C_SWSP
            | OpecodeKind::OP_C_SDSP => true,
            _ => false,
        }
    }
}

/// Whether a register field is present and names one of the 32 registers.
pub open spec fn has_reg(field: Option<usize>) -> bool {
    field is Some && field->Some_0 < 32
}

/// A decoded instruction. A field that the instruction's encoding lacks is
/// `None`. Of a CSR instruction, `rs2` holds the CSR's address and `rs1` the
/// source register or, in the immediate forms, the five-bit immediate.
#[derive(Clone, Copy, PartialEq, Eq, Structural, Debug)]
pub struct Instruction {
    pub opc: OpecodeKind,
    pub rd: Option<usize>,
    pub rs1: Option<usize>,
    pub rs2: Option<usize>,
    pub imm: Option<i32>,
    pub is_compressed: bool,
}

impl Instruction {
    /// The record holds exactly the fields of its instruction's encoding, its
    /// register numbers name registers and its CSR address names a CSR.
    pub open spec fn wf(&self) -> bool {
        &&& self.rd is Some <==> self.opc.spec_uses_rd()
        &&& self.rs1 is Some <==> self.opc.spec_uses_rs1()
        &&& self.rs2 is Some <==> self.opc.spec_uses_rs2()
        &&& self.imm is Some <==> self.opc.spec_uses_imm()
        &&& self.rd is Some ==> self.rd->Some_0 < 32
        &&& self.rs1 is Some ==> self.rs1->Some_0 < 32
        &&& self.rs2 is Some ==> self.rs2->Some_0 < (if self.opc.spec_extension()
            == Extensions::Zicsr {
            4096usize
        } else {
            32usize
        })
        &&& self.is_compressed == (self.opc.spec_extension() == Extensions::C)
    }

    /// Whether the offset of a jump or branch is a multiple of two, as the
    /// encodings provide: their offsets have no bit 0.
    pub open spec fn offset_aligned(&self) -> bool {
        match self.opc {
            OpecodeKind::OP_JAL
            | OpecodeKind::OP_BEQ
            | OpecodeKind::OP_BNE
            | OpecodeKind::OP_BLT
            | OpecodeKind::OP_BGE
            | OpecodeKind::OP_BLTU
            | OpecodeKind::OP_BGEU
            | OpecodeKind::OP_C_J
            | OpecodeKind::OP_C_JAL
            | OpecodeKind::OP_C_BEQZ
            | OpecodeKind::OP_C_BNEZ => self.imm is Some ==> self.imm->Some_0 % 2 == 0,
            _ => true,
        }
    }

    /// The extension that defines the instruction.
    pub fn opc_to_extension(&self) -> (r: Extensions)
        ensures
            r == self.opc.spec_extension(),
    {
        self.opc.extension()
    }
}

} // verus!
