//! Decoding of 32-bit encodings.

pub mod a_extension;
pub mod base_i;
pub mod priv_extension;
pub mod zicsr_extension;

use vstd::prelude::*;
use vstd::arithmetic::power2::lemma2_to64;
use crate::cpu::decode::{fold_sign, spec_extension32, spec_illegal, Decode, DecodeUtil};
use crate::cpu::instruction::{Extensions, Instruction, OpecodeKind};
use crate::cpu::trap::Fault;
use crate::Isa;

verus! {

/// The shape of an instruction's immediate in a 32-bit encoding.
#[derive(Clone, Copy, PartialEq, Eq, Structural, Debug)]
pub enum ImmForm {
    /// Bits 31:20, sign-extended.
    I,
    /// Bits 31:25 and 11:7, sign-extended.
    S,
    /// A branch offset: bits 31, 7, 30:25 and 11:8, times two, sign-extended.
    B,
    /// Bits 31:12 in place, the low twelve bits zero.
    U,
    /// A jump offset: bits 31, 19:12, 20 and 30:21, times two, sign-extended.
    J,
    /// A six-bit shift amount, bits 25:20.
    Shamt,
    /// A five-bit shift amount, bits 24:20.
    ShamtW,
    /// The acquire and release bits, 26:25.
    AqRl,
}

/// The immediate form of an instruction with a 32-bit encoding, if it has an
/// immediate.
pub open spec fn spec_imm_form(opc: OpecodeKind) -> Option<ImmForm> {
    match opc {
        OpecodeKind::OP_LUI | OpecodeKind::OP_AUIPC => Some(ImmForm::U),
        OpecodeKind::OP_JAL => Some(ImmForm::J),
        OpecodeKind::OP_JALR
        | OpecodeKind::OP_LB
        | OpecodeKind::OP_LH
        | OpecodeKind::OP_LW
        | OpecodeKind::OP_LBU
        | OpecodeKind::OP_LHU
        | OpecodeKind::OP_LWU
        | OpecodeKind::OP_LD
        | OpecodeKind::OP_ADDI
        | OpecodeKind::OP_SLTI
        | OpecodeKind::OP_SLTIU
        | OpecodeKind::OP_XORI
        | OpecodeKind::OP_ORI
        | OpecodeKind::OP_ANDI
        | OpecodeKind::OP_ADDIW => Some(ImmForm::I),
        OpecodeKind::OP_BEQ
        | OpecodeKind::OP_BNE
        | OpecodeKind::OP_BLT
        | OpecodeKind::OP_BGE
        | OpecodeKind::OP_BLTU
        | OpecodeKind::OP_BGEU => Some(ImmForm::B),
        OpecodeKind::OP_SB | OpecodeKind::OP_SH | OpecodeKind::OP_SW | OpecodeKind::OP_SD => Some(
            ImmForm::S,
        ),
        OpecodeKind::OP_SLLI | OpecodeKind::OP_SRLI | OpecodeKind::OP_SRAI => Some(ImmForm::Shamt),
        OpecodeKind::OP_SLLIW | OpecodeKind::OP_SRLIW | OpecodeKind::OP_SRAIW => Some(
            ImmForm::ShamtW,
        ),
        OpecodeKind::OP_LR_W
        | OpecodeKind::OP_LR_D
        | OpecodeKind::OP_SC_W
        | OpecodeKind::OP_SC_D
        | OpecodeKind::OP_AMOSWAP_W
        | OpecodeKind::OP_AMOSWAP_D
        | OpecodeKind::OP_AMOADD_W
        | OpecodeKind::OP_AMOADD_D
        | OpecodeKind::OP_AMOXOR_W
        | OpecodeKind::OP_AMOXOR_D
        | OpecodeKind::OP_AMOAND_W
        | OpecodeKind::OP_AMOAND_D
        | OpecodeKind::OP_AMOOR_W
        | OpecodeKind::OP_AMOOR_D
        | OpecodeKind::OP_AMOMIN_W
        | OpecodeKind::OP_AMOMIN_D
        | OpecodeKind::OP_AMOMAX_W
        | OpecodeKind::OP_AMOMAX_D
        | OpecodeKind::OP_AMOMINU_W
        | OpecodeKind::OP_AMOMINU_D
        | OpecodeKind::OP_AMOMAXU_W
        | OpecodeKind::OP_AMOMAXU_D => Some(ImmForm::AqRl),
        _ => None,
    }
}

/// The immediate form of an instruction with a 32-bit encoding.
#[verifier::when_used_as_spec(spec_imm_form)]
pub fn imm_form(opc: OpecodeKind) -> (r: Option<ImmForm>)
    ensures
        r == spec_imm_form(opc),
        r is Some <==> opc.spec_uses_imm() && opc.spec_extension() != Extensions::C,
{
    match opc {
        OpecodeKind::OP_LUI | OpecodeKind::OP_AUIPC => Some(ImmForm::U),
        OpecodeKind::OP_JAL => Some(ImmForm::J),
        OpecodeKind::OP_JALR
        | OpecodeKind::OP_LB
        | OpecodeKind::OP_LH
        | OpecodeKind::OP_LW
        | OpecodeKind::OP_LBU
        | OpecodeKind::OP_LHU
        | OpecodeKind::OP_LWU
        | OpecodeKind::OP_LD
        | OpecodeKind::OP_ADDI
        | OpecodeKind::OP_SLTI
        | OpecodeKind::OP_SLTIU
        | OpecodeKind::OP_XORI
        | OpecodeKind::OP_ORI
        | OpecodeKind::OP_ANDI
        | OpecodeKind::OP_ADDIW => Some(ImmForm::I),
        OpecodeKind::OP_BEQ
        | OpecodeKind::OP_BNE
        | OpecodeKind::OP_BLT
        | OpecodeKind::OP_BGE
        | OpecodeKind::OP_BLTU
        | OpecodeKind::OP_BGEU => Some(ImmForm::B),
        OpecodeKind::OP_SB | OpecodeKind::OP_SH | OpecodeKind::OP_SW | OpecodeKind::OP_SD => Some(
            ImmForm::S,
        ),
        OpecodeKind::OP_SLLI | OpecodeKind::OP_SRLI | OpecodeKind::OP_SRAI => Some(ImmForm::Shamt),
        OpecodeKind::OP_SLLIW | OpecodeKind::OP_SRLIW | OpecodeKind::OP_SRAIW => Some(
            ImmForm::ShamtW,
        ),
        OpecodeKind::OP_LR_W
        | OpecodeKind::OP_LR_D
        | OpecodeKind::OP_SC_W
        | OpecodeKind::OP_SC_D
        | OpecodeKind::OP_AMOSWAP_W
        | OpecodeKind::OP_AMOSWAP_D
        | OpecodeKind::OP_AMOADD_W
        | OpecodeKind::OP_AMOADD_D
        | OpecodeKind::OP_AMOXOR_W
        | OpecodeKind::OP_AMOXOR_D
        | OpecodeKind::OP_AMOAND_W
        | OpecodeKind::OP_AMOAND_D
        | OpecodeKind::OP_AMOOR_W
        | OpecodeKind::OP_AMOOR_D
        | OpecodeKind::OP_AMOMIN_W
        | OpecodeKind::OP_AMOMIN_D
        | OpecodeKind::OP_AMOMAX_W
        | OpecodeKind::OP_AMOMAX_D
        | OpecodeKind::OP_AMOMINU_W
        | OpecodeKind::OP_AMOMINU_D
        | OpecodeKind::OP_AMOMAXU_W
        | OpecodeKind::OP_AMOMAXU_D => Some(ImmForm::AqRl),
        _ => None,
    }
}

/// The immediate of form `form` that a 32-bit encoding holds.
pub open spec fn spec_imm_value(inst: u32, form: ImmForm) -> int {
    match form {
        ImmForm::I => fold_sign(inst as int / 0x10_0000, 0x1000),
        ImmForm::S => fold_sign((inst as int / 0x200_0000) * 0x20 + (inst as int / 0x80) % 0x20, 0x1000),
        ImmForm::B => fold_sign(
            (inst as int / 0x8000_0000) * 0x1000 + ((inst as int / 0x80) % 2) * 0x800 + ((inst as int
                / 0x200_0000) % 0x40) * 0x20 + ((inst as int / 0x100) % 0x10) * 2,
            0x2000,
        ),
        ImmForm::U => fold_sign((inst as int / 0x1000) * 0x1000, 0x1_0000_0000),
        ImmForm::J => fold_sign(
            (inst as int / 0x8000_0000) * 0x10_0000 + ((inst as int / 0x1000) % 0x100) * 0x1000 + ((
            inst as int / 0x10_0000) % 2) * 0x800 + ((inst as int / 0x20_0000) % 0x400) * 2,
            0x20_0000,
        ),
        ImmForm::Shamt => (inst as int / 0x10_0000) % 0x40,
        ImmForm::ShamtW => (inst as int / 0x10_0000) % 0x20,
        ImmForm::AqRl => (inst as int / 0x200_0000) % 4,
    }
}

/// The destination register of a 32-bit encoding: bits 11:7, where the
/// instruction has one.
pub open spec fn spec_rd32(inst: u32, opc: OpecodeKind) -> Option<usize> {
    if opc.spec_uses_rd() && opc.spec_extension() != Extensions::C {
        Some(((inst / 0x80) % 32) as usize)
    } else {
        None
    }
}

/// The first source field of a 32-bit encoding: bits 19:15, where the
/// instruction has one.
pub open spec fn spec_rs1_32(inst: u32, opc: OpecodeKind) -> Option<usize> {
    if opc.spec_uses_rs1() && opc.spec_extension() != Extensions::C {
        Some(((inst / 0x8000) % 32) as usize)
    } else {
        None
    }
}

/// The second source field of a 32-bit encoding, where the instruction has
/// one: bits 24:20, or for a CSR instruction the CSR address, bits 31:20.
pub open spec fn spec_rs2_32(inst: u32, opc: OpecodeKind) -> Option<usize> {
    if opc.spec_uses_rs2() && opc.spec_extension() != Extensions::C {
        if opc.spec_extension() == Extensions::Zicsr {
            Some((inst / 0x10_0000) as usize)
        } else {
            Some(((inst / 0x10_0000) % 32) as usize)
        }
    } else {
        None
    }
}

/// The immediate of a 32-bit encoding, where the instruction has one.
pub open spec fn spec_imm32(inst: u32, opc: OpecodeKind) -> Option<i32> {
    match spec_imm_form(opc) {
        Some(form) => Some(spec_imm_value(inst, form) as i32),
        None => None,
    }
}

/// The instruction that a 32-bit encoding names, looked up in the table of
/// the extension that its major opcode selects.
pub open spec fn spec_opecode32(inst: u32, isa: Isa) -> Option<OpecodeKind> {
    match spec_extension32(inst) {
        Extensions::A => a_extension::spec_opecode(inst, isa),
        Extensions::Zicsr => zicsr_extension::spec_opecode(inst, isa),
        Extensions::Priv => priv_extension::spec_opecode(inst, isa),
        _ => base_i::spec_opecode(inst, isa),
    }
}

fn parse_rd_common(inst: u32, opkind: &OpecodeKind) -> (r: Option<usize>)
    ensures
        r == spec_rd32(inst, *opkind),
        r is Some ==> r->Some_0 < 32,
{
    proof {
        lemma2_to64();
    }
    let rd: u32 = inst.slice(11, 7);
    assert(rd == (inst / 0x80) % 0x20);
    if opkind.uses_rd() && opkind.extension() != Extensions::C {
        Some(rd as usize)
    } else {
        None
    }
}

fn parse_rs1_common(inst: u32, opkind: &OpecodeKind) -> (r: Option<usize>)
    ensures
        r == spec_rs1_32(inst, *opkind),
        r is Some ==> r->Some_0 < 32,
{
    proof {
        lemma2_to64();
    }
    let rs1: u32 = inst.slice(19, 15);
    assert(rs1 == (inst / 0x8000) % 0x20);
    if opkind.uses_rs1() && opkind.extension() != Extensions::C {
        Some(rs1 as usize)
    } else {
        None
    }
}

fn parse_rs2_common(inst: u32, opkind: &OpecodeKind) -> (r: Option<usize>)
    ensures
        r == spec_rs2_32(inst, *opkind),
        r is Some ==> r->Some_0 < (if opkind.spec_extension() == Extensions::Zicsr {
            4096usize
        } else {
            32usize
        }),
{
    proof {
        lemma2_to64();
    }
    let csr: u32 = inst.slice(31, 20);
    assert(csr == (inst / 0x100000) % 0x1000);
    assert(csr == inst / 0x100000);
    let rs2: u32 = inst.slice(24, 20);
    assert(rs2 == (inst / 0x100000) % 0x20);
    if opkind.uses_rs2() && opkind.extension() != Extensions::C {
        if opkind.extension() == Extensions::Zicsr {
            Some(csr as usize)
        } else {
            Some(rs2 as usize)
        }
    } else {
        None
    }
}

fn parse_imm_common(inst: u32, opkind: &OpecodeKind) -> (r: Option<i32>)
    ensures
        r == spec_imm32(inst, *opkind),
{
    proof {
        lemma2_to64();
    }
    match imm_form(*opkind) {
        Some(ImmForm::I) => {
            let v: u32 = inst.slice(31, 20);
            assert(v == (inst / 0x100000) % 0x1000);
            assert(v == inst / 0x100000);
            Some(inst.to_signed_nbit(v as i32, 12))
        },
        Some(ImmForm::S) => {
            let hi: u32 = inst.slice(31, 25);
            assert(hi == (inst / 0x2000000) % 0x80);
            assert(hi == inst / 0x2000000);
            let lo: u32 = inst.slice(11, 7);
            assert(lo == (inst / 0x80) % 0x20);
            let v: u32 = hi * 0x20 + lo;
            Some(inst.to_signed_nbit(v as i32, 12))
        },
        Some(ImmForm::B) => {
            let b12: u32 = inst.slice(31, 31);
            assert(b12 == (inst / 0x80000000) % 0x2);
            assert(b12 == inst / 0x80000000);
            let b11: u32 = inst.slice(7, 7);
            assert(b11 == (inst / 0x80) % 0x2);
            let hi: u32 = inst.slice(30, 25);
            assert(hi == (inst / 0x2000000) % 0x40);
            let lo: u32 = inst.slice(11, 8);
            assert(lo == (inst / 0x100) % 0x10);
            let v: u32 = b12 * 0x1000 + b11 * 0x800 + hi * 0x20 + lo * 2;
            Some(inst.to_signed_nbit(v as i32, 13))
        },
        Some(ImmForm::U) => {
            let hi: u32 = inst.slice(31, 12);
            assert(hi == (inst / 0x1000) % 0x100000);
            assert(hi == inst / 0x1000);
            let v: u32 = hi * 0x1000;
            if v >= 0x8000_0000 {
                Some((v as i64 - 0x1_0000_0000) as i32)
            } else {
                Some(v as i32)
            }
        },
        Some(ImmForm::J) => {
            let b20: u32 = inst.slice(31, 31);
            assert(b20 == (inst / 0x80000000) % 0x2);
            assert(b20 == inst / 0x80000000);
            let b19: u32 = inst.slice(19, 12);
            assert(b19 == (inst / 0x1000) % 0x100);
            let b11: u32 = inst.slice(20, 20);
            assert(b11 == (inst / 0x100000) % 0x2);
            let lo: u32 = inst.slice(30, 21);
            assert(lo == (inst / 0x200000) % 0x400);
            let v: u32 = b20 * 0x10_0000 + b19 * 0x1000 + b11 * 0x800 + lo * 2;
            Some(inst.to_signed_nbit(v as i32, 21))
        },
        Some(ImmForm::Shamt) => {
            let v: u32 = inst.slice(25, 20);
            assert(v == (inst / 0x100000) % 0x40);
            Some(v as i32)
        },
        Some(ImmForm::ShamtW) => {
            let v: u32 = inst.slice(24, 20);
            assert(v == (inst / 0x100000) % 0x20);
            Some(v as i32)
        },
        Some(ImmForm::AqRl) => {
            let v: u32 = inst.slice(26, 25);
            assert(v == (inst / 0x2000000) % 0x4);
            Some(v as i32)
        },
        None => None,
    }
}

impl Decode for u32 {
    open spec fn opecode_spec(self, isa: Isa) -> Result<OpecodeKind, Fault> {
        match spec_opecode32(self, isa) {
            Some(opc) => Ok(opc),
            None => Err(spec_illegal(self as u64)),
        }
    }

    open spec fn rd_spec(self, opkind: OpecodeKind) -> Option<usize> {
        spec_rd32(self, opkind)
    }

    open spec fn rs1_spec(self, opkind: OpecodeKind) -> Option<usize> {
        spec_rs1_32(self, opkind)
    }

    open spec fn rs2_spec(self, opkind: OpecodeKind) -> Option<usize> {
        spec_rs2_32(self, opkind)
    }

    open spec fn imm_spec(self, opkind: OpecodeKind) -> Option<i32> {
        spec_imm32(self, opkind)
    }

    open spec fn compressed(self) -> bool {
        false
    }

    fn decode(&self, isa: Isa) -> (r: Result<Instruction, Fault>) {
        let new_opc: OpecodeKind = match self.parse_opecode(isa) {
            Ok(opc) => opc,
            Err(e) => { return Err(e); },
        };
        let new_rd = parse_rd_common(*self, &new_opc);
        let new_rs1 = parse_rs1_common(*self, &new_opc);
        let new_rs2 = parse_rs2_common(*self, &new_opc);
        let new_imm = parse_imm_common(*self, &new_opc);

        Ok(
            Instruction {
                opc: new_opc,
                rd: new_rd,
                rs1: new_rs1,
                rs2: new_rs2,
                imm: new_imm,
                is_compressed: false,
            },
        )
    }

    fn parse_opecode(self, isa: Isa) -> (r: Result<OpecodeKind, Fault>)
        ensures
            r is Ok ==> r->Ok_0.spec_extension() != Extensions::C,
    {
        match self.extension() {
            Extensions::A => a_extension::parse_opecode(self, isa),
            Extensions::Zicsr => zicsr_extension::parse_opecode(self, isa),
            Extensions::Priv => priv_extension::parse_opecode(self, isa),
            _ => base_i::parse_opecode(self, isa),
        }
    }

    fn parse_rd(self, opkind: &OpecodeKind) -> (r: Result<Option<usize>, Fault>) {
        match opkind.extension() {
            Extensions::A => Ok(a_extension::parse_rd(self, opkind)),
            Extensions::Zicsr => zicsr_extension::parse_rd(self, opkind),
            Extensions::Priv => priv_extension::parse_rd(self, opkind),
            _ => base_i::parse_rd(self, opkind),
        }
    }

    fn parse_rs1(self, opkind: &OpecodeKind) -> (r: Result<Option<usize>, Fault>) {
        match opkind.extension() {
            Extensions::A => Ok(a_extension::parse_rs1(self, opkind)),
            Extensions::Zicsr => zicsr_extension::parse_rs1(self, opkind),
            Extensions::Priv => priv_extension::parse_rs1(self, opkind),
            _ => base_i::parse_rs1(self, opkind),
        }
    }

    fn parse_rs2(self, opkind: &OpecodeKind) -> (r: Result<Option<usize>, Fault>) {
        match opkind.extension() {
            Extensions::A => Ok(a_extension::parse_rs2(self, opkind)),
            Extensions::Zicsr => zicsr_extension::parse_rs2(self, opkind),
            Extensions::Priv => priv_extension::parse_rs2(self, opkind),
            _ => base_i::parse_rs2(self, opkind),
        }
    }

    fn parse_imm(self, opkind: &OpecodeKind) -> (r: Result<Option<i32>, Fault>) {
        match opkind.extension() {
            Extensions::A => Ok(a_extension::parse_imm(self, opkind)),
            Extensions::Zicsr => zicsr_extension::parse_imm(self, opkind),
            Extensions::Priv => priv_extension::parse_imm(self, opkind),
            _ => base_i::parse_imm(self, opkind),
        }
    }
}

} // verus!
