//! Execution of the compressed instructions: each one does what the base
//! instruction it abbreviates does, and is two bytes long.

use vstd::prelude::*;
use crate::cpu::breakpoint::spec_trigger_supported;
use crate::cpu::execution::inst_32::base_i;
use crate::cpu::execution::Step;
use crate::cpu::instruction::{Extensions, Instruction, OpecodeKind};
use crate::cpu::trap::Fault;
use crate::cpu::{CpuView, CPU};

verus! {

/// Number of the stack pointer register.
pub const REG_SP: usize = 2;

/// Number of the link register.
pub const REG_LINK: usize = 1;

/// Length of a compressed encoding in bytes.
pub const INST_SIZE: u64 = 2;

/// The base instruction that a compressed instruction abbreviates. The
/// stack-relative forms use `x2` as base register, the compressed jumps with
/// link write to `x1`, `c.li` and `c.mv` add to `x0`, the compressed
/// branches compare with `x0`, and the register jumps have offset 0.
pub open spec fn spec_expand(inst: Instruction) -> Instruction {
    match inst.opc {
        OpecodeKind::OP_C_ADDI4SPN => Instruction {
            opc: OpecodeKind::OP_ADDI,
            rd: inst.rd,
            rs1: Some(REG_SP),
            rs2: None,
            imm: inst.imm,
            is_compressed: false,
        },
        OpecodeKind::OP_C_LW => Instruction {
            opc: OpecodeKind::OP_LW,
            rd: inst.rd,
            rs1: inst.rs1,
            rs2: None,
            imm: inst.imm,
            is_compressed: false,
        },
        OpecodeKind::OP_C_LD => Instruction {
            opc: OpecodeKind::OP_LD,
            rd: inst.rd,
            rs1: inst.rs1,
            rs2: None,
            imm: inst.imm,
            is_compressed: false,
        },
        OpecodeKind::OP_C_SW => Instruction {
            opc: OpecodeKind::OP_SW,
            rd: None,
            rs1: inst.rs1,
            rs2: inst.rs2,
            imm: inst.imm,
            is_compressed: false,
        },
        OpecodeKind::OP_C_SD => Instruction {
            opc: OpecodeKind::OP_SD,
            rd: None,
            rs1: inst.rs1,
            rs2: inst.rs2,
            imm: inst.imm,
            is_compressed: false,
        },
        OpecodeKind::OP_C_NOP => Instruction {
            opc: OpecodeKind::OP_ADDI,
            rd: Some(0),
            rs1: Some(0),
            rs2: None,
            imm: inst.imm,
            is_compressed: false,
        },
        OpecodeKind::OP_C_ADDI => Instruction {
            opc: OpecodeKind::OP_ADDI,
            rd: inst.rd,
            rs1: inst.rs1,
            rs2: None,
            imm: inst.imm,
            is_compressed: false,
        },
        OpecodeKind::OP_C_JAL => Instruction {
            opc: OpecodeKind::OP_JAL,
            rd: Some(REG_LINK),
            rs1: None,
            rs2: None,
            imm: inst.imm,
            is_compressed: false,
        },
        OpecodeKind::OP_C_ADDIW => Instruction {
            opc: OpecodeKind::OP_ADDIW,
            rd: inst.rd,
            rs1: inst.rs1,
            rs2: None,
            imm: inst.imm,
            is_compressed: false,
        },
        OpecodeKind::OP_C_LI => Instruction {
            opc: OpecodeKind::OP_ADDI,
            rd: inst.rd,
            rs1: Some(0),
            rs2: None,
            imm: inst.imm,
            is_compressed: false,
        },
        OpecodeKind::OP_C_ADDI16SP => Instruction {
            opc: OpecodeKind::OP_ADDI,
            rd: Some(REG_SP),
            rs1: Some(REG_SP),
            rs2: None,
            imm: inst.imm,
            is_compressed: false,
        },
        OpecodeKind::OP_C_LUI => Instruction {
            opc: OpecodeKind::OP_LUI,
            rd: inst.rd,
            rs1: None,
            rs2: None,
            imm: inst.imm,
            is_compressed: false,
        },
        OpecodeKind::OP_C_SRLI => Instruction {
            opc: OpecodeKind::OP_SRLI,
            rd: inst.rd,
            rs1: inst.rs1,
            rs2: None,
            imm: inst.imm,
            is_compressed: false,
        },
        OpecodeKind::OP_C_SRAI => Instruction {
            opc: OpecodeKind::OP_SRAI,
            rd: inst.rd,
            rs1: inst.rs1,
            rs2: None,
            imm: inst.imm,
            is_compressed: false,
        },
        OpecodeKind::OP_C_ANDI => Instruction {
            opc: OpecodeKind::OP_ANDI,
            rd: inst.rd,
            rs1: inst.rs1,
            rs2: None,
            imm: inst.imm,
            is_compressed: false,
        },
        OpecodeKind::OP_C_SUB => Instruction {
            opc: OpecodeKind::OP_SUB,
            rd: inst.rd,
            rs1: inst.rs1,
            rs2: inst.rs2,
            imm: None,
            is_compressed: false,
        },
        OpecodeKind::OP_C_XOR => Instruction {
            opc: OpecodeKind::OP_XOR,
            rd: inst.rd,
            rs1: inst.rs1,
            rs2: inst.rs2,
            imm: None,
            is_compressed: false,
        },
        OpecodeKind::OP_C_OR => Instruction {
            opc: OpecodeKind::OP_OR,
            rd: inst.rd,
            rs1: inst.rs1,
            rs2: inst.rs2,
            imm: None,
            is_compressed: false,
        },
        OpecodeKind::OP_C_AND => Instruction {
            opc: OpecodeKind::OP_AND,
            rd: inst.rd,
            rs1: inst.rs1,
            rs2: inst.rs2,
            imm: None,
            is_compressed: false,
        },
        OpecodeKind::OP_C_SUBW => Instruction {
            opc: OpecodeKind::OP_SUBW,
            rd: inst.rd,
            rs1: inst.rs1,
            rs2: inst.rs2,
            imm: None,
            is_compressed: false,
        },
        OpecodeKind::OP_C_ADDW => Instruction {
            opc: OpecodeKind::OP_ADDW,
            rd: inst.rd,
            rs1: inst.rs1,
            rs2: inst.rs2,
            imm: None,
            is_compressed: false,
        },
        OpecodeKind::OP_C_J => Instruction {
            opc: OpecodeKind::OP_JAL,
            rd: Some(0),
            rs1: None,
            rs2: None,
            imm: inst.imm,
            is_compressed: false,
        },
        OpecodeKind::OP_C_BEQZ => Instruction {
            opc: OpecodeKind::OP_BEQ,
            rd: None,
            rs1: inst.rs1,
            rs2: Some(0),
            imm: inst.imm,
            is_compressed: false,
        },
        OpecodeKind::OP_C_BNEZ => Instruction {
            opc: OpecodeKind::OP_BNE,
            rd: None,
            rs1: inst.rs1,
            rs2: Some(0),
            imm: inst.imm,
            is_compressed: false,
        },
        OpecodeKind::OP_C_SLLI => Instruction {
            opc: OpecodeKind::OP_SLLI,
            rd: inst.rd,
            rs1: inst.rs1,
            rs2: None,
            imm: inst.imm,
            is_compressed: false,
        },
        OpecodeKind::OP_C_LWSP => Instruction {
            opc: OpecodeKind::OP_LW,
            rd: inst.rd,
            rs1: Some(REG_SP),
            rs2: None,
            imm: inst.imm,
            is_compressed: false,
        },
        OpecodeKind::OP_C_LDSP => Instruction {
            opc: OpecodeKind::OP_LD,
            rd: inst.rd,
            rs1: Some(REG_SP),
            rs2: None,
            imm: inst.imm,
            is_compressed: false,
        },
        OpecodeKind::OP_C_JR => Instruction {
            opc: OpecodeKind::OP_JALR,
            rd: Some(0),
            rs1: inst.rs1,
            rs2: None,
            imm: Some(0),
            is_compressed: false,
        },
        OpecodeKind::OP_C_MV => Instruction {
            opc: OpecodeKind::OP_ADD,
            rd: inst.rd,
            rs1: Some(0),
            rs2: inst.rs2,
            imm: None,
            is_compressed: false,
        },
        OpecodeKind::OP_C_EBREAK => Instruction {
            opc: OpecodeKind::OP_EBREAK,
            rd: None,
            rs1: None,
            rs2: None,
            imm: None,
            is_compressed: false,
        },
        OpecodeKind::OP_C_JALR => Instruction {
            opc: OpecodeKind::OP_JALR,
            rd: Some(REG_LINK),
            rs1: inst.rs1,
            rs2: None,
            imm: Some(0),
            is_compressed: false,
        },
        OpecodeKind::OP_C_ADD => Instruction {
            opc: OpecodeKind::OP_ADD,
            rd: inst.rd,
            rs1: inst.rs1,
            rs2: inst.rs2,
            imm: None,
            is_compressed: false,
        },
        OpecodeKind::OP_C_SWSP => Instruction {
            opc: OpecodeKind::OP_SW,
            rd: None,
            rs1: Some(REG_SP),
            rs2: inst.rs2,
            imm: inst.imm,
            is_compressed: false,
        },
        OpecodeKind::OP_C_SDSP => Instruction {
            opc: OpecodeKind::OP_SD,
            rd: None,
            rs1: Some(REG_SP),
            rs2: inst.rs2,
            imm: inst.imm,
            is_compressed: false,
        },
        _ => inst,
    }
}

/// Expands a compressed instruction.
pub fn expand(inst: &Instruction) -> (r: Instruction)
    requires
        inst.wf(),
        inst.opc.spec_extension() == Extensions::C,
    ensures
        r == spec_expand(*inst),
        base_i::operands_ok(r),
{
    match inst.opc {
        OpecodeKind::OP_C_ADDI4SPN => Instruction {
            opc: OpecodeKind::OP_ADDI,
            rd: inst.rd,
            rs1: Some(REG_SP),
            rs2: None,
            imm: inst.imm,
            is_compressed: false,
        },
        OpecodeKind::OP_C_LW => Instruction {
            opc: OpecodeKind::OP_LW,
            rd: inst.rd,
            rs1: inst.rs1,
            rs2: None,
            imm: inst.imm,
            is_compressed: false,
        },
        OpecodeKind::OP_C_LD => Instruction {
            opc: OpecodeKind::OP_LD,
            rd: inst.rd,
            rs1: inst.rs1,
            rs2: None,
            imm: inst.imm,
            is_compressed: false,
        },
        OpecodeKind::OP_C_SW => Instruction {
            opc: OpecodeKind::OP_SW,
            rd: None,
            rs1: inst.rs1,
            rs2: inst.rs2,
            imm: inst.imm,
            is_compressed: false,
        },
        OpecodeKind::OP_C_SD => Instruction {
            opc: OpecodeKind::OP_SD,
            rd: None,
            rs1: inst.rs1,
            rs2: inst.rs2,
            imm: inst.imm,
            is_compressed: false,
        },
        OpecodeKind::OP_C_NOP => Instruction {
            opc: OpecodeKind::OP_ADDI,
            rd: Some(0),
            rs1: Some(0),
            rs2: None,
            imm: inst.imm,
            is_compressed: false,
        },
        OpecodeKind::OP_C_ADDI => Instruction {
            opc: OpecodeKind::OP_ADDI,
            rd: inst.rd,
            rs1: inst.rs1,
            rs2: None,
            imm: inst.imm,
            is_compressed: false,
        },
        OpecodeKind::OP_C_JAL => Instruction {
            opc: OpecodeKind::OP_JAL,
            rd: Some(REG_LINK),
            rs1: None,
            rs2: None,
            imm: inst.imm,
            is_compressed: false,
        },
        OpecodeKind::OP_C_ADDIW => Instruction {
            opc: OpecodeKind::OP_ADDIW,
            rd: inst.rd,
            rs1: inst.rs1,
            rs2: None,
            imm: inst.imm,
            is_compressed: false,
        },
        OpecodeKind::OP_C_LI => Instruction {
            opc: OpecodeKind::OP_ADDI,
            rd: inst.rd,
            rs1: Some(0),
            rs2: None,
            imm: inst.imm,
            is_compressed: false,
        },
        OpecodeKind::OP_C_ADDI16SP => Instruction {
            opc: OpecodeKind::OP_ADDI,
            rd: Some(REG_SP),
            rs1: Some(REG_SP),
            rs2: None,
            imm: inst.imm,
            is_compressed: false,
        },
        OpecodeKind::OP_C_LUI => Instruction {
            opc: OpecodeKind::OP_LUI,
            rd: inst.rd,
            rs1: None,
            rs2: None,
            imm: inst.imm,
            is_compressed: false,
        },
        OpecodeKind::OP_C_SRLI => Instruction {
            opc: OpecodeKind::OP_SRLI,
            rd: inst.rd,
            rs1: inst.rs1,
            rs2: None,
            imm: inst.imm,
            is_compressed: false,
        },
        OpecodeKind::OP_C_SRAI => Instruction {
            opc: OpecodeKind::OP_SRAI,
            rd: inst.rd,
            rs1: inst.rs1,
            rs2: None,
            imm: inst.imm,
            is_compressed: false,
        },
        OpecodeKind::OP_C_ANDI => Instruction {
            opc: OpecodeKind::OP_ANDI,
            rd: inst.rd,
            rs1: inst.rs1,
            rs2: None,
            imm: inst.imm,
            is_compressed: false,
        },
        OpecodeKind::OP_C_SUB => Instruction {
            opc: OpecodeKind::OP_SUB,
            rd: inst.rd,
            rs1: inst.rs1,
            rs2: inst.rs2,
            imm: None,
            is_compressed: false,
        },
        OpecodeKind::OP_C_XOR => Instruction {
            opc: OpecodeKind::OP_XOR,
            rd: inst.rd,
            rs1: inst.rs1,
            rs2: inst.rs2,
            imm: None,
            is_compressed: false,
        },
        OpecodeKind::OP_C_OR => Instruction {
            opc: OpecodeKind::OP_OR,
            rd: inst.rd,
            rs1: inst.rs1,
            rs2: inst.rs2,
            imm: None,
            is_compressed: false,
        },
        OpecodeKind::OP_C_AND => Instruction {
            opc: OpecodeKind::OP_AND,
            rd: inst.rd,
            rs1: inst.rs1,
            rs2: inst.rs2,
            imm: None,
            is_compressed: false,
        },
        OpecodeKind::OP_C_SUBW => Instruction {
            opc: OpecodeKind::OP_SUBW,
            rd: inst.rd,
            rs1: inst.rs1,
            rs2: inst.rs2,
            imm: None,
            is_compressed: false,
        },
        OpecodeKind::OP_C_ADDW => Instruction {
            opc: OpecodeKind::OP_ADDW,
            rd: inst.rd,
            rs1: inst.rs1,
            rs2: inst.rs2,
            imm: None,
            is_compressed: false,
        },
        OpecodeKind::OP_C_J => Instruction {
            opc: OpecodeKind::OP_JAL,
            rd: Some(0),
            rs1: None,
            rs2: None,
            imm: inst.imm,
            is_compressed: false,
        },
        OpecodeKind::OP_C_BEQZ => Instruction {
            opc: OpecodeKind::OP_BEQ,
            rd: None,
            rs1: inst.rs1,
            rs2: Some(0),
            imm: inst.imm,
            is_compressed: false,
        },
        OpecodeKind::OP_C_BNEZ => Instruction {
            opc: OpecodeKind::OP_BNE,
            rd: None,
            rs1: inst.rs1,
            rs2: Some(0),
            imm: inst.imm,
            is_compressed: false,
        },
        OpecodeKind::OP_C_SLLI => Instruction {
            opc: OpecodeKind::OP_SLLI,
            rd: inst.rd,
            rs1: inst.rs1,
            rs2: None,
            imm: inst.imm,
            is_compressed: false,
        },
        OpecodeKind::OP_C_LWSP => Instruction {
            opc: OpecodeKind::OP_LW,
            rd: inst.rd,
            rs1: Some(REG_SP),
            rs2: None,
            imm: inst.imm,
            is_compressed: false,
        },
        OpecodeKind::OP_C_LDSP => Instruction {
            opc: OpecodeKind::OP_LD,
            rd: inst.rd,
            rs1: Some(REG_SP),
            rs2: None,
            imm: inst.imm,
            is_compressed: false,
        },
        OpecodeKind::OP_C_JR => Instruction {
            opc: OpecodeKind::OP_JALR,
            rd: Some(0),
            rs1: inst.rs1,
            rs2: None,
            imm: Some(0),
            is_compressed: false,
        },
        OpecodeKind::OP_C_MV => Instruction {
            opc: OpecodeKind::OP_ADD,
            rd: inst.rd,
            rs1: Some(0),
            rs2: inst.rs2,
            imm: None,
            is_compressed: false,
        },
        OpecodeKind::OP_C_EBREAK => Instruction {
            opc: OpecodeKind::OP_EBREAK,
            rd: None,
            rs1: None,
            rs2: None,
            imm: None,
            is_compressed: false,
        },
        OpecodeKind::OP_C_JALR => Instruction {
            opc: OpecodeKind::OP_JALR,
            rd: Some(REG_LINK),
            rs1: inst.rs1,
            rs2: None,
            imm: Some(0),
            is_compressed: false,
        },
        OpecodeKind::OP_C_ADD => Instruction {
            opc: OpecodeKind::OP_ADD,
            rd: inst.rd,
            rs1: inst.rs1,
            rs2: inst.rs2,
            imm: None,
            is_compressed: false,
        },
        OpecodeKind::OP_C_SWSP => Instruction {
            opc: OpecodeKind::OP_SW,
            rd: None,
            rs1: Some(REG_SP),
            rs2: inst.rs2,
            imm: inst.imm,
            is_compressed: false,
        },
        OpecodeKind::OP_C_SDSP => Instruction {
            opc: OpecodeKind::OP_SD,
            rd: None,
            rs1: Some(REG_SP),
            rs2: inst.rs2,
            imm: inst.imm,
            is_compressed: false,
        },
        _ => *inst,
    }
}

/// What a compressed instruction does to the hart.
pub open spec fn spec_exec(s: CpuView, inst: Instruction) -> Step {
    base_i::spec_exec(s, spec_expand(inst), 2)
}

/// Executes a compressed instruction.
pub fn exec(inst: &Instruction, cpu: &mut CPU) -> (r: Result<(), Fault>)
    requires
        old(cpu).wf(),
        inst.wf(),
        inst.opc.spec_extension() == Extensions::C,
        spec_trigger_supported(old(cpu).csrs@, old(cpu).priv_lv),
    ensures
        final(cpu).wf(),
        final(cpu)@ == spec_exec(old(cpu)@, *inst).state,
        r == spec_exec(old(cpu)@, *inst).result,
        old(cpu)@.pc % 2 == 0 && inst.offset_aligned() ==> final(cpu)@.pc % 2 == 0,
        final(cpu)@.regs[0] == 0,
        r is Err ==> final(cpu)@.regs == old(cpu)@.regs && final(cpu)@.pc == old(cpu)@.pc,
{
    let base = expand(inst);
    base_i::exec(&base, cpu, INST_SIZE)
}

} // verus!
