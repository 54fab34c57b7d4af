//! Execution of the base integer instructions.

use vstd::prelude::*;
use crate::bits::{imm_to_word, less_than_signed, low32, sext32, shift_right_arith, sign_extend32,
    signed32, signed64, sra64, truncate32, wrap64};
use crate::cpu::breakpoint::spec_trigger_supported;
use crate::cpu::execution::{address_at, even_target, raise, retire, retire_rd,
    spec_clear_low_bit, spec_next_pc, spec_release, spec_target, target, Step};
use crate::cpu::fetch::{spec_access, spec_after_load};
use crate::cpu::instruction::{has_reg, Instruction, OpecodeKind};
use crate::cpu::reg::{fix2regsz, reg_write, spec_fix2regsz};
use crate::cpu::trap::{Fault, TransAlign, TransFor, TrapCause};
use crate::cpu::{CpuView, PrivilegedLevel, CPU};
use crate::Isa;

verus! {

/// The kinds of base instruction, by what they do to the hart.
#[derive(Clone, Copy, PartialEq, Eq, Structural, Debug)]
pub enum BaseClass {
    /// A register-register operation.
    AluReg,
    /// A register-immediate operation.
    AluImm,
    /// `lui` or `auipc`.
    Upper,
    /// `jal` or `jalr`.
    Jump,
    /// A conditional branch.
    Branch,
    /// A load.
    Load,
    /// A store.
    Store,
    /// A memory fence.
    Fence,
    /// An environment call.
    Ecall,
    /// A breakpoint instruction.
    Ebreak,
}

/// The kind of a base instruction; none for an instruction of another
/// extension.
pub open spec fn spec_class(opc: OpecodeKind) -> Option<BaseClass> {
    match opc {
        OpecodeKind::OP_ADD
        | OpecodeKind::OP_SUB
        | OpecodeKind::OP_SLL
        | OpecodeKind::OP_SLT
        | OpecodeKind::OP_SLTU
        | OpecodeKind::OP_XOR
        | OpecodeKind::OP_SRL
        | OpecodeKind::OP_SRA
        | OpecodeKind::OP_OR
        | OpecodeKind::OP_AND
        | OpecodeKind::OP_ADDW
        | OpecodeKind::OP_SUBW
        | OpecodeKind::OP_SLLW
        | OpecodeKind::OP_SRLW
        | OpecodeKind::OP_SRAW => Some(BaseClass::AluReg),
        OpecodeKind::OP_ADDI
        | OpecodeKind::OP_SLTI
        | OpecodeKind::OP_SLTIU
        | OpecodeKind::OP_XORI
        | OpecodeKind::OP_ORI
        | OpecodeKind::OP_ANDI
        | OpecodeKind::OP_SLLI
        | OpecodeKind::OP_SRLI
        | OpecodeKind::OP_SRAI
        | OpecodeKind::OP_ADDIW
        | OpecodeKind::OP_SLLIW
        | OpecodeKind::OP_SRLIW
        | OpecodeKind::OP_SRAIW => Some(BaseClass::AluImm),
        OpecodeKind::OP_LUI
        | OpecodeKind::OP_AUIPC => Some(BaseClass::Upper),
        OpecodeKind::OP_JAL
        | OpecodeKind::OP_JALR => Some(BaseClass::Jump),
        OpecodeKind::OP_BEQ
        | OpecodeKind::OP_BNE
        | OpecodeKind::OP_BLT
        | OpecodeKind::OP_BGE
        | OpecodeKind::OP_BLTU
        | OpecodeKind::OP_BGEU => Some(BaseClass::Branch),
        OpecodeKind::OP_LB
        | OpecodeKind::OP_LH
        | OpecodeKind::OP_LW
        | OpecodeKind::OP_LBU
        | OpecodeKind::OP_LHU
        | OpecodeKind::OP_LWU
        | OpecodeKind::OP_LD => Some(BaseClass::Load),
        OpecodeKind::OP_SB
        | OpecodeKind::OP_SH
        | OpecodeKind::OP_SW
        | OpecodeKind::OP_SD => Some(BaseClass::Store),
        OpecodeKind::OP_FENCE => Some(BaseClass::Fence),
        OpecodeKind::OP_ECALL => Some(BaseClass::Ecall),
        OpecodeKind::OP_EBREAK => Some(BaseClass::Ebreak),
        _ => None,
    }
}

/// The kind of a base instruction.
#[verifier::when_used_as_spec(spec_class)]
pub fn class(opc: OpecodeKind) -> (r: Option<BaseClass>)
    ensures
        r == spec_class(opc),
{
    match opc {
        OpecodeKind::OP_ADD
        | OpecodeKind::OP_SUB
        | OpecodeKind::OP_SLL
        | OpecodeKind::OP_SLT
        | OpecodeKind::OP_SLTU
        | OpecodeKind::OP_XOR
        | OpecodeKind::OP_SRL
        | OpecodeKind::OP_SRA
        | OpecodeKind::OP_OR
        | OpecodeKind::OP_AND
        | OpecodeKind::OP_ADDW
        | OpecodeKind::OP_SUBW
        | OpecodeKind::OP_SLLW
        | OpecodeKind::OP_SRLW
        | OpecodeKind::OP_SRAW => Some(BaseClass::AluReg),
        OpecodeKind::OP_ADDI
        | OpecodeKind::OP_SLTI
        | OpecodeKind::OP_SLTIU
        | OpecodeKind::OP_XORI
        | OpecodeKind::OP_ORI
        | OpecodeKind::OP_ANDI
        | OpecodeKind::OP_SLLI
        | OpecodeKind::OP_SRLI
        | OpecodeKind::OP_SRAI
        | OpecodeKind::OP_ADDIW
        | OpecodeKind::OP_SLLIW
        | OpecodeKind::OP_SRLIW
        | OpecodeKind::OP_SRAIW => Some(BaseClass::AluImm),
        OpecodeKind::OP_LUI
        | OpecodeKind::OP_AUIPC => Some(BaseClass::Upper),
        OpecodeKind::OP_JAL
        | OpecodeKind::OP_JALR => Some(BaseClass::Jump),
        OpecodeKind::OP_BEQ
        | OpecodeKind::OP_BNE
        | OpecodeKind::OP_BLT
        | OpecodeKind::OP_BGE
        | OpecodeKind::OP_BLTU
        | OpecodeKind::OP_BGEU => Some(BaseClass::Branch),
        OpecodeKind::OP_LB
        | OpecodeKind::OP_LH
        | OpecodeKind::OP_LW
        | OpecodeKind::OP_LBU
        | OpecodeKind::OP_LHU
        | OpecodeKind::OP_LWU
        | OpecodeKind::OP_LD => Some(BaseClass::Load),
        OpecodeKind::OP_SB
        | OpecodeKind::OP_SH
        | OpecodeKind::OP_SW
        | OpecodeKind::OP_SD => Some(BaseClass::Store),
        OpecodeKind::OP_FENCE => Some(BaseClass::Fence),
        OpecodeKind::OP_ECALL => Some(BaseClass::Ecall),
        OpecodeKind::OP_EBREAK => Some(BaseClass::Ebreak),
        _ => None,
    }
}

/// The shift amount that a word gives: its low five bits on RV32, its low
/// six bits on RV64.
pub open spec fn spec_shamt(b: u64, isa: Isa) -> u64 {
    match isa {
        Isa::Rv32 => b % 32,
        Isa::Rv64 => b % 64,
    }
}

/// The shift amount that a word gives.
#[verifier::when_used_as_spec(spec_shamt)]
pub fn shamt(b: u64, isa: Isa) -> (r: u64)
    ensures
        r == spec_shamt(b, isa),
        r < 64,
{
    match isa {
        Isa::Rv32 => b % 32,
        Isa::Rv64 => b % 64,
    }
}

/// A register value widened to 64 bits with its sign: on RV32 the low word
/// sign-extended, on RV64 the value itself.
pub open spec fn spec_widen(a: u64, isa: Isa) -> u64 {
    match isa {
        Isa::Rv32 => sext32(a),
        Isa::Rv64 => a,
    }
}

/// Widens a register value to 64 bits with its sign.
#[verifier::when_used_as_spec(spec_widen)]
pub fn widen(a: u64, isa: Isa) -> (r: u64)
    ensures
        r == spec_widen(a, isa),
{
    match isa {
        Isa::Rv32 => sign_extend32(a),
        Isa::Rv64 => a,
    }
}

/// The integer a register value denotes in two's complement of the register
/// width.
pub open spec fn reg_signed(a: u64, isa: Isa) -> int {
    match isa {
        Isa::Rv32 => signed32(a),
        Isa::Rv64 => signed64(a),
    }
}

/// Signed comparison of two register values.
pub fn lt_signed(a: u64, b: u64, isa: Isa) -> (r: bool)
    ensures
        r == (reg_signed(a, isa) < reg_signed(b, isa)),
{
    less_than_signed(widen(a, isa), widen(b, isa))
}

/// The result of an arithmetic or logic operation on the operand values `a`
/// and `b`, where `b` is the second register or the sign-extended
/// immediate. Sums and differences wrap; comparisons give 0 or 1; a shift
/// uses the low bits of `b` as its amount; the word operations work on the
/// low 32 bits and sign-extend their 32-bit result. Every result is cut to
/// the register width.
pub open spec fn spec_alu(opc: OpecodeKind, a: u64, b: u64, isa: Isa) -> u64 {
    match opc {
        OpecodeKind::OP_ADD
        | OpecodeKind::OP_ADDI => spec_fix2regsz(wrap64(a + b), isa),
        OpecodeKind::OP_SUB => spec_fix2regsz(wrap64(a - b), isa),
        OpecodeKind::OP_SLL
        | OpecodeKind::OP_SLLI => spec_fix2regsz(a << spec_shamt(b, isa), isa),
        OpecodeKind::OP_SLT
        | OpecodeKind::OP_SLTI => if reg_signed(a, isa) < reg_signed(b, isa) {
            1
        } else {
            0
        },
        OpecodeKind::OP_SLTU
        | OpecodeKind::OP_SLTIU => if spec_fix2regsz(a, isa) < spec_fix2regsz(b, isa) {
            1
        } else {
            0
        },
        OpecodeKind::OP_XOR
        | OpecodeKind::OP_XORI => spec_fix2regsz(a ^ b, isa),
        OpecodeKind::OP_SRL
        | OpecodeKind::OP_SRLI => spec_fix2regsz(a, isa) >> spec_shamt(b, isa),
        OpecodeKind::OP_SRA
        | OpecodeKind::OP_SRAI => spec_fix2regsz(sra64(spec_widen(a, isa), spec_shamt(b, isa)), isa),
        OpecodeKind::OP_OR
        | OpecodeKind::OP_ORI => spec_fix2regsz(a | b, isa),
        OpecodeKind::OP_AND
        | OpecodeKind::OP_ANDI => spec_fix2regsz(a & b, isa),
        OpecodeKind::OP_ADDW
        | OpecodeKind::OP_ADDIW => spec_fix2regsz(sext32(wrap64(a + b)), isa),
        OpecodeKind::OP_SUBW => spec_fix2regsz(sext32(wrap64(a - b)), isa),
        OpecodeKind::OP_SLLW
        | OpecodeKind::OP_SLLIW => spec_fix2regsz(sext32(a << (b % 32)), isa),
        OpecodeKind::OP_SRLW
        | OpecodeKind::OP_SRLIW => spec_fix2regsz(sext32(low32(a) >> (b % 32)), isa),
        OpecodeKind::OP_SRAW
        | OpecodeKind::OP_SRAIW => spec_fix2regsz(sext32(sra64(sext32(a), b % 32)), isa),
        _ => 0,
    }
}

/// Whether the instruction is one of the word operations of RV64.
pub open spec fn spec_is_word_op(opc: OpecodeKind) -> bool {
    match opc {
        OpecodeKind::OP_ADDW
        | OpecodeKind::OP_ADDIW
        | OpecodeKind::OP_SUBW
        | OpecodeKind::OP_SLLW
        | OpecodeKind::OP_SLLIW
        | OpecodeKind::OP_SRLW
        | OpecodeKind::OP_SRLIW
        | OpecodeKind::OP_SRAW
        | OpecodeKind::OP_SRAIW => true,
        _ => false,
    }
}

/// The sum of two words modulo `2^64`.
pub fn add_wrapping(a: u64, b: u64) -> (r: u64)
    ensures
        r == wrap64(a + b),
{
    a.wrapping_add(b)
}

/// The difference of two words modulo `2^64`.
pub fn sub_wrapping(a: u64, b: u64) -> (r: u64)
    ensures
        r == wrap64(a - b),
{
    a.wrapping_sub(b)
}

/// Whether a word is the sign extension of its own low 32 bits.
pub open spec fn is_sign_extended(x: u64) -> bool {
    x == sext32(x)
}

/// Computes an arithmetic or logic operation.
pub fn alu(opc: OpecodeKind, a: u64, b: u64, isa: Isa) -> (r: u64)
    ensures
        r == spec_alu(opc, a, b, isa),
        isa == Isa::Rv64 && spec_is_word_op(opc) ==> r == sext32(r),
{
    proof {
        if isa == Isa::Rv64 && spec_is_word_op(opc) {
            lemma_word_ops_sign_extend(opc, a, b);
        }
    }
    match opc {
        OpecodeKind::OP_ADD
        | OpecodeKind::OP_ADDI => fix2regsz(add_wrapping(a, b), isa),
        OpecodeKind::OP_SUB => fix2regsz(sub_wrapping(a, b), isa),
        OpecodeKind::OP_SLL
        | OpecodeKind::OP_SLLI => fix2regsz(a << shamt(b, isa), isa),
        OpecodeKind::OP_SLT
        | OpecodeKind::OP_SLTI => if lt_signed(a, b, isa) {
            1
        } else {
            0
        },
        OpecodeKind::OP_SLTU
        | OpecodeKind::OP_SLTIU => if fix2regsz(a, isa) < fix2regsz(b, isa) {
            1
        } else {
            0
        },
        OpecodeKind::OP_XOR
        | OpecodeKind::OP_XORI => fix2regsz(a ^ b, isa),
        OpecodeKind::OP_SRL
        | OpecodeKind::OP_SRLI => fix2regsz(a, isa) >> shamt(b, isa),
        OpecodeKind::OP_SRA
        | OpecodeKind::OP_SRAI => fix2regsz(shift_right_arith(widen(a, isa), shamt(b, isa)), isa),
        OpecodeKind::OP_OR
        | OpecodeKind::OP_ORI => fix2regsz(a | b, isa),
        OpecodeKind::OP_AND
        | OpecodeKind::OP_ANDI => fix2regsz(a & b, isa),
        OpecodeKind::OP_ADDW
        | OpecodeKind::OP_ADDIW => fix2regsz(sign_extend32(add_wrapping(a, b)), isa),
        OpecodeKind::OP_SUBW => fix2regsz(sign_extend32(sub_wrapping(a, b)), isa),
        OpecodeKind::OP_SLLW
        | OpecodeKind::OP_SLLIW => fix2regsz(sign_extend32(a << (b % 32)), isa),
        OpecodeKind::OP_SRLW
        | OpecodeKind::OP_SRLIW => fix2regsz(sign_extend32(truncate32(a) >> (b % 32)), isa),
        OpecodeKind::OP_SRAW
        | OpecodeKind::OP_SRAIW => fix2regsz(
            sign_extend32(shift_right_arith(sign_extend32(a), b % 32)),
            isa,
        ),
        _ => 0,
    }
}

/// On RV64 the result of every word operation is the sign extension of its
/// own low 32 bits.
pub proof fn lemma_word_ops_sign_extend(opc: OpecodeKind, a: u64, b: u64)
    requires
        spec_is_word_op(opc),
    ensures
        spec_alu(opc, a, b, Isa::Rv64) == sext32(low32(spec_alu(opc, a, b, Isa::Rv64))),
        spec_alu(opc, a, b, Isa::Rv64) == sext32(spec_alu(opc, a, b, Isa::Rv64)),
{
    let x: u64 = match opc {
        OpecodeKind::OP_ADDW | OpecodeKind::OP_ADDIW => wrap64(a + b),
        OpecodeKind::OP_SUBW => wrap64(a - b),
        OpecodeKind::OP_SLLW | OpecodeKind::OP_SLLIW => a << (b % 32),
        OpecodeKind::OP_SRLW | OpecodeKind::OP_SRLIW => low32(a) >> (b % 32),
        _ => sra64(sext32(a), b % 32),
    };
    assert(spec_alu(opc, a, b, Isa::Rv64) == sext32(x));
    crate::bits::lemma_sext32_idempotent(x);
}

/// Whether a branch is taken on the operand values `a` and `b`.
pub open spec fn spec_taken(opc: OpecodeKind, a: u64, b: u64, isa: Isa) -> bool {
    match opc {
        OpecodeKind::OP_BEQ => a == b,
        OpecodeKind::OP_BNE => a != b,
        OpecodeKind::OP_BLT => reg_signed(a, isa) < reg_signed(b, isa),
        OpecodeKind::OP_BGE => reg_signed(a, isa) >= reg_signed(b, isa),
        OpecodeKind::OP_BLTU => a < b,
        OpecodeKind::OP_BGEU => a >= b,
        _ => false,
    }
}

/// Tests the condition of a branch.
#[verifier::when_used_as_spec(spec_taken)]
pub fn taken(opc: OpecodeKind, a: u64, b: u64, isa: Isa) -> (r: bool)
    ensures
        r == spec_taken(opc, a, b, isa),
{
    match opc {
        OpecodeKind::OP_BEQ => a == b,
        OpecodeKind::OP_BNE => a != b,
        OpecodeKind::OP_BLT => lt_signed(a, b, isa),
        OpecodeKind::OP_BGE => !lt_signed(a, b, isa),
        OpecodeKind::OP_BLTU => a < b,
        OpecodeKind::OP_BGEU => a >= b,
        _ => false,
    }
}

/// Width of the access of a load or store.
pub open spec fn spec_width(opc: OpecodeKind) -> TransAlign {
    match opc {
        OpecodeKind::OP_LB | OpecodeKind::OP_LBU | OpecodeKind::OP_SB => TransAlign::Size8,
        OpecodeKind::OP_LH | OpecodeKind::OP_LHU | OpecodeKind::OP_SH => TransAlign::Size16,
        OpecodeKind::OP_LD | OpecodeKind::OP_SD => TransAlign::Size64,
        _ => TransAlign::Size32,
    }
}

/// Width of the access of a load or store.
#[verifier::when_used_as_spec(spec_width)]
pub fn width(opc: OpecodeKind) -> (r: TransAlign)
    ensures
        r == spec_width(opc),
{
    match opc {
        OpecodeKind::OP_LB | OpecodeKind::OP_LBU | OpecodeKind::OP_SB => TransAlign::Size8,
        OpecodeKind::OP_LH | OpecodeKind::OP_LHU | OpecodeKind::OP_SH => TransAlign::Size16,
        OpecodeKind::OP_LD | OpecodeKind::OP_SD => TransAlign::Size64,
        _ => TransAlign::Size32,
    }
}

/// Whether a load sign-extends what it reads.
pub open spec fn spec_load_signed(opc: OpecodeKind) -> bool {
    match opc {
        OpecodeKind::OP_LBU | OpecodeKind::OP_LHU | OpecodeKind::OP_LWU => false,
        _ => true,
    }
}

/// Whether a load sign-extends what it reads.
#[verifier::when_used_as_spec(spec_load_signed)]
pub fn load_signed(opc: OpecodeKind) -> (r: bool)
    ensures
        r == spec_load_signed(opc),
{
    match opc {
        OpecodeKind::OP_LBU | OpecodeKind::OP_LHU | OpecodeKind::OP_LWU => false,
        _ => true,
    }
}

/// The cause of an environment call made at a privilege level.
pub open spec fn spec_ecall_cause(priv_lv: PrivilegedLevel) -> TrapCause {
    match priv_lv {
        PrivilegedLevel::User => TrapCause::UmodeEcall,
        PrivilegedLevel::Supervisor => TrapCause::SmodeEcall,
        _ => TrapCause::MmodeEcall,
    }
}

/// A load of `size` bytes from the virtual address `vaddr` into `rd`: the
/// address phase, then the load itself; the instruction retires with the
/// loaded value in `rd`, or faults with the registers and the PC untouched.
pub open spec fn spec_load(
    s: CpuView,
    rd: Option<usize>,
    size: TransAlign,
    signed: bool,
    vaddr: u64,
    len: u64,
) -> Step {
    let acc = spec_access(s, TransFor::Load, size, vaddr);
    match acc.result {
        Err(e) => raise(acc.state, e),
        Ok(paddr) => {
            let after = CpuView {
                bus: spec_after_load(acc.state.bus, paddr, size, signed),
                ..acc.state
            };
            match acc.state.bus.load(paddr, size, signed) {
                Err(e) => raise(after, e),
                Ok(v) => retire_rd(after, rd, v, len),
            }
        },
    }
}

/// A store of the low `size` bytes of `data` to the virtual address `vaddr`:
/// the address phase, then the store itself, which also releases a
/// reservation on the page it writes to.
pub open spec fn spec_store(s: CpuView, size: TransAlign, vaddr: u64, data: u64, len: u64) -> Step {
    let acc = spec_access(s, TransFor::StoreAMO, size, vaddr);
    match acc.result {
        Err(e) => raise(acc.state, e),
        Ok(paddr) => match acc.state.bus.store(paddr, data, size) {
            Err(e) => raise(acc.state, e),
            Ok(after) => retire(
                CpuView {
                    bus: after,
                    reservation: spec_release(acc.state.reservation, paddr),
                    ..acc.state
                },
                len,
            ),
        },
    }
}

/// What a base instruction of encoding length `len` does to the hart.
///
/// An arithmetic or logic instruction writes its result to `rd`. `lui`
/// writes the immediate, `auipc` the PC plus the immediate. `jal` and `jalr`
/// write the address of the next instruction to `rd` and jump, `jalr` to the
/// sum of `rs1` and the immediate with bit 0 cleared. A branch jumps by the
/// immediate when its condition holds. Loads and stores access the address
/// `rs1` plus the immediate. A fence does nothing. An environment call and a
/// breakpoint raise their exception. Every instruction that does not jump
/// or trap moves the PC by `len`.
pub open spec fn spec_exec(s: CpuView, inst: Instruction, len: u64) -> Step {
    let a = s.regs[inst.rs1->Some_0 as int];
    let b = s.regs[inst.rs2->Some_0 as int];
    let imm = wrap64(inst.imm->Some_0 as int);
    match spec_class(inst.opc) {
        Some(BaseClass::AluReg) => retire_rd(s, inst.rd, spec_alu(inst.opc, a, b, s.isa), len),
        Some(BaseClass::AluImm) => retire_rd(s, inst.rd, spec_alu(inst.opc, a, imm, s.isa), len),
        Some(BaseClass::Upper) => if inst.opc == OpecodeKind::OP_LUI {
            retire_rd(s, inst.rd, imm, len)
        } else {
            retire_rd(s, inst.rd, wrap64(s.pc + inst.imm->Some_0), len)
        },
        Some(BaseClass::Jump) => {
            let target = if inst.opc == OpecodeKind::OP_JAL {
                spec_target(s, inst.imm->Some_0)
            } else {
                spec_fix2regsz(spec_clear_low_bit(wrap64(a + inst.imm->Some_0)), s.isa)
            };
            Step {
                state: CpuView {
                    pc: target,
                    regs: reg_write(s.regs, inst.rd->Some_0 as int, spec_next_pc(s, len), s.isa),
                    ..s
                },
                result: Ok(()),
            }
        },
        Some(BaseClass::Branch) => if spec_taken(inst.opc, a, b, s.isa) {
            Step { state: CpuView { pc: spec_target(s, inst.imm->Some_0), ..s }, result: Ok(()) }
        } else {
            retire(s, len)
        },
        Some(BaseClass::Load) => spec_load(
            s,
            inst.rd,
            spec_width(inst.opc),
            spec_load_signed(inst.opc),
            spec_fix2regsz(wrap64(a + inst.imm->Some_0), s.isa),
            len,
        ),
        Some(BaseClass::Store) => spec_store(
            s,
            spec_width(inst.opc),
            spec_fix2regsz(wrap64(a + inst.imm->Some_0), s.isa),
            b,
            len,
        ),
        Some(BaseClass::Fence) => retire(s, len),
        Some(BaseClass::Ecall) => raise(
            s,
            Fault { addr: None, cause: spec_ecall_cause(s.priv_lv) },
        ),
        Some(BaseClass::Ebreak) => raise(s, Fault { addr: None, cause: TrapCause::Breakpoint }),
        None => raise(s, Fault { addr: None, cause: TrapCause::IllegalInst }),
    }
}

/// Whether the record has the operands that its kind of base instruction
/// works on.
pub open spec fn operands_ok(inst: Instruction) -> bool {
    match spec_class(inst.opc) {
        Some(BaseClass::AluReg) => has_reg(inst.rd) && has_reg(inst.rs1) && has_reg(inst.rs2),
        Some(BaseClass::AluImm) => has_reg(inst.rd) && has_reg(inst.rs1) && inst.imm is Some,
        Some(BaseClass::Upper) => has_reg(inst.rd) && inst.imm is Some,
        Some(BaseClass::Jump) => has_reg(inst.rd) && inst.imm is Some && (inst.opc
            == OpecodeKind::OP_JAL || has_reg(inst.rs1)),
        Some(BaseClass::Branch) => has_reg(inst.rs1) && has_reg(inst.rs2) && inst.imm is Some,
        Some(BaseClass::Load) => has_reg(inst.rd) && has_reg(inst.rs1) && inst.imm is Some,
        Some(BaseClass::Store) => has_reg(inst.rs1) && has_reg(inst.rs2) && inst.imm is Some,
        Some(_) => true,
        None => false,
    }
}

/// The word `offset` bytes from `base`, modulo `2^64`.
pub fn offset_from(base: u64, offset: i32) -> (r: u64)
    ensures
        r == wrap64(base + offset),
{
    proof {
        crate::cpu::lemma_wrapping_offset(base, offset);
    }
    base.wrapping_add(imm_to_word(offset))
}

/// Computes the address of a load or store: `rs1` plus the immediate.
fn effective_addr(cpu: &CPU, inst: &Instruction) -> (r: u64)
    requires
        cpu.wf(),
        has_reg(inst.rs1),
        inst.imm is Some,
    ensures
        r == spec_fix2regsz(
            wrap64(cpu@.regs[inst.rs1->Some_0 as int] + inst.imm->Some_0),
            cpu.isa,
        ),
{
    let a = cpu.regs.read(inst.rs1);
    target(a, inst.imm.unwrap(), cpu.isa)
}

/// Executes a load.
fn exec_load(inst: &Instruction, cpu: &mut CPU, len: u64) -> (r: Result<(), Fault>)
    requires
        old(cpu).wf(),
        operands_ok(*inst),
        spec_class(inst.opc) == Some(BaseClass::Load),
        spec_trigger_supported(old(cpu).csrs@, old(cpu).priv_lv),
        len == 2 || len == 4,
    ensures
        final(cpu).wf(),
        final(cpu)@ == spec_exec(old(cpu)@, *inst, len).state,
        r == spec_exec(old(cpu)@, *inst, len).result,
        old(cpu)@.pc % 2 == 0 && inst.offset_aligned() ==> final(cpu)@.pc % 2 == 0,
{
    let size = width(inst.opc);
    let signed = load_signed(inst.opc);
    let vaddr = effective_addr(cpu, inst);
    let paddr = cpu.trans_addr(TransFor::Load, size, vaddr)?;
    let v = cpu.load(size, signed, paddr)?;
    cpu.regs.write(inst.rd, v);
    cpu.pc = address_at(cpu.pc, len, cpu.isa);
    Ok(())
}

/// Executes a store.
fn exec_store(inst: &Instruction, cpu: &mut CPU, len: u64) -> (r: Result<(), Fault>)
    requires
        old(cpu).wf(),
        operands_ok(*inst),
        spec_class(inst.opc) == Some(BaseClass::Store),
        spec_trigger_supported(old(cpu).csrs@, old(cpu).priv_lv),
        len == 2 || len == 4,
    ensures
        final(cpu).wf(),
        final(cpu)@ == spec_exec(old(cpu)@, *inst, len).state,
        r == spec_exec(old(cpu)@, *inst, len).result,
        old(cpu)@.pc % 2 == 0 && inst.offset_aligned() ==> final(cpu)@.pc % 2 == 0,
{
    let size = width(inst.opc);
    let vaddr = effective_addr(cpu, inst);
    let data = cpu.regs.read(inst.rs2);
    let paddr = cpu.trans_addr(TransFor::StoreAMO, size, vaddr)?;
    cpu.store(size, paddr, data)?;
    cpu.release(paddr);
    cpu.pc = address_at(cpu.pc, len, cpu.isa);
    Ok(())
}

/// Executes a register-register operation.
fn exec_alu_reg(inst: &Instruction, cpu: &mut CPU, len: u64) -> (r: Result<(), Fault>)
    requires
        old(cpu).wf(),
        operands_ok(*inst),
        spec_class(inst.opc) == Some(BaseClass::AluReg),
        len == 2 || len == 4,
    ensures
        final(cpu).wf(),
        final(cpu)@ == spec_exec(old(cpu)@, *inst, len).state,
        r == spec_exec(old(cpu)@, *inst, len).result,
        old(cpu)@.pc % 2 == 0 && inst.offset_aligned() ==> final(cpu)@.pc % 2 == 0,
        old(cpu).isa == Isa::Rv64 && spec_is_word_op(inst.opc) && inst.rd->Some_0 != 0
            ==> is_sign_extended(final(cpu)@.regs[inst.rd->Some_0 as int]),
{
    let isa = cpu.isa;
    let next = address_at(cpu.pc, len, isa);
    let a = cpu.regs.read(inst.rs1);
    let b = cpu.regs.read(inst.rs2);
    cpu.regs.write(inst.rd, alu(inst.opc, a, b, isa));
    cpu.pc = next;
    Ok(())
}

/// Executes a register-immediate operation.
fn exec_alu_imm(inst: &Instruction, cpu: &mut CPU, len: u64) -> (r: Result<(), Fault>)
    requires
        old(cpu).wf(),
        operands_ok(*inst),
        spec_class(inst.opc) == Some(BaseClass::AluImm),
        len == 2 || len == 4,
    ensures
        final(cpu).wf(),
        final(cpu)@ == spec_exec(old(cpu)@, *inst, len).state,
        r == spec_exec(old(cpu)@, *inst, len).result,
        old(cpu)@.pc % 2 == 0 && inst.offset_aligned() ==> final(cpu)@.pc % 2 == 0,
        old(cpu).isa == Isa::Rv64 && spec_is_word_op(inst.opc) && inst.rd->Some_0 != 0
            ==> is_sign_extended(final(cpu)@.regs[inst.rd->Some_0 as int]),
{
    let isa = cpu.isa;
    let next = address_at(cpu.pc, len, isa);
    let a = cpu.regs.read(inst.rs1);
    let imm = imm_to_word(inst.imm.unwrap());
    cpu.regs.write(inst.rd, alu(inst.opc, a, imm, isa));
    cpu.pc = next;
    Ok(())
}

/// Executes `lui` or `auipc`.
fn exec_upper(inst: &Instruction, cpu: &mut CPU, len: u64) -> (r: Result<(), Fault>)
    requires
        old(cpu).wf(),
        operands_ok(*inst),
        spec_class(inst.opc) == Some(BaseClass::Upper),
        len == 2 || len == 4,
    ensures
        final(cpu).wf(),
        final(cpu)@ == spec_exec(old(cpu)@, *inst, len).state,
        r == spec_exec(old(cpu)@, *inst, len).result,
        old(cpu)@.pc % 2 == 0 && inst.offset_aligned() ==> final(cpu)@.pc % 2 == 0,
{
    let isa = cpu.isa;
    let next = address_at(cpu.pc, len, isa);
    let imm = inst.imm.unwrap();
    let value = match inst.opc {
        OpecodeKind::OP_LUI => imm_to_word(imm),
        _ => offset_from(cpu.pc, imm),
    };
    cpu.regs.write(inst.rd, value);
    cpu.pc = next;
    Ok(())
}

/// Executes `jal` or `jalr`.
fn exec_jump(inst: &Instruction, cpu: &mut CPU, len: u64) -> (r: Result<(), Fault>)
    requires
        old(cpu).wf(),
        operands_ok(*inst),
        spec_class(inst.opc) == Some(BaseClass::Jump),
        len == 2 || len == 4,
    ensures
        final(cpu).wf(),
        final(cpu)@ == spec_exec(old(cpu)@, *inst, len).state,
        r == spec_exec(old(cpu)@, *inst, len).result,
        old(cpu)@.pc % 2 == 0 && inst.offset_aligned() ==> final(cpu)@.pc % 2 == 0,
{
    let isa = cpu.isa;
    let next = address_at(cpu.pc, len, isa);
    let imm = inst.imm.unwrap();
    let target = match inst.opc {
        OpecodeKind::OP_JAL => target(cpu.pc, imm, isa),
        _ => {
            let a = cpu.regs.read(inst.rs1);
            // the least-significant bit of the target is set to zero
            even_target(a, imm, isa)
        },
    };
    cpu.regs.write(inst.rd, next);
    cpu.pc = target;
    Ok(())
}

/// Executes a conditional branch.
fn exec_branch(inst: &Instruction, cpu: &mut CPU, len: u64) -> (r: Result<(), Fault>)
    requires
        old(cpu).wf(),
        operands_ok(*inst),
        spec_class(inst.opc) == Some(BaseClass::Branch),
        len == 2 || len == 4,
    ensures
        final(cpu).wf(),
        final(cpu)@ == spec_exec(old(cpu)@, *inst, len).state,
        r == spec_exec(old(cpu)@, *inst, len).result,
        old(cpu)@.pc % 2 == 0 && inst.offset_aligned() ==> final(cpu)@.pc % 2 == 0,
{
    let isa = cpu.isa;
    let next = address_at(cpu.pc, len, isa);
    let a = cpu.regs.read(inst.rs1);
    let b = cpu.regs.read(inst.rs2);
    if taken(inst.opc, a, b, isa) {
        cpu.pc = target(cpu.pc, inst.imm.unwrap(), isa);
    } else {
        cpu.pc = next;
    }
    Ok(())
}

/// Executes a fence, an environment call or a breakpoint instruction.
fn exec_system(inst: &Instruction, cpu: &mut CPU, len: u64) -> (r: Result<(), Fault>)
    requires
        old(cpu).wf(),
        operands_ok(*inst),
        spec_class(inst.opc) == Some(BaseClass::Fence) || spec_class(inst.opc) == Some(BaseClass::Ecall)
            || spec_class(inst.opc) == Some(BaseClass::Ebreak),
        len == 2 || len == 4,
    ensures
        final(cpu).wf(),
        final(cpu)@ == spec_exec(old(cpu)@, *inst, len).state,
        r == spec_exec(old(cpu)@, *inst, len).result,
        old(cpu)@.pc % 2 == 0 && inst.offset_aligned() ==> final(cpu)@.pc % 2 == 0,
{
    let isa = cpu.isa;
    let next = address_at(cpu.pc, len, isa);
    match class(inst.opc) {
        Some(BaseClass::Fence) => {
            // nop (there is one hart and program order is the only order)
            cpu.pc = next;
            Ok(())
        },
        Some(BaseClass::Ecall) => Err(
            Fault {
                addr: None,
                cause: match cpu.priv_lv {
                    PrivilegedLevel::User => TrapCause::UmodeEcall,
                    PrivilegedLevel::Supervisor => TrapCause::SmodeEcall,
                    _ => TrapCause::MmodeEcall,
                },
            },
        ),
        _ => Err(Fault { addr: None, cause: TrapCause::Breakpoint }),
    }
}

/// Executes a base instruction whose encoding is `len` bytes long.
pub fn exec(inst: &Instruction, cpu: &mut CPU, len: u64) -> (r: Result<(), Fault>)
    requires
        old(cpu).wf(),
        operands_ok(*inst),
        spec_trigger_supported(old(cpu).csrs@, old(cpu).priv_lv),
        len == 2 || len == 4,
    ensures
        final(cpu).wf(),
        final(cpu)@ == spec_exec(old(cpu)@, *inst, len).state,
        r == spec_exec(old(cpu)@, *inst, len).result,
        old(cpu)@.pc % 2 == 0 && inst.offset_aligned() ==> final(cpu)@.pc % 2 == 0,
        final(cpu)@.regs[0] == 0,
        r is Err ==> final(cpu)@.regs == old(cpu)@.regs && final(cpu)@.pc == old(cpu)@.pc,
        old(cpu).isa == Isa::Rv64 && spec_is_word_op(inst.opc) && inst.rd->Some_0 != 0
            ==> is_sign_extended(final(cpu)@.regs[inst.rd->Some_0 as int]),
{
    match class(inst.opc) {
        Some(BaseClass::AluReg) => exec_alu_reg(inst, cpu, len),
        Some(BaseClass::AluImm) => exec_alu_imm(inst, cpu, len),
        Some(BaseClass::Upper) => exec_upper(inst, cpu, len),
        Some(BaseClass::Jump) => exec_jump(inst, cpu, len),
        Some(BaseClass::Branch) => exec_branch(inst, cpu, len),
        Some(BaseClass::Load) => exec_load(inst, cpu, len),
        Some(BaseClass::Store) => exec_store(inst, cpu, len),
        _ => exec_system(inst, cpu, len),
    }
}

} // verus!
