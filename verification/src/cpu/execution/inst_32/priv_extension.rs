//! Execution of the privileged instructions.

use vstd::prelude::*;
use crate::cpu::csr::{status_field, Xstatus, MSTATUS};
use crate::cpu::execution::{address_at, raise, retire, Step};
use crate::cpu::instruction::{has_reg, Extensions, Instruction, OpecodeKind};
use crate::cpu::mmu::tlb::tlb_flush;
use crate::cpu::trap::{Fault, TrapCause};
use crate::cpu::{spec_return_level, spec_trap_return, CpuView, PrivilegedLevel, CPU};

verus! {

/// Whether `mstatus` makes the instruction trap in supervisor mode: TSR for
/// `sret`, TVM for `sfence.vma`.
pub open spec fn spec_trapped(s: CpuView, f: Xstatus) -> bool {
    s.priv_lv == PrivilegedLevel::Supervisor && status_field(
        s.csrs.regs[MSTATUS as int],
        f,
        s.isa,
    ) == 1
}

/// The operand of a fence that a register field gives: none for `x0`, the
/// register's value otherwise.
pub open spec fn spec_fence_operand(s: CpuView, r: Option<usize>) -> Option<u64> {
    if r->Some_0 == 0 {
        None
    } else {
        Some(s.regs[r->Some_0 as int])
    }
}

/// Whether the hart can execute the instruction without entering the
/// reserved privilege level: `mret` needs a previous privilege other than
/// the reserved encoding.
pub open spec fn spec_returns_ok(s: CpuView, inst: Instruction) -> bool {
    inst.opc == OpecodeKind::OP_MRET ==> spec_return_level(s.csrs, PrivilegedLevel::Machine)
        != PrivilegedLevel::Reserved
}

/// Whether the record has the operands of a privileged instruction: the
/// fence has two register fields, the others have none.
pub open spec fn operands_ok(inst: Instruction) -> bool {
    &&& inst.opc.spec_extension() == Extensions::Priv
    &&& (inst.opc == OpecodeKind::OP_SFENCE_VMA ==> has_reg(inst.rs1) && has_reg(inst.rs2))
}

/// What a privileged instruction does to the hart. `mret`, `sret` and `uret`
/// return from a trap of their level; `sret` is an illegal instruction in
/// supervisor mode while `mstatus.TSR` is set. `wfi` does nothing.
/// `sfence.vma` is an illegal instruction in supervisor mode while
/// `mstatus.TVM` is set, and otherwise invalidates the cached translations
/// that its operands select.
pub open spec fn spec_exec(s: CpuView, inst: Instruction) -> Step {
    let illegal = raise(s, Fault { addr: None, cause: TrapCause::IllegalInst });
    match inst.opc {
        OpecodeKind::OP_MRET => Step {
            state: spec_trap_return(s, PrivilegedLevel::Machine),
            result: Ok(()),
        },
        OpecodeKind::OP_SRET => if spec_trapped(s, Xstatus::TSR) {
            illegal
        } else {
            Step { state: spec_trap_return(s, PrivilegedLevel::Supervisor), result: Ok(()) }
        },
        OpecodeKind::OP_URET => Step {
            state: spec_trap_return(s, PrivilegedLevel::User),
            result: Ok(()),
        },
        OpecodeKind::OP_SFENCE_VMA => if spec_trapped(s, Xstatus::TVM) {
            illegal
        } else {
            retire(
                CpuView {
                    tlb: tlb_flush(
                        s.tlb,
                        spec_fence_operand(s, inst.rs1),
                        spec_fence_operand(s, inst.rs2),
                    ),
                    ..s
                },
                4,
            )
        },
        _ => retire(s, 4),
    }
}

/// Whether `mstatus` makes an instruction trap in supervisor mode.
fn trapped(cpu: &CPU, f: Xstatus) -> (r: bool)
    requires
        cpu.wf(),
    ensures
        r == spec_trapped(cpu@, f),
{
    let mstatus = cpu.csrs.csrs[MSTATUS];
    cpu.priv_lv == PrivilegedLevel::Supervisor && (mstatus >> f.shift(cpu.isa)) & f.limit() == 1
}

/// Tests whether the hart can execute the instruction without entering the
/// reserved privilege level.
pub fn returns_ok(inst: &Instruction, cpu: &CPU) -> (r: bool)
    requires
        cpu.wf(),
    ensures
        r == spec_returns_ok(cpu@, *inst),
{
    match inst.opc {
        OpecodeKind::OP_MRET => cpu.csrs.read_xstatus(PrivilegedLevel::Machine, Xstatus::MPP) != 2,
        _ => true,
    }
}

/// Executes `sfence.vma`.
fn fence(inst: &Instruction, cpu: &mut CPU) -> (r: Result<(), Fault>)
    requires
        old(cpu).wf(),
        operands_ok(*inst),
        inst.opc == OpecodeKind::OP_SFENCE_VMA,
    ensures
        final(cpu).wf(),
        final(cpu)@ == spec_exec(old(cpu)@, *inst).state,
        r == spec_exec(old(cpu)@, *inst).result,
        old(cpu)@.pc % 2 == 0 && inst.offset_aligned() ==> final(cpu)@.pc % 2 == 0,
{
    if trapped(cpu, Xstatus::TVM) {
        return Err(Fault { addr: None, cause: TrapCause::IllegalInst });
    }
    let vaddr = if inst.rs1.unwrap() == 0 {
        None
    } else {
        Some(cpu.regs.read(inst.rs1))
    };
    let asid = if inst.rs2.unwrap() == 0 {
        None
    } else {
        Some(cpu.regs.read(inst.rs2))
    };
    cpu.mmu.sfence(vaddr, asid);
    cpu.pc = address_at(cpu.pc, 4, cpu.isa);
    Ok(())
}

/// Executes a privileged instruction.
pub fn exec(inst: &Instruction, cpu: &mut CPU) -> (r: Result<(), Fault>)
    requires
        old(cpu).wf(),
        operands_ok(*inst),
        spec_returns_ok(old(cpu)@, *inst),
    ensures
        final(cpu).wf(),
        final(cpu)@ == spec_exec(old(cpu)@, *inst).state,
        r == spec_exec(old(cpu)@, *inst).result,
        old(cpu)@.pc % 2 == 0 && inst.offset_aligned() ==> final(cpu)@.pc % 2 == 0,
        final(cpu)@.regs[0] == 0,
        r is Err ==> final(cpu)@.regs == old(cpu)@.regs && final(cpu)@.pc == old(cpu)@.pc,
{
    match inst.opc {
        OpecodeKind::OP_SRET => {
            if trapped(cpu, Xstatus::TSR) {
                return Err(Fault { addr: None, cause: TrapCause::IllegalInst });
            }
            proof {
                lemma_supervisor_return_level(cpu@);
            }
            cpu.trap_return(PrivilegedLevel::Supervisor);
            Ok(())
        },
        OpecodeKind::OP_MRET => {
            cpu.trap_return(PrivilegedLevel::Machine);
            Ok(())
        },
        OpecodeKind::OP_URET => {
            cpu.trap_return(PrivilegedLevel::User);
            Ok(())
        },
        OpecodeKind::OP_SFENCE_VMA => fence(inst, cpu),
        _ => {
            // wfi: nop (there is one hart)
            cpu.pc = address_at(cpu.pc, 4, cpu.isa);
            Ok(())
        },
    }
}

/// The previous privilege of a supervisor trap is one bit wide: `sret`
/// returns to user or supervisor mode.
proof fn lemma_supervisor_return_level(s: CpuView)
    ensures
        spec_return_level(s.csrs, PrivilegedLevel::Supervisor) != PrivilegedLevel::Reserved,
{
    let w = s.csrs.regs[MSTATUS as int];
    assert((w >> 8u64) & 1u64 <= 1) by (bit_vector);
}

} // verus!
