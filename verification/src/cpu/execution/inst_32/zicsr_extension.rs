//! Execution of the CSR instructions.

use vstd::prelude::*;
use crate::cpu::csr::SATP;
use crate::cpu::execution::{address_at, raise, retire_rd, Step};
use crate::cpu::instruction::{has_reg, Extensions, Instruction, OpecodeKind};
use crate::cpu::mmu::tlb::tlb_flush;
use crate::cpu::trap::{Fault, TrapCause};
use crate::cpu::{CpuView, CPU};

verus! {

/// Whether the instruction writes its CSR: `csrrw` and `csrrwi` always do;
/// the set and clear forms do unless their source is register `x0` or the
/// immediate 0.
pub open spec fn spec_writes(inst: Instruction) -> bool {
    match inst.opc {
        OpecodeKind::OP_CSRRW | OpecodeKind::OP_CSRRWI => true,
        _ => inst.rs1->Some_0 != 0,
    }
}

/// The source operand: the value of register `rs1`, or in the immediate
/// forms the five-bit field itself, zero-extended.
pub open spec fn spec_source(s: CpuView, inst: Instruction) -> u64 {
    match inst.opc {
        OpecodeKind::OP_CSRRW | OpecodeKind::OP_CSRRS | OpecodeKind::OP_CSRRC => {
            s.regs[inst.rs1->Some_0 as int]
        },
        _ => inst.rs1->Some_0 as u64,
    }
}

/// The word the instruction writes to its CSR, given the word `old` it read:
/// the source, or `old` with the source's bits set or cleared.
pub open spec fn spec_new_value(opc: OpecodeKind, old: u64, src: u64) -> u64 {
    match opc {
        OpecodeKind::OP_CSRRW | OpecodeKind::OP_CSRRWI => src,
        OpecodeKind::OP_CSRRS | OpecodeKind::OP_CSRRSI => old | src,
        _ => old & !src,
    }
}

/// Whether the record has the operands of a CSR instruction: a destination,
/// a source field and the address of a CSR.
pub open spec fn operands_ok(inst: Instruction) -> bool {
    &&& inst.opc.spec_extension() == Extensions::Zicsr
    &&& has_reg(inst.rd)
    &&& has_reg(inst.rs1)
    &&& inst.rs2 is Some
    &&& inst.rs2->Some_0 < 4096
}

/// What a CSR instruction does to the hart: an access that the CSR file
/// refuses is an illegal instruction; otherwise `rd` receives the CSR's
/// value and the CSR, where the instruction writes it, its new value. A
/// write to `satp` empties the translation buffer.
pub open spec fn spec_exec(s: CpuView, inst: Instruction) -> Step {
    let csr = inst.rs2->Some_0 as int;
    if !s.csrs.accessible(s.priv_lv, csr, spec_writes(inst)) {
        raise(s, Fault { addr: None, cause: TrapCause::IllegalInst })
    } else {
        let old = s.csrs.read(csr);
        if spec_writes(inst) {
            retire_rd(
                CpuView {
                    csrs: s.csrs.write(csr, spec_new_value(inst.opc, old, spec_source(s, inst))),
                    tlb: if csr == SATP {
                        tlb_flush(s.tlb, None, None)
                    } else {
                        s.tlb
                    },
                    ..s
                },
                inst.rd,
                old,
                4,
            )
        } else {
            retire_rd(s, inst.rd, old, 4)
        }
    }
}

/// Checks that the hart may make the access of the instruction to the CSR
/// at `dist`.
fn check_accessible(cpu: &CPU, dist: usize, is_write: bool) -> (r: Result<(), Fault>)
    requires
        cpu.wf(),
    ensures
        r == (if cpu@.csrs.accessible(cpu@.priv_lv, dist as int, is_write) {
            Ok::<(), Fault>(())
        } else {
            Err::<(), Fault>(Fault { addr: None, cause: TrapCause::IllegalInst })
        }),
{
    cpu.csrs.check_accessible(cpu.priv_lv, dist, is_write)
}

/// Executes a CSR instruction.
pub fn exec(inst: &Instruction, cpu: &mut CPU) -> (r: Result<(), Fault>)
    requires
        old(cpu).wf(),
        operands_ok(*inst),
    ensures
        final(cpu).wf(),
        final(cpu)@ == spec_exec(old(cpu)@, *inst).state,
        r == spec_exec(old(cpu)@, *inst).result,
        old(cpu)@.pc % 2 == 0 && inst.offset_aligned() ==> final(cpu)@.pc % 2 == 0,
        final(cpu)@.regs[0] == 0,
        r is Err ==> final(cpu)@.regs == old(cpu)@.regs && final(cpu)@.pc == old(cpu)@.pc,
{
    let csr = inst.rs2.unwrap();
    let source = inst.rs1.unwrap();
    let writes = match inst.opc {
        OpecodeKind::OP_CSRRW | OpecodeKind::OP_CSRRWI => true,
        _ => source != 0,
    };
    check_accessible(cpu, csr, writes)?;

    let src: u64 = match inst.opc {
        OpecodeKind::OP_CSRRW | OpecodeKind::OP_CSRRS | OpecodeKind::OP_CSRRC => cpu.regs.read(
            inst.rs1,
        ),
        _ => source as u64,
    };
    let old = cpu.csrs.read(inst.rs2);
    if writes {
        let value = match inst.opc {
            OpecodeKind::OP_CSRRW | OpecodeKind::OP_CSRRWI => src,
            OpecodeKind::OP_CSRRS | OpecodeKind::OP_CSRRSI => old | src,
            _ => old & !src,
        };
        cpu.csrs.write(inst.rs2, value);
        if csr == SATP {
            cpu.mmu.sfence(None, None);
        }
    }
    cpu.regs.write(inst.rd, old);
    cpu.pc = address_at(cpu.pc, 4, cpu.isa);
    Ok(())
}

} // verus!
