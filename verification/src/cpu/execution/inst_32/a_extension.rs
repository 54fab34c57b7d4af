//! Execution of the atomics.

use vstd::prelude::*;
use crate::bits::{less_than_signed, low32, signed32, signed64, truncate32, wrap64};
use crate::cpu::breakpoint::spec_trigger_supported;
use crate::cpu::execution::inst_32::base_i::{add_wrapping, lt_signed};
use crate::cpu::execution::{address_at, raise, retire_rd, spec_release, Step};
use crate::cpu::fetch::spec_access;
use crate::cpu::instruction::{has_reg, Extensions, Instruction, OpecodeKind};
use crate::cpu::trap::{Fault, TransAlign, TransFor, TrapCause};
use crate::cpu::{CpuView, CPU};
use crate::Isa;

verus! {

/// Width of the access of an atomic.
pub open spec fn spec_width(opc: OpecodeKind) -> TransAlign {
    match opc {
        OpecodeKind::OP_LR_D
        | OpecodeKind::OP_SC_D
        | OpecodeKind::OP_AMOSWAP_D
        | OpecodeKind::OP_AMOADD_D
        | OpecodeKind::OP_AMOXOR_D
        | OpecodeKind::OP_AMOAND_D
        | OpecodeKind::OP_AMOOR_D
        | OpecodeKind::OP_AMOMIN_D
        | OpecodeKind::OP_AMOMAX_D
        | OpecodeKind::OP_AMOMINU_D
        | OpecodeKind::OP_AMOMAXU_D => TransAlign::Size64,
        _ => TransAlign::Size32,
    }
}

/// Width of the access of an atomic.
#[verifier::when_used_as_spec(spec_width)]
pub fn width(opc: OpecodeKind) -> (r: TransAlign)
    ensures
        r == spec_width(opc),
        r == TransAlign::Size32 || r == TransAlign::Size64,
{
    match opc {
        OpecodeKind::OP_LR_D
        | OpecodeKind::OP_SC_D
        | OpecodeKind::OP_AMOSWAP_D
        | OpecodeKind::OP_AMOADD_D
        | OpecodeKind::OP_AMOXOR_D
        | OpecodeKind::OP_AMOAND_D
        | OpecodeKind::OP_AMOOR_D
        | OpecodeKind::OP_AMOMIN_D
        | OpecodeKind::OP_AMOMAX_D
        | OpecodeKind::OP_AMOMINU_D
        | OpecodeKind::OP_AMOMAXU_D => TransAlign::Size64,
        _ => TransAlign::Size32,
    }
}

/// The value that an atomic memory operation stores, given the value `old`
/// read from memory and the source operand `src`. Minimum and maximum
/// compare the operands at the width of the access, as signed or as
/// unsigned numbers. The store keeps the low bits of the width.
pub open spec fn spec_amo(opc: OpecodeKind, old: u64, src: u64) -> u64 {
    match opc {
        OpecodeKind::OP_AMOADD_W | OpecodeKind::OP_AMOADD_D => wrap64(old + src),
        OpecodeKind::OP_AMOXOR_W | OpecodeKind::OP_AMOXOR_D => old ^ src,
        OpecodeKind::OP_AMOAND_W | OpecodeKind::OP_AMOAND_D => old & src,
        OpecodeKind::OP_AMOOR_W | OpecodeKind::OP_AMOOR_D => old | src,
        OpecodeKind::OP_AMOMIN_D => if signed64(old) < signed64(src) {
            old
        } else {
            src
        },
        OpecodeKind::OP_AMOMAX_D => if signed64(old) < signed64(src) {
            src
        } else {
            old
        },
        OpecodeKind::OP_AMOMINU_D => if old < src {
            old
        } else {
            src
        },
        OpecodeKind::OP_AMOMAXU_D => if old < src {
            src
        } else {
            old
        },
        OpecodeKind::OP_AMOMIN_W => if signed32(old) < signed32(src) {
            old
        } else {
            src
        },
        OpecodeKind::OP_AMOMAX_W => if signed32(old) < signed32(src) {
            src
        } else {
            old
        },
        OpecodeKind::OP_AMOMINU_W => if low32(old) < low32(src) {
            old
        } else {
            src
        },
        OpecodeKind::OP_AMOMAXU_W => if low32(old) < low32(src) {
            src
        } else {
            old
        },
        _ => src,
    }
}

/// Computes the word that an atomic memory operation stores.
#[verifier::when_used_as_spec(spec_amo)]
pub fn amo(opc: OpecodeKind, old: u64, src: u64) -> (r: u64)
    ensures
        r == spec_amo(opc, old, src),
{
    match opc {
        OpecodeKind::OP_AMOADD_W | OpecodeKind::OP_AMOADD_D => add_wrapping(old, src),
        OpecodeKind::OP_AMOXOR_W | OpecodeKind::OP_AMOXOR_D => old ^ src,
        OpecodeKind::OP_AMOAND_W | OpecodeKind::OP_AMOAND_D => old & src,
        OpecodeKind::OP_AMOOR_W | OpecodeKind::OP_AMOOR_D => old | src,
        OpecodeKind::OP_AMOMIN_D => if less_than_signed(old, src) {
            old
        } else {
            src
        },
        OpecodeKind::OP_AMOMAX_D => if less_than_signed(old, src) {
            src
        } else {
            old
        },
        OpecodeKind::OP_AMOMINU_D => if old < src {
            old
        } else {
            src
        },
        OpecodeKind::OP_AMOMAXU_D => if old < src {
            src
        } else {
            old
        },
        OpecodeKind::OP_AMOMIN_W => if lt_signed(old, src, Isa::Rv32) {
            old
        } else {
            src
        },
        OpecodeKind::OP_AMOMAX_W => if lt_signed(old, src, Isa::Rv32) {
            src
        } else {
            old
        },
        OpecodeKind::OP_AMOMINU_W => if truncate32(old) < truncate32(src) {
            old
        } else {
            src
        },
        OpecodeKind::OP_AMOMAXU_W => if truncate32(old) < truncate32(src) {
            src
        } else {
            old
        },
        _ => src,
    }
}

/// Load-reserved: loads the word or double word at the address in `rs1`,
/// sign-extended, and reserves its physical address.
pub open spec fn spec_load_reserved(s: CpuView, inst: Instruction) -> Step {
    let size = spec_width(inst.opc);
    let acc = spec_access(s, TransFor::Load, size, s.regs[inst.rs1->Some_0 as int]);
    match acc.result {
        Err(e) => raise(acc.state, e),
        Ok(paddr) => match acc.state.bus.load(paddr, size, true) {
            Err(e) => raise(acc.state, e),
            Ok(v) => retire_rd(CpuView { reservation: Some(paddr), ..acc.state }, inst.rd, v, 4),
        },
    }
}

/// Store-conditional: stores `rs2` to the address in `rs1` and writes 0 to
/// `rd` if the hart holds a reservation for that physical address; writes 1
/// to `rd` and leaves memory as it is if not. The reservation is gone either
/// way.
pub open spec fn spec_store_conditional(s: CpuView, inst: Instruction) -> Step {
    let size = spec_width(inst.opc);
    let acc = spec_access(s, TransFor::StoreAMO, size, s.regs[inst.rs1->Some_0 as int]);
    match acc.result {
        Err(e) => raise(acc.state, e),
        Ok(paddr) => if acc.state.reservation == Some(paddr) {
            match acc.state.bus.store(paddr, s.regs[inst.rs2->Some_0 as int], size) {
                Err(e) => raise(acc.state, e),
                Ok(after) => retire_rd(
                    CpuView { bus: after, reservation: None, ..acc.state },
                    inst.rd,
                    0,
                    4,
                ),
            }
        } else {
            retire_rd(CpuView { reservation: None, ..acc.state }, inst.rd, 1, 4)
        },
    }
}

/// An atomic memory operation: reads the value at the address in `rs1`,
/// sign-extended, stores what the operation makes of it and `rs2`, and
/// writes the value read to `rd`. The address is translated and checked as
/// a store before the read, so the operation happens whole or not at all.
pub open spec fn spec_read_modify_write(s: CpuView, inst: Instruction) -> Step {
    let size = spec_width(inst.opc);
    let acc = spec_access(s, TransFor::StoreAMO, size, s.regs[inst.rs1->Some_0 as int]);
    match acc.result {
        Err(e) => raise(acc.state, e),
        Ok(paddr) => match acc.state.bus.load(paddr, size, true) {
            Err(_) => raise(
                acc.state,
                Fault { addr: Some(paddr), cause: TrapCause::StoreAMOAccessFault },
            ),
            Ok(old) => match acc.state.bus.store(
                paddr,
                spec_amo(inst.opc, old, s.regs[inst.rs2->Some_0 as int]),
                size,
            ) {
                Err(e) => raise(acc.state, e),
                Ok(after) => retire_rd(
                    CpuView {
                        bus: after,
                        reservation: spec_release(acc.state.reservation, paddr),
                        ..acc.state
                    },
                    inst.rd,
                    old,
                    4,
                ),
            },
        },
    }
}

/// Whether the record has the operands of an atomic: a destination, an
/// address register and, except for load-reserved, a source register.
pub open spec fn operands_ok(inst: Instruction) -> bool {
    &&& inst.opc.spec_extension() == Extensions::A
    &&& has_reg(inst.rd)
    &&& has_reg(inst.rs1)
    &&& (inst.opc == OpecodeKind::OP_LR_W || inst.opc == OpecodeKind::OP_LR_D || has_reg(
        inst.rs2,
    ))
}

/// What an atomic instruction does to the hart.
pub open spec fn spec_exec(s: CpuView, inst: Instruction) -> Step {
    match inst.opc {
        OpecodeKind::OP_LR_W | OpecodeKind::OP_LR_D => spec_load_reserved(s, inst),
        OpecodeKind::OP_SC_W | OpecodeKind::OP_SC_D => spec_store_conditional(s, inst),
        _ => spec_read_modify_write(s, inst),
    }
}

fn load_reserved(inst: &Instruction, cpu: &mut CPU) -> (r: Result<(), Fault>)
    requires
        old(cpu).wf(),
        operands_ok(*inst),
        inst.opc == OpecodeKind::OP_LR_W || inst.opc == OpecodeKind::OP_LR_D,
        spec_trigger_supported(old(cpu).csrs@, old(cpu).priv_lv),
    ensures
        final(cpu).wf(),
        final(cpu)@ == spec_load_reserved(old(cpu)@, *inst).state,
        r == spec_load_reserved(old(cpu)@, *inst).result,
        old(cpu)@.pc % 2 == 0 && inst.offset_aligned() ==> final(cpu)@.pc % 2 == 0,
{
    let size = width(inst.opc);
    let vaddr = cpu.regs.read(inst.rs1);
    let paddr = cpu.trans_addr(TransFor::Load, size, vaddr)?;
    let v = cpu.load(size, true, paddr)?;
    cpu.reservation = Some(paddr);
    cpu.regs.write(inst.rd, v);
    cpu.pc = address_at(cpu.pc, 4, cpu.isa);
    Ok(())
}

fn store_conditional(inst: &Instruction, cpu: &mut CPU) -> (r: Result<(), Fault>)
    requires
        old(cpu).wf(),
        operands_ok(*inst),
        inst.opc == OpecodeKind::OP_SC_W || inst.opc == OpecodeKind::OP_SC_D,
        spec_trigger_supported(old(cpu).csrs@, old(cpu).priv_lv),
    ensures
        final(cpu).wf(),
        final(cpu)@ == spec_store_conditional(old(cpu)@, *inst).state,
        r == spec_store_conditional(old(cpu)@, *inst).result,
        old(cpu)@.pc % 2 == 0 && inst.offset_aligned() ==> final(cpu)@.pc % 2 == 0,
{
    let size = width(inst.opc);
    let vaddr = cpu.regs.read(inst.rs1);
    let data = cpu.regs.read(inst.rs2);
    let paddr = cpu.trans_addr(TransFor::StoreAMO, size, vaddr)?;
    let held = match cpu.reservation {
        Some(r) => r == paddr,
        None => false,
    };
    if held {
        cpu.store(size, paddr, data)?;
        cpu.regs.write(inst.rd, 0);
    } else {
        cpu.regs.write(inst.rd, 1);
    }
    cpu.reservation = None;
    cpu.pc = address_at(cpu.pc, 4, cpu.isa);
    Ok(())
}

fn read_modify_write(inst: &Instruction, cpu: &mut CPU) -> (r: Result<(), Fault>)
    requires
        old(cpu).wf(),
        operands_ok(*inst),
        inst.opc != OpecodeKind::OP_LR_W,
        inst.opc != OpecodeKind::OP_LR_D,
        inst.opc != OpecodeKind::OP_SC_W,
        inst.opc != OpecodeKind::OP_SC_D,
        spec_trigger_supported(old(cpu).csrs@, old(cpu).priv_lv),
    ensures
        final(cpu).wf(),
        final(cpu)@ == spec_read_modify_write(old(cpu)@, *inst).state,
        r == spec_read_modify_write(old(cpu)@, *inst).result,
        old(cpu)@.pc % 2 == 0 && inst.offset_aligned() ==> final(cpu)@.pc % 2 == 0,
{
    let size = width(inst.opc);
    let vaddr = cpu.regs.read(inst.rs1);
    let src = cpu.regs.read(inst.rs2);
    let paddr = cpu.trans_addr(TransFor::StoreAMO, size, vaddr)?;
    let old = match cpu.load(size, true, paddr) {
        Ok(old) => old,
        Err(_) => {
            return Err(Fault { addr: Some(paddr), cause: TrapCause::StoreAMOAccessFault });
        },
    };
    cpu.store(size, paddr, amo(inst.opc, old, src))?;
    cpu.release(paddr);
    cpu.regs.write(inst.rd, old);
    cpu.pc = address_at(cpu.pc, 4, cpu.isa);
    Ok(())
}

/// Executes an atomic instruction.
pub fn exec(inst: &Instruction, cpu: &mut CPU) -> (r: Result<(), Fault>)
    requires
        old(cpu).wf(),
        operands_ok(*inst),
        spec_trigger_supported(old(cpu).csrs@, old(cpu).priv_lv),
    ensures
        final(cpu).wf(),
        final(cpu)@ == spec_exec(old(cpu)@, *inst).state,
        r == spec_exec(old(cpu)@, *inst).result,
        old(cpu)@.pc % 2 == 0 && inst.offset_aligned() ==> final(cpu)@.pc % 2 == 0,
        final(cpu)@.regs[0] == 0,
        r is Err ==> final(cpu)@.regs == old(cpu)@.regs && final(cpu)@.pc == old(cpu)@.pc,
{
    match inst.opc {
        OpecodeKind::OP_LR_W | OpecodeKind::OP_LR_D => load_reserved(inst, cpu),
        OpecodeKind::OP_SC_W | OpecodeKind::OP_SC_D => store_conditional(inst, cpu),
        _ => read_modify_write(inst, cpu),
    }
}

} // verus!
