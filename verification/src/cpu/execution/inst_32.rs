//! Execution of the instructions with 32-bit encodings.

pub mod a_extension;
pub mod base_i;
pub mod priv_extension;
pub mod zicsr_extension;

use vstd::prelude::*;
use crate::cpu::breakpoint::spec_trigger_supported;
use crate::cpu::execution::{raise, Step};
use crate::cpu::instruction::{Extensions, Instruction};
use crate::cpu::trap::{Fault, TrapCause};
use crate::cpu::{CpuView, CPU};

verus! {

/// What an instruction with a 32-bit encoding does to the hart: what its
/// extension says.
pub open spec fn spec_exe_inst(s: CpuView, inst: Instruction) -> Step {
    match inst.opc.spec_extension() {
        Extensions::A => a_extension::spec_exec(s, inst),
        Extensions::Zicsr => zicsr_extension::spec_exec(s, inst),
        Extensions::Priv => priv_extension::spec_exec(s, inst),
        Extensions::BaseI => base_i::spec_exec(s, inst, 4),
        Extensions::C => raise(s, Fault { addr: None, cause: TrapCause::IllegalInst }),
    }
}

/// A well-formed record has the operands that the executor of its
/// extension asks for.
#[verifier::rlimit(60)]
pub proof fn lemma_operands(inst: Instruction)
    requires
        inst.wf(),
    ensures
        inst.opc.spec_extension() == Extensions::BaseI ==> base_i::operands_ok(inst),
        inst.opc.spec_extension() == Extensions::A ==> a_extension::operands_ok(inst),
        inst.opc.spec_extension() == Extensions::Zicsr ==> zicsr_extension::operands_ok(inst),
        inst.opc.spec_extension() == Extensions::Priv ==> priv_extension::operands_ok(inst),
{
}

/// Executes an instruction with a 32-bit encoding.
pub fn exe_inst(inst: &Instruction, cpu: &mut CPU) -> (r: Result<(), Fault>)
    requires
        old(cpu).wf(),
        inst.wf(),
        inst.opc.spec_extension() != Extensions::C,
        spec_trigger_supported(old(cpu).csrs@, old(cpu).priv_lv),
        priv_extension::spec_returns_ok(old(cpu)@, *inst),
    ensures
        final(cpu).wf(),
        final(cpu)@ == spec_exe_inst(old(cpu)@, *inst).state,
        r == spec_exe_inst(old(cpu)@, *inst).result,
        old(cpu)@.pc % 2 == 0 && inst.offset_aligned() ==> final(cpu)@.pc % 2 == 0,
        final(cpu)@.regs[0] == 0,
        r is Err ==> final(cpu)@.regs == old(cpu)@.regs && final(cpu)@.pc == old(cpu)@.pc,
        cpu_is_rv64(old(cpu)@) && base_i::spec_is_word_op(inst.opc) && inst.rd->Some_0 != 0
            ==> base_i::is_sign_extended(final(cpu)@.regs[inst.rd->Some_0 as int]),
{
    proof {
        lemma_operands(*inst);
    }
    match inst.opc.extension() {
        Extensions::A => a_extension::exec(inst, cpu),
        Extensions::Zicsr => zicsr_extension::exec(inst, cpu),
        Extensions::Priv => priv_extension::exec(inst, cpu),
        _ => base_i::exec(inst, cpu, 4),
    }
}

/// Whether the hart implements RV64.
pub open spec fn cpu_is_rv64(s: CpuView) -> bool {
    s.isa == crate::Isa::Rv64
}

} // verus!
