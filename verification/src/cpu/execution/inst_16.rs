//! Execution of the instructions with 16-bit encodings.

pub mod c_extension;

use vstd::prelude::*;
use crate::cpu::breakpoint::spec_trigger_supported;
use crate::cpu::execution::Step;
use crate::cpu::instruction::{Extensions, Instruction};
use crate::cpu::trap::Fault;
use crate::cpu::{CpuView, CPU};

verus! {

/// What an instruction with a 16-bit encoding does to the hart.
pub open spec fn spec_exe_cinst(s: CpuView, inst: Instruction) -> Step {
    c_extension::spec_exec(s, inst)
}

/// Executes an instruction with a 16-bit encoding.
pub fn exe_cinst(inst: &Instruction, cpu: &mut CPU) -> (r: Result<(), Fault>)
    requires
        old(cpu).wf(),
        inst.wf(),
        inst.opc.spec_extension() == Extensions::C,
        spec_trigger_supported(old(cpu).csrs@, old(cpu).priv_lv),
    ensures
        final(cpu).wf(),
        final(cpu)@ == spec_exe_cinst(old(cpu)@, *inst).state,
        r == spec_exe_cinst(old(cpu)@, *inst).result,
        old(cpu)@.pc % 2 == 0 && inst.offset_aligned() ==> final(cpu)@.pc % 2 == 0,
        final(cpu)@.regs[0] == 0,
        r is Err ==> final(cpu)@.regs == old(cpu)@.regs && final(cpu)@.pc == old(cpu)@.pc,
{
    c_extension::exec(inst, cpu)
}

} // verus!
