//! Execution of decoded instructions: what each instruction does to the
//! hart.

pub mod inst_16;
pub mod inst_32;

use vstd::prelude::*;
use crate::bits::{imm_to_word, wrap64};
use crate::cpu::breakpoint::spec_trigger_supported;
use crate::cpu::instruction::{Extensions, Instruction};
use crate::cpu::reg::{fix2regsz, reg_write, spec_fix2regsz};
use crate::cpu::trap::Fault;
use crate::cpu::{CpuView, CPU};
use crate::Isa;

verus! {

/// Outcome of the execution of one instruction: the hart afterwards, and
/// whether the instruction retired or raised an exception.
pub struct Step {
    pub state: CpuView,
    pub result: Result<(), Fault>,
}

/// The address of the instruction behind one of `len` bytes at the PC; the
/// PC wraps at the register width.
pub open spec fn spec_next_pc(s: CpuView, len: u64) -> u64 {
    spec_fix2regsz(wrap64(s.pc + len), s.isa)
}

/// The address `offset` bytes from the PC.
pub open spec fn spec_target(s: CpuView, offset: i32) -> u64 {
    spec_fix2regsz(wrap64(s.pc + offset), s.isa)
}

/// A word with its lowest bit cleared.
pub open spec fn spec_clear_low_bit(x: u64) -> u64 {
    (x - x % 2) as u64
}

/// Clears the lowest bit of a word.
#[verifier::when_used_as_spec(spec_clear_low_bit)]
pub fn clear_low_bit(x: u64) -> (r: u64)
    ensures
        r == spec_clear_low_bit(x),
{
    x - x % 2
}

/// Cutting a word to 32 bits keeps its parity, and so does taking `2^64`
/// off a sum.
proof fn lemma_parity(a: u64, sum: int)
    ensures
        (a % 0x1_0000_0000) % 2 == a % 2,
        sum % 2 == 0 ==> (sum - 0x1_0000_0000_0000_0000) % 2 == 0,
{
}

/// The address `offset` bytes from `base`, cut to the register width.
pub fn address_at(base: u64, offset: u64, isa: Isa) -> (r: u64)
    ensures
        r == spec_fix2regsz(wrap64(base + offset), isa),
        spec_fix2regsz(r, isa) == r,
        base % 2 == 0 && offset % 2 == 0 ==> r % 2 == 0,
{
    let sum = base.wrapping_add(offset);
    proof {
        lemma_parity(sum, base + offset);
    }
    fix2regsz(sum, isa)
}

/// The address a signed `offset` away from `base`, cut to the register
/// width.
pub fn target(base: u64, offset: i32, isa: Isa) -> (r: u64)
    ensures
        r == spec_fix2regsz(wrap64(base + offset), isa),
        spec_fix2regsz(r, isa) == r,
        base % 2 == 0 && offset % 2 == 0 ==> r % 2 == 0,
{
    proof {
        crate::cpu::lemma_wrapping_offset(base, offset);
    }
    address_at(base, imm_to_word(offset), isa)
}

/// The address a signed `offset` away from `base` with its lowest bit
/// cleared, cut to the register width.
pub fn even_target(base: u64, offset: i32, isa: Isa) -> (r: u64)
    ensures
        r == spec_fix2regsz(spec_clear_low_bit(wrap64(base + offset)), isa),
        spec_fix2regsz(r, isa) == r,
        r % 2 == 0,
{
    proof {
        crate::cpu::lemma_wrapping_offset(base, offset);
    }
    let sum = base.wrapping_add(imm_to_word(offset));
    let even = clear_low_bit(sum);
    proof {
        lemma_parity(even, 0);
    }
    fix2regsz(even, isa)
}

/// The instruction retires: the PC moves on by `len`.
pub open spec fn retire(s: CpuView, len: u64) -> Step {
    Step { state: CpuView { pc: spec_next_pc(s, len), ..s }, result: Ok(()) }
}

/// The instruction retires with `v` written to `rd`.
pub open spec fn retire_rd(s: CpuView, rd: Option<usize>, v: u64, len: u64) -> Step {
    Step {
        state: CpuView {
            pc: spec_next_pc(s, len),
            regs: reg_write(s.regs, rd->Some_0 as int, v, s.isa),
            ..s
        },
        result: Ok(()),
    }
}

/// The instruction raises an exception and leaves the hart as it is.
pub open spec fn raise(s: CpuView, fault: Fault) -> Step {
    Step { state: s, result: Err(fault) }
}

/// The reservation after a store to the physical address `paddr`: a
/// reservation on the page written to is released.
pub open spec fn spec_release(reservation: Option<u64>, paddr: u64) -> Option<u64> {
    match reservation {
        Some(r) => if r / 4096 == paddr / 4096 {
            None
        } else {
            reservation
        },
        None => None,
    }
}

/// What an instruction does to the hart: what the executor of its encoding
/// length says.
pub open spec fn spec_execution(s: CpuView, inst: Instruction) -> Step {
    match inst.opc.spec_extension() {
        Extensions::C => inst_16::spec_exe_cinst(s, inst),
        _ => inst_32::spec_exe_inst(s, inst),
    }
}

/// Whether the hart can execute the instruction: the record is well-formed,
/// the selected debug trigger is one the core implements, and a trap return
/// does not lead to the reserved privilege level.
pub open spec fn spec_can_execute(s: CpuView, inst: Instruction) -> bool {
    &&& inst.wf()
    &&& spec_trigger_supported(s.csrs, s.priv_lv)
    &&& inst_32::priv_extension::spec_returns_ok(s, inst)
}

/// Execution of a decoded instruction on a hart.
pub trait Execution {
    /// What the instruction does to the hart.
    spec fn execution_spec(&self, s: CpuView) -> Step;

    /// Whether the hart can execute the instruction.
    spec fn can_execute(&self, s: CpuView) -> bool;

    /// Whether the instruction's jump or branch offset is a multiple of two.
    spec fn aligned(&self) -> bool;

    /// Executes the instruction. It retires, or it raises an exception and
    /// leaves the registers and the PC as they were; register 0 reads as
    /// zero afterwards either way, and an even PC stays even.
    fn execution(&self, cpu: &mut CPU) -> (r: Result<(), Fault>)
        requires
            old(cpu).wf(),
            self.can_execute(old(cpu)@),
        ensures
            final(cpu).wf(),
            final(cpu)@ == self.execution_spec(old(cpu)@).state,
            r == self.execution_spec(old(cpu)@).result,
            old(cpu)@.pc % 2 == 0 && self.aligned() ==> final(cpu)@.pc % 2 == 0,
            final(cpu)@.regs[0] == 0,
            r is Err ==> final(cpu)@.regs == old(cpu)@.regs && final(cpu)@.pc == old(cpu)@.pc,
    ;
}

impl Execution for Instruction {
    open spec fn execution_spec(&self, s: CpuView) -> Step {
        spec_execution(s, *self)
    }

    open spec fn can_execute(&self, s: CpuView) -> bool {
        spec_can_execute(s, *self)
    }

    open spec fn aligned(&self) -> bool {
        self.offset_aligned()
    }

    fn execution(&self, cpu: &mut CPU) -> (r: Result<(), Fault>) {
        match self.opc_to_extension() {
            Extensions::C => inst_16::exe_cinst(self, cpu),
            _ => inst_32::exe_inst(self, cpu),
        }
    }
}

impl CPU {
    /// Tests whether the hart can execute the instruction.
    pub fn can_execute(&self, inst: &Instruction) -> (r: bool)
        requires
            self.wf(),
            inst.wf(),
        ensures
            r == spec_can_execute(self@, *inst),
    {
        self.trigger_supported() && inst_32::priv_extension::returns_ok(inst, self)
    }

    /// Releases a reservation on the page of `paddr`.
    pub fn release(&mut self, paddr: u64)
        ensures
            final(self).reservation == spec_release(old(self).reservation, paddr),
            *final(self) == (CPU { reservation: final(self).reservation, ..*old(self) }),
    {
        match self.reservation {
            Some(r) => {
                if r / 4096 == paddr / 4096 {
                    self.reservation = None;
                }
            },
            None => {},
        }
    }
}

} // verus!
