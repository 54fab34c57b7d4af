//! One cycle of the hart: take a pending interrupt, or fetch, decode and
//! execute one instruction.

use vstd::prelude::*;
use crate::cpu::breakpoint::spec_trigger_supported;
use crate::cpu::execution::inst_32::priv_extension::{returns_ok, spec_returns_ok};
use crate::cpu::execution::{spec_execution, Execution};
use crate::cpu::fetch::spec_fetch;
use crate::cpu::trap::Fault;
use crate::cpu::{spec_pending_interrupt, spec_trap, CpuView, CPU};

verus! {

/// Why a cycle did not complete.
#[derive(Clone, Copy, PartialEq, Eq, Structural, Debug)]
pub enum Stop {
    /// An exception was raised; it is to be delivered as a trap.
    Trap(Fault),
    /// The selected debug trigger is of a kind the core does not implement.
    UnsupportedTrigger,
    /// A trap return would enter the reserved privilege level.
    ReservedPrivilege,
}

/// Outcome of a cycle: the hart afterwards, and whether the cycle completed.
pub struct Cycle {
    pub state: CpuView,
    pub result: Result<(), Stop>,
}

/// One cycle. A pending interrupt that can be taken is entered, with value
/// 0, in place of an instruction. Otherwise the instruction at the PC is
/// fetched, decoded and executed; a fault of any of the three steps stops
/// the cycle with the exception to deliver. The cycle also stops, before it
/// touches memory, on a debug trigger the core does not implement, and,
/// before it executes, on a trap return to the reserved privilege level.
pub open spec fn spec_cycle(s: CpuView) -> Cycle {
    match spec_pending_interrupt(s.csrs, s.priv_lv) {
        Some(cause) => Cycle { state: spec_trap(s, 0, cause), result: Ok(()) },
        None => if !spec_trigger_supported(s.csrs, s.priv_lv) {
            Cycle { state: s, result: Err(Stop::UnsupportedTrigger) }
        } else {
            let fetched = spec_fetch(s);
            match fetched.result {
                Err(e) => Cycle { state: fetched.state, result: Err(Stop::Trap(e)) },
                Ok(raw) => match raw.decode_spec(s.isa) {
                    Err(e) => Cycle { state: fetched.state, result: Err(Stop::Trap(e)) },
                    Ok(inst) => if !spec_returns_ok(fetched.state, inst) {
                        Cycle { state: fetched.state, result: Err(Stop::ReservedPrivilege) }
                    } else {
                        let step = spec_execution(fetched.state, inst);
                        Cycle {
                            state: step.state,
                            result: match step.result {
                                Ok(()) => Ok(()),
                                Err(e) => Err(Stop::Trap(e)),
                            },
                        }
                    },
                },
            }
        },
    }
}

impl CPU {
    /// Runs one cycle. Where the cycle stops, the registers and the PC are
    /// as they were at its start; an even PC stays even over the cycle.
    pub fn exec_one_cycle(&mut self) -> (r: Result<(), Stop>)
        requires
            old(self).wf(),
        ensures
            final(self).wf(),
            final(self)@ == spec_cycle(old(self)@).state,
            r == spec_cycle(old(self)@).result,
            final(self)@.regs[0] == 0,
            r is Err ==> final(self)@.regs == old(self)@.regs && final(self)@.pc == old(self)@.pc,
            old(self)@.pc % 2 == 0 ==> final(self)@.pc % 2 == 0,
    {
        match self.check_interrupt() {
            Some(cause) => {
                self.trap(0, cause);
                return Ok(());
            },
            None => {},
        }
        if !self.trigger_supported() {
            return Err(Stop::UnsupportedTrigger);
        }
        let raw = match self.fetch() {
            Ok(raw) => raw,
            Err(e) => { return Err(Stop::Trap(e)); },
        };
        let inst = match raw.decode(self.isa) {
            Ok(inst) => inst,
            Err(e) => { return Err(Stop::Trap(e)); },
        };
        if !returns_ok(&inst, self) {
            return Err(Stop::ReservedPrivilege);
        }
        match inst.execution(self) {
            Ok(()) => Ok(()),
            Err(e) => Err(Stop::Trap(e)),
        }
    }
}

} // verus!
