//! The debug trigger module: address-match triggers that raise a breakpoint
//! before an access completes.

use vstd::prelude::*;
use crate::cpu::csr::{CsrView, TDATA1, TDATA2};
use crate::cpu::trap::{Fault, TransFor, TrapCause};
use crate::cpu::{PrivilegedLevel, CPU};
use crate::Isa;

verus! {

/// Bit of `tdata1` that arms the trigger for loads.
pub const TRIGGER_LOAD: u64 = 0;

/// Bit of `tdata1` that arms the trigger for stores.
pub const TRIGGER_STORE: u64 = 1;

/// Bit of `tdata1` that arms the trigger for fetches.
pub const TRIGGER_EXECUTE: u64 = 2;

/// The type of the selected trigger: the top four bits of `tdata1`.
pub open spec fn spec_trigger_type(tdata1: u64, isa: Isa) -> u64 {
    match isa {
        Isa::Rv32 => (tdata1 >> 28) & 0xF,
        Isa::Rv64 => (tdata1 >> 60) & 0xF,
    }
}

/// Whether the trigger is enabled at `priv_lv`: bit 6 of `tdata1` enables it
/// in machine mode, bit 4 in supervisor mode, bit 3 in user mode.
pub open spec fn spec_trigger_enabled(tdata1: u64, priv_lv: PrivilegedLevel) -> bool {
    match priv_lv {
        PrivilegedLevel::Machine => (tdata1 >> 6) & 0x1 == 1,
        PrivilegedLevel::Supervisor => (tdata1 >> 4) & 0x1 == 1,
        PrivilegedLevel::User => (tdata1 >> 3) & 0x1 == 1,
        PrivilegedLevel::Reserved => false,
    }
}

/// Whether the selected trigger is one this core implements: no trigger
/// (type 0), or an address match trigger (type 2) that is disabled at
/// `priv_lv` or matches on equality (match mode 0, bits 10:7).
pub open spec fn spec_trigger_supported(csr: CsrView, priv_lv: PrivilegedLevel) -> bool {
    let tdata1 = csr.regs[TDATA1 as int];
    let trigger_type = spec_trigger_type(tdata1, csr.isa);
    trigger_type == 0 || (trigger_type == 2 && (!spec_trigger_enabled(tdata1, priv_lv) || (tdata1
        >> 7) & 0xF == 0))
}

/// The bit of `tdata1` that arms the trigger for an access of a purpose.
pub open spec fn spec_trigger_bit(purpose: TransFor) -> u64 {
    match purpose {
        TransFor::Fetch | TransFor::Deleg => TRIGGER_EXECUTE,
        TransFor::Load => TRIGGER_LOAD,
        TransFor::StoreAMO => TRIGGER_STORE,
    }
}

/// Whether the selected trigger fires on an access for `purpose` at `addr`:
/// it is an address match trigger enabled at `priv_lv` and armed for the
/// purpose, and `addr` is the address in `tdata2`.
pub open spec fn spec_trigger_fires(
    csr: CsrView,
    priv_lv: PrivilegedLevel,
    purpose: TransFor,
    addr: u64,
) -> bool {
    let tdata1 = csr.regs[TDATA1 as int];
    &&& spec_trigger_type(tdata1, csr.isa) == 2
    &&& spec_trigger_enabled(tdata1, priv_lv)
    &&& addr == csr.regs[TDATA2 as int]
    &&& (tdata1 >> spec_trigger_bit(purpose)) & 0x1 == 1
}

/// What the trigger module makes of an access: a breakpoint with the
/// address as value where the trigger fires, the address otherwise.
pub open spec fn spec_check_breakpoint(
    csr: CsrView,
    priv_lv: PrivilegedLevel,
    purpose: TransFor,
    addr: u64,
) -> Result<u64, Fault> {
    if spec_trigger_fires(csr, priv_lv, purpose, addr) {
        Err(Fault { addr: Some(addr), cause: TrapCause::Breakpoint })
    } else {
        Ok(addr)
    }
}

impl CPU {
    /// Tests whether the selected trigger is one this core implements.
    pub fn trigger_supported(&self) -> (r: bool)
        requires
            self.wf(),
        ensures
            r == spec_trigger_supported(self.csrs@, self.priv_lv),
    {
        let tdata1 = self.csrs.csrs[TDATA1];
        let trigger_type = match self.isa {
            Isa::Rv32 => (tdata1 >> 28) & 0xF,
            Isa::Rv64 => (tdata1 >> 60) & 0xF,
        };
        trigger_type == 0 || (trigger_type == 2 && (!self.trigger_enabled(tdata1) || (tdata1 >> 7)
            & 0xF == 0))
    }

    fn trigger_enabled(&self, tdata1: u64) -> (r: bool)
        ensures
            r == spec_trigger_enabled(tdata1, self.priv_lv),
    {
        match self.priv_lv {
            PrivilegedLevel::Machine => (tdata1 >> 6) & 0x1 == 1,
            PrivilegedLevel::Supervisor => (tdata1 >> 4) & 0x1 == 1,
            PrivilegedLevel::User => (tdata1 >> 3) & 0x1 == 1,
            PrivilegedLevel::Reserved => false,
        }
    }

    /// Lets an access for `purpose` at the translated address `addr` pass,
    /// or raises the breakpoint of a trigger that fires on it.
    pub fn check_breakpoint(&self, purpose: &TransFor, addr: u64) -> (r: Result<u64, Fault>)
        requires
            self.wf(),
            spec_trigger_supported(self.csrs@, self.priv_lv),
        ensures
            r == spec_check_breakpoint(self.csrs@, self.priv_lv, *purpose, addr),
    {
        let tdata1 = self.csrs.csrs[TDATA1];
        let trigger_type = match self.isa {
            Isa::Rv32 => (tdata1 >> 28) & 0xF,
            Isa::Rv64 => (tdata1 >> 60) & 0xF,
        };

        match trigger_type {
            0x2 => {
                let tdata2 = self.csrs.csrs[TDATA2];
                if !self.trigger_enabled(tdata1) {
                    return Ok(addr);
                }
                let armed = match purpose {
                    TransFor::Fetch | TransFor::Deleg => (tdata1 >> TRIGGER_EXECUTE) & 0x1 == 1,
                    TransFor::Load => (tdata1 >> TRIGGER_LOAD) & 0x1 == 1,
                    TransFor::StoreAMO => (tdata1 >> TRIGGER_STORE) & 0x1 == 1,
                };
                if addr == tdata2 && armed {
                    return Err(Fault { addr: Some(addr), cause: TrapCause::Breakpoint });
                }
                Ok(addr)
            },
            _ => Ok(addr),
        }
    }
}

} // verus!
