//! Trap causes and the compact fault record that every fallible core
//! operation returns.

use vstd::prelude::*;

verus! {

/// Architectural cause of a trap: the synchronous exceptions and the
/// software, timer and external interrupts of each privilege level.
#[allow(missing_docs)]
#[derive(Clone, Copy, PartialEq, Eq, Structural, Debug)]
pub enum TrapCause {
    InstructionAddressMisaligned,
    InstructionAccessFault,
    IllegalInst,
    Breakpoint,
    LoadAddressMisaligned,
    LoadAccessFault,
    StoreAMOAddressMisaligned,
    StoreAMOAccessFault,
    UmodeEcall,
    SmodeEcall,
    MmodeEcall,
    InstructionPageFault,
    LoadPageFault,
    StoreAMOPageFault,
    UserSoftwareInterrupt,
    SupervisorSoftwareInterrupt,
    MachineSoftwareInterrupt,
    UserTimerInterrupt,
    SupervisorTimerInterrupt,
    MachineTimerInterrupt,
    UserExternalInterrupt,
    SupervisorExternalInterrupt,
    MachineExternalInterrupt,
}

impl TrapCause {
    /// Whether the cause is an interrupt rather than a synchronous exception.
    pub open spec fn spec_is_interrupt(self) -> bool {
        match self {
            TrapCause::UserSoftwareInterrupt
            | TrapCause::SupervisorSoftwareInterrupt
            | TrapCause::MachineSoftwareInterrupt
            | TrapCause::UserTimerInterrupt
            | TrapCause::SupervisorTimerInterrupt
            | TrapCause::MachineTimerInterrupt
            | TrapCause::UserExternalInterrupt
            | TrapCause::SupervisorExternalInterrupt
            | TrapCause::MachineExternalInterrupt => true,
            _ => false,
        }
    }

    /// The exception or interrupt code written to the low bits of `xcause`.
    pub open spec fn spec_code(self) -> u64 {
        match self {
            TrapCause::InstructionAddressMisaligned => 0,
            TrapCause::InstructionAccessFault => 1,
            TrapCause::IllegalInst => 2,
            TrapCause::Breakpoint => 3,
            TrapCause::LoadAddressMisaligned => 4,
            TrapCause::LoadAccessFault => 5,
            TrapCause::StoreAMOAddressMisaligned => 6,
            TrapCause::StoreAMOAccessFault => 7,
            TrapCause::UmodeEcall => 8,
            TrapCause::SmodeEcall => 9,
            TrapCause::MmodeEcall => 11,
            TrapCause::InstructionPageFault => 12,
            TrapCause::LoadPageFault => 13,
            TrapCause::StoreAMOPageFault => 15,
            TrapCause::UserSoftwareInterrupt => 0,
            TrapCause::SupervisorSoftwareInterrupt => 1,
            TrapCause::MachineSoftwareInterrupt => 3,
            TrapCause::UserTimerInterrupt => 4,
            TrapCause::SupervisorTimerInterrupt => 5,
            TrapCause::MachineTimerInterrupt => 7,
            TrapCause::UserExternalInterrupt => 8,
            TrapCause::SupervisorExternalInterrupt => 9,
            TrapCause::MachineExternalInterrupt => 11,
        }
    }

    /// Whether the cause is an interrupt.
    #[verifier::when_used_as_spec(spec_is_interrupt)]
    pub fn is_interrupt(self) -> (r: bool)
        ensures
            r == self.spec_is_interrupt(),
    {
        match self {
            TrapCause::UserSoftwareInterrupt
            | TrapCause::SupervisorSoftwareInterrupt
            | TrapCause::MachineSoftwareInterrupt
            | TrapCause::UserTimerInterrupt
            | TrapCause::SupervisorTimerInterrupt
            | TrapCause::MachineTimerInterrupt
            | TrapCause::UserExternalInterrupt
            | TrapCause::SupervisorExternalInterrupt
            | TrapCause::MachineExternalInterrupt => true,
            _ => false,
        }
    }

    /// The exception or interrupt code of the cause.
    #[verifier::when_used_as_spec(spec_code)]
    pub fn code(self) -> (r: u64)
        ensures
            r == self.spec_code(),
            r < 16,
    {
        match self {
            TrapCause::InstructionAddressMisaligned => 0,
            TrapCause::InstructionAccessFault => 1,
            TrapCause::IllegalInst => 2,
            TrapCause::Breakpoint => 3,
            TrapCause::LoadAddressMisaligned => 4,
            TrapCause::LoadAccessFault => 5,
            TrapCause::StoreAMOAddressMisaligned => 6,
            TrapCause::StoreAMOAccessFault => 7,
            TrapCause::UmodeEcall => 8,
            TrapCause::SmodeEcall => 9,
            TrapCause::MmodeEcall => 11,
            TrapCause::InstructionPageFault => 12,
            TrapCause::LoadPageFault => 13,
            TrapCause::StoreAMOPageFault => 15,
            TrapCause::UserSoftwareInterrupt => 0,
            TrapCause::SupervisorSoftwareInterrupt => 1,
            TrapCause::MachineSoftwareInterrupt => 3,
            TrapCause::UserTimerInterrupt => 4,
            TrapCause::SupervisorTimerInterrupt => 5,
            TrapCause::MachineTimerInterrupt => 7,
            TrapCause::UserExternalInterrupt => 8,
            TrapCause::SupervisorExternalInterrupt => 9,
            TrapCause::MachineExternalInterrupt => 11,
        }
    }
}

/// What an address translation is for; selects the permission that the page
/// must grant and the cause of the fault when it does not.
#[derive(Clone, Copy, PartialEq, Eq, Structural, Debug)]
pub enum TransFor {
    Fetch,
    Load,
    StoreAMO,
    Deleg,
}

/// Width of a memory access; also the alignment that its address must have.
#[derive(Clone, Copy, PartialEq, Eq, Structural, Debug)]
pub enum TransAlign {
    Size8,
    Size16,
    Size32,
    Size64,
}

impl TransAlign {
    /// Number of bytes the access covers.
    pub open spec fn spec_bytes(self) -> u64 {
        match self {
            TransAlign::Size8 => 1,
            TransAlign::Size16 => 2,
            TransAlign::Size32 => 4,
            TransAlign::Size64 => 8,
        }
    }

    /// Number of bytes the access covers.
    #[verifier::when_used_as_spec(spec_bytes)]
    pub fn bytes(self) -> (r: u64)
        ensures
            r == self.spec_bytes(),
    {
        match self {
            TransAlign::Size8 => 1,
            TransAlign::Size16 => 2,
            TransAlign::Size32 => 4,
            TransAlign::Size64 => 8,
        }
    }
}

/// A raised trap before delivery: its cause and, where there is one, the
/// value for `xtval` (a faulting address or an offending encoding).
#[derive(Clone, Copy, PartialEq, Eq, Structural, Debug)]
pub struct Fault {
    pub addr: Option<u64>,
    pub cause: TrapCause,
}

} // verus!
