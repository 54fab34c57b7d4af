//! The hart: program counter, registers, CSR file, privilege level, MMU and
//! bus, with trap entry and interrupt selection.

pub mod breakpoint;
pub mod csr;
pub mod decode;
pub mod execution;
pub mod fetch;
pub mod instruction;
pub mod mmu;
pub mod reg;
pub mod trap;
pub mod cycle;

use vstd::prelude::*;
use crate::bits::{imm_to_word, wrap64};
use crate::bus::{Bus, BusView};
use crate::cpu::csr::{status_field, with_status_field, CSRs, CsrView, Xstatus, MCAUSE, MEDELEG,
    MEPC, MIDELEG, MIE, MIP, MSTATUS, MTVAL, MTVEC, SCAUSE, SEPC, STVAL, STVEC};
use crate::cpu::mmu::tlb::{tlb_flush, TlbEntry};
use crate::cpu::mmu::MMU;
use crate::cpu::reg::{fix2regsz, spec_fix2regsz, Register};
use crate::cpu::trap::TrapCause;
use crate::Isa;

verus! {

/// Privilege level of the hart. The encoding 2 is reserved and never entered.
#[derive(Clone, Copy, PartialEq, Eq, Structural, Debug)]
pub enum PrivilegedLevel {
    User,
    Supervisor,
    Reserved,
    Machine,
}

impl PrivilegedLevel {
    /// The level's two-bit encoding.
    pub open spec fn spec_level(self) -> u64 {
        match self {
            PrivilegedLevel::User => 0,
            PrivilegedLevel::Supervisor => 1,
            PrivilegedLevel::Reserved => 2,
            PrivilegedLevel::Machine => 3,
        }
    }

    /// The level's two-bit encoding.
    #[verifier::when_used_as_spec(spec_level)]
    pub fn level(self) -> (r: u64)
        ensures
            r == self.spec_level(),
    {
        match self {
            PrivilegedLevel::User => 0,
            PrivilegedLevel::Supervisor => 1,
            PrivilegedLevel::Reserved => 2,
            PrivilegedLevel::Machine => 3,
        }
    }

    /// The level that a two-bit field encodes.
    pub open spec fn spec_from_level(bits: u64) -> PrivilegedLevel {
        if bits == 0 {
            PrivilegedLevel::User
        } else if bits == 1 {
            PrivilegedLevel::Supervisor
        } else if bits == 3 {
            PrivilegedLevel::Machine
        } else {
            PrivilegedLevel::Reserved
        }
    }

    /// The level that a two-bit field encodes.
    #[verifier::when_used_as_spec(spec_from_level)]
    pub fn from_level(bits: u64) -> (r: PrivilegedLevel)
        ensures
            r == Self::spec_from_level(bits),
    {
        if bits == 0 {
            PrivilegedLevel::User
        } else if bits == 1 {
            PrivilegedLevel::Supervisor
        } else if bits == 3 {
            PrivilegedLevel::Machine
        } else {
            PrivilegedLevel::Reserved
        }
    }
}

/// The hart's state as a value.
pub struct CpuView {
    pub pc: u64,
    pub regs: Seq<u64>,
    pub csrs: CsrView,
    pub priv_lv: PrivilegedLevel,
    pub bus: BusView,
    pub tlb: Seq<Option<TlbEntry>>,
    pub reservation: Option<u64>,
    pub isa: Isa,
}

/// The privilege level a trap is delivered to: supervisor when the trap
/// comes from supervisor or user mode and its bit is set in `medeleg` (for
/// an exception) or `mideleg` (for an interrupt); machine otherwise.
pub open spec fn trap_dest(csr: CsrView, priv_lv: PrivilegedLevel, cause: TrapCause)
    -> PrivilegedLevel {
    let deleg = if cause.spec_is_interrupt() {
        csr.regs[MIDELEG as int]
    } else {
        csr.regs[MEDELEG as int]
    };
    if priv_lv.spec_level() <= 1 && (deleg >> cause.spec_code()) & 1 == 1 {
        PrivilegedLevel::Supervisor
    } else {
        PrivilegedLevel::Machine
    }
}

/// The value of `xcause` for a cause: its code, with the top bit of the
/// register set for an interrupt.
pub open spec fn spec_cause_word(cause: TrapCause, isa: Isa) -> u64 {
    if cause.spec_is_interrupt() {
        match isa {
            Isa::Rv32 => (cause.spec_code() + 0x8000_0000) as u64,
            Isa::Rv64 => (cause.spec_code() + 0x8000_0000_0000_0000) as u64,
        }
    } else {
        cause.spec_code()
    }
}

/// The address a trap jumps to under a value of `xtvec`: the base, and for
/// an interrupt in vectored mode the base plus four times the cause code.
pub open spec fn spec_trap_vector(tvec: u64, cause: TrapCause, isa: Isa) -> u64 {
    let base = (tvec - tvec % 4) as u64;
    if tvec % 4 == 1 && cause.spec_is_interrupt() {
        spec_fix2regsz(wrap64(base + 4 * cause.spec_code()), isa)
    } else {
        spec_fix2regsz(base, isa)
    }
}

/// The interrupt-enable field of the status register of a level.
pub open spec fn spec_xie(level: PrivilegedLevel) -> Xstatus {
    match level {
        PrivilegedLevel::Machine => Xstatus::MIE,
        PrivilegedLevel::Supervisor => Xstatus::SIE,
        _ => Xstatus::UIE,
    }
}

/// The previous-interrupt-enable field of the status register of a level.
pub open spec fn spec_xpie(level: PrivilegedLevel) -> Xstatus {
    match level {
        PrivilegedLevel::Machine => Xstatus::MPIE,
        PrivilegedLevel::Supervisor => Xstatus::SPIE,
        _ => Xstatus::UPIE,
    }
}

/// The previous-privilege field of the status register of a level; user
/// mode has none.
pub open spec fn spec_xpp(level: PrivilegedLevel) -> Xstatus {
    match level {
        PrivilegedLevel::Machine => Xstatus::MPP,
        _ => Xstatus::SPP,
    }
}

/// The interrupt-enable field of the status register of a level.
#[verifier::when_used_as_spec(spec_xie)]
pub fn xie(level: PrivilegedLevel) -> (r: Xstatus)
    ensures
        r == spec_xie(level),
{
    match level {
        PrivilegedLevel::Machine => Xstatus::MIE,
        PrivilegedLevel::Supervisor => Xstatus::SIE,
        _ => Xstatus::UIE,
    }
}

/// The previous-interrupt-enable field of the status register of a level.
#[verifier::when_used_as_spec(spec_xpie)]
pub fn xpie(level: PrivilegedLevel) -> (r: Xstatus)
    ensures
        r == spec_xpie(level),
{
    match level {
        PrivilegedLevel::Machine => Xstatus::MPIE,
        PrivilegedLevel::Supervisor => Xstatus::SPIE,
        _ => Xstatus::UPIE,
    }
}

/// The previous-privilege field of the status register of a level.
#[verifier::when_used_as_spec(spec_xpp)]
pub fn xpp(level: PrivilegedLevel) -> (r: Xstatus)
    ensures
        r == spec_xpp(level),
{
    match level {
        PrivilegedLevel::Machine => Xstatus::MPP,
        _ => Xstatus::SPP,
    }
}

/// The status word after trap entry at `dst` from privilege `from`: `xPIE`
/// takes the value of `xIE`, `xIE` is cleared and `xPP` records `from`.
pub open spec fn spec_trap_status(word: u64, dst: PrivilegedLevel, from: PrivilegedLevel, isa: Isa)
    -> u64 {
    let saved = with_status_field(
        word,
        spec_xpie(dst),
        isa,
        status_field(word, spec_xie(dst), isa),
    );
    let masked = with_status_field(saved, spec_xie(dst), isa, 0);
    with_status_field(masked, spec_xpp(dst), isa, from.spec_level())
}

/// The status word after a trap return from `level`: `xIE` takes the value
/// of `xPIE`, `xPIE` is set and `xPP`, where the level has one, is set to
/// user.
pub open spec fn spec_return_status(word: u64, level: PrivilegedLevel, isa: Isa) -> u64 {
    let restored = with_status_field(
        word,
        spec_xie(level),
        isa,
        status_field(word, spec_xpie(level), isa),
    );
    let armed = with_status_field(restored, spec_xpie(level), isa, 1);
    if level == PrivilegedLevel::User {
        armed
    } else {
        with_status_field(armed, spec_xpp(level), isa, 0)
    }
}

/// Address of the `xepc` register of a level.
pub open spec fn spec_xepc_addr(level: PrivilegedLevel) -> usize {
    match level {
        PrivilegedLevel::Machine => MEPC,
        PrivilegedLevel::Supervisor => SEPC,
        _ => crate::cpu::csr::UEPC,
    }
}

/// The translation buffer after the privilege level goes from `from` to
/// `to`: a change of level empties it.
pub open spec fn spec_switch_tlb(
    tlb: Seq<Option<TlbEntry>>,
    from: PrivilegedLevel,
    to: PrivilegedLevel,
) -> Seq<Option<TlbEntry>> {
    if from == to {
        tlb
    } else {
        tlb_flush(tlb, None, None)
    }
}

/// The hart after entry into the trap `cause` with value `tval`: at the
/// destination level `xepc` holds the PC, `xcause` the cause and `xtval` the
/// value; the status word saves the interrupt enable and the privilege the
/// trap came from; the hart runs at the destination level from the address
/// `xtvec` gives, and holds no reservation.
pub open spec fn spec_trap(s: CpuView, tval: u64, cause: TrapCause) -> CpuView {
    let dst = trap_dest(s.csrs, s.priv_lv, cause);
    let status = spec_trap_status(s.csrs.regs[MSTATUS as int], dst, s.priv_lv, s.isa);
    let word = spec_cause_word(cause, s.isa);
    let tlb = spec_switch_tlb(s.tlb, s.priv_lv, dst);
    if dst == PrivilegedLevel::Supervisor {
        CpuView {
            pc: spec_trap_vector(s.csrs.regs[STVEC as int], cause, s.isa),
            csrs: s.csrs.write(SEPC as int, s.pc).write(SCAUSE as int, word).write(
                STVAL as int,
                tval,
            ).write(MSTATUS as int, status),
            priv_lv: dst,
            tlb,
            reservation: None,
            ..s
        }
    } else {
        CpuView {
            pc: spec_trap_vector(s.csrs.regs[MTVEC as int], cause, s.isa),
            csrs: s.csrs.write(MEPC as int, s.pc).write(MCAUSE as int, word).write(
                MTVAL as int,
                tval,
            ).write(MSTATUS as int, status),
            priv_lv: dst,
            tlb,
            reservation: None,
            ..s
        }
    }
}

/// The level a trap return from `level` goes back to: the one `xPP` holds;
/// user mode returns to user mode.
pub open spec fn spec_return_level(csr: CsrView, level: PrivilegedLevel) -> PrivilegedLevel {
    if level == PrivilegedLevel::User {
        PrivilegedLevel::User
    } else {
        PrivilegedLevel::spec_from_level(
            status_field(csr.regs[MSTATUS as int], spec_xpp(level), csr.isa),
        )
    }
}

/// The hart after the trap return of `level` (`mret`, `sret` or `uret`): it
/// runs at the level `xPP` holds, from the address `xepc` reads as; `xIE`
/// takes the value of `xPIE`, `xPIE` is set, `xPP` is set to user; the
/// reservation is gone, and so are the cached translations if the level
/// changes.
pub open spec fn spec_trap_return(s: CpuView, level: PrivilegedLevel) -> CpuView {
    CpuView {
        pc: spec_fix2regsz(s.csrs.read(spec_xepc_addr(level) as int), s.isa),
        csrs: s.csrs.write(
            MSTATUS as int,
            spec_return_status(s.csrs.regs[MSTATUS as int], level, s.isa),
        ),
        priv_lv: spec_return_level(s.csrs, level),
        tlb: spec_switch_tlb(s.tlb, s.priv_lv, spec_return_level(s.csrs, level)),
        reservation: None,
        ..s
    }
}

/// Whether an interrupt is taken now: it is pending and enabled, and its
/// destination level is above the current one, or is the current one with
/// interrupts enabled there.
pub open spec fn spec_takeable(csr: CsrView, priv_lv: PrivilegedLevel, cause: TrapCause) -> bool {
    let dst = trap_dest(csr, priv_lv, cause);
    &&& (csr.regs[MIP as int] >> cause.spec_code()) & 1 == 1
    &&& (csr.regs[MIE as int] >> cause.spec_code()) & 1 == 1
    &&& (priv_lv.spec_level() < dst.spec_level() || (priv_lv == dst && status_field(
        csr.regs[MSTATUS as int],
        spec_xie(dst),
        csr.isa,
    ) == 1))
}

/// The interrupts from the highest priority down: external before software
/// before timer, and within each machine before supervisor before user.
pub open spec fn interrupt_order() -> Seq<TrapCause> {
    seq![
        TrapCause::MachineExternalInterrupt,
        TrapCause::SupervisorExternalInterrupt,
        TrapCause::UserExternalInterrupt,
        TrapCause::MachineSoftwareInterrupt,
        TrapCause::SupervisorSoftwareInterrupt,
        TrapCause::UserSoftwareInterrupt,
        TrapCause::MachineTimerInterrupt,
        TrapCause::SupervisorTimerInterrupt,
        TrapCause::UserTimerInterrupt,
    ]
}

/// The first interrupt among `order[from..]` that is taken now.
pub open spec fn first_takeable(
    csr: CsrView,
    priv_lv: PrivilegedLevel,
    order: Seq<TrapCause>,
    from: int,
) -> Option<TrapCause>
    decreases order.len() - from,
{
    if from < 0 || from >= order.len() {
        None
    } else if spec_takeable(csr, priv_lv, order[from]) {
        Some(order[from])
    } else {
        first_takeable(csr, priv_lv, order, from + 1)
    }
}

/// The interrupt to take between two instructions, if any: the one of
/// highest priority that is taken now.
pub open spec fn spec_pending_interrupt(csr: CsrView, priv_lv: PrivilegedLevel) -> Option<
    TrapCause,
> {
    first_takeable(csr, priv_lv, interrupt_order(), 0)
}

/// The hart after reset: in machine mode at `entry_address`, with zeroed
/// registers, the CSRs in their reset state, an empty translation buffer
/// and no reservation.
pub open spec fn spec_reset(entry_address: u64, bus: BusView, isa: Isa) -> CpuView {
    CpuView {
        pc: spec_fix2regsz(entry_address, isa),
        regs: Seq::new(32, |i: int| 0u64),
        csrs: crate::cpu::csr::spec_reset_csrs(isa),
        priv_lv: PrivilegedLevel::Machine,
        bus,
        tlb: crate::cpu::mmu::tlb::spec_empty_tlb(),
        reservation: None,
        isa,
    }
}

/// The hart.
pub struct CPU {
    pub pc: u64,
    pub regs: Register,
    pub csrs: CSRs,
    pub mmu: MMU,
    pub bus: Bus,
    pub priv_lv: PrivilegedLevel,
    pub reservation: Option<u64>,
    pub isa: Isa,
}

impl CPU {
    /// The hart's state as a value.
    pub open spec fn view(&self) -> CpuView {
        CpuView {
            pc: self.pc,
            regs: self.regs@,
            csrs: self.csrs@,
            priv_lv: self.priv_lv,
            bus: self.bus@,
            tlb: self.mmu@,
            reservation: self.reservation,
            isa: self.isa,
        }
    }

    /// The parts are well-formed and of one ISA, the PC fits the register
    /// width, and the privilege level is not the reserved one.
    pub open spec fn wf(&self) -> bool {
        &&& self.regs.isa == self.isa
        &&& self.csrs.isa == self.isa
        &&& self.csrs.wf()
        &&& self.mmu.wf()
        &&& self.bus.wf()
        &&& self.priv_lv != PrivilegedLevel::Reserved
        &&& spec_fix2regsz(self.pc, self.isa) == self.pc
    }

    /// A hart in machine mode with zeroed registers, `misa` set for `isa` and
    /// every other CSR zero, about to run at `entry_address`.
    pub fn new(entry_address: u64, bus: Bus, isa: Isa) -> (r: CPU)
        requires
            bus.wf(),
        ensures
            r.wf(),
            r@ == spec_reset(entry_address, bus@, isa),
    {
        let csrs = CSRs::new(isa).init();
        CPU {
            pc: fix2regsz(entry_address, isa),
            regs: Register::new(isa),
            csrs,
            mmu: MMU::new(),
            bus,
            priv_lv: PrivilegedLevel::Machine,
            reservation: None,
            isa,
        }
    }

    /// Moves the PC by a signed offset; the PC wraps at the register width.
    pub fn add2pc(&mut self, addval: i32)
        ensures
            final(self).pc == spec_fix2regsz(wrap64(old(self).pc + addval), old(self).isa),
            *final(self) == (CPU { pc: final(self).pc, ..*old(self) }),
    {
        let offset = imm_to_word(addval);
        self.pc = fix2regsz(self.pc.wrapping_add(offset), self.isa);
        proof {
            lemma_wrapping_offset(old(self).pc, addval);
        }
    }

    /// Sets the PC, cut to the register width.
    pub fn update_pc(&mut self, newval: u64)
        ensures
            final(self).pc == spec_fix2regsz(newval, old(self).isa),
            *final(self) == (CPU { pc: final(self).pc, ..*old(self) }),
    {
        self.pc = fix2regsz(newval, self.isa);
    }

    /// The level that a trap with `cause` is delivered to.
    fn trap_dest(&self, cause: TrapCause) -> (r: PrivilegedLevel)
        requires
            self.wf(),
        ensures
            r == trap_dest(self.csrs@, self.priv_lv, cause),
            r == PrivilegedLevel::Machine || r == PrivilegedLevel::Supervisor,
    {
        let deleg = if cause.is_interrupt() {
            self.csrs.csrs[MIDELEG]
        } else {
            self.csrs.csrs[MEDELEG]
        };
        if self.priv_lv.level() <= 1 && (deleg >> cause.code()) & 1 == 1 {
            PrivilegedLevel::Supervisor
        } else {
            PrivilegedLevel::Machine
        }
    }

    /// Changes the privilege level: the reservation is dropped, and a
    /// change of level empties the translation buffer.
    fn switch_to(&mut self, level: PrivilegedLevel)
        requires
            old(self).mmu.wf(),
        ensures
            final(self).mmu.wf(),
            final(self).priv_lv == level,
            final(self).reservation == None::<u64>,
            final(self).mmu@ == spec_switch_tlb(old(self).mmu@, old(self).priv_lv, level),
            final(self).pc == old(self).pc,
            final(self).regs == old(self).regs,
            final(self).csrs == old(self).csrs,
            final(self).bus == old(self).bus,
            final(self).isa == old(self).isa,
    {
        if self.priv_lv != level {
            self.mmu.sfence(None, None);
        }
        self.priv_lv = level;
        self.reservation = None;
    }

    /// Enters the trap `cause` with value `tval`.
    pub fn trap(&mut self, tval: u64, cause: TrapCause)
        requires
            old(self).wf(),
        ensures
            final(self).wf(),
            final(self)@ == spec_trap(old(self)@, tval, cause),
            final(self)@.regs == old(self)@.regs,
            final(self)@.bus == old(self)@.bus,
            final(self)@.pc % 2 == 0,
    {
        let isa = self.isa;
        let dst = self.trap_dest(cause);
        let word = cause_word(cause, isa);
        let status = trap_status(self.csrs.csrs[MSTATUS], dst, self.priv_lv, isa);
        let tvec = match dst {
            PrivilegedLevel::Supervisor => self.csrs.csrs[STVEC],
            _ => self.csrs.csrs[MTVEC],
        };
        save_trap_state(&mut self.csrs, dst, self.pc, word, tval, status);
        self.switch_to(dst);
        self.pc = trap_vector(tvec, cause, isa);
    }

    /// Returns from a trap handled at `level`.
    pub fn trap_return(&mut self, level: PrivilegedLevel)
        requires
            old(self).wf(),
            level != PrivilegedLevel::Reserved,
            spec_return_level(old(self).csrs@, level) != PrivilegedLevel::Reserved,
        ensures
            final(self).wf(),
            final(self)@ == spec_trap_return(old(self)@, level),
            final(self)@.regs == old(self)@.regs,
            final(self)@.bus == old(self)@.bus,
            final(self)@.pc % 2 == 0,
    {
        let isa = self.isa;
        let mstatus = self.csrs.csrs[MSTATUS];
        let prev = if level == PrivilegedLevel::User {
            PrivilegedLevel::User
        } else {
            PrivilegedLevel::from_level((mstatus >> xpp(level).shift(isa)) & xpp(level).limit())
        };
        let xepc = match level {
            PrivilegedLevel::Machine => MEPC,
            PrivilegedLevel::Supervisor => SEPC,
            _ => crate::cpu::csr::UEPC,
        };
        let new_pc = self.csrs.read(Some(xepc));
        proof {
            lemma_masked_even(self.csrs@.regs[xepc as int]);
        }
        self.csrs.write(Some(MSTATUS), return_status(mstatus, level, isa));
        self.switch_to(prev);
        self.pc = fix2regsz(new_pc, isa);
    }

    /// Selects the interrupt to take before the next instruction, if any.
    pub fn check_interrupt(&self) -> (r: Option<TrapCause>)
        requires
            self.wf(),
        ensures
            r == spec_pending_interrupt(self.csrs@, self.priv_lv),
            r is Some ==> r->Some_0.spec_is_interrupt(),
    {
        let order = [
            TrapCause::MachineExternalInterrupt,
            TrapCause::SupervisorExternalInterrupt,
            TrapCause::UserExternalInterrupt,
            TrapCause::MachineSoftwareInterrupt,
            TrapCause::SupervisorSoftwareInterrupt,
            TrapCause::UserSoftwareInterrupt,
            TrapCause::MachineTimerInterrupt,
            TrapCause::SupervisorTimerInterrupt,
            TrapCause::UserTimerInterrupt,
        ];
        assert(order@ =~= interrupt_order());
        let mut k: usize = 0;
        while k < 9
            invariant
                k <= 9,
                self.wf(),
                order@ == interrupt_order(),
                first_takeable(self.csrs@, self.priv_lv, interrupt_order(), 0) == first_takeable(
                    self.csrs@,
                    self.priv_lv,
                    interrupt_order(),
                    k as int,
                ),
            decreases 9 - k,
        {
            let cause = order[k];
            if self.takeable(cause) {
                return Some(cause);
            }
            k += 1;
        }
        None
    }

    /// Whether the interrupt `cause` is taken now.
    fn takeable(&self, cause: TrapCause) -> (r: bool)
        requires
            self.wf(),
        ensures
            r == spec_takeable(self.csrs@, self.priv_lv, cause),
    {
        let dst = self.trap_dest(cause);
        let pending = (self.csrs.csrs[MIP] >> cause.code()) & 1 == 1;
        let enabled = (self.csrs.csrs[MIE] >> cause.code()) & 1 == 1;
        let mstatus = self.csrs.csrs[MSTATUS];
        let ie = (mstatus >> xie(dst).shift(self.isa)) & xie(dst).limit() == 1;
        pending && enabled && (self.priv_lv.level() < dst.level() || (self.priv_lv == dst && ie))
    }
}

/// The value of `xcause` for a cause.
#[verifier::when_used_as_spec(spec_cause_word)]
pub fn cause_word(cause: TrapCause, isa: Isa) -> (r: u64)
    ensures
        r == spec_cause_word(cause, isa),
{
    if cause.is_interrupt() {
        match isa {
            Isa::Rv32 => cause.code() + 0x8000_0000,
            Isa::Rv64 => cause.code() + 0x8000_0000_0000_0000,
        }
    } else {
        cause.code()
    }
}

/// The address a trap jumps to under a value of `xtvec`.
#[verifier::when_used_as_spec(spec_trap_vector)]
pub fn trap_vector(tvec: u64, cause: TrapCause, isa: Isa) -> (r: u64)
    ensures
        r == spec_trap_vector(tvec, cause, isa),
        spec_fix2regsz(r, isa) == r,
        r % 2 == 0,
{
    let base = tvec - tvec % 4;
    if tvec % 4 == 1 && cause.is_interrupt() {
        fix2regsz(base.wrapping_add(4 * cause.code()), isa)
    } else {
        fix2regsz(base, isa)
    }
}

/// The status word after trap entry at `dst` from privilege `from`.
#[verifier::when_used_as_spec(spec_trap_status)]
pub fn trap_status(word: u64, dst: PrivilegedLevel, from: PrivilegedLevel, isa: Isa) -> (r: u64)
    ensures
        r == spec_trap_status(word, dst, from, isa),
{
    // xPIE <- xIE, xIE <- 0, xPP <- the level the trap comes from
    let ie = (word >> xie(dst).shift(isa)) & xie(dst).limit();
    let saved = set_field(word, xpie(dst), isa, ie);
    let masked = set_field(saved, xie(dst), isa, 0);
    set_field(masked, xpp(dst), isa, from.level())
}

/// The status word after a trap return from `level`.
#[verifier::when_used_as_spec(spec_return_status)]
pub fn return_status(word: u64, level: PrivilegedLevel, isa: Isa) -> (r: u64)
    ensures
        r == spec_return_status(word, level, isa),
{
    // xIE <- xPIE, xPIE <- 1, xPP <- user
    let pie = (word >> xpie(level).shift(isa)) & xpie(level).limit();
    let restored = set_field(word, xie(level), isa, pie);
    let armed = set_field(restored, xpie(level), isa, 1);
    if level == PrivilegedLevel::User {
        armed
    } else {
        set_field(armed, xpp(level), isa, 0)
    }
}

/// Records a trap in the CSRs of the destination level.
fn save_trap_state(
    csrs: &mut CSRs,
    dst: PrivilegedLevel,
    pc: u64,
    word: u64,
    tval: u64,
    status: u64,
)
    requires
        old(csrs).wf(),
    ensures
        final(csrs).wf(),
        final(csrs).isa == old(csrs).isa,
        final(csrs)@ == (if dst == PrivilegedLevel::Supervisor {
            old(csrs)@.write(SEPC as int, pc).write(SCAUSE as int, word).write(
                STVAL as int,
                tval,
            ).write(MSTATUS as int, status)
        } else {
            old(csrs)@.write(MEPC as int, pc).write(MCAUSE as int, word).write(
                MTVAL as int,
                tval,
            ).write(MSTATUS as int, status)
        }),
{
    match dst {
        PrivilegedLevel::Supervisor => {
            csrs.write(Some(SEPC), pc);
            csrs.write(Some(SCAUSE), word);
            csrs.write(Some(STVAL), tval);
        },
        _ => {
            csrs.write(Some(MEPC), pc);
            csrs.write(Some(MCAUSE), word);
            csrs.write(Some(MTVAL), tval);
        },
    }
    csrs.write(Some(MSTATUS), status);
}

/// Sets field `f` of a status word to the low bits of `data`.
pub fn set_field(word: u64, f: Xstatus, isa: Isa, data: u64) -> (r: u64)
    ensures
        r == with_status_field(word, f, isa, data),
{
    let sh = f.shift(isa);
    let lim = f.limit();
    (word & !(lim << sh)) | ((data & lim) << sh)
}

/// A word without its lowest bit, or without its lowest two bits, is even.
proof fn lemma_masked_even(x: u64)
    by (bit_vector)
    ensures
        (x & !0x1u64) % 2 == 0,
        (x & !0x3u64) % 2 == 0,
{
}

/// Adding a sign-extended offset to a word with wrap-around adds the offset
/// itself modulo `2^64`.
pub proof fn lemma_wrapping_offset(pc: u64, offset: i32)
    ensures
        vstd::wrapping::u64_specs::wrapping_add(pc, wrap64(offset as int)) == wrap64(pc + offset),
{
}

/// The three field updates of trap entry, read back bit by bit: with `xIE`
/// at bit `a`, `xPIE` at bit `b` and `xPP` at bit `c`. Cutting the word to
/// 32 bits changes none of these fields.
proof fn lemma_trap_bits(w: u64, a: u64, b: u64, c: u64, lp: u64, p: u64)
    by (bit_vector)
    requires
        a < 16,
        b < 16,
        c < 16,
        lp == 1 || lp == 3,
        a != b,
        a + 1 <= c || c + lp <= a,
        b + 1 <= c || c + lp <= b,
        p <= lp,
    ensures
        ((((((w & !(1u64 << b)) | ((((w >> a) & 1u64) & 1u64) << b)) & !(1u64 << a)) | ((0u64
            & 1u64) << a)) & !(lp << c)) | ((p & lp) << c)) >> c & lp == p,
        ((((((w & !(1u64 << b)) | ((((w >> a) & 1u64) & 1u64) << b)) & !(1u64 << a)) | ((0u64
            & 1u64) << a)) & !(lp << c)) | ((p & lp) << c)) >> b & 1u64 == (w >> a) & 1u64,
        ((((((w & !(1u64 << b)) | ((((w >> a) & 1u64) & 1u64) << b)) & !(1u64 << a)) | ((0u64
            & 1u64) << a)) & !(lp << c)) | ((p & lp) << c)) >> a & 1u64 == 0,
        (((((((w & !(1u64 << b)) | ((((w >> a) & 1u64) & 1u64) << b)) & !(1u64 << a)) | ((0u64
            & 1u64) << a)) & !(lp << c)) | ((p & lp) << c)) % 0x1_0000_0000) >> c & lp == p,
        (((((((w & !(1u64 << b)) | ((((w >> a) & 1u64) & 1u64) << b)) & !(1u64 << a)) | ((0u64
            & 1u64) << a)) & !(lp << c)) | ((p & lp) << c)) % 0x1_0000_0000) >> b & 1u64 == (w
            >> a) & 1u64,
        (((((((w & !(1u64 << b)) | ((((w >> a) & 1u64) & 1u64) << b)) & !(1u64 << a)) | ((0u64
            & 1u64) << a)) & !(lp << c)) | ((p & lp) << c)) % 0x1_0000_0000) >> a & 1u64 == 0,
{
}

/// The field updates of trap return, read back bit by bit: with `xIE` at
/// bit `a`, `xPIE` at bit `b` and, where `pp` says so, `xPP` at bit `c`.
proof fn lemma_return_bits(w: u64, a: u64, b: u64, c: u64, lp: u64)
    by (bit_vector)
    requires
        a < 16,
        b < 16,
        c < 16,
        lp == 1 || lp == 3,
        a != b,
        a + 1 <= c || c + lp <= a,
        b + 1 <= c || c + lp <= b,
    ensures
        ((((w & !(1u64 << a)) | ((((w >> b) & 1u64) & 1u64) << a)) & !(1u64 << b)) | ((1u64
            & 1u64) << b)) >> a & 1u64 == (w >> b) & 1u64,
        ((((w & !(1u64 << a)) | ((((w >> b) & 1u64) & 1u64) << a)) & !(1u64 << b)) | ((1u64
            & 1u64) << b)) >> b & 1u64 == 1,
        (((((w & !(1u64 << a)) | ((((w >> b) & 1u64) & 1u64) << a)) & !(1u64 << b)) | ((1u64
            & 1u64) << b)) % 0x1_0000_0000) >> a & 1u64 == (w >> b) & 1u64,
        (((((w & !(1u64 << a)) | ((((w >> b) & 1u64) & 1u64) << a)) & !(1u64 << b)) | ((1u64
            & 1u64) << b)) % 0x1_0000_0000) >> b & 1u64 == 1,
        ((((((w & !(1u64 << a)) | ((((w >> b) & 1u64) & 1u64) << a)) & !(1u64 << b)) | ((1u64
            & 1u64) << b)) & !(lp << c)) | ((0u64 & lp) << c)) >> a & 1u64 == (w >> b) & 1u64,
        ((((((w & !(1u64 << a)) | ((((w >> b) & 1u64) & 1u64) << a)) & !(1u64 << b)) | ((1u64
            & 1u64) << b)) & !(lp << c)) | ((0u64 & lp) << c)) >> b & 1u64 == 1,
        ((((((w & !(1u64 << a)) | ((((w >> b) & 1u64) & 1u64) << a)) & !(1u64 << b)) | ((1u64
            & 1u64) << b)) & !(lp << c)) | ((0u64 & lp) << c)) >> c & lp == 0,
        (((((((w & !(1u64 << a)) | ((((w >> b) & 1u64) & 1u64) << a)) & !(1u64 << b)) | ((1u64
            & 1u64) << b)) & !(lp << c)) | ((0u64 & lp) << c)) % 0x1_0000_0000) >> a & 1u64 == (w
            >> b) & 1u64,
        (((((((w & !(1u64 << a)) | ((((w >> b) & 1u64) & 1u64) << a)) & !(1u64 << b)) | ((1u64
            & 1u64) << b)) & !(lp << c)) | ((0u64 & lp) << c)) % 0x1_0000_0000) >> b & 1u64 == 1,
        (((((((w & !(1u64 << a)) | ((((w >> b) & 1u64) & 1u64) << a)) & !(1u64 << b)) | ((1u64
            & 1u64) << b)) & !(lp << c)) | ((0u64 & lp) << c)) % 0x1_0000_0000) >> c & lp == 0,
{
}

/// What the field updates of trap entry and of trap return leave in the
/// status word, read back field by field.
proof fn lemma_status_updates(w: u64, level: PrivilegedLevel, from: PrivilegedLevel, isa: Isa)
    requires
        level != PrivilegedLevel::Reserved,
        from.spec_level() <= spec_xpp(level).spec_limit(),
    ensures
        ({
            let t = spec_fix2regsz(spec_trap_status(w, level, from, isa), isa);
            &&& status_field(t, spec_xpp(level), isa) == from.spec_level()
            &&& status_field(t, spec_xpie(level), isa) == status_field(w, spec_xie(level), isa)
            &&& status_field(t, spec_xie(level), isa) == 0
        }),
        ({
            let r = spec_fix2regsz(spec_return_status(w, level, isa), isa);
            &&& status_field(r, spec_xie(level), isa) == status_field(w, spec_xpie(level), isa)
            &&& status_field(r, spec_xpie(level), isa) == 1
            &&& level != PrivilegedLevel::User ==> status_field(r, spec_xpp(level), isa) == 0
        }),
{
    let a = spec_xie(level).spec_shift(isa);
    let b = spec_xpie(level).spec_shift(isa);
    let c = spec_xpp(level).spec_shift(isa);
    let lp = spec_xpp(level).spec_limit();
    lemma_trap_bits(w, a, b, c, lp, from.spec_level());
    lemma_return_bits(w, a, b, c, lp);
}

/// After trap entry the hart runs at the destination level; there `xepc`
/// holds the PC of the trapped instruction, `xcause` the cause and `xtval`
/// the value; `xPP` holds the privilege the trap came from, `xPIE` the
/// former `xIE`, and `xIE` is clear.
pub proof fn lemma_trap_saves_context(s: CpuView, tval: u64, cause: TrapCause)
    requires
        s.csrs.wf(),
        s.csrs.isa == s.isa,
        s.priv_lv != PrivilegedLevel::Reserved,
        spec_fix2regsz(s.pc, s.isa) == s.pc,
    ensures
        ({
            let t = spec_trap(s, tval, cause);
            let dst = trap_dest(s.csrs, s.priv_lv, cause);
            let status = t.csrs.regs[MSTATUS as int];
            &&& t.priv_lv == dst
            &&& dst == PrivilegedLevel::Machine || dst == PrivilegedLevel::Supervisor
            &&& t.csrs.regs[spec_xepc_addr(dst) as int] == s.pc
            &&& status_field(status, spec_xpp(dst), s.isa) == s.priv_lv.spec_level()
            &&& status_field(status, spec_xpie(dst), s.isa) == status_field(
                s.csrs.regs[MSTATUS as int],
                spec_xie(dst),
                s.isa,
            )
            &&& status_field(status, spec_xie(dst), s.isa) == 0
            &&& t.csrs.wf()
            &&& t.csrs.isa == s.isa
            &&& t.regs == s.regs
        }),
{
    let dst = trap_dest(s.csrs, s.priv_lv, cause);
    lemma_status_updates(s.csrs.regs[MSTATUS as int], dst, s.priv_lv, s.isa);
}

/// After a trap return the hart runs at the level that `xPP` held, `xIE`
/// holds what `xPIE` held, and `xPIE` is set.
pub proof fn lemma_return_restores(s: CpuView, level: PrivilegedLevel)
    requires
        s.csrs.wf(),
        s.csrs.isa == s.isa,
        level != PrivilegedLevel::Reserved,
    ensures
        ({
            let r = spec_trap_return(s, level);
            let before = s.csrs.regs[MSTATUS as int];
            let after = r.csrs.regs[MSTATUS as int];
            &&& r.priv_lv == spec_return_level(s.csrs, level)
            &&& status_field(after, spec_xie(level), s.isa) == status_field(
                before,
                spec_xpie(level),
                s.isa,
            )
            &&& status_field(after, spec_xpie(level), s.isa) == 1
            &&& r.pc == spec_fix2regsz(s.csrs.read(spec_xepc_addr(level) as int), s.isa)
        }),
{
    lemma_status_updates(s.csrs.regs[MSTATUS as int], level, PrivilegedLevel::User, s.isa);
}

/// A trap followed by the return from its handler's level puts the hart
/// back at the privilege it trapped from, with `xIE` as it was before the
/// trap, at the PC of the trapped instruction as `xepc` reads it.
pub proof fn lemma_trap_then_return(s: CpuView, tval: u64, cause: TrapCause)
    requires
        s.csrs.wf(),
        s.csrs.isa == s.isa,
        s.priv_lv != PrivilegedLevel::Reserved,
        spec_fix2regsz(s.pc, s.isa) == s.pc,
    ensures
        ({
            let dst = trap_dest(s.csrs, s.priv_lv, cause);
            let t = spec_trap(s, tval, cause);
            let r = spec_trap_return(t, dst);
            &&& r.priv_lv == s.priv_lv
            &&& status_field(r.csrs.regs[MSTATUS as int], spec_xie(dst), s.isa) == status_field(
                s.csrs.regs[MSTATUS as int],
                spec_xie(dst),
                s.isa,
            )
            &&& r.pc == spec_fix2regsz(s.pc & t.csrs.xepc_mask(), s.isa)
        }),
{
    let dst = trap_dest(s.csrs, s.priv_lv, cause);
    let t = spec_trap(s, tval, cause);
    lemma_trap_saves_context(s, tval, cause);
    lemma_return_restores(t, dst);
}

} // verus!
