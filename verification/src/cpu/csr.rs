//! The control and status registers: a file of 4096 words, of which the
//! status and interrupt registers of the lower privilege levels are masked
//! views of the machine-level ones.

use vstd::prelude::*;
use crate::cpu::reg::{fix2regsz, spec_fix2regsz};
use crate::cpu::trap::{Fault, TrapCause};
use crate::cpu::PrivilegedLevel;
use crate::Isa;

verus! {

/// Number of CSR addresses.
pub const CSR_SIZE: usize = 4096;

/// Number of debug triggers that `tselect` can select.
pub const TRIGGER_COUNT: usize = 8;

/// Address of `ustatus`.
pub const USTATUS: usize = 0x000;

/// Address of `uie`.
pub const UIE: usize = 0x004;

/// Address of `utvec`.
pub const UTVEC: usize = 0x005;

/// Address of `uepc`.
pub const UEPC: usize = 0x041;

/// Address of `ucause`.
pub const UCAUSE: usize = 0x042;

/// Address of `utval`.
pub const UTVAL: usize = 0x043;

/// Address of `uip`.
pub const UIP: usize = 0x044;

/// Address of `sstatus`.
pub const SSTATUS: usize = 0x100;

/// Address of `sie`.
pub const SIE: usize = 0x104;

/// Address of `stvec`.
pub const STVEC: usize = 0x105;

/// Address of `scounteren`.
pub const SCOUNTEREN: usize = 0x106;

/// Address of `sscratch`.
pub const SSCRATCH: usize = 0x140;

/// Address of `sepc`.
pub const SEPC: usize = 0x141;

/// Address of `scause`.
pub const SCAUSE: usize = 0x142;

/// Address of `stval`.
pub const STVAL: usize = 0x143;

/// Address of `sip`.
pub const SIP: usize = 0x144;

/// Address of `satp`.
pub const SATP: usize = 0x180;

/// Address of `mstatus`.
pub const MSTATUS: usize = 0x300;

/// Address of `misa`.
pub const MISA: usize = 0x301;

/// Address of `medeleg`.
pub const MEDELEG: usize = 0x302;

/// Address of `mideleg`.
pub const MIDELEG: usize = 0x303;

/// Address of `mie`.
pub const MIE: usize = 0x304;

/// Address of `mtvec`.
pub const MTVEC: usize = 0x305;

/// Address of `mcounteren`.
pub const MCOUNTEREN: usize = 0x306;

/// Address of `mscratch`.
pub const MSCRATCH: usize = 0x340;

/// Address of `mepc`.
pub const MEPC: usize = 0x341;

/// Address of `mcause`.
pub const MCAUSE: usize = 0x342;

/// Address of `mtval`.
pub const MTVAL: usize = 0x343;

/// Address of `mip`.
pub const MIP: usize = 0x344;

/// Address of `tselect`.
pub const TSELECT: usize = 0x7a0;

/// Address of `tdata1`.
pub const TDATA1: usize = 0x7a1;

/// Address of `tdata2`.
pub const TDATA2: usize = 0x7a2;

/// First of the 32 user-level counter CSRs (`cycle`, `time`, `instret`, ...).
pub const COUNTER_BASE: usize = 0xc00;

/// Bits of `mstatus` that `ustatus` shows: UIE and UPIE.
pub const USTATUS_MASK: u64 = 0x11;

/// Bits of `mie`/`mip` that `sie`/`sip` show: the supervisor and user bits.
pub const S_INTERRUPT_MASK: u64 = 0x333;

/// Bits of `mie`/`mip` that `uie`/`uip` show: the user bits.
pub const U_INTERRUPT_MASK: u64 = 0x111;

/// Bits of `mip` that a CSR write can change: all but the machine-level
/// pending bits, which only the interrupt sources drive.
pub const MIP_WRITE_MASK: u64 = 0x333;

/// Bits of `mip` that a write to `sip` can change: SSIP, USIP and UEIP.
pub const SIP_WRITE_MASK: u64 = 0x103;

/// Bits of `mip` that a write to `uip` can change: USIP.
pub const UIP_WRITE_MASK: u64 = 0x001;

/// Value of `misa` on RV32: MXL = 1 and the extensions I, M, A, C, S, U.
pub const MISA_RV32: u64 = 0x4014_1105;

/// Value of `misa` on RV64: MXL = 2 and the extensions I, M, A, C, S, U.
pub const MISA_RV64: u64 = 0x8000_0000_0014_1105;

/// Bits of `mstatus` that `sstatus` shows: SD, MXR, SUM, XS, FS, SPP, SPIE,
/// UPIE, SIE, UIE and, on RV64, UXL.
pub open spec fn spec_sstatus_mask(isa: Isa) -> u64 {
    match isa {
        Isa::Rv32 => 0x800d_e133,
        Isa::Rv64 => 0x8000_0003_000d_e133,
    }
}

/// Bits of `mstatus` that `sstatus` shows.
#[verifier::when_used_as_spec(spec_sstatus_mask)]
pub fn sstatus_mask(isa: Isa) -> (r: u64)
    ensures
        r == spec_sstatus_mask(isa),
{
    match isa {
        Isa::Rv32 => 0x800d_e133,
        Isa::Rv64 => 0x8000_0003_000d_e133,
    }
}

/// Names of the CSRs the core itself refers to.
#[allow(non_camel_case_types)]
#[derive(Clone, Copy, PartialEq, Eq, Structural, Debug)]
pub enum CSRname {
    ustatus,
    uie,
    utvec,
    uepc,
    ucause,
    utval,
    uip,
    sstatus,
    sie,
    stvec,
    scounteren,
    sscratch,
    sepc,
    scause,
    stval,
    sip,
    satp,
    mstatus,
    misa,
    medeleg,
    mideleg,
    mie,
    mtvec,
    mcounteren,
    mscratch,
    mepc,
    mcause,
    mtval,
    mip,
    tselect,
    tdata1,
    tdata2,
}

impl CSRname {
    /// The CSR's 12-bit address.
    pub open spec fn spec_addr(self) -> usize {
        match self {
            CSRname::ustatus => USTATUS,
            CSRname::uie => UIE,
            CSRname::utvec => UTVEC,
            CSRname::uepc => UEPC,
            CSRname::ucause => UCAUSE,
            CSRname::utval => UTVAL,
            CSRname::uip => UIP,
            CSRname::sstatus => SSTATUS,
            CSRname::sie => SIE,
            CSRname::stvec => STVEC,
            CSRname::scounteren => SCOUNTEREN,
            CSRname::sscratch => SSCRATCH,
            CSRname::sepc => SEPC,
            CSRname::scause => SCAUSE,
            CSRname::stval => STVAL,
            CSRname::sip => SIP,
            CSRname::satp => SATP,
            CSRname::mstatus => MSTATUS,
            CSRname::misa => MISA,
            CSRname::medeleg => MEDELEG,
            CSRname::mideleg => MIDELEG,
            CSRname::mie => MIE,
            CSRname::mtvec => MTVEC,
            CSRname::mcounteren => MCOUNTEREN,
            CSRname::mscratch => MSCRATCH,
            CSRname::mepc => MEPC,
            CSRname::mcause => MCAUSE,
            CSRname::mtval => MTVAL,
            CSRname::mip => MIP,
            CSRname::tselect => TSELECT,
            CSRname::tdata1 => TDATA1,
            CSRname::tdata2 => TDATA2,
        }
    }

    /// The CSR's 12-bit address.
    #[verifier::when_used_as_spec(spec_addr)]
    pub fn addr(self) -> (r: usize)
        ensures
            r == self.spec_addr(),
            r < CSR_SIZE,
    {
        match self {
            CSRname::ustatus => USTATUS,
            CSRname::uie => UIE,
            CSRname::utvec => UTVEC,
            CSRname::uepc => UEPC,
            CSRname::ucause => UCAUSE,
            CSRname::utval => UTVAL,
            CSRname::uip => UIP,
            CSRname::sstatus => SSTATUS,
            CSRname::sie => SIE,
            CSRname::stvec => STVEC,
            CSRname::scounteren => SCOUNTEREN,
            CSRname::sscratch => SSCRATCH,
            CSRname::sepc => SEPC,
            CSRname::scause => SCAUSE,
            CSRname::stval => STVAL,
            CSRname::sip => SIP,
            CSRname::satp => SATP,
            CSRname::mstatus => MSTATUS,
            CSRname::misa => MISA,
            CSRname::medeleg => MEDELEG,
            CSRname::mideleg => MIDELEG,
            CSRname::mie => MIE,
            CSRname::mtvec => MTVEC,
            CSRname::mcounteren => MCOUNTEREN,
            CSRname::mscratch => MSCRATCH,
            CSRname::mepc => MEPC,
            CSRname::mcause => MCAUSE,
            CSRname::mtval => MTVAL,
            CSRname::mip => MIP,
            CSRname::tselect => TSELECT,
            CSRname::tdata1 => TDATA1,
            CSRname::tdata2 => TDATA2,
        }
    }

    /// The address in the form the read and write methods take.
    pub fn wrap(self) -> (r: Option<usize>)
        ensures
            r == Some(self.spec_addr()),
            r->Some_0 < CSR_SIZE,
    {
        Some(self.addr())
    }
}

/// Fields of the status register.
#[derive(Clone, Copy, PartialEq, Eq, Structural, Debug)]
pub enum Xstatus {
    UIE,  // 0
    SIE,  // 1
    MIE,  // 3
    UPIE,  // 4
    SPIE,  // 5
    MPIE,  // 7
    SPP,  // 8
    MPP,  // 11-12
    FS,  // 13-14
    XS,  // 15-16
    MPRV,  // 17
    SUM,  // 18
    MXR,  // 19
    TVM,  // 20
    TW,  // 21
    TSR,  // 22
    SD,  // 31 or 63
}

impl Xstatus {
    /// Position of the field's lowest bit.
    pub open spec fn spec_shift(self, isa: Isa) -> u64 {
        match self {
            Xstatus::UIE => 0,
            Xstatus::SIE => 1,
            Xstatus::MIE => 3,
            Xstatus::UPIE => 4,
            Xstatus::SPIE => 5,
            Xstatus::MPIE => 7,
            Xstatus::SPP => 8,
            Xstatus::MPP => 11,
            Xstatus::FS => 13,
            Xstatus::XS => 15,
            Xstatus::MPRV => 17,
            Xstatus::SUM => 18,
            Xstatus::MXR => 19,
            Xstatus::TVM => 20,
            Xstatus::TW => 21,
            Xstatus::TSR => 22,
            Xstatus::SD => match isa {
                Isa::Rv32 => 31,
                Isa::Rv64 => 63,
            },
        }
    }

    /// The field's largest value: 1 for a flag, 3 for a two-bit field.
    pub open spec fn spec_limit(self) -> u64 {
        match self {
            Xstatus::MPP | Xstatus::FS | Xstatus::XS => 3,
            _ => 1,
        }
    }

    /// Position of the field's lowest bit.
    #[verifier::when_used_as_spec(spec_shift)]
    pub fn shift(self, isa: Isa) -> (r: u64)
        ensures
            r == self.spec_shift(isa),
            r < 64,
    {
        match self {
            Xstatus::UIE => 0,
            Xstatus::SIE => 1,
            Xstatus::MIE => 3,
            Xstatus::UPIE => 4,
            Xstatus::SPIE => 5,
            Xstatus::MPIE => 7,
            Xstatus::SPP => 8,
            Xstatus::MPP => 11,
            Xstatus::FS => 13,
            Xstatus::XS => 15,
            Xstatus::MPRV => 17,
            Xstatus::SUM => 18,
            Xstatus::MXR => 19,
            Xstatus::TVM => 20,
            Xstatus::TW => 21,
            Xstatus::TSR => 22,
            Xstatus::SD => match isa {
                Isa::Rv32 => 31,
                Isa::Rv64 => 63,
            },
        }
    }

    /// The field's largest value.
    #[verifier::when_used_as_spec(spec_limit)]
    pub fn limit(self) -> (r: u64)
        ensures
            r == self.spec_limit(),
    {
        match self {
            Xstatus::MPP | Xstatus::FS | Xstatus::XS => 3,
            _ => 1,
        }
    }
}

/// The field `f` of the status word `word`.
pub open spec fn status_field(word: u64, f: Xstatus, isa: Isa) -> u64 {
    (word >> f.spec_shift(isa)) & f.spec_limit()
}

/// The status word `word` with its field `f` set to the low bits of `data`.
pub open spec fn with_status_field(word: u64, f: Xstatus, isa: Isa, data: u64) -> u64 {
    (word & !(f.spec_limit() << f.spec_shift(isa))) | ((data & f.spec_limit()) << f.spec_shift(
        isa,
    ))
}

/// The CSR address of the status register of a privilege level.
pub open spec fn spec_xstatus_addr(priv_lv: PrivilegedLevel) -> usize {
    match priv_lv {
        PrivilegedLevel::Machine => MSTATUS,
        PrivilegedLevel::Supervisor => SSTATUS,
        _ => USTATUS,
    }
}

/// Values of the selected trigger's registers for every trigger.
pub struct Triggers {
    pub tselect: usize,
    pub tdata1: [u64; 8],
    pub tdata2: [u64; 8],
}

/// The CSR file.
pub struct CSRs {
    pub csrs: Vec<u64>,
    pub triggers: Triggers,
    pub isa: Isa,
}

/// The CSR file as a value: the stored words and the trigger bank.
pub struct CsrView {
    pub regs: Seq<u64>,
    pub tselect: usize,
    pub tdata1: Seq<u64>,
    pub tdata2: Seq<u64>,
    pub isa: Isa,
}

impl CsrView {
    /// The file has its 4096 registers and eight triggers, one of them selected.
    pub open spec fn wf(self) -> bool {
        &&& self.regs.len() == CSR_SIZE
        &&& self.tdata1.len() == TRIGGER_COUNT
        &&& self.tdata2.len() == TRIGGER_COUNT
        &&& self.tselect < TRIGGER_COUNT
    }

    /// The file with the bits of word `reg` that `mask` selects replaced by
    /// those of `val`.
    pub open spec fn set_masked(self, reg: int, val: u64, mask: u64) -> CsrView {
        CsrView { regs: self.regs.update(reg, (self.regs[reg] & !mask) | (val & mask)), ..self }
    }

    /// Mask applied to a read of `xepc`: the low bit is hidden while the C
    /// extension is enabled in `misa`, the low two bits otherwise.
    pub open spec fn xepc_mask(self) -> u64 {
        if self.regs[MISA as int] & 0x4 != 0 {
            !0x1u64
        } else {
            !0x3u64
        }
    }

    /// What a read of the CSR at `addr` returns.
    pub open spec fn read(self, addr: int) -> u64 {
        if addr == SSTATUS {
            self.regs[MSTATUS as int] & spec_sstatus_mask(self.isa)
        } else if addr == USTATUS {
            self.regs[MSTATUS as int] & USTATUS_MASK
        } else if addr == SIE {
            self.regs[MIE as int] & S_INTERRUPT_MASK
        } else if addr == SIP {
            self.regs[MIP as int] & S_INTERRUPT_MASK
        } else if addr == UIE {
            self.regs[MIE as int] & U_INTERRUPT_MASK
        } else if addr == UIP {
            self.regs[MIP as int] & U_INTERRUPT_MASK
        } else if addr == MEPC || addr == SEPC || addr == UEPC {
            self.regs[addr] & self.xepc_mask()
        } else {
            self.regs[addr]
        }
    }

    /// Whether writes to the CSR at `addr` are ignored: `misa`, and the
    /// addresses whose top two bits mark them read-only (the counters among
    /// them).
    pub open spec fn is_read_only(addr: int) -> bool {
        addr == MISA || addr >= 0xc00
    }

    /// The file after `src`, cut to the register width, is written to the CSR
    /// at `addr`. A masked view changes only the bits it shows; a write to
    /// `tselect` selects a trigger and brings its registers into view, and is
    /// ignored when there is no such trigger; writes to `tdata1` and
    /// `tdata2` also reach the selected trigger.
    pub open spec fn write(self, addr: int, src: u64) -> CsrView {
        let val = spec_fix2regsz(src, self.isa);
        if Self::is_read_only(addr) {
            self
        } else if addr == SSTATUS {
            self.set_masked(MSTATUS as int, val, spec_sstatus_mask(self.isa))
        } else if addr == USTATUS {
            self.set_masked(MSTATUS as int, val, USTATUS_MASK)
        } else if addr == SIE {
            self.set_masked(MIE as int, val, S_INTERRUPT_MASK)
        } else if addr == UIE {
            self.set_masked(MIE as int, val, U_INTERRUPT_MASK)
        } else if addr == MIP {
            self.set_masked(MIP as int, val, MIP_WRITE_MASK)
        } else if addr == SIP {
            self.set_masked(MIP as int, val, SIP_WRITE_MASK)
        } else if addr == UIP {
            self.set_masked(MIP as int, val, UIP_WRITE_MASK)
        } else if addr == TSELECT {
            if val < TRIGGER_COUNT {
                CsrView {
                    regs: self.regs.update(TSELECT as int, val).update(
                        TDATA1 as int,
                        self.tdata1[val as int],
                    ).update(TDATA2 as int, self.tdata2[val as int]),
                    tselect: val as usize,
                    ..self
                }
            } else {
                self
            }
        } else if addr == TDATA1 {
            CsrView {
                regs: self.regs.update(TDATA1 as int, val),
                tdata1: self.tdata1.update(self.tselect as int, val),
                ..self
            }
        } else if addr == TDATA2 {
            CsrView {
                regs: self.regs.update(TDATA2 as int, val),
                tdata2: self.tdata2.update(self.tselect as int, val),
                ..self
            }
        } else {
            CsrView { regs: self.regs.update(addr, val), ..self }
        }
    }

    /// The file after the bits of `mask` are set in the CSR at `addr`; a zero
    /// mask writes nothing.
    pub open spec fn bitset(self, addr: int, mask: u64) -> CsrView {
        if mask == 0 {
            self
        } else {
            self.write(addr, self.read(addr) | mask)
        }
    }

    /// The file after the bits of `mask` are cleared in the CSR at `addr`; a
    /// zero mask writes nothing.
    pub open spec fn bitclr(self, addr: int, mask: u64) -> CsrView {
        if mask == 0 {
            self
        } else {
            self.write(addr, self.read(addr) & !mask)
        }
    }

    /// Field `f` of the status register as privilege level `priv_lv` sees it.
    pub open spec fn read_xstatus(self, priv_lv: PrivilegedLevel, f: Xstatus) -> u64 {
        status_field(self.read(spec_xstatus_addr(priv_lv) as int), f, self.isa)
    }

    /// The file after field `f` of the status register of `priv_lv` is set to
    /// the low bits of `data`; every other bit is preserved.
    pub open spec fn write_xstatus(self, priv_lv: PrivilegedLevel, f: Xstatus, data: u64)
        -> CsrView {
        let addr = spec_xstatus_addr(priv_lv) as int;
        self.write(addr, with_status_field(self.read(addr), f, self.isa, data))
    }

    /// Whether code at `priv_lv` may access the CSR at `addr`: the address is
    /// a CSR address; the privilege its bits 9:8 encode is not above
    /// `priv_lv`; it is not written while its bits 11:10 mark it read-only;
    /// it is not `satp` in supervisor mode while `mstatus.TVM` is set; and,
    /// for a counter, `mcounteren` enables it below machine mode and
    /// `scounteren` in user mode.
    pub open spec fn accessible(self, priv_lv: PrivilegedLevel, addr: int, is_write: bool) -> bool {
        &&& 0 <= addr < CSR_SIZE
        &&& (addr / 0x100) % 4 <= priv_lv.spec_level()
        &&& !(is_write && addr / 0x400 == 3)
        &&& !(addr == SATP && priv_lv == PrivilegedLevel::Supervisor && status_field(
            self.regs[MSTATUS as int],
            Xstatus::TVM,
            self.isa,
        ) == 1)
        &&& (COUNTER_BASE <= addr < COUNTER_BASE + 32 ==> {
            &&& (priv_lv == PrivilegedLevel::Machine || (self.regs[MCOUNTEREN as int] >> ((addr
                - COUNTER_BASE) as u64)) & 1 == 1)
            &&& (priv_lv != PrivilegedLevel::User || (self.regs[SCOUNTEREN as int] >> ((addr
                - COUNTER_BASE) as u64)) & 1 == 1)
        })
    }
}

/// The CSR file after reset: every register zero except `misa`, which
/// advertises the configured ISA; trigger 0 selected.
pub open spec fn spec_reset_csrs(isa: Isa) -> CsrView {
    CsrView {
        regs: Seq::new(CSR_SIZE as nat, |i: int| 0u64).update(
            MISA as int,
            match isa {
                Isa::Rv32 => MISA_RV32,
                Isa::Rv64 => MISA_RV64,
            },
        ),
        tselect: 0,
        tdata1: Seq::new(TRIGGER_COUNT as nat, |i: int| 0u64),
        tdata2: Seq::new(TRIGGER_COUNT as nat, |i: int| 0u64),
        isa,
    }
}

impl CSRs {
    /// The file as a value.
    pub open spec fn view(&self) -> CsrView {
        CsrView {
            regs: self.csrs@,
            tselect: self.triggers.tselect,
            tdata1: self.triggers.tdata1@,
            tdata2: self.triggers.tdata2@,
            isa: self.isa,
        }
    }

    /// The file has its 4096 registers and eight triggers, one of them selected.
    pub open spec fn wf(&self) -> bool {
        self@.wf()
    }

    /// A CSR file with every register zero.
    pub fn new(isa: Isa) -> (r: CSRs)
        ensures
            r.wf(),
            r@.isa == isa,
            r@.tselect == 0,
            r@.regs == Seq::new(CSR_SIZE as nat, |i: int| 0u64),
            r@.tdata1 == Seq::new(TRIGGER_COUNT as nat, |i: int| 0u64),
            r@.tdata2 == Seq::new(TRIGGER_COUNT as nat, |i: int| 0u64),
    {
        let csrs: Vec<u64> = vec![0u64; CSR_SIZE];
        let r = CSRs { csrs, triggers: Triggers { tselect: 0, tdata1: [0; 8], tdata2: [0; 8] }, isa };
        assert(r@.regs =~= Seq::new(CSR_SIZE as nat, |i: int| 0u64));
        assert(r@.tdata1 =~= Seq::new(TRIGGER_COUNT as nat, |i: int| 0u64));
        assert(r@.tdata2 =~= Seq::new(TRIGGER_COUNT as nat, |i: int| 0u64));
        r
    }

    /// Sets `misa` to advertise the configured ISA; everything else is kept.
    pub fn init(self) -> (r: CSRs)
        requires
            self.wf(),
        ensures
            r.wf(),
            r@ == (CsrView {
                regs: self@.regs.update(
                    MISA as int,
                    match self.isa {
                        Isa::Rv32 => MISA_RV32,
                        Isa::Rv64 => MISA_RV64,
                    },
                ),
                ..self@
            }),
    {
        let mut r = self;
        let misa = match r.isa {
            Isa::Rv32 => MISA_RV32,
            Isa::Rv64 => MISA_RV64,
        };
        r.csrs.set(MISA, misa);
        r
    }

    /// Checks that code at `priv_lv` may access the CSR at `dist`; a refused
    /// access is an illegal instruction.
    pub fn check_accessible(&self, priv_lv: PrivilegedLevel, dist: usize, is_write: bool) -> (r:
        Result<(), Fault>)
        requires
            self.wf(),
        ensures
            r == (if self@.accessible(priv_lv, dist as int, is_write) {
                Ok::<(), Fault>(())
            } else {
                Err::<(), Fault>(Fault { addr: None, cause: TrapCause::IllegalInst })
            }),
    {
        let illegal = Fault { addr: None, cause: TrapCause::IllegalInst };
        if dist >= CSR_SIZE {
            return Err(illegal);
        }
        if ((dist / 0x100) % 4) as u64 > priv_lv.level() {
            return Err(illegal);
        }
        if is_write && dist / 0x400 == 3 {
            return Err(illegal);
        }
        if dist == SATP && priv_lv == PrivilegedLevel::Supervisor {
            let mstatus = self.csrs[MSTATUS];
            if (mstatus >> Xstatus::TVM.shift(self.isa)) & Xstatus::TVM.limit() == 1 {
                return Err(illegal);
            }
        }
        if COUNTER_BASE <= dist && dist < COUNTER_BASE + 32 {
            let bit: u64 = (dist - COUNTER_BASE) as u64;
            if priv_lv != PrivilegedLevel::Machine && (self.csrs[MCOUNTEREN] >> bit) & 1 != 1 {
                return Err(illegal);
            }
            if priv_lv == PrivilegedLevel::User && (self.csrs[SCOUNTEREN] >> bit) & 1 != 1 {
                return Err(illegal);
            }
        }
        Ok(())
    }

    fn set_masked(&mut self, reg: usize, val: u64, mask: u64)
        requires
            old(self).wf(),
            reg < CSR_SIZE,
        ensures
            final(self).wf(),
            final(self)@ == old(self)@.set_masked(reg as int, val, mask),
    {
        let word = self.csrs[reg];
        self.csrs.set(reg, (word & !mask) | (val & mask));
    }

    /// Sets the bits of `src` in the CSR at `dist`.
    pub fn bitset(&mut self, dist: Option<usize>, src: u64)
        requires
            old(self).wf(),
            dist is Some,
            dist->Some_0 < CSR_SIZE,
        ensures
            final(self).wf(),
            final(self)@ == old(self)@.bitset(dist->Some_0 as int, src),
    {
        let mask = src;
        if mask != 0 {
            let word = self.read(dist);
            self.write(dist, word | mask);
        }
    }

    /// Clears the bits of `src` in the CSR at `dist`.
    pub fn bitclr(&mut self, dist: Option<usize>, src: u64)
        requires
            old(self).wf(),
            dist is Some,
            dist->Some_0 < CSR_SIZE,
        ensures
            final(self).wf(),
            final(self)@ == old(self)@.bitclr(dist->Some_0 as int, src),
    {
        let mask = src;
        if mask != 0 {
            let word = self.read(dist);
            self.write(dist, word & !mask);
        }
    }

    /// Writes `src` to the CSR at `dist`.
    pub fn write(&mut self, dist: Option<usize>, src: u64)
        requires
            old(self).wf(),
            dist is Some,
            dist->Some_0 < CSR_SIZE,
        ensures
            final(self).wf(),
            final(self)@ == old(self)@.write(dist->Some_0 as int, src),
    {
        let dist = dist.unwrap();
        let val = fix2regsz(src, self.isa);
        if dist == MISA || dist >= 0xc00 {
        } else if dist == SSTATUS {
            let mask = sstatus_mask(self.isa);
            self.set_masked(MSTATUS, val, mask);
        } else if dist == USTATUS {
            self.set_masked(MSTATUS, val, USTATUS_MASK);
        } else if dist == SIE {
            self.set_masked(MIE, val, S_INTERRUPT_MASK);
        } else if dist == UIE {
            self.set_masked(MIE, val, U_INTERRUPT_MASK);
        } else if dist == MIP {
            self.set_masked(MIP, val, MIP_WRITE_MASK);
        } else if dist == SIP {
            self.set_masked(MIP, val, SIP_WRITE_MASK);
        } else if dist == UIP {
            self.set_masked(MIP, val, UIP_WRITE_MASK);
        } else {
            self.update_triggers(dist, val);
        }
    }

    /// Stores `val` in the CSR at `dist` and keeps the trigger bank in step
    /// with the trigger registers.
    fn update_triggers(&mut self, dist: usize, val: u64)
        requires
            old(self).wf(),
            dist < CSR_SIZE,
        ensures
            final(self).wf(),
            final(self)@ == (if dist == TSELECT {
                if val < TRIGGER_COUNT {
                    CsrView {
                        regs: old(self)@.regs.update(TSELECT as int, val).update(
                            TDATA1 as int,
                            old(self)@.tdata1[val as int],
                        ).update(TDATA2 as int, old(self)@.tdata2[val as int]),
                        tselect: val as usize,
                        ..old(self)@
                    }
                } else {
                    old(self)@
                }
            } else if dist == TDATA1 {
                CsrView {
                    regs: old(self)@.regs.update(TDATA1 as int, val),
                    tdata1: old(self)@.tdata1.update(old(self)@.tselect as int, val),
                    ..old(self)@
                }
            } else if dist == TDATA2 {
                CsrView {
                    regs: old(self)@.regs.update(TDATA2 as int, val),
                    tdata2: old(self)@.tdata2.update(old(self)@.tselect as int, val),
                    ..old(self)@
                }
            } else {
                CsrView { regs: old(self)@.regs.update(dist as int, val), ..old(self)@ }
            }),
    {
        if dist == TSELECT {
            if val < TRIGGER_COUNT as u64 {
                let sel = val as usize;
                self.triggers.tselect = sel;
                self.csrs.set(TSELECT, val);
                self.csrs.set(TDATA1, self.triggers.tdata1[sel]);
                self.csrs.set(TDATA2, self.triggers.tdata2[sel]);
            }
        } else if dist == TDATA1 {
            let sel = self.triggers.tselect;
            self.csrs.set(TDATA1, val);
            self.triggers.tdata1[sel] = val;
        } else if dist == TDATA2 {
            let sel = self.triggers.tselect;
            self.csrs.set(TDATA2, val);
            self.triggers.tdata2[sel] = val;
        } else {
            self.csrs.set(dist, val);
        }
    }

    fn read_xepc(&self, dist: usize) -> (r: u64)
        requires
            self.wf(),
            dist < CSR_SIZE,
        ensures
            r == self@.regs[dist as int] & self@.xepc_mask(),
    {
        if self.csrs[MISA] & 0x4 != 0 {
            // C extension enabled (IALIGN = 16)
            self.csrs[dist] & !0x1u64
        } else {
            // C extension disabled (IALIGN = 32)
            self.csrs[dist] & !0x3u64
        }
    }

    /// Reads the CSR at `src`.
    pub fn read(&self, src: Option<usize>) -> (r: u64)
        requires
            self.wf(),
            src is Some,
            src->Some_0 < CSR_SIZE,
        ensures
            r == self@.read(src->Some_0 as int),
    {
        let dist = src.unwrap();
        if dist == SSTATUS {
            self.csrs[MSTATUS] & sstatus_mask(self.isa)
        } else if dist == USTATUS {
            self.csrs[MSTATUS] & USTATUS_MASK
        } else if dist == SIE {
            self.csrs[MIE] & S_INTERRUPT_MASK
        } else if dist == SIP {
            self.csrs[MIP] & S_INTERRUPT_MASK
        } else if dist == UIE {
            self.csrs[MIE] & U_INTERRUPT_MASK
        } else if dist == UIP {
            self.csrs[MIP] & U_INTERRUPT_MASK
        } else if dist == MEPC || dist == SEPC || dist == UEPC {
            self.read_xepc(dist)
        } else {
            self.csrs[dist]
        }
    }

    /// Reads field `xfield` of the status register of `priv_lv`.
    pub fn read_xstatus(&self, priv_lv: PrivilegedLevel, xfield: Xstatus) -> (r: u64)
        requires
            self.wf(),
            priv_lv != PrivilegedLevel::Reserved,
        ensures
            r == self@.read_xstatus(priv_lv, xfield),
            r <= xfield.spec_limit(),
    {
        let xstatus: usize = match priv_lv {
            PrivilegedLevel::Machine => MSTATUS,
            PrivilegedLevel::Supervisor => SSTATUS,
            _ => USTATUS,
        };
        let word = self.read(Some(xstatus));
        let sh = xfield.shift(self.isa);
        let lim = xfield.limit();
        let r = (word >> sh) & lim;
        assert((word >> sh) & lim <= lim) by (bit_vector);
        r
    }

    /// Sets field `xfield` of the status register of `priv_lv` to the low
    /// bits of `data`.
    pub fn write_xstatus(&mut self, priv_lv: PrivilegedLevel, xfield: Xstatus, data: u64)
        requires
            old(self).wf(),
            priv_lv != PrivilegedLevel::Reserved,
        ensures
            final(self).wf(),
            final(self)@ == old(self)@.write_xstatus(priv_lv, xfield, data),
    {
        let xstatus: usize = match priv_lv {
            PrivilegedLevel::Machine => MSTATUS,
            PrivilegedLevel::Supervisor => SSTATUS,
            _ => USTATUS,
        };
        let word = self.read(Some(xstatus));
        let sh = xfield.shift(self.isa);
        let lim = xfield.limit();
        self.write(Some(xstatus), (word & !(lim << sh)) | ((data & lim) << sh));
    }

    /// Raises or lowers the pending bit of an interrupt in `mip`, as the
    /// interrupt's source does.
    pub fn set_pending(&mut self, cause: TrapCause, pending: bool)
        requires
            old(self).wf(),
            cause.spec_is_interrupt(),
        ensures
            final(self).wf(),
            final(self)@ == old(self)@.set_masked(
                MIP as int,
                if pending {
                    1u64 << cause.spec_code()
                } else {
                    0
                },
                1u64 << cause.spec_code(),
            ),
    {
        let bit: u64 = 1u64 << cause.code();
        self.set_masked(
            MIP,
            if pending {
                bit
            } else {
                0
            },
            bit,
        );
    }
}

} // verus!
