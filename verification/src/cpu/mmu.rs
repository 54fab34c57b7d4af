//! Address translation: the paging modes, the page-table walk and the
//! translation lookaside buffer in front of it.

pub mod tlb;

use vstd::prelude::*;
use crate::bus::{Bus, BusView};
use crate::cpu::csr::{status_field, CSRs, CsrView, Xstatus, MSTATUS, SATP};
use crate::cpu::trap::{Fault, TransAlign, TransFor, TrapCause};
use crate::cpu::PrivilegedLevel;
use crate::Isa;
use tlb::{slot_of, tlb_lookup, Tlb, TlbEntry, PAGESIZE, TLB_ENTRIES};

verus! {

/// The paging scheme that `satp` selects.
#[derive(Clone, Copy, PartialEq, Eq, Structural, Debug)]
pub enum AddrTransMode {
    Bare,
    Sv32,
    Sv39,
    Sv48,
    Sv57,
}

impl AddrTransMode {
    /// Number of levels of the page table.
    pub open spec fn spec_levels(self) -> u64 {
        match self {
            AddrTransMode::Bare => 0,
            AddrTransMode::Sv32 => 2,
            AddrTransMode::Sv39 => 3,
            AddrTransMode::Sv48 => 4,
            AddrTransMode::Sv57 => 5,
        }
    }

    /// Width of the load that reads an entry.
    pub open spec fn pte_width(self) -> TransAlign {
        match self {
            AddrTransMode::Sv32 => TransAlign::Size32,
            _ => TransAlign::Size64,
        }
    }

    /// Number of levels of the page table.
    #[verifier::when_used_as_spec(spec_levels)]
    pub fn levels(self) -> (r: u64)
        ensures
            r == self.spec_levels(),
    {
        match self {
            AddrTransMode::Bare => 0,
            AddrTransMode::Sv32 => 2,
            AddrTransMode::Sv39 => 3,
            AddrTransMode::Sv48 => 4,
            AddrTransMode::Sv57 => 5,
        }
    }
}

/// The paging scheme that a value of `satp` selects: on RV32 bit 31 selects
/// Sv32; on RV64 bits 63:60 select Sv39 (8), Sv48 (9) or Sv57 (10). Every
/// other value means no translation.
pub open spec fn satp_mode(isa: Isa, satp: u64) -> AddrTransMode {
    match isa {
        Isa::Rv32 => if (satp / 0x8000_0000) % 2 == 1 {
            AddrTransMode::Sv32
        } else {
            AddrTransMode::Bare
        },
        Isa::Rv64 => if satp / 0x1000_0000_0000_0000 == 8 {
            AddrTransMode::Sv39
        } else if satp / 0x1000_0000_0000_0000 == 9 {
            AddrTransMode::Sv48
        } else if satp / 0x1000_0000_0000_0000 == 10 {
            AddrTransMode::Sv57
        } else {
            AddrTransMode::Bare
        },
    }
}

/// The physical page number of the root table that `satp` holds.
pub open spec fn satp_ppn(isa: Isa, satp: u64) -> u64 {
    match isa {
        Isa::Rv32 => satp % 0x40_0000,
        Isa::Rv64 => satp % 0x1000_0000_0000,
    }
}

/// The address-space identifier that `satp` holds.
pub open spec fn satp_asid(isa: Isa, satp: u64) -> u64 {
    match isa {
        Isa::Rv32 => (satp / 0x40_0000) % 0x200,
        Isa::Rv64 => (satp / 0x1000_0000_0000) % 0x1_0000,
    }
}

/// Bit `k` (0 = V, 1 = R, 2 = W, 3 = X, 4 = U, 5 = G, 6 = A, 7 = D) of a
/// page-table entry, given the bit's weight `2^k`.
pub open spec fn pte_bit(pte: u64, weight: u64) -> bool {
    (pte / weight) % 2 == 1
}

/// Weight of the valid bit of a page-table entry.
pub const PTE_V: u64 = 0x01;

/// Weight of the readable bit.
pub const PTE_R: u64 = 0x02;

/// Weight of the writable bit.
pub const PTE_W: u64 = 0x04;

/// Weight of the executable bit.
pub const PTE_X: u64 = 0x08;

/// Weight of the user bit.
pub const PTE_U: u64 = 0x10;

/// Weight of the accessed bit.
pub const PTE_A: u64 = 0x40;

/// Weight of the dirty bit.
pub const PTE_D: u64 = 0x80;

/// The physical page number that an entry holds.
pub open spec fn pte_ppn(mode: AddrTransMode, pte: u64) -> u64 {
    match mode {
        AddrTransMode::Sv32 => (pte / 0x400) % 0x40_0000,
        _ => (pte / 0x400) % 0x1000_0000_0000,
    }
}

/// An entry is usable when it is valid, is not writable without being
/// readable, and has no reserved bit (63:54 of a 64-bit entry) set.
pub open spec fn pte_valid(mode: AddrTransMode, pte: u64) -> bool {
    &&& pte_bit(pte, PTE_V)
    &&& !(!pte_bit(pte, PTE_R) && pte_bit(pte, PTE_W))
    &&& (mode != AddrTransMode::Sv32 ==> pte / 0x40_0000_0000_0000 == 0)
}

/// An entry is a leaf when it is readable or executable.
pub open spec fn pte_leaf(pte: u64) -> bool {
    pte_bit(pte, PTE_R) || pte_bit(pte, PTE_X)
}

/// How a page-table walk ends.
#[derive(Clone, Copy, PartialEq, Eq, Structural, Debug)]
pub enum Walk {
    /// A leaf entry was found at `level`, stored at `pte_addr`.
    Leaf { pte: u64, level: u64, pte_addr: u64 },
    /// An entry was unusable, or the last level held no leaf.
    PageFault,
    /// An entry could not be loaded.
    AccessFault,
}

/// The part of the page number `vpn` that selects the entry in a table of
/// level `level`: the `level`-th digit of `vpn` in base `span`.
pub open spec fn vpn_index(mode: AddrTransMode, vpn: u64, level: int) -> u64 {
    match mode {
        AddrTransMode::Sv32 => if level <= 0 {
            vpn % 0x400
        } else {
            (vpn / 0x400) % 0x400
        },
        _ => if level <= 0 {
            vpn % 0x200
        } else if level == 1 {
            (vpn / 0x200) % 0x200
        } else if level == 2 {
            (vpn / 0x4_0000) % 0x200
        } else if level == 3 {
            (vpn / 0x800_0000) % 0x200
        } else {
            (vpn / 0x10_0000_0000) % 0x200
        },
    }
}

/// The part of the page number `n` below the digit of level `level`: the
/// pages inside one entry of that level.
pub open spec fn vpn_low(mode: AddrTransMode, n: u64, level: int) -> u64 {
    match mode {
        AddrTransMode::Sv32 => if level <= 0 {
            0
        } else {
            n % 0x400
        },
        _ => if level <= 0 {
            0
        } else if level == 1 {
            n % 0x200
        } else if level == 2 {
            n % 0x4_0000
        } else if level == 3 {
            n % 0x800_0000
        } else {
            n % 0x10_0000_0000
        },
    }
}

/// Address of the entry for page `vpn` in the table at page `table_ppn` of
/// level `level`.
pub open spec fn pte_addr(mode: AddrTransMode, table_ppn: u64, vpn: u64, level: int) -> u64 {
    match mode {
        AddrTransMode::Sv32 => (table_ppn * 4096 + vpn_index(mode, vpn, level) * 4) as u64,
        _ => (table_ppn * 4096 + vpn_index(mode, vpn, level) * 8) as u64,
    }
}

/// The walk for page `vpn` from the table at page `table_ppn` of level
/// `level` down: load the entry; fail on an unusable one; stop at a leaf;
/// otherwise go on in the table the entry points to, one level down; below
/// level 0 there is nothing to find.
pub open spec fn spec_walk(bus: BusView, mode: AddrTransMode, table_ppn: u64, vpn: u64, level: int)
    -> Walk
    decreases level,
{
    if level < 0 {
        Walk::PageFault
    } else {
        let addr = pte_addr(mode, table_ppn, vpn, level);
        match bus.load(addr, mode.pte_width(), mode != AddrTransMode::Sv32) {
            Err(_) => Walk::AccessFault,
            Ok(pte) => if !pte_valid(mode, pte) {
                Walk::PageFault
            } else if pte_leaf(pte) {
                Walk::Leaf { pte, level: level as u64, pte_addr: addr }
            } else if level == 0 {
                Walk::PageFault
            } else {
                spec_walk(bus, mode, pte_ppn(mode, pte), vpn, level - 1)
            },
        }
    }
}

/// What a translation depends on besides the address and memory: the paging
/// scheme, root table and address space of `satp`, the purpose, the
/// effective privilege and the SUM and MXR bits of `mstatus`.
#[derive(Clone, Copy, PartialEq, Eq, Structural, Debug)]
pub struct TransCtx {
    pub mode: AddrTransMode,
    pub root_ppn: u64,
    pub asid: u64,
    pub purpose: TransFor,
    pub priv_lv: PrivilegedLevel,
    pub sum: bool,
    pub mxr: bool,
}

/// The cause of a fault of an access for `purpose`, of the three kinds.
pub open spec fn spec_fault_for(purpose: TransFor, kind: FaultKind, addr: u64) -> Fault {
    Fault {
        addr: Some(addr),
        cause: match purpose {
            TransFor::Fetch | TransFor::Deleg => match kind {
                FaultKind::Misaligned => TrapCause::InstructionAddressMisaligned,
                FaultKind::Access => TrapCause::InstructionAccessFault,
                FaultKind::Page => TrapCause::InstructionPageFault,
            },
            TransFor::Load => match kind {
                FaultKind::Misaligned => TrapCause::LoadAddressMisaligned,
                FaultKind::Access => TrapCause::LoadAccessFault,
                FaultKind::Page => TrapCause::LoadPageFault,
            },
            TransFor::StoreAMO => match kind {
                FaultKind::Misaligned => TrapCause::StoreAMOAddressMisaligned,
                FaultKind::Access => TrapCause::StoreAMOAccessFault,
                FaultKind::Page => TrapCause::StoreAMOPageFault,
            },
        },
    }
}

/// The three ways a memory access fails.
#[derive(Clone, Copy, PartialEq, Eq, Structural, Debug)]
pub enum FaultKind {
    Misaligned,
    Access,
    Page,
}

/// The fault of an access for `purpose`, of the given kind.
#[verifier::when_used_as_spec(spec_fault_for)]
pub fn fault_for(purpose: TransFor, kind: FaultKind, addr: u64) -> (r: Fault)
    ensures
        r == spec_fault_for(purpose, kind, addr),
{
    Fault {
        addr: Some(addr),
        cause: match purpose {
            TransFor::Fetch | TransFor::Deleg => match kind {
                FaultKind::Misaligned => TrapCause::InstructionAddressMisaligned,
                FaultKind::Access => TrapCause::InstructionAccessFault,
                FaultKind::Page => TrapCause::InstructionPageFault,
            },
            TransFor::Load => match kind {
                FaultKind::Misaligned => TrapCause::LoadAddressMisaligned,
                FaultKind::Access => TrapCause::LoadAccessFault,
                FaultKind::Page => TrapCause::LoadPageFault,
            },
            TransFor::StoreAMO => match kind {
                FaultKind::Misaligned => TrapCause::StoreAMOAddressMisaligned,
                FaultKind::Access => TrapCause::StoreAMOAccessFault,
                FaultKind::Page => TrapCause::StoreAMOPageFault,
            },
        },
    }
}

/// Whether a leaf with permission bits `perm` grants the access: a fetch
/// needs X; a load R, or X while MXR is set; a store W. User mode needs a
/// user page; supervisor mode may touch a user page only for loads and
/// stores and only while SUM is set.
pub open spec fn spec_permits(perm: u64, ctx: TransCtx) -> bool {
    &&& match ctx.purpose {
        TransFor::Fetch | TransFor::Deleg => pte_bit(perm, PTE_X),
        TransFor::Load => pte_bit(perm, PTE_R) || (ctx.mxr && pte_bit(perm, PTE_X)),
        TransFor::StoreAMO => pte_bit(perm, PTE_W),
    }
    &&& match ctx.priv_lv {
        PrivilegedLevel::User => pte_bit(perm, PTE_U),
        PrivilegedLevel::Supervisor => !pte_bit(perm, PTE_U) || (ctx.sum && (ctx.purpose
            == TransFor::Load || ctx.purpose == TransFor::StoreAMO)),
        _ => true,
    }
}

/// Tests whether a leaf with permission bits `perm` grants the access.
#[verifier::when_used_as_spec(spec_permits)]
pub fn permits(perm: u64, ctx: TransCtx) -> (r: bool)
    ensures
        r == spec_permits(perm, ctx),
{
    let r = (perm / PTE_R) % 2 == 1;
    let w = (perm / PTE_W) % 2 == 1;
    let x = (perm / PTE_X) % 2 == 1;
    let u = (perm / PTE_U) % 2 == 1;
    let purpose_ok = match ctx.purpose {
        TransFor::Fetch | TransFor::Deleg => x,
        TransFor::Load => r || (ctx.mxr && x),
        TransFor::StoreAMO => w,
    };
    let level_ok = match ctx.priv_lv {
        PrivilegedLevel::User => u,
        PrivilegedLevel::Supervisor => !u || (ctx.sum && (ctx.purpose == TransFor::Load
            || ctx.purpose == TransFor::StoreAMO)),
        _ => true,
    };
    purpose_ok && level_ok
}

/// The entry with the accessed bit set and, for a store, the dirty bit too.
pub open spec fn spec_marked(pte: u64, purpose: TransFor) -> u64 {
    (pte + (if pte_bit(pte, PTE_A) {
        0
    } else {
        PTE_A as int
    }) + (if purpose == TransFor::StoreAMO && !pte_bit(pte, PTE_D) {
        PTE_D as int
    } else {
        0
    })) as u64
}

/// The physical page that the leaf maps page `vpn` to: the entry's page
/// number, with the low part of `vpn` in place of the bits that a superpage
/// leaves to the address.
pub open spec fn leaf_ppn(mode: AddrTransMode, pte: u64, vpn: u64, level: int) -> u64 {
    (pte_ppn(mode, pte) + vpn_low(mode, vpn, level)) as u64
}

/// A superpage leaf is aligned when the bits of its page number that the
/// address supplies are zero.
pub open spec fn superpage_aligned(mode: AddrTransMode, pte: u64, level: int) -> bool {
    vpn_low(mode, pte_ppn(mode, pte), level) == 0
}

/// What a granted access makes of a leaf: the physical address, the entry
/// to cache and the stored entry with its status bits brought up to date.
#[derive(Clone, Copy, PartialEq, Eq, Structural, Debug)]
pub struct LeafUse {
    pub paddr: u64,
    pub entry: TlbEntry,
    pub new_pte: u64,
}

/// The use of leaf `pte`, found at `level`, for the access at `vaddr`; none
/// where the leaf refuses the access or is a misaligned superpage.
pub open spec fn spec_use_leaf(ctx: TransCtx, vaddr: u64, pte: u64, level: int) -> Option<LeafUse> {
    let vpn = (vaddr / 4096) as u64;
    if !spec_permits(pte % 0x100, ctx) || !superpage_aligned(ctx.mode, pte, level) {
        None
    } else {
        let new_pte = spec_marked(pte, ctx.purpose);
        let ppn = leaf_ppn(ctx.mode, pte, vpn, level);
        Some(
            LeafUse {
                paddr: (ppn * 4096 + vaddr % 4096) as u64,
                entry: TlbEntry { vpn, ppn, asid: ctx.asid, perm: new_pte % 0x100 },
                new_pte,
            },
        )
    }
}

/// Outcome of a translation by walk: the physical address or the fault, the
/// address space afterwards, and the entry to cache on success.
pub struct Translation {
    pub result: Result<u64, Fault>,
    pub bus: BusView,
    pub entry: Option<TlbEntry>,
}

/// Translation of `vaddr` by a full walk from the root table. The leaf must
/// grant the access and be aligned; the walk then sets the accessed bit, and
/// the dirty bit for a store, in the stored entry where they are not set
/// yet. A missing or refused entry is a page fault, an entry that cannot be
/// loaded or updated an access fault, both of the purpose's kind and with
/// the virtual address as value.
pub open spec fn spec_translate(bus: BusView, ctx: TransCtx, vaddr: u64) -> Translation {
    let vpn = (vaddr / 4096) as u64;
    let page_fault = Translation {
        result: Err(spec_fault_for(ctx.purpose, FaultKind::Page, vaddr)),
        bus,
        entry: None,
    };
    let access_fault = Translation {
        result: Err(spec_fault_for(ctx.purpose, FaultKind::Access, vaddr)),
        bus,
        entry: None,
    };
    match spec_walk(bus, ctx.mode, ctx.root_ppn, vpn, ctx.mode.spec_levels() - 1) {
        Walk::AccessFault => access_fault,
        Walk::PageFault => page_fault,
        Walk::Leaf { pte, level, pte_addr } => match spec_use_leaf(ctx, vaddr, pte, level as int) {
            None => page_fault,
            Some(u) => if u.new_pte == pte {
                Translation { result: Ok(u.paddr), bus, entry: Some(u.entry) }
            } else {
                match bus.store(pte_addr, u.new_pte, ctx.mode.pte_width()) {
                    Ok(after) => Translation {
                        result: Ok(u.paddr),
                        bus: after,
                        entry: Some(u.entry),
                    },
                    Err(_) => access_fault,
                }
            },
        },
    }
}

/// Whether a cached entry answers the access without a walk: it grants the
/// access, and the walk would have no bit left to set.
pub open spec fn spec_usable(e: TlbEntry, ctx: TransCtx) -> bool {
    &&& spec_permits(e.perm, ctx)
    &&& pte_bit(e.perm, PTE_A)
    &&& (ctx.purpose == TransFor::StoreAMO ==> pte_bit(e.perm, PTE_D))
}

/// Outcome of a translation by the MMU: the physical address or the fault,
/// the address space and the buffer afterwards.
pub struct MmuOutcome {
    pub result: Result<u64, Fault>,
    pub bus: BusView,
    pub tlb: Seq<Option<TlbEntry>>,
}

/// Translation of `vaddr` with the buffer in front of the walk: a usable hit
/// answers from the cached page; anything else walks, and a successful walk
/// refills the page's slot.
pub open spec fn spec_translate_cached(
    tlb: Seq<Option<TlbEntry>>,
    bus: BusView,
    ctx: TransCtx,
    vaddr: u64,
) -> MmuOutcome {
    match tlb_lookup(tlb, vaddr) {
        Some(e) if spec_usable(e, ctx) => MmuOutcome {
            result: Ok((e.ppn * 4096 + vaddr % 4096) as u64),
            bus,
            tlb,
        },
        _ => {
            let t = spec_translate(bus, ctx, vaddr);
            MmuOutcome {
                result: t.result,
                bus: t.bus,
                tlb: match t.entry {
                    Some(e) => tlb.update(slot_of(vaddr), Some(e)),
                    None => tlb,
                },
            }
        },
    }
}

/// The privilege that governs a translation: for loads and stores in machine
/// mode with `mstatus.MPRV` set it is `mstatus.MPP`, otherwise the current
/// one. Fetches always use the current privilege.
pub open spec fn effective_priv(csr: CsrView, priv_lv: PrivilegedLevel, purpose: TransFor)
    -> PrivilegedLevel {
    if priv_lv == PrivilegedLevel::Machine && (purpose == TransFor::Load || purpose
        == TransFor::StoreAMO) && status_field(csr.regs[MSTATUS as int], Xstatus::MPRV, csr.isa)
        == 1 {
        PrivilegedLevel::spec_from_level(
            status_field(csr.regs[MSTATUS as int], Xstatus::MPP, csr.isa),
        )
    } else {
        priv_lv
    }
}

/// The context of a translation for `purpose` at `priv_lv` under the CSRs.
pub open spec fn ctx_of(csr: CsrView, priv_lv: PrivilegedLevel, purpose: TransFor) -> TransCtx {
    TransCtx {
        mode: satp_mode(csr.isa, csr.regs[SATP as int]),
        root_ppn: satp_ppn(csr.isa, csr.regs[SATP as int]),
        asid: satp_asid(csr.isa, csr.regs[SATP as int]),
        purpose,
        priv_lv: effective_priv(csr, priv_lv, purpose),
        sum: status_field(csr.regs[MSTATUS as int], Xstatus::SUM, csr.isa) == 1,
        mxr: status_field(csr.regs[MSTATUS as int], Xstatus::MXR, csr.isa) == 1,
    }
}

/// Whether a translation in context `ctx` goes through the page table: a
/// paging scheme is selected and the effective privilege is supervisor or
/// user.
pub open spec fn paging_active(ctx: TransCtx) -> bool {
    ctx.mode != AddrTransMode::Bare && (ctx.priv_lv == PrivilegedLevel::Supervisor || ctx.priv_lv
        == PrivilegedLevel::User)
}

/// What the MMU answers for an access of width `align` at `addr`: a
/// misaligned address faults before anything else; without paging the
/// address is its own translation; with paging the buffer and the walk
/// decide.
#[verifier::opaque]
pub open spec fn spec_trans_addr(
    tlb: Seq<Option<TlbEntry>>,
    bus: BusView,
    csr: CsrView,
    priv_lv: PrivilegedLevel,
    purpose: TransFor,
    align: TransAlign,
    addr: u64,
) -> MmuOutcome {
    let ctx = ctx_of(csr, priv_lv, purpose);
    if addr % align.spec_bytes() != 0 {
        MmuOutcome { result: Err(spec_fault_for(purpose, FaultKind::Misaligned, addr)), bus, tlb }
    } else if !paging_active(ctx) {
        MmuOutcome { result: Ok(addr), bus, tlb }
    } else {
        spec_translate_cached(tlb, bus, ctx, addr)
    }
}

/// The memory management unit: the fields of `satp` as of the last
/// translation, and the translation buffer.
pub struct MMU {
    pub ppn: u64,
    pub asid: u64,
    pub trans_mode: AddrTransMode,
    pub tlb: Tlb,
}

impl MMU {
    /// The buffer is well-formed.
    pub open spec fn wf(&self) -> bool {
        self.tlb.wf()
    }

    /// The cached translations.
    pub open spec fn view(&self) -> Seq<Option<TlbEntry>> {
        self.tlb@
    }

    /// An MMU with translation off and an empty buffer.
    pub fn new() -> (r: MMU)
        ensures
            r.wf(),
            r@ == tlb::spec_empty_tlb(),
    {
        MMU { ppn: 0, asid: 0, trans_mode: AddrTransMode::Bare, tlb: Tlb::new() }
    }

    /// Takes the paging scheme, the root table and the address space from a
    /// value of `satp`.
    fn update_data(&mut self, satp: u64, isa: Isa)
        ensures
            final(self).tlb == old(self).tlb,
            final(self).trans_mode == satp_mode(isa, satp),
            final(self).ppn == satp_ppn(isa, satp),
            final(self).asid == satp_asid(isa, satp),
    {
        match isa {
            Isa::Rv32 => {
                self.ppn = satp % 0x40_0000;
                self.asid = (satp / 0x40_0000) % 0x200;
                self.trans_mode = if (satp / 0x8000_0000) % 2 == 1 {
                    AddrTransMode::Sv32
                } else {
                    AddrTransMode::Bare
                };
            },
            Isa::Rv64 => {
                self.ppn = satp % 0x1000_0000_0000;
                self.asid = (satp / 0x1000_0000_0000) % 0x1_0000;
                let mode = satp / 0x1000_0000_0000_0000;
                self.trans_mode = if mode == 8 {
                    AddrTransMode::Sv39
                } else if mode == 9 {
                    AddrTransMode::Sv48
                } else if mode == 10 {
                    AddrTransMode::Sv57
                } else {
                    AddrTransMode::Bare
                };
            },
        }
    }

    /// Accepts a usable page-table entry.
    fn check_pte_validity(&self, pte: u64) -> (r: Result<u64, ()>)
        ensures
            r == (if pte_valid(self.trans_mode, pte) {
                Ok::<u64, ()>(pte)
            } else {
                Err::<u64, ()>(())
            }),
    {
        let pte_v = pte % 2;
        let pte_r = (pte / PTE_R) % 2;
        let pte_w = (pte / PTE_W) % 2;
        let reserved = match self.trans_mode {
            AddrTransMode::Sv32 => false,
            _ => pte / 0x40_0000_0000_0000 != 0,
        };

        if pte_v == 0 || (pte_r == 0 && pte_w == 1) || reserved {
            Err(())
        } else {
            Ok(pte)
        }
    }

    /// Tells a leaf entry from a pointer to the next table.
    fn check_leaf_pte(&self, pte: u64) -> (r: bool)
        ensures
            r == pte_leaf(pte),
    {
        let pte_r = (pte / PTE_R) % 2;
        let pte_x = (pte / PTE_X) % 2;

        pte_r == 1 || pte_x == 1
    }

    /// The page number that an entry holds.
    fn pte_ppn(&self, pte: u64) -> (r: u64)
        ensures
            r == pte_ppn(self.trans_mode, pte),
            r < 0x1000_0000_0000,
    {
        match self.trans_mode {
            AddrTransMode::Sv32 => (pte / 0x400) % 0x40_0000,
            _ => (pte / 0x400) % 0x1000_0000_0000,
        }
    }

    /// The digit of `vpn` that selects the entry in a table of `level`.
    fn vpn_index(&self, vpn: u64, level: u64) -> (r: u64)
        ensures
            r == vpn_index(self.trans_mode, vpn, level as int),
            r < 0x400,
    {
        match self.trans_mode {
            AddrTransMode::Sv32 => if level == 0 {
                vpn % 0x400
            } else {
                (vpn / 0x400) % 0x400
            },
            _ => if level == 0 {
                vpn % 0x200
            } else if level == 1 {
                (vpn / 0x200) % 0x200
            } else if level == 2 {
                (vpn / 0x4_0000) % 0x200
            } else if level == 3 {
                (vpn / 0x800_0000) % 0x200
            } else {
                (vpn / 0x10_0000_0000) % 0x200
            },
        }
    }

    /// The part of `n` below the digit of `level`.
    fn vpn_low(&self, n: u64, level: u64) -> (r: u64)
        ensures
            r == vpn_low(self.trans_mode, n, level as int),
            r < 0x10_0000_0000,
    {
        match self.trans_mode {
            AddrTransMode::Sv32 => if level == 0 {
                0
            } else {
                n % 0x400
            },
            _ => if level == 0 {
                0
            } else if level == 1 {
                n % 0x200
            } else if level == 2 {
                n % 0x4_0000
            } else if level == 3 {
                n % 0x800_0000
            } else {
                n % 0x10_0000_0000
            },
        }
    }

    /// Walks the page table for page `vpn`, starting at the root table.
    fn walk(&self, bus: &Bus, vpn: u64) -> (r: Walk)
        requires
            bus.wf(),
            self.trans_mode != AddrTransMode::Bare,
            self.ppn < 0x1000_0000_0000,
        ensures
            r == spec_walk(
                bus@,
                self.trans_mode,
                self.ppn,
                vpn,
                self.trans_mode.spec_levels() - 1,
            ),
            r is Leaf ==> r->level < self.trans_mode.spec_levels(),
    {
        let mode = self.trans_mode;
        let mut a: u64 = self.ppn;
        let mut i: u64 = mode.levels() - 1;
        loop
            invariant
                mode == self.trans_mode,
                mode != AddrTransMode::Bare,
                bus.wf(),
                i < mode.spec_levels(),
                a < 0x1000_0000_0000,
                spec_walk(bus@, mode, self.ppn, vpn, mode.spec_levels() - 1) == spec_walk(
                    bus@,
                    mode,
                    a,
                    vpn,
                    i as int,
                ),
            decreases i,
        {
            let index = self.vpn_index(vpn, i);
            let addr = match mode {
                AddrTransMode::Sv32 => a * PAGESIZE + index * 4,
                _ => a * PAGESIZE + index * 8,
            };
            let loaded = match mode {
                AddrTransMode::Sv32 => bus.load_u32(addr),
                _ => bus.load64(addr),
            };
            let pte = match loaded {
                Ok(pte) => pte,
                Err(_) => { return Walk::AccessFault; },
            };
            if self.check_pte_validity(pte).is_err() {
                return Walk::PageFault;
            }
            // the translation is complete if the entry is a leaf

            if self.check_leaf_pte(pte) {
                return Walk::Leaf { pte, level: i, pte_addr: addr };
            }
            if i == 0 {
                return Walk::PageFault;
            }
            a = self.pte_ppn(pte);
            i = i - 1;
        }
    }

    /// Sets the accessed bit of an entry and, for a store, the dirty bit.
    fn mark(pte: u64, purpose: TransFor) -> (r: u64)
        ensures
            r == spec_marked(pte, purpose),
    {
        let mut new_pte = pte;
        assert(pte / 0x40 == (pte / 0x80) * 2 + (pte / 0x40) % 2);
        if (pte / PTE_A) % 2 != 1 {
            new_pte = new_pte + PTE_A;
        }
        if purpose == TransFor::StoreAMO && (pte / PTE_D) % 2 != 1 {
            new_pte = new_pte + PTE_D;
        }
        new_pte
    }

    /// Checks a leaf against the access and works out what the access
    /// makes of it.
    fn use_leaf(&self, ctx: TransCtx, vaddr: u64, pte: u64, level: u64) -> (r: Option<LeafUse>)
        requires
            ctx.mode == self.trans_mode,
        ensures
            r == spec_use_leaf(ctx, vaddr, pte, level as int),
            r is Some ==> r->Some_0.entry.ppn < 0x2000_0000_0000,
    {
        let vpn = vaddr / PAGESIZE;
        let ppn_low = self.vpn_low(vpn, level);
        let pte_ppn = self.pte_ppn(pte);
        if !permits(pte % 0x100, ctx) || self.vpn_low(pte_ppn, level) != 0 {
            return None;
        }
        let new_pte = Self::mark(pte, ctx.purpose);
        let ppn = pte_ppn + ppn_low;
        let paddr = ppn * PAGESIZE + vaddr % PAGESIZE;
        Some(
            LeafUse {
                paddr,
                entry: TlbEntry { vpn, ppn, asid: ctx.asid, perm: new_pte % 0x100 },
                new_pte,
            },
        )
    }

    /// Translates by a full walk and brings the stored entry up to date.
    fn translate(&self, bus: &mut Bus, ctx: TransCtx, vaddr: u64) -> (r: (
        Result<u64, Fault>,
        Option<TlbEntry>,
    ))
        requires
            old(bus).wf(),
            ctx.mode == self.trans_mode,
            ctx.root_ppn == self.ppn,
            self.trans_mode != AddrTransMode::Bare,
            self.ppn < 0x1000_0000_0000,
        ensures
            final(bus).wf(),
            ({
                let t = spec_translate(old(bus)@, ctx, vaddr);
                &&& r.0 == t.result
                &&& r.1 == t.entry
                &&& final(bus)@ == t.bus
            }),
            r.1 is Some ==> r.1->Some_0.ppn < 0x2000_0000_0000,
    {
        let vpn = vaddr / PAGESIZE;
        match self.walk(bus, vpn) {
            Walk::AccessFault => (Err(fault_for(ctx.purpose, FaultKind::Access, vaddr)), None),
            Walk::PageFault => (Err(fault_for(ctx.purpose, FaultKind::Page, vaddr)), None),
            Walk::Leaf { pte, level, pte_addr } => match self.use_leaf(ctx, vaddr, pte, level) {
                None => (Err(fault_for(ctx.purpose, FaultKind::Page, vaddr)), None),
                Some(u) => {
                    if u.new_pte != pte {
                        let stored = match self.trans_mode {
                            AddrTransMode::Sv32 => bus.store32(pte_addr, u.new_pte),
                            _ => bus.store64(pte_addr, u.new_pte),
                        };
                        if stored.is_err() {
                            return (Err(fault_for(ctx.purpose, FaultKind::Access, vaddr)), None);
                        }
                    }
                    (Ok(u.paddr), Some(u.entry))
                },
            },
        }
    }

    /// Whether a cached entry answers the access without a walk.
    fn usable(e: TlbEntry, ctx: TransCtx) -> (r: bool)
        ensures
            r == spec_usable(e, ctx),
    {
        permits(e.perm, ctx) && (e.perm / PTE_A) % 2 == 1 && (ctx.purpose != TransFor::StoreAMO
            || (e.perm / PTE_D) % 2 == 1)
    }

    /// Translates with the buffer in front of the walk.
    fn translate_cached(&mut self, bus: &mut Bus, ctx: TransCtx, vaddr: u64) -> (r: Result<
        u64,
        Fault,
    >)
        requires
            old(self).wf(),
            old(bus).wf(),
            ctx.mode == old(self).trans_mode,
            ctx.root_ppn == old(self).ppn,
            old(self).trans_mode != AddrTransMode::Bare,
            old(self).ppn < 0x1000_0000_0000,
        ensures
            final(self).wf(),
            final(bus).wf(),
            ({
                let o = spec_translate_cached(old(self)@, old(bus)@, ctx, vaddr);
                &&& r == o.result
                &&& final(bus)@ == o.bus
                &&& final(self)@ == o.tlb
            }),
            final(self).trans_mode == old(self).trans_mode,
            final(self).ppn == old(self).ppn,
            final(self).asid == old(self).asid,
    {
        match self.tlb.lookup(vaddr) {
            Some(e) => {
                if Self::usable(e, ctx) {
                    return Ok(e.ppn * PAGESIZE + vaddr % PAGESIZE);
                }
            },
            None => {},
        }
        let (result, entry) = self.translate(bus, ctx, vaddr);
        match entry {
            Some(e) => {
                self.tlb.refill_tlb(vaddr, e.ppn * PAGESIZE, e.asid, e.perm);
            },
            None => {},
        }
        result
    }

    /// The context of a translation for `purpose` at `priv_lv`.
    fn context(&self, csrs: &CSRs, priv_lv: PrivilegedLevel, purpose: TransFor) -> (r: TransCtx)
        requires
            csrs.wf(),
            self.trans_mode == satp_mode(csrs.isa, csrs@.regs[SATP as int]),
            self.ppn == satp_ppn(csrs.isa, csrs@.regs[SATP as int]),
            self.asid == satp_asid(csrs.isa, csrs@.regs[SATP as int]),
        ensures
            r == ctx_of(csrs@, priv_lv, purpose),
    {
        let mstatus = csrs.csrs[MSTATUS];
        let isa = csrs.isa;
        let mprv = (mstatus >> Xstatus::MPRV.shift(isa)) & Xstatus::MPRV.limit() == 1;
        let eff = if priv_lv == PrivilegedLevel::Machine && (purpose == TransFor::Load || purpose
            == TransFor::StoreAMO) && mprv {
            PrivilegedLevel::from_level((mstatus >> Xstatus::MPP.shift(isa)) & Xstatus::MPP.limit())
        } else {
            priv_lv
        };
        TransCtx {
            mode: self.trans_mode,
            root_ppn: self.ppn,
            asid: self.asid,
            purpose,
            priv_lv: eff,
            sum: (mstatus >> Xstatus::SUM.shift(isa)) & Xstatus::SUM.limit() == 1,
            mxr: (mstatus >> Xstatus::MXR.shift(isa)) & Xstatus::MXR.limit() == 1,
        }
    }

    /// Translates the virtual address `addr` of an access of width `align`
    /// for `purpose`, made at privilege `priv_lv` under the CSRs `csrs`. The
    /// MMU takes the paging scheme, the root table and the address space
    /// from `satp` anew on every call.
    pub fn trans_addr(
        &mut self,
        purpose: TransFor,
        align: TransAlign,
        addr: u64,
        csrs: &CSRs,
        priv_lv: PrivilegedLevel,
        bus: &mut Bus,
    ) -> (r: Result<u64, Fault>)
        requires
            old(self).wf(),
            old(bus).wf(),
            csrs.wf(),
        ensures
            final(self).wf(),
            final(bus).wf(),
            ({
                let o = spec_trans_addr(
                    old(self)@,
                    old(bus)@,
                    csrs@,
                    priv_lv,
                    purpose,
                    align,
                    addr,
                );
                &&& r == o.result
                &&& final(bus)@ == o.bus
                &&& final(self)@ == o.tlb
            }),
            final(self).trans_mode == satp_mode(csrs.isa, csrs@.regs[SATP as int]),
            final(self).ppn == satp_ppn(csrs.isa, csrs@.regs[SATP as int]),
            final(self).asid == satp_asid(csrs.isa, csrs@.regs[SATP as int]),
    {
        proof {
            reveal(spec_trans_addr);
        }
        // update trans_mode and ppn
        let satp = csrs.csrs[SATP];
        self.update_data(satp, csrs.isa);

        if addr % align.bytes() != 0 {
            return Err(fault_for(purpose, FaultKind::Misaligned, addr));
        }
        let ctx = self.context(csrs, priv_lv, purpose);
        match ctx.mode {
            // return raw address if translation is off
            AddrTransMode::Bare => Ok(addr),
            _ => match ctx.priv_lv {
                PrivilegedLevel::Supervisor | PrivilegedLevel::User => self.translate_cached(
                    bus,
                    ctx,
                    addr,
                ),
                // return raw address if privileged level is Machine
                _ => Ok(addr),
            },
        }
    }

    /// Invalidates cached translations as `sfence.vma` asks.
    pub fn sfence(&mut self, vaddr: Option<u64>, asid: Option<u64>)
        requires
            old(self).wf(),
        ensures
            final(self).wf(),
            final(self)@ == tlb::tlb_flush(old(self)@, vaddr, asid),
    {
        self.tlb.flush(vaddr, asid);
    }
}

/// Whether two permission bytes grant the same rights: they are equal in
/// every bit but accessed and dirty.
pub open spec fn same_rights(a: u64, b: u64) -> bool {
    a % 0x40 == b % 0x40
}

/// Whether a cached entry is what a full walk for its page finds in memory
/// `bus` under paging scheme `mode` from the root table at page `root_ppn`:
/// the walk ends in an aligned leaf that grants the cached rights and maps
/// the page to the cached physical page, and a status bit that the entry
/// has is set in memory too.
pub open spec fn entry_agrees(e: TlbEntry, bus: BusView, mode: AddrTransMode, root_ppn: u64)
    -> bool {
    match spec_walk(bus, mode, root_ppn, e.vpn, mode.spec_levels() - 1) {
        Walk::Leaf { pte, level, pte_addr } => {
            &&& same_rights(pte, e.perm)
            &&& (pte_bit(e.perm, PTE_A) ==> pte_bit(pte, PTE_A))
            &&& (pte_bit(e.perm, PTE_D) ==> pte_bit(pte, PTE_D))
            &&& superpage_aligned(mode, pte, level as int)
            &&& leaf_ppn(mode, pte, e.vpn, level as int) == e.ppn
        },
        _ => false,
    }
}

/// Whether every valid entry of the buffer agrees with the page table in
/// memory.
pub open spec fn tlb_agrees(
    tlb: Seq<Option<TlbEntry>>,
    bus: BusView,
    mode: AddrTransMode,
    root_ppn: u64,
) -> bool {
    forall|i: int|
        0 <= i < tlb.len() ==> match #[trigger] tlb[i] {
            Some(e) => entry_agrees(e, bus, mode, root_ppn),
            None => true,
        }
}

/// Words that are equal in their low six bits are equal in each of them.
proof fn lemma_low_bits(a: u64, b: u64)
    by (bit_vector)
    requires
        a % 0x40 == b % 0x40,
    ensures
        (a / 0x02) % 2 == (b / 0x02) % 2,
        (a / 0x04) % 2 == (b / 0x04) % 2,
        (a / 0x08) % 2 == (b / 0x08) % 2,
        (a / 0x10) % 2 == (b / 0x10) % 2,
{
}

/// The low eight bits of a word are those of its low byte.
proof fn lemma_low_byte(a: u64)
    by (bit_vector)
    ensures
        (a % 0x100) % 0x40 == a % 0x40,
        ((a % 0x100) / 0x40) % 2 == (a / 0x40) % 2,
        ((a % 0x100) / 0x80) % 2 == (a / 0x80) % 2,
{
}

/// What setting the accessed bit, and the dirty bit if `dirty` asks for it,
/// changes of a word: these bits at most.
proof fn lemma_set_status(a: u64, m: u64, dirty: bool)
    by (bit_vector)
    requires
        m == a + (if (a / 0x40) % 2 == 1 {
            0u64
        } else {
            0x40u64
        }) + (if dirty && (a / 0x80) % 2 != 1 {
            0x80u64
        } else {
            0u64
        }),
    ensures
        m % 0x40 == a % 0x40,
        m / 0x100 == a / 0x100,
        m % 2 == a % 2,
        (m / 0x40) % 2 == 1,
        (a / 0x80) % 2 == 1 ==> (m / 0x80) % 2 == 1,
        dirty ==> (m / 0x80) % 2 == 1,
        m >= a,
        (a / 0x40) % 2 == 1 && (dirty ==> (a / 0x80) % 2 == 1) ==> m == a,
        m == a ==> (a / 0x40) % 2 == 1,
{
}

/// Words that are equal above their low byte hold the same page number and
/// the same reserved bits, and stay below `2^32` together.
proof fn lemma_high_bits(a: u64, m: u64)
    by (bit_vector)
    requires
        m / 0x100 == a / 0x100,
    ensures
        (m / 0x400) % 0x40_0000 == (a / 0x400) % 0x40_0000,
        (m / 0x400) % 0x1000_0000_0000 == (a / 0x400) % 0x1000_0000_0000,
        m / 0x40_0000_0000_0000 == a / 0x40_0000_0000_0000,
        a < 0x1_0000_0000 ==> m < 0x1_0000_0000,
{
}

/// The rights of an entry are those of its low byte, and two bytes that
/// grant the same rights permit the same accesses.
proof fn lemma_rights(a: u64, b: u64, ctx: TransCtx)
    requires
        same_rights(a, b),
    ensures
        spec_permits(a, ctx) == spec_permits(b, ctx),
        spec_permits((a % 0x100) as u64, ctx) == spec_permits(a, ctx),
        same_rights((a % 0x100) as u64, a),
{
    lemma_low_bits(a, b);
    lemma_low_byte(a);
    lemma_low_bits((a % 0x100) as u64, a);
}

/// The accessed and dirty bits of an entry are those of its low byte, and an
/// entry that has the bits an access wants set is left as it is.
proof fn lemma_status_bits(pte: u64, purpose: TransFor)
    ensures
        pte_bit((pte % 0x100) as u64, PTE_A) == pte_bit(pte, PTE_A),
        pte_bit((pte % 0x100) as u64, PTE_D) == pte_bit(pte, PTE_D),
        pte_bit(pte, PTE_A) && (purpose == TransFor::StoreAMO ==> pte_bit(pte, PTE_D))
            ==> spec_marked(pte, purpose) == pte,
        spec_marked(pte, purpose) == pte ==> pte_bit(pte, PTE_A),
{
    lemma_low_byte(pte);
    lemma_spec_marked(pte, purpose);
    lemma_set_status(pte, spec_marked(pte, purpose), purpose == TransFor::StoreAMO);
}

/// The entry with its status bits set, written out.
proof fn lemma_spec_marked(pte: u64, purpose: TransFor)
    ensures
        spec_marked(pte, purpose) == pte + (if (pte / 0x40) % 2 == 1 {
            0u64
        } else {
            0x40u64
        }) + (if purpose == TransFor::StoreAMO && (pte / 0x80) % 2 != 1 {
            0x80u64
        } else {
            0u64
        }),
{
    assert(pte / 0x40 == (pte / 0x80) * 2 + (pte / 0x40) % 2);
}

/// Setting status bits changes nothing else of an entry: the rights, the
/// page number, validity and kind stay, and the status bits only grow.
proof fn lemma_marked(mode: AddrTransMode, pte: u64, purpose: TransFor)
    ensures
        ({
            let m = spec_marked(pte, purpose);
            &&& same_rights(m, pte)
            &&& pte_ppn(mode, m) == pte_ppn(mode, pte)
            &&& pte_valid(mode, m) == pte_valid(mode, pte)
            &&& pte_leaf(m) == pte_leaf(pte)
            &&& pte_bit(m, PTE_A)
            &&& (pte_bit(pte, PTE_D) ==> pte_bit(m, PTE_D))
            &&& (purpose == TransFor::StoreAMO ==> pte_bit(m, PTE_D))
            &&& (pte < 0x1_0000_0000 ==> m < 0x1_0000_0000)
            &&& m >= pte
        }),
{
    let m = spec_marked(pte, purpose);
    lemma_spec_marked(pte, purpose);
    lemma_set_status(pte, m, purpose == TransFor::StoreAMO);
    lemma_high_bits(pte, m);
    lemma_low_bits(m, pte);
}

/// The sum of a page address and four or eight times an index is a
/// multiple of four or eight, and is a 64-bit address.
proof fn lemma_entry_offsets(table_ppn: u64, index: u64)
    by (bit_vector)
    requires
        table_ppn < 0x1000_0000_0000,
        index < 0x400,
    ensures
        (table_ppn * 4096 + index * 4) % 4 == 0,
        (table_ppn * 4096 + index * 8) % 8 == 0,
        table_ppn * 4096 + index * 8 < 0x1_0000_0000_0000_0000,
{
}

/// The address of a page-table entry is a multiple of the entry size.
proof fn lemma_pte_addr_aligned(mode: AddrTransMode, table_ppn: u64, vpn: u64, level: int)
    requires
        table_ppn < 0x1000_0000_0000,
    ensures
        pte_addr(mode, table_ppn, vpn, level) % mode.pte_width().spec_bytes() == 0,
{
    let index = vpn_index(mode, vpn, level);
    lemma_entry_offsets(table_ppn, index);
}

/// While the buffer agrees with the page table in memory, a translation
/// answered by a hit is the translation a full walk from the same root
/// returns, and like that walk it leaves memory as it is.
pub proof fn lemma_hit_equals_walk(
    tlb: Seq<Option<TlbEntry>>,
    bus: BusView,
    ctx: TransCtx,
    vaddr: u64,
)
    requires
        tlb.len() == TLB_ENTRIES,
        tlb_agrees(tlb, bus, ctx.mode, ctx.root_ppn),
        tlb_lookup(tlb, vaddr) is Some,
        spec_usable(tlb_lookup(tlb, vaddr)->Some_0, ctx),
    ensures
        spec_translate_cached(tlb, bus, ctx, vaddr).result == spec_translate(bus, ctx, vaddr).result,
        spec_translate_cached(tlb, bus, ctx, vaddr).bus == spec_translate(bus, ctx, vaddr).bus,
        spec_translate_cached(tlb, bus, ctx, vaddr).result is Ok,
{
    let e = tlb_lookup(tlb, vaddr)->Some_0;
    assert(tlb[slot_of(vaddr)] == Some(e));
    assert(entry_agrees(e, bus, ctx.mode, ctx.root_ppn));
    let vpn = (vaddr / 4096) as u64;
    assert(e.vpn == vpn);
    let w = spec_walk(bus, ctx.mode, ctx.root_ppn, vpn, ctx.mode.spec_levels() - 1);
    lemma_status_bits(w->pte, ctx.purpose);
    lemma_rights(w->pte, e.perm, ctx);
}

/// A buffer without valid entries agrees with every memory, and a fence
/// keeps a buffer in agreement.
pub proof fn lemma_flush_agrees(
    tlb: Seq<Option<TlbEntry>>,
    bus: BusView,
    mode: AddrTransMode,
    root_ppn: u64,
    fence_vaddr: Option<u64>,
    fence_asid: Option<u64>,
)
    requires
        tlb.len() == TLB_ENTRIES,
    ensures
        tlb_agrees(tlb::tlb_flush(tlb, None, None), bus, mode, root_ppn),
        tlb_agrees(tlb::spec_empty_tlb(), bus, mode, root_ppn),
        tlb_agrees(tlb, bus, mode, root_ppn) ==> tlb_agrees(
            tlb::tlb_flush(tlb, fence_vaddr, fence_asid),
            bus,
            mode,
            root_ppn,
        ),
{
    if tlb_agrees(tlb, bus, mode, root_ppn) {
        let f = tlb::tlb_flush(tlb, fence_vaddr, fence_asid);
        assert forall|i: int| 0 <= i < f.len() implies match #[trigger] f[i] {
            Some(e) => entry_agrees(e, bus, mode, root_ppn),
            None => true,
        } by {
            assert(f[i] is Some ==> f[i] == tlb[i]);
        }
    }
}

/// The leaf that a walk ends in is the entry that memory holds at the
/// leaf's address; it is a usable leaf, and its address is a multiple of the
/// entry size.
proof fn lemma_walk_leaf(bus: BusView, mode: AddrTransMode, table_ppn: u64, vpn: u64, level: int)
    requires
        table_ppn < 0x1000_0000_0000,
    ensures
        spec_walk(bus, mode, table_ppn, vpn, level) is Leaf ==> {
            let w = spec_walk(bus, mode, table_ppn, vpn, level);
            &&& bus.load(w->pte_addr, mode.pte_width(), mode != AddrTransMode::Sv32) == Ok::<
                u64,
                Fault,
            >(w->pte)
            &&& w->level <= level
            &&& pte_valid(mode, w->pte)
            &&& pte_leaf(w->pte)
            &&& w->pte_addr % mode.pte_width().spec_bytes() == 0
        },
    decreases level,
{
    if level >= 0 {
        let addr = pte_addr(mode, table_ppn, vpn, level);
        lemma_pte_addr_aligned(mode, table_ppn, vpn, level);
        match bus.load(addr, mode.pte_width(), mode != AddrTransMode::Sv32) {
            Err(_) => {},
            Ok(pte) => {
                if pte_valid(mode, pte) && !pte_leaf(pte) && level > 0 {
                    lemma_walk_leaf(bus, mode, pte_ppn(mode, pte), vpn, level - 1);
                }
            },
        }
    }
}

/// A walk in the memory after the status bits of a leaf were brought up to
/// date ends where it ended before: in the same leaf, which is the updated
/// entry if it is the one at the updated address, or in the same fault.
proof fn lemma_walk_after_mark(
    bus: BusView,
    mode: AddrTransMode,
    table_ppn: u64,
    vpn: u64,
    level: int,
    at: u64,
    pte: u64,
    purpose: TransFor,
)
    requires
        bus.wf(),
        mode != AddrTransMode::Bare,
        table_ppn < 0x1000_0000_0000,
        at % mode.pte_width().spec_bytes() == 0,
        bus.load(at, mode.pte_width(), mode != AddrTransMode::Sv32) == Ok::<u64, Fault>(pte),
        pte_valid(mode, pte),
        pte_leaf(pte),
        bus.store(at, spec_marked(pte, purpose), mode.pte_width()) is Ok,
    ensures
        ({
            let after = bus.store(at, spec_marked(pte, purpose), mode.pte_width())->Ok_0;
            match spec_walk(bus, mode, table_ppn, vpn, level) {
                Walk::Leaf { pte: found, level: l, pte_addr: a } => {
                    &&& spec_walk(after, mode, table_ppn, vpn, level) == Walk::Leaf {
                        pte: if a == at {
                            spec_marked(pte, purpose)
                        } else {
                            found
                        },
                        level: l,
                        pte_addr: a,
                    }
                    &&& (a == at ==> found == pte)
                },
                other => spec_walk(after, mode, table_ppn, vpn, level) == other,
            }
        }),
    decreases level,
{
    if level >= 0 {
        let size = mode.pte_width();
        let signed = mode != AddrTransMode::Sv32;
        let new_pte = spec_marked(pte, purpose);
        let after = bus.store(at, new_pte, size)->Ok_0;
        let addr = pte_addr(mode, table_ppn, vpn, level);
        lemma_marked(mode, pte, purpose);
        crate::bus::lemma_bus_shape(bus, at, new_pte, size);
        if addr == at {
            crate::bus::lemma_store_then_load(bus, at, new_pte, size, signed);
        } else {
            lemma_pte_addr_aligned(mode, table_ppn, vpn, level);
            crate::bus::lemma_store_keeps_other_loads(bus, at, new_pte, size, addr, signed);
            match bus.load(addr, size, signed) {
                Err(_) => {},
                Ok(found) => {
                    if pte_valid(mode, found) && !pte_leaf(found) && level > 0 {
                        lemma_walk_after_mark(
                            bus,
                            mode,
                            pte_ppn(mode, found),
                            vpn,
                            level - 1,
                            at,
                            pte,
                            purpose,
                        );
                    }
                },
            }
        }
    }
}

/// An entry that agrees with memory agrees with the memory after the status
/// bits of a leaf were brought up to date.
proof fn lemma_entry_survives_mark(
    e: TlbEntry,
    bus: BusView,
    mode: AddrTransMode,
    root_ppn: u64,
    at: u64,
    pte: u64,
    purpose: TransFor,
)
    requires
        bus.wf(),
        mode != AddrTransMode::Bare,
        root_ppn < 0x1000_0000_0000,
        at % mode.pte_width().spec_bytes() == 0,
        bus.load(at, mode.pte_width(), mode != AddrTransMode::Sv32) == Ok::<u64, Fault>(pte),
        pte_valid(mode, pte),
        pte_leaf(pte),
        bus.store(at, spec_marked(pte, purpose), mode.pte_width()) is Ok,
        entry_agrees(e, bus, mode, root_ppn),
    ensures
        entry_agrees(
            e,
            bus.store(at, spec_marked(pte, purpose), mode.pte_width())->Ok_0,
            mode,
            root_ppn,
        ),
{
    lemma_walk_after_mark(bus, mode, root_ppn, e.vpn, mode.spec_levels() - 1, at, pte, purpose);
    lemma_marked(mode, pte, purpose);
}

/// A store that succeeds with a payload other than the entry that a load
/// from the same address returned does not leave memory as it was.
proof fn lemma_store_changes_memory(
    bus: BusView,
    addr: u64,
    pte: u64,
    new_pte: u64,
    mode: AddrTransMode,
)
    requires
        bus.wf(),
        mode != AddrTransMode::Bare,
        bus.load(addr, mode.pte_width(), mode != AddrTransMode::Sv32) == Ok::<u64, Fault>(pte),
        new_pte != pte,
        new_pte < 0x1_0000_0000 || mode != AddrTransMode::Sv32,
        bus.store(addr, new_pte, mode.pte_width()) is Ok,
    ensures
        bus.store(addr, new_pte, mode.pte_width())->Ok_0 != bus,
{
    crate::bus::lemma_store_then_load(
        bus,
        addr,
        new_pte,
        mode.pte_width(),
        mode != AddrTransMode::Sv32,
    );
}

/// The memory that a walk leaves behind is the memory it found, or that
/// memory with the status bits of the leaf it found brought up to date.
proof fn lemma_walk_effect(bus: BusView, ctx: TransCtx, vaddr: u64)
    requires
        bus.wf(),
        ctx.root_ppn < 0x1000_0000_0000,
    ensures
        ({
            let t = spec_translate(bus, ctx, vaddr);
            let w = spec_walk(
                bus,
                ctx.mode,
                ctx.root_ppn,
                (vaddr / 4096) as u64,
                ctx.mode.spec_levels() - 1,
            );
            &&& t.bus.wf()
            &&& t.bus != bus ==> {
                &&& w is Leaf
                &&& bus.store(
                    w->pte_addr,
                    spec_marked(w->pte, ctx.purpose),
                    ctx.mode.pte_width(),
                ) == Ok::<BusView, Fault>(t.bus)
            }
            &&& t.entry is Some ==> {
                &&& w is Leaf
                &&& t.entry->Some_0.vpn == vaddr / 4096
                &&& t.entry->Some_0.ppn == leaf_ppn(
                    ctx.mode,
                    w->pte,
                    (vaddr / 4096) as u64,
                    w->level as int,
                )
                &&& t.entry->Some_0.perm == spec_marked(w->pte, ctx.purpose) % 0x100
                &&& superpage_aligned(ctx.mode, w->pte, w->level as int)
                &&& (t.bus == bus ==> spec_marked(w->pte, ctx.purpose) == w->pte)
            }
        }),
{
    let w = spec_walk(
        bus,
        ctx.mode,
        ctx.root_ppn,
        (vaddr / 4096) as u64,
        ctx.mode.spec_levels() - 1,
    );
    if w is Leaf {
        let new_pte = spec_marked(w->pte, ctx.purpose);
        crate::bus::lemma_bus_shape(bus, w->pte_addr, new_pte, ctx.mode.pte_width());
        if new_pte != w->pte && bus.store(w->pte_addr, new_pte, ctx.mode.pte_width()) is Ok {
            lemma_walk_leaf(
                bus,
                ctx.mode,
                ctx.root_ppn,
                (vaddr / 4096) as u64,
                ctx.mode.spec_levels() - 1,
            );
            crate::bus::lemma_bus_shape(bus, w->pte_addr, 0, TransAlign::Size32);
            lemma_marked(ctx.mode, w->pte, ctx.purpose);
            lemma_store_changes_memory(bus, w->pte_addr, w->pte, new_pte, ctx.mode);
        }
    }
}

/// The entry that a walk caches agrees with the memory the walk leaves
/// behind.
proof fn lemma_new_entry_agrees(bus: BusView, ctx: TransCtx, vaddr: u64)
    requires
        bus.wf(),
        ctx.mode != AddrTransMode::Bare,
        ctx.root_ppn < 0x1000_0000_0000,
        spec_translate(bus, ctx, vaddr).entry is Some,
    ensures
        entry_agrees(
            spec_translate(bus, ctx, vaddr).entry->Some_0,
            spec_translate(bus, ctx, vaddr).bus,
            ctx.mode,
            ctx.root_ppn,
        ),
{
    let t = spec_translate(bus, ctx, vaddr);
    let e = t.entry->Some_0;
    let vpn = (vaddr / 4096) as u64;
    let top = ctx.mode.spec_levels() - 1;
    let w = spec_walk(bus, ctx.mode, ctx.root_ppn, vpn, top);
    lemma_walk_effect(bus, ctx, vaddr);
    lemma_walk_leaf(bus, ctx.mode, ctx.root_ppn, vpn, top);
    lemma_marked(ctx.mode, w->pte, ctx.purpose);
    let m = spec_marked(w->pte, ctx.purpose);
    lemma_low_byte(m);
    lemma_low_bits((m % 0x100) as u64, m);
    if t.bus != bus {
        lemma_walk_after_mark(
            bus,
            ctx.mode,
            ctx.root_ppn,
            vpn,
            top,
            w->pte_addr,
            w->pte,
            ctx.purpose,
        );
    }
    let after = spec_walk(t.bus, ctx.mode, ctx.root_ppn, e.vpn, top);
    assert(after == Walk::Leaf { pte: m, level: w->level, pte_addr: w->pte_addr });
}

/// An entry that agrees with memory agrees with the memory that a walk
/// leaves behind.
proof fn lemma_old_entry_agrees(e: TlbEntry, bus: BusView, ctx: TransCtx, vaddr: u64)
    requires
        bus.wf(),
        ctx.mode != AddrTransMode::Bare,
        ctx.root_ppn < 0x1000_0000_0000,
        entry_agrees(e, bus, ctx.mode, ctx.root_ppn),
    ensures
        entry_agrees(e, spec_translate(bus, ctx, vaddr).bus, ctx.mode, ctx.root_ppn),
{
    let t = spec_translate(bus, ctx, vaddr);
    let vpn = (vaddr / 4096) as u64;
    let top = ctx.mode.spec_levels() - 1;
    let w = spec_walk(bus, ctx.mode, ctx.root_ppn, vpn, top);
    lemma_walk_effect(bus, ctx, vaddr);
    if t.bus != bus {
        lemma_walk_leaf(bus, ctx.mode, ctx.root_ppn, vpn, top);
        lemma_entry_survives_mark(
            e,
            bus,
            ctx.mode,
            ctx.root_ppn,
            w->pte_addr,
            w->pte,
            ctx.purpose,
        );
    }
}

/// A translation keeps the buffer in agreement with the page table in
/// memory: a hit changes nothing, and a walk caches what it found, after it
/// brought the status bits of the leaf up to date.
pub proof fn lemma_translation_keeps_agreement(
    tlb: Seq<Option<TlbEntry>>,
    bus: BusView,
    ctx: TransCtx,
    vaddr: u64,
)
    requires
        tlb.len() == TLB_ENTRIES,
        bus.wf(),
        ctx.mode != AddrTransMode::Bare,
        ctx.root_ppn < 0x1000_0000_0000,
        tlb_agrees(tlb, bus, ctx.mode, ctx.root_ppn),
    ensures
        tlb_agrees(
            spec_translate_cached(tlb, bus, ctx, vaddr).tlb,
            spec_translate_cached(tlb, bus, ctx, vaddr).bus,
            ctx.mode,
            ctx.root_ppn,
        ),
        spec_translate_cached(tlb, bus, ctx, vaddr).bus.wf(),
        spec_translate_cached(tlb, bus, ctx, vaddr).tlb.len() == TLB_ENTRIES,
{
    let o = spec_translate_cached(tlb, bus, ctx, vaddr);
    let t = spec_translate(bus, ctx, vaddr);
    if o.tlb == tlb && o.bus == bus {
    } else {
        assert(o.bus == t.bus);
        lemma_walk_effect(bus, ctx, vaddr);
        if t.entry is Some {
            lemma_new_entry_agrees(bus, ctx, vaddr);
        }
        assert forall|i: int| 0 <= i < o.tlb.len() implies match #[trigger] o.tlb[i] {
            Some(e) => entry_agrees(e, o.bus, ctx.mode, ctx.root_ppn),
            None => true,
        } by {
            if t.entry is Some && i == slot_of(vaddr) {
                assert(o.tlb[i] == t.entry);
            } else {
                assert(o.tlb[i] == tlb[i]);
                if tlb[i] is Some {
                    lemma_old_entry_agrees(tlb[i]->Some_0, bus, ctx, vaddr);
                }
            }
        }
    }
}

/// The MMU keeps its buffer in agreement with the page table in memory over
/// every translation it is asked for.
pub proof fn lemma_trans_addr_keeps_agreement(
    tlb: Seq<Option<TlbEntry>>,
    bus: BusView,
    csr: CsrView,
    priv_lv: PrivilegedLevel,
    purpose: TransFor,
    align: TransAlign,
    addr: u64,
)
    requires
        tlb.len() == TLB_ENTRIES,
        bus.wf(),
        tlb_agrees(
            tlb,
            bus,
            satp_mode(csr.isa, csr.regs[SATP as int]),
            satp_ppn(csr.isa, csr.regs[SATP as int]),
        ),
    ensures
        tlb_agrees(
            spec_trans_addr(tlb, bus, csr, priv_lv, purpose, align, addr).tlb,
            spec_trans_addr(tlb, bus, csr, priv_lv, purpose, align, addr).bus,
            satp_mode(csr.isa, csr.regs[SATP as int]),
            satp_ppn(csr.isa, csr.regs[SATP as int]),
        ),
{
    reveal(spec_trans_addr);
    let ctx = ctx_of(csr, priv_lv, purpose);
    if addr % align.spec_bytes() == 0 && paging_active(ctx) {
        lemma_translation_keeps_agreement(tlb, bus, ctx, addr);
    }
}

/// After a fence that hits whatever the buffer holds for a page, the MMU
/// answers an access to that page as the full walk does: no mapping cached
/// before the fence is returned. A fence without operands hits everything.
pub proof fn lemma_fence_forces_walk(
    tlb: Seq<Option<TlbEntry>>,
    bus: BusView,
    ctx: TransCtx,
    fence_vaddr: Option<u64>,
    fence_asid: Option<u64>,
    vaddr: u64,
)
    requires
        tlb.len() == TLB_ENTRIES,
        tlb_lookup(tlb, vaddr) is Some ==> tlb::fence_hits(
            tlb_lookup(tlb, vaddr)->Some_0,
            fence_vaddr,
            fence_asid,
        ),
    ensures
        tlb_lookup(tlb::tlb_flush(tlb, fence_vaddr, fence_asid), vaddr) is None,
        spec_translate_cached(tlb::tlb_flush(tlb, fence_vaddr, fence_asid), bus, ctx, vaddr).result
            == spec_translate(bus, ctx, vaddr).result,
        spec_translate_cached(tlb::tlb_flush(tlb, fence_vaddr, fence_asid), bus, ctx, vaddr).bus
            == spec_translate(bus, ctx, vaddr).bus,
{
}

} // verus!
