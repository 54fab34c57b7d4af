//! The translation lookaside buffer: 256 entries, direct-mapped by the
//! virtual page number.

use vstd::prelude::*;

verus! {

/// Number of entries of the buffer.
pub const TLB_ENTRIES: usize = 256;

/// Size of a page in bytes.
pub const PAGESIZE: u64 = 4096;

/// One cached translation of a 4 KiB page.
#[derive(Clone, Copy, PartialEq, Eq, Structural, Debug)]
pub struct TlbEntry {
    /// Tag: the virtual page number.
    pub vpn: u64,
    /// The physical page number the page maps to.
    pub ppn: u64,
    /// The address space the translation belongs to.
    pub asid: u64,
    /// Permission and status bits of the leaf entry (V, R, W, X, U, G, A, D).
    pub perm: u64,
}

/// The translation lookaside buffer.
pub struct Tlb {
    pub tlb_data: Vec<Option<TlbEntry>>,
}

/// The buffer without a valid entry.
pub open spec fn spec_empty_tlb() -> Seq<Option<TlbEntry>> {
    Seq::new(TLB_ENTRIES as nat, |i: int| None::<TlbEntry>)
}

/// The slot that the page of `vaddr` maps to.
pub open spec fn slot_of(vaddr: u64) -> int {
    (vaddr as int / 4096) % 256
}

/// What a lookup of `vaddr` finds: the entry of the page's slot, provided it
/// is valid and its tag is the page's number.
pub open spec fn tlb_lookup(tlb: Seq<Option<TlbEntry>>, vaddr: u64) -> Option<TlbEntry> {
    match tlb[slot_of(vaddr)] {
        Some(e) => if e.vpn == vaddr / 4096 {
            Some(e)
        } else {
            None
        },
        None => None,
    }
}

/// The buffer after the translation of the page of `vaddr` to the page of
/// `paddr` is cached: the page's slot is overwritten, whatever it held.
pub open spec fn tlb_refill(
    tlb: Seq<Option<TlbEntry>>,
    vaddr: u64,
    paddr: u64,
    asid: u64,
    perm: u64,
) -> Seq<Option<TlbEntry>> {
    tlb.update(
        slot_of(vaddr),
        Some(TlbEntry { vpn: vaddr / 4096, ppn: paddr / 4096, asid, perm }),
    )
}

/// Whether a fence with the given operands invalidates entry `e`: an absent
/// operand matches every entry, a page every entry of that page, an address
/// space every entry of that address space.
pub open spec fn fence_hits(e: TlbEntry, vaddr: Option<u64>, asid: Option<u64>) -> bool {
    &&& (vaddr is Some ==> e.vpn == vaddr->Some_0 / 4096)
    &&& (asid is Some ==> e.asid == asid->Some_0)
}

/// The buffer after a fence: the entries the fence hits are invalid, the
/// others are kept.
pub open spec fn tlb_flush(tlb: Seq<Option<TlbEntry>>, vaddr: Option<u64>, asid: Option<u64>)
    -> Seq<Option<TlbEntry>> {
    Seq::new(
        tlb.len(),
        |i: int|
            match tlb[i] {
                Some(e) => if fence_hits(e, vaddr, asid) {
                    None
                } else {
                    Some(e)
                },
                None => None,
            },
    )
}

/// Whether a slot is empty or holds the number of a page that lies inside
/// the 64-bit address space.
pub open spec fn entry_in_range(slot: Option<TlbEntry>) -> bool {
    match slot {
        Some(e) => e.ppn < 0x10_0000_0000_0000,
        None => true,
    }
}

impl Tlb {
    /// The slots of the buffer.
    pub open spec fn view(&self) -> Seq<Option<TlbEntry>> {
        self.tlb_data@
    }

    /// The buffer has its 256 slots, and every cached page number is that of
    /// a page inside the address space.
    pub open spec fn wf(&self) -> bool {
        &&& self.tlb_data@.len() == TLB_ENTRIES
        &&& forall|i: int|
            0 <= i < TLB_ENTRIES ==> entry_in_range(#[trigger] self.tlb_data@[i])
    }

    /// A buffer with no valid entry.
    pub fn new() -> (r: Tlb)
        ensures
            r.wf(),
            r@ == spec_empty_tlb(),
    {
        let mut tlb_data: Vec<Option<TlbEntry>> = Vec::new();
        let mut i: usize = 0;
        while i < TLB_ENTRIES
            invariant
                i <= TLB_ENTRIES,
                tlb_data@.len() == i,
                forall|j: int| 0 <= j < i ==> (#[trigger] tlb_data@[j]) is None,
            decreases TLB_ENTRIES - i,
        {
            tlb_data.push(None);
            i += 1;
        }
        assert(tlb_data@ =~= spec_empty_tlb());
        Tlb { tlb_data }
    }

    /// Looks the page of `vaddr` up; a hit yields the cached entry.
    pub fn lookup(&self, vaddr: u64) -> (r: Option<TlbEntry>)
        requires
            self.wf(),
        ensures
            r == tlb_lookup(self@, vaddr),
    {
        let vpn = vaddr / PAGESIZE;
        let index = (vpn % TLB_ENTRIES as u64) as usize;
        match self.tlb_data[index] {
            Some(entry) => if entry.vpn == vpn {
                Some(entry)
            } else {
                None
            },
            None => None,
        }
    }

    /// Caches the translation of the page of `vaddr` to the page of `paddr`.
    pub fn refill_tlb(&mut self, vaddr: u64, paddr: u64, asid: u64, perm: u64)
        requires
            old(self).wf(),
        ensures
            final(self).wf(),
            final(self)@ == tlb_refill(old(self)@, vaddr, paddr, asid, perm),
    {
        let vpn = vaddr / PAGESIZE;
        let index = (vpn % TLB_ENTRIES as u64) as usize;
        let new_entry = TlbEntry { vpn, ppn: paddr / PAGESIZE, asid, perm };
        self.tlb_data.set(index, Some(new_entry));
    }

    /// Invalidates the entries that a fence with the given operands hits;
    /// with no operand, every entry.
    pub fn flush(&mut self, vaddr: Option<u64>, asid: Option<u64>)
        requires
            old(self).wf(),
        ensures
            final(self).wf(),
            final(self)@ == tlb_flush(old(self)@, vaddr, asid),
    {
        let mut i: usize = 0;
        while i < TLB_ENTRIES
            invariant
                i <= TLB_ENTRIES,
                self.tlb_data@.len() == TLB_ENTRIES,
                old(self).wf(),
                forall|j: int|
                    0 <= j < TLB_ENTRIES ==> entry_in_range(#[trigger] self.tlb_data@[j]),
                forall|j: int| 0 <= j < i ==> self.tlb_data@[j] == tlb_flush(old(self)@, vaddr, asid)[j],
                forall|j: int| i <= j < TLB_ENTRIES ==> self.tlb_data@[j] == old(self)@[j],
            decreases TLB_ENTRIES - i,
        {
            let hit = match self.tlb_data[i] {
                Some(e) => {
                    let page_hit = match vaddr {
                        Some(v) => e.vpn == v / PAGESIZE,
                        None => true,
                    };
                    let asid_hit = match asid {
                        Some(a) => e.asid == a,
                        None => true,
                    };
                    page_hit && asid_hit
                },
                None => false,
            };
            if hit {
                self.tlb_data.set(i, None);
            }
            i += 1;
        }
        assert(self@ =~= tlb_flush(old(self)@, vaddr, asid));
    }
}

/// After a fence without operands no lookup hits, whatever was cached.
pub proof fn lemma_flush_all_misses(tlb: Seq<Option<TlbEntry>>, vaddr: u64)
    requires
        tlb.len() == TLB_ENTRIES,
    ensures
        tlb_lookup(tlb_flush(tlb, None, None), vaddr) is None,
{
}

/// After a fence on a page, or on an address space, a lookup does not hit an
/// entry of that page or address space.
pub proof fn lemma_flush_misses(
    tlb: Seq<Option<TlbEntry>>,
    fence_vaddr: Option<u64>,
    fence_asid: Option<u64>,
    vaddr: u64,
)
    requires
        tlb.len() == TLB_ENTRIES,
    ensures
        tlb_lookup(tlb_flush(tlb, fence_vaddr, fence_asid), vaddr) is Some ==> {
            let e = tlb_lookup(tlb_flush(tlb, fence_vaddr, fence_asid), vaddr)->Some_0;
            &&& tlb_lookup(tlb, vaddr) == Some(e)
            &&& !fence_hits(e, fence_vaddr, fence_asid)
        },
{
}

/// A lookup right after a refill of the same page hits the new entry.
pub proof fn lemma_lookup_after_refill(
    tlb: Seq<Option<TlbEntry>>,
    vaddr: u64,
    paddr: u64,
    asid: u64,
    perm: u64,
    other: u64,
)
    requires
        tlb.len() == TLB_ENTRIES,
        other / 4096 == vaddr / 4096,
    ensures
        tlb_lookup(tlb_refill(tlb, vaddr, paddr, asid, perm), other) == Some(
            TlbEntry { vpn: vaddr / 4096, ppn: paddr / 4096, asid, perm },
        ),
{
}

} // verus!
