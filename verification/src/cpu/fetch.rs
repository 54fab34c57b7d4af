//! Memory accesses of the hart: translation with the trigger check, and the
//! fetch of the next instruction.

use vstd::prelude::*;
use crate::bits::wrap64;
use crate::bus::BusView;
use crate::cpu::breakpoint::{spec_check_breakpoint, spec_trigger_supported};
use crate::cpu::decode::{spec_decode, Decode};
use crate::cpu::instruction::Instruction;
use crate::cpu::mmu::spec_trans_addr;
use crate::cpu::reg::{fix2regsz, spec_fix2regsz};
use crate::cpu::trap::{Fault, TransAlign, TransFor, TrapCause};
use crate::cpu::{CpuView, CPU};
use crate::Isa;

verus! {

/// Outcome of the address phase of an access: the hart afterwards and the
/// physical address, or the fault.
pub struct Access {
    pub state: CpuView,
    pub result: Result<u64, Fault>,
}

/// The address phase of an access for `purpose` of width `align` at the
/// virtual address `addr`: the MMU translates, which may update the page
/// table and the buffer, and the trigger module then checks the physical
/// address.
pub open spec fn spec_access(s: CpuView, purpose: TransFor, align: TransAlign, addr: u64)
    -> Access {
    let o = spec_trans_addr(s.tlb, s.bus, s.csrs, s.priv_lv, purpose, align, addr);
    let state = CpuView { tlb: o.tlb, bus: o.bus, ..s };
    Access {
        state,
        result: match o.result {
            Ok(paddr) => spec_check_breakpoint(s.csrs, s.priv_lv, purpose, paddr),
            Err(e) => Err(e),
        },
    }
}

/// A raw encoding as fetched: a compressed half-word or a full word.
#[derive(Clone, Copy, PartialEq, Eq, Structural, Debug)]
pub enum RawInst {
    Compressed(u16),
    Full(u32),
}

impl RawInst {
    /// The record the encoding decodes to.
    pub open spec fn decode_spec(self, isa: Isa) -> Result<Instruction, Fault> {
        match self {
            RawInst::Compressed(half) => spec_decode(half, isa),
            RawInst::Full(word) => spec_decode(word, isa),
        }
    }

    /// Decodes the encoding.
    pub fn decode(&self, isa: Isa) -> (r: Result<Instruction, Fault>)
        ensures
            r == self.decode_spec(isa),
            r is Ok ==> r->Ok_0.wf(),
            r is Ok ==> r->Ok_0.offset_aligned(),
    {
        match self {
            RawInst::Compressed(half) => half.decode(isa),
            RawInst::Full(word) => word.decode(isa),
        }
    }
}

/// Outcome of a fetch: the hart afterwards and the encoding, or the fault.
pub struct Fetch {
    pub state: CpuView,
    pub result: Result<RawInst, Fault>,
}

/// The fault of a fetch whose half-word cannot be loaded.
pub open spec fn fetch_fault(vaddr: u64) -> Fault {
    Fault { addr: Some(vaddr), cause: TrapCause::InstructionAccessFault }
}

/// The fetch of the instruction at the PC. The half-word at the PC is
/// translated and loaded; unless its low two bits are 11 it is a compressed
/// encoding. Otherwise the half-word behind it, translated on its own, is
/// the upper half of a full word: the two halves may lie on different pages,
/// and either may fault.
pub open spec fn spec_fetch(s: CpuView) -> Fetch {
    let first = spec_access(s, TransFor::Fetch, TransAlign::Size16, s.pc);
    match first.result {
        Err(e) => Fetch { state: first.state, result: Err(e) },
        Ok(paddr) => match first.state.bus.load(paddr, TransAlign::Size16, false) {
            Err(_) => Fetch { state: first.state, result: Err(fetch_fault(s.pc)) },
            Ok(low) => if low % 4 != 3 {
                Fetch { state: first.state, result: Ok(RawInst::Compressed(low as u16)) }
            } else {
                let next = spec_fix2regsz(wrap64(s.pc + 2), s.isa);
                let second = spec_access(first.state, TransFor::Fetch, TransAlign::Size16, next);
                match second.result {
                    Err(e) => Fetch { state: second.state, result: Err(e) },
                    Ok(paddr2) => match second.state.bus.load(paddr2, TransAlign::Size16, false) {
                        Err(_) => Fetch { state: second.state, result: Err(fetch_fault(next)) },
                        Ok(high) => Fetch {
                            state: second.state,
                            result: Ok(RawInst::Full((low + high * 0x1_0000) as u32)),
                        },
                    },
                }
            },
        },
    }
}

/// The address space after a load of `size` bytes at `paddr`: only the
/// signed byte load can change a device.
pub open spec fn spec_after_load(bus: BusView, paddr: u64, size: TransAlign, signed: bool)
    -> BusView {
    if size == TransAlign::Size8 && signed {
        bus.after_load8(paddr)
    } else {
        bus
    }
}

impl CPU {
    /// Loads `size` bytes from the physical address `paddr`.
    pub fn load(&mut self, size: TransAlign, signed: bool, paddr: u64) -> (r: Result<u64, Fault>)
        requires
            old(self).wf(),
            signed || size != TransAlign::Size64,
        ensures
            final(self).wf(),
            r == old(self)@.bus.load(paddr, size, signed),
            final(self)@ == (CpuView {
                bus: spec_after_load(old(self)@.bus, paddr, size, signed),
                ..old(self)@
            }),
            final(self).regs == old(self).regs,
            final(self).csrs == old(self).csrs,
    {
        match size {
            TransAlign::Size8 => if signed {
                self.bus.load8(paddr)
            } else {
                self.bus.load_u8(paddr)
            },
            TransAlign::Size16 => if signed {
                self.bus.load16(paddr)
            } else {
                self.bus.load_u16(paddr)
            },
            TransAlign::Size32 => if signed {
                self.bus.load32(paddr)
            } else {
                self.bus.load_u32(paddr)
            },
            TransAlign::Size64 => self.bus.load64(paddr),
        }
    }

    /// Stores the low `size` bytes of `data` at the physical address `paddr`.
    pub fn store(&mut self, size: TransAlign, paddr: u64, data: u64) -> (r: Result<(), Fault>)
        requires
            old(self).wf(),
        ensures
            final(self).wf(),
            match old(self)@.bus.store(paddr, data, size) {
                Ok(after) => r == Ok::<(), Fault>(()) && final(self)@ == (CpuView {
                    bus: after,
                    ..old(self)@
                }),
                Err(e) => r == Err::<(), Fault>(e) && final(self)@ == old(self)@,
            },
            final(self).regs == old(self).regs,
            final(self).csrs == old(self).csrs,
    {
        match size {
            TransAlign::Size8 => self.bus.store8(paddr, data),
            TransAlign::Size16 => self.bus.store16(paddr, data),
            TransAlign::Size32 => self.bus.store32(paddr, data),
            TransAlign::Size64 => self.bus.store64(paddr, data),
        }
    }

    /// Translates the address of an access and lets the trigger module
    /// check it.
    pub fn trans_addr(&mut self, purpose: TransFor, align: TransAlign, addr: u64) -> (r: Result<
        u64,
        Fault,
    >)
        requires
            old(self).wf(),
            spec_trigger_supported(old(self).csrs@, old(self).priv_lv),
        ensures
            final(self).wf(),
            final(self)@ == spec_access(old(self)@, purpose, align, addr).state,
            r == spec_access(old(self)@, purpose, align, addr).result,
            spec_trigger_supported(final(self).csrs@, final(self).priv_lv),
            final(self).regs == old(self).regs,
            final(self).csrs == old(self).csrs,
    {
        let paddr = self.mmu.trans_addr(
            purpose,
            align,
            addr,
            &self.csrs,
            self.priv_lv,
            &mut self.bus,
        )?;
        self.check_breakpoint(&purpose, paddr)
    }

    /// Fetches the encoding of the instruction at the PC.
    pub fn fetch(&mut self) -> (r: Result<RawInst, Fault>)
        requires
            old(self).wf(),
            spec_trigger_supported(old(self).csrs@, old(self).priv_lv),
        ensures
            final(self).wf(),
            final(self)@ == spec_fetch(old(self)@).state,
            r == spec_fetch(old(self)@).result,
            final(self).regs == old(self).regs,
            final(self).csrs == old(self).csrs,
            final(self).pc == old(self).pc,
            final(self).priv_lv == old(self).priv_lv,
    {
        let pc = self.pc;
        let paddr = self.trans_addr(TransFor::Fetch, TransAlign::Size16, pc)?;
        proof {
            crate::bus::lemma_bus_shape(self.bus@, paddr, 0, TransAlign::Size16);
        }
        let low = match self.bus.load_u16(paddr) {
            Ok(low) => low,
            Err(_) => {
                return Err(Fault { addr: Some(pc), cause: TrapCause::InstructionAccessFault });
            },
        };
        if low % 4 != 3 {
            return Ok(RawInst::Compressed(low as u16));
        }
        let next = fix2regsz(pc.wrapping_add(2), self.isa);
        let paddr2 = self.trans_addr(TransFor::Fetch, TransAlign::Size16, next)?;
        proof {
            crate::bus::lemma_bus_shape(self.bus@, paddr2, 0, TransAlign::Size16);
        }
        let high = match self.bus.load_u16(paddr2) {
            Ok(high) => high,
            Err(_) => {
                return Err(Fault { addr: Some(next), cause: TrapCause::InstructionAccessFault });
            },
        };
        Ok(RawInst::Full((low + high * 0x1_0000) as u32))
    }
}

} // verus!
