//! Platform-level interrupt controller: a register file that accepts 32- and
//! 64-bit accesses only.

use vstd::prelude::*;
use super::le;
use super::Device;
use crate::cpu::trap::{Fault, TransAlign, TrapCause};

verus! {

/// First address of the PLIC.
pub const PLIC_BASE: u64 = 0x0c00_0000;

/// Size of the PLIC's region in bytes.
pub const PLIC_SIZE: usize = 0x0100_0000;

/// Number of interrupt sources that have a priority register.
pub const PLIC_MAX_DEVICES: usize = 1024;

/// Bits of a priority register that are implemented.
pub const PLIC_PRIO_MASK: u64 = 0b1111;

/// The platform-level interrupt controller.
pub struct Plic {
    pub plic: Vec<u8>,
    pub base_addr: u64,
    pub size: usize,
}

/// What a load from the PLIC returns: the word or the double word at the
/// address; a narrower access is refused with a load page fault.
pub open spec fn plic_load(bytes: Seq<u8>, base: u64, addr: u64, size: TransAlign, signed: bool)
    -> Result<u64, Fault> {
    match size {
        TransAlign::Size32 | TransAlign::Size64 => Ok(
            le::le_load(bytes, addr - base, size, signed),
        ),
        _ => Err(Fault { addr: Some(addr), cause: TrapCause::LoadPageFault }),
    }
}

/// What a store to the PLIC leaves behind: word and double-word stores write
/// the registers, narrower ones are refused with a store page fault.
pub open spec fn plic_store(bytes: Seq<u8>, base: u64, addr: u64, data: u64, size: TransAlign)
    -> Result<Seq<u8>, Fault> {
    match size {
        TransAlign::Size32 | TransAlign::Size64 => Ok(le::le_store(bytes, addr - base, size, data)),
        _ => Err(Fault { addr: Some(addr), cause: TrapCause::StoreAMOPageFault }),
    }
}

/// Whether the register at `offset` is the priority register of a source;
/// source 0 does not exist.
pub open spec fn is_priority_offset(offset: u64) -> bool {
    0 < offset / 4 < PLIC_MAX_DEVICES
}

impl Plic {
    /// The byte array has the size of the region, which lies at its fixed address.
    pub open spec fn inv(&self) -> bool {
        &&& self.plic@.len() == self.size
        &&& self.size == PLIC_SIZE
        &&& self.base_addr == PLIC_BASE
    }

    /// The registers' content.
    pub open spec fn view(&self) -> Seq<u8> {
        self.plic@
    }

    /// A PLIC with every register zero.
    pub fn new() -> (r: Plic)
        ensures
            r.inv(),
            r@ == Seq::new(PLIC_SIZE as nat, |j: int| 0u8),
    {
        let plic: Vec<u8> = vec![0u8; PLIC_SIZE];
        assert(plic@ =~= Seq::new(PLIC_SIZE as nat, |j: int| 0u8));
        Plic { plic, base_addr: PLIC_BASE, size: PLIC_SIZE }
    }

    /// The priority of the source whose register lies at `offset`; 0 where
    /// there is no such source.
    pub fn priority_read(&self, offset: u64) -> (r: u32)
        requires
            self.inv(),
        ensures
            r == (if is_priority_offset(offset) {
                le::le32(self@, (offset / 4) * 4)
            } else {
                0
            }),
    {
        let index: u64 = offset / 4;
        if index > 0 && index < PLIC_MAX_DEVICES as u64 {
            le::read(&self.plic, (index * 4) as usize, TransAlign::Size32, false) as u32
        } else {
            0
        }
    }

    /// Sets the priority of the source whose register lies at `offset` to
    /// the implemented bits of `val`; does nothing where there is no such
    /// source.
    pub fn priority_write(&mut self, offset: u64, val: u32)
        requires
            old(self).inv(),
        ensures
            final(self).inv(),
            final(self)@ == (if is_priority_offset(offset) {
                le::le_store(old(self)@, (offset / 4) * 4, TransAlign::Size32, (val % 16) as u64)
            } else {
                old(self)@
            }),
    {
        let index: u64 = offset / 4;
        if index > 0 && index < PLIC_MAX_DEVICES as u64 {
            let prio: u64 = (val % 16) as u64;
            le::write(&mut self.plic, (index * 4) as usize, TransAlign::Size32, prio);
        }
    }
}

impl Device for Plic {
    open spec fn wf(&self) -> bool {
        self.inv()
    }

    open spec fn base(&self) -> u64 {
        self.base_addr
    }

    open spec fn bytes(&self) -> Seq<u8> {
        self.plic@
    }

    open spec fn load_spec(&self, addr: u64, size: TransAlign, signed: bool) -> Result<u64, Fault> {
        plic_load(self.plic@, self.base_addr, addr, size, signed)
    }

    open spec fn after_load8(&self, addr: u64) -> Seq<u8> {
        self.plic@
    }

    open spec fn store_spec(&self, addr: u64, data: u64, size: TransAlign) -> Result<Seq<u8>, Fault> {
        plic_store(self.plic@, self.base_addr, addr, data, size)
    }

    // is addr in device address space
    fn in_range(&self, addr: u64) -> (r: bool) {
        self.base_addr <= addr && addr - self.base_addr < self.size as u64
    }

    // address to raw index
    fn addr2index(&self, addr: u64) -> (r: usize) {
        (addr - self.base_addr) as usize
    }

    fn store8(&mut self, addr: u64, _data: u64) -> (r: Result<(), Fault>) {
        Err(Fault { addr: Some(addr), cause: TrapCause::StoreAMOPageFault })
    }

    fn store16(&mut self, addr: u64, _data: u64) -> (r: Result<(), Fault>) {
        Err(Fault { addr: Some(addr), cause: TrapCause::StoreAMOPageFault })
    }

    fn store32(&mut self, addr: u64, data: u64) -> (r: Result<(), Fault>) {
        let index = self.addr2index(addr);
        le::write(&mut self.plic, index, TransAlign::Size32, data);
        Ok(())
    }

    fn store64(&mut self, addr: u64, data: u64) -> (r: Result<(), Fault>) {
        let index = self.addr2index(addr);
        le::write(&mut self.plic, index, TransAlign::Size64, data);
        Ok(())
    }

    fn load8(&mut self, addr: u64) -> (r: Result<u64, Fault>) {
        Err(Fault { addr: Some(addr), cause: TrapCause::LoadPageFault })
    }

    fn load16(&self, addr: u64) -> (r: Result<u64, Fault>) {
        Err(Fault { addr: Some(addr), cause: TrapCause::LoadPageFault })
    }

    fn load32(&self, addr: u64) -> (r: Result<u64, Fault>) {
        let index = self.addr2index(addr);
        Ok(le::read(&self.plic, index, TransAlign::Size32, true))
    }

    fn load64(&self, addr: u64) -> (r: Result<u64, Fault>) {
        let index = self.addr2index(addr);
        Ok(le::read(&self.plic, index, TransAlign::Size64, true))
    }

    fn load_u8(&self, addr: u64) -> (r: Result<u64, Fault>) {
        Err(Fault { addr: Some(addr), cause: TrapCause::LoadPageFault })
    }

    fn load_u16(&self, addr: u64) -> (r: Result<u64, Fault>) {
        Err(Fault { addr: Some(addr), cause: TrapCause::LoadPageFault })
    }

    fn load_u32(&self, addr: u64) -> (r: Result<u64, Fault>) {
        let index = self.addr2index(addr);
        Ok(le::read(&self.plic, index, TransAlign::Size32, false))
    }
}

} // verus!
