//! Core-local interruptor: `msip` at offset 0, `mtimecmp` at 0x4000 and
//! `mtime` at 0xBFF8, kept as plain little-endian bytes.

use vstd::prelude::*;
use super::le;
use super::{plain_load, plain_store, Device};
use crate::cpu::trap::{Fault, TransAlign};

verus! {

/// First address of the CLINT.
pub const CLINT_BASE: u64 = 0x0200_0000;

/// Size of the CLINT's region in bytes.
pub const CLINT_SIZE: usize = 0xC000;

/// The core-local interruptor.
pub struct Clint {
    pub clint: Vec<u8>,
    pub base_addr: u64,
    pub size: usize,
}

impl Clint {
    /// The byte array has the size of the region, which lies at its fixed address.
    pub open spec fn inv(&self) -> bool {
        &&& self.clint@.len() == self.size
        &&& self.size == CLINT_SIZE
        &&& self.base_addr == CLINT_BASE
    }

    /// The region's content.
    pub open spec fn view(&self) -> Seq<u8> {
        self.clint@
    }

    /// A CLINT with every register zero.
    pub fn new() -> (r: Clint)
        ensures
            r.inv(),
            r@ == Seq::new(CLINT_SIZE as nat, |j: int| 0u8),
    {
        let clint: Vec<u8> = vec![0u8; CLINT_SIZE];
        assert(clint@ =~= Seq::new(CLINT_SIZE as nat, |j: int| 0u8));
        Clint { clint, base_addr: CLINT_BASE, size: CLINT_SIZE }
    }
}

impl Device for Clint {
    open spec fn wf(&self) -> bool {
        self.inv()
    }

    open spec fn base(&self) -> u64 {
        self.base_addr
    }

    open spec fn bytes(&self) -> Seq<u8> {
        self.clint@
    }

    open spec fn load_spec(&self, addr: u64, size: TransAlign, signed: bool) -> Result<u64, Fault> {
        plain_load(self.clint@, self.base_addr, addr, size, signed)
    }

    open spec fn after_load8(&self, addr: u64) -> Seq<u8> {
        self.clint@
    }

    open spec fn store_spec(&self, addr: u64, data: u64, size: TransAlign) -> Result<Seq<u8>, Fault> {
        plain_store(self.clint@, self.base_addr, addr, data, size)
    }

    // is addr in device address space
    fn in_range(&self, addr: u64) -> (r: bool) {
        self.base_addr <= addr && addr - self.base_addr < self.size as u64
    }

    // address to raw index
    fn addr2index(&self, addr: u64) -> (r: usize) {
        (addr - self.base_addr) as usize
    }

    fn store8(&mut self, addr: u64, data: u64) -> (r: Result<(), Fault>) {
        let index = self.addr2index(addr);
        le::write(&mut self.clint, index, TransAlign::Size8, data);
        Ok(())
    }

    fn store16(&mut self, addr: u64, data: u64) -> (r: Result<(), Fault>) {
        let index = self.addr2index(addr);
        le::write(&mut self.clint, index, TransAlign::Size16, data);
        Ok(())
    }

    fn store32(&mut self, addr: u64, data: u64) -> (r: Result<(), Fault>) {
        let index = self.addr2index(addr);
        le::write(&mut self.clint, index, TransAlign::Size32, data);
        Ok(())
    }

    fn store64(&mut self, addr: u64, data: u64) -> (r: Result<(), Fault>) {
        let index = self.addr2index(addr);
        le::write(&mut self.clint, index, TransAlign::Size64, data);
        Ok(())
    }

    fn load8(&mut self, addr: u64) -> (r: Result<u64, Fault>) {
        let index = self.addr2index(addr);
        Ok(le::read(&self.clint, index, TransAlign::Size8, true))
    }

    fn load16(&self, addr: u64) -> (r: Result<u64, Fault>) {
        let index = self.addr2index(addr);
        Ok(le::read(&self.clint, index, TransAlign::Size16, true))
    }

    fn load32(&self, addr: u64) -> (r: Result<u64, Fault>) {
        let index = self.addr2index(addr);
        Ok(le::read(&self.clint, index, TransAlign::Size32, true))
    }

    fn load64(&self, addr: u64) -> (r: Result<u64, Fault>) {
        let index = self.addr2index(addr);
        Ok(le::read(&self.clint, index, TransAlign::Size64, true))
    }

    fn load_u8(&self, addr: u64) -> (r: Result<u64, Fault>) {
        let index = self.addr2index(addr);
        Ok(le::read(&self.clint, index, TransAlign::Size8, false))
    }

    fn load_u16(&self, addr: u64) -> (r: Result<u64, Fault>) {
        let index = self.addr2index(addr);
        Ok(le::read(&self.clint, index, TransAlign::Size16, false))
    }

    fn load_u32(&self, addr: u64) -> (r: Result<u64, Fault>) {
        let index = self.addr2index(addr);
        Ok(le::read(&self.clint, index, TransAlign::Size32, false))
    }
}

} // verus!
