//! Mask ROM: the reset vector, followed by the device tree blob. Read-only.

use vstd::prelude::*;
use super::le;
use super::{plain_load, Device};
use crate::cpu::trap::{Fault, TransAlign, TrapCause};
use crate::Isa;

verus! {

/// First address of the mask ROM.
pub const MROM_BASE: u64 = 0x1000;

/// Largest size of the mask ROM's content in bytes.
pub const MROM_MAX_SIZE: usize = 0xF000;

/// Size of the reset vector in bytes; the device tree blob starts here.
pub const RESET_VECTOR_SIZE: usize = 32;

/// The mask ROM.
pub struct Mrom {
    pub mrom: Vec<u8>,
    pub base_addr: u64,
    pub size: usize,
}

/// The four bytes of `w`, least significant first.
pub open spec fn word_bytes(w: u32) -> Seq<u8> {
    seq![
        le::byte_of(w as u64, 0),
        le::byte_of(w as u64, 1),
        le::byte_of(w as u64, 2),
        le::byte_of(w as u64, 3),
    ]
}

/// The load of the start address in the reset code: `lw t0, 24(t0)` on RV32,
/// `ld t0, 24(t0)` on RV64.
pub open spec fn load_entry_inst(isa: Isa) -> u32 {
    match isa {
        Isa::Rv32 => 0x0182_a283,
        Isa::Rv64 => 0x0182_b283,
    }
}

/// The reset vector: `auipc t0, 0`; `addi a1, t0, 32` (the blob's address);
/// `csrr a0, mhartid`; the load of the start address; `jr t0`; a zero word;
/// and the start address itself, low word first.
pub open spec fn reset_vector(entry_point: u64, isa: Isa) -> Seq<u8> {
    word_bytes(0x0000_0297) + word_bytes(0x0202_8593) + word_bytes(0xf140_2573) + word_bytes(
        load_entry_inst(isa),
    ) + word_bytes(0x0002_8067) + word_bytes(0) + word_bytes(
        (entry_point % 0x1_0000_0000) as u32,
    ) + word_bytes((entry_point / 0x1_0000_0000) as u32)
}

fn push_word(v: &mut Vec<u8>, w: u32)
    ensures
        final(v)@ == old(v)@ + word_bytes(w),
{
    let n = v.len();
    v.push(0);
    v.push(0);
    v.push(0);
    v.push(0);
    le::write(v, n, TransAlign::Size32, w as u64);
    assert(v@ =~= old(v)@ + word_bytes(w));
}

impl Mrom {
    /// The content has the recorded size, fits the region and lies at its fixed
    /// address.
    pub open spec fn inv(&self) -> bool {
        &&& self.mrom@.len() == self.size
        &&& self.size <= MROM_MAX_SIZE
        &&& self.base_addr == MROM_BASE
    }

    /// The ROM's content.
    pub open spec fn view(&self) -> Seq<u8> {
        self.mrom@
    }

    /// A ROM that holds the reset vector for a program that starts at
    /// `entry_point`.
    pub fn new(entry_point: u64, isa: Isa) -> (r: Mrom)
        ensures
            r.inv(),
            r@ == reset_vector(entry_point, isa),
            r@.len() == RESET_VECTOR_SIZE,
    {
        let mut mrom: Vec<u8> = Vec::new();
        push_word(&mut mrom, 0x0000_0297);
        push_word(&mut mrom, 0x0202_8593);
        push_word(&mut mrom, 0xf140_2573);
        push_word(
            &mut mrom,
            match isa {
                Isa::Rv32 => 0x0182_a283,
                Isa::Rv64 => 0x0182_b283,
            },
        );
        push_word(&mut mrom, 0x0002_8067);
        push_word(&mut mrom, 0);
        push_word(&mut mrom, (entry_point % 0x1_0000_0000) as u32);
        push_word(&mut mrom, (entry_point / 0x1_0000_0000) as u32);
        let size = mrom.len();
        Mrom { mrom, base_addr: MROM_BASE, size }
    }

    /// Records the content's length as the region's size.
    pub fn set_size(&mut self)
        requires
            old(self).mrom@.len() <= MROM_MAX_SIZE,
            old(self).base_addr == MROM_BASE,
        ensures
            final(self).inv(),
            final(self)@ == old(self)@,
    {
        self.size = self.mrom.len();
    }
}

impl Device for Mrom {
    open spec fn wf(&self) -> bool {
        self.inv()
    }

    open spec fn base(&self) -> u64 {
        self.base_addr
    }

    open spec fn bytes(&self) -> Seq<u8> {
        self.mrom@
    }

    open spec fn load_spec(&self, addr: u64, size: TransAlign, signed: bool) -> Result<u64, Fault> {
        plain_load(self.mrom@, self.base_addr, addr, size, signed)
    }

    open spec fn after_load8(&self, addr: u64) -> Seq<u8> {
        self.mrom@
    }

    open spec fn store_spec(&self, addr: u64, data: u64, size: TransAlign) -> Result<Seq<u8>, Fault> {
        Err(Fault { addr: Some(addr), cause: TrapCause::StoreAMOAccessFault })
    }

    // is addr in device address space
    fn in_range(&self, addr: u64) -> (r: bool) {
        self.base_addr <= addr && addr - self.base_addr < self.size as u64
    }

    // address to raw index
    fn addr2index(&self, addr: u64) -> (r: usize) {
        (addr - self.base_addr) as usize
    }

    fn store8(&mut self, addr: u64, _data: u64) -> (r: Result<(), Fault>) {
        Err(Fault { addr: Some(addr), cause: TrapCause::StoreAMOAccessFault })
    }

    fn store16(&mut self, addr: u64, _data: u64) -> (r: Result<(), Fault>) {
        Err(Fault { addr: Some(addr), cause: TrapCause::StoreAMOAccessFault })
    }

    fn store32(&mut self, addr: u64, _data: u64) -> (r: Result<(), Fault>) {
        Err(Fault { addr: Some(addr), cause: TrapCause::StoreAMOAccessFault })
    }

    fn store64(&mut self, addr: u64, _data: u64) -> (r: Result<(), Fault>) {
        Err(Fault { addr: Some(addr), cause: TrapCause::StoreAMOAccessFault })
    }

    fn load8(&mut self, addr: u64) -> (r: Result<u64, Fault>) {
        let index = self.addr2index(addr);
        Ok(le::read(&self.mrom, index, TransAlign::Size8, true))
    }

    fn load16(&self, addr: u64) -> (r: Result<u64, Fault>) {
        let index = self.addr2index(addr);
        Ok(le::read(&self.mrom, index, TransAlign::Size16, true))
    }

    fn load32(&self, addr: u64) -> (r: Result<u64, Fault>) {
        let index = self.addr2index(addr);
        Ok(le::read(&self.mrom, index, TransAlign::Size32, true))
    }

    fn load64(&self, addr: u64) -> (r: Result<u64, Fault>) {
        let index = self.addr2index(addr);
        Ok(le::read(&self.mrom, index, TransAlign::Size64, true))
    }

    fn load_u8(&self, addr: u64) -> (r: Result<u64, Fault>) {
        let index = self.addr2index(addr);
        Ok(le::read(&self.mrom, index, TransAlign::Size8, false))
    }

    fn load_u16(&self, addr: u64) -> (r: Result<u64, Fault>) {
        let index = self.addr2index(addr);
        Ok(le::read(&self.mrom, index, TransAlign::Size16, false))
    }

    fn load_u32(&self, addr: u64) -> (r: Result<u64, Fault>) {
        let index = self.addr2index(addr);
        Ok(le::read(&self.mrom, index, TransAlign::Size32, false))
    }
}

} // verus!
