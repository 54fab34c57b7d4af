//! The physical address space: mask ROM, CLINT, PLIC, UART and DRAM behind
//! one set of width-sized loads and stores.

pub mod clint;
pub mod device_tree;
pub mod dram;
pub mod le;
pub mod mrom;
pub mod plic;
pub mod uart;

use vstd::prelude::*;
use crate::cpu::trap::{Fault, TransAlign, TrapCause};
use crate::elfload::ElfLoader;
use crate::Isa;
use clint::{Clint, CLINT_BASE, CLINT_SIZE};
use dram::{Dram, DRAM_SIZE};
use mrom::{Mrom, MROM_BASE, MROM_MAX_SIZE};
use plic::{Plic, PLIC_BASE, PLIC_SIZE};
use uart::{Uart, UART_BASE, UART_SIZE};

verus! {

/// Whether an access of `size` bytes at `addr` lies wholly inside a region
/// of `len` bytes that starts at `base`.
pub open spec fn covers(base: u64, len: nat, addr: u64, size: TransAlign) -> bool {
    base <= addr && addr + size.spec_bytes() <= base + len
}

/// Whether `addr` is the address of a byte of the region.
pub open spec fn contains(base: u64, len: nat, addr: u64) -> bool {
    base <= addr < base + len
}

/// Relates what a store did to what the device's rule says it does: on
/// success the bytes are the rule's, on a fault they are untouched.
pub open spec fn store_outcome(
    rule: Result<Seq<u8>, Fault>,
    before: Seq<u8>,
    after: Seq<u8>,
    r: Result<(), Fault>,
) -> bool {
    match rule {
        Ok(b) => r == Ok::<(), Fault>(()) && after == b,
        Err(e) => r == Err::<(), Fault>(e) && after == before,
    }
}

/// What a load from plain memory returns.
pub open spec fn plain_load(bytes: Seq<u8>, base: u64, addr: u64, size: TransAlign, signed: bool)
    -> Result<u64, Fault> {
    Ok(le::le_load(bytes, addr - base, size, signed))
}

/// What a store to plain memory leaves behind.
pub open spec fn plain_store(bytes: Seq<u8>, base: u64, addr: u64, data: u64, size: TransAlign)
    -> Result<Seq<u8>, Fault> {
    Ok(le::le_store(bytes, addr - base, size, data))
}

/// A memory-mapped region of the physical address space.
///
/// Every access method expects the caller to have checked that the access
/// lies inside the region; the bus does so before it dispatches.
pub trait Device {
    /// The region's invariant.
    spec fn wf(&self) -> bool;

    /// First address of the region.
    spec fn base(&self) -> u64;

    /// The bytes behind the region, byte 0 at `base()`.
    spec fn bytes(&self) -> Seq<u8>;

    /// What a load of `size` bytes at `addr` returns.
    spec fn load_spec(&self, addr: u64, size: TransAlign, signed: bool) -> Result<u64, Fault>;

    /// The bytes behind the region after a signed byte load at `addr`.
    spec fn after_load8(&self, addr: u64) -> Seq<u8>;

    /// What a store of `size` bytes at `addr` leaves behind, or its fault.
    spec fn store_spec(&self, addr: u64, data: u64, size: TransAlign) -> Result<Seq<u8>, Fault>;

    /// Whether `addr` is an address of the region.
    fn in_range(&self, addr: u64) -> (r: bool)
        requires
            self.wf(),
        ensures
            r == contains(self.base(), self.bytes().len(), addr),
    ;

    /// The index of the byte at `addr` in the region.
    fn addr2index(&self, addr: u64) -> (r: usize)
        requires
            self.wf(),
            contains(self.base(), self.bytes().len(), addr),
        ensures
            r == addr - self.base(),
    ;

    /// Stores the low byte of `data` at `addr`.
    fn store8(&mut self, addr: u64, data: u64) -> (r: Result<(), Fault>)
        requires
            old(self).wf(),
            covers(old(self).base(), old(self).bytes().len(), addr, TransAlign::Size8),
        ensures
            final(self).wf(),
            final(self).base() == old(self).base(),
            final(self).bytes().len() == old(self).bytes().len(),
            store_outcome(
                old(self).store_spec(addr, data, TransAlign::Size8),
                old(self).bytes(),
                final(self).bytes(),
                r,
            ),
    ;

    /// Stores the low half-word of `data` at `addr`.
    fn store16(&mut self, addr: u64, data: u64) -> (r: Result<(), Fault>)
        requires
            old(self).wf(),
            covers(old(self).base(), old(self).bytes().len(), addr, TransAlign::Size16),
        ensures
            final(self).wf(),
            final(self).base() == old(self).base(),
            final(self).bytes().len() == old(self).bytes().len(),
            store_outcome(
                old(self).store_spec(addr, data, TransAlign::Size16),
                old(self).bytes(),
                final(self).bytes(),
                r,
            ),
    ;

    /// Stores the low word of `data` at `addr`.
    fn store32(&mut self, addr: u64, data: u64) -> (r: Result<(), Fault>)
        requires
            old(self).wf(),
            covers(old(self).base(), old(self).bytes().len(), addr, TransAlign::Size32),
        ensures
            final(self).wf(),
            final(self).base() == old(self).base(),
            final(self).bytes().len() == old(self).bytes().len(),
            store_outcome(
                old(self).store_spec(addr, data, TransAlign::Size32),
                old(self).bytes(),
                final(self).bytes(),
                r,
            ),
    ;

    /// Stores `data` at `addr`.
    fn store64(&mut self, addr: u64, data: u64) -> (r: Result<(), Fault>)
        requires
            old(self).wf(),
            covers(old(self).base(), old(self).bytes().len(), addr, TransAlign::Size64),
        ensures
            final(self).wf(),
            final(self).base() == old(self).base(),
            final(self).bytes().len() == old(self).bytes().len(),
            store_outcome(
                old(self).store_spec(addr, data, TransAlign::Size64),
                old(self).bytes(),
                final(self).bytes(),
                r,
            ),
    ;

    /// Loads the byte at `addr`, sign-extended.
    fn load8(&mut self, addr: u64) -> (r: Result<u64, Fault>)
        requires
            old(self).wf(),
            covers(old(self).base(), old(self).bytes().len(), addr, TransAlign::Size8),
        ensures
            final(self).wf(),
            final(self).base() == old(self).base(),
            final(self).bytes() == old(self).after_load8(addr),
            final(self).bytes().len() == old(self).bytes().len(),
            r == old(self).load_spec(addr, TransAlign::Size8, true),
    ;

    /// Loads the half-word at `addr`, sign-extended.
    fn load16(&self, addr: u64) -> (r: Result<u64, Fault>)
        requires
            self.wf(),
            covers(self.base(), self.bytes().len(), addr, TransAlign::Size16),
        ensures
            r == self.load_spec(addr, TransAlign::Size16, true),
    ;

    /// Loads the word at `addr`, sign-extended.
    fn load32(&self, addr: u64) -> (r: Result<u64, Fault>)
        requires
            self.wf(),
            covers(self.base(), self.bytes().len(), addr, TransAlign::Size32),
        ensures
            r == self.load_spec(addr, TransAlign::Size32, true),
    ;

    /// Loads the double word at `addr`.
    fn load64(&self, addr: u64) -> (r: Result<u64, Fault>)
        requires
            self.wf(),
            covers(self.base(), self.bytes().len(), addr, TransAlign::Size64),
        ensures
            r == self.load_spec(addr, TransAlign::Size64, true),
    ;

    /// Loads the byte at `addr`, zero-extended.
    fn load_u8(&self, addr: u64) -> (r: Result<u64, Fault>)
        requires
            self.wf(),
            covers(self.base(), self.bytes().len(), addr, TransAlign::Size8),
        ensures
            r == self.load_spec(addr, TransAlign::Size8, false),
    ;

    /// Loads the half-word at `addr`, zero-extended.
    fn load_u16(&self, addr: u64) -> (r: Result<u64, Fault>)
        requires
            self.wf(),
            covers(self.base(), self.bytes().len(), addr, TransAlign::Size16),
        ensures
            r == self.load_spec(addr, TransAlign::Size16, false),
    ;

    /// Loads the word at `addr`, zero-extended.
    fn load_u32(&self, addr: u64) -> (r: Result<u64, Fault>)
        requires
            self.wf(),
            covers(self.base(), self.bytes().len(), addr, TransAlign::Size32),
        ensures
            r == self.load_spec(addr, TransAlign::Size32, false),
    ;
}


/// The five regions of the physical address space.
#[derive(Clone, Copy, PartialEq, Eq, Structural, Debug)]
pub enum Region {
    Mrom,
    Clint,
    Plic,
    Uart,
    Dram,
}

/// The content of every region, and where main memory starts.
pub struct BusView {
    pub mrom: Seq<u8>,
    pub clint: Seq<u8>,
    pub plic: Seq<u8>,
    pub uart: Seq<u8>,
    pub dram: Seq<u8>,
    pub dram_base: u64,
}

impl BusView {
    /// The devices have their sizes and main memory ends inside the address
    /// space.
    pub open spec fn wf(self) -> bool {
        &&& self.mrom.len() <= MROM_MAX_SIZE
        &&& self.clint.len() == CLINT_SIZE
        &&& self.plic.len() == PLIC_SIZE
        &&& self.uart.len() == UART_SIZE
        &&& self.dram_base + self.dram.len() <= u64::MAX
    }

    /// First address of region `r`.
    pub open spec fn base_of(self, r: Region) -> u64 {
        match r {
            Region::Mrom => MROM_BASE,
            Region::Clint => CLINT_BASE,
            Region::Plic => PLIC_BASE,
            Region::Uart => UART_BASE,
            Region::Dram => self.dram_base,
        }
    }

    /// The bytes behind region `r`.
    pub open spec fn bytes_of(self, r: Region) -> Seq<u8> {
        match r {
            Region::Mrom => self.mrom,
            Region::Clint => self.clint,
            Region::Plic => self.plic,
            Region::Uart => self.uart,
            Region::Dram => self.dram,
        }
    }

    /// The view with the bytes behind region `r` replaced.
    pub open spec fn with_bytes(self, r: Region, bytes: Seq<u8>) -> BusView {
        match r {
            Region::Mrom => BusView { mrom: bytes, ..self },
            Region::Clint => BusView { clint: bytes, ..self },
            Region::Plic => BusView { plic: bytes, ..self },
            Region::Uart => BusView { uart: bytes, ..self },
            Region::Dram => BusView { dram: bytes, ..self },
        }
    }

    /// The region that an address is routed to: the first, in the order mask
    /// ROM, CLINT, PLIC, UART, main memory, that holds the address.
    pub open spec fn region_of(self, addr: u64) -> Option<Region> {
        if contains(MROM_BASE, self.mrom.len(), addr) {
            Some(Region::Mrom)
        } else if contains(CLINT_BASE, self.clint.len(), addr) {
            Some(Region::Clint)
        } else if contains(PLIC_BASE, self.plic.len(), addr) {
            Some(Region::Plic)
        } else if contains(UART_BASE, self.uart.len(), addr) {
            Some(Region::Uart)
        } else if contains(self.dram_base, self.dram.len(), addr) {
            Some(Region::Dram)
        } else {
            None
        }
    }

    /// The region that serves an access of `size` bytes at `addr`: the one
    /// the address is routed to, provided the whole access lies inside it.
    pub open spec fn target(self, addr: u64, size: TransAlign) -> Option<Region> {
        match self.region_of(addr) {
            Some(r) => if covers(self.base_of(r), self.bytes_of(r).len(), addr, size) {
                Some(r)
            } else {
                None
            },
            None => None,
        }
    }

    /// What a load of `size` bytes at `addr` returns: the target region's
    /// answer, or a load access fault with the address where no region
    /// serves the access.
    #[verifier::opaque]
    pub open spec fn load(self, addr: u64, size: TransAlign, signed: bool) -> Result<u64, Fault> {
        match self.target(addr, size) {
            Some(Region::Mrom) => plain_load(self.mrom, MROM_BASE, addr, size, signed),
            Some(Region::Clint) => plain_load(self.clint, CLINT_BASE, addr, size, signed),
            Some(Region::Plic) => plic::plic_load(self.plic, PLIC_BASE, addr, size, signed),
            Some(Region::Uart) => uart::uart_load(self.uart, UART_BASE, addr, size, signed),
            Some(Region::Dram) => plain_load(self.dram, self.dram_base, addr, size, signed),
            None => Err(Fault { addr: Some(addr), cause: TrapCause::LoadAccessFault }),
        }
    }

    /// The address space after a signed byte load at `addr`: only a read of
    /// the UART's receive register changes anything.
    pub open spec fn after_load8(self, addr: u64) -> BusView {
        match self.target(addr, TransAlign::Size8) {
            Some(Region::Uart) => BusView {
                uart: uart::uart_after_load8(self.uart, UART_BASE, addr),
                ..self
            },
            _ => self,
        }
    }

    /// What a store of `size` bytes at `addr` leaves behind: the target
    /// region's bytes change by its rule; the mask ROM refuses every store,
    /// and where no region serves the access the store fails with a store
    /// access fault that carries the address.
    #[verifier::opaque]
    pub open spec fn store(self, addr: u64, data: u64, size: TransAlign) -> Result<BusView, Fault> {
        match self.target(addr, size) {
            Some(Region::Mrom) => Err(
                Fault { addr: Some(addr), cause: TrapCause::StoreAMOAccessFault },
            ),
            Some(Region::Clint) => match plain_store(self.clint, CLINT_BASE, addr, data, size) {
                Ok(b) => Ok(BusView { clint: b, ..self }),
                Err(e) => Err(e),
            },
            Some(Region::Plic) => match plic::plic_store(self.plic, PLIC_BASE, addr, data, size) {
                Ok(b) => Ok(BusView { plic: b, ..self }),
                Err(e) => Err(e),
            },
            Some(Region::Uart) => match uart::uart_store(self.uart, UART_BASE, addr, data, size) {
                Ok(b) => Ok(BusView { uart: b, ..self }),
                Err(e) => Err(e),
            },
            Some(Region::Dram) => match plain_store(self.dram, self.dram_base, addr, data, size) {
                Ok(b) => Ok(BusView { dram: b, ..self }),
                Err(e) => Err(e),
            },
            None => Err(Fault { addr: Some(addr), cause: TrapCause::StoreAMOAccessFault }),
        }
    }
}

/// The address space at power-on: main memory starts at the image's entry
/// point and holds the image's loadable segments over zeroes; the mask ROM
/// holds the reset vector for that entry point and the device tree blob
/// behind it; the UART is in its reset state and the CLINT and the PLIC are
/// zero.
pub open spec fn spec_boot_bus(loader: ElfLoader, isa: Isa, dtb: Seq<u8>) -> BusView {
    BusView {
        mrom: mrom::reset_vector(loader.entry, isa) + dtb,
        clint: Seq::new(CLINT_SIZE as nat, |j: int| 0u8),
        plic: Seq::new(PLIC_SIZE as nat, |j: int| 0u8),
        uart: uart::uart_reset(),
        dram: dram::place_segments(
            Seq::new(DRAM_SIZE as nat, |j: int| 0u8),
            loader.mem_data@,
            loader.prog_headers@,
            loader.entry,
            loader.prog_headers@.len() as int,
        ),
        dram_base: loader.entry,
    }
}

/// Relates what a store on the bus did to what the rule says: on success the
/// address space is the rule's, on a fault it is untouched.
pub open spec fn bus_store_outcome(
    rule: Result<BusView, Fault>,
    before: BusView,
    after: BusView,
    r: Result<(), Fault>,
) -> bool {
    match rule {
        Ok(v) => r == Ok::<(), Fault>(()) && after == v,
        Err(e) => r == Err::<(), Fault>(e) && after == before,
    }
}

/// Tests whether an access of `size` bytes that starts inside a region also
/// ends inside it.
fn fits<D: Device>(dev: &D, addr: u64, size: TransAlign) -> (r: bool)
    requires
        dev.wf(),
        contains(dev.base(), dev.bytes().len(), addr),
        dev.base() + dev.bytes().len() <= u64::MAX,
    ensures
        r == covers(dev.base(), dev.bytes().len(), addr, size),
{
    match addr.checked_add(size.bytes() - 1) {
        Some(last) => dev.in_range(last),
        None => false,
    }
}

/// The devices of the physical address space.
pub struct Bus {
    pub mrom: Mrom,
    pub clint: Clint,
    pub plic: Plic,
    pub uart: Uart,
    pub dram: Dram,
}

impl Bus {
    /// Every device satisfies its invariant.
    pub open spec fn wf(&self) -> bool {
        &&& self.mrom.inv()
        &&& self.clint.inv()
        &&& self.plic.inv()
        &&& self.uart.inv()
        &&& self.dram.inv()
    }

    /// The content of the address space.
    pub open spec fn view(&self) -> BusView {
        BusView {
            mrom: self.mrom@,
            clint: self.clint@,
            plic: self.plic@,
            uart: self.uart@,
            dram: self.dram@,
            dram_base: self.dram.base_addr,
        }
    }

    /// An address space for the program image: main memory with the image
    /// loaded, the mask ROM with the reset vector and the device tree blob
    /// behind it, and the other devices in their reset state.
    pub fn new(loader: &ElfLoader, isa: Isa, dtb: &Vec<u8>) -> (r: Bus)
        requires
            loader.spec_fits(DRAM_SIZE as nat),
            loader.entry + DRAM_SIZE <= u64::MAX,
            mrom::RESET_VECTOR_SIZE + dtb@.len() <= MROM_MAX_SIZE,
        ensures
            r.wf(),
            r@.wf(),
            r@ == spec_boot_bus(*loader, isa, dtb@),
    {
        // load the program image
        let dram = Dram::new(loader);
        let mut mrom = Mrom::new(dram.base_addr, isa);

        // place the device tree blob behind the reset vector
        mrom.load_dtb(dtb);

        Bus { mrom, clint: Clint::new(), plic: Plic::new(), uart: Uart::new(), dram }
    }

    /// Stores the low 8 bits of `data` at `addr`.
    pub fn store8(&mut self, addr: u64, data: u64) -> (r: Result<(), Fault>)
        requires
            old(self).wf(),
        ensures
            final(self).wf(),
            final(self)@.dram_base == old(self)@.dram_base,
            bus_store_outcome(
                old(self)@.store(addr, data, TransAlign::Size8),
                old(self)@,
                final(self)@,
                r,
            ),
    {
        let size = TransAlign::Size8;
        let fault = Fault { addr: Some(addr), cause: TrapCause::StoreAMOAccessFault };
        proof {
            reveal(BusView::store);
        }
        if self.mrom.in_range(addr) {
            if fits(&self.mrom, addr, size) {
                self.mrom.store8(addr, data)
            } else {
                Err(fault)
            }
        } else if self.clint.in_range(addr) {
            if fits(&self.clint, addr, size) {
                self.clint.store8(addr, data)
            } else {
                Err(fault)
            }
        } else if self.plic.in_range(addr) {
            if fits(&self.plic, addr, size) {
                self.plic.store8(addr, data)
            } else {
                Err(fault)
            }
        } else if self.uart.in_range(addr) {
            if fits(&self.uart, addr, size) {
                self.uart.store8(addr, data)
            } else {
                Err(fault)
            }
        } else if self.dram.in_range(addr) {
            if fits(&self.dram, addr, size) {
                self.dram.store8(addr, data)
            } else {
                Err(fault)
            }
        } else {
            Err(fault)
        }
    }

    /// Stores the low 16 bits of `data` at `addr`.
    pub fn store16(&mut self, addr: u64, data: u64) -> (r: Result<(), Fault>)
        requires
            old(self).wf(),
        ensures
            final(self).wf(),
            final(self)@.dram_base == old(self)@.dram_base,
            bus_store_outcome(
                old(self)@.store(addr, data, TransAlign::Size16),
                old(self)@,
                final(self)@,
                r,
            ),
    {
        let size = TransAlign::Size16;
        let fault = Fault { addr: Some(addr), cause: TrapCause::StoreAMOAccessFault };
        proof {
            reveal(BusView::store);
        }
        if self.mrom.in_range(addr) {
            if fits(&self.mrom, addr, size) {
                self.mrom.store16(addr, data)
            } else {
                Err(fault)
            }
        } else if self.clint.in_range(addr) {
            if fits(&self.clint, addr, size) {
                self.clint.store16(addr, data)
            } else {
                Err(fault)
            }
        } else if self.plic.in_range(addr) {
            if fits(&self.plic, addr, size) {
                self.plic.store16(addr, data)
            } else {
                Err(fault)
            }
        } else if self.uart.in_range(addr) {
            if fits(&self.uart, addr, size) {
                self.uart.store16(addr, data)
            } else {
                Err(fault)
            }
        } else if self.dram.in_range(addr) {
            if fits(&self.dram, addr, size) {
                self.dram.store16(addr, data)
            } else {
                Err(fault)
            }
        } else {
            Err(fault)
        }
    }

    /// Stores the low 32 bits of `data` at `addr`.
    pub fn store32(&mut self, addr: u64, data: u64) -> (r: Result<(), Fault>)
        requires
            old(self).wf(),
        ensures
            final(self).wf(),
            final(self)@.dram_base == old(self)@.dram_base,
            bus_store_outcome(
                old(self)@.store(addr, data, TransAlign::Size32),
                old(self)@,
                final(self)@,
                r,
            ),
    {
        let size = TransAlign::Size32;
        let fault = Fault { addr: Some(addr), cause: TrapCause::StoreAMOAccessFault };
        proof {
            reveal(BusView::store);
        }
        if self.mrom.in_range(addr) {
            if fits(&self.mrom, addr, size) {
                self.mrom.store32(addr, data)
            } else {
                Err(fault)
            }
        } else if self.clint.in_range(addr) {
            if fits(&self.clint, addr, size) {
                self.clint.store32(addr, data)
            } else {
                Err(fault)
            }
        } else if self.plic.in_range(addr) {
            if fits(&self.plic, addr, size) {
                self.plic.store32(addr, data)
            } else {
                Err(fault)
            }
        } else if self.uart.in_range(addr) {
            if fits(&self.uart, addr, size) {
                self.uart.store32(addr, data)
            } else {
                Err(fault)
            }
        } else if self.dram.in_range(addr) {
            if fits(&self.dram, addr, size) {
                self.dram.store32(addr, data)
            } else {
                Err(fault)
            }
        } else {
            Err(fault)
        }
    }

    /// Stores the low 64 bits of `data` at `addr`.
    pub fn store64(&mut self, addr: u64, data: u64) -> (r: Result<(), Fault>)
        requires
            old(self).wf(),
        ensures
            final(self).wf(),
            final(self)@.dram_base == old(self)@.dram_base,
            bus_store_outcome(
                old(self)@.store(addr, data, TransAlign::Size64),
                old(self)@,
                final(self)@,
                r,
            ),
    {
        let size = TransAlign::Size64;
        let fault = Fault { addr: Some(addr), cause: TrapCause::StoreAMOAccessFault };
        proof {
            reveal(BusView::store);
        }
        if self.mrom.in_range(addr) {
            if fits(&self.mrom, addr, size) {
                self.mrom.store64(addr, data)
            } else {
                Err(fault)
            }
        } else if self.clint.in_range(addr) {
            if fits(&self.clint, addr, size) {
                self.clint.store64(addr, data)
            } else {
                Err(fault)
            }
        } else if self.plic.in_range(addr) {
            if fits(&self.plic, addr, size) {
                self.plic.store64(addr, data)
            } else {
                Err(fault)
            }
        } else if self.uart.in_range(addr) {
            if fits(&self.uart, addr, size) {
                self.uart.store64(addr, data)
            } else {
                Err(fault)
            }
        } else if self.dram.in_range(addr) {
            if fits(&self.dram, addr, size) {
                self.dram.store64(addr, data)
            } else {
                Err(fault)
            }
        } else {
            Err(fault)
        }
    }

    /// Loads a byte and sign-extends it.
    pub fn load8(&mut self, addr: u64) -> (r: Result<u64, Fault>)
        requires
            old(self).wf(),
        ensures
            final(self).wf(),
            final(self)@ == old(self)@.after_load8(addr),
            r == old(self)@.load(addr, TransAlign::Size8, true),
    {
        let size = TransAlign::Size8;
        let fault = Fault { addr: Some(addr), cause: TrapCause::LoadAccessFault };
        proof {
            reveal(BusView::load);
        }
        if self.mrom.in_range(addr) {
            if fits(&self.mrom, addr, size) {
                self.mrom.load8(addr)
            } else {
                Err(fault)
            }
        } else if self.clint.in_range(addr) {
            if fits(&self.clint, addr, size) {
                self.clint.load8(addr)
            } else {
                Err(fault)
            }
        } else if self.plic.in_range(addr) {
            if fits(&self.plic, addr, size) {
                self.plic.load8(addr)
            } else {
                Err(fault)
            }
        } else if self.uart.in_range(addr) {
            if fits(&self.uart, addr, size) {
                self.uart.load8(addr)
            } else {
                Err(fault)
            }
        } else if self.dram.in_range(addr) {
            if fits(&self.dram, addr, size) {
                self.dram.load8(addr)
            } else {
                Err(fault)
            }
        } else {
            Err(fault)
        }
    }

    /// Loads a half-word and sign-extends it.
    pub fn load16(&self, addr: u64) -> (r: Result<u64, Fault>)
        requires
            self.wf(),
        ensures
            r == self@.load(addr, TransAlign::Size16, true),
    {
        let size = TransAlign::Size16;
        let fault = Fault { addr: Some(addr), cause: TrapCause::LoadAccessFault };
        proof {
            reveal(BusView::load);
        }
        if self.mrom.in_range(addr) {
            if fits(&self.mrom, addr, size) {
                self.mrom.load16(addr)
            } else {
                Err(fault)
            }
        } else if self.clint.in_range(addr) {
            if fits(&self.clint, addr, size) {
                self.clint.load16(addr)
            } else {
                Err(fault)
            }
        } else if self.plic.in_range(addr) {
            if fits(&self.plic, addr, size) {
                self.plic.load16(addr)
            } else {
                Err(fault)
            }
        } else if self.uart.in_range(addr) {
            if fits(&self.uart, addr, size) {
                self.uart.load16(addr)
            } else {
                Err(fault)
            }
        } else if self.dram.in_range(addr) {
            if fits(&self.dram, addr, size) {
                self.dram.load16(addr)
            } else {
                Err(fault)
            }
        } else {
            Err(fault)
        }
    }

    /// Loads a word and sign-extends it.
    pub fn load32(&self, addr: u64) -> (r: Result<u64, Fault>)
        requires
            self.wf(),
        ensures
            r == self@.load(addr, TransAlign::Size32, true),
    {
        let size = TransAlign::Size32;
        let fault = Fault { addr: Some(addr), cause: TrapCause::LoadAccessFault };
        proof {
            reveal(BusView::load);
        }
        if self.mrom.in_range(addr) {
            if fits(&self.mrom, addr, size) {
                self.mrom.load32(addr)
            } else {
                Err(fault)
            }
        } else if self.clint.in_range(addr) {
            if fits(&self.clint, addr, size) {
                self.clint.load32(addr)
            } else {
                Err(fault)
            }
        } else if self.plic.in_range(addr) {
            if fits(&self.plic, addr, size) {
                self.plic.load32(addr)
            } else {
                Err(fault)
            }
        } else if self.uart.in_range(addr) {
            if fits(&self.uart, addr, size) {
                self.uart.load32(addr)
            } else {
                Err(fault)
            }
        } else if self.dram.in_range(addr) {
            if fits(&self.dram, addr, size) {
                self.dram.load32(addr)
            } else {
                Err(fault)
            }
        } else {
            Err(fault)
        }
    }

    /// Loads a double word.
    pub fn load64(&self, addr: u64) -> (r: Result<u64, Fault>)
        requires
            self.wf(),
        ensures
            r == self@.load(addr, TransAlign::Size64, true),
    {
        let size = TransAlign::Size64;
        let fault = Fault { addr: Some(addr), cause: TrapCause::LoadAccessFault };
        proof {
            reveal(BusView::load);
        }
        if self.mrom.in_range(addr) {
            if fits(&self.mrom, addr, size) {
                self.mrom.load64(addr)
            } else {
                Err(fault)
            }
        } else if self.clint.in_range(addr) {
            if fits(&self.clint, addr, size) {
                self.clint.load64(addr)
            } else {
                Err(fault)
            }
        } else if self.plic.in_range(addr) {
            if fits(&self.plic, addr, size) {
                self.plic.load64(addr)
            } else {
                Err(fault)
            }
        } else if self.uart.in_range(addr) {
            if fits(&self.uart, addr, size) {
                self.uart.load64(addr)
            } else {
                Err(fault)
            }
        } else if self.dram.in_range(addr) {
            if fits(&self.dram, addr, size) {
                self.dram.load64(addr)
            } else {
                Err(fault)
            }
        } else {
            Err(fault)
        }
    }

    /// Loads a byte and zero-extends it.
    pub fn load_u8(&self, addr: u64) -> (r: Result<u64, Fault>)
        requires
            self.wf(),
        ensures
            r == self@.load(addr, TransAlign::Size8, false),
    {
        let size = TransAlign::Size8;
        let fault = Fault { addr: Some(addr), cause: TrapCause::LoadAccessFault };
        proof {
            reveal(BusView::load);
        }
        if self.mrom.in_range(addr) {
            if fits(&self.mrom, addr, size) {
                self.mrom.load_u8(addr)
            } else {
                Err(fault)
            }
        } else if self.clint.in_range(addr) {
            if fits(&self.clint, addr, size) {
                self.clint.load_u8(addr)
            } else {
                Err(fault)
            }
        } else if self.plic.in_range(addr) {
            if fits(&self.plic, addr, size) {
                self.plic.load_u8(addr)
            } else {
                Err(fault)
            }
        } else if self.uart.in_range(addr) {
            if fits(&self.uart, addr, size) {
                self.uart.load_u8(addr)
            } else {
                Err(fault)
            }
        } else if self.dram.in_range(addr) {
            if fits(&self.dram, addr, size) {
                self.dram.load_u8(addr)
            } else {
                Err(fault)
            }
        } else {
            Err(fault)
        }
    }

    /// Loads a half-word and zero-extends it.
    pub fn load_u16(&self, addr: u64) -> (r: Result<u64, Fault>)
        requires
            self.wf(),
        ensures
            r == self@.load(addr, TransAlign::Size16, false),
    {
        let size = TransAlign::Size16;
        let fault = Fault { addr: Some(addr), cause: TrapCause::LoadAccessFault };
        proof {
            reveal(BusView::load);
        }
        if self.mrom.in_range(addr) {
            if fits(&self.mrom, addr, size) {
                self.mrom.load_u16(addr)
            } else {
                Err(fault)
            }
        } else if self.clint.in_range(addr) {
            if fits(&self.clint, addr, size) {
                self.clint.load_u16(addr)
            } else {
                Err(fault)
            }
        } else if self.plic.in_range(addr) {
            if fits(&self.plic, addr, size) {
                self.plic.load_u16(addr)
            } else {
                Err(fault)
            }
        } else if self.uart.in_range(addr) {
            if fits(&self.uart, addr, size) {
                self.uart.load_u16(addr)
            } else {
                Err(fault)
            }
        } else if self.dram.in_range(addr) {
            if fits(&self.dram, addr, size) {
                self.dram.load_u16(addr)
            } else {
                Err(fault)
            }
        } else {
            Err(fault)
        }
    }

    /// Loads a word and zero-extends it.
    pub fn load_u32(&self, addr: u64) -> (r: Result<u64, Fault>)
        requires
            self.wf(),
        ensures
            r == self@.load(addr, TransAlign::Size32, false),
    {
        let size = TransAlign::Size32;
        let fault = Fault { addr: Some(addr), cause: TrapCause::LoadAccessFault };
        proof {
            reveal(BusView::load);
        }
        if self.mrom.in_range(addr) {
            if fits(&self.mrom, addr, size) {
                self.mrom.load_u32(addr)
            } else {
                Err(fault)
            }
        } else if self.clint.in_range(addr) {
            if fits(&self.clint, addr, size) {
                self.clint.load_u32(addr)
            } else {
                Err(fault)
            }
        } else if self.plic.in_range(addr) {
            if fits(&self.plic, addr, size) {
                self.plic.load_u32(addr)
            } else {
                Err(fault)
            }
        } else if self.uart.in_range(addr) {
            if fits(&self.uart, addr, size) {
                self.uart.load_u32(addr)
            } else {
                Err(fault)
            }
        } else if self.dram.in_range(addr) {
            if fits(&self.dram, addr, size) {
                self.dram.load_u32(addr)
            } else {
                Err(fault)
            }
        } else {
            Err(fault)
        }
    }
}

/// In main memory and in the CLINT a store always succeeds, and a load of
/// the same width from the same address then reads the payload back:
/// truncated to the width by the unsigned load, sign-extended from the
/// width's top bit by the signed one.
pub proof fn lemma_load_after_store(v: BusView, addr: u64, data: u64, size: TransAlign)
    requires
        v.wf(),
        v.target(addr, size) == Some(Region::Dram) || v.target(addr, size) == Some(Region::Clint),
    ensures
        v.store(addr, data, size) is Ok,
        v.store(addr, data, size)->Ok_0.wf(),
        v.store(addr, data, size)->Ok_0.load(addr, size, false) == Ok::<u64, Fault>(
            match size {
                TransAlign::Size8 => data % 0x100,
                TransAlign::Size16 => data % 0x1_0000,
                TransAlign::Size32 => data % 0x1_0000_0000,
                TransAlign::Size64 => data,
            },
        ),
        v.store(addr, data, size)->Ok_0.load(addr, size, true) == Ok::<u64, Fault>(
            match size {
                TransAlign::Size8 => crate::bits::sext8(data),
                TransAlign::Size16 => crate::bits::sext16(data),
                TransAlign::Size32 => crate::bits::sext32(data),
                TransAlign::Size64 => data,
            },
        ),
{
    reveal(BusView::load);
    reveal(BusView::store);
    let r = v.target(addr, size)->Some_0;
    let base = v.base_of(r);
    let bytes = v.bytes_of(r);
    le::lemma_load_after_store(bytes, addr - base, size, data);
    assert(le::le_store(bytes, addr - base, size, data).len() == bytes.len());
}

/// A store to one region leaves the loads from every other region as they
/// were, and the loads from the same region that touch other bytes too.
#[verifier::rlimit(40)]
proof fn lemma_region_store(
    v: BusView,
    r: Region,
    bytes: Seq<u8>,
    at: u64,
    data: u64,
    size: TransAlign,
    other: u64,
    signed: bool,
)
    requires
        v.wf(),
        r != Region::Mrom,
        r != Region::Uart,
        size == TransAlign::Size32 || size == TransAlign::Size64,
        v.target(at, size) == Some(r),
        bytes == le::le_store(v.bytes_of(r), at - v.base_of(r), size, data),
        other + size.spec_bytes() <= at || at + size.spec_bytes() <= other,
    ensures
        v.with_bytes(r, bytes).load(other, size, signed) == v.load(other, size, signed),
{
    reveal(BusView::load);
    let after = v.with_bytes(r, bytes);
    assert(bytes.len() == v.bytes_of(r).len());
    assert(after.target(other, size) == v.target(other, size));
    if v.target(other, size) == Some(r) {
        le::lemma_load_elsewhere(
            v.bytes_of(r),
            at - v.base_of(r),
            other - v.base_of(r),
            size,
            data,
            signed,
        );
    }
}

/// A word or double-word store leaves what an aligned load of the same
/// width from another aligned address returns as it was.
pub proof fn lemma_store_keeps_other_loads(
    v: BusView,
    at: u64,
    data: u64,
    size: TransAlign,
    other: u64,
    signed: bool,
)
    requires
        v.wf(),
        v.store(at, data, size) is Ok,
        size == TransAlign::Size32 || size == TransAlign::Size64,
        at % size.spec_bytes() == 0,
        other % size.spec_bytes() == 0,
        at != other,
    ensures
        v.store(at, data, size)->Ok_0.load(other, size, signed) == v.load(other, size, signed),
{
    let r = v.target(at, size)->Some_0;
    let bytes = le::le_store(v.bytes_of(r), at - v.base_of(r), size, data);
    assert(v.target(at, size) is Some && r != Region::Mrom && r != Region::Uart && v.store(
        at,
        data,
        size,
    ) == Ok::<BusView, Fault>(v.with_bytes(r, bytes))) by {
        reveal(BusView::store);
    }
    lemma_region_store(v, r, bytes, at, data, size, other, signed);
}

/// A word or double-word store that succeeds is read back by a load of the
/// same width from the same address, where the device serves that load.
pub proof fn lemma_store_then_load(v: BusView, at: u64, data: u64, size: TransAlign, signed: bool)
    requires
        v.wf(),
        v.store(at, data, size) is Ok,
        v.load(at, size, signed) is Ok,
        size == TransAlign::Size32 || size == TransAlign::Size64,
        size == TransAlign::Size32 ==> !signed && data < 0x1_0000_0000,
    ensures
        v.store(at, data, size)->Ok_0.load(at, size, signed) == Ok::<u64, Fault>(data),
{
    reveal(BusView::load);
    reveal(BusView::store);
    let r = v.target(at, size)->Some_0;
    le::lemma_load_after_store(v.bytes_of(r), at - v.base_of(r), size, data);
}

/// A store keeps every device's size and the place of main memory, so the
/// address space stays well-formed; and an unsigned word load yields a value
/// below `2^32`.
#[verifier::rlimit(40)]
pub proof fn lemma_bus_shape(v: BusView, addr: u64, data: u64, size: TransAlign)
    requires
        v.wf(),
    ensures
        v.store(addr, data, size) is Ok ==> {
            let after = v.store(addr, data, size)->Ok_0;
            &&& after.wf()
            &&& after.dram_base == v.dram_base
            &&& forall|a: u64, s: TransAlign| after.target(a, s) == v.target(a, s)
        },
        v.load(addr, TransAlign::Size32, false) is Ok ==> v.load(
            addr,
            TransAlign::Size32,
            false,
        )->Ok_0 < 0x1_0000_0000,
        v.load(addr, TransAlign::Size16, false) is Ok ==> v.load(
            addr,
            TransAlign::Size16,
            false,
        )->Ok_0 < 0x1_0000,
        v.after_load8(addr).wf(),
        v.load(addr, TransAlign::Size8, true) is Err ==> v.after_load8(addr) == v,
{
    reveal(BusView::load);
    reveal(BusView::store);
}

} // verus!
