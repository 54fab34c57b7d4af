//! NS16550A-style UART: a bank of byte registers that accepts byte accesses
//! only.

use vstd::prelude::*;
use super::le;
use super::Device;
use crate::cpu::trap::{Fault, TransAlign, TrapCause};

verus! {

/// First address of the UART.
pub const UART_BASE: u64 = 0x1000_0000;

/// Size of the UART's region in bytes.
pub const UART_SIZE: usize = 0x100;

/// Offset of the receive/transmit register.
pub const UART_RX_TX: usize = 0;

/// Offset of the interrupt identification / FIFO control register.
pub const UART_IIR_FCR: usize = 2;

/// Offset of the modem control register.
pub const UART_MCR: usize = 4;

/// Offset of the line status register.
pub const UART_LSR: usize = 5;

/// Offset of the modem status register.
pub const UART_MSR: usize = 6;

/// The UART.
pub struct Uart {
    pub uart: Vec<u8>,
    pub base_addr: u64,
    pub size: usize,
}

/// The registers after reset: no interrupt pending, transmitter empty and
/// idle, carrier, data-set-ready and clear-to-send asserted, OUT2 set.
pub open spec fn uart_reset() -> Seq<u8> {
    Seq::new(UART_SIZE as nat, |j: int| 0u8).update(UART_IIR_FCR as int, 0x01u8).update(
        UART_LSR as int,
        0x60u8,
    ).update(UART_MSR as int, 0xb0u8).update(UART_MCR as int, 0x08u8)
}

/// What a load from the UART returns: a byte, sign-extended by the signed
/// load except for the receive register; any wider access is refused with a
/// load page fault.
pub open spec fn uart_load(bytes: Seq<u8>, base: u64, addr: u64, size: TransAlign, signed: bool)
    -> Result<u64, Fault> {
    match size {
        TransAlign::Size8 => {
            if signed && addr - base != UART_RX_TX {
                Ok(crate::bits::sext8(bytes[addr - base] as u64))
            } else {
                Ok(bytes[addr - base] as u64)
            }
        },
        _ => Err(Fault { addr: Some(addr), cause: TrapCause::LoadPageFault }),
    }
}

/// The registers after a signed byte load: reading the receive register
/// clears the data-ready bit of the line status register.
pub open spec fn uart_after_load8(bytes: Seq<u8>, base: u64, addr: u64) -> Seq<u8> {
    if addr - base == UART_RX_TX {
        bytes.update(UART_LSR as int, bytes[UART_LSR as int] & 0xFEu8)
    } else {
        bytes
    }
}

/// What a store to the UART leaves behind: a byte store writes the register,
/// any wider store is refused with a store page fault.
pub open spec fn uart_store(bytes: Seq<u8>, base: u64, addr: u64, data: u64, size: TransAlign)
    -> Result<Seq<u8>, Fault> {
    match size {
        TransAlign::Size8 => Ok(le::le_store(bytes, addr - base, size, data)),
        _ => Err(Fault { addr: Some(addr), cause: TrapCause::StoreAMOPageFault }),
    }
}

impl Uart {
    /// The byte array has the size of the region, which lies at its fixed address.
    pub open spec fn inv(&self) -> bool {
        &&& self.uart@.len() == self.size
        &&& self.size == UART_SIZE
        &&& self.base_addr == UART_BASE
    }

    /// The registers' content.
    pub open spec fn view(&self) -> Seq<u8> {
        self.uart@
    }

    /// A UART in its reset state.
    pub fn new() -> (r: Uart)
        ensures
            r.inv(),
            r@ == uart_reset(),
    {
        let mut uart: Vec<u8> = vec![0u8; UART_SIZE];
        assert(uart@ =~= Seq::new(UART_SIZE as nat, |j: int| 0u8));
        uart.set(UART_IIR_FCR, 0x01);  // IIR_NO_INT
        uart.set(UART_LSR, 0x60);  // LSR_TEMT | LSR_THRE
        uart.set(UART_MSR, 0xb0);  // MSR_DCD | MSR_DSR | MSR_CTS
        uart.set(UART_MCR, 0x08);  // MCR_OUT2
        Uart { uart, base_addr: UART_BASE, size: UART_SIZE }
    }
}

impl Device for Uart {
    open spec fn wf(&self) -> bool {
        self.inv()
    }

    open spec fn base(&self) -> u64 {
        self.base_addr
    }

    open spec fn bytes(&self) -> Seq<u8> {
        self.uart@
    }

    open spec fn load_spec(&self, addr: u64, size: TransAlign, signed: bool) -> Result<u64, Fault> {
        uart_load(self.uart@, self.base_addr, addr, size, signed)
    }

    open spec fn after_load8(&self, addr: u64) -> Seq<u8> {
        uart_after_load8(self.uart@, self.base_addr, addr)
    }

    open spec fn store_spec(&self, addr: u64, data: u64, size: TransAlign) -> Result<Seq<u8>, Fault> {
        uart_store(self.uart@, self.base_addr, addr, data, size)
    }

    // is addr in device address space
    fn in_range(&self, addr: u64) -> (r: bool) {
        self.base_addr <= addr && addr - self.base_addr < self.size as u64
    }

    // address to raw index
    fn addr2index(&self, addr: u64) -> (r: usize) {
        (addr - self.base_addr) as usize
    }

    fn store8(&mut self, addr: u64, data: u64) -> (r: Result<(), Fault>) {
        let index = self.addr2index(addr);
        le::write(&mut self.uart, index, TransAlign::Size8, data);
        Ok(())
    }

    fn store16(&mut self, addr: u64, _data: u64) -> (r: Result<(), Fault>) {
        Err(Fault { addr: Some(addr), cause: TrapCause::StoreAMOPageFault })
    }

    fn store32(&mut self, addr: u64, _data: u64) -> (r: Result<(), Fault>) {
        Err(Fault { addr: Some(addr), cause: TrapCause::StoreAMOPageFault })
    }

    fn store64(&mut self, addr: u64, _data: u64) -> (r: Result<(), Fault>) {
        Err(Fault { addr: Some(addr), cause: TrapCause::StoreAMOPageFault })
    }

    fn load8(&mut self, addr: u64) -> (r: Result<u64, Fault>) {
        let index = self.addr2index(addr);
        if index == UART_RX_TX {
            let lsr: u8 = self.uart[UART_LSR];
            self.uart.set(UART_LSR, lsr & 0xFE);
            Ok(self.uart[UART_RX_TX] as u64)
        } else {
            Ok(le::read(&self.uart, index, TransAlign::Size8, true))
        }
    }

    fn load16(&self, addr: u64) -> (r: Result<u64, Fault>) {
        Err(Fault { addr: Some(addr), cause: TrapCause::LoadPageFault })
    }

    fn load32(&self, addr: u64) -> (r: Result<u64, Fault>) {
        Err(Fault { addr: Some(addr), cause: TrapCause::LoadPageFault })
    }

    fn load64(&self, addr: u64) -> (r: Result<u64, Fault>) {
        Err(Fault { addr: Some(addr), cause: TrapCause::LoadPageFault })
    }

    fn load_u8(&self, addr: u64) -> (r: Result<u64, Fault>) {
        let index = self.addr2index(addr);
        Ok(le::read(&self.uart, index, TransAlign::Size8, false))
    }

    fn load_u16(&self, addr: u64) -> (r: Result<u64, Fault>) {
        Err(Fault { addr: Some(addr), cause: TrapCause::LoadPageFault })
    }

    fn load_u32(&self, addr: u64) -> (r: Result<u64, Fault>) {
        Err(Fault { addr: Some(addr), cause: TrapCause::LoadPageFault })
    }
}

} // verus!
