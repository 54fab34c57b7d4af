//! A verified core for a RISC-V (RV32/RV64, IAC + Zicsr + privileged) emulator:
//! bus and devices, MMU with TLB, decoder, executor and trap machinery.

pub mod bits;
pub mod bus;
pub mod cpu;
pub mod elfload;

use vstd::prelude::*;
use crate::bus::dram::DRAM_SIZE;
use crate::bus::mrom::{MROM_BASE, MROM_MAX_SIZE, RESET_VECTOR_SIZE};
use crate::bus::{spec_boot_bus, Bus, BusView};
use crate::cpu::cycle::{spec_cycle, Stop};
use crate::cpu::trap::{Fault, TransAlign};
use crate::cpu::{spec_reset, spec_trap, CpuView, CPU};
use crate::elfload::ElfLoader;

verus! {

/// Base integer ISA the hart implements; fixes the register width (XLEN).
#[derive(Clone, Copy, PartialEq, Eq, Structural, Debug)]
pub enum Isa {
    Rv32,
    Rv64,
}

/// What the program asks of the host through `tohost`.
#[derive(Clone, Copy, PartialEq, Eq, Structural, Debug)]
pub enum HostRequest {
    /// Terminate with this status.
    Exit(u64),
    /// Serve the system call whose arguments lie at this physical address.
    Syscall(u64),
}

/// What the host has to do after a step.
#[derive(Clone, Copy, PartialEq, Eq, Structural, Debug)]
pub enum Event {
    /// Nothing: go on with the next step.
    Running,
    /// The program wrote a request to `tohost`.
    Request(HostRequest),
    /// The PC reached the configured breakpoint.
    BreakPoint,
    /// The core cannot go on.
    Halted(Stop),
}

/// The hart with what the host needs around it: the host interface
/// addresses of the image and the configured breakpoint.
pub struct Emulator {
    pub cpu: CPU,
    pub tohost_addr: Option<u64>,
    pub fromhost_addr: Option<u64>,
    pub break_point: Option<u64>,
    pub exit_code: Option<i32>,
}

/// The value of `xtval` for an exception: the value the fault carries, or
/// the PC where it carries none.
pub open spec fn spec_tval(fault: Fault, pc: u64) -> u64 {
    match fault.addr {
        Some(v) => v,
        None => pc,
    }
}

/// The hart after one cycle and the delivery of the exception that the
/// cycle raised, if it raised one.
pub open spec fn spec_settle(s: CpuView) -> CpuView {
    let c = spec_cycle(s);
    match c.result {
        Err(Stop::Trap(fault)) => spec_trap(c.state, spec_tval(fault, c.state.pc), fault.cause),
        _ => c.state,
    }
}

/// The request in `tohost`, where the image has the host interface: a
/// non-zero double word there is a request; an odd one asks to exit with the
/// status in the bits above bit 0, an even one is the address of the
/// arguments of a system call.
pub open spec fn spec_host_request(bus: BusView, tohost: Option<u64>, fromhost: Option<u64>)
    -> Option<HostRequest> {
    if tohost is Some && fromhost is Some {
        match bus.load(tohost->Some_0, TransAlign::Size64, true) {
            Ok(v) => if v == 0 {
                None
            } else if v % 2 == 1 {
                Some(HostRequest::Exit(v / 2))
            } else {
                Some(HostRequest::Syscall(v))
            },
            Err(_) => None,
        }
    } else {
        None
    }
}

/// What the host has to do after a step that left the emulator in the
/// given state: a halt of the core comes first, then a request of the
/// program, then the breakpoint.
pub open spec fn spec_event(
    stopped: Result<(), Stop>,
    after: CpuView,
    tohost: Option<u64>,
    fromhost: Option<u64>,
    break_point: Option<u64>,
) -> Event {
    match stopped {
        Err(Stop::UnsupportedTrigger) => Event::Halted(Stop::UnsupportedTrigger),
        Err(Stop::ReservedPrivilege) => Event::Halted(Stop::ReservedPrivilege),
        _ => match spec_host_request(after.bus, tohost, fromhost) {
            Some(request) => Event::Request(request),
            None => if break_point == Some(after.pc) {
                Event::BreakPoint
            } else {
                Event::Running
            },
        },
    }
}

/// Number of double words of a system call request: the number of the call
/// and its seven arguments.
pub const REQUEST_WORDS: usize = 8;

/// The first `n` double words of the request at the physical address
/// `pointer`; none where one of them cannot be loaded.
pub open spec fn spec_request(bus: BusView, pointer: u64, n: nat) -> Option<Seq<u64>>
    decreases n,
{
    if n == 0 {
        Some(Seq::empty())
    } else {
        match spec_request(bus, pointer, (n - 1) as nat) {
            None => None,
            Some(words) => if pointer + 8 * (n - 1) > u64::MAX {
                None
            } else {
                match bus.load((pointer + 8 * (n - 1)) as u64, TransAlign::Size64, true) {
                    Ok(word) => Some(words.push(word)),
                    Err(_) => None,
                }
            },
        }
    }
}

impl Emulator {
    /// The hart is well-formed.
    pub open spec fn wf(&self) -> bool {
        self.cpu.wf()
    }

    /// An emulator for the image: memory holds the image, the mask ROM the
    /// reset vector and the device tree blob, and the hart starts in machine
    /// mode at `init_pc` or, without one, at the reset vector.
    pub fn new(
        loader: &ElfLoader,
        isa: Isa,
        init_pc: Option<u64>,
        break_point: Option<u64>,
        dtb: &Vec<u8>,
    ) -> (r: Emulator)
        requires
            loader.spec_fits(DRAM_SIZE as nat),
            loader.entry + DRAM_SIZE <= u64::MAX,
            RESET_VECTOR_SIZE + dtb@.len() <= MROM_MAX_SIZE,
        ensures
            r.wf(),
            r.cpu@ == spec_reset(
                match init_pc {
                    Some(pc) => pc,
                    None => MROM_BASE,
                },
                spec_boot_bus(*loader, isa, dtb@),
                isa,
            ),
            r.tohost_addr == loader.tohost,
            r.fromhost_addr == loader.fromhost,
            r.break_point == break_point,
            r.exit_code == None::<i32>,
    {
        let (tohost_addr, fromhost_addr) = loader.get_host_addr();
        let bus = Bus::new(loader, isa, dtb);
        let entry = match init_pc {
            Some(pc) => pc,
            None => MROM_BASE,
        };

        Emulator {
            cpu: CPU::new(entry, bus, isa),
            tohost_addr,
            fromhost_addr,
            break_point,
            exit_code: None,
        }
    }

    /// Reads the program's request from `tohost`.
    pub fn check_tohost(&self) -> (r: Option<HostRequest>)
        requires
            self.wf(),
        ensures
            r == spec_host_request(self.cpu@.bus, self.tohost_addr, self.fromhost_addr),
    {
        match (self.tohost_addr, self.fromhost_addr) {
            (Some(tohost), Some(_)) => match self.cpu.bus.load64(tohost) {
                Ok(v) => if v == 0 {
                    None
                } else if v % 2 == 1 {
                    Some(HostRequest::Exit(v / 2))
                } else {
                    Some(HostRequest::Syscall(v))
                },
                Err(_) => None,
            },
            _ => None,
        }
    }

    /// Reads the system call request at the physical address `pointer`: the
    /// number of the call and its seven arguments.
    pub fn read_request(&self, pointer: u64) -> (r: Option<Vec<u64>>)
        requires
            self.wf(),
        ensures
            match spec_request(self.cpu@.bus, pointer, REQUEST_WORDS as nat) {
                Some(words) => r is Some && r->Some_0@ == words,
                None => r is None,
            },
    {
        let mut words: Vec<u64> = Vec::new();
        let mut k: usize = 0;
        while k < REQUEST_WORDS
            invariant
                k <= REQUEST_WORDS,
                self.wf(),
                spec_request(self.cpu@.bus, pointer, k as nat) == Some(words@),
            decreases REQUEST_WORDS - k,
        {
            let addr = match pointer.checked_add(8 * k as u64) {
                Some(addr) => addr,
                None => {
                    proof {
                        lemma_request_fails(self.cpu@.bus, pointer, (k + 1) as nat);
                    }
                    return None;
                },
            };
            match self.cpu.bus.load64(addr) {
                Ok(word) => {
                    words.push(word);
                },
                Err(_) => {
                    proof {
                        lemma_request_fails(self.cpu@.bus, pointer, (k + 1) as nat);
                    }
                    return None;
                },
            }
            k += 1;
        }
        Some(words)
    }

    /// Runs one cycle, delivers the exception it raised, and tells the host
    /// what to do next. When the PC reaches the breakpoint the exit code
    /// becomes 0.
    pub fn step(&mut self) -> (r: Event)
        requires
            old(self).wf(),
        ensures
            final(self).wf(),
            final(self).cpu@ == spec_settle(old(self).cpu@),
            r == spec_event(
                spec_cycle(old(self).cpu@).result,
                final(self).cpu@,
                old(self).tohost_addr,
                old(self).fromhost_addr,
                old(self).break_point,
            ),
            final(self).tohost_addr == old(self).tohost_addr,
            final(self).fromhost_addr == old(self).fromhost_addr,
            final(self).break_point == old(self).break_point,
            final(self).exit_code == (if r == Event::BreakPoint {
                Some(0i32)
            } else {
                old(self).exit_code
            }),
            final(self).cpu@.regs[0] == 0,
            old(self).cpu@.pc % 2 == 0 ==> final(self).cpu@.pc % 2 == 0,
    {
        match self.cpu.exec_one_cycle() {
            Ok(()) => (),
            Err(Stop::Trap(fault)) => {
                let tval = match fault.addr {
                    Some(v) => v,
                    None => self.cpu.pc,
                };
                self.cpu.trap(tval, fault.cause);
            },
            Err(stop) => { return Event::Halted(stop); },
        }

        match self.check_tohost() {
            Some(request) => { return Event::Request(request); },
            None => {},
        }

        match self.break_point {
            Some(break_point) => {
                if break_point == self.cpu.pc {
                    self.exit_code = Some(0);
                    return Event::BreakPoint;
                }
            },
            None => {},
        }
        Event::Running
    }

    /// Tells the program that its request is served: clears `tohost` and
    /// writes 1 to `fromhost`. Where the image lacks the host interface, or
    /// an address of it is not writable, nothing is written there.
    pub fn acknowledge(&mut self)
        requires
            old(self).wf(),
        ensures
            final(self).wf(),
            final(self).cpu@ == (CpuView {
                bus: spec_acknowledge(
                    old(self).cpu@.bus,
                    old(self).tohost_addr,
                    old(self).fromhost_addr,
                ),
                ..old(self).cpu@
            }),
            final(self).tohost_addr == old(self).tohost_addr,
            final(self).fromhost_addr == old(self).fromhost_addr,
            final(self).break_point == old(self).break_point,
            final(self).exit_code == old(self).exit_code,
    {
        match (self.tohost_addr, self.fromhost_addr) {
            (Some(tohost), Some(fromhost)) => {
                let _ = self.cpu.bus.store64(tohost, 0);
                let _ = self.cpu.bus.store64(fromhost, 1);
            },
            _ => {},
        }
    }
}

/// A request whose first words cannot be read cannot be read whole.
proof fn lemma_request_fails(bus: BusView, pointer: u64, n: nat)
    requires
        n <= REQUEST_WORDS,
        spec_request(bus, pointer, n) is None,
    ensures
        spec_request(bus, pointer, REQUEST_WORDS as nat) is None,
    decreases REQUEST_WORDS - n,
{
    if n < REQUEST_WORDS {
        lemma_request_fails(bus, pointer, n + 1);
    }
}

/// The address space after a store that is dropped where it fails.
pub open spec fn spec_store_or_skip(bus: BusView, addr: u64, data: u64) -> BusView {
    match bus.store(addr, data, TransAlign::Size64) {
        Ok(after) => after,
        Err(_) => bus,
    }
}

/// The address space after a request is acknowledged.
pub open spec fn spec_acknowledge(bus: BusView, tohost: Option<u64>, fromhost: Option<u64>)
    -> BusView {
    if tohost is Some && fromhost is Some {
        spec_store_or_skip(spec_store_or_skip(bus, tohost->Some_0, 0), fromhost->Some_0, 1)
    } else {
        bus
    }
}

} // verus!
