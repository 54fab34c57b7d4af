//! Main memory: a flat little-endian byte array that the program image is
//! loaded into.

use vstd::prelude::*;
use super::le;
use super::{plain_load, plain_store, Device};
use crate::cpu::trap::{Fault, TransAlign};
use crate::elfload::{ElfLoader, ProgramHeader};

verus! {

/// Size of main memory: 128 MiB.
pub const DRAM_SIZE: usize = 0x800_0000;

/// Main memory.
pub struct Dram {
    pub dram: Vec<u8>,
    pub base_addr: u64,
    pub size: usize,
}

/// Memory `mem` after the first `len` bytes of segment `s` are copied from
/// the image file to their place relative to `base`.
pub open spec fn place_bytes(mem: Seq<u8>, file: Seq<u8>, s: ProgramHeader, base: u64, len: int)
    -> Seq<u8> {
    Seq::new(
        mem.len(),
        |j: int|
            if s.p_paddr - base <= j < s.p_paddr - base + len {
                file[j - (s.p_paddr - base) + s.p_offset]
            } else {
                mem[j]
            },
    )
}

/// Memory after the first `n` program headers are processed in order: each
/// loadable segment's file bytes overwrite what was there.
pub open spec fn place_segments(
    mem: Seq<u8>,
    file: Seq<u8>,
    headers: Seq<ProgramHeader>,
    base: u64,
    n: int,
) -> Seq<u8>
    decreases n,
{
    if n <= 0 {
        mem
    } else {
        let prev = place_segments(mem, file, headers, base, n - 1);
        let s = headers[n - 1];
        if s.spec_is_loadable() {
            place_bytes(prev, file, s, base, s.p_filesz as int)
        } else {
            prev
        }
    }
}

impl Dram {
    /// The byte array has the recorded size and ends inside the address space.
    pub open spec fn inv(&self) -> bool {
        &&& self.dram@.len() == self.size
        &&& self.base_addr + self.size <= u64::MAX
    }

    /// The memory's content.
    pub open spec fn view(&self) -> Seq<u8> {
        self.dram@
    }

    /// A memory of `size` zero bytes at `base_addr`.
    pub fn blank(base_addr: u64, size: usize) -> (r: Dram)
        requires
            base_addr + size <= u64::MAX,
        ensures
            r.inv(),
            r.base_addr == base_addr,
            r@ == Seq::new(size as nat, |j: int| 0u8),
    {
        let dram: Vec<u8> = vec![0u8; size];
        assert(dram@ =~= Seq::new(size as nat, |j: int| 0u8));
        Dram { dram, base_addr, size }
    }

    /// Main memory with the image's loadable segments in place. Memory starts
    /// at the image's entry point; a segment lands at its physical address.
    pub fn new(loader: &ElfLoader) -> (r: Dram)
        requires
            loader.spec_fits(DRAM_SIZE as nat),
            loader.entry + DRAM_SIZE <= u64::MAX,
        ensures
            r.inv(),
            r.base_addr == loader.entry,
            r@ == place_segments(
                Seq::new(DRAM_SIZE as nat, |j: int| 0u8),
                loader.mem_data@,
                loader.prog_headers@,
                loader.entry,
                loader.prog_headers@.len() as int,
            ),
    {
        let virt_entry = loader.get_entry_point();
        let mut new_dram: Vec<u8> = vec![0u8; DRAM_SIZE];
        assert(new_dram@ =~= Seq::new(DRAM_SIZE as nat, |j: int| 0u8));
        let ghost zero = new_dram@;
        let mut k: usize = 0;
        while k < loader.prog_headers.len()
            invariant
                k <= loader.prog_headers@.len(),
                virt_entry == loader.entry,
                loader.spec_fits(DRAM_SIZE as nat),
                new_dram@.len() == DRAM_SIZE,
                new_dram@ == place_segments(
                    zero,
                    loader.mem_data@,
                    loader.prog_headers@,
                    loader.entry,
                    k as int,
                ),
            decreases loader.prog_headers@.len() - k,
        {
            let segment = &loader.prog_headers[k];
            let ghost before = new_dram@;
            assert(loader.segment_fits(loader.prog_headers@[k as int], loader.entry, DRAM_SIZE as nat));
            if segment.is_loadable() {
                assert(loader.mem_data@.len() == loader.mem_data.len());
                let dram_start = (segment.p_paddr - virt_entry) as usize;
                let mmap_start = segment.p_offset as usize;
                let filesz = segment.p_filesz as usize;
                let mut j: usize = 0;
                while j < filesz
                    invariant
                        j <= filesz,
                        filesz == segment.p_filesz,
                        dram_start == segment.p_paddr - loader.entry,
                        mmap_start == segment.p_offset,
                        dram_start + filesz <= DRAM_SIZE,
                        mmap_start + filesz <= loader.mem_data.len(),
                        new_dram@.len() == DRAM_SIZE,
                        before.len() == DRAM_SIZE,
                        new_dram@ == place_bytes(
                            before,
                            loader.mem_data@,
                            *segment,
                            loader.entry,
                            j as int,
                        ),
                    decreases filesz - j,
                {
                    new_dram.set(dram_start + j, loader.mem_data[mmap_start + j]);
                    j += 1;
                    assert(new_dram@ =~= place_bytes(
                        before,
                        loader.mem_data@,
                        *segment,
                        loader.entry,
                        j as int,
                    ));
                }
            } else {
                assert(new_dram@ == before);
            }
            k += 1;
        }
        Dram { dram: new_dram, base_addr: virt_entry, size: DRAM_SIZE }
    }
}

impl Device for Dram {
    open spec fn wf(&self) -> bool {
        self.inv()
    }

    open spec fn base(&self) -> u64 {
        self.base_addr
    }

    open spec fn bytes(&self) -> Seq<u8> {
        self.dram@
    }

    open spec fn load_spec(&self, addr: u64, size: TransAlign, signed: bool) -> Result<u64, Fault> {
        plain_load(self.dram@, self.base_addr, addr, size, signed)
    }

    open spec fn after_load8(&self, addr: u64) -> Seq<u8> {
        self.dram@
    }

    open spec fn store_spec(&self, addr: u64, data: u64, size: TransAlign) -> Result<Seq<u8>, Fault> {
        plain_store(self.dram@, self.base_addr, addr, data, size)
    }

    // is addr in device address space
    fn in_range(&self, addr: u64) -> (r: bool) {
        self.base_addr <= addr && addr - self.base_addr < self.size as u64
    }

    // address to raw index
    fn addr2index(&self, addr: u64) -> (r: usize) {
        (addr - self.base_addr) as usize
    }

    fn store8(&mut self, addr: u64, data: u64) -> (r: Result<(), Fault>) {
        let index = self.addr2index(addr);
        le::write(&mut self.dram, index, TransAlign::Size8, data);
        Ok(())
    }

    fn store16(&mut self, addr: u64, data: u64) -> (r: Result<(), Fault>) {
        let index = self.addr2index(addr);
        le::write(&mut self.dram, index, TransAlign::Size16, data);
        Ok(())
    }

    fn store32(&mut self, addr: u64, data: u64) -> (r: Result<(), Fault>) {
        let index = self.addr2index(addr);
        le::write(&mut self.dram, index, TransAlign::Size32, data);
        Ok(())
    }

    fn store64(&mut self, addr: u64, data: u64) -> (r: Result<(), Fault>) {
        let index = self.addr2index(addr);
        le::write(&mut self.dram, index, TransAlign::Size64, data);
        Ok(())
    }

    fn load8(&mut self, addr: u64) -> (r: Result<u64, Fault>) {
        let index = self.addr2index(addr);
        Ok(le::read(&self.dram, index, TransAlign::Size8, true))
    }

    fn load16(&self, addr: u64) -> (r: Result<u64, Fault>) {
        let index = self.addr2index(addr);
        Ok(le::read(&self.dram, index, TransAlign::Size16, true))
    }

    fn load32(&self, addr: u64) -> (r: Result<u64, Fault>) {
        let index = self.addr2index(addr);
        Ok(le::read(&self.dram, index, TransAlign::Size32, true))
    }

    fn load64(&self, addr: u64) -> (r: Result<u64, Fault>) {
        let index = self.addr2index(addr);
        Ok(le::read(&self.dram, index, TransAlign::Size64, true))
    }

    fn load_u8(&self, addr: u64) -> (r: Result<u64, Fault>) {
        let index = self.addr2index(addr);
        Ok(le::read(&self.dram, index, TransAlign::Size8, false))
    }

    fn load_u16(&self, addr: u64) -> (r: Result<u64, Fault>) {
        let index = self.addr2index(addr);
        Ok(le::read(&self.dram, index, TransAlign::Size16, false))
    }

    fn load_u32(&self, addr: u64) -> (r: Result<u64, Fault>) {
        let index = self.addr2index(addr);
        Ok(le::read(&self.dram, index, TransAlign::Size32, false))
    }
}

} // verus!
