//! The program image as the core receives it: entry point, program headers
//! and the file's bytes, already read and parsed by the host.

use vstd::prelude::*;

verus! {

/// Segment type of a loadable program header.
pub const PT_LOAD: u32 = 1;

/// One program header of the image.
#[derive(Clone, Copy, Debug)]
pub struct ProgramHeader {
    pub p_type: u32,
    pub p_flags: u32,
    pub p_offset: u64,
    pub p_paddr: u64,
    pub p_filesz: u64,
    pub p_memsz: u64,
}

impl ProgramHeader {
    /// Whether the segment is to be copied into memory.
    pub open spec fn spec_is_loadable(&self) -> bool {
        self.p_type == PT_LOAD
    }

    /// Whether the segment is to be copied into memory.
    #[verifier::when_used_as_spec(spec_is_loadable)]
    pub fn is_loadable(&self) -> (r: bool)
        ensures
            r == self.spec_is_loadable(),
    {
        self.p_type == PT_LOAD
    }
}

/// A parsed program image.
#[derive(Debug)]
pub struct ElfLoader {
    pub entry: u64,
    pub prog_headers: Vec<ProgramHeader>,
    pub mem_data: Vec<u8>,
    pub tohost: Option<u64>,
    pub fromhost: Option<u64>,
}

impl ElfLoader {
    /// Whether segment `s` lies inside the image file and, placed relative to
    /// `base`, inside a memory of `size` bytes.
    pub open spec fn segment_fits(&self, s: ProgramHeader, base: u64, size: nat) -> bool {
        s.spec_is_loadable() ==> {
            &&& s.p_offset + s.p_filesz <= self.mem_data@.len()
            &&& base <= s.p_paddr
            &&& s.p_paddr - base + s.p_filesz <= size
        }
    }

    /// Whether every loadable segment fits a memory of `size` bytes that
    /// starts at the entry point.
    pub open spec fn spec_fits(&self, size: nat) -> bool {
        forall|k: int|
            0 <= k < self.prog_headers@.len() ==> self.segment_fits(
                #[trigger] self.prog_headers@[k],
                self.entry,
                size,
            )
    }

    /// The address at which the program starts.
    pub fn get_entry_point(&self) -> (r: u64)
        ensures
            r == self.entry,
    {
        self.entry
    }

    /// The addresses of the `tohost` and `fromhost` symbols, where the image
    /// has them.
    pub fn get_host_addr(&self) -> (r: (Option<u64>, Option<u64>))
        ensures
            r == (self.tohost, self.fromhost),
    {
        (self.tohost, self.fromhost)
    }

    /// Tests whether the image can be loaded into a memory of `size` bytes.
    pub fn fits(&self, size: usize) -> (r: bool)
        ensures
            r == self.spec_fits(size as nat),
    {
        let mut k: usize = 0;
        while k < self.prog_headers.len()
            invariant
                k <= self.prog_headers@.len(),
                forall|j: int|
                    0 <= j < k ==> self.segment_fits(
                        #[trigger] self.prog_headers@[j],
                        self.entry,
                        size as nat,
                    ),
            decreases self.prog_headers@.len() - k,
        {
            let s = &self.prog_headers[k];
            if s.is_loadable() {
                let file_len: u64 = self.mem_data.len() as u64;
                let in_file = s.p_filesz <= file_len && s.p_offset <= file_len - s.p_filesz;
                let in_mem = s.p_paddr >= self.entry && s.p_filesz <= size as u64 && s.p_paddr
                    - self.entry <= size as u64 - s.p_filesz;
                if !(in_file && in_mem) {
                    return false;
                }
            }
            k += 1;
        }
        true
    }
}

} // verus!
