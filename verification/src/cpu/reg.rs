//! The general-purpose register file.

use vstd::prelude::*;
use crate::bits::{low32, truncate32};
use crate::Isa;

verus! {

/// A word cut to the register width: its low 32 bits on RV32, the whole word
/// on RV64.
pub open spec fn spec_fix2regsz(x: u64, isa: Isa) -> u64 {
    match isa {
        Isa::Rv32 => low32(x),
        Isa::Rv64 => x,
    }
}

/// Cuts a word to the register width.
#[verifier::when_used_as_spec(spec_fix2regsz)]
pub fn fix2regsz(x: u64, isa: Isa) -> (r: u64)
    ensures
        r == spec_fix2regsz(x, isa),
{
    match isa {
        Isa::Rv32 => truncate32(x),
        Isa::Rv64 => x,
    }
}

/// Thirty-two registers of the ISA's width; register 0 is hard-wired to zero.
pub struct Register {
    pub regs: [u64; 32],
    pub isa: Isa,
}

impl Register {
    /// What each register reads as.
    pub open spec fn view(&self) -> Seq<u64> {
        Seq::new(
            32,
            |i: int|
                if i == 0 {
                    0
                } else {
                    spec_fix2regsz(self.regs@[i], self.isa)
                },
        )
    }

    /// A register file whose registers all read as zero.
    pub fn new(isa: Isa) -> (r: Register)
        ensures
            r.isa == isa,
            r@ == Seq::new(32, |i: int| 0u64),
    {
        let r = Register { regs: [0; 32], isa };
        assert(r@ =~= Seq::new(32, |i: int| 0u64));
        r
    }

    /// The value of register `src`; register 0 reads as zero whatever was
    /// written to it.
    pub fn read(&self, src: Option<usize>) -> (r: u64)
        requires
            src is Some,
            src->Some_0 < 32,
        ensures
            r == self@[src->Some_0 as int],
            src == Some(0usize) ==> r == 0,
            r == spec_fix2regsz(r, self.isa),
    {
        let src = src.unwrap();
        if src == 0 {
            0
        } else {
            fix2regsz(self.regs[src], self.isa)
        }
    }

    /// Sets register `dist` to `src` cut to the register width; a write to
    /// register 0 is discarded.
    pub fn write(&mut self, dist: Option<usize>, src: u64)
        requires
            dist is Some,
            dist->Some_0 < 32,
        ensures
            final(self).isa == old(self).isa,
            final(self)@ == reg_write(old(self)@, dist->Some_0 as int, src, old(self).isa),
            final(self)@[0] == 0,
    {
        let dist = dist.unwrap();
        if dist != 0 {
            self.regs[dist] = fix2regsz(src, self.isa);
        }
        assert(self@ =~= reg_write(old(self)@, dist as int, src, old(self).isa));
    }
}

/// The register file's view after `src` is written to register `dist`.
pub open spec fn reg_write(regs: Seq<u64>, dist: int, src: u64, isa: Isa) -> Seq<u64> {
    if dist == 0 {
        regs
    } else {
        regs.update(dist, spec_fix2regsz(src, isa))
    }
}

/// Register 0 reads as zero in every register file, and no write changes
/// that.
pub proof fn lemma_zero_register(r: Register, dist: int, src: u64)
    requires
        0 <= dist < 32,
    ensures
        r@[0] == 0,
        reg_write(r@, dist, src, r.isa)[0] == 0,
{
}

} // verus!
