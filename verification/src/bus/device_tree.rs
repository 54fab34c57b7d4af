//! Placing the device tree blob in the mask ROM.

use vstd::prelude::*;
use super::mrom::{Mrom, MROM_MAX_SIZE};

verus! {

impl Mrom {
    /// Whether a blob of `len` bytes still fits behind the ROM's content.
    pub open spec fn spec_dtb_fits(&self, len: nat) -> bool {
        self@.len() + len <= MROM_MAX_SIZE
    }

    /// Tests whether a blob of `len` bytes still fits behind the ROM's content.
    pub fn dtb_fits(&self, len: usize) -> (r: bool)
        requires
            self.inv(),
        ensures
            r == self.spec_dtb_fits(len as nat),
    {
        len <= MROM_MAX_SIZE - self.mrom.len()
    }

    /// Appends the device tree blob to the ROM, so that it follows the reset
    /// vector, and grows the region to match.
    pub fn load_dtb(&mut self, dtb: &Vec<u8>)
        requires
            old(self).inv(),
            old(self).spec_dtb_fits(dtb@.len()),
        ensures
            final(self).inv(),
            final(self)@ == old(self)@ + dtb@,
    {
        let mut k: usize = 0;
        while k < dtb.len()
            invariant
                k <= dtb@.len(),
                self.base_addr == old(self).base_addr,
                self.mrom@ == old(self).mrom@ + dtb@.subrange(0, k as int),
            decreases dtb@.len() - k,
        {
            self.mrom.push(dtb[k]);
            k += 1;
            assert(self.mrom@ =~= old(self).mrom@ + dtb@.subrange(0, k as int));
        }
        assert(dtb@.subrange(0, dtb@.len() as int) =~= dtb@);
        self.set_size();
    }
}

} // verus!
