//! Records that the kernel shares with user programs: page table entries and
//! page reference counts.

use vstd::prelude::*;
use crate::layout::{PteFlags, PTE_FLAGS_ALL};

verus! {

/// A page table entry: a physical frame number and, in the low twelve bits,
/// its flags.
#[derive(Clone, Copy, Debug, PartialEq, Eq, Structural)]
pub struct Pte(pub usize);

/// The kernel's record of a physical page, of which user programs read the
/// reference count.
#[derive(Clone, Copy, Debug, PartialEq, Eq, Structural)]
pub struct PageRc {
    pub ref_count: u16,
}

impl Pte {
    /// The flags of the entry: its low twelve bits, keeping those that name a flag.
    pub fn flags(self) -> (r: PteFlags)
        ensures
            r@ == self.0 & PTE_FLAGS_ALL,
    {
        let v = self.0;
        assert((v & 0xfffusize) & 0xfc3usize == v & 0xfc3usize) by (bit_vector);
        PteFlags::from_bits_truncate(v & 0xFFF)
    }
}

} // verus!
