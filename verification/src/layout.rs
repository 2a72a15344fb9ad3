//! Virtual memory layout of a user address space and virtual addresses.

use vstd::prelude::*;

verus! {

/// Maximum number of Address Space Identifiers (ASIDs).
pub const NASID: usize = 256;

/// Bytes per page.
pub const PAGE_SIZE: usize = 4096;

/// Bytes mapped by a page table entry, 4 KiB.
pub const PTMAP: usize = 4096;

/// Bytes mapped by a page directory entry, 4 MiB.
pub const PDMAP: usize = 0x0040_0000;

/// Page shift value.
pub const PGSHIFT: usize = 12;

/// Page directory shift value.
pub const PDSHIFT: usize = 22;

/// Shift of the hardware flags inside a page table entry.
pub const PTE_HARDFLAG_SHIFT: usize = 6;

/// Top of the user address space.
pub const ULIM: usize = 0x8000_0000;

/// Where the page tables of the current address space are mapped (`ULIM - PDMAP`).
pub const UVPT: usize = 0x7fc0_0000;

/// Where the kernel's page records are mapped (`UVPT - PDMAP`).
pub const UPAGES: usize = 0x7f80_0000;

/// Where the kernel's environment records are mapped (`UPAGES - PDMAP`).
pub const UENVS: usize = 0x7f40_0000;

/// Top of the memory a user program may map (`UENVS`).
pub const UTOP: usize = 0x7f40_0000;

/// Top of the exception stack (`UTOP`).
pub const UXSTACKTOP: usize = 0x7f40_0000;

/// Top of the normal user stack (`UTOP - 2 * PTMAP`).
pub const USTACKTOP: usize = 0x7f3f_e000;

/// Start of the program text (`PDMAP`).
pub const UTEXT: usize = 0x0040_0000;

/// Scratch page used while resolving a copy-on-write fault (`UTEXT - PTMAP`).
pub const UCOW: usize = 0x003f_f000;

/// Scratch page below `UCOW` (`UCOW - PTMAP`).
pub const UTEMP: usize = 0x003f_e000;

/// Address of the page table entries as seen through `UVPT`.
pub const VPT_ADDR: usize = 0x7fc0_0000;

/// Address of the page directory entries as seen through `UVPT`
/// (`UVPT + (pdx(UVPT) << PGSHIFT)`).
pub const VPD_ADDR: usize = 0x7fdf_f000;

/// Address of the environment records (`UENVS`).
pub const ENVS_ADDR: usize = 0x7f40_0000;

/// Address of the page records (`UPAGES`).
pub const PAGES_ADDR: usize = 0x7f80_0000;

/// Page directory index of an address: bits 22 to 31.
pub open spec fn pdx_of(va: usize) -> nat {
    ((va as nat) / 0x40_0000) % 1024
}

/// Page table index of an address: bits 12 to 21.
pub open spec fn ptx_of(va: usize) -> nat {
    ((va as nat) / 0x1000) % 1024
}

/// Offset of an address inside its page.
pub open spec fn page_offset(va: usize) -> nat {
    (va as nat) % 0x1000
}

/// A virtual address.
#[derive(Clone, Copy, Debug, PartialEq, Eq, Structural, PartialOrd, Ord)]
pub struct VA(pub usize);

impl VA {
    /// Page Directory Index
    pub fn pdx(self) -> (r: usize)
        ensures
            r == pdx_of(self.0),
            r < 1024,
    {
        let v = self.0;
        assert((v >> 22usize) & 0x3ffusize == (v / 0x40_0000usize) % 1024usize) by (bit_vector);
        (v >> PDSHIFT) & 0x3ff
    }

    /// Page Table Index
    pub fn ptx(self) -> (r: usize)
        ensures
            r == ptx_of(self.0),
            r < 1024,
    {
        let v = self.0;
        assert((v >> 12usize) & 0x3ffusize == (v / 0x1000usize) % 1024usize) by (bit_vector);
        (v >> PGSHIFT) & 0x3ff
    }

    /// Get the page table entry address from the virtual address: the address
    /// with its offset inside the page cleared.
    pub fn pte_addr(self) -> (r: Self)
        ensures
            r.0 == self.0 - page_offset(self.0),
    {
        let v = self.0;
        assert(v & !0xfffusize == v - v % 0x1000usize) by (bit_vector);
        VA(v & !0xFFF)
    }
}

/// The addresses of the layout follow from one another: each region lies
/// one page-directory span (or one or two pages) below the one above it, and
/// the page directory seen through `UVPT` lies at the page `pdx(UVPT)` of it.
pub proof fn lemma_layout()
    ensures
        UVPT == ULIM - PDMAP,
        UPAGES == UVPT - PDMAP,
        UENVS == UPAGES - PDMAP,
        UTOP == UENVS,
        UXSTACKTOP == UTOP,
        USTACKTOP == UTOP - 2 * PTMAP,
        UTEXT == PDMAP,
        UCOW == UTEXT - PTMAP,
        UTEMP == UCOW - PTMAP,
        PTMAP == PAGE_SIZE,
        PAGE_SIZE == 1usize << PGSHIFT,
        PDMAP == 1usize << PDSHIFT,
        VPT_ADDR == UVPT,
        VPD_ADDR == UVPT + pdx_of(UVPT) * PAGE_SIZE,
        ENVS_ADDR == UENVS,
        PAGES_ADDR == UPAGES,
        USTACKTOP % PAGE_SIZE == 0,
{
    assert(1usize << 12usize == 4096usize) by (bit_vector);
    assert(1usize << 22usize == 0x40_0000usize) by (bit_vector);
}

/// A 32-bit address is its page directory index, its page table index and its
/// offset inside the page, put together.
pub proof fn lemma_va_parts(va: usize)
    requires
        va <= 0xffff_ffff,
    ensures
        va == pdx_of(va) * 0x40_0000 + ptx_of(va) * 0x1000 + page_offset(va),
{
    let v = va as u64;
    assert(v == ((v / 0x40_0000u64) % 1024u64) * 0x40_0000u64 + ((v / 0x1000u64) % 1024u64) * 0x1000u64 + v % 0x1000u64) by (bit_vector)
        requires
            v <= 0xffff_ffffu64,
    ;
}

/// The start of the page of `va` lies in the same page table slot as `va`,
/// on a page boundary.
pub proof fn lemma_page_start(va: usize)
    ensures
        page_offset((va - page_offset(va)) as usize) == 0,
        pdx_of((va - page_offset(va)) as usize) == pdx_of(va),
        ptx_of((va - page_offset(va)) as usize) == ptx_of(va),
{
    let v = va as u64;
    let b: u64 = (v - v % 0x1000u64) as u64;
    assert(b % 0x1000u64 == 0 && b / 0x40_0000u64 == v / 0x40_0000u64 && b / 0x1000u64 == v / 0x1000u64) by (bit_vector)
        requires
            b == v - v % 0x1000u64,
    ;
}

/// The bits that name a flag of a page table entry: `G`, `V`, `D`, `C0`,
/// `C1`, `C2`, `COW` and `SHARED`.
pub const PTE_FLAGS_ALL: usize = 0xfc3;

/// Flags of a page table entry. Only bits that name a flag are ever set.
#[derive(Clone, Copy, Debug, PartialEq, Eq, Structural)]
pub struct PteFlags {
    bits: usize,
}

impl View for PteFlags {
    type V = usize;

    /// The flags as a bit pattern.
    closed spec fn view(&self) -> usize {
        self.bits
    }
}

impl PteFlags {
    #[verifier::type_invariant]
    closed spec fn only_known_bits(self) -> bool {
        self.bits & PTE_FLAGS_ALL == self.bits
    }

    /// Global mapping; the six hardware bits start here, as stored in `cp0.entry_lo`.
    #[allow(non_snake_case)]
    pub fn G() -> (r: Self)
        ensures
            r@ == 0x40,
    {
        assert(0x40usize & 0xfc3usize == 0x40usize) by (bit_vector);
        PteFlags { bits: 0x40 }
    }

    /// Valid.
    #[allow(non_snake_case)]
    pub fn V() -> (r: Self)
        ensures
            r@ == 0x80,
    {
        assert(0x80usize & 0xfc3usize == 0x80usize) by (bit_vector);
        PteFlags { bits: 0x80 }
    }

    /// Dirty: the page may be written.
    #[allow(non_snake_case)]
    pub fn D() -> (r: Self)
        ensures
            r@ == 0x100,
    {
        assert(0x100usize & 0xfc3usize == 0x100usize) by (bit_vector);
        PteFlags { bits: 0x100 }
    }

    /// Cache attribute bit 0 (only used internally).
    #[allow(non_snake_case)]
    pub fn C0() -> (r: Self)
        ensures
            r@ == 0x200,
    {
        assert(0x200usize & 0xfc3usize == 0x200usize) by (bit_vector);
        PteFlags { bits: 0x200 }
    }

    /// Cache attribute bit 1 (only used internally).
    #[allow(non_snake_case)]
    pub fn C1() -> (r: Self)
        ensures
            r@ == 0x400,
    {
        assert(0x400usize & 0xfc3usize == 0x400usize) by (bit_vector);
        PteFlags { bits: 0x400 }
    }

    /// Cache attribute bit 2 (only used internally).
    #[allow(non_snake_case)]
    pub fn C2() -> (r: Self)
        ensures
            r@ == 0x800,
    {
        assert(0x800usize & 0xfc3usize == 0x800usize) by (bit_vector);
        PteFlags { bits: 0x800 }
    }

    /// Cacheable: `C0 | C1`.
    #[allow(non_snake_case)]
    pub fn CACHEABLE() -> (r: Self)
        ensures
            r@ == 0x600,
    {
        assert(0x200usize | 0x400usize == 0x600usize) by (bit_vector);
        assert(0x600usize & 0xfc3usize == 0x600usize) by (bit_vector);
        PteFlags { bits: 0x200 | 0x400 }
    }

    /// Uncached: `C0 & !C1`.
    #[allow(non_snake_case)]
    pub fn UNCACHED() -> (r: Self)
        ensures
            r@ == 0x200,
    {
        assert(0x200usize & !0x400usize == 0x200usize) by (bit_vector);
        assert(0x200usize & 0xfc3usize == 0x200usize) by (bit_vector);
        PteFlags { bits: 0x200 & !0x400 }
    }

    /// Copy-on-write (controlled by software).
    #[allow(non_snake_case)]
    pub fn COW() -> (r: Self)
        ensures
            r@ == 0x1,
    {
        assert(0x1usize & 0xfc3usize == 0x1usize) by (bit_vector);
        PteFlags { bits: 0x1 }
    }

    /// Shared between parent and child after `fork` (controlled by software).
    #[allow(non_snake_case)]
    pub fn SHARED() -> (r: Self)
        ensures
            r@ == 0x2,
    {
        assert(0x2usize & 0xfc3usize == 0x2usize) by (bit_vector);
        PteFlags { bits: 0x2 }
    }

    /// No flag set.
    pub fn empty() -> (r: Self)
        ensures
            r@ == 0,
    {
        assert(0usize & 0xfc3usize == 0usize) by (bit_vector);
        PteFlags { bits: 0 }
    }

    /// Every flag set.
    pub fn all() -> (r: Self)
        ensures
            r@ == PTE_FLAGS_ALL,
    {
        assert(0xfc3usize & 0xfc3usize == 0xfc3usize) by (bit_vector);
        PteFlags { bits: PTE_FLAGS_ALL }
    }

    /// The flags named in `bits`; bits that name no flag are dropped.
    pub fn from_bits_truncate(bits: usize) -> (r: Self)
        ensures
            r@ == bits & PTE_FLAGS_ALL,
    {
        assert((bits & 0xfc3usize) & 0xfc3usize == bits & 0xfc3usize) by (bit_vector);
        PteFlags { bits: bits & PTE_FLAGS_ALL }
    }

    /// The flags as a bit pattern.
    pub fn bits(&self) -> (r: usize)
        ensures
            r == self@,
            r & PTE_FLAGS_ALL == r,
    {
        proof {
            use_type_invariant(self);
        }
        self.bits
    }

    /// Whether every flag of `other` is set in `self`.
    pub fn contains(&self, other: Self) -> (r: bool)
        ensures
            r == (self@ & other@ == other@),
    {
        self.bits & other.bits == other.bits
    }

    /// Sets the flags of `other` (the `|=` of the flags).
    pub fn insert(&mut self, other: Self)
        ensures
            final(self)@ == old(self)@ | other@,
    {
        proof {
            use_type_invariant(&*self);
            use_type_invariant(&other);
        }
        let a = self.bits;
        let b = other.bits;
        assert((a | b) & 0xfc3usize == a | b) by (bit_vector)
            requires
                a & 0xfc3usize == a,
                b & 0xfc3usize == b,
        ;
        self.bits = a | b;
    }

    /// Clears the flags of `other` (the `&= !` of the flags).
    pub fn remove(&mut self, other: Self)
        ensures
            final(self)@ == old(self)@ & !other@,
    {
        proof {
            use_type_invariant(&*self);
        }
        let a = self.bits;
        let b = other.bits;
        assert((a & !b) & 0xfc3usize == a & !b) by (bit_vector)
            requires
                a & 0xfc3usize == a,
        ;
        self.bits = a & !b;
    }
}

/// After `insert(g)` the flags contain `g`; after `remove(g)` they share no
/// flag with `g`; neither touches the other flags.
pub proof fn lemma_insert_remove(f: PteFlags, g: PteFlags)
    ensures
        (f@ | g@) & g@ == g@,
        ((f@ & !g@) & g@) == 0,
        (f@ | g@) & !g@ == f@ & !g@,
        (f@ & !g@) | (f@ & g@) == f@,
{
    let a = f@;
    let b = g@;
    assert((a | b) & b == b) by (bit_vector);
    assert((a & !b) & b == 0) by (bit_vector);
    assert((a | b) & !b == a & !b) by (bit_vector);
    assert((a & !b) | (a & b) == a) by (bit_vector);
}

} // verus!
