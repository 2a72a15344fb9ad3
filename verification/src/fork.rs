//! Copy-on-write `fork`: how a page is shared with the child, how a write
//! fault on a shared page is resolved, and the sequence of steps of `fork`
//! itself, each step decided here and carried out by the caller.

use vstd::prelude::*;
use crate::layout::{VA, PteFlags, PTE_FLAGS_ALL, PAGE_SIZE, PDMAP, PGSHIFT, PDSHIFT, UCOW, USTACKTOP};
use crate::page::Pte;
use crate::env::EnvStatus;
use crate::syscall::{
    SyscallRequest, Syscall, syscall_mem_map, syscall_mem_alloc, syscall_mem_unmap,
    syscall_set_trapframe, syscall_exofork, syscall_set_tlb_mod_entry, syscall_set_env_status,
};

verus! {

/// Bit of the `V` (valid) flag.
pub const PTE_V: usize = 0x80;

/// Bit of the `D` (dirty, writable) flag.
pub const PTE_D: usize = 0x100;

/// Bit of the `COW` (copy-on-write) flag.
pub const PTE_COW: usize = 0x1;

/// Bit of the `SHARED` flag.
pub const PTE_SHARED: usize = 0x2;

/// Whether a page with flags `bits` is private and writable, and so must
/// become copy-on-write in both the parent and the child.
pub open spec fn is_private_writable(bits: usize) -> bool {
    &&& bits & PTE_D == PTE_D
    &&& bits & PTE_COW != PTE_COW
    &&& bits & PTE_SHARED != PTE_SHARED
}

/// The flags with which a page with flags `bits` is mapped in the child (and,
/// when it changes, again in the parent).
pub open spec fn dup_perm(bits: usize) -> usize {
    if is_private_writable(bits) {
        (bits | PTE_COW) & !PTE_D
    } else {
        bits
    }
}

/// The address of virtual page number `vpn`, as the kernel receives it.
pub open spec fn vpn_word(vpn: usize) -> u32 {
    (vpn << 12usize) as u32
}

/// Whether `reqs` are the calls that share page `vpn`, whose entry is `pte`,
/// with environment `envid`: a mapping in the child with `dup_perm` of its
/// flags, then, where the page was private and writable, the same mapping
/// again in the parent.
pub open spec fn dup_requests(reqs: Seq<SyscallRequest>, envid: usize, vpn: usize, pte: Pte) -> bool {
    let bits = pte.0 & PTE_FLAGS_ALL;
    let perm = dup_perm(bits) as u32;
    let addr = vpn_word(vpn);
    &&& reqs.len() == (if is_private_writable(bits) { 2int } else { 1int })
    &&& reqs[0].denotes(Syscall::MemMap, seq![0, addr, envid as u32, addr, perm])
    &&& reqs.len() == 2 ==> reqs[1].denotes(Syscall::MemMap, seq![0, addr, 0, addr, perm])
}

/// The calls that share page `vpn`, whose entry is `pte`, with the child
/// environment `envid`.
pub fn duppage(envid: usize, vpn: usize, pte: Pte) -> (r: Vec<SyscallRequest>)
    ensures
        dup_requests(r@, envid, vpn, pte),
{
    let addr = VA(vpn << PGSHIFT);
    let mut perm = pte.flags();
    let b0 = perm.bits();
    let mut flag = false;
    if (perm.contains(PteFlags::D()) && !perm.contains(PteFlags::COW())) && !perm.contains(
        PteFlags::SHARED(),
    ) {
        perm.insert(PteFlags::COW());
        perm.remove(PteFlags::D());
        flag = true;
    }
    let p = perm.bits() as u32;
    let mut reqs: Vec<SyscallRequest> = Vec::new();
    reqs.push(syscall_mem_map(0, addr, envid, addr, p));
    if flag {
        reqs.push(syscall_mem_map(0, addr, 0, addr, p));
    }
    reqs
}

/// After `duppage` no page is private and writable in parent or child: a
/// page that keeps `D` is shared or copy-on-write. Every flag other than `D`
/// and `COW` is kept, and a page that was not private and writable keeps
/// all its flags.
pub proof fn lemma_dup_perm(bits: usize)
    ensures
        !is_private_writable(dup_perm(bits)),
        dup_perm(bits) & !(PTE_D | PTE_COW) == bits & !(PTE_D | PTE_COW),
        !is_private_writable(bits) ==> dup_perm(bits) == bits,
        is_private_writable(bits) ==> dup_perm(bits) & PTE_COW == PTE_COW && dup_perm(bits) & PTE_D == 0,
{
    assert(bits & 0x100usize == 0x100usize && bits & 1usize != 1usize && bits & 2usize != 2usize
        ==> {
        let p = (bits | 1usize) & !0x100usize;
        &&& p & 1usize == 1usize
        &&& p & 0x100usize == 0usize
        &&& p & !(0x100usize | 1usize) == bits & !(0x100usize | 1usize)
    }) by (bit_vector);
}

/// What resolving a write fault on a copy-on-write page does: allocate a
/// fresh page at `UCOW` with the page's flags made writable, copy the page
/// there, map it over the faulting address, unmap `UCOW`, and resume with the
/// trap frame.
pub struct CowPlan {
    /// The flags of the fresh page: those of the old one, without `COW`, with `D`.
    pub perm: PteFlags,
    pub alloc: SyscallRequest,
    /// Where the copied page starts: the faulting address rounded down to a page.
    pub copy_src: usize,
    pub copy_dst: usize,
    pub copy_len: usize,
    pub map: SyscallRequest,
    pub unmap: SyscallRequest,
    pub resume: SyscallRequest,
}

/// The flags of the page that replaces a copy-on-write page with flags `bits`.
pub open spec fn cow_perm(bits: usize) -> usize {
    (bits & !PTE_COW) | PTE_D
}

/// Resolving the fault gives a page that is writable and not copy-on-write,
/// with every other flag kept; and a private writable page that `fork` made
/// copy-on-write gets back exactly its former flags.
pub proof fn lemma_cow_perm(bits: usize)
    ensures
        cow_perm(bits) & PTE_D == PTE_D,
        cow_perm(bits) & PTE_COW == 0,
        cow_perm(bits) & !(PTE_D | PTE_COW) == bits & !(PTE_D | PTE_COW),
        is_private_writable(bits) ==> cow_perm(dup_perm(bits)) == bits,
{
    assert({
        let c = (bits & !1usize) | 0x100usize;
        &&& c & 0x100usize == 0x100usize
        &&& c & 1usize == 0usize
        &&& c & !(0x100usize | 1usize) == bits & !(0x100usize | 1usize)
        &&& (bits & 0x100usize == 0x100usize && bits & 1usize != 1usize ==> ((((bits | 1usize)
            & !0x100usize) & !1usize) | 0x100usize) == bits)
    }) by (bit_vector);
}

/// Whether `p` resolves a write fault at `badvaddr` on the page whose entry
/// is `pte`, resuming with the trap frame at `tf`.
pub open spec fn cow_plan_for(p: CowPlan, badvaddr: u32, pte: Pte, tf: u32) -> bool {
    let perm = cow_perm(pte.0 & PTE_FLAGS_ALL);
    let va = badvaddr as usize;
    &&& p.perm@ == perm
    &&& p.alloc.denotes(Syscall::MemAlloc, seq![0, UCOW as u32, perm as u32])
    &&& p.copy_src == va - va % PAGE_SIZE
    &&& p.copy_dst == UCOW
    &&& p.copy_len == PAGE_SIZE
    &&& p.map.denotes(Syscall::MemMap, seq![0, UCOW as u32, 0, badvaddr, perm as u32])
    &&& p.unmap.denotes(Syscall::MemUnmap, seq![0, UCOW as u32])
    &&& p.resume.denotes(Syscall::SetTrapframe, seq![0, tf])
}

/// How to resolve a write fault at `badvaddr` on a copy-on-write page whose
/// entry is `pte`, resuming afterwards with the trap frame at address `tf`.
/// A fault on a page that is not copy-on-write is an error of the caller's
/// (the fault handler stops there, before any call).
pub fn cow_entry(badvaddr: u32, pte: Pte, tf: u32) -> (p: CowPlan)
    requires
        pte.0 & PTE_COW == PTE_COW,
    ensures
        cow_plan_for(p, badvaddr, pte, tf),
{
    let va = VA(badvaddr as usize);
    let mut perm = pte.flags();
    perm.remove(PteFlags::COW());
    perm.insert(PteFlags::D());
    let p = perm.bits() as u32;
    let alloc = syscall_mem_alloc(0, VA(UCOW), p);
    let a = va.0;
    assert(a & !0xfffusize == a - a % 0x1000usize) by (bit_vector);
    let copy_src = a & !(PAGE_SIZE - 1);
    let map = syscall_mem_map(0, VA(UCOW), 0, va, p);
    let unmap = syscall_mem_unmap(0, VA(UCOW));
    let resume = syscall_set_trapframe(0, tf);
    CowPlan { perm, alloc, copy_src, copy_dst: UCOW, copy_len: PAGE_SIZE, map, unmap, resume }
}

/// Where `fork` stands: which reply or entry it waits for.
#[derive(Clone, Copy, Debug, PartialEq, Eq, Structural)]
pub enum ForkPhase {
    /// Waits for the reply to installing the fault handler in the parent.
    SettingHandler,
    /// Waits for the reply to `exofork`: the child's id, or 0 in the child.
    Forking,
    /// Waits for the page directory entry that covers the page at `va`.
    ReadingPde { va: usize },
    /// Waits for the page table entry of the page at `va`.
    ReadingPte { va: usize },
    /// Waits until the calls that share the page at `va` have been issued.
    Duplicating { va: usize },
    /// Waits for the reply to installing the fault handler in the child.
    SettingChildHandler,
    /// Waits for the reply to making the child runnable.
    SettingStatus,
    /// `fork` has returned.
    Finished,
}

impl ForkPhase {
    /// The page that `fork` is looking at in this phase, if any.
    pub open spec fn page(self) -> Option<usize> {
        match self {
            ForkPhase::ReadingPde { va } => Some(va),
            ForkPhase::ReadingPte { va } => Some(va),
            ForkPhase::Duplicating { va } => Some(va),
            _ => None,
        }
    }
}

/// What the caller hands back to `fork`.
#[derive(Clone, Copy, Debug, PartialEq, Eq, Structural)]
pub enum ForkEvent {
    /// The kernel's reply to the call that `fork` asked for.
    Reply(i32),
    /// The entry that `fork` asked to read.
    Entry(Pte),
    /// The calls of an `Issue` have all been made (their replies are not used).
    Issued,
}

/// What `fork` asks the caller to do next.
#[derive(Debug)]
pub enum ForkAction {
    /// Make this call and hand back its reply.
    Syscall(SyscallRequest),
    /// Make these calls in order and hand back `Issued`.
    Issue(Vec<SyscallRequest>),
    /// Read the page directory entry with this index and hand it back.
    ReadPde(usize),
    /// Read the page table entry of this virtual page number and hand it back.
    ReadPte(usize),
    /// `fork` returns this value.
    Return(i32),
    /// The event does not answer what `fork` waits for; nothing changed.
    Unexpected,
}

/// The state of a `fork` in progress.
pub struct Fork {
    pub phase: ForkPhase,
    /// The argument that names the copy-on-write fault handler to the kernel.
    pub handler: u32,
    /// The child's id, once `exofork` has replied.
    pub child: i32,
}

/// How the kernel's reply `r` to a call made through `try_run` ends `fork`:
/// a negative reply is an error, which `fork` returns as it is.
pub open spec fn try_run_fails(r: i32) -> bool {
    r < 0
}

/// Whether `fork` with these arguments starts in state `f` asking for `a`.
pub open spec fn fork_started(current_entry: usize, handler_addr: usize, handler: u32, f: Fork, a: ForkAction) -> bool {
    &&& f.wf()
    &&& f.handler == handler
    &&& f.child == 0
    &&& current_entry != handler_addr ==> {
        &&& f.phase == ForkPhase::SettingHandler
        &&& a matches ForkAction::Syscall(q) && q.denotes(Syscall::SetTlbModEntry, seq![0, handler])
    }
    &&& current_entry == handler_addr ==> {
        &&& f.phase == ForkPhase::Forking
        &&& a matches ForkAction::Syscall(q) && q.denotes(Syscall::Exofork, seq![])
    }
}

/// Starts `fork`. `current_entry` is the fault handler of the calling
/// environment, `handler_addr` the address of the copy-on-write handler and
/// `handler` the argument that names it to the kernel: where the two
/// addresses differ, the handler is installed first; then `exofork`.
pub fn fork(current_entry: usize, handler_addr: usize, handler: u32) -> (r: (Fork, ForkAction))
    ensures
        fork_started(current_entry, handler_addr, handler, r.0, r.1),
{
    if current_entry != handler_addr {
        (
            Fork { phase: ForkPhase::SettingHandler, handler, child: 0 },
            ForkAction::Syscall(syscall_set_tlb_mod_entry(0, handler)),
        )
    } else {
        (
            Fork { phase: ForkPhase::Forking, handler, child: 0 },
            ForkAction::Syscall(syscall_exofork()),
        )
    }
}

impl Fork {
    /// Every page that `fork` looks at lies below the user stack top, on a page boundary.
    pub open spec fn wf(&self) -> bool {
        match self.phase {
            ForkPhase::ReadingPde { va } => va % PAGE_SIZE == 0 && va < USTACKTOP,
            ForkPhase::ReadingPte { va } => va % PAGE_SIZE == 0 && va < USTACKTOP,
            ForkPhase::Duplicating { va } => va % PAGE_SIZE == 0 && va < USTACKTOP,
            _ => true,
        }
    }

    /// Moves past the page at `va`: on to the next page, or, after the last
    /// page below the user stack top, to installing the handler in the child.
    fn advance(&mut self, va: usize) -> (a: ForkAction)
        requires
            va % PAGE_SIZE == 0,
            va < USTACKTOP,
        ensures
            final(self).handler == old(self).handler,
            final(self).child == old(self).child,
            final(self).wf(),
            Self::advanced(va, final(self).phase, a, old(self).child, old(self).handler),
    {
        let next = va + PAGE_SIZE;
        if next < USTACKTOP {
            assert(next >> 22usize == next / 0x40_0000usize) by (bit_vector);
            self.phase = ForkPhase::ReadingPde { va: next };
            ForkAction::ReadPde(next >> PDSHIFT)
        } else {
            self.phase = ForkPhase::SettingChildHandler;
            ForkAction::Syscall(syscall_set_tlb_mod_entry(self.child as usize, self.handler))
        }
    }

    /// Where moving past the page at `va` leads: to the directory entry of the
    /// next page, or, after the last page below the user stack top, to
    /// installing the handler in the child.
    pub open spec fn advanced(va: usize, phase: ForkPhase, a: ForkAction, child: i32, handler: u32) -> bool {
        let next = va + PAGE_SIZE;
        if next < USTACKTOP {
            &&& phase == ForkPhase::ReadingPde { va: next as usize }
            &&& a matches ForkAction::ReadPde(i) && i == next / 0x40_0000
        } else {
            &&& phase == ForkPhase::SettingChildHandler
            &&& a matches ForkAction::Syscall(q) && q.denotes(
                Syscall::SetTlbModEntry,
                seq![(child as usize) as u32, handler],
            )
        }
    }

    /// What one step of `fork` does: from state `old`, on event `ev`, it moves
    /// to state `new` and asks for action `a`.
    pub open spec fn steps_to(old: Fork, ev: ForkEvent, new: Fork, a: ForkAction) -> bool {
        &&& new.handler == old.handler
        &&& {
            let child = new.child;
            let handler = old.handler;
            match (old.phase, ev) {
                (ForkPhase::SettingHandler, ForkEvent::Reply(r)) => {
                    &&& child == old.child
                    &&& if try_run_fails(r) {
                        new.phase == ForkPhase::Finished && a == ForkAction::Return(r)
                    } else {
                        &&& new.phase == ForkPhase::Forking
                        &&& a matches ForkAction::Syscall(q) && q.denotes(Syscall::Exofork, seq![])
                    }
                },
                (ForkPhase::Forking, ForkEvent::Reply(r)) => {
                    &&& child == r
                    &&& if r == 0 {
                        new.phase == ForkPhase::Finished && a == ForkAction::Return(0)
                    } else {
                        &&& new.phase == ForkPhase::ReadingPde { va: 0 }
                        &&& a == ForkAction::ReadPde(0)
                    }
                },
                (ForkPhase::ReadingPde { va }, ForkEvent::Entry(pde)) => {
                    &&& child == old.child
                    &&& if pde.0 & PTE_V == PTE_V {
                        &&& new.phase == ForkPhase::ReadingPte { va }
                        &&& a matches ForkAction::ReadPte(n) && n == va / PAGE_SIZE
                    } else {
                        Self::advanced(va, new.phase, a, child, handler)
                    }
                },
                (ForkPhase::ReadingPte { va }, ForkEvent::Entry(pte)) => {
                    &&& child == old.child
                    &&& if pte.0 & PTE_V == PTE_V {
                        &&& new.phase == ForkPhase::Duplicating { va }
                        &&& a matches ForkAction::Issue(reqs) && dup_requests(
                            reqs@,
                            child as usize,
                            (va / PAGE_SIZE) as usize,
                            pte,
                        )
                    } else {
                        Self::advanced(va, new.phase, a, child, handler)
                    }
                },
                (ForkPhase::Duplicating { va }, ForkEvent::Issued) => {
                    &&& child == old.child
                    &&& Self::advanced(va, new.phase, a, child, handler)
                },
                (ForkPhase::SettingChildHandler, ForkEvent::Reply(r)) => {
                    &&& child == old.child
                    &&& if try_run_fails(r) {
                        new.phase == ForkPhase::Finished && a == ForkAction::Return(r)
                    } else {
                        &&& new.phase == ForkPhase::SettingStatus
                        &&& a matches ForkAction::Syscall(q) && q.denotes(
                            Syscall::SetEnvStatus,
                            seq![(child as usize) as u32, EnvStatus::Runnable.code()],
                        )
                    }
                },
                (ForkPhase::SettingStatus, ForkEvent::Reply(r)) => {
                    &&& child == old.child
                    &&& new.phase == ForkPhase::Finished
                    &&& a == ForkAction::Return(if try_run_fails(r) { r } else { child })
                },
                _ => {
                    &&& child == old.child
                    &&& new.phase == old.phase
                    &&& a == ForkAction::Unexpected
                },
            }
        }
    }

    /// Takes the next step of `fork` on `ev`, the answer to the last action.
    pub fn step(&mut self, ev: ForkEvent) -> (a: ForkAction)
        requires
            old(self).wf(),
        ensures
            final(self).wf(),
            Self::steps_to(*old(self), ev, *final(self), a),
    {
        match (self.phase, ev) {
            (ForkPhase::SettingHandler, ForkEvent::Reply(r)) => {
                if r < 0 {
                    self.phase = ForkPhase::Finished;
                    ForkAction::Return(r)
                } else {
                    self.phase = ForkPhase::Forking;
                    ForkAction::Syscall(syscall_exofork())
                }
            },
            (ForkPhase::Forking, ForkEvent::Reply(r)) => {
                self.child = r;
                if r == 0 {
                    self.phase = ForkPhase::Finished;
                    ForkAction::Return(0)
                } else {
                    self.phase = ForkPhase::ReadingPde { va: 0 };
                    ForkAction::ReadPde(0)
                }
            },
            (ForkPhase::ReadingPde { va }, ForkEvent::Entry(pde)) => {
                let v = pde.0;
                assert((v & 0xfc3usize) & 0x80usize == 0x80usize <==> v & 0x80usize == 0x80usize)
                    by (bit_vector);
                if pde.flags().contains(PteFlags::V()) {
                    assert(va >> 12usize == va / 0x1000usize) by (bit_vector);
                    self.phase = ForkPhase::ReadingPte { va };
                    ForkAction::ReadPte(va >> PGSHIFT)
                } else {
                    self.advance(va)
                }
            },
            (ForkPhase::ReadingPte { va }, ForkEvent::Entry(pte)) => {
                let v = pte.0;
                assert((v & 0xfc3usize) & 0x80usize == 0x80usize <==> v & 0x80usize == 0x80usize)
                    by (bit_vector);
                if pte.flags().contains(PteFlags::V()) {
                    assert(va >> 12usize == va / 0x1000usize) by (bit_vector);
                    self.phase = ForkPhase::Duplicating { va };
                    ForkAction::Issue(duppage(self.child as usize, va >> PGSHIFT, pte))
                } else {
                    self.advance(va)
                }
            },
            (ForkPhase::Duplicating { va }, ForkEvent::Issued) => { self.advance(va) },
            (ForkPhase::SettingChildHandler, ForkEvent::Reply(r)) => {
                if r < 0 {
                    self.phase = ForkPhase::Finished;
                    ForkAction::Return(r)
                } else {
                    self.phase = ForkPhase::SettingStatus;
                    ForkAction::Syscall(syscall_set_env_status(self.child as usize, &EnvStatus::Runnable))
                }
            },
            (ForkPhase::SettingStatus, ForkEvent::Reply(r)) => {
                self.phase = ForkPhase::Finished;
                if r < 0 {
                    ForkAction::Return(r)
                } else {
                    ForkAction::Return(self.child)
                }
            },
            _ => ForkAction::Unexpected,
        }
    }
}

/// The calls that share a page `vpn` below the user stack top all map that
/// page's own address, `vpn * PAGE_SIZE`, from the calling environment to
/// the same address: the first into `envid`, the second (where there is one)
/// back into the calling environment itself, both with the same flags.
pub proof fn lemma_dup_addresses(reqs: Seq<SyscallRequest>, envid: usize, vpn: usize, pte: Pte)
    requires
        dup_requests(reqs, envid, vpn, pte),
        vpn < USTACKTOP / PAGE_SIZE,
    ensures
        1 <= reqs.len() <= 2,
        forall|k: int|
            0 <= k < reqs.len() ==> {
                &&& (#[trigger] reqs[k]).syscall == Syscall::MemMap
                &&& reqs[k].args@.len() == 5
                &&& reqs[k].args@[0] == 0
                &&& reqs[k].args@[1] == vpn * PAGE_SIZE
                &&& reqs[k].args@[3] == vpn * PAGE_SIZE
                &&& reqs[k].args@[4] == reqs[0].args@[4]
            },
        reqs[0].args@[2] == envid as u32,
        reqs.len() == 2 ==> reqs[1].args@[2] == 0,
{
    assert((vpn << 12usize) == vpn * 4096usize && vpn * 4096usize < 0x8000_0000usize) by (bit_vector)
        requires
            vpn < 0x7f3feusize,
    ;
    assert((vpn << 12usize) as u32 == vpn * 4096);
}

/// How the flags with which a page is shared follow from the flags `bits` of
/// its entry: a page that is marked `SHARED`, not writable (no `D`) or already
/// copy-on-write is mapped once, in the child, with exactly its own flags; a
/// private writable page is mapped in both with `COW` set, `D` cleared and
/// every other flag kept.
pub proof fn lemma_dup_flags(reqs: Seq<SyscallRequest>, envid: usize, vpn: usize, pte: Pte)
    requires
        dup_requests(reqs, envid, vpn, pte),
    ensures
        ({
            let bits = pte.0 & PTE_FLAGS_ALL;
            &&& (bits & PTE_SHARED == PTE_SHARED || bits & PTE_D == 0 || bits & PTE_COW == PTE_COW)
                ==> {
                &&& reqs.len() == 1
                &&& reqs[0].args@[4] as usize == bits
            }
            &&& (bits & PTE_SHARED == 0 && bits & PTE_D == PTE_D && bits & PTE_COW == 0) ==> {
                &&& reqs.len() == 2
                &&& forall|k: int|
                    0 <= k < 2 ==> {
                        let p = (#[trigger] reqs[k]).args@[4] as usize;
                        &&& p & PTE_D == 0
                        &&& p & PTE_COW == PTE_COW
                        &&& p & !(PTE_D | PTE_COW) == bits & !(PTE_D | PTE_COW)
                    }
            }
        }),
{
    let v = pte.0;
    let bits = v & 0xfc3usize;
    assert({
        &&& bits & 0xfc3usize == bits
        &&& bits < 0x1000usize
        &&& (bits | 1usize) & !0x100usize < 0x1000usize
        &&& (bits & 2usize == 2usize || bits & 0x100usize == 0usize || bits & 1usize == 1usize
            <==> !(bits & 0x100usize == 0x100usize && bits & 1usize != 1usize && bits & 2usize
            != 2usize))
    }) by (bit_vector)
        requires
            bits == v & 0xfc3usize,
    ;
    lemma_dup_perm(bits);
    let p = dup_perm(bits);
    assert(p < 0x1000);
    assert((p as u32) as usize == p);
}

/// The entries that `fork` asks to read and the pages it asks to share: the
/// directory entry read for a page is the one whose span holds the page
/// (index `va / PDMAP`), the table entry read is the page's own (`va /
/// PAGE_SIZE`), and the calls that share a page map that very page into the
/// child.
pub proof fn lemma_fork_reads(old: Fork, ev: ForkEvent, new: Fork, a: ForkAction)
    requires
        old.wf(),
        Fork::steps_to(old, ev, new, a),
    ensures
        a matches ForkAction::ReadPde(i) ==> {
            &&& new.phase matches ForkPhase::ReadingPde { va }
            &&& i * PDMAP <= va < (i + 1) * PDMAP
            &&& va < USTACKTOP
            &&& va % PAGE_SIZE == 0
        },
        a matches ForkAction::ReadPte(n) ==> {
            &&& new.phase matches ForkPhase::ReadingPte { va }
            &&& n * PAGE_SIZE == va
        },
        a matches ForkAction::Issue(reqs) ==> {
            &&& new.phase matches ForkPhase::Duplicating { va }
            &&& 1 <= reqs@.len() <= 2
            &&& forall|k: int|
                0 <= k < reqs@.len() ==> {
                    &&& (#[trigger] reqs@[k]).syscall == Syscall::MemMap
                    &&& reqs@[k].args@[1] == va
                    &&& reqs@[k].args@[3] == va
                }
            &&& reqs@[0].args@[2] == (new.child as usize) as u32
        },
{
    match (old.phase, ev) {
        (ForkPhase::ReadingPte { va }, ForkEvent::Entry(pte)) => {
            if pte.0 & PTE_V == PTE_V {
                if let ForkAction::Issue(reqs) = a {
                    let vpn = (va / PAGE_SIZE) as usize;
                    lemma_dup_addresses(reqs@, new.child as usize, vpn, pte);
                    assert(vpn * PAGE_SIZE == va);
                }
            }
        },
        _ => {},
    }
}

/// `fork` looks at the pages below the user stack top one by one, in order,
/// starting at page 0 and skipping none: the first page it looks at is 0, it
/// moves from a page only to the next one, and it leaves the pages only after
/// the last one, `USTACKTOP - PAGE_SIZE`.
pub proof fn lemma_fork_scan_order(old: Fork, ev: ForkEvent, new: Fork, a: ForkAction)
    requires
        old.wf(),
        Fork::steps_to(old, ev, new, a),
    ensures
        old.phase.page() is None && new.phase.page() is Some ==> new.phase.page() == Some(0usize),
        old.phase.page() is Some && new.phase.page() is Some ==> {
            ||| new.phase.page() == old.phase.page()
            ||| new.phase.page()->0 == old.phase.page()->0 + PAGE_SIZE
        },
        old.phase.page() is Some && new.phase.page() is None ==> old.phase.page()->0 + PAGE_SIZE
            == USTACKTOP,
{
}

/// Once the pages are done, `fork` installs in the child, named by the id
/// that `exofork` returned, exactly the handler it was given, and then makes
/// that child runnable; on a reply that is not an error it returns the child's
/// id. Neither the handler nor, after `exofork`, the child ever changes.
pub proof fn lemma_fork_child_setup(old: Fork, ev: ForkEvent, new: Fork, a: ForkAction)
    requires
        old.wf(),
        Fork::steps_to(old, ev, new, a),
    ensures
        new.handler == old.handler,
        old.phase != ForkPhase::Forking ==> new.child == old.child,
        old.phase != ForkPhase::SettingChildHandler && new.phase == ForkPhase::SettingChildHandler
            ==> {
            &&& old.phase.page() == Some((USTACKTOP - PAGE_SIZE) as usize)
            &&& a matches ForkAction::Syscall(q) && q.syscall == Syscall::SetTlbModEntry
                && q.args@ == seq![(old.child as usize) as u32, old.handler]
        },
        old.phase == ForkPhase::SettingChildHandler && new.phase == ForkPhase::SettingStatus ==> {
            a matches ForkAction::Syscall(q) && q.syscall == Syscall::SetEnvStatus && q.args@ == seq![
                (old.child as usize) as u32,
                1u32,
            ]
        },
        old.phase == ForkPhase::SettingStatus ==> (ev matches ForkEvent::Reply(r) ==> (r >= 0 ==> a
            == ForkAction::Return(old.child))),
{
}

/// Resolving a write fault: the fresh page gets the old page's flags with
/// `D` set and `COW` cleared, every other flag kept; it is allocated in the
/// calling environment at the scratch page, filled from the whole faulting
/// page (the page boundary at or below `badvaddr`, one page long), mapped
/// over the faulting address with the same flags, and the scratch page is
/// unmapped again before resuming with the given trap frame.
pub proof fn lemma_cow_plan(p: CowPlan, badvaddr: u32, pte: Pte, tf: u32)
    requires
        cow_plan_for(p, badvaddr, pte, tf),
    ensures
        ({
            let bits = pte.0 & PTE_FLAGS_ALL;
            let f = p.perm@;
            &&& f & PTE_D == PTE_D
            &&& f & PTE_COW == 0
            &&& f & !(PTE_D | PTE_COW) == bits & !(PTE_D | PTE_COW)
            &&& p.copy_dst == UCOW
            &&& p.copy_dst % PAGE_SIZE == 0
            &&& p.copy_len == PAGE_SIZE
            &&& p.copy_src % PAGE_SIZE == 0
            &&& p.copy_src <= badvaddr < p.copy_src + PAGE_SIZE
            &&& p.alloc.syscall == Syscall::MemAlloc
            &&& p.alloc.args@.len() == 3
            &&& p.alloc.args@[0] == 0
            &&& p.alloc.args@[1] == p.copy_dst
            &&& p.alloc.args@[2] == f
            &&& p.map.syscall == Syscall::MemMap
            &&& p.map.args@.len() == 5
            &&& p.map.args@[0] == 0 && p.map.args@[2] == 0
            &&& p.map.args@[1] == p.copy_dst
            &&& p.map.args@[3] == badvaddr
            &&& p.map.args@[4] == f
            &&& p.unmap.syscall == Syscall::MemUnmap
            &&& p.unmap.args@.len() == 2
            &&& p.unmap.args@[0] == 0
            &&& p.unmap.args@[1] == p.copy_dst
            &&& p.resume.syscall == Syscall::SetTrapframe
            &&& p.resume.args@.len() == 2
            &&& p.resume.args@[0] == 0
            &&& p.resume.args@[1] == tf
        }),
{
    let v = pte.0;
    let bits = v & 0xfc3usize;
    assert(bits < 0x1000usize && (bits & !1usize) | 0x100usize < 0x1000usize) by (bit_vector)
        requires
            bits == v & 0xfc3usize,
    ;
    lemma_cow_perm(bits);
    let f = cow_perm(bits);
    assert((f as u32) as usize == f);
}

/// How `fork` starts: it keeps the handler it is given and has no child yet;
/// where the calling environment's handler is not the copy-on-write one, it
/// first installs exactly that handler in the calling environment (named by
/// 0); otherwise it goes straight to `exofork`.
pub proof fn lemma_fork_start(current_entry: usize, handler_addr: usize, handler: u32, f: Fork, a: ForkAction)
    requires
        fork_started(current_entry, handler_addr, handler, f, a),
    ensures
        f.wf(),
        f.handler == handler,
        f.child == 0,
        a matches ForkAction::Syscall(q) && (if current_entry != handler_addr {
            q.syscall == Syscall::SetTlbModEntry && q.args@.len() == 2 && q.args@[0] == 0
                && q.args@[1] == handler
        } else {
            q.syscall == Syscall::Exofork && q.args@.len() == 0
        }),
{
}

/// How `fork` ends: in the child (`exofork` replies 0) it returns 0 at once;
/// a negative reply to installing a handler or making the child runnable is
/// returned as it is; a non-negative reply to installing the handler in the
/// calling environment goes on to `exofork`; and `fork` is finished exactly
/// when it returns.
pub proof fn lemma_fork_outcomes(old: Fork, ev: ForkEvent, new: Fork, a: ForkAction)
    requires
        old.wf(),
        Fork::steps_to(old, ev, new, a),
    ensures
        old.phase == ForkPhase::Forking && ev == ForkEvent::Reply(0) ==> a == ForkAction::Return(0),
        (old.phase == ForkPhase::SettingHandler || old.phase == ForkPhase::SettingChildHandler
            || old.phase == ForkPhase::SettingStatus) ==> (ev matches ForkEvent::Reply(r) ==> (r < 0
            ==> a == ForkAction::Return(r))),
        old.phase == ForkPhase::SettingHandler ==> (ev matches ForkEvent::Reply(r) ==> (r >= 0 ==> (
        a matches ForkAction::Syscall(q) && q.syscall == Syscall::Exofork && q.args@.len() == 0))),
        old.phase != ForkPhase::Finished ==> (a is Return <==> new.phase == ForkPhase::Finished),
        old.phase == ForkPhase::Finished ==> new.phase == ForkPhase::Finished && a
            == ForkAction::Unexpected,
{
}

} // verus!
