//! Environments (processes) as the kernel records them.

use vstd::prelude::*;
use crate::layout::VA;
use crate::ipc::IpcInfo;
use crate::syscall::{SyscallRequest, Syscall, syscall_yield};

verus! {

/// Number of environment slots: an environment id's low ten bits select its slot.
pub const NENV: usize = 1024;

/// The state of an environment.
#[derive(Clone, Copy, Debug, PartialEq, Eq, Structural)]
pub enum EnvStatus {
    Free,
    Runnable,
    NotRunnable,
}

impl EnvStatus {
    /// The number by which the kernel knows the status.
    pub open spec fn code(self) -> u32 {
        match self {
            EnvStatus::Free => 0,
            EnvStatus::Runnable => 1,
            EnvStatus::NotRunnable => 2,
        }
    }

    /// The number by which the kernel knows the status.
    pub fn to_u32(self) -> (r: u32)
        ensures
            r == self.code(),
    {
        match self {
            EnvStatus::Free => 0,
            EnvStatus::Runnable => 1,
            EnvStatus::NotRunnable => 2,
        }
    }
}

/// Each environment status has its own number.
pub proof fn lemma_env_status_code(a: EnvStatus, b: EnvStatus)
    ensures
        a.code() < 3,
        a.code() == b.code() ==> a == b,
{
}

/// The registers saved when an environment traps into the kernel.
#[derive(Clone, Copy, Debug)]
pub struct Trapframe {
    pub regs: [u32; 32],
    pub cp0_status: u32,
    pub hi: u32,
    pub lo: u32,
    pub cp0_badvaddr: u32,
    pub cp0_cause: u32,
    pub cp0_epc: u32,
}

/// The kernel's record of an environment, as far as a user program reads it.
#[derive(Clone, Copy, Debug)]
pub struct Env {
    pub tf: Trapframe,
    pub id: usize,
    pub asid: usize,
    pub parent_id: usize,
    pub status: EnvStatus,
    pub pgdir: VA,
    pub priority: u32,
    pub ipc_info: IpcInfo,
    pub user_tlb_mod_entry: usize,
    pub runs: u32,
}

/// The slot of an environment id: its low ten bits.
pub open spec fn envx_of(envid: usize) -> nat {
    (envid as nat) % 1024
}

/// The slot, in the table of environments, of the environment with id `envid`.
pub fn envx(envid: usize) -> (r: usize)
    ensures
        r == envx_of(envid),
        r < NENV,
{
    assert(1usize << 10usize == 1024usize) by (bit_vector);
    let mask: usize = (1 << 10) - 1;
    assert(envid & 1023usize == envid % 1024usize) by (bit_vector);
    envid & mask
}

/// What `wait(envid)` does when the slot of `envid` holds `e`: as long as that
/// slot still belongs to `envid` and is not free, it yields the processor
/// (the call returned) and looks again; otherwise (`None`) it returns.
pub fn wait_step(e: &Env, envid: usize) -> (r: Option<SyscallRequest>)
    ensures
        r is Some <==> (e.id == envid && e.status != EnvStatus::Free),
        r matches Some(q) ==> q.denotes(Syscall::Yield, seq![]),
{
    if e.id == envid && e.status != EnvStatus::Free {
        Some(syscall_yield())
    } else {
        None
    }
}

/// The slot of a slot is itself: slot numbers are environment ids of their
/// own slot, and two ids share a slot exactly when they agree in their low
/// ten bits.
pub proof fn lemma_envx_slot(a: usize, b: usize)
    ensures
        envx_of(a) < NENV,
        envx_of(envx_of(a) as usize) == envx_of(a),
        envx_of(a) == envx_of(b) <==> a % 1024 == b % 1024,
{
}

} // verus!
