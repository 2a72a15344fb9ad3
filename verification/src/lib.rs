//! User-space support library for a MIPS teaching kernel: the virtual memory
//! layout, page-table entry flags, environment records, inter-process
//! communication and copy-on-write `fork`, each written as verified logic that
//! produces the system calls to issue and interprets what comes back.

pub mod layout;
pub mod page;
pub mod env;
pub mod ipc;
pub mod syscall;
pub mod fork;

use vstd::prelude::*;
use crate::env::{Env, envx, envx_of};
use crate::syscall::{SyscallRequest, Syscall, syscall_env_destroy, syscall_getenvid_result};

verus! {

/// The slot, in the table of environments, of the calling environment, given
/// the kernel's `reply` to `syscall_getenvid`.
pub fn curenv_slot(reply: i32) -> (r: usize)
    ensures
        r == envx_of(reply as usize),
{
    envx(syscall_getenvid_result(reply))
}

/// The call with which the environment `cur` ends itself; the kernel does not
/// return from it.
pub fn exit(cur: &Env) -> (r: SyscallRequest)
    ensures
        r.denotes(Syscall::EnvDestroy, seq![cur.id as u32]),
{
    syscall_env_destroy(cur.id)
}

} // verus!
