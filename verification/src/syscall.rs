//! The system calls of the kernel. Each function here builds the request
//! that a user program hands to the kernel: which call, with which arguments,
//! each a 32-bit word as the kernel's calling convention passes it.

use vstd::prelude::*;
use vstd::string::StringSliceAdditionalSpecFns;
use crate::layout::VA;
use crate::env::EnvStatus;

verus! {

/// A system call of the kernel.
#[derive(Clone, Copy, Debug, PartialEq, Eq, Structural)]
pub enum Syscall {
    Putchar,
    PrintConsole,
    GetEnvId,
    Yield,
    EnvDestroy,
    SetTlbModEntry,
    MemAlloc,
    MemMap,
    MemUnmap,
    Exofork,
    SetEnvStatus,
    SetTrapframe,
    Panic,
    IpcTrySend,
    IpcRecv,
    Getchar,
    WriteDev,
    ReadDev,
    MempoolOp,
    Unhandled,
}

impl Syscall {
    /// The number by which the kernel knows the call.
    pub open spec fn code(self) -> u32 {
        match self {
            Syscall::Putchar => 0,
            Syscall::PrintConsole => 1,
            Syscall::GetEnvId => 2,
            Syscall::Yield => 3,
            Syscall::EnvDestroy => 4,
            Syscall::SetTlbModEntry => 5,
            Syscall::MemAlloc => 6,
            Syscall::MemMap => 7,
            Syscall::MemUnmap => 8,
            Syscall::Exofork => 9,
            Syscall::SetEnvStatus => 10,
            Syscall::SetTrapframe => 11,
            Syscall::Panic => 12,
            Syscall::IpcTrySend => 13,
            Syscall::IpcRecv => 14,
            Syscall::Getchar => 15,
            Syscall::WriteDev => 16,
            Syscall::ReadDev => 17,
            Syscall::MempoolOp => 18,
            Syscall::Unhandled => 19,
        }
    }

    /// The number by which the kernel knows the call.
    pub fn to_u32(self) -> (r: u32)
        ensures
            r == self.code(),
    {
        match self {
            Syscall::Putchar => 0,
            Syscall::PrintConsole => 1,
            Syscall::GetEnvId => 2,
            Syscall::Yield => 3,
            Syscall::EnvDestroy => 4,
            Syscall::SetTlbModEntry => 5,
            Syscall::MemAlloc => 6,
            Syscall::MemMap => 7,
            Syscall::MemUnmap => 8,
            Syscall::Exofork => 9,
            Syscall::SetEnvStatus => 10,
            Syscall::SetTrapframe => 11,
            Syscall::Panic => 12,
            Syscall::IpcTrySend => 13,
            Syscall::IpcRecv => 14,
            Syscall::Getchar => 15,
            Syscall::WriteDev => 16,
            Syscall::ReadDev => 17,
            Syscall::MempoolOp => 18,
            Syscall::Unhandled => 19,
        }
    }
}

/// Each system call has its own number, below 20.
pub proof fn lemma_syscall_code(a: Syscall, b: Syscall)
    ensures
        a.code() < 20,
        a.code() == b.code() ==> a == b,
{
}

/// A system call to issue: the call and its arguments, in order.
#[derive(Debug)]
pub struct SyscallRequest {
    pub syscall: Syscall,
    pub args: Vec<u32>,
}

impl SyscallRequest {
    /// Whether this request is the call `syscall` with exactly the arguments `args`.
    pub open spec fn denotes(&self, syscall: Syscall, args: Seq<u32>) -> bool {
        self.syscall == syscall && self.args@ == args
    }
}

fn _syscall_0(syscall: Syscall) -> (r: SyscallRequest)
    ensures
        r.denotes(syscall, seq![]),
{
    SyscallRequest { syscall, args: Vec::new() }
}

fn _syscall_1(syscall: Syscall, arg1: u32) -> (r: SyscallRequest)
    ensures
        r.denotes(syscall, seq![arg1]),
{
    let mut args: Vec<u32> = Vec::new();
    args.push(arg1);
    assert(args@ =~= seq![arg1]);
    SyscallRequest { syscall, args }
}

fn _syscall_2(syscall: Syscall, arg1: u32, arg2: u32) -> (r: SyscallRequest)
    ensures
        r.denotes(syscall, seq![arg1, arg2]),
{
    let mut args: Vec<u32> = Vec::new();
    args.push(arg1);
    args.push(arg2);
    assert(args@ =~= seq![arg1, arg2]);
    SyscallRequest { syscall, args }
}

fn _syscall_3(syscall: Syscall, arg1: u32, arg2: u32, arg3: u32) -> (r: SyscallRequest)
    ensures
        r.denotes(syscall, seq![arg1, arg2, arg3]),
{
    let mut args: Vec<u32> = Vec::new();
    args.push(arg1);
    args.push(arg2);
    args.push(arg3);
    assert(args@ =~= seq![arg1, arg2, arg3]);
    SyscallRequest { syscall, args }
}

fn _syscall_4(syscall: Syscall, arg1: u32, arg2: u32, arg3: u32, arg4: u32) -> (r: SyscallRequest)
    ensures
        r.denotes(syscall, seq![arg1, arg2, arg3, arg4]),
{
    let mut args: Vec<u32> = Vec::new();
    args.push(arg1);
    args.push(arg2);
    args.push(arg3);
    args.push(arg4);
    assert(args@ =~= seq![arg1, arg2, arg3, arg4]);
    SyscallRequest { syscall, args }
}

fn _syscall_5(syscall: Syscall, arg1: u32, arg2: u32, arg3: u32, arg4: u32, arg5: u32) -> (r:
    SyscallRequest)
    ensures
        r.denotes(syscall, seq![arg1, arg2, arg3, arg4, arg5]),
{
    let mut args: Vec<u32> = Vec::new();
    args.push(arg1);
    args.push(arg2);
    args.push(arg3);
    args.push(arg4);
    args.push(arg5);
    assert(args@ =~= seq![arg1, arg2, arg3, arg4, arg5]);
    SyscallRequest { syscall, args }
}

/// Prints the character `ch` on the console.
pub fn syscall_putchar(ch: i32) -> (r: SyscallRequest)
    ensures
        r.denotes(Syscall::Putchar, seq![ch as u32]),
{
    _syscall_1(Syscall::Putchar, ch as u32)
}

/// Prints the string `s`, which lies at address `addr`, on the console.
pub fn syscall_print_console(addr: u32, s: &str) -> (r: SyscallRequest)
    ensures
        r.denotes(Syscall::PrintConsole, seq![addr, (s.spec_bytes().len() as usize) as u32]),
{
    _syscall_2(Syscall::PrintConsole, addr, s.len() as u32)
}

/// Asks for the id of the calling environment.
pub fn syscall_getenvid() -> (r: SyscallRequest)
    ensures
        r.denotes(Syscall::GetEnvId, seq![0]),
{
    _syscall_1(Syscall::GetEnvId, 0)
}

/// The environment id that the kernel's `reply` to `syscall_getenvid` names.
pub fn syscall_getenvid_result(reply: i32) -> (r: usize)
    ensures
        r == reply as usize,
{
    reply as usize
}

/// Gives up the processor.
pub fn syscall_yield() -> (r: SyscallRequest)
    ensures
        r.denotes(Syscall::Yield, seq![]),
{
    _syscall_0(Syscall::Yield)
}

/// Destroys the environment `envid`.
pub fn syscall_env_destroy(envid: usize) -> (r: SyscallRequest)
    ensures
        r.denotes(Syscall::EnvDestroy, seq![envid as u32]),
{
    _syscall_1(Syscall::EnvDestroy, envid as u32)
}

/// Makes the handler at address `entry` the one that environment `envid`
/// runs on a write to a page that is not dirty.
pub fn syscall_set_tlb_mod_entry(envid: usize, entry: u32) -> (r: SyscallRequest)
    ensures
        r.denotes(Syscall::SetTlbModEntry, seq![envid as u32, entry]),
{
    _syscall_2(Syscall::SetTlbModEntry, envid as u32, entry)
}

/// Allocates a page at `va` in environment `envid` with permissions `perm`.
pub fn syscall_mem_alloc(envid: usize, va: VA, perm: u32) -> (r: SyscallRequest)
    ensures
        r.denotes(Syscall::MemAlloc, seq![envid as u32, va.0 as u32, perm]),
{
    _syscall_3(Syscall::MemAlloc, envid as u32, va.0 as u32, perm)
}

/// Maps the page at `srcva` of `srcid` at `dstva` of `dstid` with permissions `perm`.
pub fn syscall_mem_map(srcid: usize, srcva: VA, dstid: usize, dstva: VA, perm: u32) -> (r:
    SyscallRequest)
    ensures
        r.denotes(
            Syscall::MemMap,
            seq![srcid as u32, srcva.0 as u32, dstid as u32, dstva.0 as u32, perm],
        ),
{
    _syscall_5(Syscall::MemMap, srcid as u32, srcva.0 as u32, dstid as u32, dstva.0 as u32, perm)
}

/// Unmaps the page at `va` of environment `envid`.
pub fn syscall_mem_unmap(envid: usize, va: VA) -> (r: SyscallRequest)
    ensures
        r.denotes(Syscall::MemUnmap, seq![envid as u32, va.0 as u32]),
{
    _syscall_2(Syscall::MemUnmap, envid as u32, va.0 as u32)
}

/// Creates a child environment that is a copy of the caller's registers.
pub fn syscall_exofork() -> (r: SyscallRequest)
    ensures
        r.denotes(Syscall::Exofork, seq![]),
{
    _syscall_0(Syscall::Exofork)
}

/// Sets the status of environment `envid`.
pub fn syscall_set_env_status(envid: usize, status: &EnvStatus) -> (r: SyscallRequest)
    ensures
        r.denotes(Syscall::SetEnvStatus, seq![envid as u32, status.code()]),
{
    _syscall_2(Syscall::SetEnvStatus, envid as u32, status.to_u32())
}

/// Sets the registers of environment `envid` to the trap frame at address `tf`.
pub fn syscall_set_trapframe(envid: usize, tf: u32) -> (r: SyscallRequest)
    ensures
        r.denotes(Syscall::SetTrapframe, seq![envid as u32, tf]),
{
    _syscall_2(Syscall::SetTrapframe, envid as u32, tf)
}

/// Stops the system; the kernel does not return from this call.
pub fn syscall_panic() -> (r: SyscallRequest)
    ensures
        r.denotes(Syscall::Panic, seq![]),
{
    _syscall_0(Syscall::Panic)
}

/// Tries to send `value`, and the page at `srcva` with permissions `perm`, to
/// environment `envid`.
pub fn syscall_ipc_try_send(envid: usize, value: u32, srcva: VA, perm: u32) -> (r: SyscallRequest)
    ensures
        r.denotes(Syscall::IpcTrySend, seq![envid as u32, value, srcva.0 as u32, perm]),
{
    _syscall_4(Syscall::IpcTrySend, envid as u32, value, srcva.0 as u32, perm)
}

/// Waits for a message; a page that comes with it is mapped at `dstva`.
pub fn syscall_ipc_recv(dstva: VA) -> (r: SyscallRequest)
    ensures
        r.denotes(Syscall::IpcRecv, seq![dstva.0 as u32, 0]),
{
    _syscall_2(Syscall::IpcRecv, dstva.0 as u32, 0)
}

/// Reads a character from the console.
pub fn syscall_getchar() -> (r: SyscallRequest)
    ensures
        r.denotes(Syscall::Getchar, seq![0]),
{
    _syscall_1(Syscall::Getchar, 0)
}

/// Writes `size` bytes at `va` to the device `dev`.
pub fn syscall_write_dev(va: VA, dev: u32, size: usize) -> (r: SyscallRequest)
    ensures
        r.denotes(Syscall::WriteDev, seq![va.0 as u32, dev, size as u32]),
{
    _syscall_3(Syscall::WriteDev, va.0 as u32, dev, size as u32)
}

/// Reads `size` bytes from the device `dev` to `va`.
pub fn syscall_read_dev(va: VA, dev: u32, size: usize) -> (r: SyscallRequest)
    ensures
        r.denotes(Syscall::ReadDev, seq![va.0 as u32, dev, size as u32]),
{
    _syscall_3(Syscall::ReadDev, va.0 as u32, dev, size as u32)
}

/// Operation `op` on the memory pool `poolid`, for `page_count` pages at `va`.
pub fn syscall_mempool_op(op: u32, poolid: u32, va: u32, page_count: u32) -> (r: SyscallRequest)
    ensures
        r.denotes(Syscall::MempoolOp, seq![op, poolid, va, page_count]),
{
    _syscall_4(Syscall::MempoolOp, op, poolid, va, page_count)
}

} // verus!
