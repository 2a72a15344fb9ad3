//! Inter-process communication: sending a value (and optionally a page) to
//! another environment, and receiving one.

use vstd::prelude::*;
use crate::layout::VA;
use crate::syscall::{SyscallRequest, Syscall, syscall_ipc_try_send, syscall_ipc_recv, syscall_yield};

verus! {

/// Whether an environment is waiting to receive a message.
#[derive(Clone, Copy, Debug, PartialEq, Eq, Structural)]
pub enum IpcStatus {
    NotReceiving,
    Receiving,
}

/// What the kernel records of the last message an environment received.
#[derive(Clone, Copy, Debug)]
pub struct IpcInfo {
    pub value: u32,
    pub from: usize,
    pub recving: IpcStatus,
    pub dstva: VA,
    pub perm: usize,
}

impl Default for IpcInfo {
    fn default() -> (r: Self)
        ensures
            r.value == 0,
            r.from == 0,
            r.recving == IpcStatus::NotReceiving,
            r.dstva == VA(0),
            r.perm == 0,
    {
        IpcInfo { value: 0, from: 0, recving: IpcStatus::NotReceiving, dstva: VA(0), perm: 0 }
    }
}

impl IpcStatus {
    /// The number by which the kernel knows the status.
    pub open spec fn code(self) -> u32 {
        match self {
            IpcStatus::NotReceiving => 0,
            IpcStatus::Receiving => 1,
        }
    }

    /// The number by which the kernel knows the status.
    pub fn to_u32(self) -> (r: u32)
        ensures
            r == self.code(),
    {
        match self {
            IpcStatus::NotReceiving => 0,
            IpcStatus::Receiving => 1,
        }
    }

    /// The status that the kernel knows by `val` (only 0 and 1 name one).
    pub fn from_u32(val: u32) -> (r: Self)
        requires
            val < 2,
        ensures
            r.code() == val,
    {
        match val {
            0 => IpcStatus::NotReceiving,
            _ => IpcStatus::Receiving,
        }
    }
}

/// Each receiving status has its own number, 0 or 1: no two statuses share
/// one.
pub proof fn lemma_ipc_status_code(a: IpcStatus, b: IpcStatus)
    ensures
        a.code() < 2,
        a.code() == b.code() ==> a == b,
{
}

/// What `ipc_send` does after the kernel replied to one attempt to send.
#[derive(Debug)]
pub enum IpcSendStep {
    /// The message was delivered; `ipc_send` returns.
    Sent,
    /// The receiver is not waiting yet: make this call (yield the processor),
    /// then try again.
    Retry(SyscallRequest),
    /// The reply names no receiving status; `ipc_send` stops with this value.
    Invalid(u32),
}

/// The attempt to send `val`, and the page at `srcva` with permissions
/// `perm`, to `to`, which `ipc_send` makes until it is delivered.
pub fn ipc_send(to: usize, val: u32, srcva: VA, perm: u32) -> (r: SyscallRequest)
    ensures
        r.denotes(Syscall::IpcTrySend, seq![to as u32, val, srcva.0 as u32, perm]),
{
    syscall_ipc_try_send(to, val, srcva, perm)
}

/// Whether `r` is what `ipc_send` does after the kernel replied `reply`.
pub open spec fn send_step_for(reply: i32, r: IpcSendStep) -> bool {
    &&& reply == 0 ==> r == IpcSendStep::Sent
    &&& reply != 0 && reply as u32 == IpcStatus::Receiving.code() ==> (r matches IpcSendStep::Retry(q)
        && q.denotes(Syscall::Yield, seq![]))
    &&& reply != 0 && reply as u32 != IpcStatus::Receiving.code() ==> r == IpcSendStep::Invalid(
        reply as u32,
    )
}

/// What `ipc_send` does after the kernel replied `reply` to an attempt: 0 is
/// delivered; otherwise the reply, read as a receiving status, must say
/// `Receiving`, and then the attempt is made again after yielding.
pub fn ipc_send_step(reply: i32) -> (r: IpcSendStep)
    ensures
        send_step_for(reply, r),
{
    if reply == 0 {
        return IpcSendStep::Sent;
    }
    let v = reply as u32;
    if v < 2 {
        let status = IpcStatus::from_u32(v);
        if status == IpcStatus::Receiving {
            IpcSendStep::Retry(syscall_yield())
        } else {
            IpcSendStep::Invalid(v)
        }
    } else {
        IpcSendStep::Invalid(v)
    }
}

/// The call with which `ipc_recv` waits for a message, a page that comes with
/// it being mapped at `dstva`.
pub fn ipc_recv(dstva: VA) -> (r: SyscallRequest)
    ensures
        r.denotes(Syscall::IpcRecv, seq![dstva.0 as u32, 0]),
{
    syscall_ipc_recv(dstva)
}

/// Whether `r` is what `ipc_recv` returns on reply `reply` with record `info`.
pub open spec fn recv_result_for(reply: i32, info: IpcInfo, r: Result<(usize, u32, u32), i32>) -> bool {
    &&& reply == 0 ==> r == Ok::<(usize, u32, u32), i32>((info.from, info.value, info.perm as u32))
    &&& reply != 0 ==> r == Err::<(usize, u32, u32), i32>(reply)
}

/// What `ipc_recv` returns once the kernel replied `reply` and the
/// environment's record of the message is `info`: the sender, the value and
/// the permissions of the page; any reply but 0 is an error, returned as it is.
pub fn ipc_recv_result(reply: i32, info: &IpcInfo) -> (r: Result<(usize, u32, u32), i32>)
    ensures
        recv_result_for(reply, *info, r),
{
    if reply != 0 {
        return Err(reply);
    }
    Ok((info.from, info.value, info.perm as u32))
}

/// `ipc_send` is done exactly on reply 0, retries exactly on reply 1 and
/// then only after yielding the processor (a call with no arguments), and
/// stops on every other reply, carrying that reply's 32 bits.
pub proof fn lemma_ipc_send_step(reply: i32, r: IpcSendStep)
    requires
        send_step_for(reply, r),
    ensures
        r is Sent <==> reply == 0,
        r is Retry <==> reply == 1,
        r matches IpcSendStep::Retry(q) ==> q.syscall == Syscall::Yield && q.args@.len() == 0,
        r matches IpcSendStep::Invalid(v) ==> reply != 0 && reply != 1 && v as int == (if reply
            >= 0 { reply as int } else { reply + 0x1_0000_0000 }),
{
    assert(reply as u32 == 1u32 <==> reply == 1i32) by (bit_vector);
    if reply < 0 {
        assert((reply as u32) as int == reply + 0x1_0000_0000) by (bit_vector)
            requires
                reply < 0i32,
        ;
    }
}

/// `ipc_recv` succeeds exactly on reply 0, and then gives the sender, the
/// value and the low 32 bits of the page's permissions from the record;
/// any other reply comes back as the error.
pub proof fn lemma_ipc_recv_result(reply: i32, info: IpcInfo, r: Result<(usize, u32, u32), i32>)
    requires
        recv_result_for(reply, info, r),
    ensures
        r is Ok <==> reply == 0,
        r matches Ok(t) ==> t.0 == info.from && t.1 == info.value && t.2 == info.perm & 0xffff_ffffusize,
        r matches Err(e) ==> e == reply,
{
    let p = info.perm;
    assert((p as u32) as usize == p & 0xffff_ffffusize) by (bit_vector);
}

} // verus!
