use user_lib::ipc::{ipc_recv, ipc_recv_result, ipc_send, ipc_send_step, IpcInfo, IpcSendStep, IpcStatus};
use user_lib::layout::VA;
use user_lib::syscall::Syscall;

#[test]
fn ipc_status_numbers() {
    assert_eq!(IpcStatus::NotReceiving.to_u32(), 0);
    assert_eq!(IpcStatus::Receiving.to_u32(), 1);
    assert_eq!(IpcStatus::from_u32(0), IpcStatus::NotReceiving);
    assert_eq!(IpcStatus::from_u32(1), IpcStatus::Receiving);
    for s in [IpcStatus::NotReceiving, IpcStatus::Receiving] {
        assert_eq!(IpcStatus::from_u32(s.to_u32()), s);
    }
}

#[test]
fn ipc_send_request() {
    let r = ipc_send(0x802, 42, VA(0x5000), 0x180);
    assert_eq!(r.syscall, Syscall::IpcTrySend);
    assert_eq!(r.args, vec![0x802, 42, 0x5000, 0x180]);
}

#[test]
fn ipc_send_steps() {
    assert!(matches!(ipc_send_step(0), IpcSendStep::Sent));
    match ipc_send_step(1) {
        IpcSendStep::Retry(q) => {
            assert_eq!(q.syscall, Syscall::Yield);
            assert!(q.args.is_empty());
        }
        _ => panic!("expected a retry"),
    }
    assert!(matches!(ipc_send_step(2), IpcSendStep::Invalid(2)));
    assert!(matches!(ipc_send_step(-1), IpcSendStep::Invalid(0xffff_ffff)));
    assert!(matches!(ipc_send_step(-8), IpcSendStep::Invalid(0xffff_fff8)));
}

#[test]
fn ipc_recv_request_and_result() {
    let r = ipc_recv(VA(0x6000));
    assert_eq!(r.syscall, Syscall::IpcRecv);
    assert_eq!(r.args, vec![0x6000, 0]);
    let info = IpcInfo { value: 7, from: 0x803, recving: IpcStatus::NotReceiving, dstva: VA(0x6000), perm: 0x180 };
    assert_eq!(ipc_recv_result(0, &info), Ok((0x803, 7, 0x180)));
    assert_eq!(ipc_recv_result(-3, &info), Err(-3));
    let wide = IpcInfo { perm: usize::MAX, ..info };
    assert_eq!(ipc_recv_result(0, &wide), Ok((0x803, 7, 0xffff_ffff)));
}
