use user_lib::env::EnvStatus;
use user_lib::layout::VA;
use user_lib::syscall::{
    syscall_env_destroy, syscall_exofork, syscall_getchar, syscall_getenvid,
    syscall_getenvid_result, syscall_ipc_recv, syscall_ipc_try_send, syscall_mem_alloc,
    syscall_mem_map, syscall_mem_unmap, syscall_mempool_op, syscall_panic,
    syscall_print_console, syscall_putchar, syscall_read_dev, syscall_set_env_status,
    syscall_set_tlb_mod_entry, syscall_set_trapframe, syscall_write_dev, syscall_yield, Syscall,
};

#[test]
fn syscall_numbers() {
    let all = [
        Syscall::Putchar,
        Syscall::PrintConsole,
        Syscall::GetEnvId,
        Syscall::Yield,
        Syscall::EnvDestroy,
        Syscall::SetTlbModEntry,
        Syscall::MemAlloc,
        Syscall::MemMap,
        Syscall::MemUnmap,
        Syscall::Exofork,
        Syscall::SetEnvStatus,
        Syscall::SetTrapframe,
        Syscall::Panic,
        Syscall::IpcTrySend,
        Syscall::IpcRecv,
        Syscall::Getchar,
        Syscall::WriteDev,
        Syscall::ReadDev,
        Syscall::MempoolOp,
        Syscall::Unhandled,
    ];
    for (i, s) in all.iter().enumerate() {
        assert_eq!(s.to_u32() as usize, i);
    }
}

#[test]
fn requests_without_arguments() {
    for (r, s) in [
        (syscall_yield(), Syscall::Yield),
        (syscall_exofork(), Syscall::Exofork),
        (syscall_panic(), Syscall::Panic),
    ] {
        assert_eq!(r.syscall, s);
        assert!(r.args.is_empty());
    }
}

#[test]
fn console_requests() {
    let r = syscall_putchar(b'a' as i32);
    assert_eq!(r.syscall, Syscall::Putchar);
    assert_eq!(r.args, vec![0x61]);
    let r = syscall_putchar(-1);
    assert_eq!(r.args, vec![0xffff_ffff]);
    let r = syscall_print_console(0x0040_1000, "Hello, world!\n");
    assert_eq!(r.syscall, Syscall::PrintConsole);
    assert_eq!(r.args, vec![0x0040_1000, 14]);
    let r = syscall_print_console(0x10, "é");
    assert_eq!(r.args, vec![0x10, 2]);
    let r = syscall_getchar();
    assert_eq!(r.syscall, Syscall::Getchar);
    assert_eq!(r.args, vec![0]);
}

#[test]
fn env_requests() {
    let r = syscall_getenvid();
    assert_eq!(r.syscall, Syscall::GetEnvId);
    assert_eq!(r.args, vec![0]);
    assert_eq!(syscall_getenvid_result(0x801), 0x801);
    assert_eq!(syscall_getenvid_result(-1), usize::MAX);
    let r = syscall_env_destroy(0x802);
    assert_eq!(r.syscall, Syscall::EnvDestroy);
    assert_eq!(r.args, vec![0x802]);
    let r = syscall_env_destroy(0x1_0000_0003);
    assert_eq!(r.args, vec![3]);
    let r = syscall_set_env_status(0x802, &EnvStatus::Runnable);
    assert_eq!(r.syscall, Syscall::SetEnvStatus);
    assert_eq!(r.args, vec![0x802, 1]);
    let r = syscall_set_env_status(0x802, &EnvStatus::NotRunnable);
    assert_eq!(r.args, vec![0x802, 2]);
    let r = syscall_set_trapframe(0, 0x7f3f_df00);
    assert_eq!(r.syscall, Syscall::SetTrapframe);
    assert_eq!(r.args, vec![0, 0x7f3f_df00]);
    let r = syscall_set_tlb_mod_entry(0x802, 0x0040_0120);
    assert_eq!(r.syscall, Syscall::SetTlbModEntry);
    assert_eq!(r.args, vec![0x802, 0x0040_0120]);
}

#[test]
fn memory_requests() {
    let r = syscall_mem_alloc(0, VA(0x003f_f000), 0x181);
    assert_eq!(r.syscall, Syscall::MemAlloc);
    assert_eq!(r.args, vec![0, 0x003f_f000, 0x181]);
    let r = syscall_mem_map(0, VA(0x3000), 0x802, VA(0x4000), 0x81);
    assert_eq!(r.syscall, Syscall::MemMap);
    assert_eq!(r.args, vec![0, 0x3000, 0x802, 0x4000, 0x81]);
    let r = syscall_mem_unmap(0x802, VA(0x4000));
    assert_eq!(r.syscall, Syscall::MemUnmap);
    assert_eq!(r.args, vec![0x802, 0x4000]);
    let r = syscall_mempool_op(1, 2, 0x5000, 4);
    assert_eq!(r.syscall, Syscall::MempoolOp);
    assert_eq!(r.args, vec![1, 2, 0x5000, 4]);
}

#[test]
fn ipc_and_device_requests() {
    let r = syscall_ipc_try_send(0x803, 9, VA(0), 0);
    assert_eq!(r.syscall, Syscall::IpcTrySend);
    assert_eq!(r.args, vec![0x803, 9, 0, 0]);
    let r = syscall_ipc_recv(VA(0x7000));
    assert_eq!(r.syscall, Syscall::IpcRecv);
    assert_eq!(r.args, vec![0x7000, 0]);
    let r = syscall_write_dev(VA(0x8000), 0x1000_0000, 4);
    assert_eq!(r.syscall, Syscall::WriteDev);
    assert_eq!(r.args, vec![0x8000, 0x1000_0000, 4]);
    let r = syscall_read_dev(VA(0x8000), 0x1000_0010, 1);
    assert_eq!(r.syscall, Syscall::ReadDev);
    assert_eq!(r.args, vec![0x8000, 0x1000_0010, 1]);
}
