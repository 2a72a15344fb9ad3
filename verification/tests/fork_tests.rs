use user_lib::fork::{cow_entry, duppage, fork, ForkAction, ForkEvent, ForkPhase};
use user_lib::layout::{PAGE_SIZE, UCOW, USTACKTOP};
use user_lib::page::Pte;
use user_lib::syscall::Syscall;

#[test]
fn duppage_private_writable_page_becomes_copy_on_write() {
    let r = duppage(0x802, 0x400, Pte(0x1234_5180));
    assert_eq!(r.len(), 2);
    assert_eq!(r[0].syscall, Syscall::MemMap);
    assert_eq!(r[0].args, vec![0, 0x40_0000, 0x802, 0x40_0000, 0x81]);
    assert_eq!(r[1].syscall, Syscall::MemMap);
    assert_eq!(r[1].args, vec![0, 0x40_0000, 0, 0x40_0000, 0x81]);
}

#[test]
fn duppage_read_only_page_keeps_its_flags() {
    let r = duppage(0x802, 0x401, Pte(0x0000_1080));
    assert_eq!(r.len(), 1);
    assert_eq!(r[0].args, vec![0, 0x40_1000, 0x802, 0x40_1000, 0x80]);
}

#[test]
fn duppage_shared_and_cow_pages_keep_their_flags() {
    let r = duppage(0x802, 0x402, Pte(0x182));
    assert_eq!(r.len(), 1);
    assert_eq!(r[0].args, vec![0, 0x40_2000, 0x802, 0x40_2000, 0x182]);
    let r = duppage(0x802, 0x403, Pte(0x81));
    assert_eq!(r.len(), 1);
    assert_eq!(r[0].args, vec![0, 0x40_3000, 0x802, 0x40_3000, 0x81]);
    let r = duppage(0x802, 0x404, Pte(0x181));
    assert_eq!(r.len(), 1);
    assert_eq!(r[0].args, vec![0, 0x40_4000, 0x802, 0x40_4000, 0x181]);
}

#[test]
fn cow_entry_plan() {
    let p = cow_entry(0x40_1234, Pte(0x0005_5081), 0x7f3f_df00);
    assert_eq!(p.perm.bits(), 0x180);
    assert_eq!(p.alloc.syscall, Syscall::MemAlloc);
    assert_eq!(p.alloc.args, vec![0, UCOW as u32, 0x180]);
    assert_eq!(p.copy_src, 0x40_1000);
    assert_eq!(p.copy_dst, UCOW);
    assert_eq!(p.copy_len, PAGE_SIZE);
    assert_eq!(p.map.syscall, Syscall::MemMap);
    assert_eq!(p.map.args, vec![0, UCOW as u32, 0, 0x40_1234, 0x180]);
    assert_eq!(p.unmap.syscall, Syscall::MemUnmap);
    assert_eq!(p.unmap.args, vec![0, UCOW as u32]);
    assert_eq!(p.resume.syscall, Syscall::SetTrapframe);
    assert_eq!(p.resume.args, vec![0, 0x7f3f_df00]);
}

#[test]
fn fork_then_fault_restores_flags() {
    let r = duppage(0x802, 0x400, Pte(0x780));
    let shared = r[0].args[4] as usize;
    assert_eq!(shared, 0x681);
    let p = cow_entry(0x40_0000, Pte(shared), 0);
    assert_eq!(p.perm.bits(), 0x780);
}

#[test]
fn fork_in_child_returns_zero() {
    let (mut f, a) = fork(0x40_0100, 0x40_0100, 0x7f3f_d000);
    assert_eq!(f.phase, ForkPhase::Forking);
    assert!(matches!(a, ForkAction::Syscall(ref q) if q.syscall == Syscall::Exofork));
    let a = f.step(ForkEvent::Reply(0));
    assert!(matches!(a, ForkAction::Return(0)));
    assert_eq!(f.phase, ForkPhase::Finished);
}

#[test]
fn fork_fails_when_handler_is_refused() {
    let (mut f, a) = fork(0, 0x40_0100, 0x7f3f_d000);
    assert_eq!(f.phase, ForkPhase::SettingHandler);
    match a {
        ForkAction::Syscall(q) => {
            assert_eq!(q.syscall, Syscall::SetTlbModEntry);
            assert_eq!(q.args, vec![0, 0x7f3f_d000]);
        }
        _ => panic!("expected a call"),
    }
    let a = f.step(ForkEvent::Reply(-3));
    assert!(matches!(a, ForkAction::Return(-3)));
    assert_eq!(f.phase, ForkPhase::Finished);
}

#[test]
fn fork_unexpected_event_changes_nothing() {
    let (mut f, _) = fork(0, 1, 2);
    let a = f.step(ForkEvent::Issued);
    assert!(matches!(a, ForkAction::Unexpected));
    assert_eq!(f.phase, ForkPhase::SettingHandler);
    let a = f.step(ForkEvent::Entry(Pte(0x80)));
    assert!(matches!(a, ForkAction::Unexpected));
}

/// Runs a whole `fork` in the parent against a page table in which only the
/// second page directory entry is valid, with three entries below it.
#[test]
fn fork_in_parent_shares_valid_pages() {
    let handler = 0x7f3f_d000u32;
    let child = 0x1802i32;
    let (mut f, mut a) = fork(0, 0x40_0100, handler);
    let mut pde_reads = 0usize;
    let mut pte_reads = Vec::new();
    let mut issued = Vec::new();
    let mut calls = Vec::new();
    let result = loop {
        let ev = match a {
            ForkAction::Syscall(q) => {
                let reply = if q.syscall == Syscall::Exofork { child } else { 0 };
                calls.push((q.syscall, q.args));
                ForkEvent::Reply(reply)
            }
            ForkAction::ReadPde(i) => {
                pde_reads += 1;
                ForkEvent::Entry(Pte(if i == 1 { 0x80 } else { 0 }))
            }
            ForkAction::ReadPte(vpn) => {
                pte_reads.push(vpn);
                let e = match vpn {
                    0x400 => 0x9000_0180,
                    0x401 => 0x9000_1080,
                    0x402 => 0x9000_2000,
                    _ => 0,
                };
                ForkEvent::Entry(Pte(e))
            }
            ForkAction::Issue(reqs) => {
                for q in reqs {
                    issued.push(q.args);
                }
                ForkEvent::Issued
            }
            ForkAction::Return(r) => break r,
            ForkAction::Unexpected => panic!("unexpected event"),
        };
        a = f.step(ev);
    };
    assert_eq!(result, child);
    assert_eq!(f.phase, ForkPhase::Finished);
    assert_eq!(pde_reads, USTACKTOP / PAGE_SIZE);
    assert_eq!(pte_reads, (0x400..0x800).collect::<Vec<usize>>());
    assert_eq!(
        issued,
        vec![
            vec![0, 0x40_0000, 0x1802, 0x40_0000, 0x81],
            vec![0, 0x40_0000, 0, 0x40_0000, 0x81],
            vec![0, 0x40_1000, 0x1802, 0x40_1000, 0x80],
        ]
    );
    assert_eq!(
        calls,
        vec![
            (Syscall::SetTlbModEntry, vec![0, handler]),
            (Syscall::Exofork, vec![]),
            (Syscall::SetTlbModEntry, vec![0x1802, handler]),
            (Syscall::SetEnvStatus, vec![0x1802, 1]),
        ]
    );
}

#[test]
fn fork_goes_on_after_positive_replies() {
    let (mut f, _) = fork(0x40_0100, 0x40_0100, 0x7f3f_d000);
    f.step(ForkEvent::Reply(0x1001));
    f.phase = ForkPhase::SettingChildHandler;
    let a = f.step(ForkEvent::Reply(2));
    assert_eq!(f.phase, ForkPhase::SettingStatus);
    match a {
        ForkAction::Syscall(q) => {
            assert_eq!(q.syscall, Syscall::SetEnvStatus);
            assert_eq!(q.args, vec![0x1001, 1]);
        }
        _ => panic!("expected a call"),
    }
    let a = f.step(ForkEvent::Reply(5));
    assert!(matches!(a, ForkAction::Return(0x1001)));
}

#[test]
fn fork_returns_negative_reply_of_child_setup() {
    let (mut f, _) = fork(0x40_0100, 0x40_0100, 0x7f3f_d000);
    f.step(ForkEvent::Reply(0x1001));
    f.phase = ForkPhase::SettingChildHandler;
    let a = f.step(ForkEvent::Reply(-2));
    assert!(matches!(a, ForkAction::Return(-2)));
    assert_eq!(f.phase, ForkPhase::Finished);
    let (mut f, _) = fork(0x40_0100, 0x40_0100, 0x7f3f_d000);
    f.step(ForkEvent::Reply(0x1001));
    f.phase = ForkPhase::SettingStatus;
    let a = f.step(ForkEvent::Reply(-7));
    assert!(matches!(a, ForkAction::Return(-7)));
}
