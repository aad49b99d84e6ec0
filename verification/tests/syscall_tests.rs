use ape::abi::{
    EFAULT, NR_GETCWD, NR_GETRANDOM, NR_READLINKAT, NR_RT_SIGACTION, NR_RT_SIGPENDING, NR_RT_SIGPROCMASK,
    NR_UNAME, SIGKILL,
    AT_FDCWD, EBADF, EINVAL, ENOENT, ENOSYS, EPERM, ERANGE, ESRCH, FD_CLOEXEC, F_DUPFD,
    F_DUPFD_CLOEXEC, F_GETFD, F_GETFL, F_SETFD, F_SETFL, NR_BRK, NR_DUP, NR_FCNTL, NR_GETPID,
    NR_GETPPID, NR_GETTID, NR_GETUID, NR_MMAP, NR_OPENAT, NR_SETSID, O_APPEND, O_CLOEXEC, O_NONBLOCK,
};
use ape::fd::{
    at_path, chdir_target, complete_chdir, complete_chroot, complete_seek, complete_transfer,
    fchdir_target, fd_cap_slot, install_opened_fd, local_close, local_getcwd, openat_path,
    transfer_request,
};
use ape::runtime::{init_runtime, ApeRuntime};
use ape::state::{ApeProcessIds, Endpoint, FdEntry};
use ape::syscall::{decode_syscall, dispatch_is_defined, dispatch_syscall, ApeRequest, Dispatch, Syscall};

fn neg(code: u32) -> isize {
    -(code as isize)
}

fn runtime_with_ids(pid: usize, ppid: usize, tid: usize) -> ApeRuntime {
    let mut rt = ApeRuntime::uninitialized();
    rt.set_process_ids(ApeProcessIds { pid, ppid, tid });
    rt
}

fn done(d: Dispatch) -> isize {
    match d {
        Dispatch::Done(v) => v,
        Dispatch::Outside(c) => panic!("not answered locally: {:?}", c),
    }
}

fn entry(cap: usize, path: Option<&str>) -> FdEntry {
    FdEntry {
        endpoint: Endpoint { cap },
        offset: 0,
        flags: 0,
        cloexec: false,
        path: path.map(|p| p.to_string()),
    }
}

#[test]
fn ids_before_and_after_bootstrap() {
    let mut rt = ApeRuntime::uninitialized();
    assert_eq!(done(dispatch_syscall(&mut rt, NR_GETPID as usize, [0; 6])), neg(ENOSYS));
    rt.set_process_ids(ApeProcessIds { pid: 5, ppid: 1, tid: 6 });
    assert_eq!(done(dispatch_syscall(&mut rt, NR_GETPID as usize, [0; 6])), 5);
    assert_eq!(done(dispatch_syscall(&mut rt, NR_GETPPID as usize, [0; 6])), 1);
    assert_eq!(done(dispatch_syscall(&mut rt, NR_GETTID as usize, [0; 6])), 6);
}

#[test]
fn unknown_number_is_enosys() {
    let mut rt = ApeRuntime::uninitialized();
    assert_eq!(done(dispatch_syscall(&mut rt, 9999, [0; 6])), neg(ENOSYS));
}

#[test]
fn number_is_read_as_32_bits() {
    let n = (1usize << 32) + NR_GETPID as usize;
    assert!(matches!(decode_syscall(n, [0; 6]), Syscall::Getpid));
}

#[test]
fn set_process_ids_seeds_session_and_group_once() {
    let mut rt = runtime_with_ids(5, 1, 5);
    assert_eq!(rt.process.session_id, 5);
    assert_eq!(rt.process.process_group_id, 5);
    rt.set_process_ids(ApeProcessIds { pid: 9, ppid: 1, tid: 9 });
    assert_eq!(rt.process.session_id, 5);
    assert_eq!(rt.process.process_group_id, 5);
}

#[test]
fn setsid_refused_for_group_leader() {
    let mut rt = runtime_with_ids(5, 1, 5);
    assert_eq!(done(dispatch_syscall(&mut rt, NR_SETSID as usize, [0; 6])), neg(EPERM));
    assert_eq!(ape::process::local_setpgid(&mut rt, 0, 7), 0);
    assert_eq!(rt.process.process_group_id, 7);
    assert_eq!(done(dispatch_syscall(&mut rt, NR_SETSID as usize, [0; 6])), 5);
    assert_eq!(rt.process.session_id, 5);
    assert_eq!(rt.process.process_group_id, 5);
    assert_eq!(ape::process::local_getsid(&rt, 0), 5);
    assert_eq!(done(dispatch_syscall(&mut rt, NR_SETSID as usize, [0; 6])), neg(EPERM));
}

#[test]
fn setpgid_and_getsid_for_other_processes() {
    let mut rt = runtime_with_ids(5, 1, 5);
    assert_eq!(ape::process::local_setpgid(&mut rt, 6, 0), neg(ESRCH));
    assert_eq!(ape::process::local_setpgid(&mut rt, 5, 0), 0);
    assert_eq!(rt.process.process_group_id, 5);
    assert_eq!(ape::process::local_getsid(&rt, 6), neg(ESRCH));
    assert_eq!(ape::process::local_getsid(&rt, 0), 5);
    assert_eq!(ape::process::local_getpgid(&rt, 5), 5);
}

#[test]
fn set_tid_address_records_and_answers_tid() {
    let mut rt = runtime_with_ids(5, 1, 8);
    assert_eq!(ape::process::local_set_tid_address(&mut rt, 0x1234), 8);
    assert_eq!(rt.process.signal.clear_child_tid, 0x1234);
}

#[test]
fn identity_keeps_low_32_bits() {
    let mut rt = ApeRuntime::uninitialized();
    rt.set_identity(1000, (1usize << 32) + 7, 100, 101);
    assert_eq!(done(dispatch_syscall(&mut rt, NR_GETUID as usize, [0; 6])), 1000);
    assert_eq!(ape::process::local_geteuid(&rt), 7);
    assert_eq!(ape::process::local_getgid(&rt), 100);
    assert_eq!(ape::process::local_getegid(&rt), 101);
}

#[test]
fn brk_moves_within_heap() {
    let mut rt = ApeRuntime::uninitialized();
    rt.set_memory_seed(0x1000, 0x1000, 0x9000, 0, 0x10000, usize::MAX);
    assert_eq!(done(dispatch_syscall(&mut rt, NR_BRK as usize, [0; 6])), 0x1000);
    assert_eq!(done(dispatch_syscall(&mut rt, NR_BRK as usize, [0x3000, 0, 0, 0, 0, 0])), 0x3000);
    assert_eq!(done(dispatch_syscall(&mut rt, NR_BRK as usize, [0x500, 0, 0, 0, 0, 0])), 0x3000);
    assert_eq!(done(dispatch_syscall(&mut rt, NR_BRK as usize, [0xA000, 0, 0, 0, 0, 0])), 0x3000);
    assert_eq!(rt.process.memory.brk_current, 0x3000);
}

#[test]
fn first_brk_fixes_heap_start() {
    let mut rt = ApeRuntime::uninitialized();
    assert_eq!(ape::memory::local_brk(&mut rt, 0x4000), 0x4000);
    assert_eq!(rt.process.memory.brk_start, 0x4000);
}

#[test]
fn mmap_places_and_rounds_to_pages() {
    let mut rt = ApeRuntime::uninitialized();
    rt.set_memory_seed(0, 0, 0, 0x10000, 0x10000, usize::MAX);
    let a = done(dispatch_syscall(&mut rt, NR_MMAP as usize, [0, 1, 3, 0x22, usize::MAX, 0]));
    assert_eq!(a, 0x10000);
    assert_eq!(rt.process.memory.mmap_next, 0x11000);
    let b = done(dispatch_syscall(&mut rt, NR_MMAP as usize, [0, 0x1001, 1, 2, 4, 0x40]));
    assert_eq!(b, 0x11000);
    assert_eq!(rt.process.memory.mmap_next, 0x13000);
    let m = rt.process.memory.maps.get(&0x11000).unwrap();
    assert_eq!(m.backing_fd, Some(4));
    assert_eq!(m.mem_type, ape::state::MemoryType::FileBacked);
    let m = rt.process.memory.maps.get(&0x10000).unwrap();
    assert_eq!(m.backing_fd, None);
    assert_eq!(m.mem_type, ape::state::MemoryType::Anonymous);
    assert_eq!(ape::memory::local_mprotect(&mut rt, 0x10000, 1, 1), 0);
    assert_eq!(rt.process.memory.maps.get(&0x10000).unwrap().prot, 1);
    assert_eq!(ape::memory::local_mprotect(&mut rt, 0x20000, 1, 1), neg(EINVAL));
    assert_eq!(ape::memory::local_munmap(&mut rt, 0x10000, 1), 0);
    assert!(rt.process.memory.maps.get(&0x10000).is_none());
}

#[test]
fn mmap_overflow_is_not_defined() {
    let mut rt = ApeRuntime::uninitialized();
    rt.set_memory_seed(0, 0, 0, 0, usize::MAX - 0x1000, usize::MAX);
    let call = decode_syscall(NR_MMAP as usize, [0, 0x2000, 0, 0, 0, 0]);
    assert!(!dispatch_is_defined(&rt, &call));
    let call = decode_syscall(NR_MMAP as usize, [0x5000, 0x2000, 0, 0, 0, 0]);
    assert!(dispatch_is_defined(&rt, &call));
}

#[test]
fn dup_and_dup3() {
    let mut rt = ApeRuntime::uninitialized();
    rt.process.fds.table.insert(0, entry(40, Some("/dev/tty")));
    rt.process.fds.next_fd = 3;
    assert_eq!(done(dispatch_syscall(&mut rt, NR_DUP as usize, [0, 0, 0, 0, 0, 0])), 3);
    assert_eq!(rt.process.fds.next_fd, 4);
    assert_eq!(rt.process.fds.table.get(&3).unwrap().endpoint.cap, 40);
    assert_eq!(done(dispatch_syscall(&mut rt, NR_DUP as usize, [7, 0, 0, 0, 0, 0])), neg(EBADF));
    assert_eq!(ape::fd::local_dup3(&mut rt, 0, 10, 0), 10);
    assert_eq!(rt.process.fds.table.get(&10).unwrap().path.as_deref(), Some("/dev/tty"));
    assert_eq!(ape::fd::local_dup3(&mut rt, 11, 12, 0), neg(EBADF));
}

#[test]
fn fcntl_flags() {
    let mut rt = ApeRuntime::uninitialized();
    let mut e = entry(40, None);
    e.flags = 2;
    rt.process.fds.table.insert(3, e);
    let fc = |rt: &mut ApeRuntime, cmd: u32, arg: usize| done(dispatch_syscall(rt, NR_FCNTL as usize, [3, cmd as usize, arg, 0, 0, 0]));
    assert_eq!(fc(&mut rt, F_GETFD, 0), 0);
    assert_eq!(fc(&mut rt, F_SETFD, FD_CLOEXEC as usize), 0);
    assert_eq!(fc(&mut rt, F_GETFD, 0), FD_CLOEXEC as isize);
    assert_eq!(fc(&mut rt, F_GETFL, 0), 2);
    assert_eq!(fc(&mut rt, F_SETFL, (O_APPEND | O_NONBLOCK | 0x8000) as usize), 0);
    assert_eq!(fc(&mut rt, F_GETFL, 0), (2 | O_APPEND | O_NONBLOCK) as isize);
    assert_eq!(fc(&mut rt, 999, 0), neg(EINVAL));
    assert_eq!(done(dispatch_syscall(&mut rt, NR_FCNTL as usize, [4, F_GETFD as usize, 0, 0, 0, 0])), neg(EBADF));
}

#[test]
fn fcntl_dupfd_takes_lowest_free() {
    let mut rt = ApeRuntime::uninitialized();
    rt.process.fds.table.insert(3, entry(40, None));
    rt.process.fds.table.insert(5, entry(41, None));
    rt.process.fds.table.insert(6, entry(42, None));
    rt.process.fds.next_fd = 7;
    assert_eq!(ape::fd::local_fcntl(&mut rt, 3, F_DUPFD as usize, 5), 7);
    assert_eq!(rt.process.fds.next_fd, 8);
    assert_eq!(ape::fd::local_fcntl(&mut rt, 3, F_DUPFD_CLOEXEC as usize, 4), 4);
    assert!(rt.process.fds.table.get(&4).unwrap().cloexec);
    assert_eq!(rt.process.fds.next_fd, 8);
    assert_eq!(ape::fd::local_fcntl(&mut rt, 3, F_DUPFD as usize, usize::MAX), neg(EINVAL));
}

#[test]
fn fcntl_dupfd_at_the_top() {
    let mut rt = ApeRuntime::uninitialized();
    rt.process.fds.table.insert(3, entry(40, None));
    rt.process.fds.table.insert(i32::MAX, entry(41, None));
    assert_eq!(ape::fd::local_fcntl(&mut rt, 3, F_DUPFD as usize, i32::MAX as usize), neg(EINVAL));
    assert_eq!(ape::fd::local_fcntl(&mut rt, 3, F_DUPFD as usize, (i32::MAX - 1) as usize), (i32::MAX - 1) as isize);
    assert_eq!(rt.process.fds.next_fd, i32::MAX);
}

#[test]
fn close_hands_back_endpoint() {
    let mut rt = ApeRuntime::uninitialized();
    rt.process.fds.table.insert(3, entry(40, None));
    assert_eq!(local_close(&mut rt, 3).unwrap().cap, 40);
    assert_eq!(local_close(&mut rt, 3).unwrap_err(), neg(EBADF));
}

#[test]
fn transfers_advance_the_offset() {
    let mut rt = ApeRuntime::uninitialized();
    rt.process.fds.table.insert(3, entry(40, None));
    let req = transfer_request(&rt, 3, 100_000).unwrap();
    assert_eq!(req.len, 8192);
    assert_eq!(req.offset, 0);
    assert_eq!(complete_transfer(&mut rt, 3, 10), 10);
    assert_eq!(transfer_request(&rt, 3, 5).unwrap().offset, 10);
    assert_eq!(transfer_request(&rt, 3, 5).unwrap().len, 5);
    assert_eq!(complete_seek(&mut rt, 3, 2), 2);
    assert_eq!(rt.process.fds.table.get(&3).unwrap().offset, 2);
    assert_eq!(transfer_request(&rt, 4, 5).unwrap_err(), neg(EBADF));
}

#[test]
fn openat_paths() {
    let mut rt = ApeRuntime::uninitialized();
    rt.process.fds.root_dir = "/jail".to_string();
    rt.process.fds.cwd = "/jail/home".to_string();
    rt.process.fds.table.insert(3, entry(40, Some("/jail/etc")));
    rt.process.fds.table.insert(4, entry(41, Some("rel")));
    rt.process.fds.table.insert(5, entry(42, None));
    assert_eq!(openat_path(&rt, AT_FDCWD, "f").unwrap(), "/jail/home/f");
    assert_eq!(openat_path(&rt, 3, "f").unwrap(), "/jail/etc/f");
    assert_eq!(openat_path(&rt, 4, "f").unwrap(), "/jail/home/f");
    assert_eq!(openat_path(&rt, 5, "f").unwrap_err(), neg(EBADF));
    assert_eq!(openat_path(&rt, 9, "/abs").unwrap(), "/jail/abs");
    assert_eq!(at_path(&rt, 3, "f").unwrap(), "/jail/etc/f");
    assert_eq!(at_path(&rt, 4, "f").unwrap(), "/jail/rel/f");
    assert_eq!(at_path(&rt, 9, "f").unwrap_err(), neg(EBADF));
}

#[test]
fn openat_installs_the_next_descriptor() {
    let mut rt = ApeRuntime::uninitialized();
    rt.process.fds.next_fd = 3;
    assert_eq!(fd_cap_slot(3), 131);
    assert_eq!(install_opened_fd(&mut rt, "/a".to_string(), O_CLOEXEC | 1), 3);
    let e = rt.process.fds.table.get(&3).unwrap();
    assert_eq!(e.endpoint.cap, 131);
    assert!(e.cloexec);
    assert_eq!(e.flags, O_CLOEXEC | 1);
    assert_eq!(rt.process.fds.next_fd, 4);
}

#[test]
fn chdir_and_chroot() {
    let mut rt = ApeRuntime::uninitialized();
    assert_eq!(chdir_target(&rt, "").unwrap_err(), neg(ENOENT));
    assert_eq!(chdir_target(&rt, "/x").unwrap_err(), neg(ENOSYS));
    rt.set_ape_endpoint(Endpoint { cap: 12 });
    let (ep, dir) = chdir_target(&rt, "x/../y").unwrap();
    assert_eq!(ep.cap, 12);
    assert_eq!(dir, "/y");
    assert_eq!(complete_chdir(&mut rt, dir.clone(), 0o100644), neg(EINVAL));
    assert_eq!(complete_chdir(&mut rt, dir, 0o040755), 0);
    assert_eq!(rt.process.fds.cwd, "/y");
    assert_eq!(complete_chroot(&mut rt, "/jail".to_string(), 0o040755), 0);
    assert_eq!(rt.process.fds.root_dir, "/jail");
    assert_eq!(rt.process.fds.cwd, "/jail");
}

#[test]
fn fchdir_needs_a_recorded_path() {
    let mut rt = ApeRuntime::uninitialized();
    rt.process.fds.table.insert(3, entry(40, Some("/d")));
    rt.process.fds.table.insert(4, entry(41, None));
    let (ep, p) = fchdir_target(&rt, 3).unwrap();
    assert_eq!((ep.cap, p.as_str()), (40, "/d"));
    assert_eq!(fchdir_target(&rt, 4).unwrap_err(), neg(EINVAL));
    assert_eq!(fchdir_target(&rt, 5).unwrap_err(), neg(EBADF));
}

#[test]
fn getcwd_inside_root() {
    let mut rt = ApeRuntime::uninitialized();
    rt.process.fds.root_dir = "/jail".to_string();
    rt.process.fds.cwd = "/jail/x".to_string();
    assert_eq!(local_getcwd(&rt, 0x100, 16).unwrap(), b"/x\0".to_vec());
    assert_eq!(local_getcwd(&rt, 0x100, 2).unwrap_err(), neg(ERANGE));
    assert_eq!(local_getcwd(&rt, 0, 16).unwrap_err(), neg(ape::abi::EFAULT));
    assert_eq!(local_getcwd(&rt, 0x100, 0).unwrap_err(), neg(EINVAL));
    rt.process.fds.cwd = "/elsewhere".to_string();
    assert_eq!(local_getcwd(&rt, 0x100, 16).unwrap(), b"/\0".to_vec());
}

#[test]
fn calls_needing_outside_work_are_handed_on() {
    let mut rt = ApeRuntime::uninitialized();
    match dispatch_syscall(&mut rt, NR_OPENAT as usize, [(-100i64) as usize, 0x1000, 0x42, 0o644, 0, 0]) {
        Dispatch::Outside(Syscall::Openat { dirfd, path, flags, mode }) => {
            assert_eq!((dirfd, path, flags, mode), (AT_FDCWD, 0x1000, 0x42, 0o644));
        }
        other => panic!("unexpected {:?}", other),
    }
    match dispatch_syscall(&mut rt, 220, [1, 2, 3, 4, 5, 6]) {
        Dispatch::Outside(Syscall::Ape { request, args }) => {
            assert_eq!(request, ApeRequest::Clone);
            assert_eq!(args, [1, 2, 3, 4, 5, 6]);
        }
        other => panic!("unexpected {:?}", other),
    }
}

#[test]
fn init_runtime_creates_then_keeps() {
    let mut slot: Option<ApeRuntime> = None;
    init_runtime(&mut slot);
    assert!(slot.as_ref().unwrap().initialized());
    assert!(!slot.as_ref().unwrap().bootstrap_ready());
    slot.as_mut().unwrap().set_bootstrap_ready(true);
    slot.as_mut().unwrap().set_process_ids(ApeProcessIds { pid: 3, ppid: 1, tid: 3 });
    init_runtime(&mut slot);
    let rt = slot.unwrap();
    assert!(rt.bootstrap_ready());
    assert_eq!(rt.process_ids().unwrap().pid, 3);
}

#[test]
fn dup_copy_outlives_closing_its_source() {
    let mut rt = ApeRuntime::uninitialized();
    rt.process.fds.table.insert(0, entry(40, Some("/etc/motd")));
    rt.process.fds.next_fd = 3;
    assert_eq!(ape::fd::local_dup(&mut rt, 0), 3);
    assert_eq!(local_close(&mut rt, 0).unwrap().cap, 40);
    assert!(rt.process.fds.table.get(&0).is_none());
    assert_eq!(rt.process.fds.table.get(&3).unwrap().endpoint.cap, 40);
    assert_eq!(rt.process.fds.table.get(&3).unwrap().path.as_deref(), Some("/etc/motd"));
}

#[test]
fn dup_onto_its_own_number_leaves_no_copy() {
    let mut rt = ApeRuntime::uninitialized();
    rt.process.fds.table.insert(3, entry(40, None));
    rt.process.fds.next_fd = 3;
    assert_eq!(ape::fd::local_dup(&mut rt, 3), 3);
    assert_eq!(rt.process.fds.table.len(), 1);
    assert_eq!(local_close(&mut rt, 3).unwrap().cap, 40);
    assert!(rt.process.fds.table.is_empty());
}

#[test]
fn dup3_then_close_moves_the_entry() {
    let mut rt = ApeRuntime::uninitialized();
    rt.process.fds.table.insert(4, entry(44, Some("/tmp/x")));
    rt.process.fds.table.insert(9, entry(99, None));
    assert_eq!(ape::fd::local_dup3(&mut rt, 4, 9, 0), 9);
    assert_eq!(local_close(&mut rt, 4).unwrap().cap, 44);
    assert!(rt.process.fds.table.get(&4).is_none());
    assert_eq!(rt.process.fds.table.get(&9).unwrap().endpoint.cap, 44);
    assert_eq!(rt.process.fds.table.len(), 1);
}

#[test]
fn getcwd_after_chroot_is_slash() {
    let mut rt = ApeRuntime::uninitialized();
    rt.process.fds.cwd = "/home/user".to_string();
    assert_eq!(complete_chroot(&mut rt, "/srv/jail".to_string(), 0o040755), 0);
    assert_eq!(local_getcwd(&rt, 0x100, 16).unwrap(), b"/\0".to_vec());
}

#[test]
fn forwarded_registers_follow_fault_order() {
    let r = ape::syscall::forward_registers(63, [3, 0x1000, 16, 7, 8, 9]);
    assert_eq!(r, [63, 3, 0x1000, 16, 7, 8, 9, 0]);
}

#[test]
fn daemon_reads_number_from_register_seven() {
    match ape::syscall::daemon_step(true, [1, 2, 3, 4, 5, 6, 77, 172]) {
        ape::syscall::DaemonStep::Run { sys_num, args } => {
            assert_eq!(sys_num, 172);
            assert_eq!(args, [1, 2, 3, 4, 5, 6]);
        }
        other => panic!("unexpected {:?}", other),
    }
    match ape::syscall::daemon_step(false, [0; 8]) {
        ape::syscall::DaemonStep::Refuse(e) => assert_eq!(e, neg(ENOSYS)),
        other => panic!("unexpected {:?}", other),
    }
}

#[test]
fn refusals_without_caller_memory_are_answered_here() {
    let mut rt = ApeRuntime::uninitialized();
    let mut run = |n: u32, a: [usize; 6]| dispatch_syscall(&mut rt, n as usize, a);
    assert_eq!(done(run(NR_GETCWD, [0x1000, 0, 0, 0, 0, 0])), neg(EINVAL));
    assert_eq!(done(run(NR_GETCWD, [0, 16, 0, 0, 0, 0])), neg(EFAULT));
    assert_eq!(done(run(NR_GETCWD, [0x1000, 1, 0, 0, 0, 0])), neg(ERANGE));
    assert!(matches!(run(NR_GETCWD, [0x1000, 16, 0, 0, 0, 0]), Dispatch::Outside(Syscall::Getcwd { buf: 0x1000, size: 16 })));
    assert_eq!(done(run(NR_UNAME, [0; 6])), neg(EFAULT));
    assert!(matches!(run(NR_UNAME, [0x2000, 0, 0, 0, 0, 0]), Dispatch::Outside(_)));
    assert_eq!(done(run(NR_READLINKAT, [0, 0x100, 0x200, 0, 0, 0])), 0);
    assert_eq!(done(run(NR_READLINKAT, [0, 0x100, 0, 8, 0, 0])), neg(EFAULT));
    assert!(matches!(run(NR_READLINKAT, [0, 0x100, 0x200, 8, 0, 0]), Dispatch::Outside(_)));
    assert_eq!(done(run(NR_RT_SIGACTION, [SIGKILL as usize, 0, 0, 8, 0, 0])), neg(EINVAL));
    assert_eq!(done(run(NR_RT_SIGACTION, [2, 0, 0, 4, 0, 0])), neg(EINVAL));
    assert!(matches!(run(NR_RT_SIGACTION, [2, 0, 0, 8, 0, 0]), Dispatch::Outside(_)));
    assert_eq!(done(run(NR_RT_SIGPROCMASK, [0, 0, 0, 16, 0, 0])), neg(EINVAL));
    assert_eq!(done(run(NR_RT_SIGPENDING, [0, 7, 0, 0, 0, 0])), neg(EINVAL));
    assert_eq!(done(run(NR_GETRANDOM, [0, 4, 0, 0, 0, 0])), neg(EFAULT));
    assert!(matches!(run(NR_GETRANDOM, [0, 0, 0, 0, 0, 0]), Dispatch::Outside(_)));
}
