use ape::abi;
use ape::state::{ApeProcessIds, ApeProcessState, FdTable, FutexState, MemoryState, SignalState};
use linux_raw_sys::errno as le;
use linux_raw_sys::general as lg;

#[test]
fn error_numbers_match_linux() {
    let pairs = [
        (abi::EPERM, le::EPERM),
        (abi::ENOENT, le::ENOENT),
        (abi::ESRCH, le::ESRCH),
        (abi::EINTR, le::EINTR),
        (abi::EIO, le::EIO),
        (abi::EBADF, le::EBADF),
        (abi::EAGAIN, le::EAGAIN),
        (abi::ENOMEM, le::ENOMEM),
        (abi::EACCES, le::EACCES),
        (abi::EFAULT, le::EFAULT),
        (abi::EBUSY, le::EBUSY),
        (abi::EEXIST, le::EEXIST),
        (abi::EINVAL, le::EINVAL),
        (abi::EMFILE, le::EMFILE),
        (abi::ENOTTY, le::ENOTTY),
        (abi::ERANGE, le::ERANGE),
        (abi::ENAMETOOLONG, le::ENAMETOOLONG),
        (abi::ENOSYS, le::ENOSYS),
        (abi::ETIMEDOUT, le::ETIMEDOUT),
    ];
    for (ours, linux) in pairs {
        assert_eq!(ours, linux);
    }
    assert_eq!(abi::errno(abi::ENOSYS), -38);
}

#[test]
fn flags_match_linux() {
    assert_eq!(abi::O_APPEND, lg::O_APPEND);
    assert_eq!(abi::O_NONBLOCK, lg::O_NONBLOCK);
    assert_eq!(abi::O_CLOEXEC, lg::O_CLOEXEC);
    assert_eq!(abi::F_DUPFD, lg::F_DUPFD);
    assert_eq!(abi::F_GETFD, lg::F_GETFD);
    assert_eq!(abi::F_SETFD, lg::F_SETFD);
    assert_eq!(abi::F_GETFL, lg::F_GETFL);
    assert_eq!(abi::F_SETFL, lg::F_SETFL);
    assert_eq!(abi::F_DUPFD_CLOEXEC, lg::F_DUPFD_CLOEXEC);
    assert_eq!(abi::FD_CLOEXEC, lg::FD_CLOEXEC);
    assert_eq!(abi::AT_FDCWD, lg::AT_FDCWD);
    assert_eq!(abi::SIGKILL, lg::SIGKILL);
    assert_eq!(abi::SIGSTOP, lg::SIGSTOP);
    assert_eq!(abi::SIG_BLOCK, lg::SIG_BLOCK);
    assert_eq!(abi::SIG_UNBLOCK, lg::SIG_UNBLOCK);
    assert_eq!(abi::SIG_SETMASK, lg::SIG_SETMASK);
    assert_eq!(abi::S_IFMT, lg::S_IFMT);
    assert_eq!(abi::S_IFDIR, lg::S_IFDIR);
    assert_eq!(abi::STDERR_FILENO, lg::STDERR_FILENO);
    assert_eq!(ape::misc::FIRST_USER_FD, lg::STDERR_FILENO + 1);
    assert_eq!(ape::misc::SIGSEGV_EXIT_CODE, 128 + lg::SIGSEGV as usize);
    assert_eq!(ape::misc::SIGILL_EXIT_CODE, 128 + lg::SIGILL as usize);
    assert_eq!(ape::misc::SIGTRAP_EXIT_CODE, 128 + lg::SIGTRAP as usize);
    assert_eq!(ape::misc::UNKNOWN_FAULT_EXIT_CODE, 128 + lg::SIGBUS as usize);
}

#[test]
fn fresh_state() {
    let p = ApeProcessState::new();
    assert!(p.ids.is_none());
    assert_eq!(p.session_id, 0);
    assert_eq!(p.fds.cwd, "/");
    assert_eq!(p.fds.root_dir, "/");
    assert_eq!(p.memory.heap_limit, usize::MAX);
    assert_eq!(p.memory.mmap_limit, usize::MAX);
    assert!(p.ape_endpoint.is_none());
    let t = FdTable::new();
    assert!(t.table.is_empty());
    assert_eq!(t.next_fd, 0);
    let m = MemoryState::new();
    assert!(m.maps.is_empty());
    assert_eq!(m.brk_current, 0);
    let s = SignalState::new();
    assert!(s.actions.is_empty());
    assert_eq!(s.blocked, 0);
    let f = FutexState::new();
    assert!(f.waiters.is_empty());
}

#[test]
fn ids_validity() {
    assert!(ApeProcessIds { pid: 1, ppid: 0, tid: 1 }.valid());
    assert!(!ApeProcessIds { pid: 0, ppid: 0, tid: 1 }.valid());
    assert!(!ApeProcessIds { pid: 1, ppid: 0, tid: 0 }.valid());
}
