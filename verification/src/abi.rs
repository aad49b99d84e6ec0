//! Linux ABI numbers that the system-call layer answers with: error numbers,
//! the generic (riscv64) system-call numbers, and flag values.
use vstd::prelude::*;

verus! {

pub const EPERM: u32 = 1;
pub const ENOENT: u32 = 2;
pub const ESRCH: u32 = 3;
pub const EINTR: u32 = 4;
pub const EIO: u32 = 5;
pub const EBADF: u32 = 9;
pub const EAGAIN: u32 = 11;
pub const ENOMEM: u32 = 12;
pub const EACCES: u32 = 13;
pub const EFAULT: u32 = 14;
pub const EBUSY: u32 = 16;
pub const EEXIST: u32 = 17;
pub const EINVAL: u32 = 22;
pub const EMFILE: u32 = 24;
pub const ENOTTY: u32 = 25;
pub const ERANGE: u32 = 34;
pub const ENAMETOOLONG: u32 = 36;
pub const ENOSYS: u32 = 38;
pub const ETIMEDOUT: u32 = 110;

/// The negated error number, as a system call returns it.
pub open spec fn errno_spec(code: u32) -> isize {
    (-(code as int)) as isize
}

/// The negated error number, as a system call returns it (every `u32` on
/// the 64-bit target, where `isize` holds it).
pub fn errno(code: u32) -> (r: isize)
    requires
        code <= isize::MAX,
    ensures
        r == errno_spec(code),
        r == -(code as int),
{
    -(code as isize)
}

pub const NR_GETCWD: u32 = 17;
pub const NR_DUP: u32 = 23;
pub const NR_DUP3: u32 = 24;
pub const NR_FCNTL: u32 = 25;
pub const NR_MKDIRAT: u32 = 34;
pub const NR_UNLINKAT: u32 = 35;
pub const NR_CHDIR: u32 = 49;
pub const NR_FCHDIR: u32 = 50;
pub const NR_CHROOT: u32 = 51;
pub const NR_OPENAT: u32 = 56;
pub const NR_CLOSE: u32 = 57;
pub const NR_GETDENTS64: u32 = 61;
pub const NR_LSEEK: u32 = 62;
pub const NR_READ: u32 = 63;
pub const NR_WRITE: u32 = 64;
pub const NR_READLINKAT: u32 = 78;
pub const NR_NEWFSTATAT: u32 = 79;
pub const NR_FSTAT: u32 = 80;
pub const NR_EXIT: u32 = 93;
pub const NR_EXIT_GROUP: u32 = 94;
pub const NR_SET_TID_ADDRESS: u32 = 96;
pub const NR_SCHED_YIELD: u32 = 124;
pub const NR_KILL: u32 = 129;
pub const NR_RT_SIGACTION: u32 = 134;
pub const NR_RT_SIGPROCMASK: u32 = 135;
pub const NR_RT_SIGPENDING: u32 = 136;
pub const NR_SETPGID: u32 = 154;
pub const NR_GETPGID: u32 = 155;
pub const NR_GETSID: u32 = 156;
pub const NR_SETSID: u32 = 157;
pub const NR_UNAME: u32 = 160;
pub const NR_GETPID: u32 = 172;
pub const NR_GETPPID: u32 = 173;
pub const NR_GETUID: u32 = 174;
pub const NR_GETEUID: u32 = 175;
pub const NR_GETGID: u32 = 176;
pub const NR_GETEGID: u32 = 177;
pub const NR_GETTID: u32 = 178;
pub const NR_BRK: u32 = 214;
pub const NR_MUNMAP: u32 = 215;
pub const NR_CLONE: u32 = 220;
pub const NR_EXECVE: u32 = 221;
pub const NR_MMAP: u32 = 222;
pub const NR_MPROTECT: u32 = 226;
pub const NR_WAIT4: u32 = 260;
pub const NR_GETRANDOM: u32 = 278;

pub const O_APPEND: u32 = 1024;
pub const O_NONBLOCK: u32 = 2048;
pub const O_CLOEXEC: u32 = 524288;

pub const F_DUPFD: u32 = 0;
pub const F_GETFD: u32 = 1;
pub const F_SETFD: u32 = 2;
pub const F_GETFL: u32 = 3;
pub const F_SETFL: u32 = 4;
pub const F_DUPFD_CLOEXEC: u32 = 1030;
pub const FD_CLOEXEC: u32 = 1;

pub const AT_FDCWD: i32 = -100;

pub const SIGKILL: u32 = 9;
pub const SIGSTOP: u32 = 19;
pub const SIG_BLOCK: u32 = 0;
pub const SIG_UNBLOCK: u32 = 1;
pub const SIG_SETMASK: u32 = 2;

pub const S_IFMT: u32 = 61440;
pub const S_IFDIR: u32 = 16384;

pub const STDERR_FILENO: u32 = 2;

} // verus!
