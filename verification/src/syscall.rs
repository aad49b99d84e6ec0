//! Decoding system-call numbers and arguments, and answering the calls that
//! the process state alone decides.
use vstd::prelude::*;
use crate::abi::{
    errno, errno_spec, EFAULT, EINVAL, ENOSYS, NR_BRK, NR_CHDIR, NR_CHROOT, NR_CLONE, NR_CLOSE, NR_DUP, NR_DUP3,
    NR_EXECVE, NR_EXIT, NR_EXIT_GROUP, NR_FCHDIR, NR_FCNTL, NR_FSTAT, NR_GETCWD, NR_GETDENTS64,
    NR_GETEGID, NR_GETEUID, NR_GETGID, NR_GETPGID, NR_GETPID, NR_GETPPID, NR_GETRANDOM, NR_GETSID,
    NR_GETTID, NR_GETUID, NR_KILL, NR_LSEEK, NR_MKDIRAT, NR_MMAP, NR_MPROTECT, NR_MUNMAP,
    NR_NEWFSTATAT, NR_OPENAT, NR_READ, NR_READLINKAT, NR_RT_SIGACTION, NR_RT_SIGPENDING,
    NR_RT_SIGPROCMASK, NR_SCHED_YIELD, NR_SETPGID, NR_SETSID, NR_SET_TID_ADDRESS, NR_UNAME,
    NR_UNLINKAT, NR_WAIT4, NR_WRITE,
};
use crate::fd::{
    dup3_post, dup_post, fcntl_post, getcwd_result, local_dup, local_dup3, local_fcntl, local_getcwd,
};
use crate::misc::readlink_precheck;
use crate::user_mem::check_user_buffer;
use crate::signal::{settable_signal, sigaction_check, sigset_size_check, SIGSET_SIZE};
use crate::memory::{
    brk_post, local_brk, local_mmap, local_mprotect, local_munmap, mmap_fits, mmap_fits_spec,
    mmap_post, mprotect_post, munmap_post,
};
use crate::process::{
    getpgid_result, getpid_result, getppid_result, getsid_result, gettid_result, local_getegid,
    local_geteuid, local_getgid, local_getpgid, local_getpid, local_getppid, local_getsid,
    local_gettid, local_getuid, local_set_tid_address, local_setpgid, local_setsid,
    set_tid_address_post, setpgid_post, setsid_post,
};
use crate::runtime::{ApeRuntime, same_flags};
use crate::state::ApeProcessState;

verus! {

/// The requests that the APE service carries out for the process.
#[derive(Debug, Clone, Copy, PartialEq, Eq)]
pub enum ApeRequest {
    Clone,
    Execve,
    Wait,
    Exit,
    Signal,
}

/// A decoded system call. Addresses in the caller's memory are plain `usize`s.
#[derive(Debug, Clone, Copy)]
pub enum Syscall {
    Getpid,
    Gettid,
    Getppid,
    SetTidAddress { ptr: usize },
    SchedYield,
    Ape { request: ApeRequest, args: [usize; 6] },
    Setsid,
    Setpgid { pid: usize, pgid: usize },
    Getsid { pid: usize },
    Getpgid { pid: usize },
    Brk { addr: usize },
    Mmap { addr: usize, len: usize, prot: usize, flags: usize, fd: i32, offset: usize },
    Munmap { addr: usize, len: usize },
    Mprotect { addr: usize, len: usize, prot: u32 },
    Openat { dirfd: i32, path: usize, flags: u32, mode: u32 },
    Read { fd: i32, buf: usize, len: usize },
    Write { fd: i32, buf: usize, len: usize },
    Close { fd: i32 },
    Lseek { fd: i32, offset: i64, whence: usize },
    Dup { fd: i32 },
    Dup3 { oldfd: i32, newfd: i32, flags: u32 },
    Getdents64 { fd: i32, buf: usize, count: usize },
    Newfstatat { dirfd: i32, path: usize, statbuf: usize, flags: u32 },
    Readlinkat { dirfd: i32, path: usize, buf: usize, bufsiz: usize },
    Fstat { fd: i32, statbuf: usize },
    Mkdirat { dirfd: i32, path: usize, mode: u32 },
    Unlinkat { dirfd: i32, path: usize, flags: u32 },
    Fcntl { fd: i32, cmd: usize, arg: usize },
    Getcwd { buf: usize, size: usize },
    Chdir { path: usize },
    Fchdir { fd: i32 },
    Chroot { path: usize },
    Uname { buf: usize },
    Getuid,
    Geteuid,
    Getgid,
    Getegid,
    RtSigaction { signum: usize, act: usize, oldact: usize, sigsetsize: usize },
    RtSigprocmask { how: usize, set: usize, oldset: usize, sigsetsize: usize },
    RtSigpending { set: usize, sigsetsize: usize },
    Getrandom { buf: usize, len: usize },
    Unknown,
}

/// The call that number `sys_num` (read as a 32-bit number) names, with its
/// arguments read as the call's parameter types.
pub open spec fn decode_spec(sys_num: usize, a: [usize; 6]) -> Syscall {
    let n = sys_num as u32;
    if n == NR_GETPID {
        Syscall::Getpid
    } else if n == NR_GETTID {
        Syscall::Gettid
    } else if n == NR_GETPPID {
        Syscall::Getppid
    } else if n == NR_SET_TID_ADDRESS {
        Syscall::SetTidAddress { ptr: a@[0] }
    } else if n == NR_SCHED_YIELD {
        Syscall::SchedYield
    } else if n == NR_CLONE {
        Syscall::Ape { request: ApeRequest::Clone, args: a }
    } else if n == NR_EXECVE {
        Syscall::Ape { request: ApeRequest::Execve, args: a }
    } else if n == NR_WAIT4 {
        Syscall::Ape { request: ApeRequest::Wait, args: a }
    } else if n == NR_EXIT || n == NR_EXIT_GROUP {
        Syscall::Ape { request: ApeRequest::Exit, args: a }
    } else if n == NR_KILL {
        Syscall::Ape { request: ApeRequest::Signal, args: a }
    } else if n == NR_SETSID {
        Syscall::Setsid
    } else if n == NR_SETPGID {
        Syscall::Setpgid { pid: a@[0], pgid: a@[1] }
    } else if n == NR_GETSID {
        Syscall::Getsid { pid: a@[0] }
    } else if n == NR_GETPGID {
        Syscall::Getpgid { pid: a@[0] }
    } else if n == NR_BRK {
        Syscall::Brk { addr: a@[0] }
    } else if n == NR_MMAP {
        Syscall::Mmap { addr: a@[0], len: a@[1], prot: a@[2], flags: a@[3], fd: a@[4] as i32, offset: a@[5] }
    } else if n == NR_MUNMAP {
        Syscall::Munmap { addr: a@[0], len: a@[1] }
    } else if n == NR_MPROTECT {
        Syscall::Mprotect { addr: a@[0], len: a@[1], prot: a@[2] as u32 }
    } else if n == NR_OPENAT {
        Syscall::Openat { dirfd: a@[0] as i32, path: a@[1], flags: a@[2] as u32, mode: a@[3] as u32 }
    } else if n == NR_READ {
        Syscall::Read { fd: a@[0] as i32, buf: a@[1], len: a@[2] }
    } else if n == NR_WRITE {
        Syscall::Write { fd: a@[0] as i32, buf: a@[1], len: a@[2] }
    } else if n == NR_CLOSE {
        Syscall::Close { fd: a@[0] as i32 }
    } else if n == NR_LSEEK {
        Syscall::Lseek { fd: a@[0] as i32, offset: a@[1] as i64, whence: a@[2] }
    } else if n == NR_DUP {
        Syscall::Dup { fd: a@[0] as i32 }
    } else if n == NR_DUP3 {
        Syscall::Dup3 { oldfd: a@[0] as i32, newfd: a@[1] as i32, flags: a@[2] as u32 }
    } else if n == NR_GETDENTS64 {
        Syscall::Getdents64 { fd: a@[0] as i32, buf: a@[1], count: a@[2] }
    } else if n == NR_NEWFSTATAT {
        Syscall::Newfstatat { dirfd: a@[0] as i32, path: a@[1], statbuf: a@[2], flags: a@[3] as u32 }
    } else if n == NR_READLINKAT {
        Syscall::Readlinkat { dirfd: a@[0] as i32, path: a@[1], buf: a@[2], bufsiz: a@[3] }
    } else if n == NR_FSTAT {
        Syscall::Fstat { fd: a@[0] as i32, statbuf: a@[1] }
    } else if n == NR_MKDIRAT {
        Syscall::Mkdirat { dirfd: a@[0] as i32, path: a@[1], mode: a@[2] as u32 }
    } else if n == NR_UNLINKAT {
        Syscall::Unlinkat { dirfd: a@[0] as i32, path: a@[1], flags: a@[2] as u32 }
    } else if n == NR_FCNTL {
        Syscall::Fcntl { fd: a@[0] as i32, cmd: a@[1], arg: a@[2] }
    } else if n == NR_GETCWD {
        Syscall::Getcwd { buf: a@[0], size: a@[1] }
    } else if n == NR_CHDIR {
        Syscall::Chdir { path: a@[0] }
    } else if n == NR_FCHDIR {
        Syscall::Fchdir { fd: a@[0] as i32 }
    } else if n == NR_CHROOT {
        Syscall::Chroot { path: a@[0] }
    } else if n == NR_UNAME {
        Syscall::Uname { buf: a@[0] }
    } else if n == NR_GETUID {
        Syscall::Getuid
    } else if n == NR_GETEUID {
        Syscall::Geteuid
    } else if n == NR_GETGID {
        Syscall::Getgid
    } else if n == NR_GETEGID {
        Syscall::Getegid
    } else if n == NR_RT_SIGACTION {
        Syscall::RtSigaction { signum: a@[0], act: a@[1], oldact: a@[2], sigsetsize: a@[3] }
    } else if n == NR_RT_SIGPROCMASK {
        Syscall::RtSigprocmask { how: a@[0], set: a@[1], oldset: a@[2], sigsetsize: a@[3] }
    } else if n == NR_RT_SIGPENDING {
        Syscall::RtSigpending { set: a@[0], sigsetsize: a@[1] }
    } else if n == NR_GETRANDOM {
        Syscall::Getrandom { buf: a@[0], len: a@[1] }
    } else {
        Syscall::Unknown
    }
}

/// Decodes a system call.
pub fn decode_syscall(sys_num: usize, args: [usize; 6]) -> (c: Syscall)
    ensures
        c == decode_spec(sys_num, args),
{
    let n = sys_num as u32;
    if n == NR_GETPID {
        Syscall::Getpid
    } else if n == NR_GETTID {
        Syscall::Gettid
    } else if n == NR_GETPPID {
        Syscall::Getppid
    } else if n == NR_SET_TID_ADDRESS {
        Syscall::SetTidAddress { ptr: args[0] }
    } else if n == NR_SCHED_YIELD {
        Syscall::SchedYield
    } else if n == NR_CLONE {
        Syscall::Ape { request: ApeRequest::Clone, args }
    } else if n == NR_EXECVE {
        Syscall::Ape { request: ApeRequest::Execve, args }
    } else if n == NR_WAIT4 {
        Syscall::Ape { request: ApeRequest::Wait, args }
    } else if n == NR_EXIT || n == NR_EXIT_GROUP {
        Syscall::Ape { request: ApeRequest::Exit, args }
    } else if n == NR_KILL {
        Syscall::Ape { request: ApeRequest::Signal, args }
    } else if n == NR_SETSID {
        Syscall::Setsid
    } else if n == NR_SETPGID {
        Syscall::Setpgid { pid: args[0], pgid: args[1] }
    } else if n == NR_GETSID {
        Syscall::Getsid { pid: args[0] }
    } else if n == NR_GETPGID {
        Syscall::Getpgid { pid: args[0] }
    } else if n == NR_BRK {
        Syscall::Brk { addr: args[0] }
    } else if n == NR_MMAP {
        Syscall::Mmap {
            addr: args[0],
            len: args[1],
            prot: args[2],
            flags: args[3],
            fd: args[4] as i32,
            offset: args[5],
        }
    } else if n == NR_MUNMAP {
        Syscall::Munmap { addr: args[0], len: args[1] }
    } else if n == NR_MPROTECT {
        Syscall::Mprotect { addr: args[0], len: args[1], prot: args[2] as u32 }
    } else if n == NR_OPENAT {
        Syscall::Openat {
            dirfd: args[0] as i32,
            path: args[1],
            flags: args[2] as u32,
            mode: args[3] as u32,
        }
    } else if n == NR_READ {
        Syscall::Read { fd: args[0] as i32, buf: args[1], len: args[2] }
    } else if n == NR_WRITE {
        Syscall::Write { fd: args[0] as i32, buf: args[1], len: args[2] }
    } else if n == NR_CLOSE {
        Syscall::Close { fd: args[0] as i32 }
    } else if n == NR_LSEEK {
        Syscall::Lseek { fd: args[0] as i32, offset: args[1] as i64, whence: args[2] }
    } else if n == NR_DUP {
        Syscall::Dup { fd: args[0] as i32 }
    } else if n == NR_DUP3 {
        Syscall::Dup3 { oldfd: args[0] as i32, newfd: args[1] as i32, flags: args[2] as u32 }
    } else if n == NR_GETDENTS64 {
        Syscall::Getdents64 { fd: args[0] as i32, buf: args[1], count: args[2] }
    } else if n == NR_NEWFSTATAT {
        Syscall::Newfstatat {
            dirfd: args[0] as i32,
            path: args[1],
            statbuf: args[2],
            flags: args[3] as u32,
        }
    } else if n == NR_READLINKAT {
        Syscall::Readlinkat { dirfd: args[0] as i32, path: args[1], buf: args[2], bufsiz: args[3] }
    } else if n == NR_FSTAT {
        Syscall::Fstat { fd: args[0] as i32, statbuf: args[1] }
    } else if n == NR_MKDIRAT {
        Syscall::Mkdirat { dirfd: args[0] as i32, path: args[1], mode: args[2] as u32 }
    } else if n == NR_UNLINKAT {
        Syscall::Unlinkat { dirfd: args[0] as i32, path: args[1], flags: args[2] as u32 }
    } else if n == NR_FCNTL {
        Syscall::Fcntl { fd: args[0] as i32, cmd: args[1], arg: args[2] }
    } else if n == NR_GETCWD {
        Syscall::Getcwd { buf: args[0], size: args[1] }
    } else if n == NR_CHDIR {
        Syscall::Chdir { path: args[0] }
    } else if n == NR_FCHDIR {
        Syscall::Fchdir { fd: args[0] as i32 }
    } else if n == NR_CHROOT {
        Syscall::Chroot { path: args[0] }
    } else if n == NR_UNAME {
        Syscall::Uname { buf: args[0] }
    } else if n == NR_GETUID {
        Syscall::Getuid
    } else if n == NR_GETEUID {
        Syscall::Geteuid
    } else if n == NR_GETGID {
        Syscall::Getgid
    } else if n == NR_GETEGID {
        Syscall::Getegid
    } else if n == NR_RT_SIGACTION {
        Syscall::RtSigaction { signum: args[0], act: args[1], oldact: args[2], sigsetsize: args[3] }
    } else if n == NR_RT_SIGPROCMASK {
        Syscall::RtSigprocmask { how: args[0], set: args[1], oldset: args[2], sigsetsize: args[3] }
    } else if n == NR_RT_SIGPENDING {
        Syscall::RtSigpending { set: args[0], sigsetsize: args[1] }
    } else if n == NR_GETRANDOM {
        Syscall::Getrandom { buf: args[0], len: args[1] }
    } else {
        Syscall::Unknown
    }
}

/// The outcome of dispatching a call: answered from the process state, or
/// handed on because it needs the caller's memory or another service.
#[derive(Debug, Clone, Copy)]
pub enum Dispatch {
    Done(isize),
    Outside(Syscall),
}

/// Whether the process state can answer `call` without its arithmetic
/// overflowing: a placed `mmap` must fit, and `dup` needs a next descriptor.
pub open spec fn dispatch_defined(p: ApeProcessState, call: Syscall) -> bool {
    match call {
        Syscall::Mmap { addr, len, .. } => mmap_fits_spec(p.memory, addr, len),
        Syscall::Dup { fd } => p.fds.table@.contains_key(fd) ==> p.fds.next_fd < i32::MAX,
        _ => true,
    }
}

/// Checks [`dispatch_defined`].
pub fn dispatch_is_defined(rt: &ApeRuntime, call: &Syscall) -> (r: bool)
    ensures
        r == dispatch_defined(rt.process, *call),
{
    match call {
        Syscall::Mmap { addr, len, .. } => mmap_fits(&rt.process.memory, *addr, *len),
        Syscall::Dup { fd } => !rt.process.fds.table.contains_key(fd) || rt.process.fds.next_fd < i32::MAX,
        _ => true,
    }
}

/// What dispatching `call` does to the process state and answers.
pub open spec fn dispatch_post(old: ApeProcessState, new: ApeProcessState, call: Syscall, d: Dispatch) -> bool {
    match call {
        Syscall::Getpid => d == Dispatch::Done(getpid_result(old)) && new == old,
        Syscall::Gettid => d == Dispatch::Done(gettid_result(old)) && new == old,
        Syscall::Getppid => d == Dispatch::Done(getppid_result(old)) && new == old,
        Syscall::SetTidAddress { ptr } => d matches Dispatch::Done(r) && set_tid_address_post(old, new, ptr, r),
        Syscall::SchedYield => d == Dispatch::Done(0) && new == old,
        Syscall::Setsid => d matches Dispatch::Done(r) && setsid_post(old, new, r),
        Syscall::Setpgid { pid, pgid } => d matches Dispatch::Done(r) && setpgid_post(old, new, pid, pgid, r),
        Syscall::Getsid { pid } => d == Dispatch::Done(getsid_result(old, pid)) && new == old,
        Syscall::Getpgid { pid } => d == Dispatch::Done(getpgid_result(old, pid)) && new == old,
        Syscall::Brk { addr } => d matches Dispatch::Done(r) && brk_post(old, new, addr, r),
        Syscall::Mmap { addr, len, prot, flags, fd, offset } => d matches Dispatch::Done(r) && mmap_post(
            old,
            new,
            addr,
            len,
            prot,
            flags,
            fd,
            offset,
            r,
        ),
        Syscall::Munmap { addr, len } => d matches Dispatch::Done(r) && munmap_post(old, new, addr, r),
        Syscall::Mprotect { addr, len, prot } => d matches Dispatch::Done(r) && mprotect_post(old, new, addr, prot, r),
        Syscall::Dup { fd } => d matches Dispatch::Done(r) && dup_post(old, new, fd, r),
        Syscall::Dup3 { oldfd, newfd, flags } => d matches Dispatch::Done(r) && dup3_post(old, new, oldfd, newfd, r),
        Syscall::Fcntl { fd, cmd, arg } => d matches Dispatch::Done(r) && fcntl_post(old, new, fd, cmd, arg, r),
        Syscall::Getuid => d == Dispatch::Done(old.identity.uid as isize) && new == old,
        Syscall::Geteuid => d == Dispatch::Done(old.identity.euid as isize) && new == old,
        Syscall::Getgid => d == Dispatch::Done(old.identity.gid as isize) && new == old,
        Syscall::Getegid => d == Dispatch::Done(old.identity.egid as isize) && new == old,
        Syscall::Unknown => d == Dispatch::Done(errno_spec(ENOSYS)) && new == old,
        Syscall::Getcwd { buf, size } => new == old && match getcwd_result(old.fds, buf, size) {
            Err(e) => d == Dispatch::Done(e),
            Ok(_) => d == Dispatch::Outside(call),
        },
        Syscall::Uname { buf } => new == old && if buf == 0 {
            d == Dispatch::Done(errno_spec(EFAULT))
        } else {
            d == Dispatch::Outside(call)
        },
        Syscall::Readlinkat { buf, bufsiz, .. } => new == old && if bufsiz == 0 {
            d == Dispatch::Done(0)
        } else if buf == 0 {
            d == Dispatch::Done(errno_spec(EFAULT))
        } else {
            d == Dispatch::Outside(call)
        },
        Syscall::RtSigaction { signum, sigsetsize, .. } => new == old && if sigsetsize == SIGSET_SIZE
            && settable_signal(signum) {
            d == Dispatch::Outside(call)
        } else {
            d == Dispatch::Done(errno_spec(EINVAL))
        },
        Syscall::RtSigprocmask { sigsetsize, .. } => new == old && if sigsetsize == SIGSET_SIZE {
            d == Dispatch::Outside(call)
        } else {
            d == Dispatch::Done(errno_spec(EINVAL))
        },
        Syscall::RtSigpending { sigsetsize, .. } => new == old && if sigsetsize == SIGSET_SIZE {
            d == Dispatch::Outside(call)
        } else {
            d == Dispatch::Done(errno_spec(EINVAL))
        },
        Syscall::Getrandom { buf, len } => new == old && if len != 0 && buf == 0 {
            d == Dispatch::Done(errno_spec(EFAULT))
        } else {
            d == Dispatch::Outside(call)
        },
        _ => d == Dispatch::Outside(call) && new == old,
    }
}

/// Dispatches system call `sys_num` with `args`: calls that only read or
/// change the process state are answered here, and so are the refusals that
/// need no caller memory (bad buffers, sizes and signal numbers); the others
/// come back as [`Dispatch::Outside`] with their decoded arguments; unknown
/// numbers give `ENOSYS`.
pub fn dispatch_syscall(rt: &mut ApeRuntime, sys_num: usize, args: [usize; 6]) -> (d: Dispatch)
    requires
        dispatch_defined(old(rt).process, decode_spec(sys_num, args)),
    ensures
        dispatch_post(old(rt).process, final(rt).process, decode_spec(sys_num, args), d),
        same_flags(*old(rt), *final(rt)),
{
    let call = decode_syscall(sys_num, args);
    match call {
        Syscall::Getpid => Dispatch::Done(local_getpid(rt)),
        Syscall::Gettid => Dispatch::Done(local_gettid(rt)),
        Syscall::Getppid => Dispatch::Done(local_getppid(rt)),
        Syscall::SetTidAddress { ptr } => Dispatch::Done(local_set_tid_address(rt, ptr)),
        Syscall::SchedYield => Dispatch::Done(0),
        Syscall::Setsid => Dispatch::Done(local_setsid(rt)),
        Syscall::Setpgid { pid, pgid } => Dispatch::Done(local_setpgid(rt, pid, pgid)),
        Syscall::Getsid { pid } => Dispatch::Done(local_getsid(rt, pid)),
        Syscall::Getpgid { pid } => Dispatch::Done(local_getpgid(rt, pid)),
        Syscall::Brk { addr } => Dispatch::Done(local_brk(rt, addr)),
        Syscall::Mmap { addr, len, prot, flags, fd, offset } => Dispatch::Done(
            local_mmap(rt, addr, len, prot, flags, fd, offset),
        ),
        Syscall::Munmap { addr, len } => Dispatch::Done(local_munmap(rt, addr, len)),
        Syscall::Mprotect { addr, len, prot } => Dispatch::Done(local_mprotect(rt, addr, len, prot)),
        Syscall::Dup { fd } => Dispatch::Done(local_dup(rt, fd)),
        Syscall::Dup3 { oldfd, newfd, flags } => Dispatch::Done(local_dup3(rt, oldfd, newfd, flags)),
        Syscall::Fcntl { fd, cmd, arg } => Dispatch::Done(local_fcntl(rt, fd, cmd, arg)),
        Syscall::Getuid => Dispatch::Done(local_getuid(rt)),
        Syscall::Geteuid => Dispatch::Done(local_geteuid(rt)),
        Syscall::Getgid => Dispatch::Done(local_getgid(rt)),
        Syscall::Getegid => Dispatch::Done(local_getegid(rt)),
        Syscall::Unknown => Dispatch::Done(errno(ENOSYS)),
        Syscall::Getcwd { buf, size } => match local_getcwd(rt, buf, size) {
            Err(e) => Dispatch::Done(e),
            Ok(_) => Dispatch::Outside(call),
        },
        Syscall::Uname { buf } => if buf == 0 {
            Dispatch::Done(errno(EFAULT))
        } else {
            Dispatch::Outside(call)
        },
        Syscall::Readlinkat { buf, bufsiz, .. } => match readlink_precheck(buf, bufsiz) {
            Some(r) => Dispatch::Done(r),
            None => Dispatch::Outside(call),
        },
        Syscall::RtSigaction { signum, sigsetsize, .. } => match sigaction_check(signum, sigsetsize) {
            Err(e) => Dispatch::Done(e),
            Ok(()) => Dispatch::Outside(call),
        },
        Syscall::RtSigprocmask { sigsetsize, .. } => match sigset_size_check(sigsetsize) {
            Err(e) => Dispatch::Done(e),
            Ok(()) => Dispatch::Outside(call),
        },
        Syscall::RtSigpending { sigsetsize, .. } => match sigset_size_check(sigsetsize) {
            Err(e) => Dispatch::Done(e),
            Ok(()) => Dispatch::Outside(call),
        },
        Syscall::Getrandom { buf, len } => match check_user_buffer(buf, len) {
            Err(e) => Dispatch::Done(e),
            Ok(()) => Dispatch::Outside(call),
        },
        _ => Dispatch::Outside(call),
    }
}

/// The message registers of a system call forwarded to the APE service, in
/// the order of a forwarded fault: the number, the six arguments, then 0.
pub fn forward_registers(sys_num: usize, args: [usize; 6]) -> (r: [usize; 8])
    ensures
        r@ == seq![sys_num, args@[0], args@[1], args@[2], args@[3], args@[4], args@[5], 0usize],
{
    let r = [sys_num, args[0], args[1], args[2], args[3], args[4], args[5], 0usize];
    assert(r@ =~= seq![sys_num, args@[0], args@[1], args@[2], args@[3], args@[4], args@[5], 0usize]);
    r
}

/// What the APE daemon does with a message it received.
#[derive(Debug, Clone, Copy)]
pub enum DaemonStep {
    /// Run system call `sys_num` with `args` and reply with its result.
    Run { sys_num: usize, args: [usize; 6] },
    /// Reply with this error without running anything.
    Refuse(isize),
}

/// The daemon's decision for a received message with message registers
/// `mrs`: a forwarded system call (`is_syscall`) carries its arguments in
/// registers 0 to 5 and its number in register 7; any other message is
/// answered with `ENOSYS`.
pub fn daemon_step(is_syscall: bool, mrs: [usize; 8]) -> (r: DaemonStep)
    ensures
        is_syscall ==> (r matches DaemonStep::Run { sys_num, args } && sys_num == mrs@[7]
            && args@ == mrs@.subrange(0, 6)),
        !is_syscall ==> r == DaemonStep::Refuse(errno_spec(ENOSYS)),
{
    if is_syscall {
        let args = [mrs[0], mrs[1], mrs[2], mrs[3], mrs[4], mrs[5]];
        assert(args@ =~= mrs@.subrange(0, 6));
        DaemonStep::Run { sys_num: mrs[7], args }
    } else {
        DaemonStep::Refuse(errno(ENOSYS))
    }
}

/// Accepts a routing policy and ignores it: this layer routes every call
/// the same way.
pub fn set_route_policy(_policy: u8, _slow_enabled: bool, _fallback_enabled: bool) {
}

/// Accepts a service thread and ignores it: this layer keeps no registry.
pub fn register_service_thread(_tid: usize) {
}

/// Serves queued service requests: none is ever queued here, so it
/// answers that it served 0.
pub fn service_poll_once() -> (r: usize)
    ensures
        r == 0,
{
    0
}

/// A runtime statistic: none is counted, so every field reads 0.
pub fn get_stat(_field: usize) -> (r: u64)
    ensures
        r == 0,
{
    0
}

} // verus!
