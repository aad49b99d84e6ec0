//! What holds across system calls: a read gives back what a write wrote, and
//! one call undoes another.
use vstd::prelude::*;
use crate::abi::{errno_spec, EBADF, EPERM, F_GETFD, F_GETFL, F_SETFD, F_SETFL, FD_CLOEXEC};
use crate::fd::{
    close_post, dup3_post, dup_post, fcntl_post, guest_cwd_spec, is_dir_mode_spec, setfl_flags,
};
use crate::memory::{brk_spec, mmap_post, munmap_post};
use crate::path::{normalize_root_spec, path_inside_root_spec, resolve_path_spec};
use crate::path_laws::{lemma_resolve_path_stays_inside_root, lemma_slash_normalized};
use crate::process::{getpgid_result, getsid_result, setpgid_post, setsid_post};
use crate::state::{ApeProcessState, Endpoint, FdTable, MemoryState};

verus! {

/// After `fcntl(fd, F_SETFD, arg)` succeeds, `fcntl(fd, F_GETFD)` answers
/// `FD_CLOEXEC` exactly when `arg` had that bit set.
pub proof fn lemma_setfd_then_getfd(
    p0: ApeProcessState,
    p1: ApeProcessState,
    p2: ApeProcessState,
    fd: i32,
    arg: usize,
    r1: isize,
    r2: isize,
)
    requires
        p0.fds.table@.contains_key(fd),
        fcntl_post(p0, p1, fd, F_SETFD as usize, arg, r1),
        fcntl_post(p1, p2, fd, F_GETFD as usize, 0, r2),
    ensures
        r1 == 0,
        r2 == (if (arg & (FD_CLOEXEC as usize)) != 0 { FD_CLOEXEC as isize } else { 0 }),
        p2 == p1,
{
}

/// After `fcntl(fd, F_SETFL, arg)` succeeds, `fcntl(fd, F_GETFL)` answers the
/// old flags with `O_APPEND` and `O_NONBLOCK` taken from `arg`.
pub proof fn lemma_setfl_then_getfl(
    p0: ApeProcessState,
    p1: ApeProcessState,
    p2: ApeProcessState,
    fd: i32,
    arg: usize,
    r1: isize,
    r2: isize,
)
    requires
        p0.fds.table@.contains_key(fd),
        fcntl_post(p0, p1, fd, F_SETFL as usize, arg, r1),
        fcntl_post(p1, p2, fd, F_GETFL as usize, 0, r2),
    ensures
        r1 == 0,
        r2 == setfl_flags(p0.fds.table@[fd].flags, arg) as isize,
{
}

/// A successful `dup` gives a descriptor whose entry is `fd`'s, and leaves
/// `fd` in place.
pub proof fn lemma_dup_copies_entry(p0: ApeProcessState, p1: ApeProcessState, fd: i32, r: isize)
    requires
        p0.fds.table@.contains_key(fd),
        dup_post(p0, p1, fd, r),
    ensures
        p1.fds.table@.contains_key(r as i32),
        p1.fds.table@[r as i32] == p0.fds.table@[fd],
        p1.fds.table@.contains_key(fd),
        p1.fds.table@[fd] == p0.fds.table@[fd],
{
}

/// After `setpgid(0, pgid)` succeeds, `getpgid(0)` answers `pgid` (the
/// process id for `pgid == 0`).
pub proof fn lemma_setpgid_then_getpgid(
    p0: ApeProcessState,
    p1: ApeProcessState,
    pgid: usize,
    r: isize,
)
    requires
        p0.ids is Some,
        setpgid_post(p0, p1, 0, pgid, r),
    ensures
        r == 0,
        getpgid_result(p1, 0) == (if pgid == 0 { p0.ids->0.pid } else { pgid }) as isize,
{
}

/// `brk(0)` after any `brk(addr)` answers the same break as `brk(addr)` did.
pub proof fn lemma_brk_then_query(mem: MemoryState, addr: usize)
    ensures
        brk_spec(brk_spec(mem, addr).0, 0).1 == brk_spec(mem, addr).1,
        brk_spec(brk_spec(mem, addr).0, 0).0 == brk_spec(mem, addr).0,
{
}

/// Once the heap start is known and the break lies between it and the heap
/// limit, every `brk` keeps it there. (The first request of a process whose
/// heap start is still unknown may set both beyond the limit.)
pub proof fn lemma_brk_keeps_break_in_heap(mem: MemoryState, addr: usize)
    requires
        mem.brk_start != 0,
        mem.brk_start <= mem.brk_current <= mem.heap_limit,
    ensures
        brk_spec(mem, addr).0.brk_start == mem.brk_start,
        brk_spec(mem, addr).0.heap_limit == mem.heap_limit,
        mem.brk_start <= brk_spec(mem, addr).0.brk_current <= mem.heap_limit,
{
}

/// `munmap` of the start that `mmap` answered forgets exactly that mapping:
/// the mappings are what they were before, unless one already started there.
pub proof fn lemma_mmap_then_munmap(
    p0: ApeProcessState,
    p1: ApeProcessState,
    p2: ApeProcessState,
    addr: usize,
    len: usize,
    prot: usize,
    flags: usize,
    fd: i32,
    offset: usize,
    r1: isize,
    r2: isize,
)
    requires
        mmap_post(p0, p1, addr, len, prot, flags, fd, offset, r1),
        munmap_post(p1, p2, r1 as usize, r2),
        !p0.memory.maps@.contains_key(if addr == 0 { p0.memory.mmap_next } else { addr }),
    ensures
        r2 == 0,
        p2.memory.maps@ == p0.memory.maps@,
{
    let start = if addr == 0 { p0.memory.mmap_next } else { addr };
    assert((start as isize) as usize == start) by (bit_vector);
    assert(p2.memory.maps@ =~= p0.memory.maps@);
}

/// After `chdir` (or `fchdir`) moves to a directory that `resolve_path` gave
/// inside the root, `getcwd` reports where that directory lies inside the
/// root (never the `/` fallback for a directory outside it).
pub proof fn lemma_chdir_then_getcwd(raw: Seq<char>, fds: FdTable, new_fds: FdTable, mode: u32)
    requires
        is_dir_mode_spec(mode),
        new_fds.root_dir == fds.root_dir,
        new_fds.cwd@ == resolve_path_spec(raw, fds.root_dir@, fds.cwd@, seq!['/']),
    ensures
        path_inside_root_spec(new_fds.cwd@, new_fds.root_dir@, seq!['/']) is Some,
        guest_cwd_spec(new_fds) == path_inside_root_spec(new_fds.cwd@, new_fds.root_dir@, seq!['/'])->0,
{
    lemma_resolve_path_stays_inside_root(raw, fds.root_dir@, fds.cwd@, seq!['/']);
}

/// A descriptor closes once: a second `close` of it answers `EBADF` and
/// changes nothing.
pub proof fn lemma_close_then_close(
    p0: ApeProcessState,
    p1: ApeProcessState,
    p2: ApeProcessState,
    fd: i32,
    r1: Result<Endpoint, isize>,
    r2: Result<Endpoint, isize>,
)
    requires
        p0.fds.table@.contains_key(fd),
        close_post(p0, p1, fd, r1),
        close_post(p1, p2, fd, r2),
    ensures
        r1 == Ok::<Endpoint, isize>(p0.fds.table@[fd].endpoint),
        !p1.fds.table@.contains_key(fd),
        r2 == Err::<Endpoint, isize>(errno_spec(EBADF)),
        p2 == p1,
{
}

/// The copy that `dup` made outlives its source: after closing `fd`, the
/// new descriptor still holds `fd`'s old entry. (It needs the next
/// descriptor number to differ from `fd`: `dup` does not check whether that
/// number is in use.)
pub proof fn lemma_dup_then_close_source(
    p0: ApeProcessState,
    p1: ApeProcessState,
    p2: ApeProcessState,
    fd: i32,
    r: isize,
    c: Result<Endpoint, isize>,
)
    requires
        p0.fds.table@.contains_key(fd),
        p0.fds.next_fd != fd,
        dup_post(p0, p1, fd, r),
        close_post(p1, p2, fd, c),
    ensures
        c is Ok,
        !p2.fds.table@.contains_key(fd),
        p2.fds.table@.contains_key(r as i32),
        p2.fds.table@[r as i32] == p0.fds.table@[fd],
{
}

/// `dup3(oldfd, newfd)` followed by `close(oldfd)` moves the entry: `newfd`
/// holds what `oldfd` held, and `oldfd` is free (for `newfd != oldfd`).
pub proof fn lemma_dup3_then_close_moves_entry(
    p0: ApeProcessState,
    p1: ApeProcessState,
    p2: ApeProcessState,
    oldfd: i32,
    newfd: i32,
    r: isize,
    c: Result<Endpoint, isize>,
)
    requires
        p0.fds.table@.contains_key(oldfd),
        newfd != oldfd,
        dup3_post(p0, p1, oldfd, newfd, r),
        close_post(p1, p2, oldfd, c),
    ensures
        r == newfd as isize,
        c == Ok::<Endpoint, isize>(p0.fds.table@[oldfd].endpoint),
        p2.fds.table@ == p0.fds.table@.insert(newfd, p0.fds.table@[oldfd]).remove(oldfd),
{
}

/// When the current directory is the root itself, as `chroot` leaves it,
/// `getcwd` answers `/`.
pub proof fn lemma_chroot_then_getcwd(fds: FdTable)
    requires
        fds.cwd@ == fds.root_dir@,
    ensures
        guest_cwd_spec(fds) == seq!['/'],
{
    lemma_slash_normalized();
}

/// After `setsid` succeeds, the process leads its session and group:
/// `getsid(0)` and `getpgid(0)` answer its pid, and a second `setsid` is
/// refused with `EPERM`.
pub proof fn lemma_setsid_then_getsid(
    p0: ApeProcessState,
    p1: ApeProcessState,
    p2: ApeProcessState,
    r1: isize,
    r2: isize,
)
    requires
        p0.ids is Some,
        p0.process_group_id != p0.ids->0.pid,
        setsid_post(p0, p1, r1),
        setsid_post(p1, p2, r2),
    ensures
        r1 == p0.ids->0.pid as isize,
        getsid_result(p1, 0) == p0.ids->0.pid as isize,
        getpgid_result(p1, 0) == p0.ids->0.pid as isize,
        r2 == errno_spec(EPERM),
        p2 == p1,
{
}

} // verus!
