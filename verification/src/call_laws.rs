//! What the system calls answered from the process state do, said in terms
//! of their inputs and results: which number names which call, what each
//! call answers, and how the state moves.
use vstd::prelude::*;
use crate::abi::errno_spec;
use crate::compat::{errno_of, Error};
use crate::user_mem::first_nul_within;
use crate::fd::{getcwd_result, guest_cwd_spec, at_path_spec, dup_post, fcntl_post, openat_path_spec, setfl_flags, setfl_mask};
use crate::path::resolve_path_spec;
use crate::memory::{brk_post, mmap_fits_spec, mmap_post, mprotect_post, munmap_post, page_round_up};
use crate::signal::{settable_signal, sigmask_after};
use crate::state::MemoryType;
use crate::process::{
    getpgid_result, getpid_result, getppid_result, getsid_result, gettid_result, set_tid_address_post, setpgid_post,
    setsid_post,
};
use crate::state::{ApeProcessState, FdTable};
use crate::syscall::{decode_spec, dispatch_post, ApeRequest, Dispatch, Syscall};

verus! {

/// `fcntl(fd, F_SETFL, arg)` (command 4) on an open descriptor answers 0 and
/// makes the append (0x400) and non-blocking (0x800) bits of the entry's
/// flags exactly those of `arg`, clearing as well as setting them; every
/// other flag bit and every other field of the entry stays as it was.
pub proof fn lemma_setfl_sets_and_clears(
    p0: ApeProcessState,
    p1: ApeProcessState,
    fd: i32,
    arg: usize,
    r: isize,
)
    requires
        p0.fds.table@.contains_key(fd),
        fcntl_post(p0, p1, fd, 4, arg, r),
    ensures
        r == 0,
        p1.fds.table@.contains_key(fd),
        p1.fds.table@[fd].flags & 0xC00u32 == (arg as u32) & 0xC00u32,
        p1.fds.table@[fd].flags & !0xC00u32 == p0.fds.table@[fd].flags & !0xC00u32,
        p1.fds.table@[fd].endpoint == p0.fds.table@[fd].endpoint,
        p1.fds.table@[fd].offset == p0.fds.table@[fd].offset,
        p1.fds.table@[fd].cloexec == p0.fds.table@[fd].cloexec,
        p1.fds.table@[fd].path == p0.fds.table@[fd].path,
        forall|k: i32| k != fd ==> #[trigger] p1.fds.table@.contains_key(k) == p0.fds.table@.contains_key(k),
        forall|k: i32| k != fd && p0.fds.table@.contains_key(k) ==> #[trigger] p1.fds.table@[k] == p0.fds.table@[k],
{
    let old = p0.fds.table@[fd].flags;
    let a = arg as u32;
    assert(1024u32 | 2048u32 == 0xC00u32) by (bit_vector);
    assert(setfl_mask() == 0xC00u32);
    assert(p1.fds.table@[fd].flags == setfl_flags(old, arg));
    assert(((old & !0xC00u32) | (a & 0xC00u32)) & 0xC00u32 == a & 0xC00u32) by (bit_vector);
    assert(((old & !0xC00u32) | (a & 0xC00u32)) & !0xC00u32 == old & !0xC00u32) by (bit_vector);
}

/// `fcntl(fd, F_SETFD, arg)` (command 2) answers 0 and sets close-on-exec
/// exactly when bit 0 of `arg` is set; `F_GETFD` (command 1) then answers 1
/// or 0 accordingly. No other field of the entry changes.
pub proof fn lemma_setfd_sets_and_clears(
    p0: ApeProcessState,
    p1: ApeProcessState,
    fd: i32,
    arg: usize,
    r: isize,
)
    requires
        p0.fds.table@.contains_key(fd),
        fcntl_post(p0, p1, fd, 2, arg, r),
    ensures
        r == 0,
        p1.fds.table@.contains_key(fd),
        p1.fds.table@[fd].cloexec == (arg & 1 == 1),
        p1.fds.table@[fd].flags == p0.fds.table@[fd].flags,
        p1.fds.table@[fd].endpoint == p0.fds.table@[fd].endpoint,
        p1.fds.table@[fd].offset == p0.fds.table@[fd].offset,
        p1.fds.table@[fd].path == p0.fds.table@[fd].path,
{
    assert((arg & 1 != 0) == (arg & 1 == 1)) by (bit_vector);
}

/// `fcntl(fd, F_GETFL)` (command 3) answers the entry's flags and
/// `fcntl(fd, F_GETFD)` answers 1 for a close-on-exec entry, else 0; neither
/// changes anything. Any command on a descriptor that is not open answers
/// `-EBADF` (-9).
pub proof fn lemma_fcntl_reads(
    p0: ApeProcessState,
    p1: ApeProcessState,
    fd: i32,
    cmd: usize,
    arg: usize,
    r: isize,
)
    requires
        fcntl_post(p0, p1, fd, cmd, arg, r),
    ensures
        !p0.fds.table@.contains_key(fd) ==> r == -9 && p1 == p0,
        p0.fds.table@.contains_key(fd) && cmd == 3 ==> r == p0.fds.table@[fd].flags as isize && p1 == p0,
        p0.fds.table@.contains_key(fd) && cmd == 1 ==> r == (if p0.fds.table@[fd].cloexec { 1isize } else { 0isize })
            && p1 == p0,
{
}

/// `fcntl(fd, F_DUPFD, min)` (command 0) or `F_DUPFD_CLOEXEC` (command
/// 1030) that succeeds answers the lowest descriptor number at or above
/// `min` that was free, and puts there a copy of `fd`'s entry whose
/// close-on-exec flag is set exactly for `F_DUPFD_CLOEXEC`; nothing else in
/// the table changes.
pub proof fn lemma_dupfd_takes_lowest_free(
    p0: ApeProcessState,
    p1: ApeProcessState,
    fd: i32,
    cmd: usize,
    min: usize,
    r: isize,
)
    requires
        p0.fds.table@.contains_key(fd),
        cmd == 0 || cmd == 1030,
        fcntl_post(p0, p1, fd, cmd, min, r),
        r >= 0,
    ensures
        min as i32 <= r,
        r <= i32::MAX,
        !p0.fds.table@.contains_key(r as i32),
        forall|k: i32| min as i32 <= k < r ==> #[trigger] p0.fds.table@.contains_key(k),
        p1.fds.table@.contains_key(r as i32),
        p1.fds.table@[r as i32].endpoint == p0.fds.table@[fd].endpoint,
        p1.fds.table@[r as i32].offset == p0.fds.table@[fd].offset,
        p1.fds.table@[r as i32].flags == p0.fds.table@[fd].flags,
        p1.fds.table@[r as i32].path == p0.fds.table@[fd].path,
        p1.fds.table@[r as i32].cloexec == (cmd == 1030),
        p0.fds.next_fd > r ==> p1.fds.next_fd == p0.fds.next_fd,
        p0.fds.next_fd <= r && r < i32::MAX ==> p1.fds.next_fd == r + 1,
        p0.fds.next_fd <= r && r == i32::MAX ==> p1.fds.next_fd == i32::MAX,
        forall|k: i32| k != r ==> #[trigger] p1.fds.table@.contains_key(k) == p0.fds.table@.contains_key(k),
        forall|k: i32| k != r && p0.fds.table@.contains_key(k) ==> #[trigger] p1.fds.table@[k] == p0.fds.table@[k],
{
}

/// Each riscv64 system-call number names its own call, with the arguments in
/// the registers that call reads them from.
pub proof fn lemma_numbers_name_their_calls(a: [usize; 6])
    ensures
        decode_spec(172, a) == Syscall::Getpid,
        decode_spec(178, a) == Syscall::Gettid,
        decode_spec(173, a) == Syscall::Getppid,
        decode_spec(174, a) == Syscall::Getuid,
        decode_spec(175, a) == Syscall::Geteuid,
        decode_spec(176, a) == Syscall::Getgid,
        decode_spec(177, a) == Syscall::Getegid,
        decode_spec(96, a) == (Syscall::SetTidAddress { ptr: a@[0] }),
        decode_spec(124, a) == Syscall::SchedYield,
        decode_spec(220, a) == (Syscall::Ape { request: ApeRequest::Clone, args: a }),
        decode_spec(221, a) == (Syscall::Ape { request: ApeRequest::Execve, args: a }),
        decode_spec(260, a) == (Syscall::Ape { request: ApeRequest::Wait, args: a }),
        decode_spec(93, a) == (Syscall::Ape { request: ApeRequest::Exit, args: a }),
        decode_spec(94, a) == (Syscall::Ape { request: ApeRequest::Exit, args: a }),
        decode_spec(129, a) == (Syscall::Ape { request: ApeRequest::Signal, args: a }),
        decode_spec(157, a) == Syscall::Setsid,
        decode_spec(154, a) == (Syscall::Setpgid { pid: a@[0], pgid: a@[1] }),
        decode_spec(156, a) == (Syscall::Getsid { pid: a@[0] }),
        decode_spec(155, a) == (Syscall::Getpgid { pid: a@[0] }),
        decode_spec(214, a) == (Syscall::Brk { addr: a@[0] }),
        decode_spec(222, a) == (Syscall::Mmap {
            addr: a@[0],
            len: a@[1],
            prot: a@[2],
            flags: a@[3],
            fd: a@[4] as i32,
            offset: a@[5],
        }),
        decode_spec(215, a) == (Syscall::Munmap { addr: a@[0], len: a@[1] }),
        decode_spec(226, a) == (Syscall::Mprotect { addr: a@[0], len: a@[1], prot: a@[2] as u32 }),
        decode_spec(56, a) == (Syscall::Openat {
            dirfd: a@[0] as i32,
            path: a@[1],
            flags: a@[2] as u32,
            mode: a@[3] as u32,
        }),
        decode_spec(63, a) == (Syscall::Read { fd: a@[0] as i32, buf: a@[1], len: a@[2] }),
        decode_spec(64, a) == (Syscall::Write { fd: a@[0] as i32, buf: a@[1], len: a@[2] }),
        decode_spec(57, a) == (Syscall::Close { fd: a@[0] as i32 }),
        decode_spec(62, a) == (Syscall::Lseek { fd: a@[0] as i32, offset: a@[1] as i64, whence: a@[2] }),
        decode_spec(23, a) == (Syscall::Dup { fd: a@[0] as i32 }),
        decode_spec(24, a) == (Syscall::Dup3 { oldfd: a@[0] as i32, newfd: a@[1] as i32, flags: a@[2] as u32 }),
        decode_spec(61, a) == (Syscall::Getdents64 { fd: a@[0] as i32, buf: a@[1], count: a@[2] }),
        decode_spec(79, a) == (Syscall::Newfstatat {
            dirfd: a@[0] as i32,
            path: a@[1],
            statbuf: a@[2],
            flags: a@[3] as u32,
        }),
        decode_spec(78, a) == (Syscall::Readlinkat { dirfd: a@[0] as i32, path: a@[1], buf: a@[2], bufsiz: a@[3] }),
        decode_spec(80, a) == (Syscall::Fstat { fd: a@[0] as i32, statbuf: a@[1] }),
        decode_spec(34, a) == (Syscall::Mkdirat { dirfd: a@[0] as i32, path: a@[1], mode: a@[2] as u32 }),
        decode_spec(35, a) == (Syscall::Unlinkat { dirfd: a@[0] as i32, path: a@[1], flags: a@[2] as u32 }),
        decode_spec(25, a) == (Syscall::Fcntl { fd: a@[0] as i32, cmd: a@[1], arg: a@[2] }),
        decode_spec(17, a) == (Syscall::Getcwd { buf: a@[0], size: a@[1] }),
        decode_spec(49, a) == (Syscall::Chdir { path: a@[0] }),
        decode_spec(50, a) == (Syscall::Fchdir { fd: a@[0] as i32 }),
        decode_spec(51, a) == (Syscall::Chroot { path: a@[0] }),
        decode_spec(160, a) == (Syscall::Uname { buf: a@[0] }),
        decode_spec(134, a) == (Syscall::RtSigaction { signum: a@[0], act: a@[1], oldact: a@[2], sigsetsize: a@[3] }),
        decode_spec(135, a) == (Syscall::RtSigprocmask { how: a@[0], set: a@[1], oldset: a@[2], sigsetsize: a@[3] }),
        decode_spec(136, a) == (Syscall::RtSigpending { set: a@[0], sigsetsize: a@[1] }),
        decode_spec(278, a) == (Syscall::Getrandom { buf: a@[0], len: a@[1] }),
        decode_spec(0, a) == Syscall::Unknown,
{
}

/// The identity and id calls, dispatched by number, answer the field of
/// that name and change nothing: `getuid` (174) the real uid, `geteuid`
/// (175) the effective uid, `getgid` (176) the real gid, `getegid` (177) the
/// effective gid; with the ids known, `getpid` (172), `getppid` (173) and
/// `gettid` (178) the process, parent and thread ids.
pub proof fn lemma_dispatch_answers_ids(
    p0: ApeProcessState,
    p1: ApeProcessState,
    n: usize,
    a: [usize; 6],
    d: Dispatch,
)
    requires
        dispatch_post(p0, p1, decode_spec(n, a), d),
        172 <= n <= 178,
    ensures
        p1 == p0,
        n == 174 ==> d == Dispatch::Done(p0.identity.uid as isize),
        n == 175 ==> d == Dispatch::Done(p0.identity.euid as isize),
        n == 176 ==> d == Dispatch::Done(p0.identity.gid as isize),
        n == 177 ==> d == Dispatch::Done(p0.identity.egid as isize),
        p0.ids is Some && n == 172 ==> d == Dispatch::Done(p0.ids->0.pid as isize),
        p0.ids is Some && n == 173 ==> d == Dispatch::Done(p0.ids->0.ppid as isize),
        p0.ids is Some && n == 178 ==> d == Dispatch::Done(p0.ids->0.tid as isize),
        p0.ids is None && (n == 172 || n == 173 || n == 178) ==> d == Dispatch::Done(-38isize),
{
}

/// With the process ids known, `getpid`, `getppid` and `gettid` answer the
/// recorded process, parent and thread ids; before they are known, each
/// answers `-ENOSYS` (-38).
pub proof fn lemma_id_queries(p: ApeProcessState)
    ensures
        p.ids is Some ==> getpid_result(p) == p.ids->0.pid as isize && getppid_result(p) == p.ids->0.ppid as isize
            && gettid_result(p) == p.ids->0.tid as isize,
        p.ids is None ==> getpid_result(p) == -38 && getppid_result(p) == -38 && gettid_result(p) == -38,
{
}

/// `getsid` and `getpgid` of the caller, named either by 0 or by its own
/// pid, answer its session and process group; any other pid answers
/// `-ESRCH` (-3). `setpgid` likewise treats the caller's own pid as 0.
pub proof fn lemma_own_pid_names_the_caller(
    p: ApeProcessState,
    target: usize,
    pgid: usize,
    p1: ApeProcessState,
    r1: isize,
    p2: ApeProcessState,
    r2: isize,
)
    requires
        p.ids is Some,
        setpgid_post(p, p1, p.ids->0.pid, pgid, r1),
        setpgid_post(p, p2, 0, pgid, r2),
    ensures
        getsid_result(p, p.ids->0.pid) == p.session_id as isize,
        getsid_result(p, 0) == p.session_id as isize,
        getpgid_result(p, p.ids->0.pid) == p.process_group_id as isize,
        getpgid_result(p, 0) == p.process_group_id as isize,
        target != 0 && target != p.ids->0.pid ==> getsid_result(p, target) == -3 && getpgid_result(p, target) == -3,
        r1 == 0 && r2 == 0 && p1 == p2,
        p1.process_group_id == if pgid == 0 { p.ids->0.pid } else { pgid },
{
}

/// `brk(addr)` with the heap start known and `addr` between the heap start
/// and the heap limit moves the break to `addr` and answers it, whether
/// that grows or shrinks the heap; a non-zero `addr` outside those bounds
/// leaves everything as it was and answers the current break, and so does
/// `brk(0)`.
pub proof fn lemma_brk_moves_the_break(p0: ApeProcessState, p1: ApeProcessState, addr: usize, r: isize)
    requires
        p0.memory.brk_start != 0,
        brk_post(p0, p1, addr, r),
    ensures
        p0.memory.brk_start <= addr <= p0.memory.heap_limit ==> r == addr as isize
            && p1.memory.brk_current == addr && p1.memory.brk_start == p0.memory.brk_start
            && p1.memory.heap_limit == p0.memory.heap_limit && p1.memory.maps == p0.memory.maps
            && p1.fds == p0.fds && p1.signal == p0.signal && p1.ids == p0.ids,
        addr == 0 || addr < p0.memory.brk_start || addr > p0.memory.heap_limit ==> r
            == p0.memory.brk_current as isize && p1 == p0,
{
}

/// The first non-zero `brk(addr)` of a process whose heap start is unknown
/// makes `addr` the heap start and the break, and answers it.
pub proof fn lemma_first_brk_fixes_the_heap(p0: ApeProcessState, p1: ApeProcessState, addr: usize, r: isize)
    requires
        p0.memory.brk_start == 0,
        addr != 0,
        addr <= p0.memory.heap_limit,
        brk_post(p0, p1, addr, r),
    ensures
        r == addr as isize,
        p1.memory.brk_start == addr,
        p1.memory.brk_current == addr,
{
}

/// An unknown system-call number answers `-ENOSYS` (-38).
pub proof fn lemma_unknown_number_is_enosys(p0: ApeProcessState, p1: ApeProcessState, a: [usize; 6], d: Dispatch)
    requires
        dispatch_post(p0, p1, decode_spec(0, a), d),
    ensures
        d == Dispatch::Done(-38isize),
        p1 == p0,
{
    assert(errno_spec(38) == -38);
}

/// Rounding a length up to whole 4 KiB pages gives a multiple of 4096 that
/// is at least the length and less than one page more.
pub proof fn lemma_page_round_up(len: int)
    requires
        0 <= len,
    ensures
        page_round_up(len) % 4096 == 0,
        len <= page_round_up(len) < len + 4096,
{
    let q = (len + 4095) / 4096;
    assert(page_round_up(len) == q * 4096);
    assert((q * 4096) % 4096 == 0) by (nonlinear_arith);
    assert(len <= q * 4096 < len + 4096) by (nonlinear_arith)
        requires
            q == (len + 4095) / 4096,
            0 <= len,
    ;
}

/// `mmap(addr, len, prot, flags, fd, offset)` answers where the mapping
/// starts: `addr` itself when it is not 0, else the next free address,
/// which then moves on by whole pages covering `len`. The mapping recorded
/// there has that start, length, protection, flags and file offset, is
/// anonymous exactly when `fd` is -1 and is backed by `fd` otherwise; every
/// other mapping stays as it was.
pub proof fn lemma_mmap_records_the_mapping(
    p0: ApeProcessState,
    p1: ApeProcessState,
    addr: usize,
    len: usize,
    prot: usize,
    flags: usize,
    fd: i32,
    offset: usize,
    r: isize,
)
    requires
        mmap_fits_spec(p0.memory, addr, len),
        mmap_post(p0, p1, addr, len, prot, flags, fd, offset, r),
    ensures
        ({
            let start: usize = if addr == 0 { p0.memory.mmap_next } else { addr };
            &&& r == start as isize
            &&& p1.memory.maps@.contains_key(start)
            &&& p1.memory.maps@[start].start == start
            &&& p1.memory.maps@[start].len == len
            &&& p1.memory.maps@[start].prot == prot as u32
            &&& p1.memory.maps@[start].flags == flags as u32
            &&& p1.memory.maps@[start].backing_offset == offset
            &&& (fd == -1 <==> p1.memory.maps@[start].mem_type == MemoryType::Anonymous)
            &&& (fd != -1 ==> p1.memory.maps@[start].mem_type == MemoryType::FileBacked
                && p1.memory.maps@[start].backing_fd == Some(fd))
            &&& (fd == -1 ==> p1.memory.maps@[start].backing_fd is None)
            &&& forall|k: usize| k != start ==> #[trigger] p1.memory.maps@.contains_key(k) == p0.memory.maps@.contains_key(k)
            &&& forall|k: usize| k != start && p0.memory.maps@.contains_key(k) ==> #[trigger] p1.memory.maps@[k] == p0.memory.maps@[k]
        }),
        addr != 0 ==> p1.memory.mmap_next == p0.memory.mmap_next,
        addr == 0 ==> p1.memory.mmap_next >= p0.memory.mmap_next + len
            && p1.memory.mmap_next < p0.memory.mmap_next + len + 4096
            && (p1.memory.mmap_next - p0.memory.mmap_next) % 4096 == 0,
        p1.memory.brk_current == p0.memory.brk_current,
        p1.fds == p0.fds,
{
    lemma_page_round_up(len as int);
}

/// `munmap(addr, ..)` answers 0 and forgets the mapping starting at `addr`;
/// every other mapping stays.
pub proof fn lemma_munmap_forgets(p0: ApeProcessState, p1: ApeProcessState, addr: usize, r: isize)
    requires
        munmap_post(p0, p1, addr, r),
    ensures
        r == 0,
        !p1.memory.maps@.contains_key(addr),
        forall|k: usize| k != addr ==> #[trigger] p1.memory.maps@.contains_key(k) == p0.memory.maps@.contains_key(k),
        forall|k: usize| k != addr && p0.memory.maps@.contains_key(k) ==> #[trigger] p1.memory.maps@[k] == p0.memory.maps@[k],
{
}

/// `mprotect(addr, .., prot)` on a mapping that starts at `addr` answers 0
/// and gives it protection `prot`, changing nothing else; with no mapping
/// starting there it answers `-EINVAL` (-22) and changes nothing.
pub proof fn lemma_mprotect_sets_protection(p0: ApeProcessState, p1: ApeProcessState, addr: usize, prot: u32, r: isize)
    requires
        mprotect_post(p0, p1, addr, prot, r),
    ensures
        !p0.memory.maps@.contains_key(addr) ==> r == -22 && p1 == p0,
        p0.memory.maps@.contains_key(addr) ==> {
            &&& r == 0
            &&& p1.memory.maps@.contains_key(addr)
            &&& p1.memory.maps@[addr].prot == prot
            &&& p1.memory.maps@[addr].start == p0.memory.maps@[addr].start
            &&& p1.memory.maps@[addr].len == p0.memory.maps@[addr].len
            &&& p1.memory.maps@[addr].flags == p0.memory.maps@[addr].flags
            &&& forall|k: usize| k != addr ==> #[trigger] p1.memory.maps@.contains_key(k) == p0.memory.maps@.contains_key(k)
        },
{
}

/// `rt_sigprocmask` with `how` 0 (block) adds the set to the blocked mask,
/// 1 (unblock) takes it out, 2 (set mask) replaces the mask with it; any
/// other `how` is refused.
pub proof fn lemma_sigmask_moves(blocked: u64, how: usize, set: u64)
    ensures
        how == 0 ==> sigmask_after(blocked, how, set) == Some(blocked | set),
        how == 1 ==> sigmask_after(blocked, how, set) == Some(blocked & !set),
        how == 2 ==> sigmask_after(blocked, how, set) == Some(set),
        how > 2 && how <= u32::MAX ==> sigmask_after(blocked, how, set) is None,
{
}

/// After blocking, every signal of the set and every signal blocked before
/// is blocked, and no other; after unblocking, none of the set is blocked
/// and every other signal keeps its state.
pub proof fn lemma_sigmask_bits(blocked: u64, set: u64)
    ensures
        (blocked | set) & set == set,
        (blocked | set) & blocked == blocked,
        (blocked | set) & !(blocked | set) == 0,
        (blocked & !set) & set == 0,
        (blocked & !set) & !set == blocked & !set,
{
    assert((blocked | set) & set == set) by (bit_vector);
    assert((blocked | set) & blocked == blocked) by (bit_vector);
    assert((blocked | set) & !(blocked | set) == 0) by (bit_vector);
    assert((blocked & !set) & set == 0) by (bit_vector);
    assert((blocked & !set) & !set == blocked & !set) by (bit_vector);
}

/// `rt_sigaction` may change the disposition of signals 1 to 64 except
/// `SIGKILL` (9) and `SIGSTOP` (19).
pub proof fn lemma_settable_signals(signum: usize)
    ensures
        settable_signal(signum) <==> (1 <= signum <= 64 && signum != 9 && signum != 19),
{
}

/// The Linux error number of each service error: out of memory 12,
/// invalid arguments 22, bad type 25, bad address 14, too long 36, bad slot
/// 9, existing 17, not found 2, busy 16, would block 11, interrupted 4,
/// timeout 110, permission 1, unsupported 38, I/O 5.
pub proof fn lemma_service_error_numbers()
    ensures
        errno_of(Error::OutOfMemory) == 12 && errno_of(Error::CNodeFull) == 12,
        errno_of(Error::InvalidArgs) == 22 && errno_of(Error::InvalidConfig) == 22,
        errno_of(Error::InvalidCapability) == 22 && errno_of(Error::InvalidMethod) == 22,
        errno_of(Error::InvalidType) == 25,
        errno_of(Error::InvalidAddress) == 14,
        errno_of(Error::MessageTooLong) == 36,
        errno_of(Error::InvalidSlot) == 9,
        errno_of(Error::SlotNotEmpty) == 17 && errno_of(Error::AlreadyExists) == 17,
        errno_of(Error::NotFound) == 2,
        errno_of(Error::ResourceBusy) == 16,
        errno_of(Error::WouldBlock) == 11,
        errno_of(Error::Interrupted) == 4,
        errno_of(Error::Timeout) == 110,
        errno_of(Error::PermissionDenied) == 1,
        errno_of(Error::NotSupported) == 38 && errno_of(Error::NotImplemented) == 38,
        errno_of(Error::IoError) == 5 && errno_of(Error::DeviceError) == 5,
        errno_of(Error::InternalError) == 5 && errno_of(Error::Generic) == 5,
        errno_of(Error::Other) == 38,
{
}

/// The NUL that ends a C string of at most `max_len` bytes is the first NUL
/// within the bytes read and within `max_len`; when there is none, no byte
/// read within `max_len` is NUL.
pub proof fn lemma_first_nul_within(mem: Seq<u8>, max_len: int)
    ensures
        first_nul_within(mem, max_len) matches Some(k) ==> {
            &&& 0 <= k < max_len
            &&& k < mem.len()
            &&& mem[k] == 0
            &&& forall|j: int| 0 <= j < k ==> mem[j] != 0
        },
        first_nul_within(mem, max_len) is None ==> forall|j: int| 0 <= j < max_len && j < mem.len() ==> mem[j] != 0,
{
    if exists|i: int| 0 <= i < max_len && i < mem.len() && mem[i] == 0 {
        let i = choose|i: int| 0 <= i < max_len && i < mem.len() && mem[i] == 0;
        lemma_first_nul_before(mem, max_len, i);
    }
}

proof fn lemma_first_nul_before(mem: Seq<u8>, max_len: int, i: int)
    requires
        0 <= i < max_len,
        i < mem.len(),
        mem[i] == 0,
    ensures
        exists|k: int| 0 <= k < max_len && k < mem.len() && mem[k] == 0 && (forall|j: int| 0 <= j < k ==> mem[j] != 0),
    decreases i,
{
    if exists|j: int| 0 <= j < i && mem[j] == 0 {
        let j = choose|j: int| 0 <= j < i && mem[j] == 0;
        lemma_first_nul_before(mem, max_len, j);
    } else {
        assert(0 <= i < max_len && i < mem.len() && mem[i] == 0 && (forall|j: int| 0 <= j < i ==> mem[j] != 0));
    }
}

/// `dup(fd)` of an open descriptor answers the next descriptor number,
/// puts a copy of `fd`'s entry there and moves the next number on by one;
/// of a descriptor that is not open it answers `-EBADF` (-9).
pub proof fn lemma_dup_uses_next_number(p0: ApeProcessState, p1: ApeProcessState, fd: i32, r: isize)
    requires
        p0.fds.table@.contains_key(fd) ==> p0.fds.next_fd < i32::MAX,
        dup_post(p0, p1, fd, r),
    ensures
        !p0.fds.table@.contains_key(fd) ==> r == -9 && p1 == p0,
        p0.fds.table@.contains_key(fd) ==> {
            &&& r == p0.fds.next_fd as isize
            &&& p1.fds.table@.contains_key(p0.fds.next_fd)
            &&& p1.fds.table@[p0.fds.next_fd] == p0.fds.table@[fd]
            &&& p1.fds.next_fd == p0.fds.next_fd + 1
            &&& forall|k: i32| k != p0.fds.next_fd ==> #[trigger] p1.fds.table@.contains_key(k) == p0.fds.table@.contains_key(k)
        },
{
}

/// `set_tid_address(ptr)` records `ptr` as the address to clear on thread
/// exit and answers the thread id (`-ENOSYS`, -38, before the ids are known).
pub proof fn lemma_set_tid_address(p0: ApeProcessState, p1: ApeProcessState, ptr: usize, r: isize)
    requires
        set_tid_address_post(p0, p1, ptr, r),
    ensures
        p1.signal.clear_child_tid == ptr,
        p1.signal.blocked == p0.signal.blocked,
        p1.fds == p0.fds,
        p1.ids == p0.ids,
        p0.ids is Some ==> r == p0.ids->0.tid as isize,
        p0.ids is None ==> r == -38,
{
}

/// `setsid` by a process that does not lead its process group makes it the
/// leader of a new session and group named by its pid, and answers the pid;
/// a group leader is refused with `-EPERM` (-1), and so is nothing else.
pub proof fn lemma_setsid_makes_leader(p0: ApeProcessState, p1: ApeProcessState, r: isize)
    requires
        p0.ids is Some,
        setsid_post(p0, p1, r),
    ensures
        p0.process_group_id == p0.ids->0.pid ==> r == -1 && p1 == p0,
        p0.process_group_id != p0.ids->0.pid ==> r == p0.ids->0.pid as isize
            && p1.session_id == p0.ids->0.pid && p1.process_group_id == p0.ids->0.pid
            && p1.fds == p0.fds && p1.memory == p0.memory && p1.identity == p0.identity,
{
}

/// Where `openat(dirfd, raw)` and `newfstatat`/`readlinkat(dirfd, raw)`
/// look: an absolute `raw`, or any `raw` with `AT_FDCWD` (-100), is read
/// from the current directory; a relative one with an open `dirfd` that
/// records an absolute path is read from that path; `openat` reads it from
/// the current directory when the recorded path is relative, the others
/// from the recorded path itself; a `dirfd` without a recorded path gives
/// `-EBADF` (-9). Every path is resolved inside the root.
pub proof fn lemma_at_paths(fds: FdTable, dirfd: i32, raw: Seq<char>)
    ensures
        (raw.len() > 0 && raw[0] == '/') || dirfd == -100 ==> {
            &&& openat_path_spec(fds, dirfd, raw) == Ok::<Seq<char>, isize>(
                resolve_path_spec(raw, fds.root_dir@, fds.cwd@, seq!['/']),
            )
            &&& at_path_spec(fds, dirfd, raw) == Ok::<Seq<char>, isize>(
                resolve_path_spec(raw, fds.root_dir@, fds.cwd@, seq!['/']),
            )
        },
        !(raw.len() > 0 && raw[0] == '/') && dirfd != -100 && fds.table@.contains_key(dirfd)
            && fds.table@[dirfd].path is Some ==> {
            let base = fds.table@[dirfd].path->0@;
            &&& at_path_spec(fds, dirfd, raw) == Ok::<Seq<char>, isize>(
                resolve_path_spec(raw, fds.root_dir@, base, seq!['/']),
            )
            &&& openat_path_spec(fds, dirfd, raw) == Ok::<Seq<char>, isize>(
                resolve_path_spec(
                    raw,
                    fds.root_dir@,
                    if base.len() > 0 && base[0] == '/' { base } else { fds.cwd@ },
                    seq!['/'],
                ),
            )
        },
        !(raw.len() > 0 && raw[0] == '/') && dirfd != -100 && !(fds.table@.contains_key(dirfd)
            && fds.table@[dirfd].path is Some) ==> openat_path_spec(fds, dirfd, raw) == Err::<Seq<char>, isize>(-9isize)
            && at_path_spec(fds, dirfd, raw) == Err::<Seq<char>, isize>(-9isize),
{
}

/// `getcwd(buf, size)`: a null buffer gives `-EFAULT` (-14), size 0 gives
/// `-EINVAL` (-22); otherwise the current directory as the process sees it
/// is stored as UTF-8 with a NUL when `size` leaves room for both, and
/// `-ERANGE` (-34) comes back when it does not (for any directory whose
/// length fits below the largest `usize`).
pub proof fn lemma_getcwd_answers(fds: FdTable, buf: usize, size: usize)
    ensures
        buf == 0 ==> getcwd_result(fds, buf, size) == Err::<Seq<u8>, isize>(-14isize),
        buf != 0 && size == 0 ==> getcwd_result(fds, buf, size) == Err::<Seq<u8>, isize>(-22isize),
        ({
            let bytes = vstd::utf8::encode_utf8(guest_cwd_spec(fds));
            &&& buf != 0 && size != 0 && size >= bytes.len() + 1 ==> getcwd_result(fds, buf, size)
                == Ok::<Seq<u8>, isize>(bytes.push(0u8))
            &&& buf != 0 && size != 0 && size < bytes.len() + 1 && bytes.len() < usize::MAX ==> getcwd_result(fds, buf, size)
                == Err::<Seq<u8>, isize>(-34isize)
        }),
{
}

} // verus!
