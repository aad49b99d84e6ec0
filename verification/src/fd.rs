//! The file-descriptor table: duplication, `fcntl`, and the bookkeeping
//! around file operations that a file server carries out.
use vstd::prelude::*;
use crate::abi::{
    errno, errno_spec, AT_FDCWD, EBADF, EINVAL, ENOENT, ENOSYS, ERANGE, EFAULT, FD_CLOEXEC,
    F_DUPFD, F_DUPFD_CLOEXEC, F_GETFD, F_GETFL, F_SETFD, F_SETFL, O_APPEND, O_CLOEXEC, O_NONBLOCK,
    S_IFDIR, S_IFMT,
};
use crate::path::{is_absolute, path_inside_root, path_inside_root_spec, resolve_path, resolve_path_spec};
use crate::runtime::{ApeRuntime, same_flags};
use crate::state::{ApeProcessState, Endpoint, FdEntry, FdTable};
use crate::text::str_chars;

verus! {

/// The capability slot where the file server installs the endpoint of a newly opened fd.
pub const FD_CAP_BASE_SLOT: usize = 128;

/// The largest transfer a single `read` or `write` asks the file server for.
pub const MAX_TRANSFER: usize = 8192;

/// `new` differs from `old` at most in the fd table.
pub open spec fn only_fds_changed(old: ApeProcessState, new: ApeProcessState) -> bool {
    new == (ApeProcessState { fds: new.fds, ..old })
}

/// `new` is `old` with the descriptor map replaced.
pub open spec fn only_table_changed(old: FdTable, new: FdTable) -> bool {
    new == (FdTable { table: new.table, ..old })
}

/// What `dup(fd)` does.
pub open spec fn dup_post(old: ApeProcessState, new: ApeProcessState, fd: i32, r: isize) -> bool {
    &&& only_fds_changed(old, new)
    &&& ({
        let fds = old.fds;
        if fds.table@.contains_key(fd) {
            &&& r == fds.next_fd as isize
            &&& new.fds.table@ == fds.table@.insert(fds.next_fd, fds.table@[fd])
            &&& new.fds == (FdTable {
                next_fd: (fds.next_fd + 1) as i32,
                table: new.fds.table,
                ..fds
            })
        } else {
            r == errno_spec(EBADF) && new == old
        }
    })
}

/// `dup`: copies the entry of `fd` to the next descriptor number, or `EBADF`.
pub fn local_dup(rt: &mut ApeRuntime, fd: i32) -> (r: isize)
    requires
        old(rt).process.fds.table@.contains_key(fd) ==> old(rt).process.fds.next_fd < i32::MAX,
    ensures
        same_flags(*old(rt), *final(rt)),
        dup_post(old(rt).process, final(rt).process, fd, r),
{
    let entry = match rt.process.fds.table.get(&fd) {
        Some(e) => e.duplicate(),
        None => return errno(EBADF),
    };
    let new_fd = rt.process.fds.next_fd;
    rt.process.fds.next_fd = new_fd + 1;
    rt.process.fds.table.insert(new_fd, entry);
    new_fd as isize
}

/// What `dup3(oldfd, newfd, ..)` does.
pub open spec fn dup3_post(old: ApeProcessState, new: ApeProcessState, oldfd: i32, newfd: i32, r: isize) -> bool {
    &&& only_fds_changed(old, new)
    &&& ({
        let fds = old.fds;
        if fds.table@.contains_key(oldfd) {
            &&& r == newfd as isize
            &&& new.fds.table@ == fds.table@.insert(newfd, fds.table@[oldfd])
            &&& only_table_changed(fds, new.fds)
        } else {
            r == errno_spec(EBADF) && new == old
        }
    })
}

/// `dup3`: copies the entry of `oldfd` to `newfd` (replacing what was there), or `EBADF`.
pub fn local_dup3(rt: &mut ApeRuntime, oldfd: i32, newfd: i32, flags: u32) -> (r: isize)
    ensures
        same_flags(*old(rt), *final(rt)),
        dup3_post(old(rt).process, final(rt).process, oldfd, newfd, r),
{
    let entry = match rt.process.fds.table.get(&oldfd) {
        Some(e) => e.duplicate(),
        None => return errno(EBADF),
    };
    rt.process.fds.table.insert(newfd, entry);
    newfd as isize
}

/// `v` is the lowest descriptor number at or above `min` that `dom` does not use.
pub open spec fn lowest_free_fd(dom: Set<i32>, min: i32, v: i32) -> bool {
    &&& min <= v
    &&& !dom.contains(v)
    &&& forall|k: i32| min <= k < v ==> #[trigger] dom.contains(k)
}

/// Every descriptor number from `min` on is in use.
pub open spec fn all_used_from(dom: Set<i32>, min: i32) -> bool {
    forall|k: i32| min <= k ==> #[trigger] dom.contains(k)
}

/// The flags that `F_SETFL` may change.
pub open spec fn setfl_mask() -> u32 {
    O_APPEND | O_NONBLOCK
}

/// The entry of `fd` after `fcntl(fd, F_SETFL, arg)`.
pub open spec fn setfl_flags(flags: u32, arg: usize) -> u32 {
    (flags & !setfl_mask()) | ((arg as u32) & setfl_mask())
}

/// The next-descriptor counter after `F_DUPFD` placed a copy at `v`.
pub open spec fn next_after_dup(next_fd: i32, v: i32) -> i32 {
    if next_fd <= v {
        if v == i32::MAX {
            v
        } else {
            (v + 1) as i32
        }
    } else {
        next_fd
    }
}

/// What `fcntl(fd, cmd, arg)` does.
pub open spec fn fcntl_post(old: ApeProcessState, new: ApeProcessState, fd: i32, cmd: usize, arg: usize, r: isize) -> bool {
    &&& only_fds_changed(old, new)
    &&& ({
        let fds = old.fds;
        let c = cmd as u32;
        if !fds.table@.contains_key(fd) {
            r == errno_spec(EBADF) && new == old
        } else {
            let cur = fds.table@[fd];
            if c == F_GETFD {
                r == (if cur.cloexec { FD_CLOEXEC as isize } else { 0 })
                    && new == old
            } else if c == F_SETFD {
                &&& r == 0
                &&& new.fds.table@ == fds.table@.insert(
                    fd,
                    FdEntry { cloexec: (arg & (FD_CLOEXEC as usize)) != 0, ..cur },
                )
                &&& only_table_changed(fds, new.fds)
            } else if c == F_GETFL {
                r == cur.flags as isize && new == old
            } else if c == F_SETFL {
                &&& r == 0
                &&& new.fds.table@ == fds.table@.insert(
                    fd,
                    FdEntry { flags: setfl_flags(cur.flags, arg), ..cur },
                )
                &&& only_table_changed(fds, new.fds)
            } else if c == F_DUPFD || c == F_DUPFD_CLOEXEC {
                let min = arg as i32;
                if min < 0 || all_used_from(fds.table@.dom(), min) {
                    r == errno_spec(EINVAL) && new == old
                } else {
                    exists|v: i32|
                        {
                            &&& lowest_free_fd(fds.table@.dom(), min, v)
                            &&& r == v as isize
                            &&& new.fds.table@ == fds.table@.insert(
                                v,
                                FdEntry { cloexec: c == F_DUPFD_CLOEXEC, ..cur },
                            )
                            &&& new.fds == (FdTable {
                                table: new.fds.table,
                                next_fd: next_after_dup(fds.next_fd, v),
                                ..fds
                            })
                        }
                }
            } else {
                r == errno_spec(EINVAL) && new == old
            }
        }
    })
}

/// `fcntl`: `F_GETFD`/`F_SETFD` read and set close-on-exec, `F_GETFL`/`F_SETFL`
/// read and set the status flags (only `O_APPEND` and `O_NONBLOCK` change),
/// `F_DUPFD`/`F_DUPFD_CLOEXEC` copy the entry to the lowest free descriptor at
/// or above `arg`. `EBADF` for an unknown `fd`, `EINVAL` for any other command,
/// a negative minimum, or no free descriptor left.
pub fn local_fcntl(rt: &mut ApeRuntime, fd: i32, cmd: usize, arg: usize) -> (r: isize)
    ensures
        same_flags(*old(rt), *final(rt)),
        fcntl_post(old(rt).process, final(rt).process, fd, cmd, arg, r),
{
    let current = match rt.process.fds.table.get(&fd) {
        Some(e) => e.duplicate(),
        None => return errno(EBADF),
    };
    let c = cmd as u32;
    if c == F_GETFD {
        if current.cloexec {
            FD_CLOEXEC as isize
        } else {
            0
        }
    } else if c == F_SETFD {
        let updated = FdEntry { cloexec: (arg & (FD_CLOEXEC as usize)) != 0, ..current };
        rt.process.fds.table.insert(fd, updated);
        0
    } else if c == F_GETFL {
        current.flags as isize
    } else if c == F_SETFL {
        let mutable_mask: u32 = O_APPEND | O_NONBLOCK;
        let new_flags = (current.flags & !mutable_mask) | ((arg as u32) & mutable_mask);
        let updated = FdEntry { flags: new_flags, ..current };
        rt.process.fds.table.insert(fd, updated);
        0
    } else if c == F_DUPFD || c == F_DUPFD_CLOEXEC {
        let min_fd = arg as i32;
        if min_fd < 0 {
            return errno(EINVAL);
        }
        let mut new_fd = min_fd;
        #[verifier::loop_isolation(false)]
        while rt.process.fds.table.contains_key(&new_fd)
            invariant
                min_fd <= new_fd,
                rt.process == old(rt).process,
                forall|k: i32| min_fd <= k < new_fd ==> #[trigger] rt.process.fds.table@.dom().contains(k),
            decreases i32::MAX - new_fd,
        {
            if new_fd == i32::MAX {
                assert forall|k: i32| min_fd <= k implies #[trigger] rt.process.fds.table@.dom().contains(k) by {
                    if k < new_fd {
                    } else {
                        assert(k == new_fd);
                    }
                }
                return errno(EINVAL);
            }
            new_fd = new_fd + 1;
        }
        let dup = FdEntry { cloexec: c == F_DUPFD_CLOEXEC, ..current };
        rt.process.fds.table.insert(new_fd, dup);
        if rt.process.fds.next_fd <= new_fd {
            rt.process.fds.next_fd = if new_fd == i32::MAX {
                new_fd
            } else {
                new_fd + 1
            };
        }
        assert(lowest_free_fd(old(rt).process.fds.table@.dom(), min_fd, new_fd));
        new_fd as isize
    } else {
        errno(EINVAL)
    }
}

/// What `close(fd)` does: the entry leaves the table and its endpoint comes
/// back, or `EBADF` with nothing changed.
pub open spec fn close_post(old: ApeProcessState, new: ApeProcessState, fd: i32, r: Result<Endpoint, isize>) -> bool {
    &&& only_fds_changed(old, new)
    &&& if old.fds.table@.contains_key(fd) {
        &&& r == Ok::<Endpoint, isize>(old.fds.table@[fd].endpoint)
        &&& new.fds.table@ == old.fds.table@.remove(fd)
        &&& only_table_changed(old.fds, new.fds)
    } else {
        r == Err::<Endpoint, isize>(errno_spec(EBADF)) && new == old
    }
}

/// `close`: removes the entry of `fd` and hands back its endpoint, which the
/// caller then asks the file server to close; `EBADF` for an unknown `fd`.
pub fn local_close(rt: &mut ApeRuntime, fd: i32) -> (r: Result<Endpoint, isize>)
    ensures
        same_flags(*old(rt), *final(rt)),
        close_post(old(rt).process, final(rt).process, fd, r),
{
    if !rt.process.fds.table.contains_key(&fd) {
        return Err(errno(EBADF));
    }
    match rt.process.fds.table.remove(&fd) {
        Some(entry) => Ok(entry.endpoint),
        None => Err(errno(EBADF)),
    }
}

/// The endpoint of `fd`, or `EBADF` (for `lseek`, `getdents64` and `fstat`).
pub fn fd_endpoint(rt: &ApeRuntime, fd: i32) -> (r: Result<Endpoint, isize>)
    ensures
        r == if rt.process.fds.table@.contains_key(fd) {
            Ok::<Endpoint, isize>(rt.process.fds.table@[fd].endpoint)
        } else {
            Err::<Endpoint, isize>(errno_spec(EBADF))
        },
{
    match rt.process.fds.table.get(&fd) {
        Some(entry) => Ok(entry.endpoint),
        None => Err(errno(EBADF)),
    }
}

/// What a `read` or `write` of `len` bytes on a descriptor asks the file server for.
#[derive(Debug, Clone, Copy)]
pub struct TransferRequest {
    pub endpoint: Endpoint,
    pub offset: usize,
    pub len: usize,
}

/// `read`/`write`, first half: the endpoint and offset of `fd` and a length
/// capped at [`MAX_TRANSFER`]; `EBADF` for an unknown `fd`.
pub fn transfer_request(rt: &ApeRuntime, fd: i32, len: usize) -> (r: Result<TransferRequest, isize>)
    ensures
        r == if rt.process.fds.table@.contains_key(fd) {
            Ok::<TransferRequest, isize>(TransferRequest {
                endpoint: rt.process.fds.table@[fd].endpoint,
                offset: rt.process.fds.table@[fd].offset,
                len: if len < MAX_TRANSFER { len } else { MAX_TRANSFER },
            })
        } else {
            Err::<TransferRequest, isize>(errno_spec(EBADF))
        },
{
    match rt.process.fds.table.get(&fd) {
        Some(entry) => Ok(TransferRequest {
            endpoint: entry.endpoint,
            offset: entry.offset,
            len: if len < MAX_TRANSFER { len } else { MAX_TRANSFER },
        }),
        None => Err(errno(EBADF)),
    }
}

/// `read`/`write`, second half: the file server moved `bytes` bytes, so the
/// offset of `fd` advances by that much; answers `bytes`.
pub fn complete_transfer(rt: &mut ApeRuntime, fd: i32, bytes: usize) -> (r: isize)
    requires
        old(rt).process.fds.table@.contains_key(fd),
        old(rt).process.fds.table@[fd].offset + bytes <= usize::MAX,
    ensures
        r == bytes as isize,
        final(rt).process.fds.table@ == old(rt).process.fds.table@.insert(
            fd,
            FdEntry { offset: (old(rt).process.fds.table@[fd].offset + bytes) as usize, ..old(rt).process.fds.table@[fd] },
        ),
        only_table_changed(old(rt).process.fds, final(rt).process.fds),
        only_fds_changed(old(rt).process, final(rt).process),
        same_flags(*old(rt), *final(rt)),
{
    let entry = match rt.process.fds.table.get(&fd) {
        Some(e) => e.duplicate(),
        None => return 0,
    };
    let updated = FdEntry { offset: entry.offset + bytes, ..entry };
    rt.process.fds.table.insert(fd, updated);
    bytes as isize
}

/// `lseek`, second half: the file server moved the offset of `fd` to `new_off`.
pub fn complete_seek(rt: &mut ApeRuntime, fd: i32, new_off: usize) -> (r: isize)
    requires
        old(rt).process.fds.table@.contains_key(fd),
    ensures
        r == new_off as isize,
        final(rt).process.fds.table@ == old(rt).process.fds.table@.insert(
            fd,
            FdEntry { offset: new_off, ..old(rt).process.fds.table@[fd] },
        ),
        only_table_changed(old(rt).process.fds, final(rt).process.fds),
        only_fds_changed(old(rt).process, final(rt).process),
        same_flags(*old(rt), *final(rt)),
{
    let entry = match rt.process.fds.table.get(&fd) {
        Some(e) => e.duplicate(),
        None => return 0,
    };
    let updated = FdEntry { offset: new_off, ..entry };
    rt.process.fds.table.insert(fd, updated);
    new_off as isize
}

fn starts_with_slash(s: &str) -> (r: bool)
    ensures
        r == is_absolute(s@),
{
    let v = str_chars(s);
    v.len() > 0 && v[0] == '/'
}

/// The directory a relative path given to `openat` is read from: the
/// current directory for `AT_FDCWD`, else the recorded path of `dirfd` (the
/// current directory when that path is relative); `None` (answered with
/// `EBADF`) when `dirfd` is unknown or has no recorded path.
pub open spec fn openat_base(fds: FdTable, dirfd: i32) -> Option<Seq<char>> {
    if dirfd == AT_FDCWD {
        Some(fds.cwd@)
    } else if fds.table@.contains_key(dirfd) && fds.table@[dirfd].path is Some {
        let base = fds.table@[dirfd].path->0@;
        Some(if is_absolute(base) { base } else { fds.cwd@ })
    } else {
        None
    }
}

/// The host path that `openat(dirfd, raw)` opens, or `EBADF`.
pub open spec fn openat_path_spec(fds: FdTable, dirfd: i32, raw: Seq<char>) -> Result<Seq<char>, isize> {
    let base = if is_absolute(raw) { Some(fds.cwd@) } else { openat_base(fds, dirfd) };
    match base {
        Some(b) => Ok(resolve_path_spec(raw, fds.root_dir@, b, seq!['/'])),
        None => Err(errno_spec(EBADF)),
    }
}

/// The directory a relative path given to `newfstatat` or `readlinkat` is
/// read from: the current directory for `AT_FDCWD`, else the recorded path of
/// `dirfd`; `None` (answered with `EBADF`) otherwise.
pub open spec fn at_base(fds: FdTable, dirfd: i32) -> Option<Seq<char>> {
    if dirfd == AT_FDCWD {
        Some(fds.cwd@)
    } else if fds.table@.contains_key(dirfd) && fds.table@[dirfd].path is Some {
        Some(fds.table@[dirfd].path->0@)
    } else {
        None
    }
}

/// The host path that `newfstatat(dirfd, raw)` or `readlinkat(dirfd, raw)` names, or `EBADF`.
pub open spec fn at_path_spec(fds: FdTable, dirfd: i32, raw: Seq<char>) -> Result<Seq<char>, isize> {
    let base = if is_absolute(raw) { Some(fds.cwd@) } else { at_base(fds, dirfd) };
    match base {
        Some(b) => Ok(resolve_path_spec(raw, fds.root_dir@, b, seq!['/'])),
        None => Err(errno_spec(EBADF)),
    }
}

fn recorded_path(fds: &FdTable, dirfd: i32) -> (r: Option<&String>)
    ensures
        match r {
            Some(p) => fds.table@.contains_key(dirfd) && fds.table@[dirfd].path == Some(*p),
            None => !(fds.table@.contains_key(dirfd) && fds.table@[dirfd].path is Some),
        },
{
    match fds.table.get(&dirfd) {
        Some(entry) => match &entry.path {
            Some(p) => Some(p),
            None => None,
        },
        None => None,
    }
}

/// `openat`, first half: the host path to open.
pub fn openat_path(rt: &ApeRuntime, dirfd: i32, raw: &str) -> (r: Result<String, isize>)
    ensures
        match r {
            Ok(p) => openat_path_spec(rt.process.fds, dirfd, raw@) == Ok::<Seq<char>, isize>(p@),
            Err(e) => openat_path_spec(rt.process.fds, dirfd, raw@) == Err::<Seq<char>, isize>(e),
        },
{
    let fds = &rt.process.fds;
    let slash = "/";
    proof {
        reveal_strlit("/");
    }
    assert(slash@ =~= seq!['/']);
    if starts_with_slash(raw) || dirfd == AT_FDCWD {
        return Ok(resolve_path(raw, fds.root_dir.as_str(), fds.cwd.as_str(), slash));
    }
    match recorded_path(fds, dirfd) {
        Some(base) => {
            if starts_with_slash(base.as_str()) {
                Ok(resolve_path(raw, fds.root_dir.as_str(), base.as_str(), slash))
            } else {
                Ok(resolve_path(raw, fds.root_dir.as_str(), fds.cwd.as_str(), slash))
            }
        },
        None => Err(errno(EBADF)),
    }
}

/// `newfstatat`/`readlinkat`: the host path that `raw` names.
pub fn at_path(rt: &ApeRuntime, dirfd: i32, raw: &str) -> (r: Result<String, isize>)
    ensures
        match r {
            Ok(p) => at_path_spec(rt.process.fds, dirfd, raw@) == Ok::<Seq<char>, isize>(p@),
            Err(e) => at_path_spec(rt.process.fds, dirfd, raw@) == Err::<Seq<char>, isize>(e),
        },
{
    let fds = &rt.process.fds;
    let slash = "/";
    proof {
        reveal_strlit("/");
    }
    assert(slash@ =~= seq!['/']);
    if starts_with_slash(raw) || dirfd == AT_FDCWD {
        return Ok(resolve_path(raw, fds.root_dir.as_str(), fds.cwd.as_str(), slash));
    }
    match recorded_path(fds, dirfd) {
        Some(base) => Ok(resolve_path(raw, fds.root_dir.as_str(), base.as_str(), slash)),
        None => Err(errno(EBADF)),
    }
}

/// The capability slot that receives the endpoint of descriptor `fd`.
pub fn fd_cap_slot(fd: i32) -> (r: usize)
    requires
        0 <= fd,
    ensures
        r == FD_CAP_BASE_SLOT + fd,
{
    FD_CAP_BASE_SLOT + (fd as usize)
}

/// `openat`, second half: the file server opened `path` into the slot of the
/// next descriptor; records the entry there and answers the descriptor.
pub fn install_opened_fd(rt: &mut ApeRuntime, path: String, flags: u32) -> (r: isize)
    requires
        0 <= old(rt).process.fds.next_fd < i32::MAX,
    ensures
        ({
            let fds = old(rt).process.fds;
            let fd = fds.next_fd;
            &&& r == fd as isize
            &&& final(rt).process.fds.table@ == fds.table@.insert(
                fd,
                FdEntry {
                    endpoint: Endpoint { cap: (FD_CAP_BASE_SLOT + fd) as usize },
                    offset: 0,
                    flags,
                    cloexec: (flags & O_CLOEXEC) != 0,
                    path: Some(path),
                },
            )
            &&& final(rt).process.fds == (FdTable {
                table: final(rt).process.fds.table,
                next_fd: (fd + 1) as i32,
                ..fds
            })
        }),
        only_fds_changed(old(rt).process, final(rt).process),
        same_flags(*old(rt), *final(rt)),
{
    let new_fd = rt.process.fds.next_fd;
    let slot = fd_cap_slot(new_fd);
    rt.process.fds.next_fd = new_fd + 1;
    let entry = FdEntry {
        endpoint: Endpoint { cap: slot },
        offset: 0,
        flags,
        cloexec: (flags & O_CLOEXEC) != 0,
        path: Some(path),
    };
    rt.process.fds.table.insert(new_fd, entry);
    new_fd as isize
}

/// Whether a file mode describes a directory.
pub open spec fn is_dir_mode_spec(mode: u32) -> bool {
    (mode & S_IFMT) == S_IFDIR
}

/// Whether a file mode describes a directory.
pub fn is_dir_mode(mode: u32) -> (r: bool)
    ensures
        r == is_dir_mode_spec(mode),
{
    (mode & S_IFMT) == S_IFDIR
}

/// The directory that `chdir`/`chroot` with `raw` would move to, and the
/// endpoint to ask whether it is a directory: `ENOENT` for an empty path,
/// `ENOSYS` when no APE endpoint is known.
pub fn chdir_target(rt: &ApeRuntime, raw: &str) -> (r: Result<(Endpoint, String), isize>)
    ensures
        raw@.len() == 0 ==> r == Err::<(Endpoint, String), isize>(errno_spec(ENOENT)),
        raw@.len() != 0 && rt.process.ape_endpoint is None ==> r == Err::<(Endpoint, String), isize>(errno_spec(ENOSYS)),
        raw@.len() != 0 && rt.process.ape_endpoint is Some ==> r is Ok
            && r->Ok_0.0 == rt.process.ape_endpoint->0
            && r->Ok_0.1@ == resolve_path_spec(raw@, rt.process.fds.root_dir@, rt.process.fds.cwd@, seq!['/']),
{
    if raw.is_empty() {
        return Err(errno(ENOENT));
    }
    let slash = "/";
    proof {
        reveal_strlit("/");
    }
    assert(slash@ =~= seq!['/']);
    let resolved = resolve_path(raw, rt.process.fds.root_dir.as_str(), rt.process.fds.cwd.as_str(), slash);
    match rt.process.ape_endpoint {
        Some(ep) => Ok((ep, resolved)),
        None => Err(errno(ENOSYS)),
    }
}

/// `chdir`/`fchdir`, second half: `dir` has file mode `mode`; it becomes the
/// current directory if it is a directory, else `EINVAL`.
pub fn complete_chdir(rt: &mut ApeRuntime, dir: String, mode: u32) -> (r: isize)
    ensures
        same_flags(*old(rt), *final(rt)),
        if is_dir_mode_spec(mode) {
            r == 0 && final(rt).process == (ApeProcessState {
                fds: FdTable { cwd: dir, ..old(rt).process.fds },
                ..old(rt).process
            })
        } else {
            r == errno_spec(EINVAL) && final(rt).process == old(rt).process
        },
{
    if !is_dir_mode(mode) {
        return errno(EINVAL);
    }
    rt.process.fds.cwd = dir;
    0
}

/// `chroot`, second half: `dir` has file mode `mode`; if it is a directory it
/// becomes both the root and the current directory, else `EINVAL`.
pub fn complete_chroot(rt: &mut ApeRuntime, dir: String, mode: u32) -> (r: isize)
    ensures
        same_flags(*old(rt), *final(rt)),
        if is_dir_mode_spec(mode) {
            r == 0 && final(rt).process == (ApeProcessState {
                fds: FdTable { cwd: dir, root_dir: dir, ..old(rt).process.fds },
                ..old(rt).process
            })
        } else {
            r == errno_spec(EINVAL) && final(rt).process == old(rt).process
        },
{
    if !is_dir_mode(mode) {
        return errno(EINVAL);
    }
    rt.process.fds.root_dir = dir.clone();
    rt.process.fds.cwd = dir;
    0
}

/// `fchdir`, first half: the endpoint and recorded path of `fd`; `EBADF`
/// for an unknown `fd`, `EINVAL` when it has no recorded path.
pub fn fchdir_target(rt: &ApeRuntime, fd: i32) -> (r: Result<(Endpoint, String), isize>)
    ensures
        !rt.process.fds.table@.contains_key(fd) ==> r == Err::<(Endpoint, String), isize>(errno_spec(EBADF)),
        rt.process.fds.table@.contains_key(fd) && rt.process.fds.table@[fd].path is None
            ==> r == Err::<(Endpoint, String), isize>(errno_spec(EINVAL)),
        rt.process.fds.table@.contains_key(fd) && rt.process.fds.table@[fd].path is Some
            ==> r == Ok::<(Endpoint, String), isize>((rt.process.fds.table@[fd].endpoint, rt.process.fds.table@[fd].path->0)),
{
    match rt.process.fds.table.get(&fd) {
        Some(entry) => match &entry.path {
            Some(p) => Ok((entry.endpoint, p.clone())),
            None => Err(errno(EINVAL)),
        },
        None => Err(errno(EBADF)),
    }
}

/// The current directory as the process sees it: the host current directory
/// mapped back through the root, or `/` when it lies outside the root.
pub open spec fn guest_cwd_spec(fds: FdTable) -> Seq<char> {
    match path_inside_root_spec(fds.cwd@, fds.root_dir@, seq!['/']) {
        Some(p) => p,
        None => seq!['/'],
    }
}

/// What `getcwd(buf_ptr, size)` gives: the NUL-terminated UTF-8 bytes of
/// the current directory as the process sees it, or `EFAULT` for a null
/// buffer, `EINVAL` for size 0, `ERANGE` when the buffer is too small.
pub open spec fn getcwd_result(fds: FdTable, buf_ptr: usize, size: usize) -> Result<Seq<u8>, isize> {
    let bytes = vstd::utf8::encode_utf8(guest_cwd_spec(fds));
    if buf_ptr == 0 {
        Err(errno_spec(EFAULT))
    } else if size == 0 {
        Err(errno_spec(EINVAL))
    } else if size < crate::user_mem::cstr_need(bytes.len() as int) {
        Err(errno_spec(ERANGE))
    } else {
        Ok(bytes.push(0u8))
    }
}

/// `getcwd`: the NUL-terminated UTF-8 bytes to store in the caller's buffer
/// (the call answers their count); `EFAULT` for a null buffer, `EINVAL` for
/// size 0, `ERANGE` when the buffer is too small.
pub fn local_getcwd(rt: &ApeRuntime, buf_ptr: usize, size: usize) -> (r: Result<Vec<u8>, isize>)
    ensures
        match r {
            Ok(v) => getcwd_result(rt.process.fds, buf_ptr, size) == Ok::<Seq<u8>, isize>(v@),
            Err(e) => getcwd_result(rt.process.fds, buf_ptr, size) == Err::<Seq<u8>, isize>(e),
        },
        buf_ptr == 0 ==> r == Err::<Vec<u8>, isize>(errno_spec(EFAULT)),
        buf_ptr != 0 && size == 0 ==> r == Err::<Vec<u8>, isize>(errno_spec(EINVAL)),
        buf_ptr != 0 && size != 0 ==> ({
            let bytes = vstd::utf8::encode_utf8(guest_cwd_spec(rt.process.fds));
            if size < crate::user_mem::cstr_need(bytes.len() as int) {
                r == Err::<Vec<u8>, isize>(errno_spec(ERANGE))
            } else {
                r is Ok && r->Ok_0@ == bytes.push(0u8)
            }
        }),
{
    if buf_ptr == 0 {
        return Err(errno(EFAULT));
    }
    if size == 0 {
        return Err(errno(EINVAL));
    }
    let slash = "/";
    proof {
        reveal_strlit("/");
    }
    assert(slash@ =~= seq!['/']);
    let guest = match path_inside_root(rt.process.fds.cwd.as_str(), rt.process.fds.root_dir.as_str(), slash) {
        Some(p) => p,
        None => slash.to_owned(),
    };
    crate::user_mem::encode_cstr(guest.as_str(), size)
}

} // verus!
