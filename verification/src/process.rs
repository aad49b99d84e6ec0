//! Process, session and identity system calls answered from local state.
use vstd::prelude::*;
use crate::abi::{errno, errno_spec, ENOSYS, EPERM, ESRCH};
use crate::runtime::{ApeRuntime, same_flags};
use crate::state::{ApeProcessState, SignalState};

verus! {

/// What `getpid` answers.
pub open spec fn getpid_result(p: ApeProcessState) -> isize {
    match p.ids {
        Some(ids) => ids.pid as isize,
        None => errno_spec(ENOSYS),
    }
}

/// What `gettid` answers.
pub open spec fn gettid_result(p: ApeProcessState) -> isize {
    match p.ids {
        Some(ids) => ids.tid as isize,
        None => errno_spec(ENOSYS),
    }
}

/// What `getppid` answers.
pub open spec fn getppid_result(p: ApeProcessState) -> isize {
    match p.ids {
        Some(ids) => ids.ppid as isize,
        None => errno_spec(ENOSYS),
    }
}

/// `getpid`: the process id, or `ENOSYS` before the ids are known.
pub fn local_getpid(rt: &ApeRuntime) -> (r: isize)
    ensures
        r == getpid_result(rt.process),
{
    match rt.process_ids() {
        Some(ids) => ids.pid as isize,
        None => errno(ENOSYS),
    }
}

/// `gettid`: the thread id, or `ENOSYS` before the ids are known.
pub fn local_gettid(rt: &ApeRuntime) -> (r: isize)
    ensures
        r == gettid_result(rt.process),
{
    match rt.process_ids() {
        Some(ids) => ids.tid as isize,
        None => errno(ENOSYS),
    }
}

/// `getppid`: the parent's process id, or `ENOSYS` before the ids are known.
pub fn local_getppid(rt: &ApeRuntime) -> (r: isize)
    ensures
        r == getppid_result(rt.process),
{
    match rt.process_ids() {
        Some(ids) => ids.ppid as isize,
        None => errno(ENOSYS),
    }
}

/// `getuid`.
pub fn local_getuid(rt: &ApeRuntime) -> (r: isize)
    ensures
        r == rt.process.identity.uid as isize,
{
    rt.process_state().identity.uid as isize
}

/// `geteuid`.
pub fn local_geteuid(rt: &ApeRuntime) -> (r: isize)
    ensures
        r == rt.process.identity.euid as isize,
{
    rt.process_state().identity.euid as isize
}

/// `getgid`.
pub fn local_getgid(rt: &ApeRuntime) -> (r: isize)
    ensures
        r == rt.process.identity.gid as isize,
{
    rt.process_state().identity.gid as isize
}

/// `getegid`.
pub fn local_getegid(rt: &ApeRuntime) -> (r: isize)
    ensures
        r == rt.process.identity.egid as isize,
{
    rt.process_state().identity.egid as isize
}

/// `set_tid_address` records `ptr` as the clear-child-tid address and answers the thread id.
pub open spec fn set_tid_address_post(old: ApeProcessState, new: ApeProcessState, ptr: usize, r: isize) -> bool {
    &&& new == (ApeProcessState { signal: new.signal, ..old })
    &&& new.signal == (SignalState { clear_child_tid: ptr, ..old.signal })
    &&& r == gettid_result(old)
}

/// `set_tid_address`: records the clear-child-tid address and answers the thread id.
pub fn local_set_tid_address(rt: &mut ApeRuntime, ptr: usize) -> (r: isize)
    ensures
        set_tid_address_post(old(rt).process, final(rt).process, ptr, r),
        same_flags(*old(rt), *final(rt)),
{
    rt.set_clear_child_tid(ptr);
    match rt.process_ids() {
        Some(ids) => ids.tid as isize,
        None => errno(ENOSYS),
    }
}

/// `sched_yield`: nothing to do.
pub fn local_sched_yield() -> (r: isize)
    ensures
        r == 0,
{
    0
}

/// What `setsid` does: `ENOSYS` without ids, `EPERM` for a process-group
/// leader, else the process leads a new session and process group.
pub open spec fn setsid_post(old: ApeProcessState, new: ApeProcessState, r: isize) -> bool {
    match old.ids {
        None => r == errno_spec(ENOSYS) && new == old,
        Some(ids) => if old.process_group_id == ids.pid {
            r == errno_spec(EPERM) && new == old
        } else {
            r == ids.pid as isize && new == (ApeProcessState {
                session_id: ids.pid,
                process_group_id: ids.pid,
                ..old
            })
        },
    }
}

/// `setsid`: makes the process a session and process-group leader, unless it
/// already leads its process group (`EPERM`) or its ids are unknown (`ENOSYS`).
pub fn local_setsid(rt: &mut ApeRuntime) -> (r: isize)
    ensures
        same_flags(*old(rt), *final(rt)),
        setsid_post(old(rt).process, final(rt).process, r),
{
    let ids = match rt.process_ids() {
        Some(ids) => ids,
        None => return errno(ENOSYS),
    };
    if rt.process_state().process_group_id == ids.pid {
        return errno(EPERM);
    }
    let process = rt.process_state_mut();
    process.session_id = ids.pid;
    process.process_group_id = ids.pid;
    ids.pid as isize
}

/// Whether `target_pid` names the calling process (0 means "the caller").
pub open spec fn names_self(target_pid: usize, pid: usize) -> bool {
    target_pid == 0 || target_pid == pid
}

/// What `setpgid(target_pid, pgid)` does.
pub open spec fn setpgid_post(old: ApeProcessState, new: ApeProcessState, target_pid: usize, pgid: usize, r: isize) -> bool {
    match old.ids {
        None => r == errno_spec(ENOSYS) && new == old,
        Some(ids) => if !names_self(target_pid, ids.pid) {
            r == errno_spec(ESRCH) && new == old
        } else {
            r == 0 && new == (ApeProcessState {
                process_group_id: if pgid == 0 {
                    ids.pid
                } else {
                    pgid
                },
                ..old
            })
        },
    }
}

/// `setpgid`: only the caller itself can be moved; a process group of 0
/// means the caller's own process id.
pub fn local_setpgid(rt: &mut ApeRuntime, target_pid: usize, pgid: usize) -> (r: isize)
    ensures
        same_flags(*old(rt), *final(rt)),
        setpgid_post(old(rt).process, final(rt).process, target_pid, pgid, r),
{
    let ids = match rt.process_ids() {
        Some(ids) => ids,
        None => return errno(ENOSYS),
    };
    if target_pid != 0 && target_pid != ids.pid {
        return errno(ESRCH);
    }
    let new_pgid = if pgid == 0 {
        ids.pid
    } else {
        pgid
    };
    rt.process_state_mut().process_group_id = new_pgid;
    0
}

/// What `getsid(target_pid)` answers.
pub open spec fn getsid_result(p: ApeProcessState, target_pid: usize) -> isize {
    match p.ids {
        None => errno_spec(ENOSYS),
        Some(ids) => if !names_self(target_pid, ids.pid) {
            errno_spec(ESRCH)
        } else {
            p.session_id as isize
        },
    }
}

/// What `getpgid(target_pid)` answers.
pub open spec fn getpgid_result(p: ApeProcessState, target_pid: usize) -> isize {
    match p.ids {
        None => errno_spec(ENOSYS),
        Some(ids) => if !names_self(target_pid, ids.pid) {
            errno_spec(ESRCH)
        } else {
            p.process_group_id as isize
        },
    }
}

/// `getsid`: the caller's session id.
pub fn local_getsid(rt: &ApeRuntime, target_pid: usize) -> (r: isize)
    ensures
        r == getsid_result(rt.process, target_pid),
{
    let ids = match rt.process_ids() {
        Some(ids) => ids,
        None => return errno(ENOSYS),
    };
    if target_pid != 0 && target_pid != ids.pid {
        return errno(ESRCH);
    }
    rt.process_state().session_id as isize
}

/// `getpgid`: the caller's process group id.
pub fn local_getpgid(rt: &ApeRuntime, target_pid: usize) -> (r: isize)
    ensures
        r == getpgid_result(rt.process, target_pid),
{
    let ids = match rt.process_ids() {
        Some(ids) => ids,
        None => return errno(ENOSYS),
    };
    if target_pid != 0 && target_pid != ids.pid {
        return errno(ESRCH);
    }
    rt.process_state().process_group_id as isize
}

} // verus!
