//! The smaller system calls: `uname`, `getrandom`, `readlinkat`'s buffer
//! handling, and the calls carried out by the APE service.
use vstd::prelude::*;
use vstd::slice::slice_subrange;
use vstd::utf8::encode_utf8;
use crate::abi::{errno, errno_spec, EFAULT, ENOSYS};
use crate::records::{encode_utsname, utsname_record};
use crate::runtime::ApeRuntime;
use crate::state::Endpoint;

verus! {

/// The system name `uname` reports.
pub const SYSNAME: &'static str = "Linux-glenda";
/// The node name `uname` reports.
pub const NODENAME: &'static str = "glenda";
/// The release `uname` reports.
pub const RELEASE: &'static str = "5.19.0-glenda";
/// The domain name `uname` reports.
pub const DOMAINNAME: &'static str = "(none)";

/// The first descriptor number after the standard streams.
pub const FIRST_USER_FD: u32 = 3;
/// The default stack size limit.
pub const DEFAULT_MAX_STACK_SIZE: usize = 8388608;
/// Exit status of a process killed by `SIGILL`.
pub const SIGILL_EXIT_CODE: usize = 132;
/// Exit status of a process killed by `SIGTRAP`.
pub const SIGTRAP_EXIT_CODE: usize = 133;
/// Exit status of a process killed by `SIGSEGV`.
pub const SIGSEGV_EXIT_CODE: usize = 139;
/// Exit status of a process killed by an unknown fault (`SIGBUS`).
pub const UNKNOWN_FAULT_EXIT_CODE: usize = 135;

/// `uname`: the `struct utsname` to store (system, node, release, the build's
/// `version` and `machine`, domain); `EFAULT` for a null buffer.
pub fn local_uname(buf_ptr: usize, version: &str, machine: &str) -> (r: Result<Vec<u8>, isize>)
    ensures
        buf_ptr == 0 ==> r == Err::<Vec<u8>, isize>(errno_spec(EFAULT)),
        buf_ptr != 0 ==> r is Ok && r->Ok_0@ == utsname_record(
            encode_utf8(SYSNAME@),
            encode_utf8(NODENAME@),
            encode_utf8(RELEASE@),
            encode_utf8(version@),
            encode_utf8(machine@),
            encode_utf8(DOMAINNAME@),
        ),
{
    if buf_ptr == 0 {
        return Err(errno(EFAULT));
    }
    Ok(encode_utsname(SYSNAME, NODENAME, RELEASE, version, machine, DOMAINNAME))
}

/// `getrandom`: the caller's buffer is filled with zeros and the call
/// answers its length; `EFAULT` for a null buffer of non-zero length.
pub fn local_getrandom(buf_ptr: usize, len: usize) -> (r: isize)
    ensures
        r == if len != 0 && buf_ptr == 0 {
            errno_spec(EFAULT)
        } else {
            len as isize
        },
{
    match crate::user_mem::check_user_buffer(buf_ptr, len) {
        Err(e) => e,
        Ok(()) => len as isize,
    }
}

/// `readlinkat`, before anything is read: a buffer of size 0 gets 0, a null
/// buffer gets `EFAULT`; otherwise the call goes on (`None`).
pub fn readlink_precheck(buf_ptr: usize, bufsiz: usize) -> (r: Option<isize>)
    ensures
        r == if bufsiz == 0 {
            Some(0isize)
        } else if buf_ptr == 0 {
            Some(errno_spec(EFAULT))
        } else {
            None::<isize>
        },
{
    if bufsiz == 0 {
        return Some(0);
    }
    if buf_ptr == 0 {
        return Some(errno(EFAULT));
    }
    None
}

/// `readlinkat`, last step: the bytes of the link target that fit in a
/// buffer of `bufsiz` bytes (no NUL is added); the call answers their count.
pub fn readlink_reply(target: &str, bufsiz: usize) -> (r: Vec<u8>)
    ensures
        r@ == encode_utf8(target@).take(
            if bufsiz < encode_utf8(target@).len() {
                bufsiz as int
            } else {
                encode_utf8(target@).len() as int
            },
        ),
{
    let bytes = target.as_bytes();
    let n = if bufsiz < bytes.len() {
        bufsiz
    } else {
        bytes.len()
    };
    let part = slice_subrange(bytes, 0, n);
    let mut out: Vec<u8> = Vec::new();
    for i in 0..n
        invariant
            n == part@.len(),
            out@ == part@.take(i as int),
    {
        out.push(part[i]);
        assert(part@.take(i + 1) == part@.take(i as int).push(part@[i as int]));
    }
    assert(part@.take(n as int) == part@);
    out
}

/// The endpoint through which clone, execve, wait4, exit and kill go to the
/// APE service; `ENOSYS` while none is known.
pub fn ape_ipc_endpoint(rt: &ApeRuntime) -> (r: Result<Endpoint, isize>)
    ensures
        r == match rt.process.ape_endpoint {
            Some(ep) => Ok::<Endpoint, isize>(ep),
            None => Err::<Endpoint, isize>(errno_spec(ENOSYS)),
        },
{
    match rt.ape_endpoint() {
        Some(ep) => Ok(ep),
        None => Err(errno(ENOSYS)),
    }
}

/// A file the APE service has open for a client: its capability slot and offset.
#[derive(Debug, Clone, Copy)]
pub struct FileHandle {
    pub cap_idx: usize,
    pub offset: u64,
}

impl FileHandle {
    /// Moves the offset past the `n` bytes just read or written.
    pub fn advance(&mut self, n: usize)
        requires
            old(self).offset + n <= u64::MAX,
        ensures
            final(self).offset == old(self).offset + n,
            final(self).cap_idx == old(self).cap_idx,
    {
        self.offset = self.offset + n as u64;
    }
}

/// The shared page of global vDSO data.
#[derive(Debug, Clone, Copy)]
pub struct VdsoGlobal {
    pub system_time_ns: u64,
    pub boot_time_ns: u64,
    pub cycle_freq: u64,
}

/// The per-process vDSO page.
#[derive(Debug, Clone, Copy)]
pub struct VdsoProcess {
    pub pid: u32,
    pub ppid: u32,
    pub tgid: u32,
    pub uid: u32,
    pub gid: u32,
}

} // verus!
