//! What the system-call layer decides about buffers in the caller's memory:
//! when a copy is refused, and which bytes a C string holds.
use vstd::prelude::*;
use vstd::utf8::{decode_utf8, encode_utf8, valid_utf8};
use crate::abi::{errno, errno_spec, EFAULT, EINVAL, ENAMETOOLONG, ERANGE};

verus! {

/// Decodes UTF-8 bytes into a string.
///
/// Trusted wrapper of `String::from_utf8`; the contract claims what std
/// documents: it succeeds exactly on valid UTF-8, and then the string holds
/// the decoded characters.
#[verifier::external_body]
pub(crate) fn string_from_utf8(bytes: Vec<u8>) -> (r: Option<String>)
    ensures
        r is Some <==> valid_utf8(bytes@),
        r is Some ==> r->0@ == decode_utf8(bytes@),
{
    String::from_utf8(bytes).ok()
}

/// Whether copying `len` bytes to or from the caller address `ptr` is
/// refused: an empty copy always succeeds, a null address gives `EFAULT`.
pub fn check_user_buffer(ptr: usize, len: usize) -> (r: Result<(), isize>)
    ensures
        r == if len != 0 && ptr == 0 {
            Err::<(), isize>(errno_spec(EFAULT))
        } else {
            Ok::<(), isize>(())
        },
{
    if len == 0 {
        return Ok(());
    }
    if ptr == 0 {
        return Err(errno(EFAULT));
    }
    Ok(())
}

/// Whether a single-value access at the caller address `ptr` is refused (`EFAULT` for null).
pub fn check_user_pointer(ptr: usize) -> (r: Result<(), isize>)
    ensures
        r == if ptr == 0 {
            Err::<(), isize>(errno_spec(EFAULT))
        } else {
            Ok::<(), isize>(())
        },
{
    if ptr == 0 {
        Err(errno(EFAULT))
    } else {
        Ok(())
    }
}

/// The index of the first NUL byte among the first `max_len` bytes of `mem`, if any.
pub open spec fn first_nul_within(mem: Seq<u8>, max_len: int) -> Option<int> {
    if exists|i: int| 0 <= i < max_len && i < mem.len() && mem[i] == 0 {
        Some(choose|i: int| 0 <= i < max_len && i < mem.len() && mem[i] == 0 && (forall|j: int| 0 <= j < i ==> mem[j] != 0))
    } else {
        None
    }
}

/// Whether `mem` holds enough of the caller's bytes to decide a C string of
/// at most `max_len` bytes: up to its NUL, or `max_len` bytes.
pub open spec fn cstr_readable(mem: Seq<u8>, max_len: int) -> bool {
    mem.len() >= max_len || exists|i: int| 0 <= i < mem.len() && mem[i] == 0
}

/// The C string at caller address `ptr`, given the bytes `mem` read there:
/// `EFAULT` for a null address, `EINVAL` for `max_len == 0` or bytes that
/// are not UTF-8, `ENAMETOOLONG` when no NUL comes within `max_len` bytes.
pub fn read_cstr(ptr: usize, max_len: usize, mem: &[u8]) -> (r: Result<String, isize>)
    requires
        ptr != 0 && max_len != 0 ==> cstr_readable(mem@, max_len as int),
    ensures
        ptr == 0 ==> r == Err::<String, isize>(errno_spec(EFAULT)),
        ptr != 0 && max_len == 0 ==> r == Err::<String, isize>(errno_spec(EINVAL)),
        ptr != 0 && max_len != 0 ==> match first_nul_within(mem@, max_len as int) {
            None => r == Err::<String, isize>(errno_spec(ENAMETOOLONG)),
            Some(k) => if valid_utf8(mem@.take(k)) {
                r is Ok && r->Ok_0@ == decode_utf8(mem@.take(k))
            } else {
                r == Err::<String, isize>(errno_spec(EINVAL))
            },
        },
{
    if ptr == 0 {
        return Err(errno(EFAULT));
    }
    if max_len == 0 {
        return Err(errno(EINVAL));
    }
    let mut out: Vec<u8> = Vec::new();
    let mut i: usize = 0;
    while i < max_len
        invariant
            ptr != 0,
            max_len != 0,
            i <= max_len,
            cstr_readable(mem@, max_len as int),
            i <= mem@.len(),
            out@ == mem@.take(i as int),
            forall|j: int| 0 <= j < i ==> mem@[j] != 0,
        decreases max_len - i,
    {
        if i >= mem.len() {
            // `mem` ends before `max_len` bytes, so it holds a NUL that the scan already passed
            assert(false);
        }
        let b = mem[i];
        if b == 0 {
            assert(first_nul_within(mem@, max_len as int) == Some(i as int)) by {
                assert(0 <= i < max_len && i < mem@.len() && mem@[i as int] == 0);
                let k = choose|k: int| 0 <= k < max_len && k < mem@.len() && mem@[k] == 0 && (forall|j: int| 0 <= j < k ==> mem@[j] != 0);
                assert(k == i);
            }
            return match string_from_utf8(out) {
                Some(s) => Ok(s),
                None => Err(errno(EINVAL)),
            };
        }
        out.push(b);
        assert(mem@.take(i + 1) == mem@.take(i as int).push(b));
        i = i + 1;
    }
    assert(first_nul_within(mem@, max_len as int) is None);
    Err(errno(ENAMETOOLONG))
}

/// The size of the buffer a C string of `len` bytes needs: `len + 1`,
/// saturating at `usize::MAX`.
pub open spec fn cstr_need(len: int) -> int {
    if len + 1 > usize::MAX {
        usize::MAX as int
    } else {
        len + 1
    }
}

/// The NUL-terminated UTF-8 bytes of `s` for a buffer of `dst_len` bytes, or
/// `ERANGE` when they do not fit.
pub fn encode_cstr(s: &str, dst_len: usize) -> (r: Result<Vec<u8>, isize>)
    ensures
        dst_len < cstr_need(encode_utf8(s@).len() as int) ==> r == Err::<Vec<u8>, isize>(errno_spec(ERANGE)),
        dst_len >= cstr_need(encode_utf8(s@).len() as int) ==> r is Ok && r->Ok_0@ == encode_utf8(s@).push(0u8),
{
    let need = s.len().saturating_add(1);
    if dst_len < need {
        return Err(errno(ERANGE));
    }
    let bytes = s.as_bytes();
    let mut out: Vec<u8> = Vec::new();
    let n = bytes.len();
    for i in 0..n
        invariant
            n == bytes@.len(),
            out@ == bytes@.take(i as int),
    {
        out.push(bytes[i]);
        assert(bytes@.take(i + 1) == bytes@.take(i as int).push(bytes@[i as int]));
    }
    assert(bytes@.take(n as int) == bytes@);
    out.push(0u8);
    Ok(out)
}

} // verus!
