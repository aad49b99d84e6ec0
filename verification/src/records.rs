//! Byte layouts of the records that system calls hand to the caller (the
//! target is little-endian): `struct stat`, `linux_dirent64`, `struct
//! utsname` and `struct sigaction`.
use vstd::prelude::*;
use vstd::bytes::{
    spec_u16_to_le_bytes, spec_u32_to_le_bytes, spec_u64_from_le_bytes, spec_u64_to_le_bytes,
    u16_to_le_bytes, u32_to_le_bytes, u64_from_le_bytes, u64_to_le_bytes,
};
use vstd::slice::slice_subrange;
use vstd::utf8::encode_utf8;
use crate::state::SignalAction;

verus! {

/// `n` zero bytes.
pub open spec fn zeros(n: nat) -> Seq<u8> {
    Seq::new(n, |i: int| 0u8)
}

fn push_zeros(out: &mut Vec<u8>, n: usize)
    ensures
        final(out)@ == old(out)@ + zeros(n as nat),
{
    for i in 0..n
        invariant
            out@ == old(out)@ + zeros(i as nat),
    {
        out.push(0u8);
        assert(old(out)@ + zeros((i + 1) as nat) =~= (old(out)@ + zeros(i as nat)).push(0u8));
    }
}

pub(crate) fn push_u64(out: &mut Vec<u8>, x: u64)
    ensures
        final(out)@ == old(out)@ + spec_u64_to_le_bytes(x),
{
    let mut b = u64_to_le_bytes(x);
    out.append(&mut b);
}

pub(crate) fn push_u32(out: &mut Vec<u8>, x: u32)
    ensures
        final(out)@ == old(out)@ + spec_u32_to_le_bytes(x),
{
    let mut b = u32_to_le_bytes(x);
    out.append(&mut b);
}

pub(crate) fn push_bytes(out: &mut Vec<u8>, b: &[u8])
    ensures
        final(out)@ == old(out)@ + b@,
{
    let n = b.len();
    for i in 0..n
        invariant
            n == b@.len(),
            out@ == old(out)@ + b@.take(i as int),
    {
        out.push(b[i]);
        assert(b@.take(i + 1) == b@.take(i as int).push(b@[i as int]));
    }
    assert(b@.take(n as int) == b@);
}

/// What the file server reports about a file.
#[derive(Debug, Clone, Copy)]
pub struct FileStat {
    pub dev: u64,
    pub ino: u64,
    pub mode: u32,
    pub nlink: u32,
    pub uid: u32,
    pub gid: u32,
    pub rdev: u64,
    pub size: u64,
    pub blksize: u32,
    pub blocks: u64,
    pub atime: i64,
    pub mtime: i64,
    pub ctime: i64,
}

/// The size of the riscv64 `struct stat`.
pub const LINUX_STAT_SIZE: usize = 128;

/// The riscv64 `struct stat` for `st`: device, inode, mode, link count, uid,
/// gid, special device, padding, size, block size, padding, blocks, then the
/// access, modification and change times in seconds, each followed by a zero
/// nanosecond field, and two unused words.
pub open spec fn linux_stat_record(st: FileStat) -> Seq<u8> {
    spec_u64_to_le_bytes(st.dev) + spec_u64_to_le_bytes(st.ino) + spec_u32_to_le_bytes(st.mode)
        + spec_u32_to_le_bytes(st.nlink) + spec_u32_to_le_bytes(st.uid) + spec_u32_to_le_bytes(st.gid)
        + spec_u64_to_le_bytes(st.rdev) + zeros(8) + spec_u64_to_le_bytes(st.size)
        + spec_u32_to_le_bytes(st.blksize) + zeros(4) + spec_u64_to_le_bytes(st.blocks)
        + spec_u64_to_le_bytes(st.atime as u64) + zeros(8) + spec_u64_to_le_bytes(st.mtime as u64)
        + zeros(8) + spec_u64_to_le_bytes(st.ctime as u64) + zeros(8) + zeros(8)
}

/// The bytes of the riscv64 `struct stat` that `fstat` and `newfstatat` store.
pub fn encode_linux_stat(st: &FileStat) -> (r: Vec<u8>)
    ensures
        r@ == linux_stat_record(*st),
        r@.len() == LINUX_STAT_SIZE,
{
    proof {
        vstd::bytes::lemma_auto_spec_u64_to_from_le_bytes();
        vstd::bytes::lemma_auto_spec_u32_to_from_le_bytes();
    }
    let mut out: Vec<u8> = Vec::new();
    push_u64(&mut out, st.dev);
    push_u64(&mut out, st.ino);
    push_u32(&mut out, st.mode);
    push_u32(&mut out, st.nlink);
    push_u32(&mut out, st.uid);
    push_u32(&mut out, st.gid);
    push_u64(&mut out, st.rdev);
    push_zeros(&mut out, 8);
    push_u64(&mut out, st.size);
    push_u32(&mut out, st.blksize);
    push_zeros(&mut out, 4);
    push_u64(&mut out, st.blocks);
    push_u64(&mut out, st.atime as u64);
    push_zeros(&mut out, 8);
    push_u64(&mut out, st.mtime as u64);
    push_zeros(&mut out, 8);
    push_u64(&mut out, st.ctime as u64);
    push_zeros(&mut out, 8);
    push_zeros(&mut out, 8);
    assert(out@ =~= linux_stat_record(*st));
    out
}

/// A directory entry as the file server reports it; `name` is its fixed-size,
/// NUL-padded name field.
#[derive(Debug, Clone)]
pub struct DirEntry {
    pub ino: u64,
    pub off: i64,
    pub kind: u8,
    pub name: Vec<u8>,
}

/// The longest name field a directory entry carries.
pub const DIRENT_NAME_MAX: usize = 256;

/// The length of a NUL-padded name: up to its first NUL, or all of it.
pub open spec fn name_len(name: Seq<u8>) -> int {
    if exists|i: int| 0 <= i < name.len() && name[i] == 0 {
        choose|i: int| 0 <= i < name.len() && name[i] == 0 && (forall|j: int| 0 <= j < i ==> name[j] != 0)
    } else {
        name.len() as int
    }
}

/// The size of a `linux_dirent64` record with a name of `n` bytes: the
/// 19-byte header, the name and its NUL, rounded up to a multiple of 8.
pub open spec fn dirent_reclen(n: int) -> int {
    (19 + n + 1 + 7) / 8 * 8
}

/// The `linux_dirent64` record of `d`, padded with zeros to its record length.
pub open spec fn dirent_record(d: DirEntry) -> Seq<u8> {
    let n = name_len(d.name@);
    let body = spec_u64_to_le_bytes(d.ino) + spec_u64_to_le_bytes(d.off as u64)
        + spec_u16_to_le_bytes(dirent_reclen(n) as u16) + seq![d.kind] + d.name@.take(n) + seq![0u8];
    body + zeros((dirent_reclen(n) - body.len()) as nat)
}

/// The records of `ds` appended to `acc`, stopping after the first record
/// that brings the total to `count` bytes or more.
pub open spec fn dirent_stream(ds: Seq<DirEntry>, count: int, acc: Seq<u8>) -> Seq<u8>
    decreases ds.len(),
{
    if ds.len() == 0 {
        acc
    } else {
        let next = acc + dirent_record(ds[0]);
        if next.len() >= count {
            next
        } else {
            dirent_stream(ds.drop_first(), count, next)
        }
    }
}

/// What `getdents64` stores for the entries `ds` in a buffer of `count`
/// bytes: the records in order, cut at `count` bytes.
pub open spec fn getdents_bytes(ds: Seq<DirEntry>, count: int) -> Seq<u8> {
    let all = dirent_stream(ds, count, Seq::empty());
    if all.len() < count {
        all
    } else {
        all.take(count)
    }
}

pub(crate) fn name_length(name: &[u8]) -> (n: usize)
    ensures
        n == name_len(name@),
        n <= name@.len(),
{
    let len = name.len();
    for i in 0..len
        invariant
            len == name@.len(),
            forall|j: int| 0 <= j < i ==> name@[j] != 0,
    {
        if name[i] == 0 {
            assert(name_len(name@) == i) by {
                let k = choose|k: int| 0 <= k < name@.len() && name@[k] == 0 && (forall|j: int| 0 <= j < k ==> name@[j] != 0);
                assert(k == i);
            }
            return i;
        }
    }
    len
}

pub(crate) proof fn lemma_reclen_fits(n: int)
    requires
        0 <= n <= 256,
    ensures
        20 + n <= dirent_reclen(n) <= 20 + n + 7,
        dirent_reclen(n) <= 288,
        dirent_reclen(n) % 8 == 0,
{
}

fn push_dirent(out: &mut Vec<u8>, d: &DirEntry)
    requires
        d.name@.len() <= DIRENT_NAME_MAX,
        old(out)@.len() + 288 <= usize::MAX,
    ensures
        final(out)@ == old(out)@ + dirent_record(*d),
        dirent_record(*d).len() <= 288,
{
    let n = name_length(d.name.as_slice());
    proof {
        lemma_reclen_fits(n as int);
        vstd::bytes::lemma_auto_spec_u64_to_from_le_bytes();
        vstd::bytes::lemma_auto_spec_u16_to_from_le_bytes();
    }
    let reclen: usize = (19 + n + 1 + 7) / 8 * 8;
    let start = out.len();
    push_u64(out, d.ino);
    push_u64(out, d.off as u64);
    let mut rl = u16_to_le_bytes(reclen as u16);
    out.append(&mut rl);
    out.push(d.kind);
    push_bytes(out, slice_subrange(d.name.as_slice(), 0, n));
    out.push(0u8);
    let body_len = out.len() - start;
    push_zeros(out, reclen - body_len);
    assert(out@ =~= old(out)@ + dirent_record(*d));
}

/// `getdents64`: the bytes to store for the entries the file server listed,
/// in a buffer of `count` bytes.
pub fn encode_dirents(dents: &[DirEntry], count: usize) -> (r: Vec<u8>)
    requires
        forall|i: int| 0 <= i < dents@.len() ==> (#[trigger] dents@[i]).name@.len() <= DIRENT_NAME_MAX,
        dents@.len() * 288 <= usize::MAX,
    ensures
        r@ == getdents_bytes(dents@, count as int),
{
    let mut out: Vec<u8> = Vec::new();
    let n = dents.len();
    let mut i: usize = 0;
    let mut done = false;
    let ghost all = dirent_stream(dents@, count as int, Seq::empty());
    assert(dents@.skip(0) =~= dents@);
    while i < n && !done
        invariant
            n == dents@.len(),
            i <= n,
            forall|k: int| 0 <= k < dents@.len() ==> (#[trigger] dents@[k]).name@.len() <= DIRENT_NAME_MAX,
            dents@.len() * 288 <= usize::MAX,
            out@.len() <= i * 288,
            all == dirent_stream(dents@, count as int, Seq::empty()),
            done ==> all == out@,
            !done ==> all == dirent_stream(dents@.skip(i as int), count as int, out@),
        decreases n - i,
    {
        assert(out@.len() + 288 <= usize::MAX) by (nonlinear_arith)
            requires
                out@.len() <= i * 288,
                i < n,
                n * 288 <= usize::MAX,
        ;
        assert(dents@.skip(i as int)[0] == dents@[i as int]);
        assert(dents@.skip(i as int).drop_first() =~= dents@.skip(i + 1));
        push_dirent(&mut out, &dents[i]);
        i = i + 1;
        if out.len() >= count {
            done = true;
        }
    }
    if !done {
        assert(dents@.skip(i as int) =~= Seq::<DirEntry>::empty());
    }
    let to_copy = if out.len() < count { out.len() } else { count };
    out.truncate(to_copy);
    out
}

/// The size of one `struct utsname` field.
pub const UTS_STR_LEN: usize = 65;

/// One `struct utsname` field holding `value`: at most 64 of its bytes, then zeros.
pub open spec fn uts_field(value: Seq<u8>) -> Seq<u8> {
    let n = if value.len() < 64 { value.len() } else { 64 };
    value.take(n as int) + zeros((65 - n) as nat)
}

fn push_uts_field(out: &mut Vec<u8>, value: &str)
    ensures
        final(out)@ == old(out)@ + uts_field(encode_utf8(value@)),
{
    let bytes = value.as_bytes();
    let n = if bytes.len() < 64 { bytes.len() } else { 64 };
    push_bytes(out, slice_subrange(bytes, 0, n));
    push_zeros(out, UTS_STR_LEN - n);
}

/// The `struct utsname` that `uname` stores: system name, node name,
/// release, version, machine and domain name, 65 bytes each.
pub open spec fn utsname_record(
    sysname: Seq<u8>,
    nodename: Seq<u8>,
    release: Seq<u8>,
    version: Seq<u8>,
    machine: Seq<u8>,
    domainname: Seq<u8>,
) -> Seq<u8> {
    uts_field(sysname) + uts_field(nodename) + uts_field(release) + uts_field(version)
        + uts_field(machine) + uts_field(domainname)
}

/// The bytes of a `struct utsname` with the given fields.
pub fn encode_utsname(
    sysname: &str,
    nodename: &str,
    release: &str,
    version: &str,
    machine: &str,
    domainname: &str,
) -> (r: Vec<u8>)
    ensures
        r@ == utsname_record(
            encode_utf8(sysname@),
            encode_utf8(nodename@),
            encode_utf8(release@),
            encode_utf8(version@),
            encode_utf8(machine@),
            encode_utf8(domainname@),
        ),
        r@.len() == 6 * UTS_STR_LEN,
{
    let mut out: Vec<u8> = Vec::new();
    push_uts_field(&mut out, sysname);
    push_uts_field(&mut out, nodename);
    push_uts_field(&mut out, release);
    push_uts_field(&mut out, version);
    push_uts_field(&mut out, machine);
    push_uts_field(&mut out, domainname);
    assert(out@ =~= utsname_record(
        encode_utf8(sysname@),
        encode_utf8(nodename@),
        encode_utf8(release@),
        encode_utf8(version@),
        encode_utf8(machine@),
        encode_utf8(domainname@),
    ));
    out
}

/// The size of the `struct sigaction` record (handler, flags, restorer, mask).
pub const SIGACTION_SIZE: usize = 32;

/// The `struct sigaction` record of `a`: handler, flags, restorer, mask, 8 bytes each.
pub open spec fn sigaction_record(a: SignalAction) -> Seq<u8> {
    spec_u64_to_le_bytes(a.handler as u64) + spec_u64_to_le_bytes(a.flags as u64)
        + spec_u64_to_le_bytes(a.restorer as u64) + spec_u64_to_le_bytes(a.mask)
}

/// The disposition that a 32-byte `struct sigaction` record describes.
pub open spec fn sigaction_from_record(raw: Seq<u8>) -> SignalAction {
    SignalAction {
        handler: spec_u64_from_le_bytes(raw.subrange(0, 8)) as usize,
        flags: spec_u64_from_le_bytes(raw.subrange(8, 16)) as usize,
        restorer: spec_u64_from_le_bytes(raw.subrange(16, 24)) as usize,
        mask: spec_u64_from_le_bytes(raw.subrange(24, 32)),
    }
}

/// The record of a disposition.
pub fn encode_sigaction(a: &SignalAction) -> (r: Vec<u8>)
    ensures
        r@ == sigaction_record(*a),
        r@.len() == SIGACTION_SIZE,
{
    proof {
        vstd::bytes::lemma_auto_spec_u64_to_from_le_bytes();
    }
    let mut out: Vec<u8> = Vec::new();
    push_u64(&mut out, a.handler as u64);
    push_u64(&mut out, a.flags as u64);
    push_u64(&mut out, a.restorer as u64);
    push_u64(&mut out, a.mask);
    out
}

/// The disposition a record describes.
pub fn decode_sigaction(raw: &[u8]) -> (a: SignalAction)
    requires
        raw@.len() == SIGACTION_SIZE,
    ensures
        a == sigaction_from_record(raw@),
{
    let handler = u64_from_le_bytes(slice_subrange(raw, 0, 8));
    let flags = u64_from_le_bytes(slice_subrange(raw, 8, 16));
    let restorer = u64_from_le_bytes(slice_subrange(raw, 16, 24));
    let mask = u64_from_le_bytes(slice_subrange(raw, 24, 32));
    SignalAction { handler: handler as usize, flags: flags as usize, restorer: restorer as usize, mask }
}

/// Reading back the record of a disposition that a record set gives that
/// record again, provided its words fit in a `usize` (always on the 64-bit target).
pub proof fn lemma_sigaction_record_round_trip(raw: Seq<u8>)
    requires
        raw.len() == SIGACTION_SIZE,
        spec_u64_from_le_bytes(raw.subrange(0, 8)) <= usize::MAX,
        spec_u64_from_le_bytes(raw.subrange(8, 16)) <= usize::MAX,
        spec_u64_from_le_bytes(raw.subrange(16, 24)) <= usize::MAX,
    ensures
        sigaction_record(sigaction_from_record(raw)) == raw,
{
    vstd::bytes::lemma_auto_spec_u64_to_from_le_bytes();
    let a = sigaction_from_record(raw);
    assert(spec_u64_to_le_bytes(spec_u64_from_le_bytes(raw.subrange(0, 8))) == raw.subrange(0, 8));
    assert(spec_u64_to_le_bytes(spec_u64_from_le_bytes(raw.subrange(8, 16))) == raw.subrange(8, 16));
    assert(spec_u64_to_le_bytes(spec_u64_from_le_bytes(raw.subrange(16, 24))) == raw.subrange(16, 24));
    assert(spec_u64_to_le_bytes(spec_u64_from_le_bytes(raw.subrange(24, 32))) == raw.subrange(24, 32));
    assert(raw =~= raw.subrange(0, 8) + raw.subrange(8, 16) + raw.subrange(16, 24) + raw.subrange(24, 32));
}

} // verus!
