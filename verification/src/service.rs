//! Decisions of the APE service's own Linux interface: which descriptor a
//! newly opened file gets, where `getdents64` places each record, which
//! bytes `fstat` stores, what goes to the console, and how `brk` moves.
use std::collections::BTreeMap;
use vstd::prelude::*;
use vstd::bytes::{spec_u16_to_le_bytes, spec_u32_to_le_bytes, spec_u64_to_le_bytes, u16_to_le_bytes};
use vstd::utf8::{decode_utf8, valid_utf8};
use vstd::slice::slice_subrange;
use vstd::std_specs::iter::IteratorSpec;
use crate::misc::FileHandle;
use crate::user_mem::string_from_utf8;
use crate::records::{
    dirent_reclen, lemma_reclen_fits, name_len, name_length, push_bytes, push_u32, push_u64,
    DirEntry, DIRENT_NAME_MAX,
};

verus! {

/// The descriptor the service gives the next file it opens: one past the
/// highest descriptor in use, or 3 when none is.
pub open spec fn service_next_fd_spec(dom: Set<usize>, r: usize) -> bool {
    if dom.len() == 0 {
        r == 3
    } else {
        r > 0 && dom.contains((r - 1) as usize) && forall|k: usize| #[trigger] dom.contains(k) ==> k < r
    }
}

/// Computes [`service_next_fd_spec`].
pub fn service_next_fd(fds: &BTreeMap<usize, FileHandle>) -> (r: usize)
    requires
        !fds@.dom().contains(usize::MAX),
    ensures
        service_next_fd_spec(fds@.dom(), r),
        !fds@.dom().contains(r),
        fds@.dom().len() == 0 ==> r == 3,
        fds@.dom().len() > 0 ==> fds@.dom().contains((r - 1) as usize) && forall|k: usize|
            #[trigger] fds@.dom().contains(k) ==> k < r,
{
    broadcast use vstd::std_specs::btree::group_btree_axioms;
    let ghost ks: Seq<usize> = vstd::std_specs::btree::spec_keys_iter(fds).remaining().unref();
    let ghost mut n: int = 0;
    let mut best: Option<usize> = None;
    for k in it: fds.keys()
        invariant
            ks.to_set() == fds@.dom(),
            it.seq().unref() == ks,
            n == it.index(),
            match best {
                None => n == 0,
                Some(b) => {
                    &&& exists|i: int| 0 <= i < n && ks[i] == b
                    &&& forall|i: int| 0 <= i < n ==> ks[i] <= b
                },
            },
    {
        assert(ks[n] == *k);
        best = match best {
            None => Some(*k),
            Some(b) => if *k > b { Some(*k) } else { Some(b) },
        };
        proof {
            n = n + 1;
        }
    }
    assert(n == ks.len());
    match best {
        None => {
            assert(ks.len() == 0);
            assert(fds@.dom() =~= Set::<usize>::empty());
            3
        },
        Some(b) => {
            let ghost w = choose|i: int| 0 <= i < n && ks[i] == b;
            assert(ks.contains(b)) by {
                assert(ks[w] == b);
            }
            assert(fds@.dom().contains(b));
            assert forall|k: usize| #[trigger] fds@.dom().contains(k) implies k <= b by {
                assert(ks.contains(k));
                let i = choose|i: int| 0 <= i < ks.len() && ks[i] == k;
                assert(ks[i] <= b);
            }
            b + 1
        },
    }
}

/// The bytes the service writes for `d` at the start of its record, when
/// the record ends at byte `end` of the caller's buffer: inode, `end` as the
/// offset field, record length, type, name and NUL. The padding after them,
/// up to the record length, is not written.
pub open spec fn service_dirent_body(d: DirEntry, end: int) -> Seq<u8> {
    let n = name_len(d.name@);
    spec_u64_to_le_bytes(d.ino) + spec_u64_to_le_bytes(end as u64)
        + spec_u16_to_le_bytes(dirent_reclen(n) as u16) + seq![d.kind] + d.name@.take(n) + seq![0u8]
}

/// The writes of the records of `ds` placed from byte `offset` on, each as
/// its start and bytes, stopping at the first record that would pass byte
/// `count`.
pub open spec fn service_dirent_writes(ds: Seq<DirEntry>, count: int, offset: int) -> Seq<(int, Seq<u8>)>
    decreases ds.len(),
{
    if ds.len() == 0 {
        Seq::empty()
    } else {
        let end = offset + dirent_reclen(name_len(ds[0].name@));
        if end > count {
            Seq::empty()
        } else {
            seq![(offset, service_dirent_body(ds[0], end))] + service_dirent_writes(ds.drop_first(), count, end)
        }
    }
}

/// Where the records of `ds` placed from byte `offset` on end: the number of
/// bytes the listing fills.
pub open spec fn service_dirents_end(ds: Seq<DirEntry>, count: int, offset: int) -> int
    decreases ds.len(),
{
    if ds.len() == 0 {
        offset
    } else {
        let end = offset + dirent_reclen(name_len(ds[0].name@));
        if end > count {
            offset
        } else {
            service_dirents_end(ds.drop_first(), count, end)
        }
    }
}

/// A write of `bytes` at byte `offset` of the caller's buffer.
#[derive(Debug, Clone)]
pub struct DirentWrite {
    pub offset: usize,
    pub bytes: Vec<u8>,
}

/// A write as its start and bytes.
pub open spec fn dirent_write_view(w: DirentWrite) -> (int, Seq<u8>) {
    (w.offset as int, w.bytes@)
}

fn service_dirent_bytes(d: &DirEntry, n: usize, end: usize) -> (r: Vec<u8>)
    requires
        n == name_len(d.name@),
        n <= d.name@.len() <= DIRENT_NAME_MAX,
    ensures
        r@ == service_dirent_body(*d, end as int),
{
    proof {
        lemma_reclen_fits(n as int);
    }
    let reclen: usize = (19 + n + 1 + 7) / 8 * 8;
    let mut out: Vec<u8> = Vec::new();
    push_u64(&mut out, d.ino);
    push_u64(&mut out, end as u64);
    let mut rl = u16_to_le_bytes(reclen as u16);
    out.append(&mut rl);
    out.push(d.kind);
    push_bytes(&mut out, slice_subrange(d.name.as_slice(), 0, n));
    out.push(0u8);
    assert(out@ =~= service_dirent_body(*d, end as int));
    out
}

/// `getdents64` of the APE service: where each record goes in a buffer of
/// `count` bytes and what is written there, and how many bytes the listing
/// fills (what the call answers). Each record is placed whole; the first
/// one that does not fit ends the listing.
pub fn service_dirents(dents: &[DirEntry], count: usize) -> (r: (Vec<DirentWrite>, usize))
    requires
        forall|i: int| 0 <= i < dents@.len() ==> (#[trigger] dents@[i]).name@.len() <= DIRENT_NAME_MAX,
    ensures
        r.0@.map_values(|w: DirentWrite| dirent_write_view(w)) == service_dirent_writes(dents@, count as int, 0),
        r.1 == service_dirents_end(dents@, count as int, 0),
        r.1 <= count,
{
    let mut writes: Vec<DirentWrite> = Vec::new();
    let mut offset: usize = 0;
    let len = dents.len();
    let mut i: usize = 0;
    assert(dents@.skip(0) =~= dents@);
    while i < len
        invariant_except_break
            writes@.map_values(|w: DirentWrite| dirent_write_view(w))
                + service_dirent_writes(dents@.skip(i as int), count as int, offset as int)
                == service_dirent_writes(dents@, count as int, 0),
            service_dirents_end(dents@.skip(i as int), count as int, offset as int)
                == service_dirents_end(dents@, count as int, 0),
        invariant
            len == dents@.len(),
            i <= len,
            offset <= count,
            forall|k: int| 0 <= k < dents@.len() ==> (#[trigger] dents@[k]).name@.len() <= DIRENT_NAME_MAX,
        ensures
            writes@.map_values(|w: DirentWrite| dirent_write_view(w)) == service_dirent_writes(dents@, count as int, 0),
            offset == service_dirents_end(dents@, count as int, 0),
        decreases len - i,
    {
        let d = &dents[i];
        let n = name_length(d.name.as_slice());
        proof {
            lemma_reclen_fits(n as int);
        }
        let reclen: usize = (19 + n + 1 + 7) / 8 * 8;
        let ghost rest = dents@.skip(i as int);
        assert(rest[0] == dents@[i as int]);
        assert(rest.drop_first() =~= dents@.skip(i + 1));
        let ghost before = writes@.map_values(|w: DirentWrite| dirent_write_view(w));
        if count - offset < reclen {
            assert(service_dirent_writes(rest, count as int, offset as int) =~= Seq::<(int, Seq<u8>)>::empty());
            assert(before + Seq::<(int, Seq<u8>)>::empty() =~= before);
            break;
        }
        let end = offset + reclen;
        let bytes = service_dirent_bytes(d, n, end);
        writes.push(DirentWrite { offset, bytes });
        assert(writes@.map_values(|w: DirentWrite| dirent_write_view(w))
            =~= before.push((offset as int, service_dirent_body(*d, end as int))));
        assert(before + service_dirent_writes(rest, count as int, offset as int)
            =~= writes@.map_values(|w: DirentWrite| dirent_write_view(w))
                + service_dirent_writes(dents@.skip(i + 1), count as int, end as int));
        offset = end;
        i = i + 1;
    }
    if i == len {
        assert(dents@.skip(i as int) =~= Seq::<DirEntry>::empty());
        assert(writes@.map_values(|w: DirentWrite| dirent_write_view(w)) + Seq::<(int, Seq<u8>)>::empty()
            =~= writes@.map_values(|w: DirentWrite| dirent_write_view(w)));
    }
    (writes, offset)
}

/// What the file server reports about a file, as the service stores it.
#[derive(Debug, Clone, Copy)]
pub struct ServiceStat {
    pub dev: u64,
    pub ino: u64,
    pub mode: u32,
    pub nlink: u32,
    pub uid: u32,
    pub gid: u32,
    pub size: u64,
    pub blksize: i32,
    pub blocks: u64,
    pub atime_sec: i64,
    pub atime_nsec: i64,
    pub mtime_sec: i64,
    pub mtime_nsec: i64,
    pub ctime_sec: i64,
    pub ctime_nsec: i64,
}

/// The number of leading `struct stat` bytes the service writes.
pub const SERVICE_STAT_SPAN: usize = 120;

/// The first `SERVICE_STAT_SPAN` bytes of a `struct stat` after the service
/// fills in `st` over `old`: device, inode, mode, link count, uid, gid, a
/// zero special device and padding word, size, block size, then (after four
/// bytes it leaves as they were) blocks and the three times, each as seconds
/// and nanoseconds.
pub open spec fn service_stat_fill(old: Seq<u8>, st: ServiceStat) -> Seq<u8> {
    spec_u64_to_le_bytes(st.dev) + spec_u64_to_le_bytes(st.ino) + spec_u32_to_le_bytes(st.mode)
        + spec_u32_to_le_bytes(st.nlink) + spec_u32_to_le_bytes(st.uid) + spec_u32_to_le_bytes(st.gid)
        + spec_u64_to_le_bytes(0) + spec_u64_to_le_bytes(0) + spec_u64_to_le_bytes(st.size)
        + spec_u32_to_le_bytes(st.blksize as u32) + old.subrange(60, 64) + spec_u64_to_le_bytes(st.blocks)
        + spec_u64_to_le_bytes(st.atime_sec as u64) + spec_u64_to_le_bytes(st.atime_nsec as u64)
        + spec_u64_to_le_bytes(st.mtime_sec as u64) + spec_u64_to_le_bytes(st.mtime_nsec as u64)
        + spec_u64_to_le_bytes(st.ctime_sec as u64) + spec_u64_to_le_bytes(st.ctime_nsec as u64)
}

/// `fstat` and `newfstatat` of the service: the new contents of the first
/// `SERVICE_STAT_SPAN` bytes of the caller's `struct stat`, given what they held.
pub fn service_stat_bytes(old: &[u8], st: &ServiceStat) -> (r: Vec<u8>)
    requires
        old@.len() == SERVICE_STAT_SPAN,
    ensures
        r@ == service_stat_fill(old@, *st),
        r@.len() == SERVICE_STAT_SPAN,
{
    proof {
        vstd::bytes::lemma_auto_spec_u64_to_from_le_bytes();
        vstd::bytes::lemma_auto_spec_u32_to_from_le_bytes();
    }
    let mut out: Vec<u8> = Vec::new();
    push_u64(&mut out, st.dev);
    push_u64(&mut out, st.ino);
    push_u32(&mut out, st.mode);
    push_u32(&mut out, st.nlink);
    push_u32(&mut out, st.uid);
    push_u32(&mut out, st.gid);
    push_u64(&mut out, 0);
    push_u64(&mut out, 0);
    push_u64(&mut out, st.size);
    push_u32(&mut out, st.blksize as u32);
    push_bytes(&mut out, slice_subrange(old, 60, 64));
    push_u64(&mut out, st.blocks);
    push_u64(&mut out, st.atime_sec as u64);
    push_u64(&mut out, st.atime_nsec as u64);
    push_u64(&mut out, st.mtime_sec as u64);
    push_u64(&mut out, st.mtime_nsec as u64);
    push_u64(&mut out, st.ctime_sec as u64);
    push_u64(&mut out, st.ctime_nsec as u64);
    assert(out@ =~= service_stat_fill(old@, *st));
    out
}

/// `write` of the service to standard output or standard error: the text to
/// print, when `fd` is one of them and `data` is valid UTF-8. Any other
/// write goes to the file behind `fd`.
pub fn service_console_text(fd: usize, data: &[u8]) -> (r: Option<String>)
    ensures
        r is Some <==> ((fd == 1 || fd == 2) && valid_utf8(data@)),
        r is Some ==> r->0@ == decode_utf8(data@),
{
    if fd == 1 || fd == 2 {
        let mut bytes: Vec<u8> = Vec::new();
        push_bytes(&mut bytes, data);
        assert(bytes@ =~= data@);
        string_from_utf8(bytes)
    } else {
        None
    }
}

/// What `brk` of the service does once it knows the current break.
#[derive(Debug, Clone, Copy, PartialEq, Eq, Structural)]
pub enum BrkStep {
    /// Answer the current break.
    Report,
    /// Grow the heap by this many bytes and answer the new break.
    Grow(usize),
}

/// `brk` of the service: a request at or below the current break (a query
/// among them) answers the current break; one above it grows the heap by
/// the difference.
pub fn service_brk_step(requested: usize, current: usize) -> (r: BrkStep)
    ensures
        requested > current ==> r == BrkStep::Grow((requested - current) as usize),
        requested <= current ==> r == BrkStep::Report,
{
    if requested > current {
        BrkStep::Grow(requested - current)
    } else {
        BrkStep::Report
    }
}

} // verus!
