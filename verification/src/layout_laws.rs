//! Where each field of the records handed to callers lies: the value read
//! back from its riscv64 offset is the field.
use vstd::prelude::*;
use vstd::bytes::{spec_u16_from_le_bytes, spec_u32_from_le_bytes, spec_u64_from_le_bytes};
use crate::records::{
    dirent_record, dirent_stream, getdents_bytes, linux_stat_record, name_len, sigaction_record, utsname_record, DirEntry, FileStat,
};
use crate::state::SignalAction;
use crate::records::dirent_reclen;
use crate::service::{service_dirent_body, service_dirent_writes, service_dirents_end, service_stat_fill, ServiceStat};

verus! {

/// The service's `struct stat` (its first 120 bytes): device at 0, inode at
/// 8, mode at 16, link count at 20, uid at 24, gid at 28, a zero special
/// device at 32 and padding word at 40, size at 48, block size at 56, bytes
/// 60 to 64 as they were, blocks at 64, then access, modification and
/// change time at 72, 88 and 104, each followed by its nanoseconds.
pub proof fn lemma_service_stat_offsets(old: Seq<u8>, st: ServiceStat)
    requires
        old.len() == 120,
    ensures
        service_stat_fill(old, st).len() == 120,
        spec_u64_from_le_bytes(service_stat_fill(old, st).subrange(0, 8)) == st.dev,
        spec_u64_from_le_bytes(service_stat_fill(old, st).subrange(8, 16)) == st.ino,
        spec_u32_from_le_bytes(service_stat_fill(old, st).subrange(16, 20)) == st.mode,
        spec_u32_from_le_bytes(service_stat_fill(old, st).subrange(20, 24)) == st.nlink,
        spec_u32_from_le_bytes(service_stat_fill(old, st).subrange(24, 28)) == st.uid,
        spec_u32_from_le_bytes(service_stat_fill(old, st).subrange(28, 32)) == st.gid,
        spec_u64_from_le_bytes(service_stat_fill(old, st).subrange(32, 40)) == 0,
        spec_u64_from_le_bytes(service_stat_fill(old, st).subrange(40, 48)) == 0,
        spec_u64_from_le_bytes(service_stat_fill(old, st).subrange(48, 56)) == st.size,
        spec_u32_from_le_bytes(service_stat_fill(old, st).subrange(56, 60)) == st.blksize as u32,
        service_stat_fill(old, st).subrange(60, 64) == old.subrange(60, 64),
        spec_u64_from_le_bytes(service_stat_fill(old, st).subrange(64, 72)) == st.blocks,
        spec_u64_from_le_bytes(service_stat_fill(old, st).subrange(72, 80)) == st.atime_sec as u64,
        spec_u64_from_le_bytes(service_stat_fill(old, st).subrange(80, 88)) == st.atime_nsec as u64,
        spec_u64_from_le_bytes(service_stat_fill(old, st).subrange(88, 96)) == st.mtime_sec as u64,
        spec_u64_from_le_bytes(service_stat_fill(old, st).subrange(96, 104)) == st.mtime_nsec as u64,
        spec_u64_from_le_bytes(service_stat_fill(old, st).subrange(104, 112)) == st.ctime_sec as u64,
        spec_u64_from_le_bytes(service_stat_fill(old, st).subrange(112, 120)) == st.ctime_nsec as u64,
{
    vstd::bytes::lemma_auto_spec_u64_to_from_le_bytes();
    vstd::bytes::lemma_auto_spec_u32_to_from_le_bytes();
    let r = service_stat_fill(old, st);
    assert(r.subrange(0, 8) =~= vstd::bytes::spec_u64_to_le_bytes(st.dev));
    assert(r.subrange(8, 16) =~= vstd::bytes::spec_u64_to_le_bytes(st.ino));
    assert(r.subrange(16, 20) =~= vstd::bytes::spec_u32_to_le_bytes(st.mode));
    assert(r.subrange(20, 24) =~= vstd::bytes::spec_u32_to_le_bytes(st.nlink));
    assert(r.subrange(24, 28) =~= vstd::bytes::spec_u32_to_le_bytes(st.uid));
    assert(r.subrange(28, 32) =~= vstd::bytes::spec_u32_to_le_bytes(st.gid));
    assert(r.subrange(32, 40) =~= vstd::bytes::spec_u64_to_le_bytes(0));
    assert(r.subrange(40, 48) =~= vstd::bytes::spec_u64_to_le_bytes(0));
    assert(r.subrange(48, 56) =~= vstd::bytes::spec_u64_to_le_bytes(st.size));
    assert(r.subrange(56, 60) =~= vstd::bytes::spec_u32_to_le_bytes(st.blksize as u32));
    assert(r.subrange(60, 64) =~= old.subrange(60, 64));
    assert(r.subrange(64, 72) =~= vstd::bytes::spec_u64_to_le_bytes(st.blocks));
    assert(r.subrange(72, 80) =~= vstd::bytes::spec_u64_to_le_bytes(st.atime_sec as u64));
    assert(r.subrange(80, 88) =~= vstd::bytes::spec_u64_to_le_bytes(st.atime_nsec as u64));
    assert(r.subrange(88, 96) =~= vstd::bytes::spec_u64_to_le_bytes(st.mtime_sec as u64));
    assert(r.subrange(96, 104) =~= vstd::bytes::spec_u64_to_le_bytes(st.mtime_nsec as u64));
    assert(r.subrange(104, 112) =~= vstd::bytes::spec_u64_to_le_bytes(st.ctime_sec as u64));
    assert(r.subrange(112, 120) =~= vstd::bytes::spec_u64_to_le_bytes(st.ctime_nsec as u64));
}

/// The `struct stat` that `fstat` and `newfstatat` store is 128 bytes:
/// device at 0, inode at 8, mode at 16, link count at 20, uid at 24, gid at
/// 28, special device at 32, size at 48, block size at 56, blocks at 64,
/// access, modification and change time at 72, 88 and 104; the padding
/// words, the nanosecond fields and the last 8 bytes are zero.
pub proof fn lemma_linux_stat_offsets(st: FileStat)
    ensures
        linux_stat_record(st).len() == 128,
        spec_u64_from_le_bytes(linux_stat_record(st).subrange(0, 8)) == st.dev,
        spec_u64_from_le_bytes(linux_stat_record(st).subrange(8, 16)) == st.ino,
        spec_u32_from_le_bytes(linux_stat_record(st).subrange(16, 20)) == st.mode,
        spec_u32_from_le_bytes(linux_stat_record(st).subrange(20, 24)) == st.nlink,
        spec_u32_from_le_bytes(linux_stat_record(st).subrange(24, 28)) == st.uid,
        spec_u32_from_le_bytes(linux_stat_record(st).subrange(28, 32)) == st.gid,
        spec_u64_from_le_bytes(linux_stat_record(st).subrange(32, 40)) == st.rdev,
        spec_u64_from_le_bytes(linux_stat_record(st).subrange(48, 56)) == st.size,
        spec_u32_from_le_bytes(linux_stat_record(st).subrange(56, 60)) == st.blksize,
        spec_u64_from_le_bytes(linux_stat_record(st).subrange(64, 72)) == st.blocks,
        spec_u64_from_le_bytes(linux_stat_record(st).subrange(72, 80)) == st.atime as u64,
        spec_u64_from_le_bytes(linux_stat_record(st).subrange(88, 96)) == st.mtime as u64,
        spec_u64_from_le_bytes(linux_stat_record(st).subrange(104, 112)) == st.ctime as u64,
        forall|k: int|
            (40 <= k < 48 || 60 <= k < 64 || 80 <= k < 88 || 96 <= k < 104 || 112 <= k < 128)
                ==> #[trigger] linux_stat_record(st)[k] == 0,
{
    vstd::bytes::lemma_auto_spec_u64_to_from_le_bytes();
    vstd::bytes::lemma_auto_spec_u32_to_from_le_bytes();
    let r = linux_stat_record(st);
    assert(r.subrange(0, 8) =~= vstd::bytes::spec_u64_to_le_bytes(st.dev));
    assert(r.subrange(8, 16) =~= vstd::bytes::spec_u64_to_le_bytes(st.ino));
    assert(r.subrange(16, 20) =~= vstd::bytes::spec_u32_to_le_bytes(st.mode));
    assert(r.subrange(20, 24) =~= vstd::bytes::spec_u32_to_le_bytes(st.nlink));
    assert(r.subrange(24, 28) =~= vstd::bytes::spec_u32_to_le_bytes(st.uid));
    assert(r.subrange(28, 32) =~= vstd::bytes::spec_u32_to_le_bytes(st.gid));
    assert(r.subrange(32, 40) =~= vstd::bytes::spec_u64_to_le_bytes(st.rdev));
    assert(r.subrange(48, 56) =~= vstd::bytes::spec_u64_to_le_bytes(st.size));
    assert(r.subrange(56, 60) =~= vstd::bytes::spec_u32_to_le_bytes(st.blksize));
    assert(r.subrange(64, 72) =~= vstd::bytes::spec_u64_to_le_bytes(st.blocks));
    assert(r.subrange(72, 80) =~= vstd::bytes::spec_u64_to_le_bytes(st.atime as u64));
    assert(r.subrange(88, 96) =~= vstd::bytes::spec_u64_to_le_bytes(st.mtime as u64));
    assert(r.subrange(104, 112) =~= vstd::bytes::spec_u64_to_le_bytes(st.ctime as u64));
}

/// The `struct sigaction` record is 32 bytes: handler at 0, flags at 8,
/// restorer at 16 and mask at 24.
pub proof fn lemma_sigaction_offsets(a: SignalAction)
    ensures
        sigaction_record(a).len() == 32,
        spec_u64_from_le_bytes(sigaction_record(a).subrange(0, 8)) == a.handler as u64,
        spec_u64_from_le_bytes(sigaction_record(a).subrange(8, 16)) == a.flags as u64,
        spec_u64_from_le_bytes(sigaction_record(a).subrange(16, 24)) == a.restorer as u64,
        spec_u64_from_le_bytes(sigaction_record(a).subrange(24, 32)) == a.mask,
{
    vstd::bytes::lemma_auto_spec_u64_to_from_le_bytes();
    let r = sigaction_record(a);
    assert(r.subrange(0, 8) =~= vstd::bytes::spec_u64_to_le_bytes(a.handler as u64));
    assert(r.subrange(8, 16) =~= vstd::bytes::spec_u64_to_le_bytes(a.flags as u64));
    assert(r.subrange(16, 24) =~= vstd::bytes::spec_u64_to_le_bytes(a.restorer as u64));
    assert(r.subrange(24, 32) =~= vstd::bytes::spec_u64_to_le_bytes(a.mask));
}

/// The name length of a NUL-padded name field is the position of its first
/// NUL, or the whole field when it has none.
pub proof fn lemma_name_len_is_first_nul(name: Seq<u8>)
    ensures
        0 <= name_len(name) <= name.len(),
        forall|j: int| 0 <= j < name_len(name) ==> name[j] != 0,
        name_len(name) < name.len() ==> name[name_len(name)] == 0,
{
    if exists|i: int| 0 <= i < name.len() && name[i] == 0 {
        let i = choose|i: int| 0 <= i < name.len() && name[i] == 0;
        lemma_first_nul_exists(name, i);
    }
}

proof fn lemma_first_nul_exists(name: Seq<u8>, i: int)
    requires
        0 <= i < name.len(),
        name[i] == 0,
    ensures
        exists|m: int| 0 <= m < name.len() && name[m] == 0 && (forall|j: int| 0 <= j < m ==> name[j] != 0),
    decreases i,
{
    if exists|j: int| 0 <= j < i && name[j] == 0 {
        let j = choose|j: int| 0 <= j < i && name[j] == 0;
        lemma_first_nul_exists(name, j);
    } else {
        assert(0 <= i < name.len() && name[i] == 0 && (forall|j: int| 0 <= j < i ==> name[j] != 0));
    }
}

/// A `linux_dirent64` record: inode at 0, offset at 8, its own length at 16,
/// type at 18, then the name up to its first NUL and one NUL, then zeros;
/// its length is the multiple of 8 that leaves room for all that with less
/// than 8 bytes to spare.
pub proof fn lemma_dirent_record_layout(d: DirEntry)
    requires
        d.name@.len() <= 256,
    ensures
        ({
            let r = dirent_record(d);
            let n = name_len(d.name@);
            &&& r.len() % 8 == 0
            &&& 20 + n <= r.len() < 28 + n
            &&& spec_u64_from_le_bytes(r.subrange(0, 8)) == d.ino
            &&& spec_u64_from_le_bytes(r.subrange(8, 16)) == d.off as u64
            &&& spec_u16_from_le_bytes(r.subrange(16, 18)) == r.len()
            &&& r[18] == d.kind
            &&& r.subrange(19, 19 + n) == d.name@.take(n)
            &&& forall|k: int| 19 + n <= k < r.len() ==> #[trigger] r[k] == 0
        }),
{
    vstd::bytes::lemma_auto_spec_u64_to_from_le_bytes();
    vstd::bytes::lemma_auto_spec_u16_to_from_le_bytes();
    let r = dirent_record(d);
    let n = name_len(d.name@);
    lemma_name_len_is_first_nul(d.name@);
    crate::records::lemma_reclen_fits(n);
    let body = vstd::bytes::spec_u64_to_le_bytes(d.ino) + vstd::bytes::spec_u64_to_le_bytes(d.off as u64)
        + vstd::bytes::spec_u16_to_le_bytes(crate::records::dirent_reclen(n) as u16) + seq![d.kind]
        + d.name@.take(n) + seq![0u8];
    assert(body.len() == 20 + n);
    assert(r == body + crate::records::zeros((crate::records::dirent_reclen(n) - body.len()) as nat));
    assert(r.subrange(0, 8) =~= vstd::bytes::spec_u64_to_le_bytes(d.ino));
    assert(r.subrange(8, 16) =~= vstd::bytes::spec_u64_to_le_bytes(d.off as u64));
    assert(r.subrange(16, 18) =~= vstd::bytes::spec_u16_to_le_bytes(crate::records::dirent_reclen(n) as u16));
    assert(r.subrange(19, 19 + n) =~= d.name@.take(n));
}

/// A `struct utsname` field of 65 bytes starting at `start` holds `value`:
/// its first 64 bytes at most, then zeros to the end of the field.
pub open spec fn uts_field_holds(r: Seq<u8>, start: int, value: Seq<u8>) -> bool {
    let k = if value.len() < 64 { value.len() as int } else { 64 };
    &&& r.subrange(start, start + k) == value.take(k)
    &&& forall|j: int| start + k <= j < start + 65 ==> #[trigger] r[j] == 0
}

/// The `struct utsname` is 390 bytes: system name, node name, release,
/// version, machine and domain name, each in a 65-byte field, in that order.
pub proof fn lemma_utsname_layout(
    sysname: Seq<u8>,
    nodename: Seq<u8>,
    release: Seq<u8>,
    version: Seq<u8>,
    machine: Seq<u8>,
    domainname: Seq<u8>,
)
    ensures
        ({
            let r = utsname_record(sysname, nodename, release, version, machine, domainname);
            &&& r.len() == 390
            &&& uts_field_holds(r, 0, sysname)
            &&& uts_field_holds(r, 65, nodename)
            &&& uts_field_holds(r, 130, release)
            &&& uts_field_holds(r, 195, version)
            &&& uts_field_holds(r, 260, machine)
            &&& uts_field_holds(r, 325, domainname)
        }),
{
    let r = utsname_record(sysname, nodename, release, version, machine, domainname);
    let f0 = crate::records::uts_field(sysname);
    let f1 = crate::records::uts_field(nodename);
    let f2 = crate::records::uts_field(release);
    let f3 = crate::records::uts_field(version);
    let f4 = crate::records::uts_field(machine);
    let f5 = crate::records::uts_field(domainname);
    assert(f0.len() == 65 && f1.len() == 65 && f2.len() == 65);
    assert(f3.len() == 65 && f4.len() == 65 && f5.len() == 65);
    assert(r =~= f0 + f1 + f2 + f3 + f4 + f5);
    assert(r.subrange(0, 65) =~= f0);
    assert(r.subrange(65, 130) =~= f1);
    assert(r.subrange(130, 195) =~= f2);
    assert(r.subrange(195, 260) =~= f3);
    assert(r.subrange(260, 325) =~= f4);
    assert(r.subrange(325, 390) =~= f5);
    lemma_field_in(r, 0, f0, sysname);
    lemma_field_in(r, 65, f1, nodename);
    lemma_field_in(r, 130, f2, release);
    lemma_field_in(r, 195, f3, version);
    lemma_field_in(r, 260, f4, machine);
    lemma_field_in(r, 325, f5, domainname);
}

proof fn lemma_field_in(r: Seq<u8>, start: int, f: Seq<u8>, value: Seq<u8>)
    requires
        f == crate::records::uts_field(value),
        0 <= start,
        start + 65 <= r.len(),
        r.subrange(start, start + 65) == f,
    ensures
        uts_field_holds(r, start, value),
{
    let k = if value.len() < 64 { value.len() as int } else { 64 };
    assert(f.len() == 65);
    assert forall|j: int| start <= j < start + 65 implies #[trigger] r[j] == f[j - start] by {
        assert(r.subrange(start, start + 65)[j - start] == r[j]);
    }
    assert(r.subrange(start, start + k) =~= value.take(k));
}

/// What the service writes for one directory entry whose record ends at
/// byte `end`: inode at 0, `end` at 8, the record length at 16 (the
/// multiple of 8 that leaves room for header, name and NUL with less than 8
/// bytes to spare), type at 18, the name up to its first NUL at 19, then one
/// NUL; nothing after that.
pub proof fn lemma_service_dirent_body_layout(d: DirEntry, end: int)
    requires
        d.name@.len() <= 256,
        0 <= end <= u64::MAX,
    ensures
        ({
            let b = service_dirent_body(d, end);
            let n = name_len(d.name@);
            &&& b.len() == 20 + n
            &&& spec_u64_from_le_bytes(b.subrange(0, 8)) == d.ino
            &&& spec_u64_from_le_bytes(b.subrange(8, 16)) == end
            &&& spec_u16_from_le_bytes(b.subrange(16, 18)) % 8 == 0
            &&& 20 + n <= spec_u16_from_le_bytes(b.subrange(16, 18)) < 28 + n
            &&& b[18] == d.kind
            &&& b.subrange(19, 19 + n) == d.name@.take(n)
            &&& b[19 + n] == 0
        }),
{
    vstd::bytes::lemma_auto_spec_u64_to_from_le_bytes();
    vstd::bytes::lemma_auto_spec_u16_to_from_le_bytes();
    let b = service_dirent_body(d, end);
    let n = name_len(d.name@);
    lemma_name_len_is_first_nul(d.name@);
    crate::records::lemma_reclen_fits(n);
    assert(b.subrange(0, 8) =~= vstd::bytes::spec_u64_to_le_bytes(d.ino));
    assert(b.subrange(8, 16) =~= vstd::bytes::spec_u64_to_le_bytes(end as u64));
    assert(b.subrange(16, 18) =~= vstd::bytes::spec_u16_to_le_bytes(dirent_reclen(n) as u16));
    assert(b.subrange(19, 19 + n) =~= d.name@.take(n));
}

/// The records the service lists from byte `offset` on follow each other:
/// the first starts at `offset`, each starts where the one before ends (the
/// end it records in its offset field), the last ends where the listing
/// ends, within `count`; the listing stops only at an entry whose record
/// would pass `count`.
pub proof fn lemma_service_dirents_chain(ds: Seq<DirEntry>, count: int, offset: int)
    requires
        forall|i: int| 0 <= i < ds.len() ==> (#[trigger] ds[i]).name@.len() <= 256,
        0 <= offset <= count <= u64::MAX,
    ensures
        ({
            let w = service_dirent_writes(ds, count, offset);
            let end = service_dirents_end(ds, count, offset);
            &&& w.len() <= ds.len()
            &&& offset <= end <= count
            &&& w.len() == 0 ==> end == offset
            &&& w.len() > 0 ==> w[0].0 == offset
            &&& forall|i: int| 0 <= i < w.len() ==> {
                &&& #[trigger] w[i].1 == service_dirent_body(ds[i], spec_u64_from_le_bytes(w[i].1.subrange(8, 16)) as int)
                &&& spec_u64_from_le_bytes(w[i].1.subrange(8, 16)) == w[i].0 + dirent_reclen(name_len(ds[i].name@))
                &&& spec_u64_from_le_bytes(w[i].1.subrange(8, 16)) == (if i + 1 < w.len() { w[i + 1].0 } else { end })
            }
            &&& w.len() < ds.len() ==> end + dirent_reclen(name_len(ds[w.len() as int].name@)) > count
        }),
    decreases ds.len(),
{
    vstd::bytes::lemma_auto_spec_u64_to_from_le_bytes();
    if ds.len() > 0 {
        let end1 = offset + dirent_reclen(name_len(ds[0].name@));
        lemma_name_len_is_first_nul(ds[0].name@);
        crate::records::lemma_reclen_fits(name_len(ds[0].name@));
        if end1 <= count {
            let rest = ds.drop_first();
            assert forall|i: int| 0 <= i < rest.len() implies (#[trigger] rest[i]).name@.len() <= 256 by {
                assert(rest[i] == ds[i + 1]);
            }
            lemma_service_dirents_chain(rest, count, end1);
            lemma_service_dirent_body_layout(ds[0], end1);
            let w = service_dirent_writes(ds, count, offset);
            let w1 = service_dirent_writes(rest, count, end1);
            let end = service_dirents_end(ds, count, offset);
            assert(w == seq![(offset, service_dirent_body(ds[0], end1))] + w1);
            assert forall|i: int| 0 <= i < w.len() implies {
                &&& #[trigger] w[i].1 == service_dirent_body(ds[i], spec_u64_from_le_bytes(w[i].1.subrange(8, 16)) as int)
                &&& spec_u64_from_le_bytes(w[i].1.subrange(8, 16)) == w[i].0 + dirent_reclen(name_len(ds[i].name@))
                &&& spec_u64_from_le_bytes(w[i].1.subrange(8, 16)) == (if i + 1 < w.len() { w[i + 1].0 } else { end })
            } by {
                if i > 0 {
                    assert(w[i] == w1[i - 1]);
                    assert(ds[i] == rest[i - 1]);
                    if i + 1 < w.len() {
                        assert(w[i + 1] == w1[i]);
                    }
                } else {
                    if w1.len() > 0 {
                        assert(w[1] == w1[0]);
                    }
                }
            }
            if w.len() < ds.len() {
                assert(ds[w.len() as int] == rest[w1.len() as int]);
            }
        }
    }
}

/// The records of all of `ds`, one after another.
pub open spec fn dirent_records(ds: Seq<DirEntry>) -> Seq<u8>
    decreases ds.len(),
{
    if ds.len() == 0 {
        Seq::empty()
    } else {
        dirent_record(ds[0]) + dirent_records(ds.drop_first())
    }
}

proof fn lemma_stream_is_prefix(ds: Seq<DirEntry>, count: int, acc: Seq<u8>) -> (m: int)
    ensures
        acc.len() <= m <= (acc + dirent_records(ds)).len(),
        dirent_stream(ds, count, acc) == (acc + dirent_records(ds)).take(m),
        m == (acc + dirent_records(ds)).len() || m >= count,
    decreases ds.len(),
{
    if ds.len() == 0 {
        assert(acc + dirent_records(ds) =~= acc);
        assert(acc.take(acc.len() as int) =~= acc);
        acc.len() as int
    } else {
        let next = acc + dirent_record(ds[0]);
        assert(acc + dirent_records(ds) =~= next + dirent_records(ds.drop_first()));
        if next.len() >= count {
            assert((next + dirent_records(ds.drop_first())).take(next.len() as int) =~= next);
            next.len() as int
        } else {
            lemma_stream_is_prefix(ds.drop_first(), count, next)
        }
    }
}

/// What `getdents64` stores for the entries `ds` in a buffer of `count`
/// bytes is the records of the entries, one after another, cut at `count`
/// bytes.
pub proof fn lemma_getdents_bytes_is_cut_records(ds: Seq<DirEntry>, count: int)
    requires
        0 <= count,
    ensures
        getdents_bytes(ds, count) == dirent_records(ds).take(
            if count < dirent_records(ds).len() { count } else { dirent_records(ds).len() as int },
        ),
{
    let m = lemma_stream_is_prefix(ds, count, Seq::empty());
    let all = dirent_records(ds);
    assert(Seq::<u8>::empty() + all =~= all);
    let st = dirent_stream(ds, count, Seq::empty());
    if st.len() < count {
        assert(m == all.len());
    } else {
        assert(st.take(count) =~= all.take(count));
    }
}

} // verus!
