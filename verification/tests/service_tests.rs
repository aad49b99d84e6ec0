use ape::misc::FileHandle;
use ape::records::DirEntry;
use ape::service::{
    service_brk_step, service_console_text, service_dirents, service_next_fd, service_stat_bytes, BrkStep,
    ServiceStat, SERVICE_STAT_SPAN,
};
use std::collections::BTreeMap;

fn handle(cap_idx: usize) -> FileHandle {
    FileHandle { cap_idx, offset: 0 }
}

fn entry(ino: u64, kind: u8, name: &[u8]) -> DirEntry {
    let mut field = name.to_vec();
    field.resize(256, 0);
    DirEntry { ino, off: 999, kind, name: field }
}

#[test]
fn service_first_fd_is_three() {
    let fds: BTreeMap<usize, FileHandle> = BTreeMap::new();
    assert_eq!(service_next_fd(&fds), 3);
}

#[test]
fn service_next_fd_follows_highest() {
    let mut fds = BTreeMap::new();
    fds.insert(3, handle(10));
    fds.insert(9, handle(11));
    fds.insert(5, handle(12));
    assert_eq!(service_next_fd(&fds), 10);
    let mut low = BTreeMap::new();
    low.insert(0, handle(1));
    assert_eq!(service_next_fd(&low), 1);
}

#[test]
fn service_dirents_offsets_are_record_ends() {
    let dents = vec![entry(7, 4, b"."), entry(8, 8, b"file.txt")];
    let (writes, filled) = service_dirents(&dents, 4096);
    // "." -> 19 + 1 + 1 = 21, rounded to 24; "file.txt" -> 19 + 8 + 1 = 28, rounded to 32.
    assert_eq!(filled, 56);
    assert_eq!(writes.len(), 2);
    let a = &writes[0];
    assert_eq!(a.offset, 0);
    assert_eq!(a.bytes.len(), 21);
    assert_eq!(&a.bytes[0..8], &7u64.to_le_bytes());
    assert_eq!(&a.bytes[8..16], &24u64.to_le_bytes());
    assert_eq!(&a.bytes[16..18], &24u16.to_le_bytes());
    assert_eq!(a.bytes[18], 4);
    assert_eq!(&a.bytes[19..21], b".\0");
    let b = &writes[1];
    assert_eq!(b.offset, 24);
    assert_eq!(b.bytes.len(), 28);
    assert_eq!(&b.bytes[0..8], &8u64.to_le_bytes());
    assert_eq!(&b.bytes[8..16], &56u64.to_le_bytes());
    assert_eq!(&b.bytes[16..18], &32u16.to_le_bytes());
    assert_eq!(b.bytes[18], 8);
    assert_eq!(&b.bytes[19..28], b"file.txt\0");
}

#[test]
fn service_dirents_leave_padding_unwritten() {
    let dents = vec![entry(1, 4, b"a"), entry(2, 8, b"bc")];
    let mut buf = vec![0xAAu8; 64];
    let (writes, filled) = service_dirents(&dents, buf.len());
    for w in &writes {
        buf[w.offset..w.offset + w.bytes.len()].copy_from_slice(&w.bytes);
    }
    assert_eq!(filled, 48);
    assert_eq!(&buf[21..24], &[0xAA, 0xAA, 0xAA]);
    assert_eq!(&buf[46..48], &[0xAA, 0xAA]);
    assert_eq!(&buf[43..46], b"bc\0");
}

#[test]
fn service_dirents_stop_before_a_record_that_does_not_fit() {
    let dents = vec![entry(1, 4, b"a"), entry(2, 8, b"b"), entry(3, 8, b"c")];
    assert_eq!(service_dirents(&dents, 47).1, 24);
    assert_eq!(service_dirents(&dents, 47).0.len(), 1);
    assert_eq!(service_dirents(&dents, 48).1, 48);
    assert_eq!(service_dirents(&dents, 23).1, 0);
    assert!(service_dirents(&dents, 23).0.is_empty());
    assert_eq!(service_dirents(&[], 100).1, 0);
}

#[test]
fn service_stat_layout_keeps_the_unwritten_word() {
    let old: Vec<u8> = (0..SERVICE_STAT_SPAN).map(|i| i as u8).collect();
    let st = ServiceStat {
        dev: 1,
        ino: 2,
        mode: 0o40755,
        nlink: 3,
        uid: 4,
        gid: 5,
        size: 4096,
        blksize: -1,
        blocks: 8,
        atime_sec: 10,
        atime_nsec: 11,
        mtime_sec: 12,
        mtime_nsec: 13,
        ctime_sec: -14,
        ctime_nsec: 15,
    };
    let out = service_stat_bytes(&old, &st);
    assert_eq!(out.len(), 120);
    assert_eq!(&out[0..8], &1u64.to_le_bytes());
    assert_eq!(&out[8..16], &2u64.to_le_bytes());
    assert_eq!(&out[16..20], &0o40755u32.to_le_bytes());
    assert_eq!(&out[20..24], &3u32.to_le_bytes());
    assert_eq!(&out[24..28], &4u32.to_le_bytes());
    assert_eq!(&out[28..32], &5u32.to_le_bytes());
    assert_eq!(&out[32..48], &[0u8; 16]);
    assert_eq!(&out[48..56], &4096u64.to_le_bytes());
    assert_eq!(&out[56..60], &(-1i32).to_le_bytes());
    assert_eq!(&out[60..64], &[60, 61, 62, 63]);
    assert_eq!(&out[64..72], &8u64.to_le_bytes());
    assert_eq!(&out[72..80], &10i64.to_le_bytes());
    assert_eq!(&out[80..88], &11i64.to_le_bytes());
    assert_eq!(&out[104..112], &(-14i64).to_le_bytes());
    assert_eq!(&out[112..120], &15i64.to_le_bytes());
}

#[test]
fn service_console_takes_utf8_on_stdout_and_stderr() {
    assert_eq!(service_console_text(1, b"hello\n"), Some("hello\n".to_string()));
    assert_eq!(service_console_text(2, "\u{e9}t\u{e9}".as_bytes()), Some("\u{e9}t\u{e9}".to_string()));
    assert_eq!(service_console_text(1, &[0xff, 0xfe]), None);
    assert_eq!(service_console_text(3, b"hello"), None);
    assert_eq!(service_console_text(0, b"hello"), None);
}

#[test]
fn service_brk_grows_only_upward() {
    assert_eq!(service_brk_step(0, 0x4000), BrkStep::Report);
    assert_eq!(service_brk_step(0x3000, 0x4000), BrkStep::Report);
    assert_eq!(service_brk_step(0x4000, 0x4000), BrkStep::Report);
    assert_eq!(service_brk_step(0x6000, 0x4000), BrkStep::Grow(0x2000));
}

#[test]
fn file_handle_advance_moves_offset() {
    let mut h = handle(7);
    h.advance(100);
    h.advance(28);
    assert_eq!(h.offset, 128);
    assert_eq!(h.cap_idx, 7);
}
