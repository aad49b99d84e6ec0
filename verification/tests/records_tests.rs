use ape::abi::{EFAULT, EINVAL, ENAMETOOLONG, ERANGE};
use ape::compat::{map_error_to_errno, Error};
use ape::misc::{local_getrandom, local_uname, readlink_precheck, readlink_reply, ape_ipc_endpoint};
use ape::records::{decode_sigaction, encode_dirents, encode_linux_stat, encode_sigaction, DirEntry, FileStat};
use ape::runtime::ApeRuntime;
use ape::signal::{apply_sigmask, sigaction_check, sigaction_install, sigaction_old_record, sigset_size_check};
use ape::state::{Endpoint, SignalAction};
use ape::user_mem::{check_user_buffer, encode_cstr, read_cstr};

fn neg(code: u32) -> isize {
    -(code as isize)
}

fn name_field(name: &[u8]) -> Vec<u8> {
    let mut v = name.to_vec();
    v.resize(256, 0);
    v
}

#[test]
fn stat_record_layout() {
    let st = FileStat {
        dev: 1,
        ino: 0x0102030405060708,
        mode: 0o100644,
        nlink: 2,
        uid: 1000,
        gid: 100,
        rdev: 0,
        size: 4096,
        blksize: 512,
        blocks: 8,
        atime: 11,
        mtime: -1,
        ctime: 13,
    };
    let b = encode_linux_stat(&st);
    assert_eq!(b.len(), 128);
    assert_eq!(&b[0..8], &1u64.to_le_bytes());
    assert_eq!(&b[8..16], &0x0102030405060708u64.to_le_bytes());
    assert_eq!(&b[16..20], &0o100644u32.to_le_bytes());
    assert_eq!(&b[20..24], &2u32.to_le_bytes());
    assert_eq!(&b[24..28], &1000u32.to_le_bytes());
    assert_eq!(&b[28..32], &100u32.to_le_bytes());
    assert_eq!(&b[48..56], &4096u64.to_le_bytes());
    assert_eq!(&b[56..60], &512u32.to_le_bytes());
    assert_eq!(&b[64..72], &8u64.to_le_bytes());
    assert_eq!(&b[72..80], &11i64.to_le_bytes());
    assert_eq!(&b[80..88], &[0u8; 8]);
    assert_eq!(&b[88..96], &(-1i64).to_le_bytes());
    assert_eq!(&b[104..112], &13i64.to_le_bytes());
    assert_eq!(&b[112..128], &[0u8; 16]);
}

#[test]
fn dirent_records() {
    let ds = vec![
        DirEntry { ino: 7, off: 1, kind: 4, name: name_field(b"a") },
        DirEntry { ino: 8, off: 2, kind: 8, name: name_field(b"hello.txt") },
    ];
    let all = encode_dirents(&ds, 1000);
    assert_eq!(all.len(), 24 + 32);
    assert_eq!(&all[0..8], &7u64.to_le_bytes());
    assert_eq!(&all[8..16], &1i64.to_le_bytes());
    assert_eq!(&all[16..18], &24u16.to_le_bytes());
    assert_eq!(all[18], 4);
    assert_eq!(&all[19..21], b"a\0");
    assert_eq!(&all[21..24], &[0, 0, 0]);
    assert_eq!(&all[24 + 16..24 + 18], &32u16.to_le_bytes());
    assert_eq!(&all[24 + 19..24 + 28], b"hello.txt");
    // a buffer too small for the first record gets what fits
    assert_eq!(encode_dirents(&ds, 10), all[0..10].to_vec());
    // the stream stops after the record that reaches the buffer size
    assert_eq!(encode_dirents(&ds, 24), all[0..24].to_vec());
    assert_eq!(encode_dirents(&ds, 30), all[0..30].to_vec());
    assert!(encode_dirents(&[], 30).is_empty());
}

#[test]
fn dirent_name_without_nul() {
    let ds = vec![DirEntry { ino: 1, off: 0, kind: 0, name: vec![b'x'; 5] }];
    let all = encode_dirents(&ds, 100);
    assert_eq!(all.len(), 32);
    assert_eq!(&all[19..25], b"xxxxx\0");
}

#[test]
fn utsname_fields() {
    let b = local_uname(0x100, "#1 SMP", "riscv64").unwrap();
    assert_eq!(b.len(), 390);
    assert_eq!(&b[0..13], b"Linux-glenda\0");
    assert_eq!(&b[65..72], b"glenda\0");
    assert_eq!(&b[130..144], b"5.19.0-glenda\0");
    assert_eq!(&b[195..202], b"#1 SMP\0");
    assert_eq!(&b[260..268], b"riscv64\0");
    assert_eq!(&b[325..332], b"(none)\0");
    let long = "x".repeat(100);
    let b = local_uname(0x100, &long, "m").unwrap();
    assert_eq!(&b[195..259], long[..64].as_bytes());
    assert_eq!(b[259], 0);
    assert_eq!(local_uname(0, "v", "m").unwrap_err(), neg(EFAULT));
}

#[test]
fn sigaction_records_round_trip() {
    let a = SignalAction { handler: 0x401000, flags: 0x04000000, restorer: 0x402000, mask: 1 << 9 };
    let raw = encode_sigaction(&a);
    assert_eq!(raw.len(), 32);
    assert_eq!(&raw[0..8], &0x401000u64.to_le_bytes());
    let back = decode_sigaction(&raw);
    assert_eq!((back.handler, back.flags, back.restorer, back.mask), (a.handler, a.flags, a.restorer, a.mask));
}

#[test]
fn sigaction_install_then_read_back() {
    let mut rt = ApeRuntime::uninitialized();
    assert_eq!(sigaction_old_record(&rt, 10), vec![0u8; 32]);
    let raw: Vec<u8> = (0u8..32).collect();
    sigaction_install(&mut rt, 10, &raw);
    assert_eq!(sigaction_old_record(&rt, 10), raw);
    assert_eq!(sigaction_old_record(&rt, 11), vec![0u8; 32]);
}

#[test]
fn sigaction_refused_signals() {
    assert_eq!(sigaction_check(10, 8), Ok(()));
    assert_eq!(sigaction_check(10, 4), Err(neg(EINVAL)));
    assert_eq!(sigaction_check(0, 8), Err(neg(EINVAL)));
    assert_eq!(sigaction_check(65, 8), Err(neg(EINVAL)));
    assert_eq!(sigaction_check(64, 8), Ok(()));
    assert_eq!(sigaction_check(9, 8), Err(neg(EINVAL)));
    assert_eq!(sigaction_check(19, 8), Err(neg(EINVAL)));
    assert_eq!(sigset_size_check(8), Ok(()));
    assert_eq!(sigset_size_check(16), Err(neg(EINVAL)));
}

#[test]
fn sigprocmask_modes() {
    let mut rt = ApeRuntime::uninitialized();
    assert_eq!(apply_sigmask(&mut rt, 0, Some(0b1010)), 0);
    assert_eq!(rt.process.signal.blocked, 0b1010);
    assert_eq!(apply_sigmask(&mut rt, 0, Some(0b0101)), 0);
    assert_eq!(rt.process.signal.blocked, 0b1111);
    assert_eq!(apply_sigmask(&mut rt, 1, Some(0b0101)), 0);
    assert_eq!(rt.process.signal.blocked, 0b1010);
    assert_eq!(apply_sigmask(&mut rt, 2, Some(0b1)), 0);
    assert_eq!(rt.process.signal.blocked, 0b1);
    assert_eq!(apply_sigmask(&mut rt, 7, Some(0b110)), neg(EINVAL));
    assert_eq!(rt.process.signal.blocked, 0b1);
    assert_eq!(apply_sigmask(&mut rt, 7, None), 0);
}

#[test]
fn block_then_unblock_restores() {
    let mut rt = ApeRuntime::uninitialized();
    apply_sigmask(&mut rt, 2, Some(0b1001));
    apply_sigmask(&mut rt, 0, Some(0b0110));
    apply_sigmask(&mut rt, 1, Some(0b0110));
    assert_eq!(rt.process.signal.blocked, 0b1001);
}

#[test]
fn c_strings_from_caller_memory() {
    assert_eq!(read_cstr(0x100, 16, b"abc\0zzz").unwrap(), "abc");
    assert_eq!(read_cstr(0x100, 16, b"\0").unwrap(), "");
    assert_eq!(read_cstr(0x100, 3, b"abc").unwrap_err(), neg(ENAMETOOLONG));
    assert_eq!(read_cstr(0x100, 3, b"abc\0").unwrap_err(), neg(ENAMETOOLONG));
    assert_eq!(read_cstr(0x100, 4, b"abc\0").unwrap(), "abc");
    assert_eq!(read_cstr(0x100, 8, b"a\xffb\0").unwrap_err(), neg(EINVAL));
    assert_eq!(read_cstr(0x100, 8, "é\0".as_bytes()).unwrap(), "é");
    assert_eq!(read_cstr(0, 8, b"a\0").unwrap_err(), neg(EFAULT));
    assert_eq!(read_cstr(0x100, 0, b"").unwrap_err(), neg(EINVAL));
}

#[test]
fn c_strings_to_caller_memory() {
    assert_eq!(encode_cstr("ab", 2).unwrap_err(), neg(ERANGE));
    assert_eq!(encode_cstr("ab", 3).unwrap(), b"ab\0".to_vec());
    assert_eq!(encode_cstr("", 1).unwrap(), b"\0".to_vec());
    assert_eq!(encode_cstr("é", 2).unwrap_err(), neg(ERANGE));
}

#[test]
fn user_buffer_checks() {
    assert_eq!(check_user_buffer(0, 0), Ok(()));
    assert_eq!(check_user_buffer(0, 1), Err(neg(EFAULT)));
    assert_eq!(check_user_buffer(0x10, 1), Ok(()));
    assert_eq!(local_getrandom(0, 4), neg(EFAULT));
    assert_eq!(local_getrandom(0, 0), 0);
    assert_eq!(local_getrandom(0x10, 4), 4);
}

#[test]
fn readlink_buffers() {
    assert_eq!(readlink_precheck(0, 0), Some(0));
    assert_eq!(readlink_precheck(0, 4), Some(neg(EFAULT)));
    assert_eq!(readlink_precheck(0x10, 4), None);
    assert_eq!(readlink_reply("/target", 4), b"/tar".to_vec());
    assert_eq!(readlink_reply("/t", 4), b"/t".to_vec());
}

#[test]
fn ape_requests_need_the_endpoint() {
    let mut rt = ApeRuntime::uninitialized();
    assert_eq!(ape_ipc_endpoint(&rt).unwrap_err(), neg(ape::abi::ENOSYS));
    rt.set_ape_endpoint(Endpoint { cap: 11 });
    assert_eq!(ape_ipc_endpoint(&rt).unwrap().cap, 11);
}

#[test]
fn service_errors_to_errno() {
    assert_eq!(map_error_to_errno(Error::NotFound), -2);
    assert_eq!(map_error_to_errno(Error::OutOfMemory), -12);
    assert_eq!(map_error_to_errno(Error::CNodeFull), -12);
    assert_eq!(map_error_to_errno(Error::InvalidType), -25);
    assert_eq!(map_error_to_errno(Error::InvalidAddress), -14);
    assert_eq!(map_error_to_errno(Error::MessageTooLong), -36);
    assert_eq!(map_error_to_errno(Error::InvalidSlot), -9);
    assert_eq!(map_error_to_errno(Error::SlotNotEmpty), -17);
    assert_eq!(map_error_to_errno(Error::ResourceBusy), -16);
    assert_eq!(map_error_to_errno(Error::WouldBlock), -11);
    assert_eq!(map_error_to_errno(Error::Interrupted), -4);
    assert_eq!(map_error_to_errno(Error::Timeout), -110);
    assert_eq!(map_error_to_errno(Error::PermissionDenied), -1);
    assert_eq!(map_error_to_errno(Error::NotImplemented), -38);
    assert_eq!(map_error_to_errno(Error::DeviceError), -5);
    assert_eq!(map_error_to_errno(Error::Other), -38);
    assert_eq!(map_error_to_errno(Error::InvalidMethod), -22);
}

#[test]
fn read_cstr_null_address_needs_no_bytes() {
    assert_eq!(read_cstr(0, 4096, &[]).unwrap_err(), neg(EFAULT));
    assert_eq!(read_cstr(0x1000, 0, &[]).unwrap_err(), neg(EINVAL));
}

#[test]
fn errno_negates_any_code() {
    assert_eq!(ape::abi::errno(38), -38);
    assert_eq!(ape::abi::errno(5000), -5000);
    assert_eq!(ape::abi::errno(u32::MAX), -(u32::MAX as isize));
}
