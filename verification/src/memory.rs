//! Heap-break and memory-mapping bookkeeping (`brk`, `mmap`, `munmap`, `mprotect`).
use vstd::prelude::*;
use crate::abi::{errno, errno_spec, EINVAL};
use crate::runtime::{ApeRuntime, same_flags};
use crate::state::{ApeProcessState, MemoryMap, MemoryState, MemoryType};

verus! {

/// `len` rounded up to a whole number of 4 KiB pages.
pub open spec fn page_round_up(len: int) -> int {
    (len + 4095) / 4096 * 4096
}

/// The memory state after `brk(addr)`, and the break it answers.
///
/// The first non-zero request fixes the start of the heap when none is known;
/// a request below the start or above the heap limit leaves the break where
/// it is; `brk(0)` only asks for the break.
pub open spec fn brk_spec(mem: MemoryState, addr: usize) -> (MemoryState, usize) {
    let seeded = if mem.brk_start == 0 && addr != 0 {
        MemoryState { brk_start: addr, brk_current: addr, ..mem }
    } else {
        mem
    };
    if addr == 0 {
        (seeded, seeded.brk_current)
    } else if addr < seeded.brk_start || addr > seeded.heap_limit {
        (seeded, seeded.brk_current)
    } else {
        (MemoryState { brk_current: addr, ..seeded }, addr)
    }
}

/// What `brk(addr)` does to the process state and answers (see [`brk_spec`]).
pub open spec fn brk_post(old: ApeProcessState, new: ApeProcessState, addr: usize, r: isize) -> bool {
    &&& new == (ApeProcessState { memory: brk_spec(old.memory, addr).0, ..old })
    &&& r == brk_spec(old.memory, addr).1 as isize
}

/// `brk`: moves the program break within `[brk_start, heap_limit]`.
pub fn local_brk(rt: &mut ApeRuntime, addr: usize) -> (r: isize)
    ensures
        same_flags(*old(rt), *final(rt)),
        brk_post(old(rt).process, final(rt).process, addr, r),
{
    let mem = &mut rt.process.memory;
    if mem.brk_start == 0 && addr != 0 {
        mem.brk_start = addr;
        mem.brk_current = addr;
    }
    if addr == 0 {
        return mem.brk_current as isize;
    }
    if addr < mem.brk_start || addr > mem.heap_limit {
        return mem.brk_current as isize;
    }
    mem.brk_current = addr;
    mem.brk_current as isize
}

/// Whether `mmap(addr, len, ..)` can be served without the address
/// arithmetic overflowing: a placed mapping needs the rounded length and the
/// next free address to fit in a `usize`.
pub open spec fn mmap_fits_spec(mem: MemoryState, addr: usize, len: usize) -> bool {
    addr != 0 || (len + 4095 <= usize::MAX && mem.mmap_next + page_round_up(len as int) <= usize::MAX)
}

/// Checks [`mmap_fits_spec`].
pub fn mmap_fits(mem: &MemoryState, addr: usize, len: usize) -> (r: bool)
    ensures
        r == mmap_fits_spec(*mem, addr, len),
{
    if addr != 0 {
        return true;
    }
    if len > usize::MAX - 4095 {
        return false;
    }
    let rounded = round_to_page(len);
    rounded <= usize::MAX - mem.mmap_next
}

fn round_to_page(len: usize) -> (r: usize)
    requires
        len + 4095 <= usize::MAX,
    ensures
        r == page_round_up(len as int),
{
    let sum: usize = len + 0xFFF;
    let r = sum & !0xFFFusize;
    assert(sum & !0xFFFusize == (sum / 4096) * 4096) by (bit_vector);
    r
}

/// The mapping `mmap` records: anonymous when `fd` is -1, file backed otherwise.
pub open spec fn mmap_record(start: usize, len: usize, prot: usize, flags: usize, fd: i32, offset: usize) -> MemoryMap {
    MemoryMap {
        start,
        len,
        prot: prot as u32,
        flags: flags as u32,
        mem_type: if fd == -1 {
            MemoryType::Anonymous
        } else {
            MemoryType::FileBacked
        },
        backing_fd: if fd == -1 {
            None
        } else {
            Some(fd)
        },
        backing_offset: offset,
    }
}

/// What `mmap` does: the mapping is recorded at its start, which it answers;
/// only a placed mapping (`addr == 0`) moves the next free address.
pub open spec fn mmap_post(old: ApeProcessState, new: ApeProcessState, addr: usize, len: usize, prot: usize, flags: usize, fd: i32, offset: usize, r: isize) -> bool {
    &&& ({
        let old_mem = old.memory;
        let start = if addr == 0 {
            old_mem.mmap_next
        } else {
            addr
        };
        let next = if addr == 0 {
            (old_mem.mmap_next + page_round_up(len as int)) as usize
        } else {
            old_mem.mmap_next
        };
        &&& r == start as isize
        &&& new.memory.maps@ == old_mem.maps@.insert(start, mmap_record(start, len, prot, flags, fd, offset))
        &&& new.memory == (MemoryState { mmap_next: next, maps: new.memory.maps, ..old_mem })
    })
    &&& new == (ApeProcessState { memory: new.memory, ..old })
}

/// `mmap`: records a mapping at `addr`, or, for `addr == 0`, at the next free
/// address, which then moves on by the length rounded up to whole pages.
/// Answers the start of the mapping.
pub fn local_mmap(
    rt: &mut ApeRuntime,
    addr: usize,
    len: usize,
    prot: usize,
    flags: usize,
    fd: i32,
    offset: usize,
) -> (r: isize)
    requires
        mmap_fits_spec(old(rt).process.memory, addr, len),
    ensures
        same_flags(*old(rt), *final(rt)),
        mmap_post(old(rt).process, final(rt).process, addr, len, prot, flags, fd, offset, r),
{
    let mem = &mut rt.process.memory;
    let start = if addr == 0 {
        let s = mem.mmap_next;
        let rounded = round_to_page(len);
        mem.mmap_next = mem.mmap_next + rounded;
        s
    } else {
        addr
    };
    let map = MemoryMap {
        start,
        len,
        prot: prot as u32,
        flags: flags as u32,
        mem_type: if fd == -1 {
            MemoryType::Anonymous
        } else {
            MemoryType::FileBacked
        },
        backing_fd: if fd == -1 {
            None
        } else {
            Some(fd)
        },
        backing_offset: offset,
    };
    mem.maps.insert(start, map);
    start as isize
}

/// What `munmap(addr, ..)` does: the mapping starting at `addr` is forgotten.
pub open spec fn munmap_post(old: ApeProcessState, new: ApeProcessState, addr: usize, r: isize) -> bool {
    &&& r == 0
    &&& new.memory.maps@ == old.memory.maps@.remove(addr)
    &&& new.memory == (MemoryState { maps: new.memory.maps, ..old.memory })
    &&& new == (ApeProcessState { memory: new.memory, ..old })
}

/// `munmap`: forgets the mapping that starts at `addr` (the length is not consulted).
pub fn local_munmap(rt: &mut ApeRuntime, addr: usize, len: usize) -> (r: isize)
    ensures
        same_flags(*old(rt), *final(rt)),
        munmap_post(old(rt).process, final(rt).process, addr, r),
{
    let _ = rt.process.memory.maps.remove(&addr);
    0
}

/// What `mprotect(addr, .., prot)` does.
pub open spec fn mprotect_post(old: ApeProcessState, new: ApeProcessState, addr: usize, prot: u32, r: isize) -> bool {
    &&& if old.memory.maps@.contains_key(addr) {
        &&& r == 0
        &&& new.memory.maps@ == old.memory.maps@.insert(
            addr,
            MemoryMap { prot, ..old.memory.maps@[addr] },
        )
        &&& new.memory == (MemoryState { maps: new.memory.maps, ..old.memory })
        &&& new == (ApeProcessState { memory: new.memory, ..old })
    } else {
        r == errno_spec(EINVAL) && new == old
    }
}

/// `mprotect`: changes the protection of the mapping that starts at `addr`;
/// `EINVAL` when no mapping starts there.
pub fn local_mprotect(rt: &mut ApeRuntime, addr: usize, len: usize, prot: u32) -> (r: isize)
    ensures
        same_flags(*old(rt), *final(rt)),
        mprotect_post(old(rt).process, final(rt).process, addr, prot, r),
{
    let found = match rt.process.memory.maps.get(&addr) {
        Some(m) => Some(*m),
        None => None,
    };
    match found {
        Some(m) => {
            let updated = MemoryMap { prot, ..m };
            rt.process.memory.maps.insert(addr, updated);
            0
        },
        None => errno(EINVAL),
    }
}

} // verus!
