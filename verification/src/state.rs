//! The per-process state that the system-call layer keeps.
use std::collections::BTreeMap;
use vstd::prelude::*;

verus! {

/// Process, parent and thread ids of the process.
#[derive(Debug, Clone, Copy, Default)]
pub struct ApeProcessIds {
    pub pid: usize,
    pub ppid: usize,
    pub tid: usize,
}

impl ApeProcessIds {
    /// Ids are usable once both the process and the thread id are known (non-zero).
    pub fn valid(&self) -> (r: bool)
        ensures
            r == (self.pid != 0 && self.tid != 0),
    {
        self.pid != 0 && self.tid != 0
    }
}

/// A signal disposition as `rt_sigaction` records it.
#[derive(Debug, Clone, Copy, Default)]
pub struct SignalAction {
    pub handler: usize,
    pub flags: usize,
    pub restorer: usize,
    pub mask: u64,
}

/// An IPC endpoint capability, named by its capability slot.
#[derive(Debug, Clone, Copy)]
pub struct Endpoint {
    pub cap: usize,
}

/// The uid/gid identity of the process.
#[derive(Debug, Clone, Copy, Default)]
pub struct IdentityInfo {
    pub uid: u32,
    pub euid: u32,
    pub gid: u32,
    pub egid: u32,
}

/// An open file description.
#[derive(Debug, Clone)]
pub struct FdEntry {
    pub endpoint: Endpoint,
    pub offset: usize,
    pub flags: u32,
    pub cloexec: bool,
    pub path: Option<String>,
}

impl FdEntry {
    /// A field-by-field copy of the entry.
    pub fn duplicate(&self) -> (r: FdEntry)
        ensures
            r == *self,
    {
        let path = match &self.path {
            Some(p) => Some(p.clone()),
            None => None,
        };
        FdEntry {
            endpoint: self.endpoint,
            offset: self.offset,
            flags: self.flags,
            cloexec: self.cloexec,
            path,
        }
    }

    /// The recorded path, as characters.
    pub open spec fn path_view(&self) -> Option<Seq<char>> {
        match self.path {
            Some(p) => Some(p@),
            None => None,
        }
    }
}

/// The file-descriptor table, with the current and root directories.
#[derive(Debug, Clone, Default)]
pub struct FdTable {
    pub table: BTreeMap<i32, FdEntry>,
    pub next_fd: i32,
    pub cwd: String,
    pub root_dir: String,
}

impl FdTable {
    /// An empty table whose current and root directories are `/`.
    pub fn new() -> (r: FdTable)
        ensures
            r.table@ == Map::<i32, FdEntry>::empty(),
            r.next_fd == 0,
            r.cwd@ == seq!['/'],
            r.root_dir@ == seq!['/'],
    {
        let slash = "/";
        proof {
            reveal_strlit("/");
        }
        let cwd = slash.to_owned();
        let root_dir = slash.to_owned();
        FdTable { table: BTreeMap::new(), next_fd: 0, cwd, root_dir }
    }
}

/// What a memory mapping is backed by.
#[derive(Debug, Clone, Copy, PartialEq, Eq)]
pub enum MemoryType {
    Image,
    Stack,
    Heap,
    Anonymous,
    FileBacked,
}

/// A memory mapping that `mmap` recorded.
#[derive(Debug, Clone, Copy)]
pub struct MemoryMap {
    pub start: usize,
    pub len: usize,
    pub prot: u32,
    pub flags: u32,
    pub mem_type: MemoryType,
    pub backing_fd: Option<i32>,
    pub backing_offset: usize,
}

/// The heap break and mmap bookkeeping of the process.
#[derive(Debug, Clone, Default)]
pub struct MemoryState {
    pub brk_start: usize,
    pub brk_current: usize,
    pub heap_limit: usize,
    pub mmap_base: usize,
    pub mmap_next: usize,
    pub mmap_limit: usize,
    pub maps: BTreeMap<usize, MemoryMap>,
}

impl MemoryState {
    /// No heap and no mappings yet; the heap and the mmap area are unbounded.
    pub fn new() -> (r: MemoryState)
        ensures
            r.brk_start == 0,
            r.brk_current == 0,
            r.heap_limit == usize::MAX,
            r.mmap_base == 0,
            r.mmap_next == 0,
            r.mmap_limit == usize::MAX,
            r.maps@ == Map::<usize, MemoryMap>::empty(),
    {
        MemoryState {
            brk_start: 0,
            brk_current: 0,
            heap_limit: usize::MAX,
            mmap_base: 0,
            mmap_next: 0,
            mmap_limit: usize::MAX,
            maps: BTreeMap::new(),
        }
    }
}

/// Signal dispositions, masks and the clear-child-tid address.
#[derive(Debug, Clone, Default)]
pub struct SignalState {
    pub actions: BTreeMap<usize, SignalAction>,
    pub blocked: u64,
    pub pending: u64,
    pub clear_child_tid: usize,
}

impl SignalState {
    /// No disposition recorded, nothing blocked or pending.
    pub fn new() -> (r: SignalState)
        ensures
            r.actions@ == Map::<usize, SignalAction>::empty(),
            r.blocked == 0,
            r.pending == 0,
            r.clear_child_tid == 0,
    {
        SignalState { actions: BTreeMap::new(), blocked: 0, pending: 0, clear_child_tid: 0 }
    }
}

/// Futex waiter counts by user address.
#[derive(Debug, Clone, Default)]
pub struct FutexState {
    pub waiters: BTreeMap<usize, usize>,
}

impl FutexState {
    /// No waiters.
    pub fn new() -> (r: FutexState)
        ensures
            r.waiters@ == Map::<usize, usize>::empty(),
    {
        FutexState { waiters: BTreeMap::new() }
    }
}

/// Everything the system-call layer knows about the process.
#[derive(Debug, Clone)]
pub struct ApeProcessState {
    pub ids: Option<ApeProcessIds>,
    pub session_id: usize,
    pub process_group_id: usize,
    pub identity: IdentityInfo,
    pub fds: FdTable,
    pub memory: MemoryState,
    pub signal: SignalState,
    pub futex: FutexState,
    pub ape_endpoint: Option<Endpoint>,
}

/// The state of a process that nothing has been told about yet.
pub open spec fn fresh_process_state(s: ApeProcessState) -> bool {
    &&& s.ids is None
    &&& s.session_id == 0
    &&& s.process_group_id == 0
    &&& s.identity == IdentityInfo { uid: 0, euid: 0, gid: 0, egid: 0 }
    &&& s.fds.table@ == Map::<i32, FdEntry>::empty()
    &&& s.fds.next_fd == 0
    &&& s.fds.cwd@ == seq!['/']
    &&& s.fds.root_dir@ == seq!['/']
    &&& s.memory.brk_start == 0
    &&& s.memory.brk_current == 0
    &&& s.memory.heap_limit == usize::MAX
    &&& s.memory.mmap_base == 0
    &&& s.memory.mmap_next == 0
    &&& s.memory.mmap_limit == usize::MAX
    &&& s.memory.maps@ == Map::<usize, MemoryMap>::empty()
    &&& s.signal.actions@ == Map::<usize, SignalAction>::empty()
    &&& s.signal.blocked == 0
    &&& s.signal.pending == 0
    &&& s.signal.clear_child_tid == 0
    &&& s.futex.waiters@ == Map::<usize, usize>::empty()
    &&& s.ape_endpoint is None
}

impl ApeProcessState {
    /// A process with no ids, identity 0, an empty fd table rooted at `/`,
    /// no memory bookkeeping, no signal state and no APE endpoint.
    pub fn new() -> (r: ApeProcessState)
        ensures
            fresh_process_state(r),
    {
        ApeProcessState {
            ids: None,
            session_id: 0,
            process_group_id: 0,
            identity: IdentityInfo { uid: 0, euid: 0, gid: 0, egid: 0 },
            fds: FdTable::new(),
            memory: MemoryState::new(),
            signal: SignalState::new(),
            futex: FutexState::new(),
            ape_endpoint: None,
        }
    }
}

} // verus!
