//! The runtime record of the system-call layer and its initialisation.
use vstd::prelude::*;
use crate::state::{ApeProcessIds, ApeProcessState, Endpoint, fresh_process_state};

verus! {

/// The process state together with the runtime's own flags.
#[derive(Debug, Clone)]
pub struct ApeRuntime {
    pub process: ApeProcessState,
    pub initialized: bool,
    pub bootstrap_ready: bool,
}

/// `old` and `new` have the same runtime flags (initialised, bootstrap done).
pub open spec fn same_flags(old: ApeRuntime, new: ApeRuntime) -> bool {
    old.initialized == new.initialized && old.bootstrap_ready == new.bootstrap_ready
}

impl ApeRuntime {
    /// A runtime over a fresh process state, neither initialised nor bootstrapped.
    pub fn uninitialized() -> (r: ApeRuntime)
        ensures
            fresh_process_state(r.process),
            !r.initialized,
            !r.bootstrap_ready,
    {
        ApeRuntime { process: ApeProcessState::new(), initialized: false, bootstrap_ready: false }
    }

    /// Records that the runtime has been initialised.
    pub fn mark_initialized(&mut self)
        ensures
            final(self).initialized,
            final(self).bootstrap_ready == old(self).bootstrap_ready,
            final(self).process == old(self).process,
    {
        self.initialized = true;
    }

    /// Whether the runtime has been initialised.
    pub fn initialized(&self) -> (r: bool)
        ensures
            r == self.initialized,
    {
        self.initialized
    }

    /// Records whether the bootstrap handshake is done.
    pub fn set_bootstrap_ready(&mut self, ready: bool)
        ensures
            final(self).bootstrap_ready == ready,
            final(self).initialized == old(self).initialized,
            final(self).process == old(self).process,
    {
        self.bootstrap_ready = ready;
    }

    /// Whether the bootstrap handshake is done.
    pub fn bootstrap_ready(&self) -> (r: bool)
        ensures
            r == self.bootstrap_ready,
    {
        self.bootstrap_ready
    }

    /// Records the process ids; a session or process group that is still
    /// unset (0) becomes the process id.
    pub fn set_process_ids(&mut self, ids: ApeProcessIds)
        ensures
            final(self).process == (ApeProcessState {
                ids: Some(ids),
                session_id: if old(self).process.session_id == 0 {
                    ids.pid
                } else {
                    old(self).process.session_id
                },
                process_group_id: if old(self).process.process_group_id == 0 {
                    ids.pid
                } else {
                    old(self).process.process_group_id
                },
                ..old(self).process
            }),
            same_flags(*old(self), *final(self)),
    {
        if self.process.session_id == 0 {
            self.process.session_id = ids.pid;
        }
        if self.process.process_group_id == 0 {
            self.process.process_group_id = ids.pid;
        }
        self.process.ids = Some(ids);
    }

    /// The process ids, if they have been recorded.
    pub fn process_ids(&self) -> (r: Option<ApeProcessIds>)
        ensures
            r == self.process.ids,
    {
        self.process.ids
    }

    /// Records the address to clear when the thread exits.
    pub fn set_clear_child_tid(&mut self, ptr: usize)
        ensures
            final(self).process.signal.clear_child_tid == ptr,
            final(self).process.signal.actions == old(self).process.signal.actions,
            final(self).process.signal.blocked == old(self).process.signal.blocked,
            final(self).process.signal.pending == old(self).process.signal.pending,
            final(self).process == (ApeProcessState { signal: final(self).process.signal, ..old(self).process }),
            same_flags(*old(self), *final(self)),
    {
        self.process.signal.clear_child_tid = ptr;
    }

    /// Records the identity; each id keeps its low 32 bits.
    pub fn set_identity(&mut self, uid: usize, euid: usize, gid: usize, egid: usize)
        ensures
            final(self).process.identity.uid == uid as u32,
            final(self).process.identity.euid == euid as u32,
            final(self).process.identity.gid == gid as u32,
            final(self).process.identity.egid == egid as u32,
            final(self).process == (ApeProcessState { identity: final(self).process.identity, ..old(self).process }),
            same_flags(*old(self), *final(self)),
    {
        self.process.identity.uid = uid as u32;
        self.process.identity.euid = euid as u32;
        self.process.identity.gid = gid as u32;
        self.process.identity.egid = egid as u32;
    }

    /// Records the initial memory layout.
    pub fn set_memory_seed(
        &mut self,
        brk_start: usize,
        brk_current: usize,
        heap_limit: usize,
        mmap_base: usize,
        mmap_next: usize,
        mmap_limit: usize,
    )
        ensures
            final(self).process.memory.brk_start == brk_start,
            final(self).process.memory.brk_current == brk_current,
            final(self).process.memory.heap_limit == heap_limit,
            final(self).process.memory.mmap_base == mmap_base,
            final(self).process.memory.mmap_next == mmap_next,
            final(self).process.memory.mmap_limit == mmap_limit,
            final(self).process.memory.maps == old(self).process.memory.maps,
            final(self).process == (ApeProcessState { memory: final(self).process.memory, ..old(self).process }),
            same_flags(*old(self), *final(self)),
    {
        self.process.memory.brk_start = brk_start;
        self.process.memory.brk_current = brk_current;
        self.process.memory.heap_limit = heap_limit;
        self.process.memory.mmap_base = mmap_base;
        self.process.memory.mmap_next = mmap_next;
        self.process.memory.mmap_limit = mmap_limit;
    }

    /// The APE endpoint, if one has been set.
    pub fn ape_endpoint(&self) -> (r: Option<Endpoint>)
        ensures
            r == self.process.ape_endpoint,
    {
        self.process.ape_endpoint
    }

    /// Records the APE endpoint.
    pub fn set_ape_endpoint(&mut self, ep: Endpoint)
        ensures
            final(self).process == (ApeProcessState { ape_endpoint: Some(ep), ..old(self).process }),
            same_flags(*old(self), *final(self)),
    {
        self.process.ape_endpoint = Some(ep);
    }

    /// The process state.
    pub fn process_state(&self) -> (r: &ApeProcessState)
        ensures
            *r == self.process,
    {
        &self.process
    }

    /// The process state, for changing it.
    pub fn process_state_mut(&mut self) -> (r: &mut ApeProcessState)
        ensures
            *r == old(self).process,
            final(self).process == *final(r),
            same_flags(*old(self), *final(self)),
    {
        &mut self.process
    }
}

/// Makes sure a runtime exists and is marked initialised: an empty slot gets
/// a fresh runtime; an existing runtime keeps its state.
pub fn init_runtime(slot: &mut Option<ApeRuntime>)
    ensures
        (*final(slot)) is Some,
        (*final(slot))->0.initialized,
        (*old(slot)) is None ==> fresh_process_state((*final(slot))->0.process) && !(*final(slot))->0.bootstrap_ready,
        (*old(slot)) is Some ==> (*final(slot))->0.process == (*old(slot))->0.process
            && (*final(slot))->0.bootstrap_ready == (*old(slot))->0.bootstrap_ready,
{
    if slot.is_none() {
        let mut rt = ApeRuntime::uninitialized();
        rt.mark_initialized();
        *slot = Some(rt);
        return;
    }
    match slot {
        Some(rt) => rt.mark_initialized(),
        None => {},
    }
}

} // verus!
