//! Signal dispositions and the blocked-signal mask (`rt_sigaction`,
//! `rt_sigprocmask`, `rt_sigpending`).
use vstd::prelude::*;
use crate::abi::{errno, errno_spec, EINVAL, SIGKILL, SIGSTOP, SIG_BLOCK, SIG_SETMASK, SIG_UNBLOCK};
use crate::records::{
    decode_sigaction, encode_sigaction, sigaction_from_record, sigaction_record, zeros, SIGACTION_SIZE,
};
use crate::runtime::{ApeRuntime, same_flags};
use crate::state::{ApeProcessState, SignalAction, SignalState};

verus! {

/// The size in bytes of the signal sets the system calls accept.
pub const SIGSET_SIZE: usize = 8;

/// The highest signal number.
pub const MAX_SIGNAL: usize = 64;

/// `EINVAL` unless the caller's signal-set size is [`SIGSET_SIZE`].
pub fn sigset_size_check(sigsetsize: usize) -> (r: Result<(), isize>)
    ensures
        r == if sigsetsize != SIGSET_SIZE {
            Err::<(), isize>(errno_spec(EINVAL))
        } else {
            Ok::<(), isize>(())
        },
{
    if sigsetsize != SIGSET_SIZE {
        Err(errno(EINVAL))
    } else {
        Ok(())
    }
}

/// Whether `rt_sigaction` accepts the signal: a number from 1 to 64 other than
/// `SIGKILL` and `SIGSTOP`.
pub open spec fn settable_signal(signum: usize) -> bool {
    1 <= signum <= MAX_SIGNAL && signum != SIGKILL && signum != SIGSTOP
}

/// `rt_sigaction`, first step: `EINVAL` for a wrong signal-set size or a
/// signal whose disposition cannot be changed.
pub fn sigaction_check(signum: usize, sigsetsize: usize) -> (r: Result<(), isize>)
    ensures
        r == if sigsetsize == SIGSET_SIZE && settable_signal(signum) {
            Ok::<(), isize>(())
        } else {
            Err::<(), isize>(errno_spec(EINVAL))
        },
{
    if sigsetsize != SIGSET_SIZE {
        return Err(errno(EINVAL));
    }
    if signum == 0 || signum > MAX_SIGNAL {
        return Err(errno(EINVAL));
    }
    if signum == SIGKILL as usize || signum == SIGSTOP as usize {
        return Err(errno(EINVAL));
    }
    Ok(())
}

/// The disposition recorded for `signum` (all zero when none is).
pub open spec fn current_action(sig: SignalState, signum: usize) -> SignalAction {
    if sig.actions@.contains_key(signum) {
        sig.actions@[signum]
    } else {
        SignalAction { handler: 0, flags: 0, restorer: 0, mask: 0 }
    }
}

/// `rt_sigaction`, second step: the record of the current disposition of
/// `signum`, which the call stores when the caller asks for it.
pub fn sigaction_old_record(rt: &ApeRuntime, signum: usize) -> (r: Vec<u8>)
    ensures
        r@ == sigaction_record(current_action(rt.process.signal, signum)),
        r@.len() == SIGACTION_SIZE,
{
    let old = match rt.process.signal.actions.get(&signum) {
        Some(a) => *a,
        None => SignalAction { handler: 0, flags: 0, restorer: 0, mask: 0 },
    };
    encode_sigaction(&old)
}

/// `rt_sigaction`, third step: records the disposition that the caller's
/// 32-byte record describes.
pub fn sigaction_install(rt: &mut ApeRuntime, signum: usize, raw: &[u8])
    requires
        raw@.len() == SIGACTION_SIZE,
    ensures
        final(rt).process.signal.actions@ == old(rt).process.signal.actions@.insert(signum, sigaction_from_record(raw@)),
        final(rt).process.signal == (SignalState { actions: final(rt).process.signal.actions, ..old(rt).process.signal }),
        final(rt).process == (ApeProcessState { signal: final(rt).process.signal, ..old(rt).process }),
        same_flags(*old(rt), *final(rt)),
{
    let action = decode_sigaction(raw);
    rt.process.signal.actions.insert(signum, action);
}

/// The blocked mask after `rt_sigprocmask(how, set)`, or `None` for an unknown `how`.
pub open spec fn sigmask_after(blocked: u64, how: usize, set: u64) -> Option<u64> {
    let h = how as u32;
    if h == SIG_BLOCK {
        Some(blocked | set)
    } else if h == SIG_UNBLOCK {
        Some(blocked & !set)
    } else if h == SIG_SETMASK {
        Some(set)
    } else {
        None
    }
}

/// `rt_sigprocmask`, after the old mask has been handed out: with a new set,
/// blocks, unblocks or replaces it according to `how` (`EINVAL` for any other
/// `how`); without one, changes nothing.
pub fn apply_sigmask(rt: &mut ApeRuntime, how: usize, set: Option<u64>) -> (r: isize)
    ensures
        same_flags(*old(rt), *final(rt)),
        match set {
            None => r == 0 && final(rt).process == old(rt).process,
            Some(s) => match sigmask_after(old(rt).process.signal.blocked, how, s) {
                None => r == errno_spec(EINVAL) && final(rt).process == old(rt).process,
                Some(m) => r == 0 && final(rt).process == (ApeProcessState {
                    signal: SignalState { blocked: m, ..old(rt).process.signal },
                    ..old(rt).process
                }),
            },
        },
{
    let s = match set {
        Some(s) => s,
        None => return 0,
    };
    let h = how as u32;
    if h == SIG_BLOCK {
        rt.process.signal.blocked = rt.process.signal.blocked | s;
    } else if h == SIG_UNBLOCK {
        rt.process.signal.blocked = rt.process.signal.blocked & !s;
    } else if h == SIG_SETMASK {
        rt.process.signal.blocked = s;
    } else {
        return errno(EINVAL);
    }
    0
}

/// After a disposition is recorded from a caller's record, asking for the
/// disposition of that signal hands the same record back (on the 64-bit
/// target, where every word of a record fits in a `usize`).
pub proof fn lemma_sigaction_reads_back(sig: SignalState, new_sig: SignalState, signum: usize, raw: Seq<u8>)
    requires
        raw.len() == SIGACTION_SIZE,
        new_sig.actions@ == sig.actions@.insert(signum, sigaction_from_record(raw)),
        usize::BITS == 64,
    ensures
        sigaction_record(current_action(new_sig, signum)) == raw,
{
    assert(usize::MAX == u64::MAX);
    crate::records::lemma_sigaction_record_round_trip(raw);
}

/// Blocking a set and then unblocking it leaves blocked exactly what was
/// blocked before and is not in the set.
pub proof fn lemma_block_then_unblock(blocked: u64, set: u64)
    ensures
        sigmask_after(sigmask_after(blocked, SIG_BLOCK as usize, set)->0, SIG_UNBLOCK as usize, set)
            == Some(blocked & !set),
{
    assert((blocked | set) & !set == blocked & !set) by (bit_vector);
}

/// Asking for the disposition of a signal that was never recorded hands
/// back an all-zero record.
pub proof fn lemma_unset_sigaction_reads_zero(sig: SignalState, signum: usize)
    requires
        !sig.actions@.contains_key(signum),
    ensures
        sigaction_record(current_action(sig, signum)) == zeros(SIGACTION_SIZE as nat),
{
    let z: u64 = 0;
    vstd::bytes::spec_u64_to_le_bytes_to_open(z);
    assert((z & 0xff) as u8 == 0 && ((z >> 8) & 0xff) as u8 == 0 && ((z >> 16) & 0xff) as u8 == 0
        && ((z >> 24) & 0xff) as u8 == 0 && ((z >> 32) & 0xff) as u8 == 0 && ((z >> 40) & 0xff) as u8 == 0
        && ((z >> 48) & 0xff) as u8 == 0 && ((z >> 56) & 0xff) as u8 == 0) by (bit_vector)
        requires
            z == 0,
    ;
    assert(vstd::bytes::spec_u64_to_le_bytes(z) =~= zeros(8));
    assert(sigaction_record(current_action(sig, signum)) =~= zeros(SIGACTION_SIZE as nat));
}

} // verus!
