//! The three operations on a region of memory: pinning it, unpinning it, and
//! asking the kernel to leave it out of core dumps.
//!
//! A region of no bytes never reaches the operating system: the operation
//! succeeds at once, on every target. A region of some bytes is handed to the
//! operating system where the target offers the call, and is reported as
//! unsupported where it does not.

use vstd::prelude::*;
use crate::outcome::{classified, is_unsupported, unsupported, LockError, Reply};
use crate::platform::{Family, Target};
use crate::syscall::{Region, Step, Syscall};

verus! {

/// What pinning `region` asks for on `target`.
pub open spec fn lock_step(target: Target, region: Region) -> Step {
    if region.len == 0 {
        Step::Done(Ok(()))
    } else if target.can_lock() {
        Step::Call(Syscall::Lock(region))
    } else {
        Step::Done(Err(LockError::Unsupported("mlock unsupported on this platform")))
    }
}

/// What unpinning `region` asks for on `target`.
pub open spec fn unlock_step(target: Target, region: Region) -> Step {
    if region.len == 0 {
        Step::Done(Ok(()))
    } else if target.can_lock() {
        Step::Call(Syscall::Unlock(region))
    } else {
        Step::Done(Err(LockError::Unsupported("munlock unsupported on this platform")))
    }
}

/// What the dump-exclusion hint for `region` asks for on `target`.
pub open spec fn advise_step(target: Target, region: Region) -> Step {
    if region.len == 0 {
        Step::Done(Ok(()))
    } else {
        match target.dump_advice() {
            Some(advice) => Step::Call(Syscall::Advise(region, advice)),
            None => if target.family() == Family::Unix {
                Step::Done(
                    Err(
                        LockError::Unsupported(
                            "madvise-based dump exclusion unsupported on this platform",
                        ),
                    ),
                )
            } else {
                Step::Done(
                    Err(LockError::Unsupported("madvise(MADV_DONTDUMP) unsupported on this platform")),
                )
            },
        }
    }
}

/// Pins the pages of the region of `len` bytes at `addr`, so that they are not
/// swapped out.
///
/// The step names the caller's region as it was given.
pub fn mlock(target: Target, addr: usize, len: usize) -> (step: Step)
    ensures
        step == lock_step(target, Region { addr, len }),
        len == 0 ==> step == Step::Done(Ok(())),
        len > 0 && target.can_lock() ==> step == Step::Call(Syscall::Lock(Region { addr, len })),
        len > 0 && !target.can_lock() ==> (step matches Step::Done(Err(LockError::Unsupported(msg)))
            && msg@.len() > 0),
{
    if len == 0 {
        Step::Done(Ok(()))
    } else if target.can_lock() {
        Step::Call(Syscall::Lock(Region { addr, len }))
    } else {
        proof {
            reveal_strlit("mlock unsupported on this platform");
        }
        Step::Done(unsupported("mlock unsupported on this platform"))
    }
}

/// Unpins the pages of the region of `len` bytes at `addr`.
///
/// The step names the caller's region as it was given.
pub fn munlock(target: Target, addr: usize, len: usize) -> (step: Step)
    ensures
        step == unlock_step(target, Region { addr, len }),
        len == 0 ==> step == Step::Done(Ok(())),
        len > 0 && target.can_lock() ==> step == Step::Call(Syscall::Unlock(Region { addr, len })),
        len > 0 && !target.can_lock() ==> (step matches Step::Done(Err(LockError::Unsupported(msg)))
            && msg@.len() > 0),
{
    if len == 0 {
        Step::Done(Ok(()))
    } else if target.can_lock() {
        Step::Call(Syscall::Unlock(Region { addr, len }))
    } else {
        proof {
            reveal_strlit("munlock unsupported on this platform");
        }
        Step::Done(unsupported("munlock unsupported on this platform"))
    }
}

/// Asks the kernel to leave the region of `len` bytes at `addr` out of core
/// dumps: with `MADV_DONTDUMP` on Linux, with `MADV_NOCORE` on FreeBSD. No
/// other target has such a hint.
///
/// The step names the caller's region as it was given.
pub fn madvise_dontdump(target: Target, addr: usize, len: usize) -> (step: Step)
    ensures
        step == advise_step(target, Region { addr, len }),
        len == 0 ==> step == Step::Done(Ok(())),
        len > 0 ==> match target.dump_advice() {
            Some(advice) => step == Step::Call(Syscall::Advise(Region { addr, len }, advice)),
            None => (step matches Step::Done(Err(LockError::Unsupported(msg))) && msg@.len() > 0),
        },
{
    if len == 0 {
        return Step::Done(Ok(()));
    }
    match target.dump_advice() {
        Some(advice) => Step::Call(Syscall::Advise(Region { addr, len }, advice)),
        None => {
            proof {
                reveal_strlit("madvise-based dump exclusion unsupported on this platform");
                reveal_strlit("madvise(MADV_DONTDUMP) unsupported on this platform");
            }
            match target.family() {
                Family::Unix => Step::Done(
                    unsupported("madvise-based dump exclusion unsupported on this platform"),
                ),
                _ => Step::Done(unsupported("madvise(MADV_DONTDUMP) unsupported on this platform")),
            }
        },
    }
}

/// Once a region of some bytes has been pinned with success, unpinning it is
/// never unsupported: it succeeds or the operating system rejects it, whatever
/// the replies to the two calls were.
pub proof fn lemma_unlock_after_lock_is_supported(
    target: Target,
    region: Region,
    lock_reply: Reply,
    unlock_reply: Reply,
)
    requires
        region.len > 0,
        lock_step(target, region).outcome(target, lock_reply) is Ok,
    ensures
        !is_unsupported(unlock_step(target, region).outcome(target, unlock_reply)),
        unlock_step(target, region) == Step::Call(Syscall::Unlock(region)),
{
}

/// An operation on a region is unsupported exactly when the region has some
/// bytes and the target does not offer the call. Whenever a call is made, the
/// result is success or failure, as the reply has it.
pub proof fn lemma_unsupported_iff_not_offered(target: Target, region: Region, reply: Reply)
    ensures
        is_unsupported(lock_step(target, region).outcome(target, reply)) <==> region.len > 0
            && !target.can_lock(),
        is_unsupported(unlock_step(target, region).outcome(target, reply)) <==> region.len > 0
            && !target.can_lock(),
        is_unsupported(advise_step(target, region).outcome(target, reply)) <==> region.len > 0
            && target.dump_advice() is None,
        lock_step(target, region) is Call ==> lock_step(target, region).outcome(target, reply)
            == classified(target, reply),
        unlock_step(target, region) is Call ==> unlock_step(target, region).outcome(target, reply)
            == classified(target, reply),
        advise_step(target, region) is Call ==> advise_step(target, region).outcome(target, reply)
            == classified(target, reply),
{
}

/// On a region of no bytes the three operations succeed without a call, on
/// every target and at every address.
pub proof fn lemma_empty_region_succeeds(target: Target, addr: usize)
    ensures
        lock_step(target, Region { addr, len: 0 }) == Step::Done(Ok(())),
        unlock_step(target, Region { addr, len: 0 }) == Step::Done(Ok(())),
        advise_step(target, Region { addr, len: 0 }) == Step::Done(Ok(())),
{
}

/// On the fallback family pinning and unpinning a region of some bytes are
/// both unsupported, and neither asks for a call.
pub proof fn lemma_fallback_offers_nothing(target: Target, region: Region, reply: Reply)
    requires
        target.family() == Family::Fallback,
        region.len > 0,
    ensures
        is_unsupported(lock_step(target, region).outcome(target, reply)),
        is_unsupported(unlock_step(target, region).outcome(target, reply)),
        is_unsupported(advise_step(target, region).outcome(target, reply)),
{
}

} // verus!
