//! A byte buffer of fixed length that is pinned while it lives and wiped
//! before it goes.
//!
//! The buffer is made zero-filled and unpinned. Its owner has it pinned by
//! performing the step of `lock_step` and handing the result to
//! `lock_completed`. Tearing it down wipes every byte first, while the pages
//! are still pinned, and then asks for them to be unpinned. Nothing here runs
//! by itself when a buffer goes out of scope: its owner tears it down.

use vstd::prelude::*;
use crate::diagnostic::Diagnostic;
use crate::outcome::LockError;
use crate::platform::Target;
use crate::region::{advise_step, lock_step, madvise_dontdump, mlock, munlock, unlock_step};
use crate::syscall::{Region, Step};

verus! {

/// `len` bytes, all zero.
pub open spec fn zeros(len: nat) -> Seq<u8> {
    Seq::new(len, |i: int| 0u8)
}

/// A buffer of bytes whose length is fixed when it is made, with the note
/// whether its pages are pinned.
pub struct LockedVec {
    buf: Vec<u8>,
    locked: bool,
}

impl View for LockedVec {
    type V = Seq<u8>;

    /// The bytes of the buffer.
    closed spec fn view(&self) -> Seq<u8> {
        self.buf@
    }
}

/// Overwrites every byte of `buf` with zero.
fn wipe(buf: &mut Vec<u8>)
    ensures
        final(buf)@ == zeros(old(buf)@.len()),
{
    let n: usize = buf.len();
    let mut i: usize = 0;
    while i < n
        invariant
            i <= n,
            buf@.len() == n,
            forall|j: int| 0 <= j < i ==> buf@[j] == 0u8,
        decreases n - i,
    {
        buf[i] = 0;
        i = i + 1;
    }
    assert(buf@ =~= zeros(n as nat));
}

impl LockedVec {
    /// Whether the pages of the buffer are pinned.
    pub closed spec fn pinned(&self) -> bool {
        self.locked
    }

    /// The region that the buffer covers when its bytes start at `addr`: its
    /// full extent.
    pub open spec fn region(&self, addr: usize) -> Region {
        Region { addr, len: self@.len() as usize }
    }

    /// Makes a buffer of `len` bytes, all zero, not pinned yet.
    pub fn new(len: usize) -> (buffer: LockedVec)
        ensures
            buffer@ == zeros(len as nat),
            !buffer.pinned(),
    {
        let buf: Vec<u8> = vec![0u8; len];
        assert(buf@ =~= zeros(len as nat));
        LockedVec { buf, locked: false }
    }

    /// The length in bytes.
    pub fn len(&self) -> (n: usize)
        ensures
            n == self@.len(),
    {
        self.buf.len()
    }

    /// Whether the pages of the buffer are pinned.
    pub fn is_locked(&self) -> (b: bool)
        ensures
            b == self.pinned(),
    {
        self.locked
    }

    /// The bytes, to read.
    pub fn as_slice(&self) -> (bytes: &[u8])
        ensures
            bytes@ == self@,
    {
        self.buf.as_slice()
    }

    /// The bytes, to write to. This is the only way to change them. A slice
    /// cannot grow or shrink, so their number stays as it is.
    pub fn as_mut_slice(&mut self) -> (bytes: &mut [u8])
        ensures
            bytes@ == old(self)@,
            final(self)@ == final(bytes)@,
            final(self).pinned() == old(self).pinned(),
    {
        self.buf.as_mut_slice()
    }

    /// The step that pins the buffer over its full extent. `addr` is where its
    /// bytes start, which only the caller can tell.
    pub fn lock_step(&self, target: Target, addr: usize) -> (step: Step)
        ensures
            step == lock_step(target, self.region(addr)),
    {
        mlock(target, addr, self.buf.len())
    }

    /// Takes note of how pinning went.
    ///
    /// On success the buffer is pinned. Where pinning is unsupported the buffer
    /// stays as it is, unpinned, and that is reported. Where the operating
    /// system rejected the call, the making of the buffer has failed: its bytes
    /// are wiped, it is not pinned, and the failure is returned.
    pub fn lock_completed(&mut self, outcome: Result<(), LockError>) -> (r: Result<
        Option<Diagnostic>,
        LockError,
    >)
        ensures
            match outcome {
                Ok(()) => {
                    &&& r == Ok::<Option<Diagnostic>, LockError>(None)
                    &&& final(self)@ == old(self)@
                    &&& final(self).pinned()
                },
                Err(LockError::Unsupported(_)) => {
                    &&& r == Ok::<Option<Diagnostic>, LockError>(Some(Diagnostic::LockUnsupported))
                    &&& final(self)@ == old(self)@
                    &&& final(self).pinned() == old(self).pinned()
                },
                Err(LockError::Os(code)) => {
                    &&& r == Err::<Option<Diagnostic>, LockError>(LockError::Os(code))
                    &&& final(self)@ == zeros(old(self)@.len())
                    &&& final(self).pinned() == old(self).pinned()
                },
            },
    {
        match outcome {
            Ok(()) => {
                self.locked = true;
                Ok(None)
            },
            Err(LockError::Unsupported(_)) => Ok(Some(Diagnostic::LockUnsupported)),
            Err(LockError::Os(code)) => {
                wipe(&mut self.buf);
                Err(LockError::Os(code))
            },
        }
    }

    /// The step that asks the kernel to leave the buffer out of core dumps.
    /// There is something to ask only once the buffer is pinned, and only where
    /// the target has such a hint.
    pub fn advise_step(&self, target: Target, addr: usize) -> (step: Step)
        ensures
            step == (if self.pinned() && target.dump_advice() is Some {
                advise_step(target, self.region(addr))
            } else {
                Step::Done(Ok(()))
            }),
    {
        if self.locked && target.dump_advice().is_some() {
            madvise_dontdump(target, addr, self.buf.len())
        } else {
            Step::Done(Ok(()))
        }
    }

    /// Tears the buffer down: every byte is overwritten with zero, whether the
    /// buffer was pinned or not, and then, if it was pinned, unpinning is asked
    /// for. From then on the buffer is not pinned, so unpinning is asked for
    /// once.
    pub fn teardown(&mut self, target: Target, addr: usize) -> (step: Step)
        ensures
            final(self)@ == zeros(old(self)@.len()),
            !final(self).pinned(),
            step == (if old(self).pinned() {
                unlock_step(target, old(self).region(addr))
            } else {
                Step::Done(Ok(()))
            }),
    {
        wipe(&mut self.buf);
        if self.locked {
            self.locked = false;
            munlock(target, addr, self.buf.len())
        } else {
            Step::Done(Ok(()))
        }
    }
}

/// What there is to report once the dump-exclusion hint was tried. Nothing the
/// hint runs into is an error.
pub fn advise_completed(outcome: Result<(), LockError>) -> (report: Option<Diagnostic>)
    ensures
        report == (match outcome {
            Ok(()) => None::<Diagnostic>,
            Err(LockError::Unsupported(_)) => Some(Diagnostic::AdviseUnsupported),
            Err(LockError::Os(code)) => Some(Diagnostic::AdviseFailed(code)),
        }),
{
    match outcome {
        Ok(()) => None,
        Err(LockError::Unsupported(_)) => Some(Diagnostic::AdviseUnsupported),
        Err(LockError::Os(code)) => Some(Diagnostic::AdviseFailed(code)),
    }
}

/// What there is to report once unpinning was tried at teardown: a rejection by
/// the operating system, which is reported and goes no further.
pub fn unlock_completed(outcome: Result<(), LockError>) -> (report: Option<Diagnostic>)
    ensures
        report == (match outcome {
            Err(LockError::Os(code)) => Some(Diagnostic::UnlockFailed(code)),
            _ => None::<Diagnostic>,
        }),
{
    match outcome {
        Err(LockError::Os(code)) => Some(Diagnostic::UnlockFailed(code)),
        _ => None,
    }
}

} // verus!
