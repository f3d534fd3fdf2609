//! The calls that an operation asks its caller to perform.

use vstd::prelude::*;
use crate::outcome::{classified, LockError, Reply};
use crate::platform::{Advice, Target};

verus! {

/// A span of the process's memory: where it starts and how many bytes it
/// covers. The span belongs to the caller, who keeps it mapped and in place
/// while a call on it runs.
#[derive(Clone, Copy, Debug, PartialEq, Eq, Structural)]
pub struct Region {
    pub addr: usize,
    pub len: usize,
}

/// The process-wide limit on the size of core dumps: the soft limit, which is
/// in force, and the hard limit, up to which the soft one may be raised.
#[derive(Clone, Copy, Debug, PartialEq, Eq, Structural)]
pub struct CoreLimit {
    pub soft: u64,
    pub hard: u64,
}

/// A call into the operating system.
#[derive(Clone, Copy, Debug, PartialEq, Eq, Structural)]
pub enum Syscall {
    /// Pin the pages of the region: `mlock`, or `VirtualLock` on Windows.
    Lock(Region),
    /// Unpin the pages of the region: `munlock`, or `VirtualUnlock` on Windows.
    Unlock(Region),
    /// Give the kernel the hint for the region: `madvise`.
    Advise(Region, Advice),
    /// Read the limit on core dumps: `getrlimit(RLIMIT_CORE)`.
    GetCoreLimit,
    /// Set the limit on core dumps: `setrlimit(RLIMIT_CORE)`.
    SetCoreLimit(CoreLimit),
    /// Set the error mode of the process: `SetErrorMode`.
    SetErrorMode(u32),
}

/// What an operation asks of its caller.
#[derive(Clone, Copy, Debug, PartialEq, Eq)]
pub enum Step {
    /// Nothing: the operation has ended with this result, and no call is made.
    Done(Result<(), LockError>),
    /// Perform this call and have its reply classified.
    Call(Syscall),
}

impl Step {
    /// The result of the operation once `reply` has come back: that of the step
    /// itself where no call was asked for, else what the reply stands for.
    pub open spec fn outcome(self, target: Target, reply: Reply) -> Result<(), LockError> {
        match self {
            Step::Done(r) => r,
            Step::Call(_) => classified(target, reply),
        }
    }
}

} // verus!
