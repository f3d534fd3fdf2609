//! What is reported, and never returned as an error, when an operation goes on
//! without a protection or a release does not go through.

use vstd::prelude::*;

verus! {

/// A condition that is worth a line of diagnostic output and nothing more.
#[derive(Clone, Copy, Debug, PartialEq, Eq, Structural)]
pub enum Diagnostic {
    /// Pinning is not offered here: the buffer stays unpinned.
    LockUnsupported,
    /// The dump-exclusion hint is not offered here.
    AdviseUnsupported,
    /// The kernel rejected the dump-exclusion hint, with this error code.
    AdviseFailed(i32),
    /// The operating system refused to unpin the buffer, with this error code.
    UnlockFailed(i32),
    /// The operating system refused to set the previous limit on core dumps
    /// again, with this error code.
    RestoreFailed(i32),
}

impl Diagnostic {
    /// The line that stands for the condition in diagnostic output, without the
    /// error code.
    pub open spec fn text(self) -> &'static str {
        match self {
            Diagnostic::LockUnsupported =>
                "os-memlock: mlock unsupported on this platform/build; continuing unlocked",
            Diagnostic::AdviseUnsupported =>
                "os-memlock: dump exclusion unsupported on this platform/build",
            Diagnostic::AdviseFailed(_) => "os-memlock: madvise(MADV_DONTDUMP) failed",
            Diagnostic::UnlockFailed(_) => "os-memlock: munlock failed",
            Diagnostic::RestoreFailed(_) => "os-memlock: failed to restore RLIMIT_CORE",
        }
    }

    /// The line to put out for the condition. Where `os_error` gives a code,
    /// the caller adds what the code means.
    pub fn message(&self) -> (line: &'static str)
        ensures
            line == self.text(),
    {
        match self {
            Diagnostic::LockUnsupported =>
                "os-memlock: mlock unsupported on this platform/build; continuing unlocked",
            Diagnostic::AdviseUnsupported =>
                "os-memlock: dump exclusion unsupported on this platform/build",
            Diagnostic::AdviseFailed(_) => "os-memlock: madvise(MADV_DONTDUMP) failed",
            Diagnostic::UnlockFailed(_) => "os-memlock: munlock failed",
            Diagnostic::RestoreFailed(_) => "os-memlock: failed to restore RLIMIT_CORE",
        }
    }

    /// The operating system's error code, where the condition is a rejected call.
    pub fn os_error(&self) -> (code: Option<i32>)
        ensures
            code == (match *self {
                Diagnostic::AdviseFailed(c) => Some(c),
                Diagnostic::UnlockFailed(c) => Some(c),
                Diagnostic::RestoreFailed(c) => Some(c),
                _ => None::<i32>,
            }),
    {
        match self {
            Diagnostic::AdviseFailed(c) => Some(*c),
            Diagnostic::UnlockFailed(c) => Some(*c),
            Diagnostic::RestoreFailed(c) => Some(*c),
            _ => None,
        }
    }
}

} // verus!
