//! Decisions around the operating system's primitives for pinning memory in RAM
//! and keeping it out of core dumps.
//!
//! The library never touches the operating system. Each operation says which
//! call, if any, the caller has to perform, and turns the reply into one of
//! three results: success, a failure with the system's error code, or
//! "unsupported on this platform".

pub mod buffer;
pub mod core_dumps;
pub mod diagnostic;
pub mod error_mode;
pub mod outcome;
pub mod platform;
pub mod region;
pub mod syscall;

pub use buffer::{advise_completed, unlock_completed, LockedVec};
pub use core_dumps::{
    disable_core_dumps_for_process, disable_core_dumps_with_guard, lower_core_limit,
    restore_completed, CoreDumpsDisabledGuard, GuardState, Lowering,
};
pub use diagnostic::Diagnostic;
pub use error_mode::{set_windows_error_mode, suppress_windows_error_dialogs_for_process};
pub use outcome::{classify, unsupported, LockError, Reply};
pub use platform::{Advice, Family, Target};
pub use region::{madvise_dontdump, mlock, munlock};
pub use syscall::{CoreLimit, Region, Step, Syscall};
