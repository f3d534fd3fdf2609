//! The error mode of a Windows process: which failures make the system put up
//! a dialog instead of handing the error to the program.
//!
//! This has nothing to do with keeping memory secret. It is here for programs
//! that run unattended and must not wait for somebody to close a dialog.

use vstd::prelude::*;
use crate::outcome::{unsupported, LockError};
use crate::platform::Target;
use crate::syscall::Syscall;

verus! {

/// The system does not display the critical-error-handler message box.
pub const SEM_FAILCRITICALERRORS: u32 = 0x0001;

/// The system does not display the Windows Error Reporting dialog.
pub const SEM_NOGPFAULTERRORBOX: u32 = 0x0002;

/// The system does not display a message box when it fails to find a file.
pub const SEM_NOOPENFILEERRORBOX: u32 = 0x8000;

/// The error mode under which none of the three dialogs is put up.
pub const NO_ERROR_DIALOGS: u32 = 0x8003;

/// What setting the error mode to `mode` asks for on `target`.
pub open spec fn error_mode_call(target: Target, mode: u32, reason: &'static str) -> Result<
    Syscall,
    LockError,
> {
    if target.has_error_mode() {
        Ok(Syscall::SetErrorMode(mode))
    } else {
        Err(LockError::Unsupported(reason))
    }
}

/// Sets the error mode of the process to `mode`.
///
/// The call, where there is one, cannot fail; what it returns is the mode that
/// was in force before, by which the caller can bring that mode back.
pub fn set_windows_error_mode(target: Target, mode: u32) -> (call: Result<Syscall, LockError>)
    ensures
        call == error_mode_call(target, mode, "set_windows_error_mode unsupported on this platform"),
        target.has_error_mode() ==> call == Ok::<Syscall, LockError>(Syscall::SetErrorMode(mode)),
        !target.has_error_mode() ==> (call matches Err(LockError::Unsupported(msg)) && msg@.len()
            > 0),
{
    if target.has_error_mode() {
        Ok(Syscall::SetErrorMode(mode))
    } else {
        proof {
            reveal_strlit("set_windows_error_mode unsupported on this platform");
        }
        unsupported("set_windows_error_mode unsupported on this platform")
    }
}

/// Keeps the system from putting up any of the three error dialogs for this
/// process.
///
/// The call, where there is one, cannot fail; what it returns is the mode that
/// was in force before, which `set_windows_error_mode` brings back.
pub fn suppress_windows_error_dialogs_for_process(target: Target) -> (call: Result<
    Syscall,
    LockError,
>)
    ensures
        call == error_mode_call(
            target,
            NO_ERROR_DIALOGS,
            "suppress_windows_error_dialogs_for_process unsupported on this platform",
        ),
        target.has_error_mode() ==> call == Ok::<Syscall, LockError>(
            Syscall::SetErrorMode(NO_ERROR_DIALOGS),
        ),
        !target.has_error_mode() ==> (call matches Err(LockError::Unsupported(msg)) && msg@.len()
            > 0),
{
    if target.has_error_mode() {
        Ok(Syscall::SetErrorMode(NO_ERROR_DIALOGS))
    } else {
        proof {
            reveal_strlit("suppress_windows_error_dialogs_for_process unsupported on this platform");
        }
        unsupported("suppress_windows_error_dialogs_for_process unsupported on this platform")
    }
}

/// The mode without dialogs is made of the three flags, and of nothing else.
pub proof fn lemma_no_error_dialogs_is_the_three_flags()
    ensures
        NO_ERROR_DIALOGS == SEM_FAILCRITICALERRORS | SEM_NOGPFAULTERRORBOX | SEM_NOOPENFILEERRORBOX,
{
    assert(0x8003u32 == 0x0001u32 | 0x0002u32 | 0x8000u32) by (bit_vector);
}

/// The error mode that is in force once `call` has been performed, as this
/// library takes the operating system to behave: a call that sets the mode
/// puts it in force, any other call leaves the mode as it was.
pub open spec fn error_mode_after(mode: u32, call: Syscall) -> u32 {
    match call {
        Syscall::SetErrorMode(new_mode) => new_mode,
        _ => mode,
    }
}

/// Suppressing the dialogs and then setting the mode that the first call
/// returned leaves the error mode as it was before.
pub proof fn lemma_error_mode_round_trip(target: Target, before: u32)
    requires
        target.has_error_mode(),
    ensures
        ({
            let suppress = error_mode_call(
                target,
                NO_ERROR_DIALOGS,
                "suppress_windows_error_dialogs_for_process unsupported on this platform",
            );
            let restore = error_mode_call(
                target,
                before,
                "set_windows_error_mode unsupported on this platform",
            );
            &&& suppress matches Ok(first)
            &&& restore matches Ok(second)
            &&& error_mode_after(before, first) == NO_ERROR_DIALOGS
            &&& error_mode_after(error_mode_after(before, first), second) == before
        }),
{
}

} // verus!
