//! The process-wide policy on core dumps: lowering it, and the guard that
//! brings the previous policy back.
//!
//! Lowering takes two calls. The current limit is read first, so that the hard
//! limit can be kept; then the soft limit is set to zero. A guard holds the
//! limit that was read and asks for it to be set again when it is released.

use vstd::prelude::*;
use crate::diagnostic::Diagnostic;
use crate::outcome::{classified, classify, unsupported, LockError, Reply};
use crate::platform::Target;
use crate::syscall::{CoreLimit, Syscall};

verus! {

/// The limit under which no core dump is written: the soft limit is zero, the
/// hard limit stays as it is.
pub open spec fn lowered(current: CoreLimit) -> CoreLimit {
    CoreLimit { soft: 0, hard: current.hard }
}

/// How lowering the policy starts: with reading the current limit, where the
/// target has such a limit, and nowhere else.
pub open spec fn first_call(target: Target, reason: &'static str) -> Result<Syscall, LockError> {
    if target.has_core_limit() {
        Ok(Syscall::GetCoreLimit)
    } else {
        Err(LockError::Unsupported(reason))
    }
}

/// Starts to disable core dumps for the process.
///
/// Where the target has a limit on core dumps, the caller performs the call
/// that reads it and goes on with `lower_core_limit`; elsewhere the operation
/// ends as unsupported.
pub fn disable_core_dumps_for_process(target: Target) -> (call: Result<Syscall, LockError>)
    ensures
        call == first_call(target, "disable_core_dumps_for_process unsupported on this platform"),
        target.has_core_limit() ==> call == Ok::<Syscall, LockError>(Syscall::GetCoreLimit),
        !target.has_core_limit() ==> (call matches Err(LockError::Unsupported(msg)) && msg@.len()
            > 0),
{
    if target.has_core_limit() {
        Ok(Syscall::GetCoreLimit)
    } else {
        proof {
            reveal_strlit("disable_core_dumps_for_process unsupported on this platform");
        }
        unsupported("disable_core_dumps_for_process unsupported on this platform")
    }
}

/// Starts to disable core dumps for the process, with a guard to come.
///
/// Where the target has a limit on core dumps, the caller performs the call
/// that reads it and goes on with `lower_core_limit`; elsewhere the operation
/// ends as unsupported and no guard is ever made.
pub fn disable_core_dumps_with_guard(target: Target) -> (call: Result<Syscall, LockError>)
    ensures
        call == first_call(target, "disable_core_dumps_with_guard unsupported on this platform"),
        target.has_core_limit() ==> call == Ok::<Syscall, LockError>(Syscall::GetCoreLimit),
        !target.has_core_limit() ==> (call matches Err(LockError::Unsupported(msg)) && msg@.len()
            > 0),
{
    if target.has_core_limit() {
        Ok(Syscall::GetCoreLimit)
    } else {
        proof {
            reveal_strlit("disable_core_dumps_with_guard unsupported on this platform");
        }
        unsupported("disable_core_dumps_with_guard unsupported on this platform")
    }
}

/// The limit that was read, while the lowered limit is being set.
#[derive(Debug)]
pub struct Lowering {
    old: CoreLimit,
}

impl View for Lowering {
    type V = CoreLimit;

    /// The limit that was read.
    closed spec fn view(&self) -> CoreLimit {
        self.old
    }
}

/// The two states of a guard.
#[derive(Clone, Copy, Debug, PartialEq, Eq, Structural)]
pub enum GuardState {
    /// The policy was lowered; the guard holds the limit that was in force before.
    Active(CoreLimit),
    /// The guard has asked for the previous limit to be set again.
    Released,
}

/// Holds the limit on core dumps that was in force before they were disabled,
/// and asks for it to be set again when released.
#[derive(Debug)]
pub struct CoreDumpsDisabledGuard {
    old: CoreLimit,
    active: bool,
}

impl View for CoreDumpsDisabledGuard {
    type V = GuardState;

    /// The state of the guard, with the limit it holds while it is active.
    closed spec fn view(&self) -> GuardState {
        if self.active {
            GuardState::Active(self.old)
        } else {
            GuardState::Released
        }
    }
}

/// The outcome of reading the limit: the limit that was read, where the call
/// succeeded, else the failure.
pub open spec fn snapshot_taken(target: Target, reply: Reply, current: CoreLimit) -> Result<
    CoreLimit,
    LockError,
> {
    match classified(target, reply) {
        Ok(()) => Ok(current),
        Err(e) => Err(e),
    }
}

/// The outcome of setting the lowered limit: an active guard that holds `old`,
/// where the call succeeded, else the failure.
pub open spec fn guard_acquired(target: Target, old: CoreLimit, reply: Reply) -> Result<
    GuardState,
    LockError,
> {
    match classified(target, reply) {
        Ok(()) => Ok(GuardState::Active(old)),
        Err(e) => Err(e),
    }
}

/// The call that releasing a guard in `state` asks for: setting the limit that
/// an active guard holds, and nothing for a released one.
pub open spec fn release_call(state: GuardState) -> Option<Syscall> {
    match state {
        GuardState::Active(old) => Some(Syscall::SetCoreLimit(old)),
        GuardState::Released => None,
    }
}

/// The second step of lowering the policy, taken when the reply to
/// `Syscall::GetCoreLimit` is in. `current` is the limit that the call read.
///
/// Where the call failed, the operation ends with that failure: nothing was
/// changed and nothing more is asked for.
pub fn lower_core_limit(target: Target, reply: Reply, current: CoreLimit) -> (r: Result<
    Lowering,
    LockError,
>)
    ensures
        match r {
            Ok(lowering) => snapshot_taken(target, reply, current) == Ok::<CoreLimit, LockError>(
                lowering@,
            ),
            Err(e) => snapshot_taken(target, reply, current) == Err::<CoreLimit, LockError>(e),
        },
        r is Ok <==> target.accepts(reply.rc),
        r matches Ok(lowering) ==> lowering@ == current,
        r matches Err(e) ==> e == LockError::Os(reply.os_error),
{
    match classify(target, reply) {
        Ok(()) => Ok(Lowering { old: current }),
        Err(e) => Err(e),
    }
}

impl Lowering {
    /// The call to perform next: setting the lowered limit.
    pub fn request(&self) -> (call: Syscall)
        ensures
            call == Syscall::SetCoreLimit(lowered(self@)),
    {
        Syscall::SetCoreLimit(CoreLimit { soft: 0, hard: self.old.hard })
    }

    /// Ends the operation without a guard, when the reply to `request` is in.
    pub fn finish(self, target: Target, reply: Reply) -> (r: Result<(), LockError>)
        ensures
            r == classified(target, reply),
    {
        classify(target, reply)
    }

    /// Ends the operation with a guard, when the reply to `request` is in.
    ///
    /// Where the call succeeded, the guard is active and holds the limit that
    /// was read. Where it failed, no guard is made: the limit was not changed.
    pub fn finish_with_guard(self, target: Target, reply: Reply) -> (r: Result<
        CoreDumpsDisabledGuard,
        LockError,
    >)
        ensures
            match r {
                Ok(guard) => guard_acquired(target, self@, reply) == Ok::<GuardState, LockError>(
                    guard@,
                ),
                Err(e) => guard_acquired(target, self@, reply) == Err::<GuardState, LockError>(e),
            },
            r is Ok <==> target.accepts(reply.rc),
            r matches Ok(guard) ==> guard@ == GuardState::Active(self@),
            r matches Err(e) ==> e == LockError::Os(reply.os_error),
    {
        match classify(target, reply) {
            Ok(()) => Ok(CoreDumpsDisabledGuard { old: self.old, active: true }),
            Err(e) => Err(e),
        }
    }
}

impl CoreDumpsDisabledGuard {
    /// Whether the guard still has to bring the previous limit back.
    pub fn is_active(&self) -> (b: bool)
        ensures
            b == (self@ is Active),
    {
        self.active
    }

    /// The limit that an active guard holds.
    pub fn snapshot(&self) -> (old: Option<CoreLimit>)
        ensures
            old == (match self@ {
                GuardState::Active(limit) => Some(limit),
                GuardState::Released => None::<CoreLimit>,
            }),
    {
        if self.active {
            Some(self.old)
        } else {
            None
        }
    }

    /// Releases the guard. An active guard asks for the limit it holds to be
    /// set again, and is released from then on; a released guard asks for
    /// nothing. So the call is asked for exactly once.
    pub fn release(&mut self) -> (call: Option<Syscall>)
        ensures
            call == release_call(old(self)@),
            final(self)@ == GuardState::Released,
    {
        if self.active {
            self.active = false;
            Some(Syscall::SetCoreLimit(self.old))
        } else {
            None
        }
    }
}

/// What there is to report when the reply to a guard's release is in: a
/// failure to bring the previous limit back, which is reported and goes no
/// further.
pub fn restore_completed(target: Target, reply: Reply) -> (report: Option<Diagnostic>)
    ensures
        report == (if target.accepts(reply.rc) {
            None::<Diagnostic>
        } else {
            Some(Diagnostic::RestoreFailed(reply.os_error))
        }),
{
    match classify(target, reply) {
        Ok(()) => None,
        Err(_) => Some(Diagnostic::RestoreFailed(reply.os_error)),
    }
}

/// The limit on core dumps that is in force once `call` has been performed and
/// answered with `reply`, as this library takes the operating system to behave:
/// an accepted call that sets the limit puts that limit in force; any other
/// call, and a rejected one, leaves the limit as it was.
pub open spec fn policy_after(
    target: Target,
    policy: CoreLimit,
    call: Syscall,
    reply: Reply,
) -> CoreLimit {
    match call {
        Syscall::SetCoreLimit(limit) => if target.accepts(reply.rc) {
            limit
        } else {
            policy
        },
        _ => policy,
    }
}

/// Making a guard is all or nothing. `before` is the limit in force, which
/// is what reading it yields; `read` is the reply to reading it, `lower` the
/// reply to setting the lowered limit.
///
/// Where reading fails, the failure is the result. Where reading succeeds, the
/// limit held from then on is `before`; if setting the lowered limit then
/// fails, that failure is the result and the limit in force is still `before`;
/// if it succeeds, the guard is active, holds `before`, and the limit in force
/// is `before` with its soft limit at zero.
pub proof fn lemma_guard_is_all_or_nothing(
    target: Target,
    before: CoreLimit,
    read: Reply,
    lower: Reply,
)
    ensures
        match snapshot_taken(target, read, before) {
            Err(e) => e == LockError::Os(read.os_error),
            Ok(old) => {
                let call = Syscall::SetCoreLimit(lowered(old));
                &&& old == before
                &&& match guard_acquired(target, old, lower) {
                    Err(e) => {
                        &&& e == LockError::Os(lower.os_error)
                        &&& policy_after(target, before, call, lower) == before
                    },
                    Ok(state) => {
                        &&& state == GuardState::Active(before)
                        &&& policy_after(target, before, call, lower) == (CoreLimit {
                            soft: 0,
                            hard: before.hard,
                        })
                    },
                }
            },
        },
{
}

/// A guard that was made with success and is then released leaves the limit on
/// core dumps as it was before the guard was made, provided the operating
/// system accepts the call that the release asks for. Released once, the guard
/// asks for nothing more.
pub proof fn lemma_guard_round_trip(
    target: Target,
    before: CoreLimit,
    read: Reply,
    lower: Reply,
    restore: Reply,
)
    requires
        snapshot_taken(target, read, before) is Ok,
        guard_acquired(target, before, lower) is Ok,
        target.accepts(restore.rc),
    ensures
        ({
            let old = snapshot_taken(target, read, before)->Ok_0;
            let state = guard_acquired(target, old, lower)->Ok_0;
            let lowered_policy = policy_after(
                target,
                before,
                Syscall::SetCoreLimit(lowered(old)),
                lower,
            );
            &&& release_call(state) matches Some(call)
            &&& policy_after(target, lowered_policy, call, restore) == before
            &&& release_call(GuardState::Released) is None
        }),
{
}

/// Releasing a guard brings back the limit that was read when the guard was
/// made, whatever limit is in force at the time of the release: the guard does
/// not merely switch core dumps back on.
pub proof fn lemma_release_restores_snapshot(
    target: Target,
    before: CoreLimit,
    lower: Reply,
    meanwhile: CoreLimit,
    restore: Reply,
)
    requires
        guard_acquired(target, before, lower) is Ok,
        target.accepts(restore.rc),
    ensures
        ({
            let state = guard_acquired(target, before, lower)->Ok_0;
            &&& release_call(state) == Some(Syscall::SetCoreLimit(before))
            &&& policy_after(target, meanwhile, release_call(state)->Some_0, restore) == before
        }),
{
}

} // verus!
