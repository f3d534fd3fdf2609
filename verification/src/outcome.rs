//! The three results an operation can have, and the classifier that turns the
//! reply of a platform call into one of them.

use vstd::prelude::*;
use crate::platform::Target;

verus! {

/// Why an operation did not succeed.
///
/// Together with `Ok` this makes three results: success, `Os`, `Unsupported`.
/// `Unsupported` is no fault: the protection is absent and the caller goes on
/// without it.
#[derive(Clone, Copy, Debug, PartialEq, Eq)]
pub enum LockError {
    /// The operating system rejected the call. The payload is the error code
    /// that the process recorded last.
    Os(i32),
    /// The platform has no such facility. The payload says which feature is absent.
    Unsupported(&'static str),
}

/// What a platform call handed back: its return code, and the error code that
/// the process recorded last when the call returned.
#[derive(Clone, Copy, Debug, PartialEq, Eq, Structural)]
pub struct Reply {
    pub rc: i32,
    pub os_error: i32,
}

/// The operation succeeded.
pub open spec fn is_success<T>(r: Result<T, LockError>) -> bool {
    r is Ok
}

/// The operating system rejected the operation.
pub open spec fn is_failure<T>(r: Result<T, LockError>) -> bool {
    r matches Err(LockError::Os(_))
}

/// The platform does not offer the operation.
pub open spec fn is_unsupported<T>(r: Result<T, LockError>) -> bool {
    r matches Err(LockError::Unsupported(_))
}

/// The result that the reply of a call stands for on `target`: success where the
/// return code reports it, else the failure with the recorded error code.
pub open spec fn classified(target: Target, reply: Reply) -> Result<(), LockError> {
    if target.accepts(reply.rc) {
        Ok(())
    } else {
        Err(LockError::Os(reply.os_error))
    }
}

impl LockError {
    /// Whether the error says that the platform lacks the facility.
    pub fn is_unsupported(&self) -> (b: bool)
        ensures
            b == (*self is Unsupported),
    {
        match self {
            LockError::Unsupported(_) => true,
            LockError::Os(_) => false,
        }
    }

    /// The operating system's error code, where the error carries one.
    pub fn raw_os_error(&self) -> (code: Option<i32>)
        ensures
            code == (match *self {
                LockError::Os(c) => Some(c),
                LockError::Unsupported(_) => None::<i32>,
            }),
    {
        match self {
            LockError::Os(c) => Some(*c),
            LockError::Unsupported(_) => None,
        }
    }

    /// The name of the absent feature, where the error is `Unsupported`.
    pub fn reason(&self) -> (msg: Option<&'static str>)
        ensures
            msg == (match *self {
                LockError::Os(_) => None::<&'static str>,
                LockError::Unsupported(m) => Some(m),
            }),
    {
        match self {
            LockError::Os(_) => None,
            LockError::Unsupported(m) => Some(*m),
        }
    }
}

/// Reports that a feature is absent on this platform: the result of an
/// operation that the platform does not offer, whatever the operation would
/// have handed back.
pub fn unsupported<T>(msg: &'static str) -> (r: Result<T, LockError>)
    ensures
        r == Err::<T, LockError>(LockError::Unsupported(msg)),
{
    Err(LockError::Unsupported(msg))
}

/// Turns the reply of a platform call into a result.
///
/// A reply never becomes `Unsupported`, and a failure always carries the error
/// code of the reply.
pub fn classify(target: Target, reply: Reply) -> (r: Result<(), LockError>)
    ensures
        r == classified(target, reply),
        r is Ok <==> target.accepts(reply.rc),
        r is Err ==> r == Err::<(), LockError>(LockError::Os(reply.os_error)),
        !is_unsupported(r),
{
    if target.accepts(reply.rc) {
        Ok(())
    } else {
        Err(LockError::Os(reply.os_error))
    }
}

/// Every result is exactly one of success, failure and unsupported.
pub proof fn lemma_three_results<T>(r: Result<T, LockError>)
    ensures
        is_success(r) || is_failure(r) || is_unsupported(r),
        !(is_success(r) && is_failure(r)),
        !(is_success(r) && is_unsupported(r)),
        !(is_failure(r) && is_unsupported(r)),
{
}

/// A reply is classified as success or as failure, never as unsupported, on
/// every target.
pub proof fn lemma_classified_is_not_unsupported(target: Target, reply: Reply)
    ensures
        is_success(classified(target, reply)) || is_failure(classified(target, reply)),
        !is_unsupported(classified(target, reply)),
{
}

} // verus!
