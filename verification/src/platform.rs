//! The targets that the primitives tell apart, and what each of them offers.

use vstd::prelude::*;

verus! {

/// A family of targets. Exactly one family is in force for a build.
#[derive(Clone, Copy, Debug, PartialEq, Eq, Structural)]
pub enum Family {
    /// Unix-like systems: `mlock`, `munlock`, and on some kernels more.
    Unix,
    /// Windows: `VirtualLock`, `VirtualUnlock`, `SetErrorMode`.
    Windows,
    /// Everything else: no facility at all.
    Fallback,
}

/// The target a build is made for, as far as the primitives care.
#[derive(Clone, Copy, Debug, PartialEq, Eq, Structural)]
pub enum Target {
    Linux,
    FreeBsd,
    MacOs,
    /// A Unix-like system other than the three above.
    OtherUnix,
    Windows,
    /// A target outside the Unix-like and Windows families.
    Other,
}

/// The hint by which a kernel is asked to leave a region out of core dumps.
#[derive(Clone, Copy, Debug, PartialEq, Eq, Structural)]
pub enum Advice {
    /// `MADV_DONTDUMP`, the hint of Linux.
    DontDump,
    /// `MADV_NOCORE`, the hint of FreeBSD.
    NoCore,
}

impl Target {
    /// The family this target belongs to.
    #[verifier::allow_in_spec]
    pub fn family(self) -> Family
        returns
            (match self {
                Target::Windows => Family::Windows,
                Target::Other => Family::Fallback,
                _ => Family::Unix,
            }),
    {
        match self {
            Target::Windows => Family::Windows,
            Target::Other => Family::Fallback,
            _ => Family::Unix,
        }
    }

    /// Whether regions can be pinned and unpinned: on every family but the fallback.
    #[verifier::allow_in_spec]
    pub fn can_lock(self) -> bool
        returns
            self != Target::Other,
    {
        match self {
            Target::Other => false,
            _ => true,
        }
    }

    /// The dump-exclusion hint of this target's kernel, if it has one.
    #[verifier::allow_in_spec]
    pub fn dump_advice(self) -> Option<Advice>
        returns
            (match self {
                Target::Linux => Some(Advice::DontDump),
                Target::FreeBsd => Some(Advice::NoCore),
                _ => None,
            }),
    {
        match self {
            Target::Linux => Some(Advice::DontDump),
            Target::FreeBsd => Some(Advice::NoCore),
            _ => None,
        }
    }

    /// Whether the process-wide limit on the size of core dumps can be lowered here.
    #[verifier::allow_in_spec]
    pub fn has_core_limit(self) -> bool
        returns
            self == Target::MacOs,
    {
        match self {
            Target::MacOs => true,
            _ => false,
        }
    }

    /// Whether the process-wide error mode exists here.
    #[verifier::allow_in_spec]
    pub fn has_error_mode(self) -> bool
        returns
            self == Target::Windows,
    {
        match self {
            Target::Windows => true,
            _ => false,
        }
    }

    /// Whether `rc`, returned by a call of this target's family, reports success.
    /// Windows calls report success by a non-zero value; all others by zero.
    #[verifier::allow_in_spec]
    pub fn accepts(self, rc: i32) -> bool
        returns
            (if self == Target::Windows { rc != 0 } else { rc == 0 }),
    {
        match self {
            Target::Windows => rc != 0,
            _ => rc == 0,
        }
    }
}

} // verus!
