use os_memlock::{
    advise_completed, classify, unlock_completed, Advice, Diagnostic, LockError, LockedVec,
    Region, Reply, Step, Syscall, Target,
};

const ENOMEM: i32 = 12;
const EINVAL: i32 = 22;

fn settle(target: Target, step: Step, reply: Reply) -> Result<(), LockError> {
    match step {
        Step::Done(result) => result,
        Step::Call(_) => classify(target, reply),
    }
}

#[test]
fn new_buffer_is_zero_filled_and_unpinned() {
    let buffer = LockedVec::new(4096);
    assert_eq!(buffer.len(), 4096);
    assert!(!buffer.is_locked());
    assert!(buffer.as_slice().iter().all(|b| *b == 0));
    let empty = LockedVec::new(0);
    assert_eq!(empty.len(), 0);
    assert!(empty.as_slice().is_empty());
}

#[test]
fn buffer_asks_to_be_pinned_over_its_full_extent() {
    let buffer = LockedVec::new(4096);
    assert_eq!(
        buffer.lock_step(Target::Linux, 0x5000),
        Step::Call(Syscall::Lock(Region { addr: 0x5000, len: 4096 }))
    );
    assert_eq!(
        buffer.lock_step(Target::Other, 0x5000),
        Step::Done(Err(LockError::Unsupported("mlock unsupported on this platform")))
    );
    assert_eq!(LockedVec::new(0).lock_step(Target::Other, 0x5000), Step::Done(Ok(())));
}

#[test]
fn successful_lock_pins_the_buffer() {
    let mut buffer = LockedVec::new(16);
    assert_eq!(buffer.lock_completed(Ok(())), Ok(None));
    assert!(buffer.is_locked());
    assert_eq!(buffer.len(), 16);
}

#[test]
fn unsupported_lock_leaves_the_buffer_unpinned() {
    let mut buffer = LockedVec::new(16);
    let step = buffer.lock_step(Target::Other, 0x5000);
    let outcome = settle(Target::Other, step, Reply { rc: 0, os_error: 0 });
    assert_eq!(buffer.lock_completed(outcome), Ok(Some(Diagnostic::LockUnsupported)));
    assert!(!buffer.is_locked());
    assert_eq!(buffer.len(), 16);
    assert_eq!(
        Diagnostic::LockUnsupported.message(),
        "os-memlock: mlock unsupported on this platform/build; continuing unlocked"
    );
    assert_eq!(Diagnostic::LockUnsupported.os_error(), None);
}

#[test]
fn rejected_lock_of_one_mebibyte_fails_the_construction() {
    let len = 1usize << 20;
    let mut buffer = LockedVec::new(len);
    let step = buffer.lock_step(Target::Linux, 0x10_0000);
    assert_eq!(step, Step::Call(Syscall::Lock(Region { addr: 0x10_0000, len })));
    let outcome = settle(Target::Linux, step, Reply { rc: -1, os_error: ENOMEM });
    assert_eq!(outcome, Err(LockError::Os(ENOMEM)));
    assert_eq!(buffer.lock_completed(outcome), Err(LockError::Os(ENOMEM)));
    assert!(!buffer.is_locked());
    assert!(buffer.as_slice().iter().all(|b| *b == 0));
    // Nothing is pinned, so tearing down asks for nothing.
    assert_eq!(buffer.teardown(Target::Linux, 0x10_0000), Step::Done(Ok(())));
}

#[test]
fn rejected_lock_wipes_what_was_written() {
    let mut buffer = LockedVec::new(8);
    buffer.as_mut_slice().copy_from_slice(b"secret!!");
    assert_eq!(buffer.lock_completed(Err(LockError::Os(EINVAL))), Err(LockError::Os(EINVAL)));
    assert_eq!(buffer.as_slice(), &[0u8; 8]);
    assert_eq!(buffer.len(), 8);
}

#[test]
fn bytes_are_written_through_the_mutable_view() {
    let mut buffer = LockedVec::new(32);
    let demo = b"super-secret-demo";
    buffer.as_mut_slice()[..demo.len()].copy_from_slice(demo);
    assert_eq!(&buffer.as_slice()[..demo.len()], demo);
    assert!(buffer.as_slice()[demo.len()..].iter().all(|b| *b == 0));
    assert_eq!(buffer.len(), 32);
}

#[test]
fn hint_is_asked_for_only_when_pinned_and_offered() {
    let mut buffer = LockedVec::new(64);
    assert_eq!(buffer.advise_step(Target::Linux, 0x9000), Step::Done(Ok(())));
    buffer.lock_completed(Ok(())).unwrap();
    assert_eq!(
        buffer.advise_step(Target::Linux, 0x9000),
        Step::Call(Syscall::Advise(Region { addr: 0x9000, len: 64 }, Advice::DontDump))
    );
    assert_eq!(
        buffer.advise_step(Target::FreeBsd, 0x9000),
        Step::Call(Syscall::Advise(Region { addr: 0x9000, len: 64 }, Advice::NoCore))
    );
    for target in [Target::MacOs, Target::OtherUnix, Target::Windows, Target::Other] {
        assert_eq!(buffer.advise_step(target, 0x9000), Step::Done(Ok(())));
    }
}

#[test]
fn hint_trouble_is_only_reported() {
    assert_eq!(advise_completed(Ok(())), None);
    assert_eq!(advise_completed(Err(LockError::Os(EINVAL))), Some(Diagnostic::AdviseFailed(22)));
    assert_eq!(
        advise_completed(Err(LockError::Unsupported("x"))),
        Some(Diagnostic::AdviseUnsupported)
    );
    assert_eq!(
        Diagnostic::AdviseFailed(22).message(),
        "os-memlock: madvise(MADV_DONTDUMP) failed"
    );
    assert_eq!(Diagnostic::AdviseFailed(22).os_error(), Some(22));
    assert_eq!(
        Diagnostic::AdviseUnsupported.message(),
        "os-memlock: dump exclusion unsupported on this platform/build"
    );
}

#[test]
fn teardown_wipes_a_pinned_buffer_and_asks_to_unpin() {
    let mut buffer = LockedVec::new(16);
    buffer.lock_completed(Ok(())).unwrap();
    buffer.as_mut_slice().copy_from_slice(b"0123456789abcdef");
    let step = buffer.teardown(Target::Linux, 0x3000);
    assert_eq!(step, Step::Call(Syscall::Unlock(Region { addr: 0x3000, len: 16 })));
    assert_eq!(buffer.as_slice(), &[0u8; 16]);
    assert!(!buffer.is_locked());
    assert_eq!(buffer.len(), 16);
}

#[test]
fn teardown_wipes_an_unpinned_buffer_and_asks_for_nothing() {
    let mut buffer = LockedVec::new(16);
    buffer.lock_completed(Err(LockError::Unsupported("mlock unsupported on this platform")))
        .unwrap();
    buffer.as_mut_slice().copy_from_slice(b"0123456789abcdef");
    let step = buffer.teardown(Target::Other, 0x3000);
    assert_eq!(step, Step::Done(Ok(())));
    assert_eq!(buffer.as_slice(), &[0u8; 16]);
    assert!(!buffer.is_locked());
}

#[test]
fn teardown_asks_to_unpin_once() {
    let mut buffer = LockedVec::new(4);
    buffer.lock_completed(Ok(())).unwrap();
    assert_eq!(
        buffer.teardown(Target::MacOs, 0x40),
        Step::Call(Syscall::Unlock(Region { addr: 0x40, len: 4 }))
    );
    assert_eq!(buffer.teardown(Target::MacOs, 0x40), Step::Done(Ok(())));
}

#[test]
fn teardown_of_an_empty_pinned_buffer_makes_no_call() {
    let mut buffer = LockedVec::new(0);
    assert_eq!(buffer.lock_step(Target::Linux, 0x40), Step::Done(Ok(())));
    buffer.lock_completed(Ok(())).unwrap();
    assert!(buffer.is_locked());
    assert_eq!(buffer.teardown(Target::Linux, 0x40), Step::Done(Ok(())));
    assert!(!buffer.is_locked());
}

#[test]
fn unlock_trouble_at_teardown_is_only_reported() {
    assert_eq!(unlock_completed(Ok(())), None);
    assert_eq!(unlock_completed(Err(LockError::Os(ENOMEM))), Some(Diagnostic::UnlockFailed(12)));
    assert_eq!(unlock_completed(Err(LockError::Unsupported("x"))), None);
    assert_eq!(Diagnostic::UnlockFailed(12).message(), "os-memlock: munlock failed");
    assert_eq!(Diagnostic::UnlockFailed(12).os_error(), Some(12));
}
