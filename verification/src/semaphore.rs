//! Decisions of the named-semaphore protocol.
//!
//! Both the mutex and the counter are named semaphores opened with the
//! same create-or-attach discipline: an exclusive create first, then, if
//! the name already exists, a plain open of the existing object. The
//! mutex is locked with a bounded wait so that a crashed holder surfaces
//! as a timeout error instead of a deadlock, and the counter is
//! decremented with a non-blocking wait that treats an already-zero
//! counter as a no-op. This module computes each of those decisions.

use vstd::prelude::*;

use crate::error::Error;
use crate::host::eagain_errno;
use crate::host::eagain_errno_of;
use crate::host::HostOs;
use crate::host::EEXIST_ERRNO;

verus! {

/// The bound, in seconds, on waiting for the mutex.
pub const LOCK_TIMEOUT_SECS: i64 = 5;

/// The initial semaphore value of a mutex created by the winner of the
/// create race: 0 when it starts out locked, 1 when unlocked.
pub fn mutex_init_value(init_locked: bool) -> (r: u32)
    ensures
        init_locked ==> r == 0,
        !init_locked ==> r == 1,
    {
    if init_locked {
        0
    } else {
        1
    }
}

/// What to do after the exclusive-create open of a named object.
#[derive(Clone, Copy, PartialEq, Eq, Structural, Debug)]
pub enum ExclOpenNext {
    /// The exclusive create succeeded: this process is the creator.
    UseCreated,
    /// The name already exists: attach with a plain open.
    TryPlainOpen,
    /// The create failed for any other reason: surface the error.
    Fail,
}

/// The create-or-attach decision, from the outcome of the exclusive
/// create and the `errno` it reported on failure.
pub fn excl_open_next(create_failed: bool, errno: i32) -> (r: ExclOpenNext)
    ensures
        !create_failed ==> r == ExclOpenNext::UseCreated,
        create_failed && errno == EEXIST_ERRNO ==> r == ExclOpenNext::TryPlainOpen,
        create_failed && errno != EEXIST_ERRNO ==> r == ExclOpenNext::Fail,
    {
    if !create_failed {
        ExclOpenNext::UseCreated
    } else if errno == EEXIST_ERRNO {
        ExclOpenNext::TryPlainOpen
    } else {
        ExclOpenNext::Fail
    }
}

/// The absolute deadline for a bounded mutex wait that starts at the
/// given wall-clock second.
pub fn lock_deadline(now_secs: i64) -> (r: i64)
    requires
        now_secs <= i64::MAX - LOCK_TIMEOUT_SECS,
    ensures
        r == now_secs + LOCK_TIMEOUT_SECS,
    {
    now_secs + LOCK_TIMEOUT_SECS
}

/// How a counter decrement ended.
#[derive(Clone, Copy, PartialEq, Eq, Structural, Debug)]
pub enum DecrementOutcome {
    /// The non-blocking wait succeeded: the counter went down by one.
    Decremented,
    /// The counter was already zero: a late detach after the unlink,
    /// tolerated as a no-op.
    AlreadyZero,
}

/// The result of a counter decrement, from the outcome of the
/// non-blocking semaphore wait and the `errno` it reported on failure.
/// A wait that would have blocked means the counter was already zero,
/// which is success; any other failure is a semaphore error carrying
/// that `errno`.
pub fn decrement_result(os: HostOs, wait_failed: bool, errno: i32, message: String) -> (r: Result<
    DecrementOutcome,
    Error,
>)
    ensures
        !wait_failed ==> r == Ok::<DecrementOutcome, Error>(DecrementOutcome::Decremented),
        wait_failed && errno == eagain_errno_of(os) ==> r == Ok::<DecrementOutcome, Error>(
            DecrementOutcome::AlreadyZero,
        ),
        wait_failed && errno != eagain_errno_of(os) ==> (r matches Err(e) && e
            matches Error::SemaphoreError(en, m) && en == errno && m@ == message@),
    {
    if !wait_failed {
        Ok(DecrementOutcome::Decremented)
    } else if errno == eagain_errno(os) {
        Ok(DecrementOutcome::AlreadyZero)
    } else {
        Err(Error::sem_error(errno, message))
    }
}

} // verus!
