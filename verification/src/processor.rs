//! The lock state machine: creating a lock, reaching a stored lock, and the
//! time gate in front of its secret.
//!
//! A lock is in one of two states, and which one depends only on the clock:
//! locked while the current time is before the unlock timestamp, unlockable
//! from the timestamp on. Nothing is stored when the state changes, so the
//! gate is evaluated anew on every attempt.

use crate::account::{LockView, TimeLockAccount, SECRET_LENGTH};
use crate::error::{CreateError, UnlockError};
use vstd::prelude::*;

verus! {

/// Number of bytes in the identity of an authority.
pub const KEY_LENGTH: usize = 32;

/// The result of an unlock attempt.
#[derive(Debug)]
pub enum UnlockOutcome {
    /// The unlock time has been reached: the secret.
    Disclosed([u8; SECRET_LENGTH]),
    /// The unlock time lies ahead: the timestamp from which the secret is disclosed.
    StillLocked(i64),
}

/// What an unlock attempt results in.
pub enum OutcomeView {
    Disclosed(Seq<u8>),
    StillLocked(i64),
}

impl View for UnlockOutcome {
    type V = OutcomeView;

    open spec fn view(&self) -> OutcomeView {
        match *self {
            UnlockOutcome::Disclosed(secret) => OutcomeView::Disclosed(secret@),
            UnlockOutcome::StillLocked(timestamp) => OutcomeView::StillLocked(timestamp),
        }
    }
}

/// Whether the secret of `lock` is disclosed at time `now`.
pub open spec fn unlockable(lock: LockView, now: i64) -> bool {
    now >= lock.timestamp
}

/// The time gate: what an unlock attempt on `lock` at time `now` results in.
pub open spec fn gate(lock: LockView, now: i64) -> OutcomeView {
    if unlockable(lock, now) {
        OutcomeView::Disclosed(lock.secret)
    } else {
        OutcomeView::StillLocked(lock.timestamp)
    }
}

/// A lock that is created at time `now` is locked at that time: an attempt
/// made at once gives no secret.
pub proof fn lemma_created_lock_is_locked(lock: LockView, now: i64)
    requires
        now < lock.timestamp,
    ensures
        gate(lock, now) == OutcomeView::StillLocked(lock.timestamp),
{
}

/// The secret is disclosed exactly from the unlock timestamp on: before it every attempt
/// finds the lock still locked, and from it on, the timestamp itself
/// included, every attempt discloses the secret that was stored.
pub proof fn lemma_gate_opens_at_timestamp(lock: LockView, now: i64)
    ensures
        now < lock.timestamp ==> gate(lock, now) == OutcomeView::StillLocked(lock.timestamp),
        now >= lock.timestamp ==> gate(lock, now) == OutcomeView::Disclosed(lock.secret),
        gate(lock, lock.timestamp) == OutcomeView::Disclosed(lock.secret),
{
}

/// Once a lock is unlockable it stays so: no later attempt finds it locked.
pub proof fn lemma_unlock_is_permanent(lock: LockView, earlier: i64, later: i64)
    requires
        earlier <= later,
        unlockable(lock, earlier),
    ensures
        unlockable(lock, later),
        gate(lock, later) == gate(lock, earlier),
{
}

/// Creates a lock at time `now` that discloses `secret` from `timestamp` on.
/// The timestamp has to lie strictly in the future.
pub fn initialize_time_lock(now: i64, timestamp: i64, secret: [u8; SECRET_LENGTH]) -> (r: Result<
    TimeLockAccount,
    CreateError,
>)
    ensures
        match r {
            Ok(account) => now < timestamp && account@ == (LockView { timestamp, secret: secret@ }),
            Err(e) => now >= timestamp && e == CreateError::TimestampNotInFuture,
        },
{
    if now >= timestamp {
        return Err(CreateError::TimestampNotInFuture);
    }
    Ok(TimeLockAccount::new(timestamp, secret))
}

/// Evaluates the time gate of a lock at time `now`. The lock is not changed.
pub fn try_unlock(account: &TimeLockAccount, now: i64) -> (outcome: UnlockOutcome)
    ensures
        outcome@ == gate(account@, now),
        now >= account@.timestamp ==> outcome@ == OutcomeView::Disclosed(account@.secret),
        now < account@.timestamp ==> outcome@ == OutcomeView::StillLocked(account@.timestamp),
{
    if now >= account.timestamp() {
        UnlockOutcome::Disclosed(account.secret())
    } else {
        UnlockOutcome::StillLocked(account.timestamp())
    }
}

/// Whether two identities are the same.
fn same_key(a: &[u8; KEY_LENGTH], b: &[u8; KEY_LENGTH]) -> (same: bool)
    ensures
        same == (a@ == b@),
{
    let mut i: usize = 0;
    while i < KEY_LENGTH
        invariant
            i <= KEY_LENGTH,
            forall|j: int| 0 <= j < i ==> a@[j] == b@[j],
        decreases KEY_LENGTH - i,
    {
        if a[i] != b[i] {
            return false;
        }
        i += 1;
    }
    assert(a@ =~= b@);
    true
}

/// The stored lock that an unlock attempt is made on: the record that `data`
/// holds, provided that `owner`, the authority that holds the stored bytes,
/// is `program_id`, the expected one. The owner is looked at first.
pub open spec fn stored_lock(program_id: Seq<u8>, owner: Seq<u8>, data: Seq<u8>) -> Result<
    LockView,
    UnlockError,
> {
    if owner != program_id {
        Err(UnlockError::IncorrectOwner)
    } else {
        match crate::account::parse_account(data) {
            Some(lock) => Ok(lock),
            None => Err(UnlockError::DeserializationFailure),
        }
    }
}

/// Reaches a stored lock: checks who holds the stored bytes, then reads the
/// record from them.
pub fn open_account(program_id: &[u8; KEY_LENGTH], owner: &[u8; KEY_LENGTH], data: &[u8]) -> (r:
    Result<TimeLockAccount, UnlockError>)
    ensures
        match r {
            Ok(account) => stored_lock(program_id@, owner@, data@) == Ok::<LockView, UnlockError>(
                account@,
            ),
            Err(e) => stored_lock(program_id@, owner@, data@) == Err::<LockView, UnlockError>(e),
        },
{
    if !same_key(owner, program_id) {
        return Err(UnlockError::IncorrectOwner);
    }
    TimeLockAccount::try_from_slice(data)
}

} // verus!
