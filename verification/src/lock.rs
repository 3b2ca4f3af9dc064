//! Locks kept apart from the jobs' data: one record per job name, and the rule
//! by which an instance acquires one.

use vstd::prelude::*;

verus! {

/// The answer to a request for a lock: the lock, or the news that someone
/// else holds it.
pub enum LockStatus<L> {
    Acquired(L),
    AlreadyLocked,
}

/// Seconds of life that each refresh gives a held lock.
pub const LOCK_REFRESH_TTL_SECS: i64 = 10i64;

/// Seconds between two refreshes of a held lock.
pub const LOCK_REFRESH_INTERVAL_SECS: u64 = 1u64;

/// The stored record of a job's lock.
pub struct LockData {
    pub owner: String,
    /// Seconds since the Unix epoch until which the lock is held.
    pub expires: i64,
    pub version: i8,
}

/// Whether a stored lock is held by someone at `now` (seconds).
pub open spec fn held(existing: Option<LockData>, now: i64) -> bool {
    existing matches Some(d) && d.expires > now
}

/// The record that grants `owner` the lock at `now` (seconds) for `ttl`
/// seconds.
pub open spec fn granted(owner: Seq<char>, now: i64, ttl: u64) -> (Seq<char>, int, i8) {
    (owner, now + ttl, 0)
}

/// The repository's answer to `owner`'s request, at `now` (seconds), for a lock
/// that lives `ttl` seconds, given the record `existing` stored for the job:
/// `None` while the stored lock has not expired, and otherwise the record to
/// store, which grants the lock to `owner`.
pub fn acquire_lock_record(existing: Option<LockData>, owner: String, now: i64, ttl: u64) -> (res:
    Option<LockData>)
    requires
        !held(existing, now) ==> (ttl <= i64::MAX && now + ttl <= i64::MAX),
    ensures
        held(existing, now) <==> res is None,
        res matches Some(d) ==> (d.owner@, d.expires as int, d.version) == granted(owner@, now, ttl),
{
    match existing {
        Some(d) if d.expires > now => None,
        _ => Some(LockData { owner, expires: now + ttl as i64, version: 0 }),
    }
}

/// The record that a refresh of a held lock stores at `now` (seconds).
pub fn refreshed_lock(now: i64) -> (d: LockData)
    requires
        now <= i64::MAX - LOCK_REFRESH_TTL_SECS,
    ensures
        d.owner@ == "owner"@,
        d.expires == now + LOCK_REFRESH_TTL_SECS,
        d.version == 0,
{
    LockData { owner: "owner".to_owned(), expires: now + LOCK_REFRESH_TTL_SECS, version: 0 }
}

/// A granted lock keeps every other request out until it expires: for a
/// positive time to live, a request at any instant from `now` on and before the
/// expiry finds the lock held.
pub proof fn lemma_granted_lock_excludes(
    existing: Option<LockData>,
    stored: LockData,
    owner: Seq<char>,
    now: i64,
    ttl: u64,
    later: i64,
)
    requires
        !held(existing, now),
        (stored.owner@, stored.expires as int, stored.version) == granted(owner, now, ttl),
        now <= later < now + ttl,
    ensures
        held(Some(stored), later),
{
}

} // verus!
