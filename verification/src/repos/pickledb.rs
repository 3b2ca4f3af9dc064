//! The records of the key-value repository (one record per job, keyed by the
//! job's name) and its rules for saving runs and locking jobs.

use crate::crontab::{cron_accepts, cron_parse_error_message};
use crate::error::Error;
use crate::interval::{representable, whole_seconds, Interval, NANOS_PER_SEC};
use crate::job::{CronSchedule, JobData, JobDataView, JobName};
use crate::timestamp::{
    floor_seconds, millis_of_stored, seconds_to_store, stored_seconds, MAX_TIMESTAMP_SECS,
};
use vstd::prelude::*;

verus! {

/// Seconds for which a freshly acquired lock is held.
pub const LOCK_HOLD_SECS: i64 = 10i64;

/// Seconds of life that each refresh gives a held lock.
pub const LOCK_REFRESH_TTL_SECS: u64 = 5u64;

/// The stored record of a job.
pub struct JobDto {
    pub name: JobName,
    /// Seconds.
    pub check_interval: u64,
    /// Seconds.
    pub lock_ttl: u64,
    pub state: Vec<u8>,
    pub schedule: String,
    pub enabled: bool,
    /// Seconds since the Unix epoch of the last run; 0 if never.
    pub last_run: u64,
    /// The instance that holds the lock, or empty.
    pub owner: String,
    /// Seconds since the Unix epoch until which the lock is held.
    pub expires: i64,
    pub version: i8,
}

/// The mathematical value of a stored record.
pub struct JobDtoView {
    pub name: Seq<char>,
    pub check_interval: u64,
    pub lock_ttl: u64,
    pub state: Seq<u8>,
    pub schedule: Seq<char>,
    pub enabled: bool,
    pub last_run: u64,
    pub owner: Seq<char>,
    pub expires: i64,
    pub version: i8,
}

impl View for JobDto {
    type V = JobDtoView;

    open spec fn view(&self) -> JobDtoView {
        JobDtoView {
            name: self.name@,
            check_interval: self.check_interval,
            lock_ttl: self.lock_ttl,
            state: self.state@,
            schedule: self.schedule@,
            enabled: self.enabled,
            last_run: self.last_run,
            owner: self.owner@,
            expires: self.expires,
            version: self.version,
        }
    }
}

/// The record that stores a job's data: unlocked, at version 0.
pub open spec fn record_of(d: JobDataView) -> JobDtoView {
    JobDtoView {
        name: d.name,
        check_interval: (d.check_interval / (NANOS_PER_SEC as nat)) as u64,
        lock_ttl: (d.lock_ttl / (NANOS_PER_SEC as nat)) as u64,
        state: d.state,
        schedule: d.schedule,
        enabled: d.enabled,
        last_run: stored_seconds(d.last_run),
        owner: Seq::empty(),
        expires: 0,
        version: 0,
    }
}

/// The job data that a record holds, once its schedule is known to parse.
pub open spec fn data_of(r: JobDtoView) -> JobDataView {
    JobDataView {
        name: r.name,
        check_interval: (r.check_interval * NANOS_PER_SEC) as nat,
        lock_ttl: (r.lock_ttl * NANOS_PER_SEC) as nat,
        state: r.state,
        schedule: r.schedule,
        enabled: r.enabled,
        last_run: (r.last_run * 1000) as i64,
    }
}

/// Whether a record's last run can be read back as an instant.
pub open spec fn readable(r: JobDtoView) -> bool {
    r.last_run <= MAX_TIMESTAMP_SECS
}

/// The record after a run finished at `last_run` (milliseconds) with the new
/// `state`: the lock is released.
pub open spec fn saved(r: JobDtoView, last_run: i64, state: Seq<u8>) -> JobDtoView {
    JobDtoView {
        last_run: stored_seconds(last_run),
        owner: Seq::empty(),
        state,
        expires: 0,
        version: 0,
        ..r
    }
}

/// Whether the record's lock is held by someone at `now` (seconds).
pub open spec fn lock_held(r: JobDtoView, now: i64) -> bool {
    r.expires > now
}

/// The record after `owner` acquired its lock at `now` (seconds).
pub open spec fn acquired(r: JobDtoView, owner: Seq<char>, now: i64) -> JobDtoView {
    JobDtoView { owner, expires: (now + LOCK_HOLD_SECS) as i64, version: 0, ..r }
}

/// The record after `owner` refreshed its lock at `now` (seconds).
pub open spec fn refreshed(r: JobDtoView, owner: Seq<char>, now: i64) -> JobDtoView {
    JobDtoView { owner, expires: (now + LOCK_REFRESH_TTL_SECS) as i64, ..r }
}

/// What the repository decides on a request for a job's lock.
pub enum LockDecision {
    /// Someone holds the lock: the record stays as it is.
    AlreadyLocked,
    /// The lock is granted: store this record, then hand out its data.
    Acquire(JobDto),
}

impl JobDto {
    /// The record that stores a job's data: unlocked, at version 0.
    pub fn from(value: JobData) -> (r: JobDto)
        ensures
            r@ == record_of(value@),
    {
        JobDto {
            name: value.name,
            check_interval: value.check_interval.as_secs(),
            lock_ttl: value.lock_ttl.as_secs(),
            state: value.state,
            schedule: value.schedule.to_string(),
            enabled: value.enabled,
            last_run: seconds_to_store(value.last_run),
            owner: String::new(),
            expires: 0,
            version: 0,
        }
    }

    /// The job data that the record holds; an error names a schedule that
    /// does not parse.
    pub fn try_into(self) -> (res: Result<JobData, Error>)
        requires
            readable(self@),
        ensures
            cron_accepts(self@.schedule) <==> res is Ok,
            res matches Ok(d) ==> d@ == data_of(self@),
            res matches Err(e) ==> (e matches Error::InvalidCronExpression { expression, msg }
                && expression@ == self@.schedule && msg@ == cron_parse_error_message()),
    {
        match CronSchedule::from_str(self.schedule.as_str()) {
            Err(e) => Err(e),
            Ok(schedule) => Ok(
                JobData {
                    name: self.name,
                    check_interval: Interval::from_secs(self.check_interval),
                    lock_ttl: Interval::from_secs(self.lock_ttl),
                    state: self.state,
                    schedule,
                    enabled: self.enabled,
                    last_run: millis_of_stored(self.last_run),
                },
            ),
        }
    }
}

/// The record to store when the job is created: none if a record already
/// exists under its name (creation leaves an existing job as it is).
pub fn record_to_create(exists: bool, value: JobData) -> (r: Option<JobDto>)
    ensures
        exists ==> r is None,
        !exists ==> (r matches Some(d) && d@ == record_of(value@)),
{
    if exists {
        None
    } else {
        Some(JobDto::from(value))
    }
}

/// What a read of a job gives, from the record found under its name.
pub fn job_from_record(found: Option<JobDto>) -> (res: Result<Option<JobData>, Error>)
    requires
        found matches Some(r) ==> readable(r@),
    ensures
        found is None ==> res matches Ok(None),
        found matches Some(r) ==> (cron_accepts(r@.schedule) <==> res is Ok),
        found matches Some(r) ==> (res matches Ok(d) ==> (d matches Some(d) && d@ == data_of(
            r@,
        ))),
        found matches Some(r) ==> (res matches Err(e) ==> (e matches Error::InvalidCronExpression {
            expression,
            msg,
        } && expression@ == r@.schedule && msg@ == cron_parse_error_message())),
{
    match found {
        None => Ok(None),
        Some(r) => match r.try_into() {
            Ok(d) => Ok(Some(d)),
            Err(e) => Err(e),
        },
    }
}

/// The record after a new state of the job was committed: only the state
/// changes.
pub open spec fn committed(r: JobDtoView, state: Seq<u8>) -> JobDtoView {
    JobDtoView { state, ..r }
}

/// The record to store when a new state of the job is committed; a missing
/// record is an error.
pub fn commit_record(found: Option<JobDto>, state: Vec<u8>) -> (res: Result<JobDto, Error>)
    ensures
        found is None ==> res matches Err(Error::TODO),
        found matches Some(r) ==> (res matches Ok(c) && c@ == committed(r@, state@)),
{
    match found {
        None => Err(Error::TODO),
        Some(r) => {
            let mut j = r;
            j.state = state;
            Ok(j)
        },
    }
}

/// The record to store after a run of the job finished at `last_run`
/// (milliseconds) with the new `state`; a missing record is an error.
pub fn save_record(found: Option<JobDto>, last_run: i64, state: Vec<u8>) -> (res: Result<
    JobDto,
    Error,
>)
    ensures
        found is None ==> res matches Err(Error::TODO),
        found matches Some(r) ==> (res matches Ok(s) && s@ == saved(r@, last_run, state@)),
{
    match found {
        None => Err(Error::TODO),
        Some(r) => {
            let mut j = r;
            j.last_run = seconds_to_store(last_run);
            j.owner = String::new();
            j.state = state;
            j.expires = 0;
            j.version = 0;
            Ok(j)
        },
    }
}

/// The repository's answer to `owner`'s request, at `now` (seconds), for the
/// lock of the job whose record is `found`: a missing record is an error; a
/// lock that has not expired stays with its holder; otherwise `owner` gets it
/// for `LOCK_HOLD_SECS`.
pub fn lock_record(found: Option<JobDto>, owner: String, now: i64) -> (res: Result<
    LockDecision,
    Error,
>)
    requires
        found matches Some(r) ==> (!lock_held(r@, now) ==> now <= i64::MAX - LOCK_HOLD_SECS),
    ensures
        found is None ==> res matches Err(Error::TODO),
        found matches Some(r) ==> (lock_held(r@, now) <==> res matches Ok(
            LockDecision::AlreadyLocked,
        )),
        found matches Some(r) ==> (!lock_held(r@, now) ==> (res matches Ok(
            LockDecision::Acquire(a),
        ) && a@ == acquired(r@, owner@, now))),
        found matches Some(r) ==> (r.expires > now <==> res matches Ok(
            LockDecision::AlreadyLocked,
        )),
        found matches Some(r) ==> (r.expires <= now ==> (res matches Ok(LockDecision::Acquire(a))
            && a@.owner == owner@ && a@.expires == now + LOCK_HOLD_SECS && a@.name == r@.name)),
{
    match found {
        None => Err(Error::TODO),
        Some(r) => {
            if r.expires > now {
                Ok(LockDecision::AlreadyLocked)
            } else {
                let mut j = r;
                j.owner = owner;
                j.expires = now + LOCK_HOLD_SECS;
                j.version = 0;
                Ok(LockDecision::Acquire(j))
            }
        },
    }
}

/// The record after `owner` refreshed its lock at `now` (seconds).
pub fn refresh_record(record: JobDto, owner: String, now: i64) -> (r: JobDto)
    requires
        now <= i64::MAX - LOCK_REFRESH_TTL_SECS,
    ensures
        r@ == refreshed(record@, owner@, now),
{
    let mut j = record;
    j.expires = now + LOCK_REFRESH_TTL_SECS as i64;
    j.owner = owner;
    j
}

/// Seconds between two refreshes of a held lock.
pub fn refresh_interval_secs() -> (s: u64)
    ensures
        s == LOCK_REFRESH_TTL_SECS / 2,
{
    LOCK_REFRESH_TTL_SECS / 2
}

/// A lock granted at `now` keeps every other request out until it expires:
/// any request at a later instant before `now + LOCK_HOLD_SECS`, by whatever
/// owner, finds the lock held.
pub proof fn lemma_lock_excludes_until_expiry(r: JobDtoView, owner: Seq<char>, now: i64, later: i64)
    requires
        !lock_held(r, now),
        now <= i64::MAX - LOCK_HOLD_SECS,
        now <= later < now + LOCK_HOLD_SECS,
    ensures
        lock_held(acquired(r, owner, now), later),
{
}

/// Only an unexpired lock keeps a request out: a record is locked at `now`
/// exactly when its lock expires after `now`, whatever owner it names. A
/// record whose lock has expired, even one left behind with its holder's
/// name, is granted to the next requester for `LOCK_HOLD_SECS`.
pub proof fn lemma_expired_lock_is_granted(r: JobDtoView, owner: Seq<char>, now: i64)
    ensures
        lock_held(r, now) <==> r.expires > now,
        r.expires <= now && now <= i64::MAX - LOCK_HOLD_SECS ==> (!lock_held(r, now)
            && acquired(r, owner, now).owner == owner && acquired(r, owner, now).expires == now
            + LOCK_HOLD_SECS),
{
}

/// A refresh keeps the lock held for `LOCK_REFRESH_TTL_SECS` from the instant
/// of the refresh on.
pub proof fn lemma_refresh_extends_lock(r: JobDtoView, owner: Seq<char>, now: i64, later: i64)
    requires
        now <= i64::MAX - LOCK_REFRESH_TTL_SECS,
        now <= later < now + LOCK_REFRESH_TTL_SECS,
    ensures
        lock_held(refreshed(r, owner, now), later),
        refreshed(r, owner, now).owner == owner,
{
}

/// Saving a run releases the lock: the saved record is free at every instant
/// from the epoch on.
pub proof fn lemma_save_releases_lock(r: JobDtoView, last_run: i64, state: Seq<u8>, now: i64)
    requires
        now >= 0,
    ensures
        !lock_held(saved(r, last_run, state), now),
{
}

/// Storing job data and reading it back gives the same data, with the last
/// run, check interval and lock time to live rounded down to whole seconds.
pub proof fn lemma_record_round_trip(d: JobDataView)
    requires
        0 <= d.last_run <= MAX_TIMESTAMP_SECS * 1000,
        representable(d.check_interval),
        representable(d.lock_ttl),
    ensures
        readable(record_of(d)),
        data_of(record_of(d)) == (JobDataView {
            last_run: (floor_seconds(d.last_run) * 1000) as i64,
            check_interval: whole_seconds(d.check_interval),
            lock_ttl: whole_seconds(d.lock_ttl),
            ..d
        }),
{
}

/// What a save stores is what a later read gives: after a run saved at
/// `last_run` (milliseconds, not before the epoch) with `state`, the record
/// reads back with that state and the run rounded down to whole seconds, under
/// the same name.
pub proof fn lemma_saved_run_reads_back(r: JobDtoView, last_run: i64, state: Seq<u8>)
    requires
        0 <= last_run <= MAX_TIMESTAMP_SECS * 1000,
    ensures
        readable(saved(r, last_run, state)),
        data_of(saved(r, last_run, state)).state == state,
        data_of(saved(r, last_run, state)).last_run == floor_seconds(last_run) * 1000,
        data_of(saved(r, last_run, state)).name == r.name,
{
}

} // verus!
