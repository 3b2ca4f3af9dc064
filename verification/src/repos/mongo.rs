//! The documents of the document-store repository (one document per job,
//! keyed by the job's name, with the state as base64 text) and the values
//! that it writes when it saves runs and locks jobs.

use crate::codec::{base64_decode, base64_encode, base64_standard_decoding, base64_standard_encoding};
use crate::crontab::{cron_accepts, cron_parse_error_message};
use crate::error::Error;
use crate::interval::{representable, whole_seconds, Interval, NANOS_PER_SEC};
use crate::job::{CronSchedule, JobData, JobDataView, JobName};
use crate::timestamp::{
    floor_seconds, millis_of_stored, seconds_of, seconds_to_store, stored_seconds,
    MAX_TIMESTAMP_SECS,
};
use vstd::prelude::*;

verus! {

/// The stored document of a job.
pub struct JobDto {
    /// The job's name.
    pub _id: String,
    /// Seconds.
    pub check_interval: u64,
    /// Seconds.
    pub lock_ttl: u64,
    /// The job's state, base64-encoded.
    pub state: String,
    pub schedule: String,
    pub enabled: bool,
    /// Seconds since the Unix epoch of the last run; 0 if never.
    pub last_run: u64,
    /// The instance that holds the lock, or empty.
    pub owner: String,
    /// Seconds since the Unix epoch until which the lock is held.
    pub expires: i64,
    pub version: i8,
}

/// The mathematical value of a stored document.
pub struct JobDtoView {
    pub id: Seq<char>,
    pub check_interval: u64,
    pub lock_ttl: u64,
    pub state: Seq<char>,
    pub schedule: Seq<char>,
    pub enabled: bool,
    pub last_run: u64,
    pub owner: Seq<char>,
    pub expires: i64,
    pub version: i8,
}

impl View for JobDto {
    type V = JobDtoView;

    open spec fn view(&self) -> JobDtoView {
        JobDtoView {
            id: self._id@,
            check_interval: self.check_interval,
            lock_ttl: self.lock_ttl,
            state: self.state@,
            schedule: self.schedule@,
            enabled: self.enabled,
            last_run: self.last_run,
            owner: self.owner@,
            expires: self.expires,
            version: self.version,
        }
    }
}

/// The document that stores a job's data: unlocked, at version 0.
pub open spec fn document_of(d: JobDataView) -> JobDtoView {
    JobDtoView {
        id: d.name,
        check_interval: (d.check_interval / (NANOS_PER_SEC as nat)) as u64,
        lock_ttl: (d.lock_ttl / (NANOS_PER_SEC as nat)) as u64,
        state: base64_standard_encoding(d.state),
        schedule: d.schedule,
        enabled: d.enabled,
        last_run: stored_seconds(d.last_run),
        owner: Seq::empty(),
        expires: 0,
        version: 0,
    }
}

/// The job data that a document holds, once its schedule parses and its state
/// decodes to `state`.
pub open spec fn data_of(r: JobDtoView, state: Seq<u8>) -> JobDataView {
    JobDataView {
        name: r.id,
        check_interval: (r.check_interval * NANOS_PER_SEC) as nat,
        lock_ttl: (r.lock_ttl * NANOS_PER_SEC) as nat,
        state,
        schedule: r.schedule,
        enabled: r.enabled,
        last_run: (r.last_run * 1000) as i64,
    }
}

/// Whether a document's last run can be read back as an instant.
pub open spec fn readable(r: JobDtoView) -> bool {
    r.last_run <= MAX_TIMESTAMP_SECS
}

/// What reading a document gives: its data, or the error that the reading
/// reports (a schedule that does not parse, then a state that does not
/// decode).
pub open spec fn read_document(r: JobDtoView) -> Option<JobDataView> {
    if !cron_accepts(r.schedule) {
        None
    } else {
        match base64_standard_decoding(r.state) {
            Some(state) => Some(data_of(r, state)),
            None => None,
        }
    }
}

/// The error that reading a document that does not read reports: the
/// schedule that does not parse, with the cron crate's message; otherwise
/// `TODO` for a state that is not base64.
pub open spec fn document_error(r: JobDtoView, e: Error) -> bool {
    if !cron_accepts(r.schedule) {
        e matches Error::InvalidCronExpression { expression, msg } && expression@ == r.schedule
            && msg@ == cron_parse_error_message()
    } else {
        e is TODO
    }
}

/// Whether the document's lock is held by someone at `now` (seconds).
pub open spec fn document_lock_held(r: JobDtoView, now: i64) -> bool {
    r.expires > now
}

/// The document after `owner` took its lock at `now` (seconds), for the job's
/// lock time to live.
pub open spec fn locked_document(r: JobDtoView, owner: Seq<char>, now: i64) -> JobDtoView {
    JobDtoView { owner, expires: (now + r.lock_ttl) as i64, ..r }
}

/// What the repository decides on a request for a job's lock, from the
/// document it read.
pub enum LockDecision {
    /// Someone holds the lock: nothing is written.
    AlreadyLocked,
    /// The lock is free: write these lock fields, on condition that the lock
    /// is still free when the write happens.
    Acquire { owner: String, expires: i64 },
}

/// The fields that saving a run writes into a job's document.
pub struct SaveUpdate {
    /// The new state, base64-encoded.
    pub state: String,
    /// Seconds since the Unix epoch of the run.
    pub last_run: i64,
    pub owner: String,
    pub expires: i64,
}

impl JobDto {
    /// The document that stores a job's data: unlocked, at version 0.
    pub fn from(value: JobData) -> (r: JobDto)
        ensures
            r@ == document_of(value@),
            base64_standard_decoding(r@.state) == Some(value@.state),
    {
        let state = base64_encode(&value.state);
        JobDto {
            _id: value.name.0,
            check_interval: value.check_interval.as_secs(),
            lock_ttl: value.lock_ttl.as_secs(),
            state,
            schedule: value.schedule.to_string(),
            enabled: value.enabled,
            last_run: seconds_to_store(value.last_run),
            owner: String::new(),
            expires: 0,
            version: 0,
        }
    }

    /// The job data that the document holds; the errors name a schedule that
    /// does not parse, or (as `TODO`) a state that is not base64.
    pub fn try_into(self) -> (res: Result<JobData, Error>)
        requires
            readable(self@),
        ensures
            res is Ok <==> read_document(self@) is Some,
            res matches Ok(d) ==> read_document(self@) == Some(d@),
            !cron_accepts(self@.schedule) ==> (res matches Err(e) && (e matches Error::InvalidCronExpression {
                expression,
                msg,
            } && expression@ == self@.schedule && msg@ == cron_parse_error_message())),
            cron_accepts(self@.schedule) && base64_standard_decoding(self@.state) is None ==> (
            res matches Err(e) && e is TODO),
    {
        let schedule = match CronSchedule::from_str(self.schedule.as_str()) {
            Ok(s) => s,
            Err(e) => return Err(e),
        };
        let state = match base64_decode(&self.state) {
            Some(s) => s,
            None => return Err(Error::TODO),
        };
        Ok(
            JobData {
                name: JobName(self._id),
                check_interval: Interval::from_secs(self.check_interval),
                lock_ttl: Interval::from_secs(self.lock_ttl),
                state,
                schedule,
                enabled: self.enabled,
                last_run: millis_of_stored(self.last_run),
            },
        )
    }
}

/// What a read of a job gives, from the document found under its name.
pub fn job_from_document(found: Option<JobDto>) -> (res: Result<Option<JobData>, Error>)
    requires
        found matches Some(r) ==> readable(r@),
    ensures
        found is None ==> res matches Ok(None),
        found matches Some(r) ==> (res is Ok <==> read_document(r@) is Some),
        found matches Some(r) ==> (res matches Ok(d) ==> (d matches Some(d) && read_document(r@)
            == Some(d@))),
        found matches Some(r) ==> (res matches Err(e) ==> document_error(r@, e)),
{
    match found {
        None => Ok(None),
        Some(r) => match r.try_into() {
            Ok(d) => Ok(Some(d)),
            Err(e) => Err(e),
        },
    }
}

/// The repository's decision on `owner`'s request, at `now` (seconds), for the
/// lock of the job whose document is `found`: a missing document is an error;
/// a lock that has not expired stays with its holder; otherwise `owner` gets
/// it for the job's lock time to live.
pub fn lock_document(found: Option<JobDto>, owner: String, now: i64) -> (res: Result<
    LockDecision,
    Error,
>)
    requires
        found matches Some(r) ==> (!document_lock_held(r@, now) ==> (r.lock_ttl <= i64::MAX && now
            + r.lock_ttl <= i64::MAX)),
    ensures
        found is None ==> res matches Err(Error::TODO),
        found matches Some(r) ==> (document_lock_held(r@, now) <==> res matches Ok(
            LockDecision::AlreadyLocked,
        )),
        found matches Some(r) ==> (!document_lock_held(r@, now) ==> (res matches Ok(
            LockDecision::Acquire { owner: o, expires },
        ) && o@ == owner@ && expires == now + r@.lock_ttl)),
        found matches Some(r) ==> (r.expires > now <==> res matches Ok(
            LockDecision::AlreadyLocked,
        )),
        found matches Some(r) ==> (r.expires <= now ==> (res matches Ok(
            LockDecision::Acquire { owner: o, expires },
        ) && o@ == owner@ && expires == now + r.lock_ttl)),
{
    match found {
        None => Err(Error::TODO),
        Some(r) => {
            if r.expires > now {
                Ok(LockDecision::AlreadyLocked)
            } else {
                Ok(LockDecision::Acquire { owner, expires: now + r.lock_ttl as i64 })
            }
        },
    }
}

/// The job data handed out with a lock, from the repository's answer to the
/// conditional write that takes it: the written document, none (the lock was
/// no longer free when the write happened, so someone else holds it), or the
/// repository's error message.
pub fn lock_answer(answer: Result<Option<JobDto>, String>) -> (res: Result<Option<JobData>, Error>)
    requires
        answer matches Ok(Some(r)) ==> readable(r@),
    ensures
        answer matches Err(m) ==> (res matches Err(Error::Repo(n)) && n@ == m@),
        answer matches Ok(None) ==> res matches Ok(None),
        answer matches Ok(Some(r)) ==> (res is Ok <==> read_document(r@) is Some),
        answer matches Ok(Some(r)) ==> (res matches Ok(d) ==> (d matches Some(d) && read_document(
            r@,
        ) == Some(d@))),
        answer matches Ok(Some(r)) ==> (res matches Err(e) ==> document_error(r@, e)),
{
    match answer {
        Ok(Some(r)) => match r.try_into() {
            Ok(d) => Ok(Some(d)),
            Err(e) => Err(e),
        },
        Ok(None) => Ok(None),
        Err(m) => Err(Error::Repo(m)),
    }
}

/// The instant (seconds) until which a lock taken or refreshed at `now`
/// (seconds) with a time to live of `ttl` seconds is held.
pub fn lock_expiry(now: i64, ttl: u64) -> (e: i64)
    requires
        ttl <= i64::MAX,
        now + ttl <= i64::MAX,
    ensures
        e == now + ttl,
{
    now + ttl as i64
}

/// Seconds between two refreshes of a lock that lives `ttl` seconds.
pub fn refresh_interval_secs(ttl: u64) -> (s: u64)
    ensures
        s == ttl / 2,
{
    ttl / 2
}

/// The fields written when a run of the job finished at `last_run`
/// (milliseconds) with the new `state`: the lock is released.
pub fn save_update(last_run: i64, state: &Vec<u8>) -> (u: SaveUpdate)
    ensures
        u.state@ == base64_standard_encoding(state@),
        base64_standard_decoding(u.state@) == Some(state@),
        u.last_run == floor_seconds(last_run),
        u.owner@ == Seq::<char>::empty(),
        u.expires == 0,
{
    SaveUpdate {
        state: base64_encode(state),
        last_run: seconds_of(last_run),
        owner: String::new(),
        expires: 0,
    }
}

/// The text that committing a new state writes into the job's document.
pub fn commit_state(state: &Vec<u8>) -> (t: String)
    ensures
        t@ == base64_standard_encoding(state@),
        base64_standard_decoding(t@) == Some(state@),
{
    base64_encode(state)
}

/// Storing job data as a document and reading it back gives the same data,
/// with the last run, check interval and lock time to live rounded down to
/// whole seconds, provided the schedule parses and the state's text decodes to
/// the state (which `JobDto::from` ensures).
pub proof fn lemma_document_round_trip(d: JobDataView)
    requires
        cron_accepts(d.schedule),
        base64_standard_decoding(base64_standard_encoding(d.state)) == Some(d.state),
        0 <= d.last_run <= MAX_TIMESTAMP_SECS * 1000,
        representable(d.check_interval),
        representable(d.lock_ttl),
    ensures
        readable(document_of(d)),
        read_document(document_of(d)) == Some(
            JobDataView {
                last_run: (floor_seconds(d.last_run) * 1000) as i64,
                check_interval: whole_seconds(d.check_interval),
                lock_ttl: whole_seconds(d.lock_ttl),
                ..d
            },
        ),
{
}

/// A lock taken at `now` keeps every other request out until it expires:
/// for a positive time to live, a request at any later instant before the
/// expiry finds the lock held.
pub proof fn lemma_document_lock_excludes(r: JobDtoView, owner: Seq<char>, now: i64, later: i64)
    requires
        !document_lock_held(r, now),
        now + r.lock_ttl <= i64::MAX,
        now <= later < now + r.lock_ttl,
    ensures
        document_lock_held(locked_document(r, owner, now), later),
        locked_document(r, owner, now).owner == owner,
{
}

/// Only an unexpired lock keeps a request out: a document is locked at `now`
/// exactly when its lock expires after `now`, whatever owner it still names.
pub proof fn lemma_expired_document_lock_is_free(r: JobDtoView, now: i64)
    ensures
        document_lock_held(r, now) <==> r.expires > now,
{
}

} // verus!
