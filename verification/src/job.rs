//! Jobs: their names, schedules, configuration and persisted data, and the
//! rule that decides when a job is due.

use crate::cancel::CancelSender;
use crate::crontab::{
    cron_accepts, cron_next_after, cron_next_run_millis, cron_parse_error, cron_parse_error_message,
    MAX_SCHEDULE_MILLIS,
};
use crate::error::Error;
use crate::interval::{Interval, NANOS_PER_SEC};
use vstd::prelude::*;

verus! {

/// The unique name of a job.
#[derive(Debug, Default, PartialEq, Eq, Hash)]
pub struct JobName(pub String);

impl View for JobName {
    type V = Seq<char>;

    open spec fn view(&self) -> Seq<char> {
        self.0@
    }
}

impl JobName {
    /// The name as a string slice.
    pub fn as_str(&self) -> (s: &str)
        ensures
            s@ == self@,
    {
        self.0.as_str()
    }

    /// The name as an owned string, as it is displayed.
    pub fn to_string(&self) -> (s: String)
        ensures
            s@ == self@,
    {
        self.0.clone()
    }

    /// A copy of the name.
    pub fn clone(&self) -> (n: JobName)
        ensures
            n@ == self@,
    {
        JobName(self.0.clone())
    }

    /// Whether two names are the same.
    pub fn same_as(&self, other: &JobName) -> (b: bool)
        ensures
            b == (self@ == other@),
    {
        self.0 == other.0
    }
}

/// A cron expression (seconds first), as written by the user.
#[derive(Debug, Default, PartialEq)]
pub struct Schedule {
    pub expr: String,
}

impl View for Schedule {
    type V = Seq<char>;

    open spec fn view(&self) -> Seq<char> {
        self.expr@
    }
}

impl Schedule {
    /// The schedule that fires at second zero of every minute.
    pub fn minutely() -> (s: Schedule)
        ensures
            s@ == "0 * * * * *"@,
    {
        Schedule { expr: "0 * * * * *".to_owned() }
    }

    /// A copy of the schedule.
    pub fn clone(&self) -> (s: Schedule)
        ensures
            s@ == self@,
    {
        Schedule { expr: self.expr.clone() }
    }
}

/// A cron expression that the cron crate accepts.
#[derive(Debug)]
pub struct CronSchedule {
    expr: String,
}

impl View for CronSchedule {
    type V = Seq<char>;

    closed spec fn view(&self) -> Seq<char> {
        self.expr@
    }
}

impl CronSchedule {
    #[verifier::type_invariant]
    spec fn accepted(self) -> bool {
        cron_accepts(self.expr@)
    }

    /// Parses a cron expression; an error names an expression that the cron
    /// crate rejects.
    pub fn from_str(expr: &str) -> (res: Result<CronSchedule, Error>)
        ensures
            res is Ok <==> cron_accepts(expr@),
            res matches Ok(s) ==> s@ == expr@,
            res matches Err(e) ==> (e matches Error::InvalidCronExpression { expression, msg }
                && expression@ == expr@ && msg@ == cron_parse_error_message()),
    {
        match cron_parse_error(expr) {
            Some(msg) => Err(Error::InvalidCronExpression { expression: expr.to_owned(), msg }),
            None => Ok(CronSchedule { expr: expr.to_owned() }),
        }
    }

    /// The expression, which the cron crate accepts.
    pub fn as_str(&self) -> (s: &str)
        ensures
            s@ == self@,
            cron_accepts(s@),
    {
        proof {
            use_type_invariant(self);
        }
        self.expr.as_str()
    }

    /// The expression as an owned string, as it is displayed.
    pub fn to_string(&self) -> (s: String)
        ensures
            s@ == self@,
    {
        self.expr.clone()
    }

    /// A copy of the schedule.
    pub fn clone(&self) -> (s: CronSchedule)
        ensures
            s@ == self@,
    {
        proof {
            use_type_invariant(self);
        }
        CronSchedule { expr: self.expr.clone() }
    }
}

/// How often a job is checked, in seconds, unless configured otherwise.
pub const DEFAULT_CHECK_INTERVAL_SECS: u64 = 60u64;

/// How long a job's lock lives, in seconds, unless configured otherwise.
pub const DEFAULT_LOCK_TTL_SECS: u64 = 20u64;

/// The configuration with which a job is registered.
pub struct JobConfig {
    pub name: JobName,
    /// Time between two checks of the job.
    pub check_interval: Interval,
    /// Time that a lock on the job lives without being refreshed.
    pub lock_ttl: Interval,
    pub schedule: CronSchedule,
    pub enabled: bool,
}

/// The mathematical value of a job configuration (times in nanoseconds).
pub struct JobConfigView {
    pub name: Seq<char>,
    pub check_interval: nat,
    pub lock_ttl: nat,
    pub schedule: Seq<char>,
    pub enabled: bool,
}

impl View for JobConfig {
    type V = JobConfigView;

    open spec fn view(&self) -> JobConfigView {
        JobConfigView {
            name: self.name@,
            check_interval: self.check_interval@,
            lock_ttl: self.lock_ttl@,
            schedule: self.schedule@,
            enabled: self.enabled,
        }
    }
}

impl JobConfig {
    /// An enabled job with the default check interval and lock time to live.
    pub fn new(name: String, schedule: CronSchedule) -> (c: JobConfig)
        ensures
            c@ == (JobConfigView {
                name: name@,
                check_interval: (DEFAULT_CHECK_INTERVAL_SECS * NANOS_PER_SEC) as nat,
                lock_ttl: (DEFAULT_LOCK_TTL_SECS * NANOS_PER_SEC) as nat,
                schedule: schedule@,
                enabled: true,
            }),
    {
        JobConfig {
            name: JobName(name),
            schedule,
            check_interval: Interval::from_secs(DEFAULT_CHECK_INTERVAL_SECS),
            lock_ttl: Interval::from_secs(DEFAULT_LOCK_TTL_SECS),
            enabled: true,
        }
    }

    /// The same configuration with another check interval.
    pub fn with_check_interval(self, interval: Interval) -> (c: JobConfig)
        ensures
            c@ == (JobConfigView { check_interval: interval@, ..self@ }),
    {
        let mut c = self;
        c.check_interval = interval;
        c
    }

    /// The same configuration with another lock time to live.
    pub fn with_lock_ttl(self, ttl: Interval) -> (c: JobConfig)
        ensures
            c@ == (JobConfigView { lock_ttl: ttl@, ..self@ }),
    {
        let mut c = self;
        c.lock_ttl = ttl;
        c
    }

    /// A copy of the configuration.
    pub fn clone(&self) -> (c: JobConfig)
        ensures
            c@ == self@,
    {
        JobConfig {
            name: self.name.clone(),
            check_interval: self.check_interval,
            lock_ttl: self.lock_ttl,
            schedule: self.schedule.clone(),
            enabled: self.enabled,
        }
    }
}

/// What is persisted of a job: its configuration, the state that its action
/// carries from one run to the next, and when it last ran.
#[derive(Debug)]
pub struct JobData {
    pub name: JobName,
    /// Time between two checks of the job.
    pub check_interval: Interval,
    /// Time that a lock on the job lives without being refreshed.
    pub lock_ttl: Interval,
    pub state: Vec<u8>,
    pub schedule: CronSchedule,
    pub enabled: bool,
    /// Milliseconds since the Unix epoch at which the job last ran; 0 if never.
    pub last_run: i64,
}

/// The mathematical value of a job's data (times in nanoseconds).
pub struct JobDataView {
    pub name: Seq<char>,
    pub check_interval: nat,
    pub lock_ttl: nat,
    pub state: Seq<u8>,
    pub schedule: Seq<char>,
    pub enabled: bool,
    pub last_run: i64,
}

impl View for JobData {
    type V = JobDataView;

    open spec fn view(&self) -> JobDataView {
        JobDataView {
            name: self.name@,
            check_interval: self.check_interval@,
            lock_ttl: self.lock_ttl@,
            state: self.state@,
            schedule: self.schedule@,
            enabled: self.enabled,
            last_run: self.last_run,
        }
    }
}

/// The data of a job that has just been configured: empty state, never run.
pub open spec fn data_from_config(c: JobConfigView) -> JobDataView {
    JobDataView {
        name: c.name,
        check_interval: c.check_interval,
        lock_ttl: c.lock_ttl,
        state: Seq::empty(),
        schedule: c.schedule,
        enabled: c.enabled,
        last_run: 0,
    }
}

/// The next scheduled run, or the epoch where the schedule names none.
pub open spec fn next_run_or_epoch(next: Option<i64>) -> i64 {
    match next {
        Some(t) => t,
        None => 0,
    }
}

/// Whether the job can be asked if it is due: an enabled job that has run
/// must have run at an instant that the calendar library can represent.
pub open spec fn due_defined(d: JobDataView) -> bool {
    d.enabled && d.last_run != 0 ==> 0 <= d.last_run <= MAX_SCHEDULE_MILLIS
}

/// A job is due at `now` (milliseconds since the Unix epoch) when it is
/// enabled, and it has never run or its next scheduled run after the last one
/// lies before `now`.
pub open spec fn is_due(d: JobDataView, now: i64) -> bool {
    &&& d.enabled
    &&& (d.last_run == 0 || next_run_or_epoch(cron_next_after(d.schedule, d.last_run)) < now)
}

impl JobData {
    /// The data of a freshly configured job: empty state, never run.
    pub fn from(value: JobConfig) -> (d: JobData)
        ensures
            d@ == data_from_config(value@),
    {
        JobData {
            name: value.name,
            check_interval: value.check_interval,
            lock_ttl: value.lock_ttl,
            state: Vec::new(),
            schedule: value.schedule,
            enabled: value.enabled,
            last_run: 0,
        }
    }

    /// A copy of the data.
    pub fn clone(&self) -> (d: JobData)
        ensures
            d@ == self@,
    {
        JobData {
            name: self.name.clone(),
            check_interval: self.check_interval,
            lock_ttl: self.lock_ttl,
            state: self.state.clone(),
            schedule: self.schedule.clone(),
            enabled: self.enabled,
            last_run: self.last_run,
        }
    }

    /// Whether the next run that the schedule gives lies before `now`; a
    /// schedule that gives none counts as the epoch.
    pub fn next_run_passed(next_run: Option<i64>, now: i64) -> (b: bool)
        ensures
            b == (next_run_or_epoch(next_run) < now),
    {
        let next = match next_run {
            Some(t) => t,
            None => 0,
        };
        next < now
    }

    /// Whether `due` may be asked of this data (see `due_defined`).
    pub fn due_is_defined(&self) -> (b: bool)
        ensures
            b == due_defined(self@),
    {
        !(self.enabled && self.last_run != 0) || (0 <= self.last_run
            && self.last_run <= MAX_SCHEDULE_MILLIS)
    }

    /// Whether the job is due at `now` (milliseconds since the Unix epoch).
    pub fn due(&self, now: i64) -> (b: bool)
        requires
            due_defined(self@),
        ensures
            b == is_due(self@, now),
            !self.enabled ==> !b,
            self.enabled && self.last_run == 0 ==> b,
            self.enabled && self.last_run != 0 ==> (b <==> match cron_next_after(
                self@.schedule,
                self.last_run,
            ) {
                Some(t) => t < now,
                None => 0 < now,
            }),
    {
        if !self.enabled {
            return false;
        }
        if self.last_run == 0 {
            return true;
        }
        let next_run = cron_next_run_millis(self.schedule.as_str(), self.last_run);
        JobData::next_run_passed(next_run, now)
    }
}

/// A disabled job is never due, and an enabled job that has never run is due
/// at every instant.
pub proof fn lemma_due_basics(d: JobDataView, now: i64)
    ensures
        !d.enabled ==> !is_due(d, now),
        d.enabled && d.last_run == 0 ==> is_due(d, now),
{
}

/// The schedule decides when a job that has run is due again: an enabled job
/// whose last run is not 0 is due at `now` exactly when the cron crate's next
/// firing of its schedule after the last run lies before `now` (the epoch
/// standing in where there is none). In particular, a job whose next firing is
/// at or after `now` is not due, however long ago it last ran.
pub proof fn lemma_due_follows_schedule(d: JobDataView, now: i64)
    requires
        d.enabled,
        d.last_run != 0,
    ensures
        cron_next_after(d.schedule, d.last_run) matches Some(t) ==> (is_due(d, now) <==> t < now),
        cron_next_after(d.schedule, d.last_run) is None ==> (is_due(d, now) <==> 0 < now),
        (cron_next_after(d.schedule, d.last_run) matches Some(t) && now <= t) ==> !is_due(d, now),
{
}

/// Once a job is due it stays due as time goes on (as long as it does not
/// run).
pub proof fn lemma_due_stays_due(d: JobDataView, now: i64, later: i64)
    requires
        is_due(d, now),
        now <= later,
    ensures
        is_due(d, later),
{
}

/// Where a registered job stands.
pub enum Status {
    Registered,
    Suspended,
    /// Started; the sender cancels its executor.
    Running(CancelSender),
}

/// A registered job: its configuration, its action until it is started, and
/// its status.
pub struct Job<A> {
    pub data: JobConfig,
    pub action: Option<A>,
    pub status: Status,
}

impl<A> Job<A> {
    /// A job that is registered and not started yet.
    pub fn new(data: JobConfig, action: A) -> (j: Job<A>)
        ensures
            j.data@ == data@,
            j.action == Some(action),
            j.status is Registered,
    {
        Job { data, action: Some(action), status: Status::Registered }
    }

    /// Whether a job in this status is started by the manager.
    pub fn get_registered_or_running(s: &Status) -> (b: bool)
        ensures
            b == (s is Registered || s is Running),
    {
        match s {
            Status::Registered => true,
            Status::Running(_) => true,
            _ => false,
        }
    }
}

/// The answer to a request for a job's lock: the job's data and the lock, or
/// the news that someone else holds it.
pub enum LockStatus<L> {
    Acquired(JobData, L),
    AlreadyLocked,
}

} // verus!
