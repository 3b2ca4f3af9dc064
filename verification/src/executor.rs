//! The executor of one job, as a state machine. Each function here takes the
//! current state and what the outside world answered (a repository, a timer,
//! the job's action) and decides the next state; the asynchronous loop that
//! sleeps, calls the repository and runs the action drives it.

use crate::crontab::cron_next_after;
use crate::error::Error;
use crate::interval::{Interval, NANOS_PER_SEC};
use crate::job::{
    due_defined, is_due, JobConfig, JobData, JobDataView, JobName, LockStatus,
    data_from_config,
};
use vstd::prelude::*;

verus! {

/// Seconds that an executor waits before it retries to read or create its
/// job after the repository failed.
pub const RETRY_DELAY_SECS: u64 = 1u64;

/// The state of a job's executor.
pub enum Executor<L> {
    /// Wait `delay`, then start.
    InitialDelay { jdata: JobData, delay: Interval },
    /// Wait `delay` (or a cancel), then try to lock.
    Sleeping { name: JobName, delay: Interval },
    /// Read the job from the repository, creating it where it is missing.
    Start { jdata: JobData },
    /// Try to lock the job; `delay` is how long to sleep if that fails.
    TryLock { name: JobName, delay: Interval },
    /// The lock is held: run the job's action if the job is due.
    Run { jdata: JobData, lock: L },
    /// The executor has stopped.
    Done,
}

/// The mathematical value of an executor's state (delays in nanoseconds).
pub enum ExecutorView<L> {
    InitialDelay { jdata: JobDataView, delay: nat },
    Sleeping { name: Seq<char>, delay: nat },
    Start { jdata: JobDataView },
    TryLock { name: Seq<char>, delay: nat },
    Run { jdata: JobDataView, lock: L },
    Done,
}

impl<L> View for Executor<L> {
    type V = ExecutorView<L>;

    open spec fn view(&self) -> ExecutorView<L> {
        match self {
            Executor::InitialDelay { jdata, delay } => ExecutorView::InitialDelay {
                jdata: jdata@,
                delay: delay@,
            },
            Executor::Sleeping { name, delay } => ExecutorView::Sleeping {
                name: name@,
                delay: delay@,
            },
            Executor::Start { jdata } => ExecutorView::Start { jdata: jdata@ },
            Executor::TryLock { name, delay } => ExecutorView::TryLock {
                name: name@,
                delay: delay@,
            },
            Executor::Run { jdata, lock } => ExecutorView::Run { jdata: jdata@, lock: *lock },
            Executor::Done => ExecutorView::Done,
        }
    }
}

/// The delay before a retry, in nanoseconds.
pub open spec fn retry_delay() -> nat {
    (RETRY_DELAY_SECS * NANOS_PER_SEC) as nat
}

/// The job that a state belongs to; none once the executor has stopped.
pub open spec fn job_of<L>(e: ExecutorView<L>) -> Option<Seq<char>> {
    match e {
        ExecutorView::InitialDelay { jdata, .. } => Some(jdata.name),
        ExecutorView::Sleeping { name, .. } => Some(name),
        ExecutorView::Start { jdata } => Some(jdata.name),
        ExecutorView::TryLock { name, .. } => Some(name),
        ExecutorView::Run { jdata, .. } => Some(jdata.name),
        ExecutorView::Done => None,
    }
}

/// Where the executor goes once the repository has answered a read of its
/// job: `None` for a failed read, `Some(None)` for a missing job.
pub enum StartStep<L> {
    /// Go on in this state.
    Next(Executor<L>),
    /// The job is missing: create it with this data, then call `on_create`.
    Create(JobData),
}

/// After the start delay: read the job.
pub open spec fn spec_after_initial_delay<L>(jdata: JobDataView) -> ExecutorView<L> {
    ExecutorView::Start { jdata }
}

/// After a sleep that was cancelled or ran out.
pub open spec fn spec_after_sleep<L>(name: Seq<char>, delay: nat, cancelled: bool) -> ExecutorView<
    L,
> {
    if cancelled {
        ExecutorView::Done
    } else {
        ExecutorView::TryLock { name, delay }
    }
}

/// After the read of the job, when it found the job's data `found`.
pub open spec fn spec_after_found<L>(found: JobDataView, now: i64) -> ExecutorView<L> {
    if is_due(found, now) {
        ExecutorView::TryLock { name: found.name, delay: found.check_interval }
    } else {
        ExecutorView::Sleeping { name: found.name, delay: found.check_interval }
    }
}

/// After the repository failed to read or to create the job: start over.
pub open spec fn spec_retry<L>(jdata: JobDataView) -> ExecutorView<L> {
    ExecutorView::InitialDelay { jdata, delay: retry_delay() }
}

/// After the job was created.
pub open spec fn spec_after_created<L>(jdata: JobDataView) -> ExecutorView<L> {
    ExecutorView::TryLock { name: jdata.name, delay: jdata.check_interval }
}

/// After the lock was acquired together with the job's data `found`.
pub open spec fn spec_after_acquired<L>(
    name: Seq<char>,
    delay: nat,
    found: JobDataView,
    lock: L,
    now: i64,
) -> ExecutorView<L> {
    if is_due(found, now) {
        ExecutorView::Run { jdata: found, lock }
    } else {
        ExecutorView::Sleeping { name, delay }
    }
}

/// What happened while the job's action ran with the lock held.
pub enum ActionOutcome {
    /// The action finished, with the job's next state or an error.
    Finished(Result<Vec<u8>, Error>),
    /// The lock ended (its refresh failed or stopped) before the action did.
    LockEnded,
}

/// The repository write that records a finished run.
pub struct SaveRequest {
    pub name: JobName,
    /// Milliseconds since the Unix epoch at which the run finished.
    pub last_run: i64,
    pub state: Vec<u8>,
}

/// Where the executor goes from `Run`.
pub enum RunStep<L> {
    /// Run the action on the job's state, keeping the lock meanwhile, then call
    /// `on_action_finished`.
    Execute { jdata: JobData, lock: L },
    /// Go on in this state (the lock is given up).
    Next(Executor<L>),
}

impl<L> Executor<L> {
    /// The first state of a job's executor: wait `delay`, then start with the
    /// job's fresh data.
    pub fn new(data: JobConfig, delay: Interval) -> (e: Executor<L>)
        ensures
            e@ == (ExecutorView::<L>::InitialDelay { jdata: data_from_config(data@), delay: delay@ }),
    {
        Executor::InitialDelay { jdata: JobData::from(data), delay }
    }

    /// Whether the executor has stopped.
    pub fn is_done(&self) -> (b: bool)
        ensures
            b == (self@ is Done),
    {
        match self {
            Executor::Done => true,
            _ => false,
        }
    }

    /// The label of the state that traces show.
    pub fn label(&self) -> (s: &'static str)
        ensures
            self@ is InitialDelay ==> s@ == "--------------------------- initial"@,
            self@ is Sleeping ==> s@ == "--------------------------- sleeping"@,
            self@ is Start ==> s@ == "------------------------------------ start"@,
            self@ is TryLock ==> s@ == "------------------------------------ trylock"@,
            self@ is Run ==> s@ == "------------------------------------ run"@,
            self@ is Done ==> s@ == "------------------------------------ done"@,
    {
        match self {
            Executor::InitialDelay { .. } => "--------------------------- initial",
            Executor::Sleeping { .. } => "--------------------------- sleeping",
            Executor::Start { .. } => "------------------------------------ start",
            Executor::TryLock { .. } => "------------------------------------ trylock",
            Executor::Run { .. } => "------------------------------------ run",
            Executor::Done => "------------------------------------ done",
        }
    }
}

/// The start delay has passed: read the job.
pub fn on_initial_delay<L>(jdata: JobData) -> (e: Executor<L>)
    ensures
        e@ == spec_after_initial_delay::<L>(jdata@),
{
    Executor::Start { jdata }
}

/// The sleep ended, cancelled or run out: stop, or try to lock the job.
pub fn on_sleeping<L>(name: JobName, delay: Interval, cancelled: bool) -> (e: Executor<L>)
    ensures
        e@ == spec_after_sleep::<L>(name@, delay@, cancelled),
{
    if cancelled {
        Executor::Done
    } else {
        Executor::TryLock { name, delay }
    }
}

/// The repository answered the read of the job (started with `jdata`) at
/// `now`: retry after a failure, create a missing job, and otherwise lock it if
/// it is due and sleep if not.
pub fn on_start<L>(jdata: JobData, fetched: Result<Option<JobData>, Error>, now: i64) -> (s:
    StartStep<L>)
    requires
        fetched matches Ok(Some(found)) ==> due_defined(found@),
    ensures
        fetched is Err ==> (s matches StartStep::Next(e) && e@ == spec_retry::<L>(jdata@)),
        fetched matches Ok(None) ==> (s matches StartStep::Create(d) && d@ == jdata@),
        fetched matches Ok(Some(found)) ==> (s matches StartStep::Next(e) && e@
            == spec_after_found::<L>(found@, now)),
        fetched matches Ok(Some(found)) ==> (s matches StartStep::Next(e) && {
            let due = found.enabled && (found.last_run == 0 || match cron_next_after(
                found@.schedule,
                found.last_run,
            ) {
                Some(t) => t < now,
                None => 0 < now,
            });
            &&& due ==> e@ == (ExecutorView::<L>::TryLock {
                name: found@.name,
                delay: found@.check_interval,
            })
            &&& !due ==> e@ == (ExecutorView::<L>::Sleeping {
                name: found@.name,
                delay: found@.check_interval,
            })
        }),
{
    match fetched {
        Err(_) => StartStep::Next(Executor::InitialDelay { jdata, delay: Interval::from_secs(RETRY_DELAY_SECS) }),
        Ok(None) => StartStep::Create(jdata),
        Ok(Some(found)) => {
            let delay = found.check_interval;
            if found.due(now) {
                StartStep::Next(Executor::TryLock { name: found.name, delay })
            } else {
                StartStep::Next(Executor::Sleeping { name: found.name, delay })
            }
        },
    }
}

/// The repository answered the creation of the missing job: retry after a
/// failure, and otherwise try to lock it.
pub fn on_create<L>(jdata: JobData, created: Result<(), Error>) -> (e: Executor<L>)
    ensures
        created is Err ==> e@ == spec_retry::<L>(jdata@),
        created is Ok ==> e@ == spec_after_created::<L>(jdata@),
{
    match created {
        Err(_) => Executor::InitialDelay { jdata, delay: Interval::from_secs(RETRY_DELAY_SECS) },
        Ok(()) => {
            let delay = jdata.check_interval;
            Executor::TryLock { name: jdata.name, delay }
        },
    }
}

/// The repository answered the request for the job's lock at `now`: run the
/// job if the lock was acquired and the job is due, and sleep otherwise.
pub fn on_try_lock<L>(name: JobName, delay: Interval, locked: Result<LockStatus<L>, Error>, now: i64) -> (e:
    Executor<L>)
    requires
        locked matches Ok(LockStatus::Acquired(found, _)) ==> due_defined(found@),
    ensures
        locked is Err ==> e@ == (ExecutorView::<L>::Sleeping { name: name@, delay: delay@ }),
        locked matches Ok(LockStatus::AlreadyLocked) ==> e@ == (ExecutorView::<L>::Sleeping {
            name: name@,
            delay: delay@,
        }),
        locked matches Ok(LockStatus::Acquired(found, lock)) ==> e@ == spec_after_acquired(
            name@,
            delay@,
            found@,
            lock,
            now,
        ),
        locked matches Ok(LockStatus::Acquired(found, lock)) ==> {
            let due = found.enabled && (found.last_run == 0 || match cron_next_after(
                found@.schedule,
                found.last_run,
            ) {
                Some(t) => t < now,
                None => 0 < now,
            });
            &&& due ==> e@ == (ExecutorView::<L>::Run { jdata: found@, lock })
            &&& !due ==> e@ == (ExecutorView::<L>::Sleeping { name: name@, delay: delay@ })
        },
{
    match locked {
        Err(_) => Executor::Sleeping { name, delay },
        Ok(LockStatus::AlreadyLocked) => Executor::Sleeping { name, delay },
        Ok(LockStatus::Acquired(found, lock)) => {
            if found.due(now) {
                Executor::Run { jdata: found, lock }
            } else {
                Executor::Sleeping { name, delay }
            }
        },
    }
}

/// With the lock held at `now`: run the action if the job is still due, and
/// otherwise give the lock up and sleep for the check interval.
pub fn on_run<L>(jdata: JobData, lock: L, now: i64) -> (s: RunStep<L>)
    requires
        due_defined(jdata@),
    ensures
        is_due(jdata@, now) ==> (s matches RunStep::Execute { jdata: d, lock: l } && d@ == jdata@
            && l == lock),
        !is_due(jdata@, now) ==> (s matches RunStep::Next(e) && e@ == (ExecutorView::<
            L,
        >::Sleeping { name: jdata@.name, delay: jdata@.check_interval })),
{
    if jdata.due(now) {
        RunStep::Execute { jdata, lock }
    } else {
        let delay = jdata.check_interval;
        RunStep::Next(Executor::Sleeping { name: jdata.name, delay })
    }
}

/// The action of the job `name` ended, or its lock did, at `now`: a finished
/// run is saved (state and time) and followed by a sleep of the check
/// interval; a failed action or a lost lock stops the executor.
pub fn on_action_finished<L>(name: JobName, check_interval: Interval, outcome: ActionOutcome, now: i64) -> (r: (
    Executor<L>,
    Option<SaveRequest>,
))
    ensures
        outcome matches ActionOutcome::Finished(Ok(state)) ==> {
            &&& r.0@ == (ExecutorView::<L>::Sleeping {
                name: name@,
                delay: check_interval@,
            })
            &&& (r.1 matches Some(save) && save.name@ == name@ && save.last_run == now
                && save.state@ == state@)
        },
        outcome matches ActionOutcome::Finished(Err(_)) ==> r.0@ is Done && r.1 is None,
        outcome is LockEnded ==> r.0@ is Done && r.1 is None,
{
    match outcome {
        ActionOutcome::Finished(Ok(state)) => {
            let save = SaveRequest { name: name.clone(), last_run: now, state };
            let delay = check_interval;
            (Executor::Sleeping { name, delay }, Some(save))
        },
        ActionOutcome::Finished(Err(_)) => (Executor::Done, None),
        ActionOutcome::LockEnded => (Executor::Done, None),
    }
}

/// An executor keeps to its job: every step from a state of job `name` leads
/// to a state of the same job or stops the executor, as long as the
/// repository answers with that job's data.
pub proof fn lemma_executor_keeps_its_job<L>(
    jdata: JobDataView,
    found: JobDataView,
    delay: nat,
    cancelled: bool,
    lock: L,
    now: i64,
)
    requires
        found.name == jdata.name,
    ensures
        job_of(spec_after_initial_delay::<L>(jdata)) == Some(jdata.name),
        spec_after_sleep::<L>(jdata.name, delay, cancelled) is Done || job_of(
            spec_after_sleep::<L>(jdata.name, delay, cancelled),
        ) == Some(jdata.name),
        job_of(spec_retry::<L>(jdata)) == Some(jdata.name),
        job_of(spec_after_created::<L>(jdata)) == Some(jdata.name),
        job_of(spec_after_found::<L>(found, now)) == Some(jdata.name),
        job_of(spec_after_acquired(jdata.name, delay, found, lock, now)) == Some(jdata.name),
{
}

/// An executor stops only when it is told to: a sleep ends the executor
/// exactly when it was cancelled, and no answer of the repository (a failure,
/// a missing job, a lock held elsewhere) stops it.
pub proof fn lemma_executor_stops_only_when_told<L>(
    jdata: JobDataView,
    found: JobDataView,
    name: Seq<char>,
    delay: nat,
    cancelled: bool,
    lock: L,
    now: i64,
)
    ensures
        spec_after_sleep::<L>(name, delay, cancelled) is Done <==> cancelled,
        !(spec_retry::<L>(jdata) is Done),
        !(spec_after_created::<L>(jdata) is Done),
        !(spec_after_found::<L>(found, now) is Done),
        !(spec_after_acquired(name, delay, found, lock, now) is Done),
{
}

/// A job's action runs only while its lock is held and the job is due: the
/// only step into `Run` is the acquisition of the lock of a due job.
pub proof fn lemma_only_due_jobs_run<L>(
    jdata: JobDataView,
    found: JobDataView,
    name: Seq<char>,
    delay: nat,
    cancelled: bool,
    lock: L,
    now: i64,
)
    ensures
        !(spec_after_initial_delay::<L>(jdata) is Run),
        !(spec_after_sleep::<L>(name, delay, cancelled) is Run),
        !(spec_retry::<L>(jdata) is Run),
        !(spec_after_created::<L>(jdata) is Run),
        !(spec_after_found::<L>(found, now) is Run),
        spec_after_acquired(name, delay, found, lock, now) is Run ==> is_due(found, now),
{
}

/// The steps that the executor's state machine allows: from the start delay
/// to the read; from the read to a retry, a lock attempt or a sleep; from a
/// sleep to a lock attempt or the end; from a lock attempt to a sleep or a run;
/// from a run to a sleep or the end. Nothing leaves the end.
pub open spec fn allowed_step<L>(from: ExecutorView<L>, to: ExecutorView<L>) -> bool {
    match from {
        ExecutorView::InitialDelay { .. } => to is Start,
        ExecutorView::Start { .. } => to is InitialDelay || to is TryLock || to is Sleeping,
        ExecutorView::Sleeping { .. } => to is TryLock || to is Done,
        ExecutorView::TryLock { .. } => to is Sleeping || to is Run,
        ExecutorView::Run { .. } => to is Sleeping || to is Done,
        ExecutorView::Done => false,
    }
}

/// Every step function moves the executor along an allowed step from the
/// state it handles.
pub proof fn lemma_steps_are_allowed<L>(
    jdata: JobDataView,
    found: JobDataView,
    name: Seq<char>,
    delay: nat,
    cancelled: bool,
    lock: L,
    now: i64,
)
    ensures
        allowed_step(
            ExecutorView::<L>::InitialDelay { jdata, delay },
            spec_after_initial_delay::<L>(jdata),
        ),
        allowed_step(ExecutorView::<L>::Start { jdata }, spec_retry::<L>(jdata)),
        allowed_step(ExecutorView::<L>::Start { jdata }, spec_after_created::<L>(jdata)),
        allowed_step(ExecutorView::<L>::Start { jdata }, spec_after_found::<L>(found, now)),
        allowed_step(
            ExecutorView::<L>::Sleeping { name, delay },
            spec_after_sleep::<L>(name, delay, cancelled),
        ),
        allowed_step(
            ExecutorView::<L>::TryLock { name, delay },
            ExecutorView::<L>::Sleeping { name, delay },
        ),
        allowed_step(
            ExecutorView::<L>::TryLock { name, delay },
            spec_after_acquired(name, delay, found, lock, now),
        ),
        allowed_step(
            ExecutorView::<L>::Run { jdata, lock },
            ExecutorView::<L>::Sleeping { name: jdata.name, delay: jdata.check_interval },
        ),
        allowed_step(ExecutorView::<L>::Run { jdata, lock }, ExecutorView::<L>::Done),
{
}

/// After a read that found the job's data, the executor tries to lock the job
/// exactly when the schedule makes it due (enabled, and never run or its next
/// firing after the last run lies before `now`), and otherwise sleeps for the
/// job's check interval; either way under the job's own name.
pub proof fn lemma_start_locks_only_due_jobs<L>(found: JobDataView, now: i64)
    ensures
        ({
            let due = found.enabled && (found.last_run == 0 || match cron_next_after(
                found.schedule,
                found.last_run,
            ) {
                Some(t) => t < now,
                None => 0 < now,
            });
            &&& due ==> spec_after_found::<L>(found, now) == (ExecutorView::<L>::TryLock {
                name: found.name,
                delay: found.check_interval,
            })
            &&& !due ==> spec_after_found::<L>(found, now) == (ExecutorView::<L>::Sleeping {
                name: found.name,
                delay: found.check_interval,
            })
        }),
{
}

/// Once the lock is acquired, the job runs exactly when its data is due
/// (enabled, and never run or its next firing after the last run lies before
/// `now`), with that data and that lock, whether or not it ran before; data
/// that is not due sends the executor to sleep under the requested name and
/// delay.
pub proof fn lemma_acquired_due_job_runs<L>(
    name: Seq<char>,
    delay: nat,
    found: JobDataView,
    lock: L,
    now: i64,
)
    ensures
        ({
            let due = found.enabled && (found.last_run == 0 || match cron_next_after(
                found.schedule,
                found.last_run,
            ) {
                Some(t) => t < now,
                None => 0 < now,
            });
            &&& due ==> spec_after_acquired(name, delay, found, lock, now) == (ExecutorView::<
                L,
            >::Run { jdata: found, lock })
            &&& !due ==> spec_after_acquired(name, delay, found, lock, now) == (ExecutorView::<
                L,
            >::Sleeping { name, delay })
        }),
{
}

} // verus!
