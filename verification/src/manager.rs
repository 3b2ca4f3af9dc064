//! The job manager: the registry of jobs, which jobs it starts, and how it
//! stops one.

use crate::cancel::{cancel_channel, send_cancel, CancelReceiver, CancelSender, Delivery};
use crate::error::Error;
use crate::interval::{Interval, NANOS_PER_MILLI, NANOS_PER_SEC};
use crate::job::{
    CronSchedule, Job, JobConfig, JobConfigView, JobName, Status, DEFAULT_CHECK_INTERVAL_SECS,
    DEFAULT_LOCK_TTL_SECS,
};
use rand::Rng;
use vstd::prelude::*;

verus! {

/// The shortest start delay of an executor, in milliseconds.
pub const MIN_START_DELAY_MILLIS: u64 = 10u64;

/// The bound (excluded) of the start delay of an executor, in milliseconds.
pub const MAX_START_DELAY_MILLIS: u64 = 100u64;

/// Calls `rand::thread_rng().gen_range(lo..hi)`. Claimed, as the crate
/// documents for a non-empty range (it panics on an empty one, which the
/// `requires` keeps out): the value lies in the range. Which value comes is
/// chance.
#[verifier::external_body]
fn random_in_range(lo: u64, hi: u64) -> (d: u64)
    requires
        lo < hi,
    ensures
        lo <= d < hi,
{
    rand::thread_rng().gen_range(lo..hi)
}

/// Whether a job in this status is started by `start_all`.
pub open spec fn startable(s: Status) -> bool {
    s is Registered || s is Running
}

/// The positions, in order, of the startable jobs among the first `n`.
pub open spec fn startable_positions<A>(jobs: Seq<Job<A>>, n: int) -> Seq<int>
    decreases n,
{
    if n <= 0 {
        Seq::empty()
    } else if startable(jobs[n - 1].status) {
        startable_positions(jobs, n - 1).push(n - 1)
    } else {
        startable_positions(jobs, n - 1)
    }
}

/// The position of the first of the first `n` jobs that carries `name`.
pub open spec fn first_named<A>(jobs: Seq<Job<A>>, name: Seq<char>, n: int) -> Option<int>
    decreases n,
{
    if n <= 0 {
        None
    } else {
        match first_named(jobs, name, n - 1) {
            Some(i) => Some(i),
            None => if jobs[n - 1].data@.name == name {
                Some(n - 1)
            } else {
                None
            },
        }
    }
}

/// Holds the name of this instance and the jobs registered with it.
pub struct JobManager<A> {
    instance: String,
    jobs: Vec<Job<A>>,
}

/// What the manager hands out for each job it starts: everything the job's
/// executor runs with.
pub struct Launch<A> {
    /// The instance on whose behalf the executor locks the job.
    pub instance: String,
    pub config: JobConfig,
    pub action: A,
    /// Fires when the job is stopped.
    pub cancel: CancelReceiver,
    /// How long to wait before the executor starts.
    pub delay: Interval,
}

/// What a stop request gave: its answer, and the record of the cancel signal
/// if one was sent.
pub struct StopOutcome {
    pub result: Result<(), Error>,
    pub delivery: Option<Delivery>,
}

/// The answer to a stop request for `name`, once the cancel signal was sent
/// to its executor: an error where it could not be delivered.
pub fn cancel_answer(name: String, delivered: bool) -> (res: Result<(), Error>)
    ensures
        delivered ==> res is Ok,
        !delivered ==> (res matches Err(Error::CancelFailed(n)) && n@ == name@),
{
    if delivered {
        Ok(())
    } else {
        Err(Error::CancelFailed(JobName(name)))
    }
}

impl<A> JobManager<A> {
    /// The registered jobs, in the order of registration.
    pub closed spec fn jobs_spec(&self) -> Seq<Job<A>> {
        self.jobs@
    }

    /// The name of this instance.
    pub closed spec fn instance_spec(&self) -> Seq<char> {
        self.instance@
    }

    /// A manager for this instance, with no jobs.
    pub fn new(instance: String) -> (m: JobManager<A>)
        ensures
            m.instance_spec() == instance@,
            m.jobs_spec().len() == 0,
    {
        JobManager { instance, jobs: Vec::new() }
    }

    /// The name of this instance.
    pub fn instance(&self) -> (s: &String)
        ensures
            s@ == self.instance_spec(),
    {
        &self.instance
    }

    /// The registered jobs, in the order of registration.
    pub fn jobs(&self) -> (j: &Vec<Job<A>>)
        ensures
            j@ == self.jobs_spec(),
    {
        &self.jobs
    }

    /// Adds a job with this configuration, registered and not started.
    pub fn register_config(&mut self, data: JobConfig, action: A)
        ensures
            final(self).instance_spec() == old(self).instance_spec(),
            final(self).jobs_spec().len() == old(self).jobs_spec().len() + 1,
            forall|i: int|
                0 <= i < old(self).jobs_spec().len() ==> final(self).jobs_spec()[i] == old(
                    self,
                ).jobs_spec()[i],
            final(self).jobs_spec().last().data@ == data@,
            final(self).jobs_spec().last().action == Some(action),
            final(self).jobs_spec().last().status is Registered,
    {
        self.jobs.push(Job::new(data, action));
    }

    /// Adds a job under `name` with `schedule` and the default configuration
    /// (see `JobConfig::new`), registered and not started.
    pub fn register(&mut self, name: String, action: A, schedule: CronSchedule)
        ensures
            final(self).instance_spec() == old(self).instance_spec(),
            final(self).jobs_spec().len() == old(self).jobs_spec().len() + 1,
            forall|i: int|
                0 <= i < old(self).jobs_spec().len() ==> final(self).jobs_spec()[i] == old(
                    self,
                ).jobs_spec()[i],
            final(self).jobs_spec().last().data@ == (JobConfigView {
                name: name@,
                check_interval: (DEFAULT_CHECK_INTERVAL_SECS * NANOS_PER_SEC) as nat,
                lock_ttl: (DEFAULT_LOCK_TTL_SECS * NANOS_PER_SEC) as nat,
                schedule: schedule@,
                enabled: true,
            }),
            final(self).jobs_spec().last().action == Some(action),
            final(self).jobs_spec().last().status is Registered,
    {
        self.register_config(JobConfig::new(name, schedule), action);
    }

    /// Starts every job that is registered or running: each gets a fresh
    /// cancel channel, gives up its action and becomes running; suspended jobs
    /// stay as they are. Returns, in the order of the jobs, what each started
    /// executor needs.
    pub fn start_all(&mut self) -> (launches: Vec<Launch<A>>)
        requires
            forall|i: int|
                0 <= i < old(self).jobs_spec().len() && startable(
                    #[trigger] old(self).jobs_spec()[i].status,
                ) ==> old(self).jobs_spec()[i].action is Some,
        ensures
            final(self).instance_spec() == old(self).instance_spec(),
            final(self).jobs_spec().len() == old(self).jobs_spec().len(),
            forall|i: int|
                #![trigger final(self).jobs_spec()[i]]
                0 <= i < old(self).jobs_spec().len() ==> {
                    let before = old(self).jobs_spec()[i];
                    let after = final(self).jobs_spec()[i];
                    if startable(before.status) {
                        &&& after.data@ == before.data@
                        &&& after.action is None
                        &&& after.status is Running
                    } else {
                        after == before
                    }
                },
            forall|i: int|
                #![trigger final(self).jobs_spec()[i]]
                0 <= i < final(self).jobs_spec().len() ==> !(final(self).jobs_spec()[i].status is Registered),
            launches@.len() == startable_positions(
                old(self).jobs_spec(),
                old(self).jobs_spec().len() as int,
            ).len(),
            forall|k: int|
                #![trigger launches@[k]]
                0 <= k < launches@.len() ==> {
                    let i = startable_positions(
                        old(self).jobs_spec(),
                        old(self).jobs_spec().len() as int,
                    )[k];
                    &&& launches@[k].instance@ == old(self).instance_spec()
                    &&& launches@[k].config@ == old(self).jobs_spec()[i].data@
                    &&& Some(launches@[k].action) == old(self).jobs_spec()[i].action
                    &&& MIN_START_DELAY_MILLIS * NANOS_PER_MILLI <= launches@[k].delay@ < MAX_START_DELAY_MILLIS * NANOS_PER_MILLI
                    &&& (final(self).jobs_spec()[i].status matches Status::Running(c)
                        && c.channel() == launches@[k].cancel.channel())
                },
    {
        let ghost orig = self.jobs@;
        let mut rest: Vec<Job<A>> = Vec::new();
        std::mem::swap(&mut rest, &mut self.jobs);
        let n = rest.len();
        let mut launches: Vec<Launch<A>> = Vec::new();
        let mut i: usize = 0;
        while i < n
            invariant
                0 <= i <= n,
                n == orig.len(),
                rest@ == orig.subrange(i as int, n as int),
                self.instance@ == old(self).instance@,
                orig == old(self).jobs@,
                self.jobs@.len() == i,
                forall|j: int|
                    0 <= j < n && startable(#[trigger] orig[j].status) ==> orig[j].action is Some,
                forall|j: int|
                    #![trigger self.jobs@[j]]
                    0 <= j < i ==> {
                        let before = orig[j];
                        let after = self.jobs@[j];
                        if startable(before.status) {
                            &&& after.data@ == before.data@
                            &&& after.action is None
                            &&& after.status is Running
                        } else {
                            after == before
                        }
                    },
                launches@.len() == startable_positions(orig, i as int).len(),
                forall|k: int|
                    #![trigger launches@[k]]
                    0 <= k < launches@.len() ==> {
                        let p = startable_positions(orig, i as int)[k];
                        &&& launches@[k].instance@ == self.instance@
                        &&& launches@[k].config@ == orig[p].data@
                        &&& Some(launches@[k].action) == orig[p].action
                        &&& MIN_START_DELAY_MILLIS * NANOS_PER_MILLI <= launches@[k].delay@ < MAX_START_DELAY_MILLIS * NANOS_PER_MILLI
                        &&& 0 <= p < self.jobs@.len()
                        &&& (self.jobs@[p].status matches Status::Running(c)
                            && c.channel() == launches@[k].cancel.channel())
                    },
            decreases n - i,
        {
            let job = rest.remove(0);
            assert(job == orig[i as int]);
            proof {
                lemma_positions_below(orig, i as int);
            }
            let Job { data, action, status } = job;
            if Job::<A>::get_registered_or_running(&status) {
                let (tx, rx) = cancel_channel();
                let act = action.unwrap();
                let delay = random_in_range(MIN_START_DELAY_MILLIS, MAX_START_DELAY_MILLIS);
                let config = data.clone();
                launches.push(
                    Launch {
                        instance: self.instance.clone(),
                        config,
                        action: act,
                        cancel: rx,
                        delay: Interval::from_millis(delay),
                    },
                );
                self.jobs.push(Job { data, action: None, status: Status::Running(tx) });
                assert(startable_positions(orig, i + 1) == startable_positions(orig, i as int).push(
                    i as int,
                ));
            } else {
                self.jobs.push(Job { data, action, status });
                assert(startable_positions(orig, i + 1) == startable_positions(orig, i as int));
            }
            i = i + 1;
        }
        launches
    }

    /// The cancel sender of the first job registered under `name`, if that
    /// job is running; the registry is given up.
    pub fn cancel_target(self, name: &String) -> (target: Option<CancelSender>)
        ensures
            target matches Some(tx) ==> exists|i: int|
                0 <= i < self.jobs_spec().len() && #[trigger] self.jobs_spec()[i].data@.name
                    == name@ && (forall|j: int|
                    0 <= j < i ==> self.jobs_spec()[j].data@.name != name@)
                    && self.jobs_spec()[i].status == Status::Running(tx),
            (forall|i: int|
                0 <= i < self.jobs_spec().len() ==> self.jobs_spec()[i].data@.name != name@)
                ==> target is None,
            match first_named(self.jobs_spec(), name@, self.jobs_spec().len() as int) {
                None => target is None,
                Some(i) => match self.jobs_spec()[i].status {
                    Status::Running(tx) => target == Some(tx),
                    _ => target is None,
                },
            },
    {
        let ghost all = self.jobs@;
        let JobManager { instance: _, jobs } = self;
        let n = jobs.len();
        let mut i: usize = 0;
        while i < n
            invariant
                0 <= i <= n,
                n == jobs@.len(),
                jobs@ == all,
                all == self.jobs_spec(),
                first_named(jobs@, name@, i as int) is None,
            decreases n - i,
        {
            if jobs[i].data.name.0 == *name {
                assert(first_named(all, name@, i + 1) == Some(i as int));
                proof {
                    lemma_first_named_stays(all, name@, i + 1, n as int);
                    lemma_first_named_is_first_match(all, name@, n as int);
                }
                let mut jobs = jobs;
                let job = jobs.remove(i);
                return match job.status {
                    Status::Running(tx) => Some(tx),
                    _ => None,
                };
            }
            i = i + 1;
        }
        proof {
            lemma_first_named_is_first_match(all, name@, n as int);
        }
        None
    }

    /// Stops the first job registered under `name` if it is running, by
    /// sending its executor the cancel signal on that job's channel (see
    /// `cancel_target`); the answer is `cancel_answer` of whether the signal
    /// was delivered. A missing or idle job needs nothing, and no signal is
    /// sent.
    pub fn stop_by_name(self, name: String) -> (out: StopOutcome)
        ensures
            first_named(self.jobs_spec(), name@, self.jobs_spec().len() as int) is None ==> (
            out.result is Ok && out.delivery is None),
            first_named(self.jobs_spec(), name@, self.jobs_spec().len() as int) matches Some(i) ==> (
            !(self.jobs_spec()[i].status is Running) ==> (out.result is Ok && out.delivery is None)),
            first_named(self.jobs_spec(), name@, self.jobs_spec().len() as int) matches Some(i) ==> (
            self.jobs_spec()[i].status matches Status::Running(c) ==> (out.delivery matches Some(d)
                && d.channel() == c.channel() && (d.was_delivered() ==> out.result is Ok) && (
            !d.was_delivered() ==> (out.result matches Err(Error::CancelFailed(n)) && n@
                == name@)))),
            out.result matches Err(e) ==> (e matches Error::CancelFailed(n) && n@ == name@),
            out.delivery matches Some(d) ==> exists|i: int|
                0 <= i < self.jobs_spec().len() && #[trigger] self.jobs_spec()[i].data@.name
                    == name@ && (forall|j: int|
                    0 <= j < i ==> self.jobs_spec()[j].data@.name != name@)
                    && (self.jobs_spec()[i].status matches Status::Running(c) && c.channel()
                    == d.channel()),
    {
        match self.cancel_target(&name) {
            Some(tx) => {
                let delivery = send_cancel(tx);
                let delivered = delivery.delivered();
                StopOutcome { result: cancel_answer(name, delivered), delivery: Some(delivery) }
            },
            None => StopOutcome { result: Ok(()), delivery: None },
        }
    }
}

/// The startable positions among the first `n` jobs lie below `n`.
proof fn lemma_positions_below<A>(jobs: Seq<Job<A>>, n: int)
    ensures
        forall|k: int|
            0 <= k < startable_positions(jobs, n).len() ==> 0 <= #[trigger] startable_positions(
                jobs,
                n,
            )[k] < n,
    decreases n,
{
    if n > 0 {
        lemma_positions_below(jobs, n - 1);
        let prev = startable_positions(jobs, n - 1);
        if startable(jobs[n - 1].status) {
            assert forall|k: int| 0 <= k < prev.len() + 1 implies 0 <= #[trigger] prev.push(
                n - 1,
            )[k] < n by {
                if k < prev.len() {
                    assert(prev.push(n - 1)[k] == prev[k]);
                }
            }
        }
    }
}

/// Once a name is found among the first `m` jobs, looking further finds the
/// same position.
proof fn lemma_first_named_stays<A>(jobs: Seq<Job<A>>, name: Seq<char>, m: int, n: int)
    requires
        0 < m <= n,
        first_named(jobs, name, m) is Some,
    ensures
        first_named(jobs, name, n) == first_named(jobs, name, m),
    decreases n - m,
{
    if m < n {
        lemma_first_named_stays(jobs, name, m + 1, n);
    }
}

/// A stop request reaches the job registered first under exactly the name
/// asked for: the position found among the first `n` jobs carries that name,
/// character for character, and no earlier job does; where none is found, no
/// job among the first `n` carries it.
pub proof fn lemma_first_named_is_first_match<A>(jobs: Seq<Job<A>>, name: Seq<char>, n: int)
    requires
        n <= jobs.len(),
    ensures
        first_named(jobs, name, n) matches Some(i) ==> (0 <= i < n && jobs[i].data@.name == name
            && forall|j: int| 0 <= j < i ==> jobs[j].data@.name != name),
        first_named(jobs, name, n) is None ==> forall|j: int|
            0 <= j < n ==> jobs[j].data@.name != name,
    decreases n,
{
    if n > 0 {
        lemma_first_named_is_first_match(jobs, name, n - 1);
    }
}

} // verus!
