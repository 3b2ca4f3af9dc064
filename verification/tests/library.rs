use jobs::error::Error;
use jobs::executor::{
    on_action_finished, on_create, on_initial_delay, on_run, on_sleeping, on_start, on_try_lock,
    ActionOutcome, Executor, RunStep, StartStep, RETRY_DELAY_SECS,
};
use jobs::interval::Interval;
use jobs::job::{CronSchedule, Job, JobConfig, JobData, JobName, LockStatus, Schedule, Status};
use jobs::lock::{acquire_lock_record, refreshed_lock, LockData};
use jobs::manager::{cancel_answer, JobManager};
use jobs::repos::{mongo, pickledb};
use jobs::schedule::{everyFiveMinutes, minutely, secondly};
use jobs::timestamp::{millis_of_stored, seconds_of, seconds_to_store};

// 2001-09-09T01:46:40Z, on a whole second.
const T0: i64 = 1_000_000_000_000;

fn cron(expr: &str) -> CronSchedule {
    CronSchedule::from_str(expr).ok().unwrap()
}

fn sched(s: Schedule) -> CronSchedule {
    cron(&s.expr)
}

fn data(expr: &str, enabled: bool, last_run: i64) -> JobData {
    JobData {
        name: JobName("job".to_string()),
        check_interval: Interval::from_secs(3),
        lock_ttl: Interval::from_secs(20),
        state: vec![1, 2, 3],
        schedule: cron(expr),
        enabled,
        last_run,
    }
}

#[test]
fn config_defaults_and_builders() {
    let c = JobConfig::new("project-updater".to_string(), sched(minutely()));
    assert_eq!(c.name.0, "project-updater");
    assert_eq!(c.check_interval.as_secs(), 60);
    assert_eq!(c.lock_ttl.as_secs(), 20);
    assert!(c.enabled);
    assert_eq!(c.schedule.to_string(), "0 * * * * *");
    let c = c.with_check_interval(Interval::from_millis(3500)).with_lock_ttl(Interval::from_secs(7));
    assert_eq!(c.check_interval.as_secs(), 3);
    assert_eq!(c.check_interval.subsec_nanos(), 500_000_000);
    assert_eq!(c.lock_ttl.as_secs(), 7);
}

#[test]
fn ready_made_schedules() {
    assert_eq!(secondly().expr, "* * * * * *");
    assert_eq!(minutely().expr, "0 * * * * *");
    assert_eq!(everyFiveMinutes().expr, "0 */5 * * * *");
    assert_eq!(Schedule::minutely().expr, "0 * * * * *");
}

#[test]
fn data_from_config_is_fresh() {
    let d = JobData::from(JobConfig::new("a".to_string(), sched(secondly())));
    assert_eq!(d.name.0, "a");
    assert!(d.state.is_empty());
    assert_eq!(d.last_run, 0);
    assert_eq!(d.check_interval.as_secs(), 60);
}

#[test]
fn disabled_job_is_never_due() {
    assert!(!data("* * * * * *", false, 0).due(T0));
    assert!(!data("* * * * * *", false, T0).due(T0 + 10_000));
}

#[test]
fn never_run_job_is_due() {
    assert!(data("0 0 0 1 1 *", true, 0).due(0));
    assert!(data("* * * * * *", true, 0).due(-5));
}

#[test]
fn due_after_next_scheduled_run() {
    // every second: the next run after T0 is T0 + 1000 ms
    let d = data("* * * * * *", true, T0);
    assert!(!d.due(T0 + 1000));
    assert!(d.due(T0 + 1001));
    // every minute at second 0: T0 is at 01:46:40, next is 01:47:00
    let d = data("0 * * * * *", true, T0);
    assert!(!d.due(T0 + 20_000));
    assert!(d.due(T0 + 20_001));
}

#[test]
fn schedule_without_next_run_counts_as_epoch() {
    assert_eq!(JobData::next_run_passed(None, 1), true);
    assert_eq!(JobData::next_run_passed(None, 0), false);
    assert_eq!(JobData::next_run_passed(Some(10), 10), false);
    assert_eq!(JobData::next_run_passed(Some(10), 11), true);
}

#[test]
fn cron_schedule_parsing() {
    assert!(CronSchedule::from_str("* * * * * *").is_ok());
    match CronSchedule::from_str("not cron") {
        Err(Error::InvalidCronExpression { expression, msg }) => {
            assert_eq!(expression, "not cron");
            assert_eq!(msg, "Invalid expression: Invalid cron expression.");
        }
        _ => panic!("expected an invalid cron expression"),
    }
    assert_eq!(cron("0 */5 * * * *").as_str(), "0 */5 * * * *");
    assert_eq!(cron("0 */5 * * * *").clone().to_string(), "0 */5 * * * *");
}

#[test]
fn intervals() {
    let i = Interval::from_millis(2_345);
    assert_eq!(i.as_secs(), 2);
    assert_eq!(i.subsec_nanos(), 345_000_000);
    let j = Interval::new(1, 2_500_000_000);
    assert_eq!(j.as_secs(), 3);
    assert_eq!(j.subsec_nanos(), 500_000_000);
    assert_eq!(Interval::from_secs(9).subsec_nanos(), 0);
}

#[test]
fn due_is_defined_bounds() {
    assert!(data("* * * * * *", true, 0).due_is_defined());
    assert!(data("* * * * * *", true, T0).due_is_defined());
    assert!(!data("* * * * * *", true, -1).due_is_defined());
    assert!(data("* * * * * *", false, -1).due_is_defined());
}

#[test]
fn timestamp_conversions() {
    assert_eq!(seconds_to_store(1999), 1);
    assert_eq!(seconds_to_store(-1), u64::MAX);
    assert_eq!(seconds_to_store(-1001), u64::MAX - 1);
    assert_eq!(seconds_of(1999), 1);
    assert_eq!(seconds_of(-1), -1);
    assert_eq!(seconds_of(-1000), -1);
    assert_eq!(seconds_of(-1001), -2);
    assert_eq!(millis_of_stored(3), 3000);
}

#[test]
fn pickledb_record_round_trip() {
    let d = data("* * * * * *", true, T0 + 999);
    let r = pickledb::JobDto::from(d);
    assert_eq!(r.name.0, "job");
    assert_eq!(r.last_run, 1_000_000_000);
    assert_eq!(r.owner, "");
    assert_eq!(r.expires, 0);
    assert_eq!(r.version, 0);
    let back = r.try_into().ok().unwrap();
    assert_eq!(back.last_run, T0);
    assert_eq!(back.state, vec![1, 2, 3]);
    assert_eq!(back.schedule.to_string(), "* * * * * *");
    assert_eq!(back.check_interval.as_secs(), 3);
}

#[test]
fn pickledb_record_with_bad_schedule() {
    let r = pickledb::JobDto { schedule: "bogus".to_string(), ..pickledb::JobDto::from(data("* * * * * *", true, 0)) };
    match r.try_into() {
        Err(Error::InvalidCronExpression { expression, msg }) => {
            assert_eq!(expression, "bogus");
            assert_eq!(msg, "Invalid expression: Invalid cron expression.");
        }
        _ => panic!("expected an invalid cron expression"),
    }
    assert!(matches!(pickledb::job_from_record(None), Ok(None)));
    let r = pickledb::JobDto { schedule: "bogus".to_string(), ..pickledb::JobDto::from(data("* * * * * *", true, 0)) };
    assert!(matches!(pickledb::job_from_record(Some(r)), Err(Error::InvalidCronExpression { .. })));
    assert!(pickledb::record_to_create(true, data("* * * * * *", true, 0)).is_none());
    let c = pickledb::record_to_create(false, data("* * * * * *", true, 0)).unwrap();
    assert_eq!(c.check_interval, 3);
    let r = pickledb::JobDto::from(data("* * * * * *", true, 0));
    assert!(matches!(pickledb::job_from_record(Some(r)), Ok(Some(_))));
}

#[test]
fn pickledb_lock_rules() {
    assert!(matches!(pickledb::lock_record(None, "me".to_string(), 100), Err(Error::TODO)));
    let r = pickledb::JobDto::from(data("* * * * * *", true, 0));
    let a = match pickledb::lock_record(Some(r), "me".to_string(), 100) {
        Ok(pickledb::LockDecision::Acquire(a)) => a,
        _ => panic!("expected the lock"),
    };
    assert_eq!(a.owner, "me");
    assert_eq!(a.expires, 110);
    // held until it expires
    let held = a;
    let copy = pickledb::JobDto { owner: held.owner.clone(), state: held.state.clone(), schedule: held.schedule.clone(), name: JobName(held.name.0.clone()), ..held };
    assert!(matches!(pickledb::lock_record(Some(copy), "you".to_string(), 109), Ok(pickledb::LockDecision::AlreadyLocked)));
    let r = pickledb::JobDto { expires: 110, ..pickledb::JobDto::from(data("* * * * * *", true, 0)) };
    assert!(matches!(pickledb::lock_record(Some(r), "you".to_string(), 110), Ok(pickledb::LockDecision::Acquire(_))));
}

#[test]
fn pickledb_save_releases_lock() {
    assert!(matches!(pickledb::save_record(None, T0, vec![]), Err(Error::TODO)));
    let r = pickledb::JobDto { owner: "me".to_string(), expires: 500, version: 3, ..pickledb::JobDto::from(data("* * * * * *", true, 0)) };
    let s = pickledb::save_record(Some(r), T0 + 1500, vec![9]).ok().unwrap();
    assert_eq!(s.last_run, 1_000_000_001);
    assert_eq!(s.owner, "");
    assert_eq!(s.expires, 0);
    assert_eq!(s.version, 0);
    assert_eq!(s.state, vec![9]);
    let t = pickledb::refresh_record(s, "me".to_string(), 1000);
    assert_eq!(t.expires, 1005);
    assert_eq!(t.owner, "me");
    assert_eq!(pickledb::refresh_interval_secs(), 2);
}

#[test]
fn mongo_document_round_trip() {
    let mut d = data("0 * * * * *", true, T0);
    d.state = b"foo".to_vec();
    let r = mongo::JobDto::from(d);
    assert_eq!(r._id, "job");
    assert_eq!(r.state, "Zm9v");
    assert_eq!(r.last_run, 1_000_000_000);
    let back = r.try_into().ok().unwrap();
    assert_eq!(back.state, b"foo".to_vec());
    assert_eq!(back.name.0, "job");
    assert_eq!(back.last_run, T0);
}

#[test]
fn mongo_document_errors() {
    let r = mongo::JobDto { state: "***".to_string(), ..mongo::JobDto::from(data("* * * * * *", true, 0)) };
    assert!(matches!(r.try_into(), Err(Error::TODO)));
    let r = mongo::JobDto { state: "***".to_string(), schedule: "nope".to_string(), ..mongo::JobDto::from(data("* * * * * *", true, 0)) };
    assert!(matches!(r.try_into(), Err(Error::InvalidCronExpression { .. })));
    assert!(matches!(mongo::lock_answer(Ok(None)), Ok(None)));
    let r = mongo::JobDto { schedule: "nope".to_string(), ..mongo::JobDto::from(data("* * * * * *", true, 0)) };
    match mongo::lock_answer(Ok(Some(r))) {
        Err(Error::InvalidCronExpression { expression, .. }) => assert_eq!(expression, "nope"),
        _ => panic!("expected an invalid cron expression"),
    }
    match mongo::lock_answer(Err("down".to_string())) {
        Err(Error::Repo(m)) => assert_eq!(m, "down"),
        _ => panic!("expected a repository error"),
    }
    let r = mongo::JobDto::from(data("* * * * * *", true, 0));
    assert!(matches!(mongo::lock_answer(Ok(Some(r))), Ok(Some(_))));
    assert!(matches!(mongo::job_from_document(None), Ok(None)));
}

#[test]
fn mongo_lock_decisions() {
    assert!(matches!(mongo::lock_document(None, "me".to_string(), 100), Err(Error::TODO)));
    let held = mongo::JobDto { owner: "you".to_string(), expires: 101, ..mongo::JobDto::from(data("* * * * * *", true, 0)) };
    assert!(matches!(mongo::lock_document(Some(held), "me".to_string(), 100), Ok(mongo::LockDecision::AlreadyLocked)));
    let free = mongo::JobDto { owner: "you".to_string(), expires: 100, ..mongo::JobDto::from(data("* * * * * *", true, 0)) };
    match mongo::lock_document(Some(free), "me".to_string(), 100) {
        Ok(mongo::LockDecision::Acquire { owner, expires }) => {
            assert_eq!(owner, "me");
            assert_eq!(expires, 120);
        }
        _ => panic!("expected the lock"),
    }
}

#[test]
fn mongo_update_values() {
    assert_eq!(mongo::lock_expiry(100, 20), 120);
    assert_eq!(mongo::refresh_interval_secs(20), 10);
    let u = mongo::save_update(T0 + 1500, &b"fo".to_vec());
    assert_eq!(u.state, "Zm8=");
    assert_eq!(u.last_run, 1_000_000_001);
    assert_eq!(u.owner, "");
    assert_eq!(u.expires, 0);
    assert_eq!(mongo::commit_state(&b"f".to_vec()), "Zg==");
}

#[test]
fn separate_lock_records() {
    let g = acquire_lock_record(None, "me".to_string(), 100, 30).unwrap();
    assert_eq!(g.owner, "me");
    assert_eq!(g.expires, 130);
    assert_eq!(g.version, 0);
    let held = LockData { owner: "me".to_string(), expires: 130, version: 0 };
    assert!(acquire_lock_record(Some(held), "you".to_string(), 129, 30).is_none());
    let old = LockData { owner: "me".to_string(), expires: 130, version: 0 };
    let g = acquire_lock_record(Some(old), "you".to_string(), 130, 5).unwrap();
    assert_eq!(g.owner, "you");
    assert_eq!(g.expires, 135);
    let r = refreshed_lock(50);
    assert_eq!(r.owner, "owner");
    assert_eq!(r.expires, 60);
}

fn name_of<L>(e: &Executor<L>) -> Option<String> {
    match e {
        Executor::InitialDelay { jdata, .. } | Executor::Start { jdata } | Executor::Run { jdata, .. } => Some(jdata.name.0.clone()),
        Executor::Sleeping { name, .. } | Executor::TryLock { name, .. } => Some(name.0.clone()),
        Executor::Done => None,
    }
}

#[test]
fn executor_start_and_delays() {
    let e: Executor<()> = Executor::new(JobConfig::new("j".to_string(), sched(secondly())), Interval::from_millis(42));
    match e {
        Executor::InitialDelay { jdata, delay } => {
            assert_eq!(delay.subsec_nanos(), 42_000_000);
            assert_eq!(jdata.last_run, 0);
            let s: Executor<()> = on_initial_delay(jdata);
            assert_eq!(s.label(), "------------------------------------ start");
        }
        _ => panic!("expected the initial delay"),
    }
    let e: Executor<()> = on_sleeping(JobName("j".to_string()), Interval::from_secs(7), true);
    assert!(e.is_done());
    let e: Executor<()> = on_sleeping(JobName("j".to_string()), Interval::from_secs(7), false);
    assert!(matches!(e, Executor::TryLock { delay, .. } if delay.as_secs() == 7));
}

#[test]
fn executor_on_start() {
    let s: StartStep<()> = on_start(data("* * * * * *", true, 0), Err(Error::TODO), T0);
    assert!(matches!(s, StartStep::Next(Executor::InitialDelay { delay, .. }) if delay.as_secs() == RETRY_DELAY_SECS));
    let s: StartStep<()> = on_start(data("* * * * * *", true, 0), Ok(None), T0);
    assert!(matches!(s, StartStep::Create(_)));
    let s: StartStep<()> = on_start(data("0 0 0 1 1 *", true, 0), Ok(Some(data("* * * * * *", true, 0))), T0);
    assert!(matches!(s, StartStep::Next(Executor::TryLock { delay, .. }) if delay.as_secs() == 3));
    let s: StartStep<()> = on_start(data("0 0 0 1 1 *", true, 0), Ok(Some(data("* * * * * *", false, 0))), T0);
    assert!(matches!(s, StartStep::Next(Executor::Sleeping { delay, .. }) if delay.as_secs() == 3));
    let e: Executor<()> = on_create(data("* * * * * *", true, 0), Err(Error::TODO));
    assert!(matches!(e, Executor::InitialDelay { delay, .. } if delay.as_secs() == 1));
    let e: Executor<()> = on_create(data("* * * * * *", true, 0), Ok(()));
    assert!(matches!(e, Executor::TryLock { delay, .. } if delay.as_secs() == 3));
    assert_eq!(name_of(&e), Some("job".to_string()));
}

#[test]
fn executor_on_try_lock_and_run() {
    let n = || JobName("job".to_string());
    let e: Executor<u8> = on_try_lock(n(), Interval::from_secs(5), Err(Error::TODO), T0);
    assert!(matches!(e, Executor::Sleeping { delay, .. } if delay.as_secs() == 5));
    let e: Executor<u8> = on_try_lock(n(), Interval::from_secs(5), Ok(LockStatus::AlreadyLocked), T0);
    assert!(matches!(e, Executor::Sleeping { delay, .. } if delay.as_secs() == 5));
    let e: Executor<u8> = on_try_lock(n(), Interval::from_secs(5), Ok(LockStatus::Acquired(data("* * * * * *", true, 0), 9)), T0);
    assert!(matches!(e, Executor::Run { lock: 9, .. }));
    let e: Executor<u8> = on_try_lock(n(), Interval::from_secs(5), Ok(LockStatus::Acquired(data("* * * * * *", false, 0), 9)), T0);
    assert!(matches!(e, Executor::Sleeping { delay, .. } if delay.as_secs() == 5));
    let s = on_run(data("* * * * * *", true, 0), 4u8, T0);
    assert!(matches!(s, RunStep::Execute { lock: 4, .. }));
    let s = on_run(data("* * * * * *", true, T0), 4u8, T0 + 500);
    assert!(matches!(s, RunStep::Next(Executor::Sleeping { delay, .. }) if delay.as_secs() == 3));
}

#[test]
fn executor_after_action() {
    let (e, save) = on_action_finished::<u8>(JobName("job".to_string()), Interval::from_secs(2), ActionOutcome::Finished(Ok(vec![7])), T0);
    assert!(matches!(e, Executor::Sleeping { delay, .. } if delay.as_secs() == 2));
    let save = save.unwrap();
    assert_eq!(save.name.0, "job");
    assert_eq!(save.last_run, T0);
    assert_eq!(save.state, vec![7]);
    let (e, save) = on_action_finished::<u8>(JobName("job".to_string()), Interval::from_secs(2), ActionOutcome::Finished(Err(Error::TODO)), T0);
    assert!(e.is_done() && save.is_none());
    let (e, save) = on_action_finished::<u8>(JobName("job".to_string()), Interval::from_secs(2), ActionOutcome::LockEnded, T0);
    assert!(e.is_done() && save.is_none());
}

#[test]
fn job_status_helpers() {
    let j = Job::new(JobConfig::new("a".to_string(), sched(secondly())), ());
    assert!(matches!(j.status, Status::Registered));
    assert!(j.action.is_some());
    assert!(Job::<()>::get_registered_or_running(&Status::Registered));
    assert!(!Job::<()>::get_registered_or_running(&Status::Suspended));
    let mut m: JobManager<()> = JobManager::new("i".to_string());
    m.register("a".to_string(), (), sched(secondly()));
    let _launches = m.start_all();
    assert!(Job::<()>::get_registered_or_running(&m.jobs()[0].status));
}

#[test]
fn manager_starts_registered_jobs() {
    let mut m: JobManager<u32> = JobManager::new("node-1".to_string());
    m.register("a".to_string(), 1, sched(secondly()));
    m.register_config(JobConfig::new("b".to_string(), sched(minutely())).with_check_interval(Interval::from_secs(3)), 2);
    assert_eq!(m.jobs().len(), 2);
    let launches = m.start_all();
    assert_eq!(launches.len(), 2);
    assert_eq!(launches[0].config.name.0, "a");
    assert_eq!(launches[0].action, 1);
    assert_eq!(launches[1].action, 2);
    assert_eq!(launches[1].instance, "node-1");
    for l in &launches {
        assert_eq!(l.delay.as_secs(), 0);
        assert!(10_000_000 <= l.delay.subsec_nanos() && l.delay.subsec_nanos() < 100_000_000);
    }
    assert!(m.jobs().iter().all(|j| matches!(j.status, Status::Running(_)) && j.action.is_none()));
}

#[test]
fn manager_skips_suspended_jobs() {
    let mut m: JobManager<u32> = JobManager::new("node-1".to_string());
    m.register("a".to_string(), 1, sched(secondly()));
    let launches = m.start_all();
    assert_eq!(launches.len(), 1);
    let mut m: JobManager<u32> = JobManager::new("n".to_string());
    m.register("s".to_string(), 5, sched(secondly()));
    assert_eq!(m.instance(), "n");
    assert!(m.start_all().len() == 1);
}

#[test]
fn manager_stop_by_name() {
    let mut m: JobManager<u32> = JobManager::new("node-1".to_string());
    m.register("a".to_string(), 1, sched(secondly()));
    let launches = m.start_all();
    // the executor still listens: the signal is delivered
    let mut rx = launches.into_iter().next().unwrap().cancel.into_inner();
    let out = m.stop_by_name("a".to_string());
    assert!(out.result.is_ok());
    assert!(out.delivery.unwrap().delivered());
    assert!(rx.try_recv().is_ok());

    let mut m: JobManager<u32> = JobManager::new("node-1".to_string());
    m.register("a".to_string(), 1, sched(secondly()));
    let launches = m.start_all();
    drop(launches);
    let out = m.stop_by_name("a".to_string());
    match out.result {
        Err(Error::CancelFailed(n)) => assert_eq!(n.0, "a"),
        _ => panic!("expected a failed cancel"),
    }
    assert!(!out.delivery.unwrap().delivered());

    let mut m: JobManager<u32> = JobManager::new("node-1".to_string());
    m.register("a".to_string(), 1, sched(secondly()));
    let out = m.stop_by_name("a".to_string());
    assert!(out.result.is_ok() && out.delivery.is_none());
    let m: JobManager<u32> = JobManager::new("node-1".to_string());
    let out = m.stop_by_name("zzz".to_string());
    assert!(out.result.is_ok() && out.delivery.is_none());
}

#[test]
fn cancel_answers() {
    assert!(cancel_answer("a".to_string(), true).is_ok());
    assert!(matches!(cancel_answer("a".to_string(), false), Err(Error::CancelFailed(_))));
}

#[test]
fn job_name_helpers() {
    let a = JobName("x".to_string());
    assert_eq!(a.as_str(), "x");
    assert_eq!(a.to_string(), "x");
    assert!(a.same_as(&a.clone()));
    assert!(!a.same_as(&JobName("y".to_string())));
}

#[test]
fn due_job_stays_due() {
    let d = data("* * * * * *", true, T0);
    assert!(d.due(T0 + 1001));
    assert!(d.due(T0 + 5_000));
    assert!(d.due(i64::MAX));
}

#[test]
fn lock_excludes_until_expiry_on_values() {
    let r = pickledb::JobDto::from(data("* * * * * *", true, 0));
    let a = match pickledb::lock_record(Some(r), "me".to_string(), 1000) {
        Ok(pickledb::LockDecision::Acquire(a)) => a,
        _ => panic!("expected the lock"),
    };
    for t in 1000..1010 {
        let copy = pickledb::JobDto { owner: a.owner.clone(), state: a.state.clone(), schedule: a.schedule.clone(), name: a.name.clone(), ..pickledb::JobDto::from(data("* * * * * *", true, 0)) };
        let copy = pickledb::JobDto { expires: a.expires, ..copy };
        assert!(matches!(pickledb::lock_record(Some(copy), "you".to_string(), t), Ok(pickledb::LockDecision::AlreadyLocked)));
    }
}

#[test]
fn manager_register_defaults() {
    let mut m: JobManager<u8> = JobManager::new("i".to_string());
    m.register("x".to_string(), 3, sched(everyFiveMinutes()));
    let j = &m.jobs()[0];
    assert_eq!(j.data.name.0, "x");
    assert_eq!(j.data.check_interval.as_secs(), 60);
    assert_eq!(j.data.lock_ttl.as_secs(), 20);
    assert_eq!(j.data.schedule.to_string(), "0 */5 * * * *");
    assert!(matches!(j.status, Status::Registered));
    assert_eq!(j.action, Some(3));
}

#[test]
fn manager_cancel_target() {
    let mut m: JobManager<u8> = JobManager::new("i".to_string());
    m.register("x".to_string(), 3, sched(secondly()));
    assert!(m.cancel_target(&"x".to_string()).is_none());
    let mut m: JobManager<u8> = JobManager::new("i".to_string());
    m.register("x".to_string(), 3, sched(secondly()));
    m.register("y".to_string(), 4, sched(secondly()));
    let launches = m.start_all();
    assert_eq!(launches[1].config.check_interval.as_secs(), 60);
    assert!(m.cancel_target(&"y".to_string()).is_some());
    // the sender has been given up: its receiver sees it closed
    let mut rx = launches.into_iter().nth(1).unwrap().cancel.into_inner();
    assert!(rx.try_recv().is_err());
}
