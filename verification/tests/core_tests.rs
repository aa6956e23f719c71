use rustomato::persistence::{PersistenceError, Repository};
use rustomato::scheduling::{
    countdown_step, now, CountdownAction, CountdownPoll, Scheduler, SchedulingError,
    POLL_INTERVAL_MS,
};
use rustomato::{Kind, Schedulable, SqlUuid, Status};

#[test]
fn status_from_timestamps() {
    let mut s = Schedulable::new(4711, Kind::Pomodoro, 25);
    assert_eq!(s.status_with(true), Status::New);
    assert_eq!(s.status_with(false), Status::New);

    s.started_at = 12;
    assert_eq!(s.status_with(true), Status::Active);
    assert_eq!(s.status_with(false), Status::Stale);

    s.finished_at = 13;
    assert_eq!(s.status_with(true), Status::Finished);
    assert_eq!(s.status_with(false), Status::Finished);

    // cancellation takes precedence over everything
    s.cancelled_at = 14;
    assert_eq!(s.status_with(true), Status::Cancelled);
    assert_eq!(s.status_with(false), Status::Cancelled);
}

#[test]
fn status_probes_owner_liveness() {
    // pid 1 exists on any running system; the other pid is above the
    // kernel's limit and can belong to no process.
    let mut alive = Schedulable::new(1, Kind::Pomodoro, 25);
    alive.started_at = 12;
    assert_eq!(alive.status(), Status::Active);

    let mut gone = Schedulable::new(4_000_000_000, Kind::Pomodoro, 25);
    gone.started_at = 12;
    assert_eq!(gone.status(), Status::Stale);
}

#[test]
fn kind_parsing_folds_case() {
    assert_eq!(Kind::from(String::from("pomodoro")).unwrap(), Kind::Pomodoro);
    assert_eq!(Kind::from(String::from("Pomodoro")).unwrap(), Kind::Pomodoro);
    assert_eq!(Kind::from(String::from("BREAK")).unwrap(), Kind::Break);
    assert_eq!(Kind::from(String::from("break")).unwrap(), Kind::Break);
    let err = Kind::from(String::from("lunch")).unwrap_err();
    assert_eq!(err.offender, "lunch");
}

#[test]
fn uuid_renders_as_32_hex_digits() {
    assert_eq!(
        SqlUuid(0).to_string(),
        "00000000000000000000000000000000"
    );
    assert_eq!(
        SqlUuid(0xdead_beef).to_string(),
        "000000000000000000000000deadbeef"
    );
    assert_eq!(
        SqlUuid(0x0123_4567_89ab_cdef_0123_4567_89ab_cdef).to_string(),
        "0123456789abcdef0123456789abcdef"
    );
    let fresh = SqlUuid::new().to_string();
    assert_eq!(fresh.len(), 32);
}

#[test]
fn find_by_uuid_round_trip() {
    let mut repo = Repository::new("file::memory:").expect("opening the store");
    let mut pom = Schedulable::new(4711, Kind::Break, 25);
    pom.started_at = 12;
    repo.save(&pom).expect("saving active break");

    let back = repo.find_by_uuid(pom.uuid).expect("reading back");
    assert_eq!(back.uuid, pom.uuid);
    assert_eq!(back.kind, Kind::Break);
    assert_eq!(back.duration, 25);
    assert_eq!(back.started_at, 12);
    assert_eq!(back.pid, 4711);
    assert_eq!(back.finished_at, 0);
    assert_eq!(back.cancelled_at, 0);
}

#[test]
fn find_by_uuid_missing() {
    let repo = Repository::new("file::memory:").expect("opening the store");
    let missing = repo.find_by_uuid(SqlUuid(42));
    assert_eq!(missing.unwrap_err(), PersistenceError::CannotFind);
}

#[test]
fn update_without_active_row_is_refused() {
    let mut repo = Repository::new("file::memory:").expect("opening the store");
    let mut pom = Schedulable::new(4711, Kind::Pomodoro, 25);
    pom.started_at = 12;
    pom.finished_at = 13;
    let result = repo.save(&pom);
    assert_eq!(result.unwrap_err(), PersistenceError::CannotUpdate);
}

#[test]
fn work_session_start_query_cancel() {
    let mut repo = Repository::new("file::memory:").expect("opening the store");
    let mut pom = Schedulable::new(4711, Kind::Pomodoro, 25);
    pom.started_at = now();
    repo.save(&pom).expect("saving active pomodoro");

    let active = repo.active().expect("querying active").expect("one active");
    assert_eq!(active.kind, Kind::Pomodoro);
    assert_eq!(active.status_with(true), Status::Active);

    pom.cancelled_at = now();
    let cancelled = repo.save(&pom).expect("cancelling");
    assert_eq!(cancelled.pid, 0);
    assert!(cancelled.cancelled_at > 0);
    assert_eq!(cancelled.finished_at, 0);
    assert_eq!(cancelled.status_with(true), Status::Cancelled);

    assert!(repo.active().expect("querying active").is_none());
}

#[test]
fn break_start_while_work_session_active() {
    let mut repo = Repository::new("file::memory:").expect("opening the store");
    let mut pom = Schedulable::new(4711, Kind::Pomodoro, 25);
    pom.started_at = 12;
    repo.save(&pom).expect("saving active pomodoro");

    let mut brk = Schedulable::new(42, Kind::Break, 5);
    brk.started_at = 13;
    let result = repo.save(&brk);
    assert_eq!(result.unwrap_err(), PersistenceError::AlreadyRunning(4711));

    // the store still holds exactly the first session, unmodified
    let active = repo.active().expect("querying active").expect("one active");
    assert_eq!(active.uuid, pom.uuid);
    assert_eq!(active.pid, 4711);
    assert_eq!(active.started_at, 12);
}

#[test]
fn run_to_elapsed() {
    let observer = Repository::new("file:rundb1?mode=memory&cache=shared").expect("opening the store");
    let repo = Repository::new("file:rundb1?mode=memory&cache=shared").expect("opening the store");
    let mut scheduler = Scheduler::new(repo);
    let session = Schedulable::new(4711, Kind::Pomodoro, 25);

    let done = scheduler.run(session, |_t| Some(false)).expect("running");
    assert_eq!(done.kind, Kind::Pomodoro);
    assert_eq!(done.duration, 25);
    assert_eq!(done.pid, 0);
    assert!(done.started_at > 0);
    assert!(done.finished_at > 0);
    assert_eq!(done.cancelled_at, 0);
    assert_eq!(done.status_with(true), Status::Finished);

    assert!(observer.active().expect("querying active").is_none());
}

#[test]
fn run_to_cancelled() {
    let observer = Repository::new("file:rundb2?mode=memory&cache=shared").expect("opening the store");
    let repo = Repository::new("file:rundb2?mode=memory&cache=shared").expect("opening the store");
    let mut scheduler = Scheduler::new(repo);
    let session = Schedulable::new(4711, Kind::Break, 5);

    let done = scheduler.run(session, |_t| Some(true)).expect("running");
    assert_eq!(done.pid, 0);
    assert!(done.cancelled_at > 0);
    assert_eq!(done.finished_at, 0);
    assert_eq!(done.status_with(true), Status::Cancelled);

    assert!(observer.active().expect("querying active").is_none());
}

#[test]
fn run_against_running_session() {
    let mut other = Repository::new("file:rundb3?mode=memory&cache=shared").expect("opening the store");
    let mut first = Schedulable::new(4711, Kind::Pomodoro, 25);
    first.started_at = 12;
    other.save(&first).expect("saving active pomodoro");

    let repo = Repository::new("file:rundb3?mode=memory&cache=shared").expect("opening the store");
    let mut scheduler = Scheduler::new(repo);
    let second = Schedulable::new(42, Kind::Break, 5);
    let result = scheduler.run(second, |_t| Some(false));
    assert_eq!(result.unwrap_err(), SchedulingError::AlreadyRunning(4711));
}

#[test]
fn run_rejects_zero_duration() {
    let repo = Repository::new("file::memory:").expect("opening the store");
    let mut scheduler = Scheduler::new(repo);
    let session = Schedulable::new(4711, Kind::Pomodoro, 0);
    let result = scheduler.run(session, |_t| Some(false));
    assert_eq!(result.unwrap_err(), SchedulingError::ExecutionError);
}

#[test]
fn run_with_broken_countdown() {
    let repo = Repository::new("file::memory:").expect("opening the store");
    let mut scheduler = Scheduler::new(repo);
    let session = Schedulable::new(4711, Kind::Pomodoro, 25);
    let result = scheduler.run(session, |_t| None);
    assert_eq!(result.unwrap_err(), SchedulingError::ExecutionError);
}

#[test]
fn run_hands_target_seconds_to_countdown() {
    let repo = Repository::new("file::memory:").expect("opening the store");
    let mut scheduler = Scheduler::new(repo);
    let session = Schedulable::new(4711, Kind::Pomodoro, 25);
    let done = scheduler
        .run(session, |t| if t == 25 * 60 { Some(false) } else { Some(true) })
        .expect("running");
    // the countdown saw 1500 seconds, so it reported "elapsed"
    assert!(done.finished_at > 0);
    assert_eq!(done.cancelled_at, 0);
}

#[test]
fn countdown_step_decides() {
    assert_eq!(
        countdown_step(10, 10, CountdownPoll::Quiet),
        CountdownAction::Report(false)
    );
    // the timer wins over a simultaneous cancellation
    assert_eq!(
        countdown_step(11, 10, CountdownPoll::CancelRequested),
        CountdownAction::Report(false)
    );
    assert_eq!(
        countdown_step(9, 10, CountdownPoll::CancelRequested),
        CountdownAction::Report(true)
    );
    assert_eq!(
        countdown_step(9, 10, CountdownPoll::ChannelClosed),
        CountdownAction::Abort
    );
    assert_eq!(
        countdown_step(9, 10, CountdownPoll::Quiet),
        CountdownAction::KeepWaiting
    );
    assert!(POLL_INTERVAL_MS < 1000);
}

#[test]
fn clock_reads_past_epoch() {
    assert!(now() > 0);
}

#[test]
fn oversized_duration_is_rejected() {
    // the store holds timestamps and durations as signed 64-bit integers
    let mut repo = Repository::new("file::memory:").expect("opening the store");
    let mut pom = Schedulable::new(4711, Kind::Pomodoro, u64::MAX);
    pom.started_at = 12;
    assert_eq!(repo.save(&pom).unwrap_err(), PersistenceError::CannotSave);

    // and the scheduler rejects a duration whose target in seconds overflows
    let mut scheduler = Scheduler::new(Repository::new("file::memory:").expect("opening the store"));
    let session = Schedulable::new(4711, Kind::Pomodoro, u64::MAX);
    let result = scheduler.run(session, |_t| Some(false));
    assert_eq!(result.unwrap_err(), SchedulingError::ExecutionError);
}

#[test]
fn record_without_owner_cannot_become_active() {
    let mut repo = Repository::new("file::memory:").expect("opening the store");
    let mut pom = Schedulable::new(0, Kind::Pomodoro, 25);
    pom.started_at = 12;
    assert_eq!(repo.save(&pom).unwrap_err(), PersistenceError::CannotSave);
}

#[test]
fn conflict_error_names_the_owner() {
    let mut found = Schedulable::new(4711, Kind::Pomodoro, 25);
    found.started_at = 12;
    assert_eq!(
        Repository::conflict_error(Ok(Some(found))),
        PersistenceError::AlreadyRunning(4711)
    );
    assert_eq!(
        Repository::conflict_error(Ok(None)),
        PersistenceError::CannotSave
    );
    assert_eq!(
        Repository::conflict_error(Err(PersistenceError::CannotFind)),
        PersistenceError::CannotSave
    );
}

#[test]
fn opening_an_impossible_location_fails() {
    match Repository::new("/this/path/does/not/exist/data.db") {
        Ok(_) => panic!("a store appeared under a directory that does not exist"),
        Err(e) => assert_eq!(e, PersistenceError::CannotSave),
    }
}
