//! Orchestration of one session's run: mark it active, persist it, drive a
//! cancellable countdown, persist the terminal outcome.
//!
//! The countdown's waiting — sleeping, listening for an interrupt, drawing a
//! progress bar — is outside work that the caller supplies: [`Scheduler::run`]
//! takes it as a function from the target length in seconds to the outcome
//! (`Some(true)` cancelled, `Some(false)` elapsed, `None` when the outcome
//! channel broke), and [`countdown_step`] decides, for one poll of such a
//! waiter's loop, what happens next.

use vstd::prelude::*;

use crate::persistence::{has_unterminated, row_of, unterminated, PersistenceError, Repository};
use crate::{is_new, Schedulable};

verus! {

/// Why a run failed: the countdown or a terminal update broke
/// ([`SchedulingError::ExecutionError`]), or another session is already
/// Active or Stale, its owner named.
#[derive(Clone, Copy, PartialEq, Eq, Structural, Debug)]
pub enum SchedulingError {
    ExecutionError,
    AlreadyRunning(u32),
}

/// How often a countdown's waiter polls for cancellation, in milliseconds:
/// small against the one-second granularity of the timer itself.
pub const POLL_INTERVAL_MS: u64 = 25;

/// The longest duration, in minutes, whose target in seconds fits a `u64`.
pub const MAX_MINUTES: u64 = u64::MAX / 60;

/// What one poll of the countdown's waiter observed besides the clock.
#[derive(Clone, Copy, PartialEq, Eq, Structural, Debug)]
pub enum CountdownPoll {
    CancelRequested,
    ChannelClosed,
    Quiet,
}

/// What the countdown's waiter does next: report the one outcome (`true`
/// when cancelled), abort without an outcome, or keep waiting.
#[derive(Clone, Copy, PartialEq, Eq, Structural, Debug)]
pub enum CountdownAction {
    Report(bool),
    Abort,
    KeepWaiting,
}

/// One step of the countdown: the first of {timer reached its target,
/// cancellation arrived} decides the single outcome, the timer checked
/// first; a closed control channel aborts; otherwise the waiter sleeps
/// another poll interval.
pub fn countdown_step(elapsed_secs: u64, target_secs: u64, poll: CountdownPoll) -> (a:
    CountdownAction)
    ensures
        elapsed_secs >= target_secs ==> a == CountdownAction::Report(false),
        elapsed_secs < target_secs && poll == CountdownPoll::CancelRequested ==> a
            == CountdownAction::Report(true),
        elapsed_secs < target_secs && poll == CountdownPoll::ChannelClosed ==> a
            == CountdownAction::Abort,
        elapsed_secs < target_secs && poll == CountdownPoll::Quiet ==> a
            == CountdownAction::KeepWaiting,
{
    if elapsed_secs >= target_secs {
        CountdownAction::Report(false)
    } else {
        match poll {
            CountdownPoll::CancelRequested => CountdownAction::Report(true),
            CountdownPoll::ChannelClosed => CountdownAction::Abort,
            CountdownPoll::Quiet => CountdownAction::KeepWaiting,
        }
    }
}

#[verifier::external_type_specification]
#[verifier::external_body]
pub struct ExSystemTime(std::time::SystemTime);

/// Relies on `std::time::SystemTime::now`: the system clock's reading at the
/// moment of the call; nothing is assumed of it.
#[verifier::external_body]
fn system_now() -> std::time::SystemTime {
    std::time::SystemTime::now()
}

/// Relies on `std::time::SystemTime::duration_since`: whole seconds from the
/// Unix epoch to the given reading, `None` when the reading lies before the
/// epoch. Nothing is assumed of the value — the clock is the machine's.
#[verifier::external_body]
fn seconds_since_epoch(t: std::time::SystemTime) -> Option<u64> {
    match t.duration_since(std::time::UNIX_EPOCH) {
        Ok(d) => Some(d.as_secs()),
        Err(_) => None,
    }
}

/// The current time as whole seconds past the Unix epoch, read from the
/// system clock; it stamps `started_at` and the terminal timestamps. A clock
/// reading before the epoch yields zero — the "unset" sentinel — so such a
/// reading starts and finishes nothing.
pub fn now() -> u64 {
    match seconds_since_epoch(system_now()) {
        Some(t) => t,
        None => 0,
    }
}

/// Orchestrates one session's run end to end against a store.
pub struct Scheduler {
    repo: Repository,
}

impl Scheduler {
    /// The table of the store this scheduler drives.
    pub closed spec fn table(self) -> Map<u128, crate::persistence::StoredRow> {
        self.repo.table()
    }

    /// The store's invariant, carried by the scheduler.
    pub closed spec fn wf(self) -> bool {
        self.repo.wf()
    }

    pub fn new(repo: Repository) -> (r: Self)
        ensures
            r.table() == repo.table(),
            repo.wf() ==> r.wf(),
    {
        Scheduler { repo }
    }

    /// Runs one session to its single terminal outcome.
    ///
    /// The record is stamped with the clock and the owner it carries, then
    /// persisted as the active session; `countdown` is handed the target in
    /// seconds and blocks until the timer elapses or cancellation arrives;
    /// the terminal timestamp is stamped and persisted, the owner cleared.
    ///
    /// On success the store held no Active or Stale session: the returned
    /// record is terminal — exactly one of `cancelled_at`/`finished_at` set,
    /// owner cleared — and the store gained exactly that one row, terminated:
    /// it ends with no Active or Stale row, and no other session was touched.
    /// `AlreadyRunning` names the owner of a conflicting unterminated row and
    /// leaves the store unchanged; a duration of zero (or one whose target
    /// overflows the clock) is rejected before anything is persisted. A
    /// failed countdown or terminal update surfaces as `ExecutionError`,
    /// leaving the store either unchanged or holding this session's row.
    pub fn run<F: FnOnce(u64) -> Option<bool>>(&mut self, s: Schedulable, countdown: F) -> (r:
        Result<Schedulable, SchedulingError>)
        requires
            old(self).wf(),
            is_new(s),
            forall|t: u64| #[trigger] call_requires(countdown, (t,)),
        ensures
            final(self).wf(),
            s.duration == 0 || s.duration > MAX_MINUTES ==> r == Err::<
                Schedulable,
                SchedulingError,
            >(SchedulingError::ExecutionError) && final(self).table() == old(self).table(),
            r matches Err(SchedulingError::AlreadyRunning(p)) ==> final(self).table() == old(
                self,
            ).table() && exists|id: u128|
                #[trigger] old(self).table().dom().contains(id) && unterminated(
                    old(self).table()[id],
                ) && old(self).table()[id].pid == p,
            r matches Ok(rec) ==> ({
                &&& rec.uuid == s.uuid
                &&& rec.kind == s.kind
                &&& rec.duration == s.duration
                &&& 0 < rec.duration
                &&& rec.pid == 0
                &&& rec.started_at != 0
                &&& ((rec.cancelled_at != 0 && rec.finished_at == 0) || (rec.finished_at != 0
                    && rec.cancelled_at == 0))
                &&& !has_unterminated(old(self).table())
                &&& !old(self).table().dom().contains(s.uuid.0)
                &&& final(self).table() == old(self).table().insert(s.uuid.0, row_of(rec))
                &&& !has_unterminated(final(self).table())
                &&& final(self).table().dom().contains(s.uuid.0)
                &&& final(self).table()[s.uuid.0] == row_of(rec)
            }),
            r == Err::<Schedulable, SchedulingError>(SchedulingError::ExecutionError) ==> ({
                ||| final(self).table() == old(self).table()
                ||| ({
                    &&& final(self).table().dom().contains(s.uuid.0)
                    &&& final(self).table()[s.uuid.0].kind_code == s.kind.spec_code()
                    &&& final(self).table()[s.uuid.0].pid == s.pid
                    &&& final(self).table()[s.uuid.0].duration == s.duration
                    &&& final(self).table()[s.uuid.0].started_at != 0
                    &&& final(self).table()[s.uuid.0].finished_at == 0
                    &&& final(self).table()[s.uuid.0].cancelled_at == 0
                    &&& final(self).table() == old(self).table().insert(
                        s.uuid.0,
                        final(self).table()[s.uuid.0],
                    )
                })
            }),
    {
        if s.duration == 0 || s.duration > MAX_MINUTES {
            return Err(SchedulingError::ExecutionError);
        }
        let mut active = s;
        active.started_at = now();
        let saved = match self.repo.save(&active) {
            Ok(v) => v,
            Err(PersistenceError::AlreadyRunning(pid)) => {
                return Err(SchedulingError::AlreadyRunning(pid));
            },
            Err(_) => {
                return Err(SchedulingError::ExecutionError);
            },
        };
        let target_secs: u64 = 60 * saved.duration;
        match countdown(target_secs) {
            None => Err(SchedulingError::ExecutionError),
            Some(cancelled) => {
                let at = now();
                if at == 0 {
                    return Err(SchedulingError::ExecutionError);
                }
                let mut fin = saved;
                if cancelled {
                    fin.cancelled_at = at;
                } else {
                    fin.finished_at = at;
                }
                match self.repo.save(&fin) {
                    Ok(done) => {
                        proof {
                            assert(self.repo.table() =~= old(self).table().insert(
                                s.uuid.0,
                                row_of(done),
                            ));
                        }
                        Ok(done)
                    },
                    Err(_) => Err(SchedulingError::ExecutionError),
                }
            },
        }
    }
}

} // verus!
