//! Core of a single-user interval timer: session records with lifecycle
//! timestamps, a durable store enforcing a single-active-session invariant,
//! a cancellable countdown, and a scheduler orchestrating one session's run.
//!
//! A session record carries three timestamps (`started_at`, `finished_at`,
//! `cancelled_at`; zero means unset) and an owning process id (zero means
//! cleared). Its status is never stored: it is derived from the timestamps
//! plus one liveness question about the owner, see [`spec_status`].

use vstd::prelude::*;

pub mod persistence;
pub mod scheduling;

verus! {

use vstd::string::StringExecFns;

/// What a timed session is for: a work interval or a break.
#[derive(Clone, Copy, PartialEq, Eq, Structural, Debug)]
pub enum Kind {
    Pomodoro,
    Break,
}

/// A name that is neither a pomodoro nor a break.
#[derive(Debug)]
pub struct UnknownKind {
    pub offender: String,
}

/// Lifecycle of a session record, derived from its timestamps and from
/// whether the owning process is still alive.
#[derive(Clone, Copy, PartialEq, Eq, Structural, Debug)]
pub enum Status {
    New,
    Active,
    Stale,
    Cancelled,
    Finished,
}

/// Session identifier, held as the 128-bit value of a version-4 UUID and
/// rendered as 32 lowercase hexadecimal digits.
#[derive(Clone, Copy, PartialEq, Eq, Structural, Debug)]
pub struct SqlUuid(pub u128);

/// One timed session: its identity, its owner while it runs, and the
/// timestamps (epoch seconds, zero when unset) recording its lifecycle.
#[derive(Clone, Copy, PartialEq, Eq, Structural, Debug)]
pub struct Schedulable {
    pub pid: u32,
    pub kind: Kind,
    pub uuid: SqlUuid,
    pub duration: u64,
    pub started_at: u64,
    pub finished_at: u64,
    pub cancelled_at: u64,
}

/// Case folding as `str::to_lowercase` performs it; a function of the
/// characters alone, left uninterpreted.
pub uninterp spec fn lower_of(s: Seq<char>) -> Seq<char>;

/// Relies on `str::to_lowercase`: the result depends on the characters alone.
#[verifier::external_body]
fn to_lower(s: &str) -> (r: String)
    ensures
        r@ == lower_of(s@),
{
    s.to_lowercase()
}

/// Relies on `uuid::Uuid::new_v4` for a freshly generated version-4
/// identifier; nothing is assumed about the value, not even uniqueness.
#[verifier::external_body]
fn fresh_uuid() -> u128 {
    uuid::Uuid::new_v4().as_u128()
}

/// Relies on `psutil::process::Process::new`: `Ok` exactly when a process
/// with this id exists at the moment of the call. The answer concerns the
/// machine's state and may differ between two calls, so nothing is assumed.
#[verifier::external_body]
fn process_alive(pid: u32) -> bool {
    psutil::process::Process::new(pid).is_ok()
}

impl Kind {
    /// Numeric code under which a kind is persisted.
    pub open spec fn spec_code(self) -> u64 {
        match self {
            Kind::Pomodoro => 0,
            Kind::Break => 1,
        }
    }

    /// Executable counterpart of [`Kind::spec_code`].
    pub fn code(&self) -> (c: u64)
        ensures
            c == self.spec_code(),
    {
        match self {
            Kind::Pomodoro => 0,
            Kind::Break => 1,
        }
    }

    /// Parses a kind name, ignoring case: exactly the strings that fold to
    /// `"pomodoro"` or `"break"` are accepted, anything else is returned to
    /// the caller as the offender.
    pub fn from(str: String) -> (r: Result<Self, UnknownKind>)
        ensures
            lower_of(str@) == "pomodoro"@ ==> r == Ok::<Kind, UnknownKind>(Kind::Pomodoro),
            lower_of(str@) != "pomodoro"@ && lower_of(str@) == "break"@ ==> r == Ok::<
                Kind,
                UnknownKind,
            >(Kind::Break),
            lower_of(str@) != "pomodoro"@ && lower_of(str@) != "break"@ ==> (r matches Err(u)
                && u.offender@ == str@),
    {
        let low = to_lower(str.as_str());
        if low == String::from_str("pomodoro") {
            Ok(Kind::Pomodoro)
        } else if low == String::from_str("break") {
            Ok(Kind::Break)
        } else {
            Err(UnknownKind { offender: str })
        }
    }
}

/// The record carries no terminal timestamp and was never started.
pub open spec fn is_new(s: Schedulable) -> bool {
    s.cancelled_at == 0 && s.finished_at == 0 && s.started_at == 0
}

/// The record was started and carries no terminal timestamp: its status is
/// Active or Stale, depending only on the owner's liveness.
pub open spec fn is_running(s: Schedulable) -> bool {
    s.cancelled_at == 0 && s.finished_at == 0 && s.started_at != 0
}

/// The record was cancelled: `cancelled_at` takes precedence over everything.
pub open spec fn is_cancelled(s: Schedulable) -> bool {
    s.cancelled_at != 0
}

/// The record finished normally.
pub open spec fn is_finished(s: Schedulable) -> bool {
    s.cancelled_at == 0 && s.finished_at != 0
}

/// Status derivation: `cancelled_at` set wins, then `finished_at`, then an
/// unset `started_at` means New; a running record is Active while its owner
/// process lives and Stale once it does not.
pub open spec fn spec_status(s: Schedulable, alive: bool) -> Status {
    if s.cancelled_at != 0 {
        Status::Cancelled
    } else if s.finished_at != 0 {
        Status::Finished
    } else if s.started_at == 0 {
        Status::New
    } else if alive {
        Status::Active
    } else {
        Status::Stale
    }
}

impl Schedulable {
    /// A fresh record: identity and intent fixed, all timestamps unset.
    pub fn new(pid: u32, kind: Kind, duration: u64) -> (s: Self)
        ensures
            s.pid == pid && s.kind == kind && s.duration == duration,
            is_new(s),
    {
        Schedulable {
            pid,
            kind,
            uuid: SqlUuid(fresh_uuid()),
            duration,
            started_at: 0,
            finished_at: 0,
            cancelled_at: 0,
        }
    }

    /// Status under a given answer to "is the owner process alive?". The
    /// answer only matters for a running record.
    pub fn status_with(&self, alive: bool) -> (st: Status)
        ensures
            st == spec_status(*self, alive),
    {
        if self.cancelled_at != 0 {
            Status::Cancelled
        } else if self.finished_at != 0 {
            Status::Finished
        } else if self.started_at == 0 {
            Status::New
        } else if alive {
            Status::Active
        } else {
            Status::Stale
        }
    }

    /// Status with the owner's liveness read from the machine: the result is
    /// the derivation of [`spec_status`] under one of the two possible
    /// answers, which is all that can be said of a liveness probe.
    pub fn status(&self) -> (st: Status)
        ensures
            st == spec_status(*self, true) || st == spec_status(*self, false),
    {
        let alive = process_alive(self.pid);
        self.status_with(alive)
    }
}

/// Hexadecimal digit for a value below 16.
pub open spec fn hex_char(d: u128) -> char {
    if d == 0 {
        '0'
    } else if d == 1 {
        '1'
    } else if d == 2 {
        '2'
    } else if d == 3 {
        '3'
    } else if d == 4 {
        '4'
    } else if d == 5 {
        '5'
    } else if d == 6 {
        '6'
    } else if d == 7 {
        '7'
    } else if d == 8 {
        '8'
    } else if d == 9 {
        '9'
    } else if d == 10 {
        'a'
    } else if d == 11 {
        'b'
    } else if d == 12 {
        'c'
    } else if d == 13 {
        'd'
    } else if d == 14 {
        'e'
    } else {
        'f'
    }
}

/// The i-th nibble of a 128-bit value, most significant first.
pub open spec fn nibble(v: u128, i: int) -> u128 {
    (v >> ((4 * (31 - i)) as u128)) & 0xf
}

/// The 32 hexadecimal digits of a 128-bit value, most significant first.
pub open spec fn hex_seq(v: u128) -> Seq<char> {
    Seq::new(32, |i: int| hex_char(nibble(v, i)))
}

/// The single-character string for a hexadecimal digit.
fn hex_digit_str(d: u8) -> (r: &'static str)
    requires
        d < 16,
    ensures
        r@.len() == 1,
        r@[0] == hex_char(d as u128),
{
    proof {
        reveal_strlit("0");
        reveal_strlit("1");
        reveal_strlit("2");
        reveal_strlit("3");
        reveal_strlit("4");
        reveal_strlit("5");
        reveal_strlit("6");
        reveal_strlit("7");
        reveal_strlit("8");
        reveal_strlit("9");
        reveal_strlit("a");
        reveal_strlit("b");
        reveal_strlit("c");
        reveal_strlit("d");
        reveal_strlit("e");
        reveal_strlit("f");
    }
    if d == 0 {
        "0"
    } else if d == 1 {
        "1"
    } else if d == 2 {
        "2"
    } else if d == 3 {
        "3"
    } else if d == 4 {
        "4"
    } else if d == 5 {
        "5"
    } else if d == 6 {
        "6"
    } else if d == 7 {
        "7"
    } else if d == 8 {
        "8"
    } else if d == 9 {
        "9"
    } else if d == 10 {
        "a"
    } else if d == 11 {
        "b"
    } else if d == 12 {
        "c"
    } else if d == 13 {
        "d"
    } else if d == 14 {
        "e"
    } else {
        "f"
    }
}

impl SqlUuid {
    /// A freshly generated random identifier.
    pub fn new() -> Self {
        SqlUuid(fresh_uuid())
    }

    /// The identifier as 32 lowercase hexadecimal digits, most significant
    /// nibble first.
    pub fn to_string(&self) -> (r: String)
        ensures
            r@ == hex_seq(self.0),
            r@.len() == 32,
    {
        let v: u128 = self.0;
        let mut out = String::new();
        let mut i: usize = 0;
        while i < 32
            invariant
                i <= 32,
                out@ == hex_seq(v).take(i as int),
            decreases 32 - i,
        {
            let sh: u128 = (4 * (31 - i)) as u128;
            let wide: u128 = (v >> sh) & 0xf;
            proof {
                assert((v >> sh) & 0xf < 16) by (bit_vector);
                assert(sh == (4 * (31 - i as int)) as u128);
                assert(wide == nibble(v, i as int));
            }
            let d: u8 = wide as u8;
            let digit = hex_digit_str(d);
            out.append(digit);
            proof {
                assert(out@ =~= hex_seq(v).take(i as int + 1));
            }
            i += 1;
        }
        proof {
            assert(out@ =~= hex_seq(v));
        }
        out
    }
}

/// A cancelled record reports status Cancelled and a finished one Finished,
/// its owner cleared or not, whether or not the owning process still exists:
/// terminal statuses do not depend on liveness.
pub proof fn lemma_terminal_status(s: Schedulable, alive: bool)
    ensures
        is_cancelled(s) ==> spec_status(s, alive) == Status::Cancelled,
        is_finished(s) ==> spec_status(s, alive) == Status::Finished,
{
}

} // verus!
