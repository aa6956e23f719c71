//! Durable store of session records, and the sole enforcer of the
//! single-active-session invariant.
//!
//! The records live in one SQLite table reached through a
//! [`rusqlite::Connection`]. The table's contents are modelled as a
//! [`Map`] from session id to [`StoredRow`], named by the uninterpreted
//! function [`rows`]; every statement the store executes is wrapped in a
//! trusted function whose contract states, over that map, what the statement
//! does. A row whose owner column is set is *unterminated* (its session is
//! Active or Stale); the schema carries a unique partial index over exactly
//! those rows, so a second one can never be inserted, and the store's
//! operations keep [`Repository::wf`] — at most one unterminated row — as
//! their invariant.
//!
//! The model speaks of the states that writers of this schema can produce;
//! a foreign writer using another schema for the same table (an owner column
//! holding the integer zero instead of NULL, an index of the same name with
//! another definition) lies outside it.

use vstd::prelude::*;

use crate::{
    is_cancelled, is_finished, is_new, is_running, spec_status, Kind, Schedulable, SqlUuid, Status,
};

verus! {

/// One persisted row, as plain integers: the kind under its numeric code
/// (see [`Kind::spec_code`]), the owner process id (zero once cleared), and
/// the three lifecycle timestamps (zero while unset).
#[derive(Clone, Copy, PartialEq, Eq, Structural, Debug)]
pub struct StoredRow {
    pub kind_code: u64,
    pub pid: u32,
    pub duration: u64,
    pub started_at: u64,
    pub finished_at: u64,
    pub cancelled_at: u64,
}

/// How a session record persists.
pub open spec fn row_of(s: Schedulable) -> StoredRow {
    StoredRow {
        kind_code: s.kind.spec_code(),
        pid: s.pid,
        duration: s.duration,
        started_at: s.started_at,
        finished_at: s.finished_at,
        cancelled_at: s.cancelled_at,
    }
}

/// A row whose owner is still set: its session is Active or Stale, and it
/// counts toward the single-active-session invariant.
pub open spec fn unterminated(r: StoredRow) -> bool {
    r.pid != 0
}

/// Some row of the table is unterminated.
pub open spec fn has_unterminated(m: Map<u128, StoredRow>) -> bool {
    exists|id: u128| #[trigger] m.dom().contains(id) && unterminated(m[id])
}

/// At most one row of the table is unterminated: the single-active-session
/// invariant, as the schema's unique partial index enforces it.
pub open spec fn at_most_one_unterminated(m: Map<u128, StoredRow>) -> bool {
    forall|i: u128, j: u128|
        #[trigger] m.dom().contains(i) && #[trigger] m.dom().contains(j) && unterminated(m[i])
            && unterminated(m[j]) ==> i == j
}

#[verifier::external_type_specification]
#[verifier::external_body]
pub struct ExConnection(rusqlite::Connection);

#[verifier::external_type_specification]
#[verifier::external_body]
pub struct ExUrl(url::Url);

/// Relies on `url::Url::as_str`: the URL as the string it parses from;
/// nothing is assumed of the text.
pub assume_specification[ url::Url::as_str ](u: &url::Url) -> &str;

/// The table of session records reachable through a connection, keyed by
/// session id; what a connection's contents are, left uninterpreted.
pub uninterp spec fn rows(c: rusqlite::Connection) -> Map<u128, StoredRow>;

/// The largest value the store's signed 64-bit integer columns can hold:
/// a timestamp or duration above it cannot be persisted.
pub const STORE_MAX: u64 = 0x7fff_ffff_ffff_ffff;

/// Why a store operation failed; [`PersistenceError::AlreadyRunning`] names
/// the owner of the conflicting unterminated session. The variants carry no
/// storage text: the conflicting owner is the one payload a caller acts on.
#[derive(Clone, Copy, PartialEq, Eq, Structural, Debug)]
pub enum PersistenceError {
    CannotSave,
    CannotUpdate,
    CannotFind,
    AlreadyRunning(u32),
}

/// Relies on `rusqlite::Connection::open`: a handle on the database at
/// `location` (a path, or a URI such as `file::memory:`), or the error when
/// SQLite cannot open it.
#[verifier::external_body]
fn open_conn(location: &str) -> Result<rusqlite::Connection, ()> {
    match rusqlite::Connection::open(location) {
        Ok(c) => Ok(c),
        Err(_) => Err(()),
    }
}

/// Relies on `rusqlite::Connection::execute_batch` running the schema below:
/// after it succeeds, the table exists and its unique partial index over
/// rows with a set owner holds of every row — creating the index fails if
/// existing rows violate it — so at most one row is unterminated.
#[verifier::external_body]
fn ensure_schema(c: &mut rusqlite::Connection) -> (r: Result<(), ()>)
    ensures
        r is Ok ==> at_most_one_unterminated(rows(*final(c))),
{
    let res = c.execute_batch(
        "CREATE TABLE IF NOT EXISTS schedulables (
            uuid TEXT PRIMARY KEY, kind INTEGER NOT NULL, pid INTEGER,
            duration INTEGER NOT NULL, started_at INTEGER NOT NULL,
            finished_at INTEGER, cancelled_at INTEGER);
        CREATE UNIQUE INDEX IF NOT EXISTS single_active
            ON schedulables ((pid IS NOT NULL)) WHERE pid IS NOT NULL;",
    );
    match res {
        Ok(()) => Ok(()),
        Err(_) => Err(()),
    }
}

/// Relies on `rusqlite::Connection::execute` running one INSERT against the
/// schema of `ensure_schema`: the primary key rejects a duplicate id, the
/// unique partial index rejects a second row with a set owner, a successful
/// insert adds exactly the given row, and a failed statement changes nothing.
#[verifier::external_body]
fn insert_row(
    c: &mut rusqlite::Connection,
    id: u128,
    kind_code: u64,
    pid: u32,
    duration: u64,
    started_at: u64,
) -> (r: Result<(), ()>)
    requires
        pid != 0,
        started_at != 0,
        duration <= STORE_MAX,
        started_at <= STORE_MAX,
    ensures
        r is Ok ==> !rows(*old(c)).dom().contains(id) && !has_unterminated(rows(*old(c))) && rows(
            *final(c),
        ) == rows(*old(c)).insert(
            id,
            (StoredRow { kind_code, pid, duration, started_at, finished_at: 0, cancelled_at: 0 }),
        ),
        r is Err ==> rows(*final(c)) == rows(*old(c)),
{
    let res = c.execute(
        "INSERT INTO schedulables (uuid, kind, pid, duration, started_at) VALUES (?1, ?2, ?3, ?4, ?5)",
        (format!("{:032x}", id), kind_code, pid, duration, started_at),
    );
    match res {
        Ok(_) => Ok(()),
        Err(_) => Err(()),
    }
}

/// Relies on `rusqlite::Connection::execute` running one UPDATE that stamps
/// `cancelled_at` and clears the owner of the unterminated row with this id:
/// it reports how many rows changed — one when such a row existed, zero when
/// none did — and a failed statement changes nothing.
#[verifier::external_body]
fn mark_cancelled(c: &mut rusqlite::Connection, id: u128, at: u64) -> (r: Result<usize, ()>)
    requires
        at != 0,
        at <= STORE_MAX,
    ensures
        r matches Ok(n) ==> if rows(*old(c)).dom().contains(id) && unterminated(
            rows(*old(c))[id],
        ) {
            n == 1 && rows(*final(c)) == rows(*old(c)).insert(
                id,
                (StoredRow { pid: 0, cancelled_at: at, ..rows(*old(c))[id] }),
            )
        } else {
            n == 0 && rows(*final(c)) == rows(*old(c))
        },
        r is Err ==> rows(*final(c)) == rows(*old(c)),
{
    let res = c.execute(
        "UPDATE schedulables SET pid = NULL, cancelled_at = ?2 WHERE uuid = ?1 AND pid IS NOT NULL",
        (format!("{:032x}", id), at),
    );
    match res {
        Ok(n) => Ok(n),
        Err(_) => Err(()),
    }
}

/// Relies on `rusqlite::Connection::execute` running one UPDATE that stamps
/// `finished_at` and clears the owner of the unterminated row with this id:
/// it reports how many rows changed — one when such a row existed, zero when
/// none did — and a failed statement changes nothing.
#[verifier::external_body]
fn mark_finished(c: &mut rusqlite::Connection, id: u128, at: u64) -> (r: Result<usize, ()>)
    requires
        at != 0,
        at <= STORE_MAX,
    ensures
        r matches Ok(n) ==> if rows(*old(c)).dom().contains(id) && unterminated(
            rows(*old(c))[id],
        ) {
            n == 1 && rows(*final(c)) == rows(*old(c)).insert(
                id,
                (StoredRow { pid: 0, finished_at: at, ..rows(*old(c))[id] }),
            )
        } else {
            n == 0 && rows(*final(c)) == rows(*old(c))
        },
        r is Err ==> rows(*final(c)) == rows(*old(c)),
{
    let res = c.execute(
        "UPDATE schedulables SET pid = NULL, finished_at = ?2 WHERE uuid = ?1 AND pid IS NOT NULL",
        (format!("{:032x}", id), at),
    );
    match res {
        Ok(n) => Ok(n),
        Err(_) => Err(()),
    }
}

/// Relies on `rusqlite::Connection::query_row` running one SELECT for the id
/// of a row whose owner is set: `Ok(Some)` names such a row, and rusqlite's
/// `QueryReturnedNoRows` — mapped to `Ok(None)` — means no row matched the
/// filter, hence no unterminated row exists.
#[verifier::external_body]
fn query_active_id(c: &rusqlite::Connection) -> (r: Result<Option<u128>, ()>)
    ensures
        r matches Ok(Some(id)) ==> rows(*c).dom().contains(id) && unterminated(rows(*c)[id]),
        r matches Ok(None) ==> !has_unterminated(rows(*c)),
{
    let res = c.query_row(
        "SELECT uuid FROM schedulables WHERE pid IS NOT NULL",
        (),
        |row| row.get::<_, String>(0),
    );
    match res {
        Ok(s) => match u128::from_str_radix(&s, 16) {
            Ok(id) => Ok(Some(id)),
            Err(_) => Err(()),
        },
        Err(rusqlite::Error::QueryReturnedNoRows) => Ok(None),
        Err(_) => Err(()),
    }
}

/// Relies on `rusqlite::Connection::query_row` running one SELECT by id:
/// `Ok(Some)` carries exactly the stored row (owner and terminal timestamps
/// read as zero while NULL), and rusqlite's `QueryReturnedNoRows` — mapped
/// to `Ok(None)` — means no row has this id.
#[verifier::external_body]
fn query_session(c: &rusqlite::Connection, id: u128) -> (r: Result<Option<StoredRow>, ()>)
    ensures
        r matches Ok(Some(row)) ==> rows(*c).dom().contains(id) && rows(*c)[id] == row,
        r matches Ok(None) ==> !rows(*c).dom().contains(id),
{
    let res = c.query_row(
        "SELECT kind, IFNULL(pid, 0), duration, started_at, IFNULL(finished_at, 0), IFNULL(cancelled_at, 0) FROM schedulables WHERE uuid = ?1",
        (format!("{:032x}", id),),
        |row| Ok(StoredRow {
            kind_code: row.get(0)?, pid: row.get(1)?, duration: row.get(2)?,
            started_at: row.get(3)?, finished_at: row.get(4)?, cancelled_at: row.get(5)?,
        }),
    );
    match res {
        Ok(row) => Ok(Some(row)),
        Err(rusqlite::Error::QueryReturnedNoRows) => Ok(None),
        Err(_) => Err(()),
    }
}

/// Starting a session against a store with no Active or Stale session
/// inserts exactly one unterminated row, owned by the caller's process and
/// stamped with its start time, and the single-active-session invariant
/// still holds afterwards.
pub proof fn lemma_fresh_start(m: Map<u128, StoredRow>, s: Schedulable)
    requires
        !has_unterminated(m),
        is_running(s),
        s.pid != 0,
    ensures
        ({
            let m2 = m.insert(s.uuid.0, row_of(s));
            &&& m2[s.uuid.0].pid == s.pid
            &&& m2[s.uuid.0].started_at == s.started_at
            &&& s.started_at > 0
            &&& unterminated(m2[s.uuid.0])
            &&& has_unterminated(m2)
            &&& at_most_one_unterminated(m2)
        }),
{
    let m2 = m.insert(s.uuid.0, row_of(s));
    assert(m2.dom().contains(s.uuid.0) && unterminated(m2[s.uuid.0]));
    assert forall|i: u128, j: u128|
        m2.dom().contains(i) && m2.dom().contains(j) && unterminated(m2[i]) && unterminated(
            m2[j],
        ) implies i == j by {
        if i != s.uuid.0 {
            assert(m.dom().contains(i) && unterminated(m[i]));
        }
        if j != s.uuid.0 {
            assert(m.dom().contains(j) && unterminated(m[j]));
        }
    }
}

/// While one session is Active or Stale, the store can name only that
/// session's owner as a conflict: under the single-active-session invariant,
/// every unterminated row carries the first session's owner, and the store
/// does hold one.
pub proof fn lemma_conflict_owner(m: Map<u128, StoredRow>, first: u128)
    requires
        at_most_one_unterminated(m),
        m.dom().contains(first),
        unterminated(m[first]),
    ensures
        has_unterminated(m),
        forall|j: u128| #[trigger]
            m.dom().contains(j) && unterminated(m[j]) ==> m[j].pid == m[first].pid,
{
    assert forall|j: u128| #[trigger]
        m.dom().contains(j) && unterminated(m[j]) implies m[j].pid == m[first].pid by {
        assert(j == first);
    }
}

/// A started session with no terminal timestamp whose owner process no
/// longer exists reports status Stale, and its row still counts as
/// unterminated: a store holding it still holds an unterminated row, so a
/// new start against it is still refused.
pub proof fn lemma_stale_still_blocks(s: Schedulable, m: Map<u128, StoredRow>)
    requires
        is_running(s),
        s.pid != 0,
        m.dom().contains(s.uuid.0),
        m[s.uuid.0] == row_of(s),
    ensures
        spec_status(s, false) == Status::Stale,
        unterminated(m[s.uuid.0]),
        has_unterminated(m),
{
    assert(m.dom().contains(s.uuid.0) && unterminated(m[s.uuid.0]));
}

/// Round trip through the store: the persisted row determines the record.
/// Two records with the same id that persist to the same row agree on every
/// field — so a record written and read back under its id comes back with
/// identical id, kind, duration and timestamps.
pub proof fn lemma_row_round_trip(a: Schedulable, b: Schedulable)
    requires
        row_of(a) == row_of(b),
        a.uuid == b.uuid,
    ensures
        a == b,
{
    assert(a.kind == b.kind) by {
        assert(a.kind.spec_code() == b.kind.spec_code());
    }
}

/// The durable keeper of session records.
pub struct Repository {
    db: rusqlite::Connection,
}

impl Repository {
    /// The table of records this store keeps.
    pub closed spec fn table(self) -> Map<u128, StoredRow> {
        rows(self.db)
    }

    /// The store's invariant: at most one unterminated row.
    pub open spec fn wf(self) -> bool {
        at_most_one_unterminated(self.table())
    }

    /// Opens (creating it if needed) the store at `location` and ensures its
    /// schema; fails with [`PersistenceError::CannotSave`] when the database
    /// cannot be opened or the schema cannot be ensured.
    pub fn from_str(location: &str) -> (r: Result<Self, PersistenceError>)
        ensures
            r matches Ok(repo) ==> repo.wf(),
            r matches Err(e) ==> e == PersistenceError::CannotSave,
    {
        let mut c = match open_conn(location) {
            Ok(c) => c,
            Err(()) => {
                return Err(PersistenceError::CannotSave);
            },
        };
        match ensure_schema(&mut c) {
            Ok(()) => Ok(Repository { db: c }),
            Err(()) => Err(PersistenceError::CannotSave),
        }
    }

    /// Same as [`Repository::from_str`].
    pub fn new(location: &str) -> (r: Result<Self, PersistenceError>)
        ensures
            r matches Ok(repo) ==> repo.wf(),
            r matches Err(e) ==> e == PersistenceError::CannotSave,
    {
        Self::from_str(location)
    }

    /// Opens the store at a location given as a URL.
    pub fn from_url(location: &url::Url) -> (r: Result<Self, PersistenceError>)
        ensures
            r matches Ok(repo) ==> repo.wf(),
            r matches Err(e) ==> e == PersistenceError::CannotSave,
    {
        Self::from_str(location.as_str())
    }

    /// Looks a record up by its id; fails with
    /// [`PersistenceError::CannotFind`] when no row has this id (or when the
    /// row cannot be read back as a session record).
    pub fn find_by_uuid(&self, uuid: SqlUuid) -> (r: Result<Schedulable, PersistenceError>)
        ensures
            r matches Ok(s) ==> self.table().dom().contains(uuid.0) && row_of(s)
                == self.table()[uuid.0] && s.uuid == uuid,
            r matches Err(e) ==> e == PersistenceError::CannotFind,
            !self.table().dom().contains(uuid.0) ==> r is Err,
    {
        match query_session(&self.db, uuid.0) {
            Ok(Some(row)) => {
                let kind = if row.kind_code == 0 {
                    Kind::Pomodoro
                } else if row.kind_code == 1 {
                    Kind::Break
                } else {
                    return Err(PersistenceError::CannotFind);
                };
                Ok(
                    Schedulable {
                        pid: row.pid,
                        kind,
                        uuid,
                        duration: row.duration,
                        started_at: row.started_at,
                        finished_at: row.finished_at,
                        cancelled_at: row.cancelled_at,
                    },
                )
            },
            Ok(None) => Err(PersistenceError::CannotFind),
            Err(()) => Err(PersistenceError::CannotFind),
        }
    }

    /// The one record, if any, whose session is Active or Stale — liveness
    /// of the owner is the caller's question, not the store's. `Ok(None)`
    /// means the store holds no unterminated row.
    pub fn active(&self) -> (r: Result<Option<Schedulable>, PersistenceError>)
        ensures
            r matches Ok(Some(s)) ==> self.table().dom().contains(s.uuid.0) && row_of(s)
                == self.table()[s.uuid.0] && s.pid != 0,
            r matches Ok(None) ==> !has_unterminated(self.table()),
            r matches Err(e) ==> e == PersistenceError::CannotFind,
    {
        match query_active_id(&self.db) {
            Ok(Some(id)) => match self.find_by_uuid(SqlUuid(id)) {
                Ok(s) => Ok(Some(s)),
                Err(e) => Err(e),
            },
            Ok(None) => Ok(None),
            Err(()) => Err(PersistenceError::CannotFind),
        }
    }

    /// The error for an insert the storage refused, from the store's answer
    /// about the active session: a found session names its owner, and no
    /// identifiable conflict — nothing found, or the lookup itself failing —
    /// is a bare [`PersistenceError::CannotSave`].
    pub fn conflict_error(found: Result<Option<Schedulable>, PersistenceError>) -> (e:
        PersistenceError)
        ensures
            found matches Ok(Some(x)) ==> e == PersistenceError::AlreadyRunning(x.pid),
            found matches Ok(None) ==> e == PersistenceError::CannotSave,
            found is Err ==> e == PersistenceError::CannotSave,
    {
        match found {
            Ok(Some(existing)) => PersistenceError::AlreadyRunning(existing.pid),
            Ok(None) => PersistenceError::CannotSave,
            Err(_) => PersistenceError::CannotSave,
        }
    }

    /// Persists a record according to its status by timestamps.
    ///
    /// A running record (started, no terminal timestamp) is inserted as the
    /// system's active session: this succeeds if and only if the store holds
    /// no unterminated row and no row with this id, and it fails with
    /// [`PersistenceError::AlreadyRunning`] naming the conflicting owner when
    /// one can be identified. A cancelled or finished record updates the
    /// unterminated row with its id, stamping the terminal timestamp and
    /// clearing the owner; when no such row exists this fails with
    /// [`PersistenceError::CannotUpdate`]. A record never started cannot be
    /// saved, nor one without an owner or with a value beyond [`STORE_MAX`]:
    /// those are refused before any statement runs. Every failure leaves the
    /// table unchanged.
    pub fn save(&mut self, s: &Schedulable) -> (r: Result<Schedulable, PersistenceError>)
        requires
            old(self).wf(),
        ensures
            final(self).wf(),
            is_running(*s) && (s.pid == 0 || s.duration > STORE_MAX || s.started_at > STORE_MAX)
                ==> r == Err::<Schedulable, PersistenceError>(PersistenceError::CannotSave)
                && final(self).table() == old(self).table(),
            is_cancelled(*s) && s.cancelled_at > STORE_MAX ==> r == Err::<
                Schedulable,
                PersistenceError,
            >(PersistenceError::CannotUpdate) && final(self).table() == old(self).table(),
            is_finished(*s) && s.finished_at > STORE_MAX ==> r == Err::<
                Schedulable,
                PersistenceError,
            >(PersistenceError::CannotUpdate) && final(self).table() == old(self).table(),
            is_new(*s) ==> r == Err::<Schedulable, PersistenceError>(PersistenceError::CannotSave)
                && final(self).table() == old(self).table(),
            is_running(*s) ==> match r {
                Ok(rec) => rec == *s && !old(self).table().dom().contains(s.uuid.0)
                    && !has_unterminated(old(self).table()) && final(self).table() == old(
                    self,
                ).table().insert(s.uuid.0, row_of(*s)),
                Err(e) => final(self).table() == old(self).table() && (e is AlreadyRunning
                    || e is CannotSave) && (e matches PersistenceError::AlreadyRunning(p)
                    ==> exists|id: u128|
                    #[trigger] old(self).table().dom().contains(id) && unterminated(
                        old(self).table()[id],
                    ) && old(self).table()[id].pid == p),
            },
            is_cancelled(*s) ==> match r {
                Ok(rec) => old(self).table().dom().contains(s.uuid.0) && unterminated(
                    old(self).table()[s.uuid.0],
                ) && final(self).table() == old(self).table().insert(
                    s.uuid.0,
                    (StoredRow { pid: 0, cancelled_at: s.cancelled_at, ..old(self).table()[s.uuid.0] }),
                ) && rec == (Schedulable { pid: 0, ..*s }),
                Err(e) => final(self).table() == old(self).table() && e is CannotUpdate,
            },
            is_finished(*s) ==> match r {
                Ok(rec) => old(self).table().dom().contains(s.uuid.0) && unterminated(
                    old(self).table()[s.uuid.0],
                ) && final(self).table() == old(self).table().insert(
                    s.uuid.0,
                    (StoredRow { pid: 0, finished_at: s.finished_at, ..old(self).table()[s.uuid.0] }),
                ) && rec == (Schedulable { pid: 0, ..*s }),
                Err(e) => final(self).table() == old(self).table() && e is CannotUpdate,
            },
    {
        if s.cancelled_at != 0 {
            if s.cancelled_at > STORE_MAX {
                return Err(PersistenceError::CannotUpdate);
            }
            match mark_cancelled(&mut self.db, s.uuid.0, s.cancelled_at) {
                Ok(n) => {
                    if n == 1 {
                        Ok(Schedulable { pid: 0, ..*s })
                    } else {
                        Err(PersistenceError::CannotUpdate)
                    }
                },
                Err(()) => Err(PersistenceError::CannotUpdate),
            }
        } else if s.finished_at != 0 {
            if s.finished_at > STORE_MAX {
                return Err(PersistenceError::CannotUpdate);
            }
            match mark_finished(&mut self.db, s.uuid.0, s.finished_at) {
                Ok(n) => {
                    if n == 1 {
                        Ok(Schedulable { pid: 0, ..*s })
                    } else {
                        Err(PersistenceError::CannotUpdate)
                    }
                },
                Err(()) => Err(PersistenceError::CannotUpdate),
            }
        } else if s.started_at != 0 {
            if s.pid == 0 || s.duration > STORE_MAX || s.started_at > STORE_MAX {
                return Err(PersistenceError::CannotSave);
            }
            match insert_row(&mut self.db, s.uuid.0, s.kind.code(), s.pid, s.duration, s.started_at)
            {
                Ok(()) => Ok(*s),
                Err(()) => Err(Self::conflict_error(self.active())),
            }
        } else {
            Err(PersistenceError::CannotSave)
        }
    }
}

} // verus!
