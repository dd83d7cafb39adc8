//! The connection manager: an exclusive handle on one embedded SQLite
//! database, reached through `rusqlite`.
//!
//! The handle is described by an abstract [`StoreModel`] that mirrors the
//! database contents; every statement the repository issues goes through a
//! trusted wrapper here whose contract states, over that model, what the
//! statement does.  The wrappers rely on the schema this module creates:
//! reference names are `UNIQUE`, link pairs are `UNIQUE`, and link columns
//! carry enforced foreign keys, so the engine itself rejects duplicate
//! reference names and dangling links.  Opening a pre-existing file checks
//! that its stored schema is exactly this one and that its link rows pass
//! the engine's foreign-key scan, and refuses the file otherwise.
//!
//! Transactions are scoped explicitly (`BEGIN IMMEDIATE` ... `COMMIT` /
//! `ROLLBACK`); the abstract state tracks both the current contents and
//! the last committed contents, so the repository can prove that a failed
//! operation leaves the committed state untouched.

use rusqlite::OptionalExtension;
use vstd::prelude::*;

use crate::errors::StoreError;
use crate::model::{has_name, links_without, StoreModel};
use crate::models::{GoatRow, RefRow};

verus! {

#[verifier::external_type_specification]
#[verifier::external_body]
pub struct ExConnection(rusqlite::Connection);

/// Statements run on every open: write-ahead logging for concurrent
/// readers, enforced foreign keys, and the schema if not yet present.
/// Each CREATE is kept on one line so the text the engine stores for it
/// (the statement from the table name onward, verbatim) is predictable.
const INIT_SQL: &'static str = "
PRAGMA journal_mode=WAL;
PRAGMA foreign_keys=ON;
CREATE TABLE IF NOT EXISTS goats (id INTEGER PRIMARY KEY, breed TEXT NOT NULL, name TEXT NOT NULL, gender TEXT NOT NULL, offspring INTEGER NOT NULL, cost INTEGER NOT NULL, weight INTEGER NOT NULL, current_price INTEGER NOT NULL, diet TEXT NOT NULL, last_bred TEXT, health_status TEXT NOT NULL);
CREATE TABLE IF NOT EXISTS vaccines (id INTEGER PRIMARY KEY, name TEXT NOT NULL UNIQUE);
CREATE TABLE IF NOT EXISTS diseases (id INTEGER PRIMARY KEY, name TEXT NOT NULL UNIQUE);
CREATE TABLE IF NOT EXISTS goat_vaccines (goat_id INTEGER NOT NULL REFERENCES goats(id), vaccine_id INTEGER NOT NULL REFERENCES vaccines(id), UNIQUE(goat_id, vaccine_id));
CREATE TABLE IF NOT EXISTS goat_diseases (goat_id INTEGER NOT NULL REFERENCES goats(id), disease_id INTEGER NOT NULL REFERENCES diseases(id), UNIQUE(goat_id, disease_id));
";

/// One row, one integer: 1 exactly when the five tables' stored schema
/// texts are this library's own and the engine's foreign-key scan finds
/// no dangling link row; 0 otherwise.
const SCHEMA_CHECK_SQL: &'static str = "SELECT (SELECT count(*) FROM sqlite_master WHERE type='table' AND ((name='goats' AND sql='CREATE TABLE goats (id INTEGER PRIMARY KEY, breed TEXT NOT NULL, name TEXT NOT NULL, gender TEXT NOT NULL, offspring INTEGER NOT NULL, cost INTEGER NOT NULL, weight INTEGER NOT NULL, current_price INTEGER NOT NULL, diet TEXT NOT NULL, last_bred TEXT, health_status TEXT NOT NULL)') OR (name='vaccines' AND sql='CREATE TABLE vaccines (id INTEGER PRIMARY KEY, name TEXT NOT NULL UNIQUE)') OR (name='diseases' AND sql='CREATE TABLE diseases (id INTEGER PRIMARY KEY, name TEXT NOT NULL UNIQUE)') OR (name='goat_vaccines' AND sql='CREATE TABLE goat_vaccines (goat_id INTEGER NOT NULL REFERENCES goats(id), vaccine_id INTEGER NOT NULL REFERENCES vaccines(id), UNIQUE(goat_id, vaccine_id))') OR (name='goat_diseases' AND sql='CREATE TABLE goat_diseases (goat_id INTEGER NOT NULL REFERENCES goats(id), disease_id INTEGER NOT NULL REFERENCES diseases(id), UNIQUE(goat_id, disease_id))'))) = 5 AND (SELECT count(*) FROM pragma_foreign_key_check) = 0";

const SQL_INSERT_GOAT: &'static str =
    "INSERT INTO goats (breed, name, gender, offspring, cost, weight, current_price, diet, last_bred, health_status) VALUES (?1,?2,?3,?4,?5,?6,?7,?8,?9,?10)";

const SQL_UPDATE_GOAT: &'static str =
    "UPDATE goats SET breed=?1, name=?2, gender=?3, offspring=?4, cost=?5, weight=?6, current_price=?7, diet=?8, last_bred=?9, health_status=?10 WHERE id=?11";

const SQL_SELECT_GOAT: &'static str =
    "SELECT breed, name, gender, offspring, cost, weight, current_price, diet, last_bred, health_status FROM goats WHERE id=?1";

const SQL_GOAT_VACCINES: &'static str =
    "SELECT v.id, v.name FROM vaccines v INNER JOIN goat_vaccines gv ON v.id = gv.vaccine_id WHERE gv.goat_id = ?1";

const SQL_GOAT_DISEASES: &'static str =
    "SELECT d.id, d.name FROM diseases d INNER JOIN goat_diseases gd ON d.id = gd.disease_id WHERE gd.goat_id = ?1";

/// An exclusive handle on one goat store.
///
/// The abstract state assumes this handle is the only writer of the
/// underlying database, as in the intended deployment: one embedded store
/// accessed by one process through one handle.
#[verifier::external_body]
pub struct Store {
    conn: rusqlite::Connection,
}

/// What a reader of this handle sees right now, including uncommitted
/// changes of an open transaction.
pub uninterp spec fn store_contents(s: Store) -> StoreModel;

/// The contents as of the last commit on this handle.
pub uninterp spec fn store_committed(s: Store) -> StoreModel;

/// Whether an explicit transaction is open on this handle.
pub uninterp spec fn store_tx_open(s: Store) -> bool;

/// What an engine failure can leave behind on this handle: either the
/// transaction is still open and the visible contents are what the caller
/// had (the failed statement applied nothing) or already the committed
/// contents; or the engine rolled the whole transaction back on its own,
/// leaving the committed contents in place.
pub open spec fn engine_failure_outcome(pre: Store, post: Store) -> bool {
    &&& post.committed() == pre.committed()
    &&& (post.tx_open() && (post@ == pre@ || post@ == pre.committed())) || (!post.tx_open()
        && post@ == post.committed())
}

impl View for Store {
    type V = StoreModel;

    open spec fn view(&self) -> StoreModel {
        store_contents(*self)
    }
}

impl Store {
    /// The contents as of the last commit.
    pub open spec fn committed(self) -> StoreModel {
        store_committed(self)
    }

    /// Whether an explicit transaction is open.
    pub open spec fn tx_open(self) -> bool {
        store_tx_open(self)
    }

    /// At rest between operations: no transaction open, current contents
    /// committed and well formed.
    pub open spec fn inv(self) -> bool {
        &&& !self.tx_open()
        &&& self@ == self.committed()
        &&& self@.wf()
    }

    /// Opens (or creates) the store file at this path, enabling write-ahead
    /// logging and creating the schema if absent, and failing fast on any
    /// engine error.  A pre-existing file is accepted only if its stored
    /// schema is exactly this library's and its link rows pass the engine's
    /// foreign-key scan; a file whose same-named tables lack the library's
    /// constraints is refused rather than trusted.
    pub fn open(db_path: &str) -> (r: Result<Store, StoreError>)
        ensures
            r matches Ok(s) ==> s.inv(),
    {
        let s = match open_file_connection(db_path) {
            Ok(s) => s,
            Err(e) => return Err(e),
        };
        match query_schema_check(&s) {
            Ok(n) => {
                if n == 1 {
                    Ok(s)
                } else {
                    Err(
                        StoreError::Failure(
                            "the file's stored schema is not this library's".to_owned(),
                        ),
                    )
                }
            },
            Err(e) => Err(e),
        }
    }

    /// Opens a fresh, empty in-memory store with the same schema.
    pub fn open_in_memory() -> (r: Result<Store, StoreError>)
        ensures
            r matches Ok(s) ==> s.inv() && s@ == StoreModel::empty(),
    {
        match open_memory_connection() {
            Ok(s) => {
                proof {
                    assert(StoreModel::empty().goats.dom() =~= Set::<i64>::empty());
                    assert(StoreModel::empty().vaccines.dom() =~= Set::<i64>::empty());
                    assert(StoreModel::empty().diseases.dom() =~= Set::<i64>::empty());
                    assert(StoreModel::empty().wf());
                }
                Ok(s)
            },
            Err(e) => Err(e),
        }
    }
}

/// Opens the store file and runs the initialization batch: the journal
/// mode, the foreign-key enforcement, and the schema where no same-named
/// tables exist yet.  Claims nothing of the contents.
///
/// Relies on `rusqlite::Connection::open` and
/// `rusqlite::Connection::execute_batch`: a fresh connection is in
/// autocommit mode with no transaction open, and the batch fails fast when
/// the journal mode cannot be set.
#[verifier::external_body]
fn open_file_connection(db_path: &str) -> (r: Result<Store, StoreError>)
    ensures
        r matches Ok(s) ==> !s.tx_open() && s@ == s.committed(),
{
    let conn = match rusqlite::Connection::open(db_path) {
        Ok(c) => c,
        Err(e) => return Err(StoreError::Failure(e.to_string())),
    };
    match conn.execute_batch(INIT_SQL) {
        Ok(()) => Ok(Store { conn }),
        Err(e) => Err(StoreError::Failure(e.to_string())),
    }
}

/// Opens a fresh in-memory database and runs the initialization batch.
///
/// Relies on `rusqlite::Connection::open_in_memory` and
/// `rusqlite::Connection::execute_batch`: a new in-memory database holds
/// no rows, and a fresh connection has no transaction open.
#[verifier::external_body]
fn open_memory_connection() -> (r: Result<Store, StoreError>)
    ensures
        r matches Ok(s) ==> !s.tx_open() && s@ == s.committed() && s@ == StoreModel::empty(),
{
    let conn = match rusqlite::Connection::open_in_memory() {
        Ok(c) => c,
        Err(e) => return Err(StoreError::Failure(e.to_string())),
    };
    match conn.execute_batch(INIT_SQL) {
        Ok(()) => Ok(Store { conn }),
        Err(e) => Err(StoreError::Failure(e.to_string())),
    }
}

/// Asks the engine whether this handle's stored schema is exactly the
/// library's and its link rows pass the foreign-key scan: 1 for yes, 0 for
/// no.
///
/// Relies on `rusqlite::Connection::query_row` over `sqlite_master` and
/// `pragma_foreign_key_check` (the engine stores each table's CREATE text
/// from the name onward verbatim).  When the answer is 1, every table has
/// carried this library's constraints since it was created, so the engine
/// has enforced the unique reference names and unique link pairs on every
/// row ever inserted, and the scan found no link row with a missing
/// endpoint: exactly the model's well-formedness.
#[verifier::external_body]
fn query_schema_check(s: &Store) -> (r: Result<i64, StoreError>)
    ensures
        match r {
            Ok(n) => n == 1 ==> s@.wf(),
            Err(_) => true,
        },
{
    match s.conn.query_row(SCHEMA_CHECK_SQL, (), |row| row.get(0)) {
        Ok(n) => Ok(n),
        Err(e) => Err(StoreError::Failure(e.to_string())),
    }
}

/// Opens an immediate transaction.
///
/// Relies on `rusqlite::Connection::execute_batch` running
/// `BEGIN IMMEDIATE`: on success a write transaction is open and the
/// contents are unchanged; on failure no transaction is open.
#[verifier::external_body]
pub(crate) fn begin_tx(s: &mut Store) -> (r: Result<(), StoreError>)
    requires
        !old(s).tx_open(),
    ensures
        store_contents(*final(s)) == store_contents(*old(s)),
        store_committed(*final(s)) == store_committed(*old(s)),
        match r {
            Ok(()) => store_tx_open(*final(s)),
            Err(_) => !store_tx_open(*final(s)),
        },
{
    match s.conn.execute_batch("BEGIN IMMEDIATE") {
        Ok(()) => Ok(()),
        Err(e) => Err(StoreError::Failure(e.to_string())),
    }
}

/// Commits the open transaction.
///
/// Relies on `rusqlite::Connection::execute_batch` running `COMMIT`: on
/// success the current contents become durable.  On failure the engine
/// either keeps the transaction open or has already rolled it back, so
/// only the disjunction is claimed and the caller must roll back.
#[verifier::external_body]
pub(crate) fn commit_tx(s: &mut Store) -> (r: Result<(), StoreError>)
    requires
        old(s).tx_open(),
    ensures
        match r {
            Ok(()) => !final(s).tx_open() && final(s)@ == old(s)@ && final(s).committed() == old(s)@,
            Err(_) => engine_failure_outcome(*old(s), *final(s)),
        },
{
    match s.conn.execute_batch("COMMIT") {
        Ok(()) => Ok(()),
        Err(e) => Err(StoreError::Failure(e.to_string())),
    }
}

/// Abandons any open transaction, restoring the committed contents.
///
/// Relies on `rusqlite::Connection::execute_batch` running `ROLLBACK`.
/// The statement's own result is discarded: it errs exactly when no
/// transaction is active — none was opened, or the engine already rolled
/// it back on its own — and then the committed contents are in place
/// already.
#[verifier::external_body]
pub(crate) fn rollback_tx(s: &mut Store)
    ensures
        !final(s).tx_open(),
        final(s).committed() == old(s).committed(),
        final(s)@ == final(s).committed(),
{
    let _ = s.conn.execute_batch("ROLLBACK");
}

/// Inserts a goat base row and hands back its engine-assigned identifier.
///
/// Relies on `rusqlite::Connection::execute` (single-statement `INSERT`,
/// atomic: on error nothing changed, though the engine may have dropped
/// the whole transaction) and `rusqlite::Connection::last_insert_rowid`
/// (the fresh rowid differs from every existing one).
#[verifier::external_body]
pub(crate) fn insert_goat_row(s: &mut Store, row: &GoatRow) -> (r: Result<i64, StoreError>)
    requires
        old(s).tx_open(),
    ensures
        final(s).committed() == old(s).committed(),
        match r {
            Ok(gid) => final(s).tx_open() && !old(s)@.goats.dom().contains(gid) && final(s)@ == (
            StoreModel { goats: old(s)@.goats.insert(gid, row@), ..old(s)@ }),
            Err(_) => engine_failure_outcome(*old(s), *final(s)),
        },
{
    let res = s.conn.execute(
        SQL_INSERT_GOAT,
        (&row.breed, &row.name, &row.gender, row.offspring, row.cost, row.weight,
        row.current_price, &row.diet, &row.last_bred, &row.health_status),
    );
    match res {
        Ok(_) => Ok(s.conn.last_insert_rowid()),
        Err(e) => Err(StoreError::Failure(e.to_string())),
    }
}

/// Updates a goat base row in place by identifier, reporting how many rows
/// matched (one if the identifier exists, else zero).
///
/// Relies on `rusqlite::Connection::execute` (single-statement `UPDATE` on
/// the primary key; the returned count is the number of changed rows).
#[verifier::external_body]
pub(crate) fn update_goat_row(s: &mut Store, gid: i64, row: &GoatRow) -> (r: Result<
    usize,
    StoreError,
>)
    requires
        old(s).tx_open(),
    ensures
        final(s).committed() == old(s).committed(),
        match r {
            Ok(n) => final(s).tx_open() && (n == if old(s)@.goats.dom().contains(gid) {
                1usize
            } else {
                0usize
            }) && final(s)@ == if old(s)@.goats.dom().contains(gid) {
                (StoreModel { goats: old(s)@.goats.insert(gid, row@), ..old(s)@ })
            } else {
                old(s)@
            },
            Err(_) => engine_failure_outcome(*old(s), *final(s)),
        },
{
    let res = s.conn.execute(
        SQL_UPDATE_GOAT,
        (&row.breed, &row.name, &row.gender, row.offspring, row.cost, row.weight,
        row.current_price, &row.diet, &row.last_bred, &row.health_status, gid),
    );
    match res {
        Ok(n) => Ok(n),
        Err(e) => Err(StoreError::Failure(e.to_string())),
    }
}

/// Deletes a goat base row by identifier, reporting how many rows matched.
///
/// Relies on `rusqlite::Connection::execute` (single-statement `DELETE` on
/// the primary key).
#[verifier::external_body]
pub(crate) fn delete_goat_row(s: &mut Store, gid: i64) -> (r: Result<usize, StoreError>)
    requires
        old(s).tx_open(),
    ensures
        final(s).committed() == old(s).committed(),
        match r {
            Ok(n) => final(s).tx_open() && (n == if old(s)@.goats.dom().contains(gid) {
                1usize
            } else {
                0usize
            }) && final(s)@ == (StoreModel { goats: old(s)@.goats.remove(gid), ..old(s)@ }),
            Err(_) => engine_failure_outcome(*old(s), *final(s)),
        },
{
    match s.conn.execute("DELETE FROM goats WHERE id=?1", (gid,)) {
        Ok(n) => Ok(n),
        Err(e) => Err(StoreError::Failure(e.to_string())),
    }
}

/// Deletes every vaccine link of a goat.
///
/// Relies on `rusqlite::Connection::execute` (single-statement `DELETE`
/// by goat identifier).
#[verifier::external_body]
pub(crate) fn delete_vaccine_links(s: &mut Store, gid: i64) -> (r: Result<(), StoreError>)
    requires
        old(s).tx_open(),
    ensures
        final(s).committed() == old(s).committed(),
        match r {
            Ok(()) => final(s).tx_open() && final(s)@ == (StoreModel {
                goat_vaccines: links_without(old(s)@.goat_vaccines, gid),
                ..old(s)@
            }),
            Err(_) => engine_failure_outcome(*old(s), *final(s)),
        },
{
    match s.conn.execute("DELETE FROM goat_vaccines WHERE goat_id=?1", (gid,)) {
        Ok(_) => Ok(()),
        Err(e) => Err(StoreError::Failure(e.to_string())),
    }
}

/// Deletes every disease link of a goat.
///
/// Relies on `rusqlite::Connection::execute` (single-statement `DELETE`
/// by goat identifier).
#[verifier::external_body]
pub(crate) fn delete_disease_links(s: &mut Store, gid: i64) -> (r: Result<(), StoreError>)
    requires
        old(s).tx_open(),
    ensures
        final(s).committed() == old(s).committed(),
        match r {
            Ok(()) => final(s).tx_open() && final(s)@ == (StoreModel {
                goat_diseases: links_without(old(s)@.goat_diseases, gid),
                ..old(s)@
            }),
            Err(_) => engine_failure_outcome(*old(s), *final(s)),
        },
{
    match s.conn.execute("DELETE FROM goat_diseases WHERE goat_id=?1", (gid,)) {
        Ok(_) => Ok(()),
        Err(e) => Err(StoreError::Failure(e.to_string())),
    }
}

/// Inserts a vaccine reference row, handing back its fresh identifier, or
/// `Conflict` if the name is taken.
///
/// Relies on `rusqlite::Connection::execute` with the `UNIQUE` constraint
/// on `vaccines.name` (a constraint violation is reported exactly when the
/// name is already present; then nothing changed, and a constraint
/// violation is not among the errors the engine answers with an automatic
/// rollback) and on `rusqlite::Connection::last_insert_rowid`.
#[verifier::external_body]
pub(crate) fn insert_vaccine_row(s: &mut Store, name: &String) -> (r: Result<i64, StoreError>)
    requires
        old(s).tx_open(),
    ensures
        final(s).committed() == old(s).committed(),
        match r {
            Ok(vid) => final(s).tx_open() && !old(s)@.vaccines.dom().contains(vid) && !has_name(
                old(s)@.vaccines,
                name@,
            ) && final(s)@ == (StoreModel {
                vaccines: old(s)@.vaccines.insert(vid, name@),
                ..old(s)@
            }),
            Err(StoreError::Conflict) => final(s).tx_open() && has_name(old(s)@.vaccines, name@)
                && final(s)@ == old(s)@,
            Err(StoreError::Failure(_)) => engine_failure_outcome(*old(s), *final(s)),
        },
{
    match s.conn.execute("INSERT INTO vaccines (name) VALUES (?1)", (name,)) {
        Ok(_) => Ok(s.conn.last_insert_rowid()),
        Err(rusqlite::Error::SqliteFailure(f, _)) if f.code
            == rusqlite::ErrorCode::ConstraintViolation => Err(StoreError::Conflict),
        Err(e) => Err(StoreError::Failure(e.to_string())),
    }
}

/// Inserts a disease reference row, handing back its fresh identifier, or
/// `Conflict` if the name is taken.
///
/// Relies on `rusqlite::Connection::execute` with the `UNIQUE` constraint
/// on `diseases.name`, and on `rusqlite::Connection::last_insert_rowid`,
/// as for the vaccine table (a constraint violation triggers no automatic
/// rollback).
#[verifier::external_body]
pub(crate) fn insert_disease_row(s: &mut Store, name: &String) -> (r: Result<i64, StoreError>)
    requires
        old(s).tx_open(),
    ensures
        final(s).committed() == old(s).committed(),
        match r {
            Ok(did) => final(s).tx_open() && !old(s)@.diseases.dom().contains(did) && !has_name(
                old(s)@.diseases,
                name@,
            ) && final(s)@ == (StoreModel {
                diseases: old(s)@.diseases.insert(did, name@),
                ..old(s)@
            }),
            Err(StoreError::Conflict) => final(s).tx_open() && has_name(old(s)@.diseases, name@)
                && final(s)@ == old(s)@,
            Err(StoreError::Failure(_)) => engine_failure_outcome(*old(s), *final(s)),
        },
{
    match s.conn.execute("INSERT INTO diseases (name) VALUES (?1)", (name,)) {
        Ok(_) => Ok(s.conn.last_insert_rowid()),
        Err(rusqlite::Error::SqliteFailure(f, _)) if f.code
            == rusqlite::ErrorCode::ConstraintViolation => Err(StoreError::Conflict),
        Err(e) => Err(StoreError::Failure(e.to_string())),
    }
}

/// Looks a vaccine row up by exact name.
///
/// Relies on `rusqlite::Connection::query_row` over the `UNIQUE` name
/// column and `rusqlite::OptionalExtension::optional`.
#[verifier::external_body]
pub(crate) fn find_vaccine_id(s: &Store, name: &String) -> (r: Result<Option<i64>, StoreError>)
    ensures
        match r {
            Ok(Some(vid)) => s@.vaccines.dom().contains(vid) && s@.vaccines[vid] == name@,
            Ok(None) => !has_name(s@.vaccines, name@),
            Err(_) => true,
        },
{
    let res = s.conn.query_row("SELECT id FROM vaccines WHERE name=?1", (name,), |row| row.get(0));
    match res.optional() {
        Ok(o) => Ok(o),
        Err(e) => Err(StoreError::Failure(e.to_string())),
    }
}

/// Looks a disease row up by exact name.
///
/// Relies on `rusqlite::Connection::query_row` over the `UNIQUE` name
/// column and `rusqlite::OptionalExtension::optional`.
#[verifier::external_body]
pub(crate) fn find_disease_id(s: &Store, name: &String) -> (r: Result<Option<i64>, StoreError>)
    ensures
        match r {
            Ok(Some(did)) => s@.diseases.dom().contains(did) && s@.diseases[did] == name@,
            Ok(None) => !has_name(s@.diseases, name@),
            Err(_) => true,
        },
{
    let res = s.conn.query_row("SELECT id FROM diseases WHERE name=?1", (name,), |row| row.get(0));
    match res.optional() {
        Ok(o) => Ok(o),
        Err(e) => Err(StoreError::Failure(e.to_string())),
    }
}

/// Links a goat to a vaccine.
///
/// Relies on `rusqlite::Connection::execute` (single-statement `INSERT`)
/// with the enforced foreign keys: the pair lands only if both endpoints
/// exist.  Must not be called on a pair already present.
#[verifier::external_body]
pub(crate) fn insert_vaccine_link(s: &mut Store, gid: i64, vid: i64) -> (r: Result<(), StoreError>)
    requires
        old(s).tx_open(),
        !old(s)@.goat_vaccines.contains((gid, vid)),
    ensures
        final(s).committed() == old(s).committed(),
        match r {
            Ok(()) => final(s).tx_open() && old(s)@.goats.dom().contains(gid) && old(s)@.vaccines.dom().contains(vid) && final(s)@ == (StoreModel {
                goat_vaccines: old(s)@.goat_vaccines.insert((gid, vid)),
                ..old(s)@
            }),
            Err(_) => engine_failure_outcome(*old(s), *final(s)),
        },
{
    match s.conn.execute(
        "INSERT INTO goat_vaccines (goat_id, vaccine_id) VALUES (?1,?2)",
        (gid, vid),
    ) {
        Ok(_) => Ok(()),
        Err(e) => Err(StoreError::Failure(e.to_string())),
    }
}

/// Links a goat to a disease.
///
/// Relies on `rusqlite::Connection::execute` with the enforced foreign
/// keys, as for the vaccine link table.  Must not be called on a pair
/// already present.
#[verifier::external_body]
pub(crate) fn insert_disease_link(s: &mut Store, gid: i64, did: i64) -> (r: Result<(), StoreError>)
    requires
        old(s).tx_open(),
        !old(s)@.goat_diseases.contains((gid, did)),
    ensures
        final(s).committed() == old(s).committed(),
        match r {
            Ok(()) => final(s).tx_open() && old(s)@.goats.dom().contains(gid) && old(s)@.diseases.dom().contains(did) && final(s)@ == (StoreModel {
                goat_diseases: old(s)@.goat_diseases.insert((gid, did)),
                ..old(s)@
            }),
            Err(_) => engine_failure_outcome(*old(s), *final(s)),
        },
{
    match s.conn.execute(
        "INSERT INTO goat_diseases (goat_id, disease_id) VALUES (?1,?2)",
        (gid, did),
    ) {
        Ok(_) => Ok(()),
        Err(e) => Err(StoreError::Failure(e.to_string())),
    }
}

/// Reads a goat base row by identifier.
///
/// Relies on `rusqlite::Connection::query_row` over the primary key and
/// `rusqlite::OptionalExtension::optional`.
#[verifier::external_body]
pub(crate) fn query_goat_row(s: &Store, gid: i64) -> (r: Result<Option<GoatRow>, StoreError>)
    ensures
        match r {
            Ok(Some(row)) => s@.goats.dom().contains(gid) && row@ == s@.goats[gid],
            Ok(None) => !s@.goats.dom().contains(gid),
            Err(_) => true,
        },
{
    let res = s.conn.query_row(SQL_SELECT_GOAT, (gid,), |row| {
        Ok(GoatRow {
            breed: row.get(0)?, name: row.get(1)?, gender: row.get(2)?,
            offspring: row.get(3)?, cost: row.get(4)?, weight: row.get(5)?,
            current_price: row.get(6)?, diet: row.get(7)?,
            last_bred: row.get(8)?, health_status: row.get(9)?,
        })
    });
    match res.optional() {
        Ok(o) => Ok(o),
        Err(e) => Err(StoreError::Failure(e.to_string())),
    }
}

/// Reads every goat identifier, each exactly once.
///
/// Relies on `rusqlite::Connection::prepare` and
/// `rusqlite::Statement::query_map` over the primary-key column: one row
/// per stored goat.
#[verifier::external_body]
pub(crate) fn query_goat_ids(s: &Store) -> (r: Result<Vec<i64>, StoreError>)
    ensures
        match r {
            Ok(ids) => ids@.no_duplicates() && (forall|i: int|
                0 <= i < ids@.len() ==> s@.goats.dom().contains(ids@[i])) && (forall|gid: i64|
                s@.goats.dom().contains(gid) ==> ids@.contains(gid)),
            Err(_) => true,
        },
{
    let res = s.conn.prepare("SELECT id FROM goats").and_then(|mut stmt| {
        stmt.query_map((), |row| row.get(0))?.collect::<Result<Vec<i64>, _>>()
    });
    match res {
        Ok(ids) => Ok(ids),
        Err(e) => Err(StoreError::Failure(e.to_string())),
    }
}

/// Reads the vaccine rows a goat is linked to, each exactly once.
///
/// Relies on `rusqlite::Connection::prepare` and
/// `rusqlite::Statement::query_map` joining the link table (pairs
/// `UNIQUE`, so one row per linked vaccine) with the vaccine table.
#[verifier::external_body]
pub(crate) fn query_vaccines_of(s: &Store, gid: i64) -> (r: Result<Vec<RefRow>, StoreError>)
    ensures
        match r {
            Ok(rows) => (forall|i: int|
                0 <= i < rows@.len() ==> s@.goat_vaccines.contains((gid, #[trigger] rows@[i].id))
                    && s@.vaccines.dom().contains(rows@[i].id) && rows@[i].name@ == s@.vaccines[
                    rows@[i].id
                ]) && (forall|vid: i64| #[trigger]
                s@.goat_vaccines.contains((gid, vid)) ==> exists|i: int|
                    0 <= i < rows@.len() && rows@[i].id == vid) && (forall|i: int, j: int|
                0 <= i < j < rows@.len() ==> rows@[i].id != rows@[j].id),
            Err(_) => true,
        },
{
    let res = s.conn.prepare(SQL_GOAT_VACCINES).and_then(|mut stmt| {
        stmt.query_map((gid,), |row| Ok(RefRow { id: row.get(0)?, name: row.get(1)? }))?
            .collect::<Result<Vec<RefRow>, _>>()
    });
    match res {
        Ok(rows) => Ok(rows),
        Err(e) => Err(StoreError::Failure(e.to_string())),
    }
}

/// Reads the disease rows a goat is linked to, each exactly once.
///
/// Relies on `rusqlite::Connection::prepare` and
/// `rusqlite::Statement::query_map`, as for the vaccine join.
#[verifier::external_body]
pub(crate) fn query_diseases_of(s: &Store, gid: i64) -> (r: Result<Vec<RefRow>, StoreError>)
    ensures
        match r {
            Ok(rows) => (forall|i: int|
                0 <= i < rows@.len() ==> s@.goat_diseases.contains((gid, #[trigger] rows@[i].id))
                    && s@.diseases.dom().contains(rows@[i].id) && rows@[i].name@ == s@.diseases[
                    rows@[i].id
                ]) && (forall|did: i64| #[trigger]
                s@.goat_diseases.contains((gid, did)) ==> exists|i: int|
                    0 <= i < rows@.len() && rows@[i].id == did) && (forall|i: int, j: int|
                0 <= i < j < rows@.len() ==> rows@[i].id != rows@[j].id),
            Err(_) => true,
        },
{
    let res = s.conn.prepare(SQL_GOAT_DISEASES).and_then(|mut stmt| {
        stmt.query_map((gid,), |row| Ok(RefRow { id: row.get(0)?, name: row.get(1)? }))?
            .collect::<Result<Vec<RefRow>, _>>()
    });
    match res {
        Ok(rows) => Ok(rows),
        Err(e) => Err(StoreError::Failure(e.to_string())),
    }
}

} // verus!
