//! The spec store: durable keyed storage of immutable records in an
//! embedded SQLite database, reached through rusqlite. The database
//! contents are modelled as a map from id to record; each trusted
//! wrapper around a rusqlite call states how it reads or changes that
//! map, and the store's methods are verified against those statements.

use vstd::prelude::*;
use rusqlite::Connection;
use rusqlite::OptionalExtension;

verus! {

/// Declares rusqlite's connection type so it can stand in fields and
/// signatures; its values are opaque to verification.
#[verifier::external_type_specification]
#[verifier::external_body]
pub struct ExConnection(Connection);

/// A storage failure: a duplicate id, or any other engine error with
/// its detail (kept for server-side logging, not for clients).
#[derive(Debug)]
pub enum StoreError {
    Conflict,
    Storage(String),
}

/// A stored spec record, as rows of the `specs` table hold it.
#[derive(Debug)]
pub struct SpecRecord {
    pub id: String,
    pub content: String,
    pub title: String,
    pub summary: String,
    pub step_count: i64,
    pub version: String,
    pub created_at: String,
}

/// The mathematical value of a stored record, keyed by its id in the
/// store model.
pub struct RecordModel {
    pub content: Seq<char>,
    pub title: Seq<char>,
    pub summary: Seq<char>,
    pub step_count: int,
    pub version: Seq<char>,
    pub created_at: Seq<char>,
}

impl SpecRecord {
    /// The record's value in the store model (everything but the id).
    pub open spec fn model(&self) -> RecordModel {
        RecordModel {
            content: self.content@,
            title: self.title@,
            summary: self.summary@,
            step_count: self.step_count as int,
            version: self.version@,
            created_at: self.created_at@,
        }
    }
}

/// The rows of the `specs` table of the database behind a connection,
/// keyed by id; the empty map when the table does not exist.
pub uninterp spec fn db_map(conn: Connection) -> Map<Seq<char>, RecordModel>;

/// Relies on rusqlite::Connection::open: opens (creating if absent) the
/// database at the given path; the path ":memory:" opens a fresh, empty
/// in-memory database.
#[verifier::external_body]
fn open_database(path: &str) -> (r: Result<Connection, StoreError>)
    ensures
        match r {
            Ok(conn) => path@ == ":memory:"@ ==> db_map(conn) == Map::<
                Seq<char>,
                RecordModel,
            >::empty(),
            Err(e) => e is Storage,
        },
{
    match Connection::open(path) {
        Ok(conn) => Ok(conn),
        Err(e) => Err(StoreError::Storage(e.to_string())),
    }
}

/// Relies on rusqlite::Connection::execute_batch with a
/// `CREATE TABLE IF NOT EXISTS` statement: creating the table (or
/// finding it already there) adds or changes no row.
#[verifier::external_body]
fn create_specs_table(conn: &mut Connection) -> (r: Result<(), StoreError>)
    ensures
        db_map(*final(conn)) == db_map(*old(conn)),
        r is Err ==> r->Err_0 is Storage,
{
    let sql = "CREATE TABLE IF NOT EXISTS specs (
        id TEXT PRIMARY KEY,
        content TEXT NOT NULL,
        title TEXT NOT NULL DEFAULT '',
        summary TEXT NOT NULL DEFAULT '',
        step_count INTEGER NOT NULL DEFAULT 0,
        version TEXT NOT NULL DEFAULT '',
        created_at TEXT NOT NULL DEFAULT (datetime('now')))";
    match conn.execute_batch(sql) {
        Ok(()) => Ok(()),
        Err(e) => Err(StoreError::Storage(e.to_string())),
    }
}

/// Relies on rusqlite::Connection::execute with an INSERT statement on
/// the `specs` primary key: on success the row is added with the given
/// fields (`created_at` filled in by the engine); a duplicate id fails
/// with a constraint violation, reported as `Conflict`; a failed
/// statement changes no row.
#[verifier::external_body]
fn insert_row(
    conn: &mut Connection,
    id: &str,
    content: &str,
    title: &str,
    summary: &str,
    step_count: i64,
    version: &str,
) -> (r: Result<(), StoreError>)
    ensures
        match r {
            Ok(()) => !db_map(*old(conn)).dom().contains(id@) && (exists|ts: Seq<char>|
                db_map(*final(conn)) == db_map(*old(conn)).insert(
                    id@,
                    (RecordModel {
                        content: content@,
                        title: title@,
                        summary: summary@,
                        step_count: step_count as int,
                        version: version@,
                        created_at: ts,
                    }),
                )),
            Err(e) => db_map(*final(conn)) == db_map(*old(conn)) && (db_map(
                *old(conn),
            ).dom().contains(id@) ==> e == StoreError::Conflict),
        },
        db_map(*old(conn)).dom().contains(id@) ==> r is Err,
{
    let sql =
        "INSERT INTO specs (id, content, title, summary, step_count, version) VALUES (?1, ?2, ?3, ?4, ?5, ?6)";
    match conn.execute(sql, (id, content, title, summary, step_count, version)) {
        Ok(_) => Ok(()),
        Err(e) => Err(match e.sqlite_error_code() {
            Some(rusqlite::ErrorCode::ConstraintViolation) => StoreError::Conflict,
            _ => StoreError::Storage(e.to_string()),
        }),
    }
}

/// Relies on rusqlite::Connection::query_row with a SELECT by primary
/// key (made optional through rusqlite::OptionalExtension): a present id
/// yields its row's fields; an absent id yields no row.
#[verifier::external_body]
fn get_row(conn: &Connection, id: &str) -> (r: Result<Option<SpecRecord>, StoreError>)
    ensures
        match r {
            Ok(Some(rec)) => db_map(*conn).dom().contains(id@) && rec.id@ == id@ && rec.model()
                == db_map(*conn)[id@],
            Ok(None) => !db_map(*conn).dom().contains(id@),
            Err(e) => e is Storage,
        },
{
    let sql =
        "SELECT id, content, title, summary, step_count, version, created_at FROM specs WHERE id = ?1";
    let row = conn.query_row(
        sql,
        (id,),
        |row| Ok(SpecRecord { id: row.get(0)?, content: row.get(1)?, title: row.get(2)?, summary: row.get(3)?, step_count: row.get(4)?, version: row.get(5)?, created_at: row.get(6)? }),
    ).optional();
    match row {
        Ok(v) => Ok(v),
        Err(e) => Err(StoreError::Storage(e.to_string())),
    }
}

/// The spec store: the one handle to the embedded database.
pub struct Store {
    conn: Connection,
}

impl Store {
    /// The store's contents: its records, keyed by id.
    pub closed spec fn contents(self) -> Map<Seq<char>, RecordModel> {
        db_map(self.conn)
    }

    /// Opens the store at the given database path, creating the `specs`
    /// table when absent. The path ":memory:" gives a fresh empty store.
    pub fn new(database_path: &str) -> (r: Result<Store, StoreError>)
        ensures
            match r {
                Ok(s) => database_path@ == ":memory:"@ ==> s.contents() == Map::<
                    Seq<char>,
                    RecordModel,
                >::empty(),
                Err(e) => e is Storage,
            },
    {
        let mut conn = match open_database(database_path) {
            Ok(c) => c,
            Err(e) => {
                return Err(e);
            },
        };
        match create_specs_table(&mut conn) {
            Ok(()) => Ok(Store { conn }),
            Err(e) => Err(e),
        }
    }

    /// Inserts a fresh record. A duplicate id fails with `Conflict` and
    /// changes nothing; a successful insert adds exactly the given
    /// fields under the id, the engine assigning the creation time.
    pub fn insert(
        &mut self,
        id: &str,
        content: &str,
        title: &str,
        summary: &str,
        step_count: i64,
        version: &str,
    ) -> (r: Result<(), StoreError>)
        ensures
            match r {
                Ok(()) => !old(self).contents().dom().contains(id@) && (exists|ts: Seq<char>|
                    final(self).contents() == old(self).contents().insert(
                        id@,
                        (RecordModel {
                            content: content@,
                            title: title@,
                            summary: summary@,
                            step_count: step_count as int,
                            version: version@,
                            created_at: ts,
                        }),
                    )),
                Err(e) => final(self).contents() == old(self).contents() && (old(
                    self,
                ).contents().dom().contains(id@) ==> e == StoreError::Conflict),
            },
            old(self).contents().dom().contains(id@) ==> r is Err,
    {
        insert_row(&mut self.conn, id, content, title, summary, step_count, version)
    }

    /// Looks a record up by id: `Ok(Some)` with exactly the stored
    /// fields when the id is present, `Ok(None)` when it is not; a
    /// record is never changed by reading.
    pub fn get(&self, id: &str) -> (r: Result<Option<SpecRecord>, StoreError>)
        ensures
            match r {
                Ok(Some(rec)) => self.contents().dom().contains(id@) && rec.id@ == id@
                    && rec.model() == self.contents()[id@],
                Ok(None) => !self.contents().dom().contains(id@),
                Err(e) => e is Storage,
            },
    {
        get_row(&self.conn, id)
    }
}

} // verus!
