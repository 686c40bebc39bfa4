//! The SQLite database behind the store: the two tables as the library sees
//! them, and the statements that the store runs on them.
//!
//! Each statement runs on its own and SQLite runs it atomically: a statement
//! that fails leaves both tables as they were.
use crate::fish::{opt_view, CreateFishRequest, Fish, FishFields, FishId, SessionId};
use rusqlite::OptionalExtension;
use vstd::prelude::*;

verus! {

#[verifier::external_type_specification]
#[verifier::external_body]
pub struct ExConnection(rusqlite::Connection);

#[verifier::external_type_specification]
#[verifier::external_body]
pub struct ExSqliteError(rusqlite::Error);

/// One row of the fish table: its id, the session that owns it (none for a
/// template fish), and its fields.
pub struct FishRecord {
    pub id: u32,
    pub owner: Option<Seq<char>>,
    pub fields: FishFields,
}

impl FishRecord {
    /// The fish that this row describes.
    pub open spec fn fish(self) -> crate::fish::FishView {
        crate::fish::FishView { id: self.id, fields: self.fields }
    }
}

/// The rows of the fish table, in the order of their ids.
pub uninterp spec fn fish_table(c: rusqlite::Connection) -> Seq<FishRecord>;

/// The session table: each token with its expiry, in seconds since the Unix
/// epoch.
pub uninterp spec fn session_table(c: rusqlite::Connection) -> Map<Seq<char>, i64>;

/// A row of the fish table as it is read: id, owner, name, species, age and
/// weight.
pub type FishRow = (u32, Option<String>, String, String, u32, i64);

pub open spec fn row_record(r: FishRow) -> FishRecord {
    FishRecord {
        id: r.0,
        owner: opt_view(r.1),
        fields: FishFields { name: r.2@, species: r.3@, age: r.4, weight: r.5 },
    }
}

pub open spec fn owner_view(o: Option<SessionId>) -> Option<Seq<char>> {
    match o {
        Some(s) => Some(s@),
        None => None,
    }
}

pub open spec fn is_lower_hex_digit(c: char) -> bool {
    ('0' <= c && c <= '9') || ('a' <= c && c <= 'f')
}

/// A session token: 16 bytes written as 32 lower-case hex digits.
pub open spec fn is_token(t: Seq<char>) -> bool {
    t.len() == 32 && forall|i: int| 0 <= i < t.len() ==> is_lower_hex_digit(#[trigger] t[i])
}

/// Relies on rusqlite's `Connection::open_in_memory` and
/// `Connection::execute_batch`: a new in-memory database that holds the two
/// tables of the store, both empty. The statements below rely on this schema:
/// foreign keys are enforced, and deleting a session deletes its fish; fish
/// ids are AUTOINCREMENT (each above every id the table has held) and fit in
/// a `u32`.
#[verifier::external_body]
pub(crate) fn open_database() -> (r: Result<rusqlite::Connection, rusqlite::Error>)
    ensures
        r matches Ok(c) ==> (fish_table(c) =~= seq![] && session_table(c) =~= map![]),
{
    let c = rusqlite::Connection::open_in_memory()?;
    c.execute_batch(
        "PRAGMA foreign_keys = ON;
        CREATE TABLE session (id TEXT PRIMARY KEY NOT NULL, expires_at INTEGER NOT NULL);
        CREATE TABLE fish (
            id INTEGER PRIMARY KEY AUTOINCREMENT CHECK (id <= 4294967295),
            session_id TEXT REFERENCES session(id) ON DELETE CASCADE,
            name TEXT NOT NULL, species TEXT NOT NULL,
            age INTEGER NOT NULL, weight_kg INTEGER NOT NULL
        );",
    )?;
    Ok(c)
}

/// Relies on rusqlite's `Connection::query_row` running an INSERT into the
/// session table: SQLite draws the token as the lower-case hex of 16 random
/// bytes (`randomblob`), and the primary key refuses a token already there.
#[verifier::external_body]
pub(crate) fn insert_session(c: &mut rusqlite::Connection, expires_at: i64) -> (r: Result<
    SessionId,
    rusqlite::Error,
>)
    ensures
        fish_table(*final(c)) == fish_table(*old(c)),
        r matches Ok(id) ==> {
            &&& is_token(id@)
            &&& !session_table(*old(c)).contains_key(id@)
            &&& session_table(*final(c)) == session_table(*old(c)).insert(id@, expires_at)
        },
        r is Err ==> session_table(*final(c)) == session_table(*old(c)),
{
    c.query_row(
        "INSERT INTO session (id, expires_at)
        VALUES (lower(hex(randomblob(16))), ?1) RETURNING id",
        (expires_at,),
        |row| row.get(0),
    ).map(SessionId)
}

/// Relies on rusqlite's `Connection::query_row` running an INSERT into the fish
/// table. AUTOINCREMENT gives the row an id above every id the table has
/// held, and the foreign key refuses an owner that is not a session.
#[verifier::external_body]
pub(crate) fn insert_fish(
    c: &mut rusqlite::Connection,
    owner: &Option<SessionId>,
    body: &CreateFishRequest,
) -> (r: Result<FishId, rusqlite::Error>)
    ensures
        session_table(*final(c)) == session_table(*old(c)),
        r matches Ok(id) ==> {
            &&& forall|i: int|
                0 <= i < fish_table(*old(c)).len() ==> #[trigger] fish_table(*old(c))[i].id < id.0
            &&& fish_table(*final(c)) == fish_table(*old(c)).push(
                FishRecord { id: id.0, owner: owner_view(*owner), fields: body@ },
            )
            &&& owner matches Some(s) ==> session_table(*old(c)).contains_key(s@)
        },
        r is Err ==> fish_table(*final(c)) == fish_table(*old(c)),
{
    c.query_row(
        "INSERT INTO fish (session_id, name, species, age, weight_kg)
        VALUES (?1, ?2, ?3, ?4, ?5) RETURNING id",
        (owner.as_ref().map(|s| &s.0), &body.name, &body.species, body.age, body.weight_kg.0),
        |row| row.get(0),
    ).map(FishId)
}

/// Relies on rusqlite's `Connection::prepare` and `Statement::query_map` over
/// a SELECT of the whole fish table ordered by id.
#[verifier::external_body]
pub(crate) fn select_all_fish(c: &rusqlite::Connection) -> (r: Result<
    Vec<FishRow>,
    rusqlite::Error,
>)
    ensures
        r matches Ok(rows) ==> rows@.map_values(|row: FishRow| row_record(row)) == fish_table(*c),
{
    let mut stmt = c.prepare(
        "SELECT id, session_id, name, species, age, weight_kg FROM fish ORDER BY id",
    )?;
    let rows = stmt.query_map((), |row| row.try_into())?;
    rows.collect()
}

/// Relies on rusqlite's `Connection::query_row` and
/// `OptionalExtension::optional` over a SELECT of the fish row with the id.
#[verifier::external_body]
pub(crate) fn select_fish(c: &rusqlite::Connection, id: FishId) -> (r: Result<
    Option<FishRow>,
    rusqlite::Error,
>)
    ensures
        r matches Ok(Some(row)) ==> row.0 == id.0 && fish_table(*c).contains(row_record(row)),
        r matches Ok(None) ==> forall|i: int|
            0 <= i < fish_table(*c).len() ==> #[trigger] fish_table(*c)[i].id != id.0,
{
    c.query_row(
        "SELECT id, session_id, name, species, age, weight_kg FROM fish WHERE id = ?1",
        (id.0,),
        |row| row.try_into(),
    ).optional()
}

/// Relies on rusqlite's `Connection::execute` running an UPDATE of the fish
/// row with the id of `fish`: that row takes the fields of `fish` and keeps
/// its owner; every other row stays.
#[verifier::external_body]
pub(crate) fn update_fish_row(c: &mut rusqlite::Connection, fish: &Fish) -> (r: Result<
    usize,
    rusqlite::Error,
>)
    ensures
        session_table(*final(c)) == session_table(*old(c)),
        r is Ok ==> fish_table(*final(c)) == fish_table(*old(c)).map_values(
            |row: FishRecord|
                if row.id == fish.id.0 {
                    FishRecord { fields: fish@.fields, ..row }
                } else {
                    row
                },
        ),
        r is Err ==> fish_table(*final(c)) == fish_table(*old(c)),
{
    c.execute(
        "UPDATE fish SET name = ?2, species = ?3, age = ?4, weight_kg = ?5 WHERE id = ?1",
        (fish.id.0, &fish.name, &fish.species, fish.age, fish.weight_kg.0),
    )
}

/// Relies on rusqlite's `Connection::execute` running a DELETE of the fish row
/// with the id.
#[verifier::external_body]
pub(crate) fn delete_fish_row(c: &mut rusqlite::Connection, id: FishId) -> (r: Result<
    usize,
    rusqlite::Error,
>)
    ensures
        session_table(*final(c)) == session_table(*old(c)),
        r is Ok ==> fish_table(*final(c)) == fish_table(*old(c)).filter(
            |row: FishRecord| row.id != id.0,
        ),
        r is Err ==> fish_table(*final(c)) == fish_table(*old(c)),
{
    c.execute("DELETE FROM fish WHERE id = ?1", (id.0,))
}

/// Relies on rusqlite's `Connection::query_row` and
/// `OptionalExtension::optional` over a SELECT of the expiry of the session
/// with the token.
#[verifier::external_body]
pub(crate) fn select_session_expiry(c: &rusqlite::Connection, id: &str) -> (r: Result<
    Option<i64>,
    rusqlite::Error,
>)
    ensures
        r matches Ok(Some(e)) ==> session_table(*c).contains_key(id@) && session_table(*c)[id@]
            == e,
        r matches Ok(None) ==> !session_table(*c).contains_key(id@),
{
    c.query_row("SELECT expires_at FROM session WHERE id = ?1", (id,), |row| row.get(0)).optional()
}

/// Relies on rusqlite's `Connection::prepare` and `Statement::query_map` over
/// a SELECT of the whole session table, whose primary key keeps the tokens
/// distinct.
#[verifier::external_body]
pub(crate) fn select_all_sessions(c: &rusqlite::Connection) -> (r: Result<
    Vec<(String, i64)>,
    rusqlite::Error,
>)
    ensures
        r matches Ok(rows) ==> {
            &&& forall|i: int|
                0 <= i < rows@.len() ==> session_table(*c).contains_key(#[trigger] rows@[i].0@)
                    && session_table(*c)[rows@[i].0@] == rows@[i].1
            &&& forall|t: Seq<char>|
                #[trigger] session_table(*c).contains_key(t) ==> exists|i: int|
                    0 <= i < rows@.len() && #[trigger] rows@[i].0@ == t
            &&& forall|a: int, b: int| 0 <= a < b < rows@.len() ==> rows@[a].0@ != rows@[b].0@
        },
{
    let mut stmt = c.prepare("SELECT id, expires_at FROM session")?;
    let rows = stmt.query_map((), |row| row.try_into())?;
    rows.collect()
}

/// Relies on rusqlite's `Connection::execute` running a DELETE of the session
/// with the token; the foreign key's ON DELETE CASCADE deletes the fish it
/// owns with it.
#[verifier::external_body]
pub(crate) fn delete_session(c: &mut rusqlite::Connection, id: &SessionId) -> (r: Result<
    usize,
    rusqlite::Error,
>)
    ensures
        r is Ok ==> session_table(*final(c)) == session_table(*old(c)).remove(id@)
            && fish_table(*final(c)) == fish_table(*old(c)).filter(
            |row: FishRecord| row.owner != Some(id@),
        ),
        r is Err ==> session_table(*final(c)) == session_table(*old(c)) && fish_table(*final(c))
            == fish_table(*old(c)),
{
    c.execute("DELETE FROM session WHERE id = ?1", (&id.0,))
}

/// The database file at `path` was written as a copy of a database whose
/// fish table holds `fish` and whose session table is `sessions`.
pub uninterp spec fn backup_holds(
    path: Seq<char>,
    fish: Seq<FishRecord>,
    sessions: Map<Seq<char>, i64>,
) -> bool;

/// Relies on rusqlite's `Connection::backup`: copies the main database, in
/// one backup, to a database file at `path`; when it returns `Ok` the copy is
/// complete. It only reads the connection.
#[verifier::external_body]
pub(crate) fn backup_to_file(c: &rusqlite::Connection, path: &str) -> (r: Result<
    (),
    rusqlite::Error,
>)
    ensures
        r is Ok ==> backup_holds(path@, fish_table(*c), session_table(*c)),
{
    c.backup(rusqlite::MAIN_DB, path, None)
}

} // verus!
