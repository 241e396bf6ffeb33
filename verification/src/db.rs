//! Storage access: row-level operations on the relational store.
//!
//! The store is a SQLite database reached through a `rusqlite::Connection`.
//! Its observable contents are modelled by three ghost maps, one per table,
//! keyed by the entity's id. Every operation here is a single parameterized
//! statement; its contract says what the statement does to those maps.
//! Cross-entity rules live in `logic`, not here.

use vstd::prelude::*;

use crate::models::{Date, Task, TaskList, TaskListView, TaskView, User, UserView, valid_timestamp};
use chrono::{DateTime, Datelike, NaiveDate, Utc};
use rusqlite::Connection;
use uuid::Uuid;

verus! {

#[verifier::external_type_specification]
#[verifier::external_body]
pub struct ExConnection(rusqlite::Connection);

#[verifier::external_type_specification]
#[verifier::external_body]
pub struct ExError(rusqlite::Error);

#[verifier::external_type_specification]
#[verifier::external_body]
pub struct ExRow<'a>(rusqlite::Row<'a>);

/// The `users` table: each stored user record, keyed by its id.
pub uninterp spec fn users_of(conn: Connection) -> Map<u128, UserView>;

/// The `task_lists` table: each stored list record, keyed by its id.
pub uninterp spec fn lists_of(conn: Connection) -> Map<u128, TaskListView>;

/// The `tasks` table: each stored task record, keyed by its id.
pub uninterp spec fn tasks_of(conn: Connection) -> Map<u128, TaskView>;

/// A table with no rows at all.
pub open spec fn empty_table<V>(m: Map<u128, V>) -> bool {
    m == Map::<u128, V>::empty()
}

/// Opens a fresh in-memory store and creates its tables, which start empty.
/// Relies on rusqlite::Connection::open_in_memory and
/// Connection::execute_batch: a new in-memory database holds no rows.
#[verifier::external_body]
pub fn open_store() -> (r: Result<Connection, rusqlite::Error>)
    ensures
        r matches Ok(c) ==> empty_table(users_of(c)),
        r matches Ok(c) ==> empty_table(lists_of(c)),
        r matches Ok(c) ==> empty_table(tasks_of(c)),
{
    let conn = Connection::open_in_memory()?;
    conn.execute_batch(
        "CREATE TABLE users (user_id TEXT PRIMARY KEY, user_name TEXT NOT NULL, user_password TEXT NOT NULL, user_mail TEXT NOT NULL, created_at TEXT NOT NULL);
         CREATE TABLE task_lists (list_id TEXT PRIMARY KEY, user_id TEXT NOT NULL, name TEXT NOT NULL);
         CREATE TABLE tasks (task_id TEXT PRIMARY KEY, list_id TEXT NOT NULL, content TEXT NOT NULL, is_completed INTEGER NOT NULL, due_date TEXT, created_at TEXT NOT NULL);",
    )?;
    Ok(conn)
}

/// Inserts one `users` row keyed by the user's id. Relies on
/// rusqlite::Connection::execute: the INSERT adds exactly that row, SQLite
/// refuses a duplicate primary key, and a failed statement changes nothing.
#[verifier::external_body]
pub fn create_user(conn: &mut Connection, user: &User) -> (r: Result<(), rusqlite::Error>)
    requires
        valid_timestamp(user.created_at),
    ensures
        r is Ok ==> !users_of(*old(conn)).contains_key(user.user_id) && users_of(*final(conn))
            == users_of(*old(conn)).insert(user.user_id, user@),
        users_of(*old(conn)).contains_key(user.user_id) ==> r is Err,
        r is Err ==> users_of(*final(conn)) == users_of(*old(conn)),
        lists_of(*final(conn)) == lists_of(*old(conn)),
        tasks_of(*final(conn)) == tasks_of(*old(conn)),
{
    conn.execute(
        "INSERT INTO users (user_id, user_name, user_password, user_mail, created_at) VALUES (?1, ?2, ?3, ?4, ?5)",
        (
            Uuid::from_u128(user.user_id).to_string(),
            &user.user_name,
            &user.user_password_hash,
            &user.user_mail,
            DateTime::<Utc>::from_timestamp(user.created_at, 0).unwrap().to_rfc3339(),
        ),
    )?;
    Ok(())
}

/// Inserts one `task_lists` row keyed by the list's id. Relies on
/// rusqlite::Connection::execute: the INSERT adds exactly that row, SQLite
/// refuses a duplicate primary key, and a failed statement changes nothing.
#[verifier::external_body]
pub fn create_task_list(conn: &mut Connection, task_list: &TaskList) -> (r: Result<
    (),
    rusqlite::Error,
>)
    ensures
        r is Ok ==> !lists_of(*old(conn)).contains_key(task_list.list_id) && lists_of(*final(conn))
            == lists_of(*old(conn)).insert(task_list.list_id, task_list@),
        lists_of(*old(conn)).contains_key(task_list.list_id) ==> r is Err,
        r is Err ==> lists_of(*final(conn)) == lists_of(*old(conn)),
        users_of(*final(conn)) == users_of(*old(conn)),
        tasks_of(*final(conn)) == tasks_of(*old(conn)),
{
    conn.execute(
        "INSERT INTO task_lists (list_id, user_id, name) VALUES (?1, ?2, ?3)",
        (
            Uuid::from_u128(task_list.list_id).to_string(),
            Uuid::from_u128(task_list.user_id).to_string(),
            &task_list.name,
        ),
    )?;
    Ok(())
}

/// Inserts one `tasks` row keyed by the task's id, including the nullable
/// due date and the completion flag. Relies on rusqlite::Connection::execute
/// as `create_task_list` does, and on chrono's NaiveDate and DateTime to
/// write the date and timestamp in their persisted string forms.
#[verifier::external_body]
pub fn create_task(conn: &mut Connection, task: &Task) -> (r: Result<(), rusqlite::Error>)
    requires
        valid_timestamp(task.created_at),
        task.due_date matches Some(d) ==> d.valid(),
    ensures
        r is Ok ==> !tasks_of(*old(conn)).contains_key(task.task_id) && tasks_of(*final(conn))
            == tasks_of(*old(conn)).insert(task.task_id, task@),
        tasks_of(*old(conn)).contains_key(task.task_id) ==> r is Err,
        r is Err ==> tasks_of(*final(conn)) == tasks_of(*old(conn)),
        users_of(*final(conn)) == users_of(*old(conn)),
        lists_of(*final(conn)) == lists_of(*old(conn)),
{
    conn.execute(
        "INSERT INTO tasks (task_id, list_id, content, is_completed, due_date, created_at) VALUES (?1, ?2, ?3, ?4, ?5, ?6)",
        (
            Uuid::from_u128(task.task_id).to_string(),
            Uuid::from_u128(task.list_id).to_string(),
            &task.content,
            task.is_completed,
            task.due_date.map(
                |d| NaiveDate::from_ymd_opt(d.year, d.month as u32, d.day as u32).unwrap().to_string(),
            ),
            DateTime::<Utc>::from_timestamp(task.created_at, 0).unwrap().to_rfc3339(),
        ),
    )?;
    Ok(())
}

/// Reads a stored id column: the canonical UUID string parsed to its 128-bit
/// value. A column that does not hold one (a store written by someone else,
/// or corrupted) becomes the store's own conversion error, never a panic.
/// Relies on uuid::Uuid::parse_str and
/// rusqlite::Error::FromSqlConversionFailure.
#[verifier::external_body]
fn id_from_column(idx: usize, s: &str) -> (r: Result<u128, rusqlite::Error>) {
    match Uuid::parse_str(s) {
        Ok(u) => Ok(u.as_u128()),
        Err(e) => Err(
            rusqlite::Error::FromSqlConversionFailure(idx, rusqlite::types::Type::Text, Box::new(e)),
        ),
    }
}

/// Reads a stored timestamp column: the RFC-3339 string parsed to UTC unix
/// seconds. A column that does not hold one becomes the store's own
/// conversion error, never a panic. Relies on
/// chrono::DateTime::parse_from_rfc3339 and
/// rusqlite::Error::FromSqlConversionFailure.
#[verifier::external_body]
fn timestamp_from_column(idx: usize, s: &str) -> (r: Result<i64, rusqlite::Error>) {
    match DateTime::parse_from_rfc3339(s) {
        Ok(t) => Ok(t.timestamp()),
        Err(e) => Err(
            rusqlite::Error::FromSqlConversionFailure(idx, rusqlite::types::Type::Text, Box::new(e)),
        ),
    }
}

/// Reads one `task_lists` row back into a `TaskList`; a malformed id column
/// surfaces as the store's error. Relies on rusqlite::Row::get.
#[verifier::external_body]
fn row_to_task_list(row: &rusqlite::Row) -> (r: Result<TaskList, rusqlite::Error>) {
    Ok(
        TaskList {
            list_id: id_from_column(0, row.get_ref(0)?.as_str()?)?,
            user_id: id_from_column(1, row.get_ref(1)?.as_str()?)?,
            name: row.get(2)?,
        },
    )
}

/// Reads one `tasks` row back into a `Task`; a malformed id or timestamp
/// column surfaces as the store's error, and a due date that does not parse
/// is read as absent, as the original column may be NULL anyway. Relies on
/// rusqlite::Row::get and chrono::NaiveDate::parse_from_str.
#[verifier::external_body]
fn row_to_task(row: &rusqlite::Row) -> (r: Result<Task, rusqlite::Error>) {
    let due: Option<String> = row.get(4)?;
    Ok(
        Task {
            task_id: id_from_column(0, row.get_ref(0)?.as_str()?)?,
            list_id: id_from_column(1, row.get_ref(1)?.as_str()?)?,
            content: row.get(2)?,
            is_completed: row.get(3)?,
            due_date: due.and_then(|s| NaiveDate::parse_from_str(&s, "%Y-%m-%d").ok()).map(
                |d| Date { year: d.year(), month: d.month() as u8, day: d.day() as u8 },
            ),
            created_at: timestamp_from_column(5, row.get_ref(5)?.as_str()?)?,
        },
    )
}

/// Looks one list up by id: the matching row, or `None` when the id does not
/// resolve; absence is never an error. Relies on
/// rusqlite::Connection::prepare and Statement::query_map: a SELECT by
/// primary key returns the stored row whose key matches, and no other.
#[verifier::external_body]
pub fn get_task_list(conn: &Connection, list_id: u128) -> (r: Result<
    Option<TaskList>,
    rusqlite::Error,
>)
    ensures
        r matches Ok(Some(l)) ==> lists_of(*conn).contains_key(list_id) && l@ == lists_of(
            *conn,
        )[list_id] && l.list_id == list_id,
        r matches Ok(None) ==> !lists_of(*conn).contains_key(list_id),
{
    let mut stmt = conn.prepare("SELECT list_id, user_id, name FROM task_lists WHERE list_id = ?1")?;
    let mut rows = stmt.query_map([Uuid::from_u128(list_id).to_string()], row_to_task_list)?;
    rows.next().transpose()
}

/// Looks one task up by id, symmetric to `get_task_list`. Relies on
/// rusqlite::Connection::prepare and Statement::query_map.
#[verifier::external_body]
pub fn get_task(conn: &Connection, task_id: u128) -> (r: Result<Option<Task>, rusqlite::Error>)
    ensures
        r matches Ok(Some(t)) ==> tasks_of(*conn).contains_key(task_id) && t@ == tasks_of(
            *conn,
        )[task_id] && t.task_id == task_id,
        r matches Ok(None) ==> !tasks_of(*conn).contains_key(task_id),
{
    let mut stmt = conn.prepare(
        "SELECT task_id, list_id, content, is_completed, due_date, created_at FROM tasks WHERE task_id = ?1",
    )?;
    let mut rows = stmt.query_map([Uuid::from_u128(task_id).to_string()], row_to_task)?;
    rows.next().transpose()
}

/// Sets the completion flag on the row with the given key and returns how
/// many rows changed: one when the key resolves, none otherwise. Relies on
/// rusqlite::Connection::execute: the row count comes from sqlite3_changes,
/// and a failed statement changes nothing.
#[verifier::external_body]
pub fn update_task_status(conn: &mut Connection, task_id: u128, is_completed: bool) -> (r: Result<
    usize,
    rusqlite::Error,
>)
    ensures
        users_of(*final(conn)) == users_of(*old(conn)),
        lists_of(*final(conn)) == lists_of(*old(conn)),
        r matches Ok(n) ==> if tasks_of(*old(conn)).contains_key(task_id) {
            n == 1 && tasks_of(*final(conn)) == tasks_of(*old(conn)).insert(
                task_id,
                crate::models::with_completion(tasks_of(*old(conn))[task_id], is_completed),
            )
        } else {
            n == 0 && tasks_of(*final(conn)) == tasks_of(*old(conn))
        },
        r is Err ==> tasks_of(*final(conn)) == tasks_of(*old(conn)),
{
    conn.execute(
        "UPDATE tasks SET is_completed = ?1 WHERE task_id = ?2",
        (is_completed, Uuid::from_u128(task_id).to_string()),
    )
}

/// Returns every list the given user owns, each stored row once, in no
/// promised order; an empty vector when there are none. Relies on
/// rusqlite::Connection::prepare and Statement::query_map: a SELECT by
/// `user_id` returns exactly the rows whose `user_id` column matches.
#[verifier::external_body]
pub fn get_task_lists_by_user_id(conn: &Connection, user_id: u128) -> (r: Result<
    Vec<TaskList>,
    rusqlite::Error,
>)
    ensures
        r matches Ok(v) ==> {
            &&& forall|i: int|
                0 <= i < v@.len() ==> {
                    &&& lists_of(*conn).contains_key((#[trigger] v@[i])@.list_id)
                    &&& lists_of(*conn)[v@[i]@.list_id] == v@[i]@
                    &&& v@[i]@.user_id == user_id
                }
            &&& forall|id: u128|
                lists_of(*conn).contains_key(id) && (#[trigger] lists_of(*conn)[id]).user_id
                    == user_id ==> exists|i: int|
                    0 <= i < v@.len() && (#[trigger] v@[i])@.list_id == id
            &&& forall|i: int, j: int|
                0 <= i < j < v@.len() ==> (#[trigger] v@[i])@.list_id
                    != (#[trigger] v@[j])@.list_id
        },
{
    let mut stmt = conn.prepare("SELECT list_id, user_id, name FROM task_lists WHERE user_id = ?1")?;
    let rows = stmt.query_map([Uuid::from_u128(user_id).to_string()], row_to_task_list)?;
    let mut task_lists = Vec::new();
    for row in rows {
        task_lists.push(row?);
    }
    Ok(task_lists)
}

/// Draws a new identity. Relies on uuid::Uuid::new_v4: the value is random,
/// so nothing is promised of it.
#[verifier::external_body]
pub(crate) fn fresh_id() -> (r: u128) {
    Uuid::new_v4().as_u128()
}

/// The current time as UTC unix seconds. Relies on chrono::Utc::now: the
/// value comes from the system clock, so nothing is promised of it.
#[verifier::external_body]
pub(crate) fn now_timestamp() -> (r: i64) {
    Utc::now().timestamp()
}

} // verus!
