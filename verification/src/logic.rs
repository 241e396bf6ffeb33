//! Domain logic: existence and ownership checks over the storage layer.
//!
//! A task's owner is never stored on the task itself; it is resolved
//! through the task's list, so every ownership-checked task operation pays
//! two lookups. Each operation is one fresh unit of work: no retries, no
//! caching, and a storage fault is surfaced, never masked as absence.

use vstd::prelude::*;

use crate::db;
use crate::models::{clamp_timestamp, with_completion, Task, TaskList, TaskListView, TaskView};
use rusqlite::Connection;

verus! {

/// Which kind of entity a failed lookup was after.
#[derive(Clone, Copy, PartialEq, Eq, Structural, Debug)]
pub enum EntityKind {
    TaskList,
    Task,
}

/// How a domain operation fails.
#[derive(Debug)]
pub enum DomainError {
    /// The referenced id does not resolve to a stored row; recoverable and
    /// user-facing.
    NotFound(EntityKind),
    /// The entity exists but belongs to a different user. Beyond this signal
    /// nothing is disclosed to the caller.
    AccessDenied,
    /// Stored data breaks an internal invariant (a task whose list is gone):
    /// a bug signal, not a normal user error.
    DataIntegrityViolation,
    /// The underlying store faulted; the cause is carried along, not
    /// swallowed.
    StorageFailure(rusqlite::Error),
}

impl DomainError {
    /// The user-facing wording of each failure. The cause inside
    /// `StorageFailure` is an opaque store error, so its wording names only
    /// the category.
    pub fn message(&self) -> (r: String)
        ensures
            *self matches DomainError::NotFound(k) && k == EntityKind::TaskList ==> r@
                == "Task list not found"@,
            *self matches DomainError::NotFound(k) && k == EntityKind::Task ==> r@
                == "Task not found"@,
            *self is AccessDenied ==> r@ == "Access denied: the entity does not belong to the user"@,
            *self is DataIntegrityViolation ==> r@ == "Internal error: task list not found for task"@,
            *self is StorageFailure ==> r@ == "Database error"@,
    {
        match self {
            DomainError::NotFound(EntityKind::TaskList) => "Task list not found".to_string(),
            DomainError::NotFound(EntityKind::Task) => "Task not found".to_string(),
            DomainError::AccessDenied => "Access denied: the entity does not belong to the user".to_string(),
            DomainError::DataIntegrityViolation => "Internal error: task list not found for task".to_string(),
            DomainError::StorageFailure(_) => "Database error".to_string(),
        }
    }
}

/// The list resolves and is owned by the given user.
pub open spec fn owns_list(lists: Map<u128, TaskListView>, list_id: u128, user_id: u128) -> bool {
    lists.contains_key(list_id) && lists[list_id].user_id == user_id
}

/// The task resolves, its list resolves, and the list is owned by the given
/// user: the transitive ownership a task operation must establish.
pub open spec fn owns_task(
    tasks: Map<u128, TaskView>,
    lists: Map<u128, TaskListView>,
    task_id: u128,
    user_id: u128,
) -> bool {
    tasks.contains_key(task_id) && owns_list(lists, tasks[task_id].list_id, user_id)
}

/// The ownership check behind `add_task_to_list`, decided from what the list
/// lookup returned: an absent list is a normal miss, a foreign list is
/// denied, and only the owner's own list passes.
pub fn authorize_list_access(found: &Option<TaskList>, user_id: u128) -> (r: Result<
    (),
    DomainError,
>)
    ensures
        found is None ==> (r matches Err(DomainError::NotFound(k)) && k == EntityKind::TaskList),
        found matches Some(l) && l.user_id == user_id ==> r is Ok,
        found matches Some(l) && l.user_id != user_id ==> r matches Err(DomainError::AccessDenied),
{
    match found {
        None => Err(DomainError::NotFound(EntityKind::TaskList)),
        Some(l) => if l.user_id == user_id {
            Ok(())
        } else {
            Err(DomainError::AccessDenied)
        },
    }
}

/// The ownership check behind `mark_task_as_complete`, decided from what the
/// lookup of the task's own list returned. A task's list that is gone is a
/// data-integrity breach, not a normal miss: a task cannot outlive its list.
pub fn authorize_task_list_access(found: &Option<TaskList>, user_id: u128) -> (r: Result<
    (),
    DomainError,
>)
    ensures
        found is None ==> r matches Err(DomainError::DataIntegrityViolation),
        found matches Some(l) && l.user_id == user_id ==> r is Ok,
        found matches Some(l) && l.user_id != user_id ==> r matches Err(DomainError::AccessDenied),
{
    match found {
        None => Err(DomainError::DataIntegrityViolation),
        Some(l) => if l.user_id == user_id {
            Ok(())
        } else {
            Err(DomainError::AccessDenied)
        },
    }
}

/// Every list the user owns: a direct pass-through to storage, since the
/// caller can only ever ask for its own authenticated id.
pub fn get_all_task_lists_for_user(conn: &Connection, user_id: u128) -> (r: Result<
    Vec<TaskList>,
    rusqlite::Error,
>)
    ensures
        r matches Ok(v) ==> {
            &&& forall|i: int|
                0 <= i < v@.len() ==> {
                    &&& db::lists_of(*conn).contains_key((#[trigger] v@[i])@.list_id)
                    &&& db::lists_of(*conn)[v@[i]@.list_id] == v@[i]@
                    &&& v@[i]@.user_id == user_id
                }
            &&& forall|id: u128|
                db::lists_of(*conn).contains_key(id) && (#[trigger] db::lists_of(
                    *conn,
                )[id]).user_id == user_id ==> exists|i: int|
                    0 <= i < v@.len() && (#[trigger] v@[i])@.list_id == id
            &&& forall|i: int, j: int|
                0 <= i < j < v@.len() ==> (#[trigger] v@[i])@.list_id
                    != (#[trigger] v@[j])@.list_id
        },
{
    db::get_task_lists_by_user_id(conn, user_id)
}

/// Creates a list with a fresh identity for the given owner, persists it,
/// and returns the assembled value as the source of truth. On success the
/// store gains exactly that list, under an id it did not hold before; on a
/// storage fault nothing changes.
pub fn create_new_task_list(conn: &mut Connection, user_id: u128, name: String) -> (r: Result<
    TaskList,
    rusqlite::Error,
>)
    ensures
        db::users_of(*final(conn)) == db::users_of(*old(conn)),
        db::tasks_of(*final(conn)) == db::tasks_of(*old(conn)),
        r matches Ok(l) ==> {
            &&& l.user_id == user_id
            &&& l.name@ == name@
            &&& !db::lists_of(*old(conn)).contains_key(l.list_id)
            &&& db::lists_of(*final(conn)) == db::lists_of(*old(conn)).insert(l.list_id, l@)
        },
        r is Err ==> db::lists_of(*final(conn)) == db::lists_of(*old(conn)),
{
    let new_task_list = TaskList { list_id: db::fresh_id(), user_id, name };
    match db::create_task_list(conn, &new_task_list) {
        Ok(_) => Ok(new_task_list),
        Err(e) => Err(e),
    }
}

/// Adds a task to a list the given user owns: the list must resolve and be
/// owned by that user before anything is constructed or written. The new
/// task starts incomplete, with no due date, under a fresh identity. On any
/// failure the store is left exactly as it was.
pub fn add_task_to_list(
    conn: &mut Connection,
    user_id: u128,
    list_id: u128,
    content: String,
) -> (r: Result<Task, DomainError>)
    ensures
        db::users_of(*final(conn)) == db::users_of(*old(conn)),
        db::lists_of(*final(conn)) == db::lists_of(*old(conn)),
        r is Err ==> db::tasks_of(*final(conn)) == db::tasks_of(*old(conn)),
        r matches Ok(t) ==> {
            &&& owns_list(db::lists_of(*old(conn)), list_id, user_id)
            &&& t.list_id == list_id
            &&& t.content@ == content@
            &&& !t.is_completed
            &&& t.due_date is None
            &&& !db::tasks_of(*old(conn)).contains_key(t.task_id)
            &&& db::tasks_of(*final(conn)) == db::tasks_of(*old(conn)).insert(t.task_id, t@)
        },
        r matches Err(DomainError::NotFound(k)) ==> k == EntityKind::TaskList && !db::lists_of(
            *old(conn),
        ).contains_key(list_id),
        r matches Err(DomainError::AccessDenied) ==> db::lists_of(*old(conn)).contains_key(list_id)
            && db::lists_of(*old(conn))[list_id].user_id != user_id,
        !(r matches Err(DomainError::DataIntegrityViolation)),
        !db::lists_of(*old(conn)).contains_key(list_id) ==> (r matches Err(e) && (e is NotFound
            || e is StorageFailure)),
        db::lists_of(*old(conn)).contains_key(list_id) && db::lists_of(*old(conn))[list_id].user_id
            != user_id ==> (r matches Err(e) && (e is AccessDenied || e is StorageFailure)),
{
    match db::get_task_list(conn, list_id) {
        Ok(found) => {
            match authorize_list_access(&found, user_id) {
                Ok(_) => {
                    let new_task = Task {
                        task_id: db::fresh_id(),
                        list_id,
                        content,
                        is_completed: false,
                        due_date: None,
                        created_at: clamp_timestamp(db::now_timestamp()),
                    };
                    match db::create_task(conn, &new_task) {
                        Ok(_) => Ok(new_task),
                        Err(e) => Err(DomainError::StorageFailure(e)),
                    }
                },
                Err(e) => Err(e),
            }
        },
        Err(e) => Err(DomainError::StorageFailure(e)),
    }
}

/// Marks a task complete for the given user. The task must resolve, its
/// list must resolve (a task without its list is a data-integrity breach,
/// not a normal miss), and the list must be owned by that user. On success
/// only that task's completion flag changes; on any failure the store is
/// left exactly as it was.
pub fn mark_task_as_complete(conn: &mut Connection, user_id: u128, task_id: u128) -> (r: Result<
    (),
    DomainError,
>)
    ensures
        db::users_of(*final(conn)) == db::users_of(*old(conn)),
        db::lists_of(*final(conn)) == db::lists_of(*old(conn)),
        r is Err ==> db::tasks_of(*final(conn)) == db::tasks_of(*old(conn)),
        r is Ok ==> {
            &&& owns_task(db::tasks_of(*old(conn)), db::lists_of(*old(conn)), task_id, user_id)
            &&& db::tasks_of(*final(conn)) == db::tasks_of(*old(conn)).insert(
                task_id,
                with_completion(db::tasks_of(*old(conn))[task_id], true),
            )
        },
        r matches Err(DomainError::NotFound(k)) ==> k == EntityKind::Task && !db::tasks_of(
            *old(conn),
        ).contains_key(task_id),
        r matches Err(DomainError::DataIntegrityViolation) ==> db::tasks_of(
            *old(conn),
        ).contains_key(task_id) && !db::lists_of(*old(conn)).contains_key(
            db::tasks_of(*old(conn))[task_id].list_id,
        ),
        r matches Err(DomainError::AccessDenied) ==> db::tasks_of(*old(conn)).contains_key(task_id)
            && db::lists_of(*old(conn)).contains_key(db::tasks_of(*old(conn))[task_id].list_id)
            && db::lists_of(*old(conn))[db::tasks_of(*old(conn))[task_id].list_id].user_id
            != user_id,
        !db::tasks_of(*old(conn)).contains_key(task_id) ==> (r matches Err(e) && (e is NotFound
            || e is StorageFailure)),
        db::tasks_of(*old(conn)).contains_key(task_id) && !db::lists_of(*old(conn)).contains_key(
            db::tasks_of(*old(conn))[task_id].list_id,
        ) ==> (r matches Err(e) && (e is DataIntegrityViolation || e is StorageFailure)),
        db::tasks_of(*old(conn)).contains_key(task_id) && db::lists_of(*old(conn)).contains_key(
            db::tasks_of(*old(conn))[task_id].list_id,
        ) && db::lists_of(*old(conn))[db::tasks_of(*old(conn))[task_id].list_id].user_id != user_id
            ==> (r matches Err(e) && (e is AccessDenied || e is StorageFailure)),
{
    match db::get_task(conn, task_id) {
        Ok(Some(task)) => {
            match db::get_task_list(conn, task.list_id) {
                Ok(found) => {
                    match authorize_task_list_access(&found, user_id) {
                        Ok(_) => {
                            match db::update_task_status(conn, task_id, true) {
                                Ok(_) => Ok(()),
                                Err(e) => Err(DomainError::StorageFailure(e)),
                            }
                        },
                        Err(e) => Err(e),
                    }
                },
                Err(e) => Err(DomainError::StorageFailure(e)),
            }
        },
        Ok(None) => Err(DomainError::NotFound(EntityKind::Task)),
        Err(e) => Err(DomainError::StorageFailure(e)),
    }
}

/// What a successful list creation stores, a lookup by the new id finds: the
/// store after `create_new_task_list` returns `Ok(l)` maps `l.list_id` to
/// exactly `l`'s record, which is what `get_task_list` then returns.
pub proof fn lemma_created_list_is_found(
    pre: Map<u128, TaskListView>,
    post: Map<u128, TaskListView>,
    l: TaskListView,
)
    requires
        post == pre.insert(l.list_id, l),
    ensures
        post.contains_key(l.list_id),
        post[l.list_id] == l,
{
}

/// What a successful task creation stores, a lookup by the new id finds:
/// the store after `add_task_to_list` returns `Ok(t)` maps `t.task_id` to
/// exactly `t`'s record, which is what `get_task` then returns.
pub proof fn lemma_created_task_is_found(
    pre: Map<u128, TaskView>,
    post: Map<u128, TaskView>,
    t: TaskView,
)
    requires
        post == pre.insert(t.task_id, t),
    ensures
        post.contains_key(t.task_id),
        post[t.task_id] == t,
{
}

/// Completing a task is idempotent. After one completion the task still
/// resolves, still hangs off the same list (so a second
/// `mark_task_as_complete` by the same owner can succeed again), its flag
/// is set, and a second completion leaves the store exactly as the first
/// one did.
pub proof fn lemma_completion_idempotent(tasks: Map<u128, TaskView>, task_id: u128)
    requires
        tasks.contains_key(task_id),
    ensures
        ({
            let once = tasks.insert(task_id, with_completion(tasks[task_id], true));
            &&& once.contains_key(task_id)
            &&& once[task_id].is_completed
            &&& once[task_id].list_id == tasks[task_id].list_id
            &&& once.insert(task_id, with_completion(once[task_id], true)) == once
        }),
{
    let once = tasks.insert(task_id, with_completion(tasks[task_id], true));
    assert(once.insert(task_id, with_completion(once[task_id], true)) =~= once);
}

} // verus!
