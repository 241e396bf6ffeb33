use nexus_core::db;
use nexus_core::logic::{self, DomainError, EntityKind};
use nexus_core::models::User;

fn user(id: u128, name: &str) -> User {
    User {
        user_id: id,
        user_name: String::from(name),
        user_password_hash: String::from("argon2-placeholder"),
        user_mail: String::from("u@example.com"),
        created_at: 1_700_000_000,
    }
}

#[test]
fn create_task_list_sets_owner_and_name() {
    let mut conn = db::open_store().unwrap();
    let u: u128 = 7;
    let l = logic::create_new_task_list(&mut conn, u, String::from("Groceries")).unwrap();
    assert_eq!(l.user_id, u);
    assert_eq!(l.name, "Groceries");
}

#[test]
fn created_list_is_found_by_lookup() {
    let mut conn = db::open_store().unwrap();
    let u: u128 = 7;
    let l = logic::create_new_task_list(&mut conn, u, String::from("Groceries")).unwrap();
    let fetched = db::get_task_list(&conn, l.list_id).unwrap().unwrap();
    assert_eq!(fetched.list_id, l.list_id);
    assert_eq!(fetched.user_id, l.user_id);
    assert_eq!(fetched.name, l.name);
}

#[test]
fn add_task_to_unknown_list_is_not_found() {
    let mut conn = db::open_store().unwrap();
    let r = logic::add_task_to_list(&mut conn, 1, 999, String::from("x"));
    assert!(matches!(r, Err(DomainError::NotFound(EntityKind::TaskList))));
}

#[test]
fn add_task_to_foreign_list_is_access_denied() {
    let mut conn = db::open_store().unwrap();
    let owner: u128 = 1;
    let intruder: u128 = 2;
    let l = logic::create_new_task_list(&mut conn, owner, String::from("Mine")).unwrap();
    let r = logic::add_task_to_list(&mut conn, intruder, l.list_id, String::from("x"));
    assert!(matches!(r, Err(DomainError::AccessDenied)));
}

#[test]
fn add_task_to_own_list_succeeds() {
    let mut conn = db::open_store().unwrap();
    let u: u128 = 1;
    let l = logic::create_new_task_list(&mut conn, u, String::from("Groceries")).unwrap();
    let t = logic::add_task_to_list(&mut conn, u, l.list_id, String::from("Milk")).unwrap();
    assert_eq!(t.list_id, l.list_id);
    assert_eq!(t.content, "Milk");
    assert!(!t.is_completed);
    assert!(t.due_date.is_none());
}

#[test]
fn created_task_is_found_by_lookup() {
    let mut conn = db::open_store().unwrap();
    let u: u128 = 1;
    let l = logic::create_new_task_list(&mut conn, u, String::from("Groceries")).unwrap();
    let t = logic::add_task_to_list(&mut conn, u, l.list_id, String::from("Milk")).unwrap();
    let fetched = db::get_task(&conn, t.task_id).unwrap().unwrap();
    assert_eq!(fetched.task_id, t.task_id);
    assert_eq!(fetched.list_id, t.list_id);
    assert_eq!(fetched.content, t.content);
    assert_eq!(fetched.is_completed, t.is_completed);
    assert_eq!(fetched.due_date, t.due_date);
    assert_eq!(fetched.created_at, t.created_at);
}

#[test]
fn complete_unknown_task_is_not_found() {
    let mut conn = db::open_store().unwrap();
    let r = logic::mark_task_as_complete(&mut conn, 1, 424242);
    assert!(matches!(r, Err(DomainError::NotFound(EntityKind::Task))));
}

#[test]
fn complete_foreign_task_is_denied_and_flag_unchanged() {
    let mut conn = db::open_store().unwrap();
    let owner: u128 = 1;
    let intruder: u128 = 2;
    let l = logic::create_new_task_list(&mut conn, owner, String::from("Mine")).unwrap();
    let t = logic::add_task_to_list(&mut conn, owner, l.list_id, String::from("Milk")).unwrap();
    let r = logic::mark_task_as_complete(&mut conn, intruder, t.task_id);
    assert!(matches!(r, Err(DomainError::AccessDenied)));
    let fetched = db::get_task(&conn, t.task_id).unwrap().unwrap();
    assert!(!fetched.is_completed);
}

#[test]
fn complete_twice_succeeds_and_stays_complete() {
    let mut conn = db::open_store().unwrap();
    let u: u128 = 1;
    let l = logic::create_new_task_list(&mut conn, u, String::from("Groceries")).unwrap();
    let t = logic::add_task_to_list(&mut conn, u, l.list_id, String::from("Milk")).unwrap();
    logic::mark_task_as_complete(&mut conn, u, t.task_id).unwrap();
    logic::mark_task_as_complete(&mut conn, u, t.task_id).unwrap();
    let fetched = db::get_task(&conn, t.task_id).unwrap().unwrap();
    assert!(fetched.is_completed);
}

#[test]
fn end_to_end_create_add_complete_refetch() {
    let mut conn = db::open_store().unwrap();
    let u = user(11, "ada");
    db::create_user(&mut conn, &u).unwrap();
    let l = logic::create_new_task_list(&mut conn, u.user_id, String::from("Groceries")).unwrap();
    let t = logic::add_task_to_list(&mut conn, u.user_id, l.list_id, String::from("Milk")).unwrap();
    assert!(!t.is_completed);
    logic::mark_task_as_complete(&mut conn, u.user_id, t.task_id).unwrap();
    let fetched = db::get_task(&conn, t.task_id).unwrap().unwrap();
    assert!(fetched.is_completed);
}

#[test]
fn end_to_end_foreign_add_is_denied() {
    let mut conn = db::open_store().unwrap();
    let u1 = user(21, "ada");
    let u2 = user(22, "eve");
    db::create_user(&mut conn, &u1).unwrap();
    db::create_user(&mut conn, &u2).unwrap();
    let l = logic::create_new_task_list(&mut conn, u1.user_id, String::from("Private")).unwrap();
    let r = logic::add_task_to_list(&mut conn, u2.user_id, l.list_id, String::from("x"));
    assert!(matches!(r, Err(DomainError::AccessDenied)));
}

#[test]
fn lists_pass_through_for_their_user() {
    let mut conn = db::open_store().unwrap();
    let u1: u128 = 1;
    let u2: u128 = 2;
    let a = logic::create_new_task_list(&mut conn, u1, String::from("A")).unwrap();
    let b = logic::create_new_task_list(&mut conn, u1, String::from("B")).unwrap();
    logic::create_new_task_list(&mut conn, u2, String::from("C")).unwrap();
    let mine = logic::get_all_task_lists_for_user(&conn, u1).unwrap();
    assert_eq!(mine.len(), 2);
    assert!(mine.iter().all(|l| l.user_id == u1));
    assert!(mine.iter().any(|l| l.list_id == a.list_id && l.name == "A"));
    assert!(mine.iter().any(|l| l.list_id == b.list_id && l.name == "B"));
}

#[test]
fn lists_for_user_with_none_is_empty() {
    let mut conn = db::open_store().unwrap();
    logic::create_new_task_list(&mut conn, 1, String::from("A")).unwrap();
    let none = logic::get_all_task_lists_for_user(&conn, 9).unwrap();
    assert!(none.is_empty());
}

#[test]
fn error_messages_name_their_category() {
    let mut conn = db::open_store().unwrap();
    let missing_list = logic::add_task_to_list(&mut conn, 1, 999, String::from("x")).unwrap_err();
    assert_eq!(missing_list.message(), "Task list not found");
    let missing_task = logic::mark_task_as_complete(&mut conn, 1, 999).unwrap_err();
    assert_eq!(missing_task.message(), "Task not found");
    let l = logic::create_new_task_list(&mut conn, 1, String::from("Mine")).unwrap();
    let denied = logic::add_task_to_list(&mut conn, 2, l.list_id, String::from("x")).unwrap_err();
    assert_eq!(denied.message(), "Access denied: the entity does not belong to the user");
}

#[test]
fn authorize_list_access_decides_each_case() {
    let list = nexus_core::models::TaskList { list_id: 1, user_id: 10, name: String::from("A") };
    assert!(logic::authorize_list_access(&Some(list), 10).is_ok());
    let list = nexus_core::models::TaskList { list_id: 1, user_id: 10, name: String::from("A") };
    assert!(matches!(
        logic::authorize_list_access(&Some(list), 11),
        Err(DomainError::AccessDenied)
    ));
    assert!(matches!(
        logic::authorize_list_access(&None, 10),
        Err(DomainError::NotFound(EntityKind::TaskList))
    ));
}

#[test]
fn authorize_task_list_access_treats_missing_list_as_integrity_breach() {
    let list = nexus_core::models::TaskList { list_id: 1, user_id: 10, name: String::from("A") };
    assert!(logic::authorize_task_list_access(&Some(list), 10).is_ok());
    let list = nexus_core::models::TaskList { list_id: 1, user_id: 10, name: String::from("A") };
    assert!(matches!(
        logic::authorize_task_list_access(&Some(list), 11),
        Err(DomainError::AccessDenied)
    ));
    assert!(matches!(
        logic::authorize_task_list_access(&None, 10),
        Err(DomainError::DataIntegrityViolation)
    ));
}
