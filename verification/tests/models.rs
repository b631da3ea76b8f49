//! Tests of the user and session store operations.

use basic_site::ids::new_raw_id;
use basic_site::models::session::Session;
use basic_site::models::user::User;
use basic_site::password::generate_hash;
use basic_site::store::{Db, StoreError};
use basic_site::util::current_time_micros;

fn setup_test_db() -> Db {
    Db::new()
}

fn create_test_user(username: &str, password: &str) -> User {
    User {
        id: new_raw_id(),
        username: username.to_owned(),
        password_hash: generate_hash(password),
        email: None,
        created_at: current_time_micros(),
    }
}

// ============================================================================
// User model tests
// ============================================================================

#[test]
fn user_insert_and_get_by_id() {
    let mut db = setup_test_db();
    let user = create_test_user("testuser", "password123");

    User::insert(&mut db, &user).expect("insert failed");

    let fetched = User::get_by_id(&db, user.id).expect("get failed");
    assert_eq!(fetched.username, "testuser");
    assert_eq!(fetched.id, user.id);
}

#[test]
fn user_get_by_username() {
    let mut db = setup_test_db();
    let user = create_test_user("findme", "password123");

    User::insert(&mut db, &user).expect("insert failed");

    let fetched = User::get_by_username(&db, "findme").expect("get failed");
    assert_eq!(fetched.id, user.id);
}

#[test]
fn user_get_by_username_not_found() {
    let db = setup_test_db();

    let result = User::get_by_username(&db, "nonexistent");
    assert!(matches!(result, Err(StoreError::NotFound)));
}

#[test]
fn user_check_login_success() {
    let mut db = setup_test_db();
    let user = create_test_user("loginuser", "correctpassword");

    User::insert(&mut db, &user).expect("insert failed");

    let result = User::check_login(&db, "loginuser", "correctpassword");
    assert!(result.is_some());
    assert_eq!(result.unwrap().username, "loginuser");
}

#[test]
fn user_check_login_wrong_password() {
    let mut db = setup_test_db();
    let user = create_test_user("loginuser2", "correctpassword");

    User::insert(&mut db, &user).expect("insert failed");

    let result = User::check_login(&db, "loginuser2", "wrongpassword");
    assert!(result.is_none());
}

#[test]
fn user_check_login_nonexistent_user() {
    let db = setup_test_db();

    let result = User::check_login(&db, "ghost", "anypassword");
    assert!(result.is_none());
}

#[test]
fn user_update_email() {
    let mut db = setup_test_db();
    let user = create_test_user("emailuser", "password123");

    User::insert(&mut db, &user).expect("insert failed");

    User::update_email(&mut db, user.id, Some("test@example.com".to_owned()))
        .expect("update failed");

    let fetched = User::get_by_id(&db, user.id).expect("get failed");
    assert_eq!(fetched.email, Some("test@example.com".to_owned()));
}

#[test]
fn user_clear_email() {
    let mut db = setup_test_db();
    let mut user = create_test_user("clearmail", "password123");
    user.email = Some("old@example.com".to_owned());

    User::insert(&mut db, &user).expect("insert failed");
    User::update_email(&mut db, user.id, None).expect("update failed");

    let fetched = User::get_by_id(&db, user.id).expect("get failed");
    assert_eq!(fetched.email, None);
}

// ============================================================================
// Session model tests
// ============================================================================

fn create_test_session(user_id: u128) -> Session {
    let now = current_time_micros();
    Session {
        id: new_raw_id(),
        user_id,
        ip_address: "127.0.0.1:12345".to_owned(),
        user_agent: "TestAgent/1.0".to_owned(),
        created_at: now,
        expires_at: now + 604_800_000_000, // 1 week in microseconds
    }
}

#[test]
fn session_insert_and_get_by_id() {
    let mut db = setup_test_db();
    let user = create_test_user("sessionuser", "password123");
    User::insert(&mut db, &user).expect("user insert failed");

    let session = create_test_session(user.id);
    Session::insert(&mut db, &session).expect("session insert failed");

    let fetched = Session::get_by_id(&db, session.id).expect("get failed");
    assert!(fetched.is_some());
    let fetched = fetched.unwrap();
    assert_eq!(fetched.user_id, user.id);
    assert_eq!(fetched.ip_address, "127.0.0.1:12345");
}

#[test]
fn session_get_by_id_not_found() {
    let db = setup_test_db();

    let result = Session::get_by_id(&db, new_raw_id()).expect("query failed");
    assert!(result.is_none());
}

#[test]
fn session_delete_by_id() {
    let mut db = setup_test_db();
    let user = create_test_user("deleteuser", "password123");
    User::insert(&mut db, &user).expect("user insert failed");

    let session = create_test_session(user.id);
    Session::insert(&mut db, &session).expect("session insert failed");

    let deleted = Session::delete_by_id(&mut db, session.id).expect("delete failed");
    assert_eq!(deleted, 1);

    let fetched = Session::get_by_id(&db, session.id).expect("get failed");
    assert!(fetched.is_none());
}

#[test]
fn session_get_by_user_id() {
    let mut db = setup_test_db();
    let user = create_test_user("multisession", "password123");
    User::insert(&mut db, &user).expect("user insert failed");

    // Create multiple sessions
    for _ in 0..3 {
        let session = create_test_session(user.id);
        Session::insert(&mut db, &session).expect("session insert failed");
    }

    let sessions =
        Session::get_by_user_id(&db, user.id, current_time_micros()).expect("get failed");
    assert_eq!(sessions.len(), 3);
}

#[test]
fn session_get_by_user_id_excludes_expired() {
    let mut db = setup_test_db();
    let user = create_test_user("expireuser", "password123");
    User::insert(&mut db, &user).expect("user insert failed");

    // Create an expired session
    let now = current_time_micros();
    let expired_session = Session {
        id: new_raw_id(),
        user_id: user.id,
        ip_address: "127.0.0.1:12345".to_owned(),
        user_agent: "TestAgent/1.0".to_owned(),
        created_at: now - 1_000_000_000, // 1000 seconds ago
        expires_at: now - 1,             // expired
    };
    Session::insert(&mut db, &expired_session).expect("session insert failed");

    // Create a valid session
    let valid_session = create_test_session(user.id);
    Session::insert(&mut db, &valid_session).expect("session insert failed");

    let sessions = Session::get_by_user_id(&db, user.id, now).expect("get failed");
    assert_eq!(sessions.len(), 1);
    assert_eq!(sessions[0].id, valid_session.id);
}

#[test]
fn session_cascade_delete_on_user_delete() {
    let mut db = setup_test_db();
    let user = create_test_user("cascadeuser", "password123");
    User::insert(&mut db, &user).expect("user insert failed");

    let session = create_test_session(user.id);
    Session::insert(&mut db, &session).expect("session insert failed");

    // Delete the user directly
    let deleted = User::delete_by_id(&mut db, user.id);
    assert_eq!(deleted, 1);

    // Session should be cascade deleted
    let fetched = Session::get_by_id(&db, session.id).expect("get failed");
    assert!(fetched.is_none());
}
