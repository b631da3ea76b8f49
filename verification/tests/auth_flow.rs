//! End-to-end flows through signup, login, authentication, expiry,
//! logout and revocation.

use basic_site::auth::{authenticate, authenticate_session, extract_session_id};
use basic_site::ids::id_text;
use basic_site::models::session::Session;
use basic_site::session::{login, logout, revoke, RevokeError};
use basic_site::store::Db;
use basic_site::web::session::{delete, delete_by_id, RevokeRequestError};
use basic_site::web::signup::{post as signup, FormPayload};

const WEEK_MICROS: i64 = 604_800_000_000;
const T0: i64 = 1_700_000_000_000_000;

fn db_with_alice() -> Db {
    let mut db = Db::new();
    let form = FormPayload {
        username: "alice".to_owned(),
        password: "Secr3tPass".to_owned(),
    };
    signup(&mut db, &form, T0, "1.2.3.4".to_owned(), "UA/1".to_owned()).expect("signup failed");
    db
}

#[test]
fn login_issues_week_long_session() {
    let mut db = db_with_alice();
    let session = login(
        &mut db,
        "alice",
        "Secr3tPass",
        T0,
        "1.2.3.4".to_owned(),
        "UA/1".to_owned(),
    )
    .expect("login failed");
    assert_eq!(session.created_at, T0);
    assert_eq!(session.expires_at, T0 + WEEK_MICROS);
    assert_eq!(session.ip_address, "1.2.3.4");
    assert_eq!(session.user_agent, "UA/1");
}

#[test]
fn authenticate_respects_expiry_boundary() {
    let mut db = db_with_alice();
    let session = login(
        &mut db,
        "alice",
        "Secr3tPass",
        T0,
        "1.2.3.4".to_owned(),
        "UA/1".to_owned(),
    )
    .expect("login failed");
    let cookie = id_text(session.id);

    // One microsecond before expiry the session still resolves.
    let user = authenticate(&mut db, Some(cookie.as_str()), T0 + WEEK_MICROS - 1);
    assert_eq!(user.expect("should authenticate").username, "alice");

    // At the expiry instant it resolves to nobody, and the row is gone.
    let user = authenticate(&mut db, Some(cookie.as_str()), T0 + WEEK_MICROS);
    assert!(user.is_none());
    let row = Session::get_by_id(&db, session.id).expect("get failed");
    assert!(row.is_none());
}

#[test]
fn authenticate_monotone_over_sampled_times() {
    let mut db = db_with_alice();
    let session = login(
        &mut db,
        "alice",
        "Secr3tPass",
        T0,
        "1.2.3.4".to_owned(),
        "UA/1".to_owned(),
    )
    .expect("login failed");
    for offset in [0, 1, WEEK_MICROS / 2, WEEK_MICROS - 1] {
        let user = authenticate_session(&mut db, session.id, T0 + offset);
        assert!(user.is_some(), "expected success at offset {offset}");
    }
    for offset in [WEEK_MICROS, WEEK_MICROS + 1, 10 * WEEK_MICROS] {
        let user = authenticate_session(&mut db, session.id, T0 + offset);
        assert!(user.is_none(), "expected failure at offset {offset}");
    }
}

#[test]
fn login_with_wrong_password_creates_no_session() {
    let mut db = db_with_alice();
    let before = Session::get_by_user_id(
        &db,
        basic_site::models::user::User::get_by_username(&db, "alice")
            .expect("get failed")
            .id,
        T0,
    )
    .expect("list failed")
    .len();
    let outcome = login(
        &mut db,
        "alice",
        "wrong",
        T0,
        "1.2.3.4".to_owned(),
        "UA/1".to_owned(),
    );
    assert!(outcome.is_none());
    let after = Session::get_by_user_id(
        &db,
        basic_site::models::user::User::get_by_username(&db, "alice")
            .expect("get failed")
            .id,
        T0,
    )
    .expect("list failed")
    .len();
    assert_eq!(before, after);
}

#[test]
fn absent_malformed_and_unknown_cookies_soft_fail() {
    let mut db = db_with_alice();
    assert!(authenticate(&mut db, None, T0).is_none());
    assert!(authenticate(&mut db, Some(""), T0).is_none());
    assert!(authenticate(&mut db, Some("not-a-session-id"), T0).is_none());
    // A well-formed id that names no session.
    assert!(authenticate(&mut db, Some("550e8400-e29b-41d4-a716-446655440000"), T0).is_none());
}

#[test]
fn extract_session_id_reads_canonical_text() {
    assert_eq!(extract_session_id(None), None);
    assert_eq!(extract_session_id(Some("garbage")), None);
    assert_eq!(
        extract_session_id(Some("550e8400-e29b-41d4-a716-446655440000")),
        Some(0x550e8400_e29b_41d4_a716_446655440000u128)
    );
}

#[test]
fn logout_then_authenticate_yields_none() {
    let mut db = db_with_alice();
    let session = login(
        &mut db,
        "alice",
        "Secr3tPass",
        T0,
        "1.2.3.4".to_owned(),
        "UA/1".to_owned(),
    )
    .expect("login failed");
    let cookie = id_text(session.id);
    assert!(authenticate(&mut db, Some(cookie.as_str()), T0 + 1).is_some());

    logout(&mut db, session.id);
    assert!(authenticate(&mut db, Some(cookie.as_str()), T0 + 1).is_none());
}

#[test]
fn logout_via_cookie_deletes_the_session() {
    let mut db = db_with_alice();
    let session = login(
        &mut db,
        "alice",
        "Secr3tPass",
        T0,
        "1.2.3.4".to_owned(),
        "UA/1".to_owned(),
    )
    .expect("login failed");
    let cookie = id_text(session.id);
    delete(&mut db, Some(cookie.as_str()));
    assert!(Session::get_by_id(&db, session.id).expect("get failed").is_none());
    // A missing or malformed cookie deletes nothing and is not an error.
    delete(&mut db, None);
    delete(&mut db, Some("junk"));
}

#[test]
fn user_delete_cascades_to_authentication_and_listing() {
    let mut db = db_with_alice();
    let alice = basic_site::models::user::User::get_by_username(&db, "alice").expect("get failed");
    let session = login(
        &mut db,
        "alice",
        "Secr3tPass",
        T0,
        "1.2.3.4".to_owned(),
        "UA/1".to_owned(),
    )
    .expect("login failed");

    let removed = basic_site::models::user::User::delete_by_id(&mut db, alice.id);
    assert_eq!(removed, 1);
    assert!(authenticate_session(&mut db, session.id, T0 + 1).is_none());
    let listed = Session::get_by_user_id(&db, alice.id, T0 + 1).expect("list failed");
    assert_eq!(listed.len(), 0);
}

#[test]
fn delete_by_id_returns_one_then_zero() {
    let mut db = db_with_alice();
    let session = login(
        &mut db,
        "alice",
        "Secr3tPass",
        T0,
        "1.2.3.4".to_owned(),
        "UA/1".to_owned(),
    )
    .expect("login failed");
    let first = Session::delete_by_id(&mut db, session.id).expect("first delete failed");
    assert_eq!(first, 1);
    let second = Session::delete_by_id(&mut db, session.id).expect("second delete failed");
    assert_eq!(second, 0);
}

#[test]
fn revoke_requires_ownership() {
    let mut db = db_with_alice();
    let form = FormPayload {
        username: "bobby".to_owned(),
        password: "An0therPass".to_owned(),
    };
    signup(&mut db, &form, T0, "5.6.7.8".to_owned(), "UA/2".to_owned()).expect("signup failed");

    let alice = basic_site::models::user::User::get_by_username(&db, "alice").expect("get failed");
    let bobby = basic_site::models::user::User::get_by_username(&db, "bobby").expect("get failed");
    let session = login(
        &mut db,
        "alice",
        "Secr3tPass",
        T0,
        "1.2.3.4".to_owned(),
        "UA/1".to_owned(),
    )
    .expect("login failed");

    // Another user may not revoke it, and it stays usable.
    assert_eq!(
        revoke(&mut db, session.id, bobby.id),
        Err(RevokeError::NotOwned)
    );
    assert!(authenticate_session(&mut db, session.id, T0 + 1).is_some());

    // The owner may, after which it is gone.
    assert_eq!(revoke(&mut db, session.id, alice.id), Ok(()));
    assert!(authenticate_session(&mut db, session.id, T0 + 1).is_none());
    assert_eq!(
        revoke(&mut db, session.id, alice.id),
        Err(RevokeError::NotFound)
    );
}

#[test]
fn revoke_by_text_id_rejects_bad_ids() {
    let mut db = db_with_alice();
    let alice = basic_site::models::user::User::get_by_username(&db, "alice").expect("get failed");
    let session = login(
        &mut db,
        "alice",
        "Secr3tPass",
        T0,
        "1.2.3.4".to_owned(),
        "UA/1".to_owned(),
    )
    .expect("login failed");

    assert_eq!(
        delete_by_id(&mut db, "not-an-id", alice.id),
        Err(RevokeRequestError::BadId)
    );
    let cookie = id_text(session.id);
    assert_eq!(delete_by_id(&mut db, cookie.as_str(), alice.id), Ok(()));
    assert_eq!(
        delete_by_id(&mut db, cookie.as_str(), alice.id),
        Err(RevokeRequestError::NotFound)
    );
}

#[test]
fn orphan_free_store_authenticates_only_live_owned_sessions() {
    let mut db = db_with_alice();
    let session = login(
        &mut db,
        "alice",
        "Secr3tPass",
        T0,
        "1.2.3.4".to_owned(),
        "UA/1".to_owned(),
    )
    .expect("login failed");
    let user = authenticate_session(&mut db, session.id, T0 + 5).expect("should resolve");
    assert_eq!(user.username, "alice");
    assert_eq!(user.id, session.user_id);
}
