//! Signup validation and conflict handling, and the account settings
//! actions.

use basic_site::models::user::User;
use basic_site::password::{validate_password, validate_username, verify_password, generate_hash};
use basic_site::store::Db;
use basic_site::web::settings::{
    update_password, update_username, UpdatePasswordOutcome, UpdatePasswordPayload,
    UpdateUsernameOutcome, UpdateUsernamePayload,
};
use basic_site::web::signup::{post as signup, validate_inputs, FormPayload, Signup, SignupError};

const T0: i64 = 1_700_000_000_000_000;

fn form(username: &str, password: &str) -> FormPayload {
    FormPayload {
        username: username.to_owned(),
        password: password.to_owned(),
    }
}

fn signup_ok(db: &mut Db, username: &str, password: &str) {
    signup(
        db,
        &form(username, password),
        T0,
        "1.2.3.4".to_owned(),
        "UA/1".to_owned(),
    )
    .expect("signup failed");
}

#[test]
fn signup_twice_with_same_username_conflicts() {
    let mut db = Db::new();
    signup_ok(&mut db, "bobby", "hunter2hunter2");

    let second = signup(
        &mut db,
        &form("bobby", "hunter2hunter2"),
        T0 + 10,
        "1.2.3.4".to_owned(),
        "UA/1".to_owned(),
    );
    assert!(matches!(second, Err(SignupError::Conflict)));

    // No duplicate row: deleting the account removes exactly one row.
    let bobby = User::get_by_username(&db, "bobby").expect("get failed");
    assert_eq!(User::delete_by_id(&mut db, bobby.id), 1);
    assert!(matches!(
        User::get_by_username(&db, "bobby"),
        Err(basic_site::store::StoreError::NotFound)
    ));
}

#[test]
fn signup_rejects_bad_inputs_with_messages() {
    let mut db = Db::new();
    let outcome = signup(
        &mut db,
        &form("ab", "short"),
        T0,
        "1.2.3.4".to_owned(),
        "UA/1".to_owned(),
    );
    match outcome {
        Err(SignupError::Invalid(f)) => {
            assert_eq!(f.username, "ab");
            assert_eq!(
                f.username_message,
                "Username must be between 5 and 20 characters, and only contain letters / numbers."
            );
            assert_eq!(
                f.password_message,
                "Password must be between 8 and 60 characters and only contain ascii characters."
            );
        }
        _ => panic!("expected a validation rejection"),
    }
    assert!(matches!(
        User::get_by_username(&db, "ab"),
        Err(basic_site::store::StoreError::NotFound)
    ));
}

#[test]
fn signup_page_carries_the_rejected_form() {
    let rejected = validate_inputs(&form("ab", "short")).unwrap_err();
    let page = Signup {
        username: rejected.username.clone(),
        form: rejected,
    };
    assert_eq!(page.username, "ab");
    assert_eq!(page.form.username, "ab");
    assert!(!page.form.username_message.is_empty());
}

#[test]
fn validate_inputs_reports_per_field() {
    let ok = validate_inputs(&form("alice", "Secr3tPass"));
    assert!(ok.is_ok());

    let bad_password = validate_inputs(&form("alice", "short")).unwrap_err();
    assert_eq!(bad_password.username_message, "");
    assert!(!bad_password.password_message.is_empty());

    let bad_username = validate_inputs(&form("a!", "Secr3tPass")).unwrap_err();
    assert!(!bad_username.username_message.is_empty());
    assert_eq!(bad_username.password_message, "");
}

#[test]
fn username_rules_hold_at_the_boundaries() {
    assert!(validate_username("abcde").is_empty()); // 5 characters
    assert!(validate_username("abcdefghijklmnopqrst").is_empty()); // 20 characters
    assert!(!validate_username("abcd").is_empty()); // 4 characters
    assert!(!validate_username("abcdefghijklmnopqrstu").is_empty()); // 21 characters
    assert!(!validate_username("user_name").is_empty()); // underscore
    assert!(!validate_username("has space").is_empty());
    assert!(validate_username("alnum123").is_empty());
    // Unicode letters are alphanumeric, and the byte-length limit applies.
    assert!(validate_username("münchen1").is_empty());
}

#[test]
fn password_rules_hold_at_the_boundaries() {
    assert!(validate_password("12345678").is_empty()); // 8 bytes
    assert!(!validate_password("1234567").is_empty()); // 7 bytes
    let sixty = "a".repeat(60);
    assert!(validate_password(&sixty).is_empty());
    let sixty_one = "a".repeat(61);
    assert!(!validate_password(&sixty_one).is_empty());
    assert!(!validate_password("pässword42").is_empty()); // not ASCII
}

#[test]
fn hash_and_verify_round_trip() {
    let hash = generate_hash("correct horse");
    assert!(verify_password("correct horse", &hash));
    assert!(!verify_password("wrong horse", &hash));
    // Two hashes of the same password differ (fresh salt) yet both verify.
    let other = generate_hash("correct horse");
    assert_ne!(hash, other);
    assert!(verify_password("correct horse", &other));
    // A malformed hash string verifies nothing and does not error.
    assert!(!verify_password("anything", "not-a-phc-string"));
}

#[test]
fn update_username_checks_rules_and_availability() {
    let mut db = Db::new();
    signup_ok(&mut db, "alice", "Secr3tPass");
    signup_ok(&mut db, "bobby", "An0therPass");
    let alice = User::get_by_username(&db, "alice").expect("get failed");

    let bad = UpdateUsernamePayload {
        new_username: "a!".to_owned(),
    };
    assert_eq!(
        update_username(&mut db, alice.id, &bad),
        UpdateUsernameOutcome::InvalidUsername
    );

    let taken = UpdateUsernamePayload {
        new_username: "bobby".to_owned(),
    };
    assert_eq!(
        update_username(&mut db, alice.id, &taken),
        UpdateUsernameOutcome::UsernameTaken
    );

    let fresh = UpdateUsernamePayload {
        new_username: "alice2000".to_owned(),
    };
    assert_eq!(
        update_username(&mut db, alice.id, &fresh),
        UpdateUsernameOutcome::Updated
    );
    assert_eq!(
        User::get_by_id(&db, alice.id).expect("get failed").username,
        "alice2000"
    );

    let nobody = UpdateUsernamePayload {
        new_username: "carol".to_owned(),
    };
    assert_eq!(
        update_username(&mut db, 12345, &nobody),
        UpdateUsernameOutcome::NoSuchUser
    );
}

#[test]
fn update_password_verifies_the_current_one() {
    let mut db = Db::new();
    signup_ok(&mut db, "alice", "Secr3tPass");
    let alice = User::get_by_username(&db, "alice").expect("get failed");

    let invalid = UpdatePasswordPayload {
        current_password: "Secr3tPass".to_owned(),
        new_password: "short".to_owned(),
    };
    assert_eq!(
        update_password(&mut db, alice.id, &invalid),
        UpdatePasswordOutcome::InvalidPassword
    );

    let wrong = UpdatePasswordPayload {
        current_password: "notmypassword".to_owned(),
        new_password: "NewSecr3tPass".to_owned(),
    };
    assert_eq!(
        update_password(&mut db, alice.id, &wrong),
        UpdatePasswordOutcome::WrongPassword
    );

    let good = UpdatePasswordPayload {
        current_password: "Secr3tPass".to_owned(),
        new_password: "NewSecr3tPass".to_owned(),
    };
    assert_eq!(
        update_password(&mut db, alice.id, &good),
        UpdatePasswordOutcome::Updated
    );
    assert!(User::check_login(&db, "alice", "NewSecr3tPass").is_some());
    assert!(User::check_login(&db, "alice", "Secr3tPass").is_none());

    assert_eq!(
        update_password(&mut db, 999, &good),
        UpdatePasswordOutcome::NoSuchUser
    );
}

#[test]
fn signup_then_login_succeeds_with_matching_user() {
    let mut db = Db::new();
    signup_ok(&mut db, "alice", "Secr3tPass");
    let alice = User::get_by_username(&db, "alice").expect("get failed");
    let session = basic_site::session::login(
        &mut db,
        "alice",
        "Secr3tPass",
        T0 + 1,
        "1.2.3.4".to_owned(),
        "UA/1".to_owned(),
    )
    .expect("login after signup failed");
    assert_eq!(session.user_id, alice.id);
}
