//! The signup handler's core: input validation, account creation, and the
//! first session of the new account.

use vstd::prelude::*;
use crate::SESSION_TTL_MICROS;
use crate::ids::new_raw_id;
use crate::models::session::Session;
use crate::models::user::User;
use crate::password::generate_hash;
use crate::password::password_rule_text;
use crate::password::password_verifies;
use crate::password::username_rule_text;
use crate::password::valid_password;
use crate::password::valid_username;
use crate::password::validate_password;
use crate::password::validate_username;
use crate::session::create_session_with_id;
use crate::session::session_record;
use crate::store::Db;
use crate::store::StoreError;
use crate::store::contains_session_id;
use crate::store::contains_user_id;
use crate::store::contains_username;

verus! {

/// The signup form's fields.
pub struct FormPayload {
    pub username: String,
    pub password: String,
}

/// The signup form as re-rendered after a rejected submission.
#[derive(Debug)]
pub struct SignupForm {
    pub username: String,
    pub username_message: String,
    pub password_message: String,
}

/// The signup page: the form, blank or re-rendered.
pub struct Signup {
    pub username: String,
    pub form: SignupForm,
}

/// Failure of a signup request.
#[derive(Debug)]
pub enum SignupError {
    /// The submitted username or password broke a rule; the form carries
    /// the messages.
    Invalid(SignupForm),
    /// The username, or a drawn identifier, is already taken.
    Conflict,
}

/// Both submitted fields obey their rules.
pub open spec fn inputs_valid(form: FormPayload) -> bool {
    valid_username(form.username@) && valid_password(form.password@)
}

/// `f` is the re-rendered form for this submission: the username echoed
/// back, and for each field its rule's message exactly when the field
/// broke the rule.
pub open spec fn is_rejected_form(form: FormPayload, f: SignupForm) -> bool {
    &&& f.username@ == form.username@
    &&& f.username_message@ == if valid_username(form.username@) {
        Seq::<char>::empty()
    } else {
        username_rule_text()
    }
    &&& f.password_message@ == if valid_password(form.password@) {
        Seq::<char>::empty()
    } else {
        password_rule_text()
    }
}

/// Checks the submitted fields; a rejection carries the form with the
/// pertinent messages filled in.
pub fn validate_inputs(form: &FormPayload) -> (r: Result<(), SignupForm>)
    ensures
        match r {
            Ok(()) => inputs_valid(*form),
            Err(f) => !inputs_valid(*form) && is_rejected_form(*form, f),
        },
{
    let username_message = validate_username(form.username.as_str());
    let password_message = validate_password(form.password.as_str());
    if !username_message.as_str().is_empty() || !password_message.as_str().is_empty() {
        proof {
            if username_message@.len() == 0 {
                assert(username_message@ =~= Seq::<char>::empty());
            }
            if password_message@.len() == 0 {
                assert(password_message@ =~= Seq::<char>::empty());
            }
        }
        Err(
            SignupForm {
                username: form.username.clone(),
                username_message,
                password_message,
            },
        )
    } else {
        Ok(())
    }
}

/// Creates the account and its first session under caller-chosen
/// identifiers; the whole deterministic part of signup. All-or-nothing:
/// on any failure the store is untouched.
pub fn signup_with_ids(
    db: &mut Db,
    form: &FormPayload,
    password_hash: String,
    user_id: u128,
    session_id: u128,
    now: i64,
    ip_address: String,
    user_agent: String,
) -> (r: Result<(User, Session), SignupError>)
    requires
        old(db).wf(),
        0 <= now,
        now + SESSION_TTL_MICROS <= i64::MAX,
    ensures
        final(db).wf(),
        match r {
            Ok((u, s)) => {
                &&& inputs_valid(*form)
                &&& !contains_username(old(db)@.users, form.username@)
                &&& !contains_user_id(old(db)@.users, user_id)
                &&& !contains_session_id(old(db)@.sessions, session_id)
                &&& u.id == user_id
                &&& u.username@ == form.username@
                &&& u.password_hash == password_hash
                &&& u.email is None
                &&& u.created_at == now
                &&& session_record(session_id, user_id, now, ip_address@, user_agent@, s)
                &&& final(db)@.users == old(db)@.users.push(u)
                &&& final(db)@.sessions == old(db)@.sessions.push(s)
            },
            Err(SignupError::Invalid(f)) => {
                &&& !inputs_valid(*form)
                &&& is_rejected_form(*form, f)
                &&& final(db)@ == old(db)@
            },
            Err(SignupError::Conflict) => {
                &&& inputs_valid(*form)
                &&& contains_username(old(db)@.users, form.username@) || contains_user_id(
                    old(db)@.users,
                    user_id,
                ) || contains_session_id(old(db)@.sessions, session_id)
                &&& final(db)@ == old(db)@
            },
        },
{
    if let Err(f) = validate_inputs(form) {
        return Err(SignupError::Invalid(f));
    }
    if let Ok(Some(_)) = Session::get_by_id(db, session_id) {
        return Err(SignupError::Conflict);
    }
    let user = User {
        id: user_id,
        username: form.username.clone(),
        password_hash,
        email: None,
        created_at: now,
    };
    if let Err(_) = User::insert(db, &user) {
        return Err(SignupError::Conflict);
    }
    match create_session_with_id(db, session_id, user_id, now, ip_address, user_agent) {
        Ok(session) => Ok((user, session)),
        Err(e) => {
            proof {
                if e == StoreError::ForeignKeyViolation {
                    assert(db@.users[db@.users.len() - 1] == user);
                    assert(contains_user_id(db@.users, user_id));
                }
                assert(false);
            }
            Err(SignupError::Conflict)
        },
    }
}

/// Handles a signup request: validates the form, hashes the password,
/// and creates the account and its first session under freshly drawn
/// identifiers. The drawn identifiers decide between success and a
/// collision `Conflict`; [`signup_with_ids`] pins the outcome for each
/// choice of identifiers.
pub fn post(
    db: &mut Db,
    form: &FormPayload,
    now: i64,
    ip_address: String,
    user_agent: String,
) -> (r: Result<(User, Session), SignupError>)
    requires
        old(db).wf(),
        0 <= now,
        now + SESSION_TTL_MICROS <= i64::MAX,
    ensures
        final(db).wf(),
        match r {
            Ok((u, s)) => {
                &&& inputs_valid(*form)
                &&& !contains_username(old(db)@.users, form.username@)
                &&& u.username@ == form.username@
                &&& password_verifies(form.password@, u.password_hash@)
                &&& u.email is None
                &&& u.created_at == now
                &&& session_record(s.id, u.id, now, ip_address@, user_agent@, s)
                &&& final(db)@.users == old(db)@.users.push(u)
                &&& final(db)@.sessions == old(db)@.sessions.push(s)
            },
            Err(SignupError::Invalid(f)) => {
                &&& !inputs_valid(*form)
                &&& is_rejected_form(*form, f)
                &&& final(db)@ == old(db)@
            },
            Err(SignupError::Conflict) => {
                &&& inputs_valid(*form)
                &&& final(db)@ == old(db)@
            },
        },
        inputs_valid(*form) && contains_username(old(db)@.users, form.username@) ==> r matches Err(
            SignupError::Conflict,
        ),
{
    if let Err(f) = validate_inputs(form) {
        return Err(SignupError::Invalid(f));
    }
    let password_hash = generate_hash(form.password.as_str());
    let user_id = new_raw_id();
    let session_id = new_raw_id();
    signup_with_ids(db, form, password_hash, user_id, session_id, now, ip_address, user_agent)
}

} // verus!
