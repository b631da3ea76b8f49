//! The settings handlers' cores: changing the account's username and
//! password.

use vstd::prelude::*;
use crate::models::user::User;
use crate::password::generate_hash;
use crate::password::password_verifies;
use crate::password::valid_password;
use crate::password::valid_username;
use crate::password::validate_password;
use crate::password::validate_username;
use crate::store::Db;
use crate::store::StoreError;
use crate::store::contains_user_id;

verus! {

/// The change-username form's field.
pub struct UpdateUsernamePayload {
    pub new_username: String,
}

/// The change-password form's fields.
pub struct UpdatePasswordPayload {
    pub current_password: String,
    pub new_password: String,
}

/// Outcome of a username change.
#[derive(Clone, Copy, Debug, PartialEq, Eq, Structural)]
pub enum UpdateUsernameOutcome {
    /// The username was replaced.
    Updated,
    /// The submitted username broke a rule; nothing changed.
    InvalidUsername,
    /// Another account already carries the username; nothing changed.
    UsernameTaken,
    /// No account carries the acting user's id; nothing changed.
    NoSuchUser,
}

/// Outcome of a password change.
#[derive(Clone, Copy, Debug, PartialEq, Eq, Structural)]
pub enum UpdatePasswordOutcome {
    /// The password hash was replaced.
    Updated,
    /// The submitted new password broke a rule; nothing changed.
    InvalidPassword,
    /// The submitted current password was not accepted; nothing changed.
    WrongPassword,
    /// No account carries the acting user's id; nothing changed.
    NoSuchUser,
}

/// Replaces the acting user's username after checking the rules and
/// username availability.
pub fn update_username(db: &mut Db, user_id: u128, form: &UpdateUsernamePayload) -> (r:
    UpdateUsernameOutcome)
    requires
        old(db).wf(),
    ensures
        final(db).wf(),
        final(db)@.sessions == old(db)@.sessions,
        match r {
            UpdateUsernameOutcome::InvalidUsername => {
                &&& !valid_username(form.new_username@)
                &&& final(db)@ == old(db)@
            },
            UpdateUsernameOutcome::UsernameTaken => {
                &&& valid_username(form.new_username@)
                &&& exists|j: int|
                    0 <= j < old(db)@.users.len() && (#[trigger] old(db)@.users[j]).username@
                        == form.new_username@ && old(db)@.users[j].id != user_id
                &&& final(db)@ == old(db)@
            },
            UpdateUsernameOutcome::NoSuchUser => {
                &&& valid_username(form.new_username@)
                &&& !contains_user_id(old(db)@.users, user_id)
                &&& final(db)@ == old(db)@
            },
            UpdateUsernameOutcome::Updated => {
                &&& valid_username(form.new_username@)
                &&& !(exists|j: int|
                    0 <= j < old(db)@.users.len() && (#[trigger] old(db)@.users[j]).username@
                        == form.new_username@ && old(db)@.users[j].id != user_id)
                &&& exists|i: int|
                    {
                        &&& 0 <= i < old(db)@.users.len()
                        &&& (#[trigger] old(db)@.users[i]).id == user_id
                        &&& final(db)@.users == old(db)@.users.update(
                            i,
                            User {
                                id: old(db)@.users[i].id,
                                username: form.new_username,
                                password_hash: old(db)@.users[i].password_hash,
                                email: old(db)@.users[i].email,
                                created_at: old(db)@.users[i].created_at,
                            },
                        )
                    }
            },
        },
{
    let username_error = validate_username(form.new_username.as_str());
    if !username_error.as_str().is_empty() {
        return UpdateUsernameOutcome::InvalidUsername;
    }
    match User::update_username(db, user_id, form.new_username.clone()) {
        Ok(()) => UpdateUsernameOutcome::Updated,
        Err(StoreError::Conflict) => UpdateUsernameOutcome::UsernameTaken,
        Err(_) => UpdateUsernameOutcome::NoSuchUser,
    }
}

/// Replaces the acting user's password hash after checking the new
/// password's rules and verifying the current password.
pub fn update_password(db: &mut Db, user_id: u128, form: &UpdatePasswordPayload) -> (r:
    UpdatePasswordOutcome)
    requires
        old(db).wf(),
    ensures
        final(db).wf(),
        final(db)@.sessions == old(db)@.sessions,
        match r {
            UpdatePasswordOutcome::InvalidPassword => {
                &&& !valid_password(form.new_password@)
                &&& final(db)@ == old(db)@
            },
            UpdatePasswordOutcome::NoSuchUser => {
                &&& valid_password(form.new_password@)
                &&& !contains_user_id(old(db)@.users, user_id)
                &&& final(db)@ == old(db)@
            },
            UpdatePasswordOutcome::WrongPassword => {
                &&& valid_password(form.new_password@)
                &&& exists|i: int|
                    0 <= i < old(db)@.users.len() && (#[trigger] old(db)@.users[i]).id == user_id
                        && !password_verifies(
                        form.current_password@,
                        old(db)@.users[i].password_hash@,
                    )
                &&& final(db)@ == old(db)@
            },
            UpdatePasswordOutcome::Updated => {
                &&& valid_password(form.new_password@)
                &&& exists|i: int|
                    {
                        &&& 0 <= i < old(db)@.users.len()
                        &&& (#[trigger] old(db)@.users[i]).id == user_id
                        &&& password_verifies(
                            form.current_password@,
                            old(db)@.users[i].password_hash@,
                        )
                        &&& final(db)@.users.len() == old(db)@.users.len()
                        &&& (forall|j: int|
                            0 <= j < old(db)@.users.len() && j != i
                                ==> (#[trigger] final(db)@.users[j]) == old(db)@.users[j])
                        &&& final(db)@.users[i].id == old(db)@.users[i].id
                        &&& final(db)@.users[i].username == old(db)@.users[i].username
                        &&& final(db)@.users[i].email == old(db)@.users[i].email
                        &&& final(db)@.users[i].created_at == old(db)@.users[i].created_at
                        &&& password_verifies(
                            form.new_password@,
                            final(db)@.users[i].password_hash@,
                        )
                    }
            },
        },
{
    let password_error = validate_password(form.new_password.as_str());
    if !password_error.as_str().is_empty() {
        return UpdatePasswordOutcome::InvalidPassword;
    }
    let user = match User::get_by_id(db, user_id) {
        Ok(user) => user,
        Err(_) => {
            return UpdatePasswordOutcome::NoSuchUser;
        },
    };
    proof {
        let k = choose|k: int| 0 <= k < db@.users.len() && db@.users[k] == user;
        assert((db@.users[k]).id == user_id);
    }
    match User::check_login(db, user.username.as_str(), form.current_password.as_str()) {
        Some(_) => {
        },
        None => {
            proof {
                let k = choose|k: int| 0 <= k < db@.users.len() && db@.users[k] == user;
                assert((db@.users[k]).username@ == user.username@);
            }
            return UpdatePasswordOutcome::WrongPassword;
        },
    }
    let new_hash = generate_hash(form.new_password.as_str());
    match User::update_password_hash(db, user_id, new_hash) {
        Ok(()) => UpdatePasswordOutcome::Updated,
        Err(_) => UpdatePasswordOutcome::NoSuchUser,
    }
}

} // verus!
