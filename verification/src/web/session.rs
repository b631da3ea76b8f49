//! The session handlers' cores: login, logout, and revocation by id.

use vstd::prelude::*;
use crate::SESSION_TTL_MICROS;
use crate::ids::uuid_from_text;
use crate::models::session::Session;
use crate::models::user::check_login_ok;
use crate::session::RevokeError;
use crate::session::login;
use crate::session::logout;
use crate::session::revoke;
use crate::session::session_record;
use crate::store::Db;
use crate::store::contains_session_id;
use crate::store::remove_session;

verus! {

/// The login form's fields.
pub struct CreateSessionPayload {
    pub username: String,
    pub password: String,
}

/// Failure of a revocation request.
#[derive(Clone, Copy, Debug, PartialEq, Eq, Structural)]
pub enum RevokeRequestError {
    /// The path segment is not a session id.
    BadId,
    /// No session carries the given id.
    NotFound,
    /// The session exists but belongs to another user.
    NotOwned,
}

/// Creates a new session from the login form: the login action. `None`
/// both for bad credentials and for the (astronomically unlikely)
/// collision of the drawn session id.
pub fn post(
    db: &mut Db,
    form: &CreateSessionPayload,
    now: i64,
    ip_address: String,
    user_agent: String,
) -> (r: Option<Session>)
    requires
        old(db).wf(),
        0 <= now,
        now + SESSION_TTL_MICROS <= i64::MAX,
    ensures
        final(db).wf(),
        !check_login_ok(old(db)@, form.username@, form.password@) ==> r is None,
        match r {
            Some(s) => {
                &&& check_login_ok(old(db)@, form.username@, form.password@)
                &&& session_record(s.id, s.user_id, now, ip_address@, user_agent@, s)
                &&& exists|i: int|
                    {
                        &&& 0 <= i < old(db)@.users.len()
                        &&& (#[trigger] old(db)@.users[i]).username@ == form.username@
                        &&& crate::password::password_verifies(
                            form.password@,
                            old(db)@.users[i].password_hash@,
                        )
                        &&& s.user_id == old(db)@.users[i].id
                    }
                &&& final(db)@.sessions == old(db)@.sessions.push(s)
                &&& final(db)@.users == old(db)@.users
            },
            None => final(db)@ == old(db)@,
        },
{
    login(db, form.username.as_str(), form.password.as_str(), now, ip_address, user_agent)
}

/// Deletes the session named by the request's cookie: the logout action.
/// A missing or malformed cookie, or an already absent session, deletes
/// nothing and is not an error.
pub fn delete(db: &mut Db, cookie: Option<&str>)
    requires
        old(db).wf(),
    ensures
        final(db).wf(),
        match cookie {
            None => final(db)@ == old(db)@,
            Some(c) => match uuid_from_text(c@) {
                None => final(db)@ == old(db)@,
                Some(session_id) => final(db)@ == remove_session(old(db)@, session_id),
            },
        },
{
    match crate::auth::extract_session_id(cookie) {
        Some(session_id) => logout(db, session_id),
        None => {
        },
    }
}

/// Deletes the session named by a request's path segment, on behalf of
/// the authenticated user: the revocation action. The session must
/// belong to that user.
pub fn delete_by_id(db: &mut Db, session_id: &str, acting_user_id: u128) -> (r: Result<
    (),
    RevokeRequestError,
>)
    requires
        old(db).wf(),
    ensures
        final(db).wf(),
        match uuid_from_text(session_id@) {
            None => (r matches Err(RevokeRequestError::BadId)) && final(db)@ == old(db)@,
            Some(sid) => match r {
                Ok(()) => {
                    &&& exists|i: int|
                        0 <= i < old(db)@.sessions.len() && (#[trigger] old(db)@.sessions[i]).id
                            == sid && old(db)@.sessions[i].user_id == acting_user_id
                    &&& final(db)@ == remove_session(old(db)@, sid)
                },
                Err(RevokeRequestError::BadId) => false,
                Err(RevokeRequestError::NotFound) => {
                    &&& !contains_session_id(old(db)@.sessions, sid)
                    &&& final(db)@ == old(db)@
                },
                Err(RevokeRequestError::NotOwned) => {
                    &&& exists|i: int|
                        0 <= i < old(db)@.sessions.len() && (#[trigger] old(db)@.sessions[i]).id
                            == sid && old(db)@.sessions[i].user_id != acting_user_id
                    &&& final(db)@ == old(db)@
                },
            },
        },
{
    let sid = match crate::ids::parse_id(session_id) {
        Some(sid) => sid,
        None => {
            return Err(RevokeRequestError::BadId);
        },
    };
    match revoke(db, sid, acting_user_id) {
        Ok(()) => Ok(()),
        Err(RevokeError::NotFound) => Err(RevokeRequestError::NotFound),
        Err(RevokeError::NotOwned) => Err(RevokeRequestError::NotOwned),
    }
}

} // verus!
