//! Session lifecycle: creation at login, deletion at logout, and
//! revocation from account management.

use vstd::prelude::*;
use crate::SESSION_TTL_MICROS;
use crate::ids::id_text;
use crate::ids::new_raw_id;
use crate::ids::uuid_text;
use crate::models::session::Session;
use crate::models::user::User;
use crate::models::user::check_login_ok;
use crate::store::Db;
use crate::store::StoreError;
use crate::store::contains_session_id;
use crate::store::contains_user_id;
use crate::store::remove_session;

verus! {

/// Failure of a session revocation.
#[derive(Clone, Copy, Debug, PartialEq, Eq, Structural)]
pub enum RevokeError {
    /// No session carries the given id.
    NotFound,
    /// The session exists but belongs to another user.
    NotOwned,
}

/// `s` is the session record that a session creation for `user_id` at
/// `now` from the given request metadata produces under identifier `id`:
/// created now, expiring one fixed lifetime later.
pub open spec fn session_record(
    id: u128,
    user_id: u128,
    now: i64,
    ip_address: Seq<char>,
    user_agent: Seq<char>,
    s: Session,
) -> bool {
    &&& s.id == id
    &&& s.user_id == user_id
    &&& s.ip_address@ == ip_address
    &&& s.user_agent@ == user_agent
    &&& s.created_at == now
    &&& s.expires_at == now + SESSION_TTL_MICROS
}

/// The session cookie as the web layer emits it: named `session_id`,
/// carrying the identifier's text form, scoped to the whole site, strict
/// same-site, inaccessible to scripts, lasting one week, and — outside
/// local debug deployments — sent only over a secure channel.
pub open spec fn session_cookie_text(session_id: u128, secure: bool) -> Seq<char> {
    "session_id="@ + uuid_text(session_id) + "; Path=/; SameSite=Strict; HttpOnly"@ + (if secure {
        "; Secure"@
    } else {
        Seq::<char>::empty()
    }) + "; Max-Age=604800"@
}

/// Renders the `Set-Cookie` value for a session.
pub fn build_session_cookie(session_id: u128, secure: bool) -> (r: String)
    ensures
        r@ == session_cookie_text(session_id, secure),
{
    let mut out = "session_id=".to_owned();
    let id = id_text(session_id);
    out.append(id.as_str());
    out.append("; Path=/; SameSite=Strict; HttpOnly");
    if secure {
        out.append("; Secure");
    }
    out.append("; Max-Age=604800");
    proof {
        assert(out@ =~= session_cookie_text(session_id, secure));
    }
    out
}

/// Builds and persists a session under a caller-chosen identifier; the
/// whole deterministic part of session creation. Fails with `Conflict`
/// exactly when the identifier is taken and with `ForeignKeyViolation`
/// exactly when it is free but the user does not exist.
pub fn create_session_with_id(
    db: &mut Db,
    session_id: u128,
    user_id: u128,
    now: i64,
    ip_address: String,
    user_agent: String,
) -> (r: Result<Session, StoreError>)
    requires
        old(db).wf(),
        0 <= now,
        now + SESSION_TTL_MICROS <= i64::MAX,
    ensures
        final(db).wf(),
        match r {
            Ok(s) => {
                &&& !contains_session_id(old(db)@.sessions, session_id)
                &&& contains_user_id(old(db)@.users, user_id)
                &&& session_record(session_id, user_id, now, ip_address@, user_agent@, s)
                &&& final(db)@.sessions == old(db)@.sessions.push(s)
                &&& final(db)@.users == old(db)@.users
            },
            Err(e) => {
                &&& final(db)@ == old(db)@
                &&& match e {
                    StoreError::Conflict => contains_session_id(old(db)@.sessions, session_id),
                    StoreError::ForeignKeyViolation => !contains_session_id(
                        old(db)@.sessions,
                        session_id,
                    ) && !contains_user_id(old(db)@.users, user_id),
                    StoreError::NotFound => false,
                }
            },
        },
{
    let session = Session {
        id: session_id,
        user_id,
        ip_address,
        user_agent,
        created_at: now,
        expires_at: now + SESSION_TTL_MICROS,
    };
    match Session::insert(db, &session) {
        Ok(()) => Ok(session),
        Err(e) => Err(e),
    }
}

/// Creates a session for `user_id` under a freshly drawn random
/// identifier. The drawn identifier decides between success and
/// `Conflict`; [`create_session_with_id`] pins the outcome for each
/// possible identifier.
pub fn create_session(
    db: &mut Db,
    user_id: u128,
    now: i64,
    ip_address: String,
    user_agent: String,
) -> (r: Result<Session, StoreError>)
    requires
        old(db).wf(),
        0 <= now,
        now + SESSION_TTL_MICROS <= i64::MAX,
    ensures
        final(db).wf(),
        match r {
            Ok(s) => {
                &&& contains_user_id(old(db)@.users, user_id)
                &&& !contains_session_id(old(db)@.sessions, s.id)
                &&& session_record(s.id, user_id, now, ip_address@, user_agent@, s)
                &&& final(db)@.sessions == old(db)@.sessions.push(s)
                &&& final(db)@.users == old(db)@.users
            },
            Err(e) => {
                &&& final(db)@ == old(db)@
                &&& e == StoreError::ForeignKeyViolation ==> !contains_user_id(
                    old(db)@.users,
                    user_id,
                )
                &&& e == StoreError::Conflict || e == StoreError::ForeignKeyViolation
            },
        },
{
    let session_id = new_raw_id();
    create_session_with_id(db, session_id, user_id, now, ip_address, user_agent)
}

/// Logs a user in under a caller-chosen session identifier; the whole
/// deterministic part of login. Succeeds exactly when the credentials
/// check out and the identifier is free; an unknown username and a wrong
/// password are indistinguishable.
pub fn login_with_session_id(
    db: &mut Db,
    username: &str,
    password: &str,
    session_id: u128,
    now: i64,
    ip_address: String,
    user_agent: String,
) -> (r: Option<Session>)
    requires
        old(db).wf(),
        0 <= now,
        now + SESSION_TTL_MICROS <= i64::MAX,
    ensures
        final(db).wf(),
        r is Some <==> check_login_ok(old(db)@, username@, password@) && !contains_session_id(
            old(db)@.sessions,
            session_id,
        ),
        match r {
            Some(s) => {
                &&& session_record(session_id, s.user_id, now, ip_address@, user_agent@, s)
                &&& exists|i: int|
                    {
                        &&& 0 <= i < old(db)@.users.len()
                        &&& (#[trigger] old(db)@.users[i]).username@ == username@
                        &&& crate::password::password_verifies(
                            password@,
                            old(db)@.users[i].password_hash@,
                        )
                        &&& s.user_id == old(db)@.users[i].id
                    }
                &&& final(db)@.sessions == old(db)@.sessions.push(s)
                &&& final(db)@.users == old(db)@.users
            },
            None => final(db)@ == old(db)@,
        },
{
    let user = match User::check_login(db, username, password) {
        Some(user) => user,
        None => {
            return None;
        },
    };
    proof {
        let k = choose|k: int| 0 <= k < db@.users.len() && db@.users[k] == user;
        assert((db@.users[k]).id == user.id);
    }
    match create_session_with_id(db, session_id, user.id, now, ip_address, user_agent) {
        Ok(s) => Some(s),
        Err(_) => None,
    }
}

/// Authenticates the credentials and creates a session under a freshly
/// drawn random identifier. The drawn identifier decides between success
/// and a collision; [`login_with_session_id`] pins the outcome for each
/// possible identifier.
pub fn login(
    db: &mut Db,
    username: &str,
    password: &str,
    now: i64,
    ip_address: String,
    user_agent: String,
) -> (r: Option<Session>)
    requires
        old(db).wf(),
        0 <= now,
        now + SESSION_TTL_MICROS <= i64::MAX,
    ensures
        final(db).wf(),
        !check_login_ok(old(db)@, username@, password@) ==> r is None,
        match r {
            Some(s) => {
                &&& check_login_ok(old(db)@, username@, password@)
                &&& !contains_session_id(old(db)@.sessions, s.id)
                &&& session_record(s.id, s.user_id, now, ip_address@, user_agent@, s)
                &&& exists|i: int|
                    {
                        &&& 0 <= i < old(db)@.users.len()
                        &&& (#[trigger] old(db)@.users[i]).username@ == username@
                        &&& crate::password::password_verifies(
                            password@,
                            old(db)@.users[i].password_hash@,
                        )
                        &&& s.user_id == old(db)@.users[i].id
                    }
                &&& final(db)@.sessions == old(db)@.sessions.push(s)
                &&& final(db)@.users == old(db)@.users
            },
            None => final(db)@ == old(db)@,
        },
{
    let session_id = new_raw_id();
    login_with_session_id(db, username, password, session_id, now, ip_address, user_agent)
}

/// Deletes the session, best-effort: absence of the session is not an
/// error, and everything else is untouched.
pub fn logout(db: &mut Db, session_id: u128)
    requires
        old(db).wf(),
    ensures
        final(db).wf(),
        final(db)@ == remove_session(old(db)@, session_id),
{
    let _ = Session::delete_by_id(db, session_id);
}

/// Revokes a specific session on behalf of `acting_user_id`. The session
/// must belong to the acting user: revoking another user's session is
/// `NotOwned`, distinct from `NotFound`, and deletes nothing.
pub fn revoke(db: &mut Db, session_id: u128, acting_user_id: u128) -> (r: Result<(), RevokeError>)
    requires
        old(db).wf(),
    ensures
        final(db).wf(),
        match r {
            Ok(()) => {
                &&& exists|i: int|
                    0 <= i < old(db)@.sessions.len() && (#[trigger] old(db)@.sessions[i]).id
                        == session_id && old(db)@.sessions[i].user_id == acting_user_id
                &&& final(db)@ == remove_session(old(db)@, session_id)
            },
            Err(RevokeError::NotFound) => {
                &&& !contains_session_id(old(db)@.sessions, session_id)
                &&& final(db)@ == old(db)@
            },
            Err(RevokeError::NotOwned) => {
                &&& exists|i: int|
                    0 <= i < old(db)@.sessions.len() && (#[trigger] old(db)@.sessions[i]).id
                        == session_id && old(db)@.sessions[i].user_id != acting_user_id
                &&& final(db)@ == old(db)@
            },
        },
{
    let found = match Session::get_by_id(db, session_id) {
        Ok(found) => found,
        Err(_) => None,
    };
    let session = match found {
        Some(session) => session,
        None => {
            return Err(RevokeError::NotFound);
        },
    };
    proof {
        let k = choose|k: int| 0 <= k < db@.sessions.len() && db@.sessions[k] == session;
        assert((db@.sessions[k]).id == session_id);
    }
    if session.user_id != acting_user_id {
        return Err(RevokeError::NotOwned);
    }
    let _ = Session::delete_by_id(db, session_id);
    Ok(())
}

} // verus!
