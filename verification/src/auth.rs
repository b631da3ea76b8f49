//! Session authentication: resolving a request's cookie to a user.
//!
//! Every soft condition — a missing cookie, malformed cookie text, an
//! unknown session id, an expired session, an orphaned session — resolves
//! to `None`, indistinguishable from one another. Observing an expired
//! session deletes it as a side effect.

use vstd::prelude::*;
use crate::ids::parse_id;
use crate::ids::uuid_from_text;
use crate::models::session::Session;
use crate::models::user::User;
use crate::store::Db;
use crate::store::DbView;
use crate::store::contains_user_id;
use crate::store::is_user_with_id;
use crate::store::remove_session;

verus! {

/// A session row with this id exists, is unexpired at `now`, and its
/// owner exists: exactly the condition under which authentication
/// succeeds.
pub open spec fn auth_ok(db: DbView, session_id: u128, now: i64) -> bool {
    exists|i: int|
        0 <= i < db.sessions.len() && (#[trigger] db.sessions[i]).id == session_id
            && db.sessions[i].expires_at > now && contains_user_id(
            db.users,
            db.sessions[i].user_id,
        )
}

/// A session row with this id exists but is expired at `now`: the case in
/// which authentication deletes the row as a side effect.
pub open spec fn expired_session_present(db: DbView, session_id: u128, now: i64) -> bool {
    exists|i: int|
        0 <= i < db.sessions.len() && (#[trigger] db.sessions[i]).id == session_id
            && db.sessions[i].expires_at <= now
}

/// The store after an authentication attempt for `session_id` at `now`:
/// unchanged, except that an expired session observed by the attempt is
/// gone.
pub open spec fn after_auth(db: DbView, session_id: u128, now: i64) -> DbView {
    if expired_session_present(db, session_id, now) {
        remove_session(db, session_id)
    } else {
        db
    }
}

/// `r` is the authentication outcome for `session_id` at `now`: the owner
/// of the live session with that id, or `None` when there is none.
pub open spec fn is_auth_result(db: DbView, session_id: u128, now: i64, r: Option<User>) -> bool {
    &&& r is Some <==> auth_ok(db, session_id, now)
    &&& match r {
        Some(u) => exists|i: int|
            0 <= i < db.sessions.len() && (#[trigger] db.sessions[i]).id == session_id
                && is_user_with_id(db.users, db.sessions[i].user_id, u),
        None => true,
    }
}

/// Resolves a session id to its owning user: the session must exist, be
/// unexpired at `now`, and belong to an existing user. An expired session
/// observed here is deleted, lazily, and still resolves to `None`.
pub fn authenticate_session(db: &mut Db, session_id: u128, now: i64) -> (r: Option<User>)
    requires
        old(db).wf(),
    ensures
        final(db).wf(),
        is_auth_result(old(db)@, session_id, now, r),
        final(db)@ == after_auth(old(db)@, session_id, now),
{
    let found = match Session::get_by_id(db, session_id) {
        Ok(found) => found,
        Err(_) => None,
    };
    let session = match found {
        Some(session) => session,
        None => {
            return None;
        },
    };
    proof {
        let k = choose|k: int|
            0 <= k < db@.sessions.len() && db@.sessions[k] == session;
        assert(db@.sessions[k].id == session_id);
        assert forall|i: int|
            0 <= i < db@.sessions.len() && (#[trigger] db@.sessions[i]).id == session_id
                implies db@.sessions[i] == session by {
            if i != k {
                if i < k {
                    assert(db@.sessions[i].id != db@.sessions[k].id);
                } else {
                    assert(db@.sessions[k].id != db@.sessions[i].id);
                }
            }
        }
    }
    if session.expires_at <= now {
        let _ = Session::delete_by_id(db, session_id);
        return None;
    }
    match User::get_by_id(db, session.user_id) {
        Ok(user) => Some(user),
        Err(_) => {
            proof {
                let k = choose|k: int|
                    0 <= k < db@.sessions.len() && db@.sessions[k] == session;
                assert(contains_user_id(db@.users, (db@.sessions[k]).user_id));
            }
            None
        },
    }
}

/// Reads the session id out of a request's `session_id` cookie value:
/// `None` when the cookie is absent or its text is not an identifier.
pub fn extract_session_id(cookie: Option<&str>) -> (r: Option<u128>)
    ensures
        r == match cookie {
            Some(c) => uuid_from_text(c@),
            None => None::<u128>,
        },
{
    match cookie {
        Some(c) => parse_id(c),
        None => None,
    }
}

/// Resolves a request's cookie value to the current user, soft-failing to
/// `None` on absence, malformed text, an unknown id, an expired session,
/// or an orphaned session. An expired session observed here is deleted.
pub fn authenticate(db: &mut Db, cookie: Option<&str>, now: i64) -> (r: Option<User>)
    requires
        old(db).wf(),
    ensures
        final(db).wf(),
        match cookie {
            None => r is None && final(db)@ == old(db)@,
            Some(c) => match uuid_from_text(c@) {
                None => r is None && final(db)@ == old(db)@,
                Some(session_id) => is_auth_result(old(db)@, session_id, now, r) && final(db)@
                    == after_auth(old(db)@, session_id, now),
            },
        },
{
    match extract_session_id(cookie) {
        Some(session_id) => authenticate_session(db, session_id, now),
        None => None,
    }
}

} // verus!
