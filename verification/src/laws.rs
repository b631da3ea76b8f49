//! Store-level laws of the session subsystem, proved once over the
//! abstract store and usable at every call site.

use vstd::prelude::*;
use crate::auth::auth_ok;
use crate::models::session::Session;
use crate::models::user::User;
use crate::models::user::check_login_ok;
use crate::password::password_verifies;
use crate::store::DbView;
use crate::store::contains_session_id;
use crate::store::contains_user_id;
use crate::store::keeps_session;
use crate::store::keeps_sessions_of_others;
use crate::store::lemma_session_filter_subset;
use crate::store::remove_session;
use crate::store::remove_user;
use crate::store::selects_live_sessions;

verus! {

/// Once an account with `username` is stored whose hash was produced from
/// `password` — the state a successful signup leaves behind — a login
/// with the same credentials passes the credential check, and any session
/// it creates belongs to that account.
pub proof fn lemma_signup_then_login(db: DbView, username: Seq<char>, password: Seq<char>, u: User)
    requires
        db.inv(),
        db.users.contains(u),
        u.username@ == username,
        password_verifies(password, u.password_hash@),
    ensures
        check_login_ok(db, username, password),
        forall|i: int|
            0 <= i < db.users.len() && (#[trigger] db.users[i]).username@ == username
                ==> db.users[i].id == u.id,
{
    let k = choose|k: int| 0 <= k < db.users.len() && db.users[k] == u;
    assert((db.users[k]).username@ == username);
    assert(check_login_ok(db, username, password));
    assert forall|i: int|
        0 <= i < db.users.len() && (#[trigger] db.users[i]).username@ == username
            implies db.users[i].id == u.id by {
        if i != k {
            if i < k {
                assert(db.users[i].username@ != db.users[k].username@);
            } else {
                assert(db.users[k].username@ != db.users[i].username@);
            }
        }
    }
}

/// A session authenticates at a time exactly when that time is before its
/// expiry: it succeeds at every earlier time and fails from the expiry on.
pub proof fn lemma_expiry_boundary(db: DbView, i: int, t: i64)
    requires
        db.inv(),
        0 <= i < db.sessions.len(),
    ensures
        auth_ok(db, db.sessions[i].id, t) <==> db.sessions[i].expires_at > t,
{
    let session_id = db.sessions[i].id;
    assert(contains_user_id(db.users, db.sessions[i].user_id));
    if auth_ok(db, session_id, t) {
        let j = choose|j: int|
            0 <= j < db.sessions.len() && (#[trigger] db.sessions[j]).id == session_id
                && db.sessions[j].expires_at > t && contains_user_id(
                db.users,
                db.sessions[j].user_id,
            );
        if i != j {
            if i < j {
                assert(db.sessions[i].id != db.sessions[j].id);
            } else {
                assert(db.sessions[j].id != db.sessions[i].id);
            }
        }
    }
}

/// Authentication success is monotone in time: a session accepted at some
/// time was accepted at every earlier time.
pub proof fn lemma_expiry_monotonic(db: DbView, session_id: u128, t1: i64, t2: i64)
    requires
        t1 <= t2,
        auth_ok(db, session_id, t2),
    ensures
        auth_ok(db, session_id, t1),
{
}

/// After a session is logged out, authentication with the same id fails
/// at every time.
pub proof fn lemma_logout_then_authenticate(db: DbView, session_id: u128, now: i64)
    ensures
        !auth_ok(remove_session(db, session_id), session_id, now),
{
    broadcast use vstd::seq_lib::group_filter_ensures;

    let out = remove_session(db, session_id).sessions;
    assert forall|i: int| 0 <= i < out.len() implies (#[trigger] out[i]).id != session_id by {
        assert(keeps_session(session_id)(out[i]));
    }
}

/// Deleting a user cascades: afterwards none of its sessions
/// authenticates, and its listing of live sessions is empty.
pub proof fn lemma_user_delete_cascades(db: DbView, user_id: u128, session_id: u128, now: i64)
    requires
        db.inv(),
        exists|i: int|
            0 <= i < db.sessions.len() && (#[trigger] db.sessions[i]).id == session_id
                && db.sessions[i].user_id == user_id,
    ensures
        !auth_ok(remove_user(db, user_id), session_id, now),
        remove_user(db, user_id).sessions.filter(selects_live_sessions(user_id, now))
            == Seq::<Session>::empty(),
{
    broadcast use vstd::seq_lib::group_filter_ensures;

    let out = remove_user(db, user_id).sessions;
    lemma_session_filter_subset(db.sessions, keeps_sessions_of_others(user_id));
    let k = choose|k: int|
        0 <= k < db.sessions.len() && (#[trigger] db.sessions[k]).id == session_id
            && db.sessions[k].user_id == user_id;
    assert forall|i: int| 0 <= i < out.len() implies (#[trigger] out[i]).id != session_id by {
        assert(keeps_sessions_of_others(user_id)(out[i]));
        assert(db.sessions.contains(out[i]));
        let j = choose|j: int| 0 <= j < db.sessions.len() && db.sessions[j] == out[i];
        if j != k {
            if j < k {
                assert(db.sessions[j].id != db.sessions[k].id);
            } else {
                assert(db.sessions[k].id != db.sessions[j].id);
            }
        }
    }
    let listed = out.filter(selects_live_sessions(user_id, now));
    lemma_session_filter_subset(out, selects_live_sessions(user_id, now));
    if listed.len() > 0 {
        assert(selects_live_sessions(user_id, now)(listed[0]));
        assert(out.contains(listed[0]));
        let j = choose|j: int| 0 <= j < out.len() && out[j] == listed[0];
        assert(keeps_sessions_of_others(user_id)(out[j]));
    }
    assert(listed =~= Seq::<Session>::empty());
}

/// Session deletion is idempotent: after one deletion the id is gone, and
/// a second deletion of the same id changes nothing (and, by the deletion
/// contract, reports zero rows and no error).
pub proof fn lemma_delete_idempotent(db: DbView, session_id: u128)
    ensures
        !contains_session_id(remove_session(db, session_id).sessions, session_id),
        remove_session(remove_session(db, session_id), session_id) == remove_session(
            db,
            session_id,
        ),
{
    broadcast use vstd::seq_lib::group_filter_ensures;

    let out = remove_session(db, session_id).sessions;
    assert forall|i: int| 0 <= i < out.len() implies (#[trigger] out[i]).id != session_id by {
        assert(keeps_session(session_id)(out[i]));
    }
    lemma_filter_all_kept(out, keeps_session(session_id));
    assert(remove_session(remove_session(db, session_id), session_id) =~= remove_session(
        db,
        session_id,
    ));
}

/// A filter that keeps every row is the identity.
proof fn lemma_filter_all_kept(s: Seq<Session>, pred: spec_fn(Session) -> bool)
    requires
        forall|i: int| 0 <= i < s.len() ==> pred(#[trigger] s[i]),
    ensures
        s.filter(pred) == s,
    decreases s.len(),
{
    reveal(Seq::filter);
    if s.len() > 0 {
        assert(forall|i: int| 0 <= i < s.drop_last().len() ==> pred(#[trigger] s.drop_last()[i]));
        lemma_filter_all_kept(s.drop_last(), pred);
        assert(s.filter(pred) =~= s);
    } else {
        assert(s.filter(pred) =~= s);
    }
}

} // verus!
