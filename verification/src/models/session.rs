//! The session table: cookie-backed sessions keyed by an unguessable id.

use vstd::prelude::*;
use crate::store::Db;
use crate::store::StoreError;
use crate::store::contains_user_id;
use crate::store::contains_session_id;
use crate::store::is_session_with_id;
use crate::store::keeps_session;
use crate::store::lemma_take_one_more_filter;
use crate::store::remove_session;
use crate::store::selects_live_sessions;

verus! {

/// A session record. `expires_at` is always `created_at` plus the fixed
/// session lifetime; a value at or below the current time means expired.
#[derive(Debug)]
pub struct Session {
    pub id: u128,
    pub user_id: u128,
    pub ip_address: String,
    pub user_agent: String,
    pub created_at: i64,
    pub expires_at: i64,
}

impl Session {
    /// An owned copy of this record.
    pub fn duplicate(&self) -> (r: Session)
        ensures
            r == *self,
    {
        Session {
            id: self.id,
            user_id: self.user_id,
            ip_address: self.ip_address.clone(),
            user_agent: self.user_agent.clone(),
            created_at: self.created_at,
            expires_at: self.expires_at,
        }
    }
}

/// Index of the session row with id `id`, if any.
pub(crate) fn find_by_id(sessions: &Vec<Session>, id: u128) -> (r: Option<usize>)
    ensures
        match r {
            Some(i) => i < sessions@.len() && sessions@[i as int].id == id,
            None => !contains_session_id(sessions@, id),
        },
{
    let n = sessions.len();
    let mut i: usize = 0;
    while i < n
        invariant
            i <= n,
            n == sessions@.len(),
            forall|j: int| 0 <= j < i ==> (#[trigger] sessions@[j]).id != id,
        decreases n - i,
    {
        if sessions[i].id == id {
            return Some(i);
        }
        i = i + 1;
    }
    None
}

impl Session {
    /// Persists a new session; fails with `Conflict` when the id is already
    /// taken and with `ForeignKeyViolation` when the owning user does not
    /// exist. Changes nothing on failure.
    pub fn insert(db: &mut Db, session: &Session) -> (r: Result<(), StoreError>)
        requires
            old(db).wf(),
        ensures
            final(db).wf(),
            match r {
                Ok(()) => {
                    &&& !contains_session_id(old(db)@.sessions, session.id)
                    &&& contains_user_id(old(db)@.users, session.user_id)
                    &&& final(db)@.sessions == old(db)@.sessions.push(*session)
                    &&& final(db)@.users == old(db)@.users
                },
                Err(e) => {
                    &&& final(db)@ == old(db)@
                    &&& match e {
                        StoreError::Conflict => contains_session_id(
                            old(db)@.sessions,
                            session.id,
                        ),
                        StoreError::ForeignKeyViolation => !contains_session_id(
                            old(db)@.sessions,
                            session.id,
                        ) && !contains_user_id(old(db)@.users, session.user_id),
                        StoreError::NotFound => false,
                    }
                },
            },
    {
        if let Some(_) = find_by_id(&db.sessions, session.id) {
            return Err(StoreError::Conflict);
        }
        if let Err(_) = crate::models::user::User::get_by_id(db, session.user_id) {
            return Err(StoreError::ForeignKeyViolation);
        }
        db.sessions.push(session.duplicate());
        proof {
            let sessions0 = old(db)@.sessions;
            let s = *session;
            assert forall|j: int|
                0 <= j < sessions0.len() implies (#[trigger] sessions0[j]).id != s.id by {
                if sessions0[j].id == s.id {
                    assert(contains_session_id(sessions0, s.id));
                }
            }
            assert forall|i: int|
                0 <= i < db@.sessions.len() implies contains_user_id(
                db@.users,
                (#[trigger] db@.sessions[i]).user_id,
            ) by {
                if i < sessions0.len() {
                    assert(db@.sessions[i] == sessions0[i]);
                    assert(contains_user_id(old(db)@.users, sessions0[i].user_id));
                } else {
                    assert(db@.sessions[i] == s);
                }
            }
        }
        Ok(())
    }

    /// Looks a session up by id; absence is `Ok(None)`, not an error, and
    /// an expired-but-present row is still returned (expiry is the
    /// authenticator's concern).
    pub fn get_by_id(db: &Db, id: u128) -> (r: Result<Option<Session>, StoreError>)
        requires
            db.wf(),
        ensures
            match r {
                Ok(Some(s)) => is_session_with_id(db@.sessions, id, s),
                Ok(None) => !contains_session_id(db@.sessions, id),
                Err(_) => false,
            },
    {
        match find_by_id(&db.sessions, id) {
            Some(i) => {
                let s = db.sessions[i].duplicate();
                Ok(Some(s))
            },
            None => Ok(None),
        }
    }

    /// Deletes the session with this id and returns the number of rows
    /// removed: idempotent, `0` rather than an error when no row matches.
    pub fn delete_by_id(db: &mut Db, id: u128) -> (r: Result<u64, StoreError>)
        requires
            old(db).wf(),
        ensures
            final(db).wf(),
            final(db)@ == remove_session(old(db)@, id),
            match r {
                Ok(count) => (count == 1 <==> contains_session_id(old(db)@.sessions, id)) && (count
                    == 0 <==> !contains_session_id(old(db)@.sessions, id)),
                Err(_) => false,
            },
    {
        let mut kept: Vec<Session> = Vec::new();
        let n = db.sessions.len();
        let mut i: usize = 0;
        let mut removed: u64 = 0;
        while i < n
            invariant
                *db == *old(db),
                i <= n,
                n == db.sessions@.len(),
                kept@ == db.sessions@.take(i as int).filter(keeps_session(id)),
                removed == db.sessions@.take(i as int).len() - db.sessions@.take(
                    i as int,
                ).filter(keeps_session(id)).len(),
                removed <= i,
            decreases n - i,
        {
            proof {
                lemma_take_one_more_filter(db.sessions@, keeps_session(id), i as int);
            }
            if db.sessions[i].id != id {
                kept.push(db.sessions[i].duplicate());
            } else {
                removed = removed + 1;
            }
            i = i + 1;
        }
        proof {
            assert(db.sessions@.take(n as int) =~= db.sessions@);
            assert(db@ == old(db)@);
            assert(db@.sessions == db.sessions@);
            lemma_filter_unique_absent(db@.sessions, id);
            lemma_filter_unique_len(db@.sessions, id);
            crate::store::lemma_session_filter_distinct(db@.sessions, keeps_session(id));
            crate::store::lemma_session_filter_subset(db@.sessions, keeps_session(id));
        }
        let ghost db0 = db@;
        db.sessions = kept;
        proof {
            assert(db@ =~= remove_session(db0, id));
            assert forall|i: int|
                0 <= i < db@.sessions.len() implies contains_user_id(
                db@.users,
                (#[trigger] db@.sessions[i]).user_id,
            ) by {
                assert(db0.sessions.contains(db@.sessions[i]));
                let k = choose|k: int|
                    0 <= k < db0.sessions.len() && db0.sessions[k] == db@.sessions[i];
                assert(contains_user_id(db0.users, (db0.sessions[k]).user_id));
            }
        }
        Ok(removed)
    }

    /// Sessions belonging to `user_id` that are not yet expired at `now`,
    /// in insertion order.
    pub fn get_by_user_id(db: &Db, user_id: u128, now: i64) -> (r: Result<Vec<Session>, StoreError>)
        requires
            db.wf(),
        ensures
            match r {
                Ok(rows) => rows@ == db@.sessions.filter(selects_live_sessions(user_id, now)),
                Err(_) => false,
            },
    {
        let mut rows: Vec<Session> = Vec::new();
        let n = db.sessions.len();
        let mut i: usize = 0;
        while i < n
            invariant
                i <= n,
                n == db.sessions@.len(),
                rows@ == db.sessions@.take(i as int).filter(selects_live_sessions(user_id, now)),
            decreases n - i,
        {
            proof {
                lemma_take_one_more_filter(db.sessions@, selects_live_sessions(user_id, now), i as int);
            }
            if db.sessions[i].user_id == user_id && db.sessions[i].expires_at > now {
                rows.push(db.sessions[i].duplicate());
            }
            i = i + 1;
        }
        proof {
            assert(db.sessions@.take(n as int) =~= db.sessions@);
        }
        Ok(rows)
    }
}

/// With pairwise-distinct ids, a deletion keeps either every row or all
/// but one.
proof fn lemma_filter_unique_len(s: Seq<Session>, id: u128)
    requires
        forall|i: int, j: int|
            0 <= i < j < s.len() ==> (#[trigger] s[i]).id != (#[trigger] s[j]).id,
    ensures
        s.filter(keeps_session(id)).len() == if contains_session_id(s, id) {
            s.len() - 1
        } else {
            s.len() as int
        },
    decreases s.len(),
{
    reveal(Seq::filter);
    if s.len() > 0 {
        let prefix = s.drop_last();
        let last = s[s.len() - 1];
        assert(forall|i: int, j: int|
            0 <= i < j < prefix.len() ==> (#[trigger] prefix[i]).id != (#[trigger] prefix[j]).id);
        lemma_filter_unique_len(prefix, id);
        if last.id == id {
            assert(contains_session_id(s, id));
            assert(!contains_session_id(prefix, id)) by {
                if contains_session_id(prefix, id) {
                    let k = choose|k: int|
                        0 <= k < prefix.len() && (#[trigger] prefix[k]).id == id;
                    assert(s[k].id == s[s.len() - 1].id);
                }
            }
        } else {
            assert(contains_session_id(s, id) == contains_session_id(prefix, id)) by {
                if contains_session_id(s, id) {
                    let k = choose|k: int| 0 <= k < s.len() && (#[trigger] s[k]).id == id;
                    assert(prefix[k].id == id);
                }
                if contains_session_id(prefix, id) {
                    let k = choose|k: int|
                        0 <= k < prefix.len() && (#[trigger] prefix[k]).id == id;
                    assert(s[k].id == id);
                }
            }
        }
    }
}

/// When at most one row carries `id`, the rows that a deletion keeps are
/// exactly those whose id differs.
proof fn lemma_filter_unique_absent(s: Seq<Session>, id: u128)
    ensures
        !contains_session_id(s.filter(keeps_session(id)), id),
{
    broadcast use vstd::seq_lib::group_filter_ensures;

    let out = s.filter(keeps_session(id));
    assert forall|i: int| 0 <= i < out.len() implies (#[trigger] out[i]).id != id by {
        assert(keeps_session(id)(out[i]));
    }
}

} // verus!
