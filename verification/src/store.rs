//! In-memory relational store for users and sessions.
//!
//! [`Db`] plays the part of the backing relational store: it enforces
//! primary-key uniqueness for users and sessions, uniqueness of usernames,
//! and the foreign-key constraint that every session belongs to an existing
//! user. Its abstract value is a [`DbView`]: the two tables as sequences of
//! rows, in insertion order.

use vstd::prelude::*;
use crate::models::user::User;
use crate::models::session::Session;

verus! {

/// Failure of a store operation.
#[derive(Clone, Copy, Debug, PartialEq, Eq, Structural)]
pub enum StoreError {
    /// A unique constraint (primary key or username) was violated.
    Conflict,
    /// The referenced user does not exist.
    ForeignKeyViolation,
    /// The requested row does not exist.
    NotFound,
}

/// Abstract state of the store: both tables, in insertion order.
#[verifier::ext_equal]
pub struct DbView {
    pub users: Seq<User>,
    pub sessions: Seq<Session>,
}

/// Some user row carries this id.
pub open spec fn contains_user_id(users: Seq<User>, id: u128) -> bool {
    exists|i: int| 0 <= i < users.len() && (#[trigger] users[i]).id == id
}

/// Some user row carries this username.
pub open spec fn contains_username(users: Seq<User>, name: Seq<char>) -> bool {
    exists|i: int| 0 <= i < users.len() && (#[trigger] users[i]).username@ == name
}

/// `u` is the user row with id `id`.
pub open spec fn is_user_with_id(users: Seq<User>, id: u128, u: User) -> bool {
    u.id == id && users.contains(u)
}

/// `u` is the user row with username `name`.
pub open spec fn is_user_with_username(users: Seq<User>, name: Seq<char>, u: User) -> bool {
    u.username@ == name && users.contains(u)
}

/// Some session row carries this id.
pub open spec fn contains_session_id(sessions: Seq<Session>, id: u128) -> bool {
    exists|i: int| 0 <= i < sessions.len() && (#[trigger] sessions[i]).id == id
}

/// `s` is the session row with id `id`.
pub open spec fn is_session_with_id(sessions: Seq<Session>, id: u128, s: Session) -> bool {
    s.id == id && sessions.contains(s)
}

/// Keep predicate for deleting the session with id `id`.
pub open spec fn keeps_session(id: u128) -> spec_fn(Session) -> bool {
    |s: Session| s.id != id
}

/// Keep predicate for cascading a user deletion over the session table.
pub open spec fn keeps_sessions_of_others(user_id: u128) -> spec_fn(Session) -> bool {
    |s: Session| s.user_id != user_id
}

/// Keep predicate for deleting the user with id `id`.
pub open spec fn keeps_user(id: u128) -> spec_fn(User) -> bool {
    |u: User| u.id != id
}

/// Selection predicate for the sessions of `user_id` that are not yet
/// expired at time `now`.
pub open spec fn selects_live_sessions(user_id: u128, now: i64) -> spec_fn(Session) -> bool {
    |s: Session| s.user_id == user_id && s.expires_at > now
}

/// The store after the session with id `id` is deleted (a no-op when no
/// such session exists).
pub open spec fn remove_session(db: DbView, id: u128) -> DbView {
    DbView { users: db.users, sessions: db.sessions.filter(keeps_session(id)) }
}

/// The store after the user with id `id` is deleted, with the deletion
/// cascaded to all of that user's sessions.
pub open spec fn remove_user(db: DbView, id: u128) -> DbView {
    DbView {
        users: db.users.filter(keeps_user(id)),
        sessions: db.sessions.filter(keeps_sessions_of_others(id)),
    }
}

impl DbView {
    /// The store's constraints: unique user ids, unique usernames, unique
    /// session ids, and every session owned by an existing user.
    pub open spec fn inv(self) -> bool {
        &&& forall|i: int, j: int|
            0 <= i < j < self.users.len() ==> (#[trigger] self.users[i]).id != (
            #[trigger] self.users[j]).id
        &&& forall|i: int, j: int|
            0 <= i < j < self.users.len() ==> (#[trigger] self.users[i]).username@ != (
            #[trigger] self.users[j]).username@
        &&& forall|i: int, j: int|
            0 <= i < j < self.sessions.len() ==> (#[trigger] self.sessions[i]).id != (
            #[trigger] self.sessions[j]).id
        &&& forall|i: int|
            0 <= i < self.sessions.len() ==> contains_user_id(
                self.users,
                (#[trigger] self.sessions[i]).user_id,
            )
    }
}

/// The backing store: a user table and a session table.
pub struct Db {
    pub(crate) users: Vec<User>,
    pub(crate) sessions: Vec<Session>,
}

impl View for Db {
    type V = DbView;

    open(crate) spec fn view(&self) -> DbView {
        DbView { users: self.users@, sessions: self.sessions@ }
    }
}

impl Db {
    /// The store's constraints hold; established by [`Db::new`] and
    /// preserved by every store operation.
    pub open spec fn wf(&self) -> bool {
        self@.inv()
    }

    /// Creates an empty store.
    pub fn new() -> (db: Db)
        ensures
            db.wf(),
            db@.users == Seq::<User>::empty(),
            db@.sessions == Seq::<Session>::empty(),
    {
        Db { users: Vec::new(), sessions: Vec::new() }
    }
}

/// Filtering one further row either keeps it or drops it.
pub(crate) proof fn lemma_take_one_more_filter<A>(s: Seq<A>, pred: spec_fn(A) -> bool, i: int)
    requires
        0 <= i < s.len(),
    ensures
        s.take(i + 1).filter(pred) == if pred(s[i]) {
            s.take(i).filter(pred).push(s[i])
        } else {
            s.take(i).filter(pred)
        },
{
    reveal(Seq::filter);
    assert(s.take(i + 1).drop_last() =~= s.take(i));
    assert(s.take(i + 1).last() == s[i]);
}

/// Every session row kept by a filter occurs in the unfiltered table.
pub(crate) proof fn lemma_session_filter_subset(s: Seq<Session>, pred: spec_fn(Session) -> bool)
    ensures
        forall|i: int|
            0 <= i < s.filter(pred).len() ==> s.contains(#[trigger] s.filter(pred)[i]),
    decreases s.len(),
{
    reveal(Seq::filter);
    if s.len() > 0 {
        lemma_session_filter_subset(s.drop_last(), pred);
        let out = s.filter(pred);
        let sub = s.drop_last().filter(pred);
        assert forall|i: int| 0 <= i < out.len() implies s.contains(out[i]) by {
            if i < sub.len() {
                assert(s.drop_last().contains(sub[i]));
                let j = choose|j: int|
                    0 <= j < s.drop_last().len() && s.drop_last()[j] == sub[i];
                assert(s[j] == out[i]);
            } else {
                assert(out[i] == s[s.len() - 1]);
            }
        }
    }
}

/// Filtering a session table with pairwise-distinct ids leaves the kept
/// ids pairwise distinct.
pub(crate) proof fn lemma_session_filter_distinct(s: Seq<Session>, pred: spec_fn(Session) -> bool)
    requires
        forall|i: int, j: int|
            0 <= i < j < s.len() ==> (#[trigger] s[i]).id != (#[trigger] s[j]).id,
    ensures
        forall|i: int, j: int|
            0 <= i < j < s.filter(pred).len() ==> (#[trigger] s.filter(pred)[i]).id != (
            #[trigger] s.filter(pred)[j]).id,
    decreases s.len(),
{
    reveal(Seq::filter);
    if s.len() > 0 {
        let last = s[s.len() - 1];
        assert(forall|i: int, j: int|
            0 <= i < j < s.drop_last().len() ==> (#[trigger] s.drop_last()[i]).id != (
            #[trigger] s.drop_last()[j]).id);
        lemma_session_filter_distinct(s.drop_last(), pred);
        lemma_session_filter_subset(s.drop_last(), pred);
        let out = s.filter(pred);
        let sub = s.drop_last().filter(pred);
        assert forall|i: int, j: int|
            0 <= i < j < out.len() implies (#[trigger] out[i]).id != (#[trigger] out[j]).id by {
            if j < sub.len() {
                assert(out[i] == sub[i] && out[j] == sub[j]);
            } else {
                assert(out[j] == last);
                assert(s.drop_last().contains(sub[i]));
                let k = choose|k: int|
                    0 <= k < s.drop_last().len() && s.drop_last()[k] == sub[i];
                assert(s[k] == out[i] && 0 <= k < s.len() - 1);
            }
        }
    }
}

/// Every user row kept by a filter occurs in the unfiltered table.
pub(crate) proof fn lemma_user_filter_subset(s: Seq<User>, pred: spec_fn(User) -> bool)
    ensures
        forall|i: int|
            0 <= i < s.filter(pred).len() ==> s.contains(#[trigger] s.filter(pred)[i]),
    decreases s.len(),
{
    reveal(Seq::filter);
    if s.len() > 0 {
        lemma_user_filter_subset(s.drop_last(), pred);
        let out = s.filter(pred);
        let sub = s.drop_last().filter(pred);
        assert forall|i: int| 0 <= i < out.len() implies s.contains(out[i]) by {
            if i < sub.len() {
                assert(s.drop_last().contains(sub[i]));
                let j = choose|j: int|
                    0 <= j < s.drop_last().len() && s.drop_last()[j] == sub[i];
                assert(s[j] == out[i]);
            } else {
                assert(out[i] == s[s.len() - 1]);
            }
        }
    }
}

/// Filtering a user table with pairwise-distinct ids and usernames leaves
/// both pairwise distinct.
pub(crate) proof fn lemma_user_filter_distinct(s: Seq<User>, pred: spec_fn(User) -> bool)
    requires
        forall|i: int, j: int|
            0 <= i < j < s.len() ==> (#[trigger] s[i]).id != (#[trigger] s[j]).id,
        forall|i: int, j: int|
            0 <= i < j < s.len() ==> (#[trigger] s[i]).username@ != (#[trigger] s[j]).username@,
    ensures
        forall|i: int, j: int|
            0 <= i < j < s.filter(pred).len() ==> (#[trigger] s.filter(pred)[i]).id != (
            #[trigger] s.filter(pred)[j]).id,
        forall|i: int, j: int|
            0 <= i < j < s.filter(pred).len() ==> (#[trigger] s.filter(pred)[i]).username@ != (
            #[trigger] s.filter(pred)[j]).username@,
    decreases s.len(),
{
    reveal(Seq::filter);
    if s.len() > 0 {
        let last = s[s.len() - 1];
        assert(forall|i: int, j: int|
            0 <= i < j < s.drop_last().len() ==> (#[trigger] s.drop_last()[i]).id != (
            #[trigger] s.drop_last()[j]).id);
        assert(forall|i: int, j: int|
            0 <= i < j < s.drop_last().len() ==> (#[trigger] s.drop_last()[i]).username@ != (
            #[trigger] s.drop_last()[j]).username@);
        lemma_user_filter_distinct(s.drop_last(), pred);
        lemma_user_filter_subset(s.drop_last(), pred);
        let out = s.filter(pred);
        let sub = s.drop_last().filter(pred);
        assert forall|i: int, j: int|
            0 <= i < j < out.len() implies (#[trigger] out[i]).id != (#[trigger] out[j]).id && (
        #[trigger] out[i]).username@ != (#[trigger] out[j]).username@ by {
            if j < sub.len() {
                assert(out[i] == sub[i] && out[j] == sub[j]);
            } else {
                assert(out[j] == last);
                assert(s.drop_last().contains(sub[i]));
                let k = choose|k: int|
                    0 <= k < s.drop_last().len() && s.drop_last()[k] == sub[i];
                assert(s[k] == out[i] && 0 <= k < s.len() - 1);
            }
        }
    }
}

} // verus!
