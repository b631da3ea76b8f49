//! The user table: account records keyed by id, with unique usernames.

use vstd::prelude::*;
use crate::password::password_verifies;
use crate::password::verify_password;
use crate::store::Db;
use crate::store::DbView;
use crate::store::StoreError;
use crate::store::contains_user_id;
use crate::store::contains_username;
use crate::store::is_user_with_id;
use crate::store::is_user_with_username;
use crate::store::keeps_sessions_of_others;
use crate::store::keeps_user;
use crate::store::remove_user;

verus! {

/// Some account carries `username` and its stored hash accepts `password`.
pub open spec fn check_login_ok(db: DbView, username: Seq<char>, password: Seq<char>) -> bool {
    exists|i: int|
        0 <= i < db.users.len() && (#[trigger] db.users[i]).username@ == username
            && password_verifies(password, db.users[i].password_hash@)
}

/// An account record.
#[derive(Debug)]
pub struct User {
    pub id: u128,
    pub username: String,
    pub password_hash: String,
    pub email: Option<String>,
    pub created_at: i64,
}

impl User {
    /// An owned copy of this record.
    pub fn duplicate(&self) -> (r: User)
        ensures
            r == *self,
    {
        let email = match &self.email {
            Some(e) => Some(e.clone()),
            None => None,
        };
        User {
            id: self.id,
            username: self.username.clone(),
            password_hash: self.password_hash.clone(),
            email,
            created_at: self.created_at,
        }
    }
}

/// Index of the user row with id `id`, if any.
fn find_by_id(users: &Vec<User>, id: u128) -> (r: Option<usize>)
    ensures
        match r {
            Some(i) => i < users@.len() && users@[i as int].id == id,
            None => !contains_user_id(users@, id),
        },
{
    let n = users.len();
    let mut i: usize = 0;
    while i < n
        invariant
            i <= n,
            n == users@.len(),
            forall|j: int| 0 <= j < i ==> (#[trigger] users@[j]).id != id,
        decreases n - i,
    {
        if users[i].id == id {
            return Some(i);
        }
        i = i + 1;
    }
    None
}

impl User {
    /// Inserts a new account; fails with `Conflict` when the id or the
    /// username is already taken, and changes nothing in that case.
    pub fn insert(db: &mut Db, user: &User) -> (r: Result<(), StoreError>)
        requires
            old(db).wf(),
        ensures
            final(db).wf(),
            match r {
                Ok(()) => {
                    &&& !contains_user_id(old(db)@.users, user.id)
                    &&& !contains_username(old(db)@.users, user.username@)
                    &&& final(db)@.users == old(db)@.users.push(*user)
                    &&& final(db)@.sessions == old(db)@.sessions
                },
                Err(e) => {
                    &&& e == StoreError::Conflict
                    &&& contains_user_id(old(db)@.users, user.id) || contains_username(
                        old(db)@.users,
                        user.username@,
                    )
                    &&& final(db)@ == old(db)@
                },
            },
    {
        if let Some(_) = find_by_id(&db.users, user.id) {
            return Err(StoreError::Conflict);
        }
        if let Some(_) = find_by_username(&db.users, user.username.as_str()) {
            return Err(StoreError::Conflict);
        }
        db.users.push(user.duplicate());
        proof {
            let users0 = old(db)@.users;
            let u = *user;
            assert forall|j: int| 0 <= j < users0.len() implies (#[trigger] users0[j]).id != u.id by {
                if users0[j].id == u.id {
                    assert(contains_user_id(users0, u.id));
                }
            }
            assert forall|j: int|
                0 <= j < users0.len() implies (#[trigger] users0[j]).username@ != u.username@ by {
                if users0[j].username@ == u.username@ {
                    assert(contains_username(users0, u.username@));
                }
            }
            assert forall|i: int|
                0 <= i < db@.sessions.len() implies contains_user_id(
                db@.users,
                (#[trigger] db@.sessions[i]).user_id,
            ) by {
                assert(contains_user_id(users0, old(db)@.sessions[i].user_id));
                let k = choose|k: int|
                    0 <= k < users0.len() && (#[trigger] users0[k]).id == old(
                        db,
                    )@.sessions[i].user_id;
                assert(db@.users[k] == users0[k]);
            }
        }
        Ok(())
    }

    /// Looks an account up by id; `NotFound` when no row carries it.
    pub fn get_by_id(db: &Db, user_id: u128) -> (r: Result<User, StoreError>)
        requires
            db.wf(),
        ensures
            match r {
                Ok(u) => is_user_with_id(db@.users, user_id, u),
                Err(e) => e == StoreError::NotFound && !contains_user_id(db@.users, user_id),
            },
    {
        match find_by_id(&db.users, user_id) {
            Some(i) => {
                let u = db.users[i].duplicate();
                Ok(u)
            },
            None => Err(StoreError::NotFound),
        }
    }

    /// Looks an account up by username; `NotFound` when no row carries it.
    pub fn get_by_username(db: &Db, username: &str) -> (r: Result<User, StoreError>)
        requires
            db.wf(),
        ensures
            match r {
                Ok(u) => is_user_with_username(db@.users, username@, u),
                Err(e) => e == StoreError::NotFound && !contains_username(db@.users, username@),
            },
    {
        match find_by_username(&db.users, username) {
            Some(i) => {
                let u = db.users[i].duplicate();
                Ok(u)
            },
            None => Err(StoreError::NotFound),
        }
    }

    /// Checks a username and password combination and returns the account
    /// when it is valid. An unknown username and a wrong password are
    /// indistinguishable: both yield `None`.
    pub fn check_login(db: &Db, username: &str, password: &str) -> (r: Option<User>)
        requires
            db.wf(),
        ensures
            r is Some <==> check_login_ok(db@, username@, password@),
            match r {
                Some(u) => is_user_with_username(db@.users, username@, u) && password_verifies(
                    password@,
                    u.password_hash@,
                ),
                None => true,
            },
    {
        proof {
            assert(db.users@ == db@.users);
        }
        match find_by_username(&db.users, username) {
            Some(i) => {
                if verify_password(password, db.users[i].password_hash.as_str()) {
                    Some(db.users[i].duplicate())
                } else {
                    proof {
                        assert forall|j: int|
                            0 <= j < db@.users.len() && (#[trigger] db@.users[j]).username@
                                == username@ implies !password_verifies(
                            password@,
                            db@.users[j].password_hash@,
                        ) by {
                            assert(db@.users[i as int].username@ == username@);
                            if j != i {
                                if j < i {
                                    assert(db@.users[j].username@ != db@.users[i as int].username@);
                                } else {
                                    assert(db@.users[i as int].username@ != db@.users[j].username@);
                                }
                            }
                        }
                    }
                    None
                }
            },
            None => None,
        }
    }

    /// Replaces the account's email address. `NotFound` when no account
    /// carries `user_id`; nothing else changes either way.
    pub fn update_email(db: &mut Db, user_id: u128, email: Option<String>) -> (r: Result<
        (),
        StoreError,
    >)
        requires
            old(db).wf(),
        ensures
            final(db).wf(),
            final(db)@.sessions == old(db)@.sessions,
            match r {
                Ok(()) => exists|i: int|
                    {
                        &&& 0 <= i < old(db)@.users.len()
                        &&& (#[trigger] old(db)@.users[i]).id == user_id
                        &&& final(db)@.users == old(db)@.users.update(
                            i,
                            User {
                                id: old(db)@.users[i].id,
                                username: old(db)@.users[i].username,
                                password_hash: old(db)@.users[i].password_hash,
                                email: email,
                                created_at: old(db)@.users[i].created_at,
                            },
                        )
                    },
                Err(e) => e == StoreError::NotFound && !contains_user_id(old(db)@.users, user_id)
                    && final(db)@ == old(db)@,
            },
    {
        let i = match find_by_id(&db.users, user_id) {
            Some(i) => i,
            None => {
                return Err(StoreError::NotFound);
            },
        };
        let row = &mut db.users[i];
        row.email = email;
        proof {
            lemma_user_row_update_wf(old(db)@, db@, i as int);
        }
        Ok(())
    }

    /// Replaces the account's username. `Conflict` when a different account
    /// already carries `new_username`; `NotFound` when no account carries
    /// `user_id`; nothing changes on failure.
    pub fn update_username(db: &mut Db, user_id: u128, new_username: String) -> (r: Result<
        (),
        StoreError,
    >)
        requires
            old(db).wf(),
        ensures
            final(db).wf(),
            final(db)@.sessions == old(db)@.sessions,
            match r {
                Ok(()) => ({
                    &&& !(exists|j: int|
                        0 <= j < old(db)@.users.len() && (#[trigger] old(db)@.users[j]).username@
                            == new_username@ && old(db)@.users[j].id != user_id)
                    &&& exists|i: int|
                        {
                            &&& 0 <= i < old(db)@.users.len()
                            &&& (#[trigger] old(db)@.users[i]).id == user_id
                            &&& final(db)@.users == old(db)@.users.update(
                                i,
                                User {
                                    id: old(db)@.users[i].id,
                                    username: new_username,
                                    password_hash: old(db)@.users[i].password_hash,
                                    email: old(db)@.users[i].email,
                                    created_at: old(db)@.users[i].created_at,
                                },
                            )
                        }
                }),
                Err(e) => final(db)@ == old(db)@ && match e {
                    StoreError::NotFound => !contains_user_id(old(db)@.users, user_id),
                    StoreError::Conflict => exists|j: int|
                        0 <= j < old(db)@.users.len() && (#[trigger] old(db)@.users[j]).username@
                            == new_username@ && old(db)@.users[j].id != user_id,
                    StoreError::ForeignKeyViolation => false,
                },
            },
    {
        proof {
            assert(db.users@ == db@.users);
        }
        let i = match find_by_id(&db.users, user_id) {
            Some(i) => i,
            None => {
                return Err(StoreError::NotFound);
            },
        };
        match find_by_username(&db.users, new_username.as_str()) {
            Some(j) => {
                if db.users[j].id != user_id {
                    return Err(StoreError::Conflict);
                }
                proof {
                    lemma_unique_username_holder(db@, j as int, new_username@, user_id);
                }
            },
            None => {
            },
        }
        let row = &mut db.users[i];
        row.username = new_username;
        proof {
            lemma_user_row_rename_wf(old(db)@, db@, i as int);
        }
        Ok(())
    }

    /// Replaces the account's password hash. `NotFound` when no account
    /// carries `user_id`; nothing else changes either way.
    pub fn update_password_hash(db: &mut Db, user_id: u128, new_hash: String) -> (r: Result<
        (),
        StoreError,
    >)
        requires
            old(db).wf(),
        ensures
            final(db).wf(),
            final(db)@.sessions == old(db)@.sessions,
            match r {
                Ok(()) => exists|i: int|
                    {
                        &&& 0 <= i < old(db)@.users.len()
                        &&& (#[trigger] old(db)@.users[i]).id == user_id
                        &&& final(db)@.users == old(db)@.users.update(
                            i,
                            User {
                                id: old(db)@.users[i].id,
                                username: old(db)@.users[i].username,
                                password_hash: new_hash,
                                email: old(db)@.users[i].email,
                                created_at: old(db)@.users[i].created_at,
                            },
                        )
                    },
                Err(e) => e == StoreError::NotFound && !contains_user_id(old(db)@.users, user_id)
                    && final(db)@ == old(db)@,
            },
    {
        let i = match find_by_id(&db.users, user_id) {
            Some(i) => i,
            None => {
                return Err(StoreError::NotFound);
            },
        };
        let row = &mut db.users[i];
        row.password_hash = new_hash;
        proof {
            lemma_user_row_update_wf(old(db)@, db@, i as int);
        }
        Ok(())
    }

    /// Deletes the account with this id and cascades the deletion to all of
    /// its sessions. Returns the number of accounts removed: idempotent,
    /// `0` rather than an error when no row matches.
    pub fn delete_by_id(db: &mut Db, user_id: u128) -> (r: u64)
        requires
            old(db).wf(),
        ensures
            final(db).wf(),
            final(db)@ == remove_user(old(db)@, user_id),
            r == 1 <==> contains_user_id(old(db)@.users, user_id),
            r == 0 <==> !contains_user_id(old(db)@.users, user_id),
    {
        let mut kept_users: Vec<User> = Vec::new();
        let n = db.users.len();
        let mut i: usize = 0;
        let mut removed: u64 = 0;
        while i < n
            invariant
                *db == *old(db),
                i <= n,
                n == db.users@.len(),
                kept_users@ == db.users@.take(i as int).filter(keeps_user(user_id)),
                removed == db.users@.take(i as int).len() - db.users@.take(i as int).filter(
                    keeps_user(user_id),
                ).len(),
                removed <= i,
            decreases n - i,
        {
            proof {
                crate::store::lemma_take_one_more_filter(db.users@, keeps_user(user_id), i as int);
            }
            if db.users[i].id != user_id {
                kept_users.push(db.users[i].duplicate());
            } else {
                removed = removed + 1;
            }
            i = i + 1;
        }
        let mut kept_sessions: Vec<crate::models::session::Session> = Vec::new();
        let m = db.sessions.len();
        let mut k: usize = 0;
        while k < m
            invariant
                *db == *old(db),
                k <= m,
                m == db.sessions@.len(),
                kept_sessions@ == db.sessions@.take(k as int).filter(
                    keeps_sessions_of_others(user_id),
                ),
            decreases m - k,
        {
            proof {
                crate::store::lemma_take_one_more_filter(
                    db.sessions@,
                    keeps_sessions_of_others(user_id),
                    k as int,
                );
            }
            if db.sessions[k].user_id != user_id {
                kept_sessions.push(db.sessions[k].duplicate());
            }
            k = k + 1;
        }
        proof {
            assert(db.users@.take(n as int) =~= db.users@);
            assert(db.sessions@.take(m as int) =~= db.sessions@);
            assert(db@.users == db.users@ && db@.sessions == db.sessions@);
            lemma_user_filter_unique_len(db@.users, user_id);
            crate::store::lemma_user_filter_distinct(db@.users, keeps_user(user_id));
            crate::store::lemma_session_filter_distinct(
                db@.sessions,
                keeps_sessions_of_others(user_id),
            );
            crate::store::lemma_session_filter_subset(
                db@.sessions,
                keeps_sessions_of_others(user_id),
            );
        }
        let ghost db0 = db@;
        db.users = kept_users;
        db.sessions = kept_sessions;
        proof {
            assert(db@ =~= remove_user(db0, user_id));
            broadcast use vstd::seq_lib::group_filter_ensures;

            assert forall|s: int|
                0 <= s < db@.sessions.len() implies contains_user_id(
                db@.users,
                (#[trigger] db@.sessions[s]).user_id,
            ) by {
                assert(db0.sessions.contains(db@.sessions[s]));
                let k2 = choose|k2: int|
                    0 <= k2 < db0.sessions.len() && db0.sessions[k2] == db@.sessions[s];
                assert(contains_user_id(db0.users, (db0.sessions[k2]).user_id));
                let j = choose|j: int|
                    0 <= j < db0.users.len() && (#[trigger] db0.users[j]).id
                        == db0.sessions[k2].user_id;
                assert(keeps_sessions_of_others(user_id)(db@.sessions[s]));
                assert(db@.sessions[s].user_id != user_id);
                assert(keeps_user(user_id)(db0.users[j]));
                assert(db@.users.contains(db0.users[j]));
                let j2 = choose|j2: int|
                    0 <= j2 < db@.users.len() && db@.users[j2] == db0.users[j];
                assert((db@.users[j2]).id == db@.sessions[s].user_id);
            }
        }
        removed
    }
}

/// A row replacement that keeps id and username preserves the store's
/// constraints.
proof fn lemma_user_row_update_wf(db0: DbView, db1: DbView, i: int)
    requires
        db0.inv(),
        0 <= i < db0.users.len(),
        db1.sessions == db0.sessions,
        db1.users.len() == db0.users.len(),
        forall|j: int| 0 <= j < db0.users.len() && j != i ==> db1.users[j] == db0.users[j],
        db1.users[i].id == db0.users[i].id,
        db1.users[i].username@ == db0.users[i].username@,
    ensures
        db1.inv(),
{
    assert forall|a: int, b: int|
        0 <= a < b < db1.users.len() implies (#[trigger] db1.users[a]).id != (
    #[trigger] db1.users[b]).id && db1.users[a].username@ != db1.users[b].username@ by {
        assert(db0.users[a].id != db0.users[b].id);
        assert(db0.users[a].username@ != db0.users[b].username@);
    }
    assert forall|s: int|
        0 <= s < db1.sessions.len() implies contains_user_id(
        db1.users,
        (#[trigger] db1.sessions[s]).user_id,
    ) by {
        assert(contains_user_id(db0.users, (db0.sessions[s]).user_id));
        let k = choose|k: int|
            0 <= k < db0.users.len() && (#[trigger] db0.users[k]).id == db0.sessions[s].user_id;
        assert((db1.users[k]).id == db0.users[k].id);
    }
}

/// A row replacement that keeps the id and introduces a username carried
/// by no other row preserves the store's constraints.
proof fn lemma_user_row_rename_wf(db0: DbView, db1: DbView, i: int)
    requires
        db0.inv(),
        0 <= i < db0.users.len(),
        db1.sessions == db0.sessions,
        db1.users.len() == db0.users.len(),
        forall|j: int| 0 <= j < db0.users.len() && j != i ==> db1.users[j] == db0.users[j],
        db1.users[i].id == db0.users[i].id,
        forall|j: int|
            0 <= j < db0.users.len() && j != i ==> (#[trigger] db0.users[j]).username@
                != db1.users[i].username@,
    ensures
        db1.inv(),
{
    assert forall|a: int, b: int|
        0 <= a < b < db1.users.len() implies (#[trigger] db1.users[a]).id != (
    #[trigger] db1.users[b]).id && db1.users[a].username@ != db1.users[b].username@ by {
        assert(db0.users[a].id != db0.users[b].id);
        if a != i && b != i {
            assert(db0.users[a].username@ != db0.users[b].username@);
        }
    }
    assert forall|s: int|
        0 <= s < db1.sessions.len() implies contains_user_id(
        db1.users,
        (#[trigger] db1.sessions[s]).user_id,
    ) by {
        assert(contains_user_id(db0.users, (db0.sessions[s]).user_id));
        let k = choose|k: int|
            0 <= k < db0.users.len() && (#[trigger] db0.users[k]).id == db0.sessions[s].user_id;
        assert((db1.users[k]).id == db0.users[k].id);
    }
}

/// The first row carrying a username is the only row carrying it.
proof fn lemma_unique_username_holder(db: DbView, j: int, name: Seq<char>, user_id: u128)
    requires
        db.inv(),
        0 <= j < db.users.len(),
        db.users[j].username@ == name,
        db.users[j].id == user_id,
    ensures
        forall|k: int|
            0 <= k < db.users.len() && (#[trigger] db.users[k]).username@ == name ==> db.users[k].id
                == user_id,
{
    assert forall|k: int|
        0 <= k < db.users.len() && (#[trigger] db.users[k]).username@ == name implies db.users[k].id
        == user_id by {
        if k != j {
            if k < j {
                assert(db.users[k].username@ != db.users[j].username@);
            } else {
                assert(db.users[j].username@ != db.users[k].username@);
            }
        }
    }
}

/// With pairwise-distinct ids, a deletion keeps either every row or all
/// but one.
proof fn lemma_user_filter_unique_len(s: Seq<User>, id: u128)
    requires
        forall|i: int, j: int|
            0 <= i < j < s.len() ==> (#[trigger] s[i]).id != (#[trigger] s[j]).id,
    ensures
        s.filter(keeps_user(id)).len() == if contains_user_id(s, id) {
            s.len() - 1
        } else {
            s.len() as int
        },
    decreases s.len(),
{
    reveal(Seq::filter);
    if s.len() > 0 {
        let prefix = s.drop_last();
        assert(forall|i: int, j: int|
            0 <= i < j < prefix.len() ==> (#[trigger] prefix[i]).id != (#[trigger] prefix[j]).id);
        lemma_user_filter_unique_len(prefix, id);
        if s[s.len() - 1].id == id {
            assert(contains_user_id(s, id));
            assert(!contains_user_id(prefix, id)) by {
                if contains_user_id(prefix, id) {
                    let k = choose|k: int| 0 <= k < prefix.len() && (#[trigger] prefix[k]).id == id;
                    assert(s[k].id == s[s.len() - 1].id);
                }
            }
        } else {
            assert(contains_user_id(s, id) == contains_user_id(prefix, id)) by {
                if contains_user_id(s, id) {
                    let k = choose|k: int| 0 <= k < s.len() && (#[trigger] s[k]).id == id;
                    assert(prefix[k].id == id);
                }
                if contains_user_id(prefix, id) {
                    let k = choose|k: int| 0 <= k < prefix.len() && (#[trigger] prefix[k]).id == id;
                    assert(s[k].id == id);
                }
            }
        }
    }
}

/// Index of the user row with username `name`, if any.
fn find_by_username(users: &Vec<User>, name: &str) -> (r: Option<usize>)
    ensures
        match r {
            Some(i) => i < users@.len() && users@[i as int].username@ == name@,
            None => !contains_username(users@, name@),
        },
{
    let n = users.len();
    let mut i: usize = 0;
    while i < n
        invariant
            i <= n,
            n == users@.len(),
            forall|j: int| 0 <= j < i ==> (#[trigger] users@[j]).username@ != name@,
        decreases n - i,
    {
        if crate::text::str_eq(users[i].username.as_str(), name) {
            return Some(i);
        }
        i = i + 1;
    }
    None
}

} // verus!
