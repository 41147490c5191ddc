use crate::errors::AppError;
use crate::user::User;
use crate::user::UserView;
use vstd::prelude::*;

verus! {

/// Whether some record in `s` carries this username.
pub open spec fn contains_username(s: Seq<UserView>, name: Seq<char>) -> bool {
    exists|j: int| 0 <= j < s.len() && #[trigger] s[j].username == name
}

/// Whether some record in `s` carries this user id.
pub open spec fn contains_uuid(s: Seq<UserView>, uuid: u128) -> bool {
    exists|j: int| 0 <= j < s.len() && #[trigger] s[j].uuid == uuid
}

/// The `users` table: the relational store of user records. The store
/// itself enforces the uniqueness of usernames and ids, and is the single
/// source of truth for conflicting concurrent creates.
pub struct UsersTable {
    users: Vec<User>,
}

impl View for UsersTable {
    type V = Seq<UserView>;

    closed spec fn view(&self) -> Seq<UserView> {
        self.users.deep_view()
    }
}

impl UsersTable {
    /// Uniqueness constraints on (username) and (uuid).
    pub open spec fn inv(self) -> bool {
        forall|j: int, k: int|
            0 <= j < k < self@.len() ==> (#[trigger] self@[j]).username != (#[trigger] self@[k]).username
                && self@[j].uuid != self@[k].uuid
    }

    /// An empty table.
    pub fn new() -> (t: UsersTable)
        ensures
            t@ =~= Seq::<UserView>::empty(),
            t.inv(),
    {
        let t = UsersTable { users: Vec::new() };
        proof {
            assert(t@ =~= Seq::<UserView>::empty());
        }
        t
    }

    /// Insert a new user. A taken username is refused by the uniqueness
    /// constraint; a colliding id, or any other store failure (`insert_ok`
    /// false), is an internal error. Otherwise the record is appended.
    #[verifier::loop_isolation(false)]
    pub fn insert(&mut self, user: User, insert_ok: bool) -> (r: Result<(), AppError>)
        requires
            old(self).inv(),
        ensures
            final(self).inv(),
            ({
                let s = old(self)@;
                if contains_username(s, user@.username) {
                    final(self)@ == s && r == Err::<(), AppError>(AppError::Validation)
                } else if contains_uuid(s, user@.uuid) || !insert_ok {
                    final(self)@ == s && r == Err::<(), AppError>(AppError::Internal)
                } else {
                    final(self)@ == s.push(user@) && r == Ok::<(), AppError>(())
                }
            }),
    {
        let n = self.users.len();
        let mut j: usize = 0;
        while j < n
            invariant
                j <= n,
                n == old(self)@.len(),
                self@ == old(self)@,
                self.inv(),
                forall|k: int| 0 <= k < j ==> #[trigger] old(self)@[k].username != user@.username,
            decreases n - j,
        {
            if self.users[j].username == user.username {
                proof {
                    assert(old(self)@[j as int].username == user@.username);
                }
                return Err(AppError::Validation);
            }
            j += 1;
        }
        let mut j: usize = 0;
        while j < n
            invariant
                j <= n,
                n == old(self)@.len(),
                self@ == old(self)@,
                self.inv(),
                forall|k: int| 0 <= k < j ==> #[trigger] old(self)@[k].uuid != user@.uuid,
            decreases n - j,
        {
            if self.users[j].uuid == user.uuid {
                proof {
                    assert(old(self)@[j as int].uuid == user@.uuid);
                }
                return Err(AppError::Internal);
            }
            j += 1;
        }
        if !insert_ok {
            return Err(AppError::Internal);
        }
        let ghost uv = user@;
        self.users.push(user);
        proof {
            assert(self@ =~= old(self)@.push(uv));
        }
        Ok(())
    }

    /// Look a user up by username.
    pub fn find_by_username(&self, name: &String) -> (r: Option<User>)
        ensures
            match r {
                Some(u) => self@.contains(u@) && u@.username == name@,
                None => !contains_username(self@, name@),
            },
    {
        let n = self.users.len();
        let mut j: usize = 0;
        while j < n
            invariant
                j <= n,
                n == self@.len(),
                forall|k: int| 0 <= k < j ==> #[trigger] self@[k].username != name@,
            decreases n - j,
        {
            if self.users[j].username == *name {
                let u = self.users[j].clone();
                proof {
                    assert(self@[j as int] == u@);
                }
                return Some(u);
            }
            j += 1;
        }
        None
    }

    /// Look a user up by id.
    pub fn find_by_uuid(&self, uuid: u128) -> (r: Option<User>)
        ensures
            match r {
                Some(u) => self@.contains(u@) && u@.uuid == uuid,
                None => !contains_uuid(self@, uuid),
            },
    {
        let n = self.users.len();
        let mut j: usize = 0;
        while j < n
            invariant
                j <= n,
                n == self@.len(),
                forall|k: int| 0 <= k < j ==> #[trigger] self@[k].uuid != uuid,
            decreases n - j,
        {
            if self.users[j].uuid == uuid {
                let u = self.users[j].clone();
                proof {
                    assert(self@[j as int] == u@);
                }
                return Some(u);
            }
            j += 1;
        }
        None
    }

    /// The atomic credential mutation behind a password change: the new
    /// digest and the rotated session epoch are persisted in one update, so
    /// they take effect together or — when the store refuses, `update_ok`
    /// false — not at all. No partial revocation.
    #[verifier::loop_isolation(false)]
    pub fn update_credentials(
        &mut self,
        uuid: u128,
        new_password: String,
        new_tokenid: u128,
        update_ok: bool,
    ) -> (r: Result<(), AppError>)
        requires
            old(self).inv(),
        ensures
            final(self).inv(),
            ({
                let s = old(self)@;
                if !update_ok {
                    final(self)@ == s && r == Err::<(), AppError>(AppError::Internal)
                } else if contains_uuid(s, uuid) {
                    r == Ok::<(), AppError>(()) && exists|j: int|
                        0 <= j < s.len() && #[trigger] s[j].uuid == uuid && final(self)@ == s.update(
                            j,
                            UserView { password: new_password@, tokenid: new_tokenid, ..s[j] },
                        )
                } else {
                    final(self)@ == s && r == Err::<(), AppError>(AppError::NotFound)
                }
            }),
    {
        if !update_ok {
            return Err(AppError::Internal);
        }
        let n = self.users.len();
        let mut j: usize = 0;
        while j < n
            invariant
                j <= n,
                n == old(self)@.len(),
                self@ == old(self)@,
                self.inv(),
                forall|k: int| 0 <= k < j ==> #[trigger] old(self)@[k].uuid != uuid,
            decreases n - j,
        {
            if self.users[j].uuid == uuid {
                let updated = User {
                    uuid: self.users[j].uuid,
                    username: self.users[j].username.clone(),
                    password: new_password,
                    email: self.users[j].email.clone(),
                    permission: self.users[j].permission,
                    tokenid: new_tokenid,
                    timestamp: self.users[j].timestamp,
                };
                let ghost upv = updated@;
                self.users.set(j, updated);
                proof {
                    assert(self@ =~= old(self)@.update(
                        j as int,
                        UserView { password: new_password@, tokenid: new_tokenid, ..old(self)@[j as int] },
                    ));
                    assert(0 <= j < old(self)@.len() && old(self)@[j as int].uuid == uuid && self@ == old(self)@.update(
                        j as int,
                        UserView { password: new_password@, tokenid: new_tokenid, ..old(self)@[j as int] },
                    ));
                    assert forall|a: int, b: int| 0 <= a < b < self@.len() implies self@[a].username
                        != self@[b].username && self@[a].uuid != self@[b].uuid by {
                        assert(old(self)@[a].username != old(self)@[b].username && old(self)@[a].uuid != old(self)@[b].uuid);
                        assert(self@[a].username == old(self)@[a].username && self@[a].uuid == old(self)@[a].uuid);
                        assert(self@[b].username == old(self)@[b].username && self@[b].uuid == old(self)@[b].uuid);
                    }
                }
                return Ok(());
            }
            j += 1;
        }
        Err(AppError::NotFound)
    }

    /// The simple metadata update behind a username change: the session
    /// epoch and the stored digest stay as they are, so tokens issued
    /// before the change keep working. A name already taken by another
    /// record is refused by the store's uniqueness constraint.
    #[verifier::loop_isolation(false)]
    pub fn update_username(&mut self, uuid: u128, new_username: String, update_ok: bool) -> (r:
        Result<(), AppError>)
        requires
            old(self).inv(),
        ensures
            final(self).inv(),
            ({
                let s = old(self)@;
                if !update_ok || contains_username(s, new_username@) {
                    final(self)@ == s && r == Err::<(), AppError>(AppError::Internal)
                } else if contains_uuid(s, uuid) {
                    r == Ok::<(), AppError>(()) && exists|j: int|
                        0 <= j < s.len() && #[trigger] s[j].uuid == uuid && final(self)@ == s.update(
                            j,
                            UserView { username: new_username@, ..s[j] },
                        )
                } else {
                    final(self)@ == s && r == Err::<(), AppError>(AppError::NotFound)
                }
            }),
    {
        if !update_ok {
            return Err(AppError::Internal);
        }
        let n = self.users.len();
        let mut j: usize = 0;
        while j < n
            invariant
                j <= n,
                n == old(self)@.len(),
                self@ == old(self)@,
                self.inv(),
                forall|k: int| 0 <= k < j ==> #[trigger] old(self)@[k].username != new_username@,
            decreases n - j,
        {
            if self.users[j].username == new_username {
                proof {
                    assert(old(self)@[j as int].username == new_username@);
                }
                return Err(AppError::Internal);
            }
            j += 1;
        }
        let mut j: usize = 0;
        while j < n
            invariant
                j <= n,
                n == old(self)@.len(),
                self@ == old(self)@,
                self.inv(),
                forall|k: int| 0 <= k < n ==> #[trigger] old(self)@[k].username != new_username@,
                forall|k: int| 0 <= k < j ==> #[trigger] old(self)@[k].uuid != uuid,
            decreases n - j,
        {
            if self.users[j].uuid == uuid {
                let updated = User {
                    uuid: self.users[j].uuid,
                    username: new_username,
                    password: self.users[j].password.clone(),
                    email: self.users[j].email.clone(),
                    permission: self.users[j].permission,
                    tokenid: self.users[j].tokenid,
                    timestamp: self.users[j].timestamp,
                };
                self.users.set(j, updated);
                proof {
                    assert(self@ =~= old(self)@.update(
                        j as int,
                        UserView { username: new_username@, ..old(self)@[j as int] },
                    ));
                    assert(0 <= j < old(self)@.len() && old(self)@[j as int].uuid == uuid && self@ == old(self)@.update(
                        j as int,
                        UserView { username: new_username@, ..old(self)@[j as int] },
                    ));
                    assert forall|a: int, b: int| 0 <= a < b < self@.len() implies self@[a].username
                        != self@[b].username && self@[a].uuid != self@[b].uuid by {
                        assert(old(self)@[a].username != old(self)@[b].username && old(self)@[a].uuid != old(self)@[b].uuid);
                        if a == j {
                            assert(self@[a].username == new_username@);
                            assert(self@[b].username == old(self)@[b].username);
                            assert(old(self)@[b].username != new_username@);
                        } else if b == j {
                            assert(self@[b].username == new_username@);
                            assert(self@[a].username == old(self)@[a].username);
                            assert(old(self)@[a].username != new_username@);
                        } else {
                            assert(self@[a].username == old(self)@[a].username);
                            assert(self@[b].username == old(self)@[b].username);
                        }
                        assert(self@[a].uuid == old(self)@[a].uuid && self@[b].uuid == old(self)@[b].uuid);
                    }
                }
                return Ok(());
            }
            j += 1;
        }
        Err(AppError::NotFound)
    }
}

} // verus!
