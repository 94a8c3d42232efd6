//! User accounts: registration with hashed passwords, credential checks,
//! and the admin-facing user management operations.

use vstd::prelude::*;

use crate::crypt::{hash_password, password_matches_hash, verify_password};

verus! {

/// The mathematical value of a [`User`].
pub ghost struct UserModel {
    pub id: i32,
    pub username: Seq<char>,
    pub password_hash: Seq<char>,
    pub created_at: i64,
    pub updated_at: i64,
    pub deleted_at: Option<i64>,
}

/// A registered account. Only the bcrypt hash of the password is stored,
/// never the password itself. Deletion is a soft delete.
#[derive(Debug)]
pub struct User {
    pub id: i32,
    pub username: String,
    pub password_hash: String,
    pub created_at: i64,
    pub updated_at: i64,
    pub deleted_at: Option<i64>,
}

impl View for User {
    type V = UserModel;

    open spec fn view(&self) -> UserModel {
        UserModel {
            id: self.id,
            username: self.username@,
            password_hash: self.password_hash@,
            created_at: self.created_at,
            updated_at: self.updated_at,
            deleted_at: self.deleted_at,
        }
    }
}

impl DeepView for User {
    type V = UserModel;

    open spec fn deep_view(&self) -> UserModel {
        self@
    }
}

impl Clone for User {
    fn clone(&self) -> (r: Self)
        ensures
            r@ == self@,
    {
        User {
            id: self.id,
            username: self.username.clone(),
            password_hash: self.password_hash.clone(),
            created_at: self.created_at,
            updated_at: self.updated_at,
            deleted_at: self.deleted_at,
        }
    }
}

impl User {
    /// A user not soft-deleted.
    pub open spec fn is_live(self) -> bool {
        self.deleted_at is None
    }
}

impl UserModel {
    /// A user not soft-deleted, at the model level.
    pub open spec fn is_live(self) -> bool {
        self.deleted_at is None
    }
}

/// A registration request carrying the raw password; it is hashed before
/// anything is stored.
#[derive(Debug)]
pub struct RegisterUserRequest {
    pub username: String,
    pub password: String,
}

/// The row shape an insertion writes: the password already hashed,
/// everything else assigned by the directory.
#[derive(Debug)]
pub struct NewUser {
    pub username: String,
    pub password_hash: String,
}

/// A login attempt carrying the raw password.
#[derive(Debug)]
pub struct LoginCredentials {
    pub username: String,
    pub password: String,
}

/// Why an account operation was refused.
#[derive(Clone, Copy, Debug, PartialEq, Eq, Structural)]
pub enum AccountError {
    /// Another account already carries the requested username.
    DuplicateUsername,
    /// The username is unknown or the password does not match; one answer
    /// for both, so a caller learns nothing about which usernames exist.
    InvalidCredentials,
    /// No live account with the requested id.
    NotFound,
    /// The hashing collaborator failed.
    HashFailure,
}

impl AccountError {
    /// The display name of the error.
    pub fn message(&self) -> (r: &'static str)
        ensures
            *self == AccountError::DuplicateUsername ==> r@ == "Username already taken"@,
            *self == AccountError::InvalidCredentials ==> r@ == "Invalid username or password"@,
            *self == AccountError::NotFound ==> r@ == "User not found"@,
            *self == AccountError::HashFailure ==> r@ == "Password hashing failed"@,
    {
        match self {
            AccountError::DuplicateUsername => "Username already taken",
            AccountError::InvalidCredentials => "Invalid username or password",
            AccountError::NotFound => "User not found",
            AccountError::HashFailure => "Password hashing failed",
        }
    }
}

pub struct UserDirectory {
    pub users: Vec<User>,
}

impl UserDirectory {
    /// Structural well-formedness: ids are assigned in insertion order
    /// starting at 1, and usernames are unique across all accounts,
    /// soft-deleted ones included.
    pub open spec fn wf(self) -> bool {
        &&& forall|i: int|
            0 <= i < self.users@.len() ==> (#[trigger] self.users@[i]).id == i + 1
        &&& forall|i: int, j: int|
            0 <= i < self.users@.len() && 0 <= j < self.users@.len() && i != j ==> (
            #[trigger] self.users@[i]).username@ != (#[trigger] self.users@[j]).username@
    }

    /// Some account, live or deleted, carries this username.
    pub open spec fn username_taken(self, name: Seq<char>) -> bool {
        exists|i: int|
            0 <= i < self.users@.len() && (#[trigger] self.users@[i]).username@ == name
    }

    /// The account carrying this username; meaningful only when one does,
    /// and unique because usernames are.
    pub open spec fn spec_user_named(self, name: Seq<char>) -> User
        recommends
            self.username_taken(name),
    {
        self.users@[choose|i: int|
            0 <= i < self.users@.len() && (#[trigger] self.users@[i]).username@ == name]
    }

    /// A live account with this id exists.
    pub open spec fn user_visible(self, user_id: i32) -> bool {
        1 <= user_id && user_id <= self.users@.len() && self.users@[user_id - 1].is_live()
    }

    pub fn new() -> (r: UserDirectory)
        ensures
            r.wf(),
            r.users@ == Seq::<User>::empty(),
    {
        let r = UserDirectory { users: Vec::new() };
        proof {
            assert(r.users@ =~= Seq::<User>::empty());
        }
        r
    }

    /// Whether any account, live or deleted, carries this username.
    #[verifier::loop_isolation(false)]
    pub fn username_exists(&self, name: &String) -> (r: bool)
        ensures
            r == self.username_taken(name@),
    {
        let mut i: usize = 0;
        while i < self.users.len()
            invariant
                i <= self.users@.len(),
                forall|j: int| 0 <= j < i ==> (#[trigger] self.users@[j]).username@ != name@,
            decreases self.users@.len() - i,
        {
            if self.users[i].username == *name {
                return true;
            }
            i = i + 1;
        }
        false
    }

    /// Stores an already-hashed account row, assigning the next id and
    /// both timestamps. Fails when any account carries the username.
    #[verifier::loop_isolation(false)]
    pub fn insert_user(&mut self, new_user: NewUser, now: i64) -> (r: Result<User, AccountError>)
        requires
            old(self).wf(),
            old(self).users@.len() < i32::MAX as int,
        ensures
            final(self).wf(),
            old(self).username_taken(new_user.username@) ==> r == Err::<User, AccountError>(
                AccountError::DuplicateUsername,
            ) && *final(self) == *old(self),
            !old(self).username_taken(new_user.username@) ==> {
                &&& final(self).users@ == old(self).users@.push(
                    User {
                        id: (old(self).users@.len() + 1) as i32,
                        username: new_user.username,
                        password_hash: new_user.password_hash,
                        created_at: now,
                        updated_at: now,
                        deleted_at: None,
                    },
                )
                &&& r matches Ok(u) && u@ == final(self).users@.last()@
            },
    {
        let mut i: usize = 0;
        while i < self.users.len()
            invariant
                i <= self.users@.len(),
                forall|j: int|
                    0 <= j < i ==> (#[trigger] self.users@[j]).username@ != new_user.username@,
            decreases self.users@.len() - i,
        {
            if self.users[i].username == new_user.username {
                return Err(AccountError::DuplicateUsername);
            }
            i = i + 1;
        }
        let id: i32 = self.users.len() as i32 + 1;
        let user = User {
            id,
            username: new_user.username,
            password_hash: new_user.password_hash,
            created_at: now,
            updated_at: now,
            deleted_at: None,
        };
        let copy = user.clone();
        self.users.push(user);
        Ok(copy)
    }

    /// Registers an account: hashes the raw password, then stores the row
    /// unless the username is taken.
    pub fn register_user(&mut self, request: RegisterUserRequest, now: i64) -> (r: Result<
        User,
        AccountError,
    >)
        requires
            old(self).wf(),
            old(self).users@.len() < i32::MAX as int,
        ensures
            final(self).wf(),
            old(self).username_taken(request.username@) ==> r == Err::<User, AccountError>(
                AccountError::DuplicateUsername,
            ) && *final(self) == *old(self),
            !old(self).username_taken(request.username@) ==> (r is Ok || r == Err::<
                User,
                AccountError,
            >(AccountError::HashFailure)),
            r == Err::<User, AccountError>(AccountError::HashFailure) ==> *final(self) == *old(
                self,
            ),
            r matches Ok(u) ==> {
                &&& u@ == (UserModel {
                    id: (old(self).users@.len() + 1) as i32,
                    username: request.username@,
                    password_hash: u@.password_hash,
                    created_at: now,
                    updated_at: now,
                    deleted_at: None,
                })
                &&& password_matches_hash(request.password@, u@.password_hash)
                &&& final(self).users.deep_view() == old(self).users.deep_view().push(u@)
            },
    {
        if self.username_exists(&request.username) {
            return Err(AccountError::DuplicateUsername);
        }
        let hashed = match hash_password(request.password.as_str()) {
            Ok(h) => h,
            Err(_) => {
                return Err(AccountError::HashFailure);
            },
        };
        let r = self.insert_user(
            NewUser { username: request.username, password_hash: hashed },
            now,
        );
        proof {
            if r is Ok {
                assert(final(self).users.deep_view() =~= old(self).users.deep_view().push(
                    final(self).users@.last()@,
                ));
            }
        }
        r
    }

    /// Looks the account for this username up and holds the raw password
    /// against its stored hash. Unknown usernames and wrong passwords get
    /// the same answer.
    #[verifier::loop_isolation(false)]
    pub fn find_user_by_username_and_verify_password(&self, credentials: &LoginCredentials) -> (r:
        Result<User, AccountError>)
        requires
            self.wf(),
        ensures
            !self.username_taken(credentials.username@) ==> r == Err::<User, AccountError>(
                AccountError::InvalidCredentials,
            ),
            self.username_taken(credentials.username@) ==> {
                let named = self.spec_user_named(credentials.username@);
                match r {
                    Ok(u) => u@ == named@ && password_matches_hash(
                        credentials.password@,
                        named.password_hash@,
                    ),
                    Err(e) => (e == AccountError::InvalidCredentials && !password_matches_hash(
                        credentials.password@,
                        named.password_hash@,
                    )) || e == AccountError::HashFailure,
                }
            },
    {
        let mut i: usize = 0;
        while i < self.users.len()
            invariant
                i <= self.users@.len(),
                forall|j: int|
                    0 <= j < i ==> (#[trigger] self.users@[j]).username@ != credentials.username@,
            decreases self.users@.len() - i,
        {
            if self.users[i].username == credentials.username {
                proof {
                    let name = credentials.username@;
                    let j = choose|k: int|
                        0 <= k < self.users@.len() && (#[trigger] self.users@[k]).username@ == name;
                    assert(self.users@[i as int].username@ == name);
                    assert(j == i as int);
                }
                let matches_hash = match verify_password(
                    credentials.password.as_str(),
                    self.users[i].password_hash.as_str(),
                ) {
                    Ok(b) => b,
                    Err(_) => {
                        return Err(AccountError::HashFailure);
                    },
                };
                if matches_hash {
                    return Ok(self.users[i].clone());
                } else {
                    return Err(AccountError::InvalidCredentials);
                }
            }
            i = i + 1;
        }
        Err(AccountError::InvalidCredentials)
    }

    /// Checks the credentials and returns the account's id.
    pub fn login_user(&self, credentials: &LoginCredentials) -> (r: Result<i32, AccountError>)
        requires
            self.wf(),
        ensures
            !self.username_taken(credentials.username@) ==> r == Err::<i32, AccountError>(
                AccountError::InvalidCredentials,
            ),
            self.username_taken(credentials.username@) ==> {
                let named = self.spec_user_named(credentials.username@);
                match r {
                    Ok(id) => id == named.id && password_matches_hash(
                        credentials.password@,
                        named.password_hash@,
                    ),
                    Err(e) => (e == AccountError::InvalidCredentials && !password_matches_hash(
                        credentials.password@,
                        named.password_hash@,
                    )) || e == AccountError::HashFailure,
                }
            },
    {
        match self.find_user_by_username_and_verify_password(credentials) {
            Ok(u) => Ok(u.id),
            Err(e) => Err(e),
        }
    }

    /// Every live account, newest first.
    #[verifier::loop_isolation(false)]
    pub fn get_all_users(&self) -> (r: Vec<User>)
        ensures
            r.deep_view() == self.users.deep_view().filter(
                |m: UserModel| m.is_live(),
            ).reverse(),
    {
        let ghost pred = |m: UserModel| m.is_live();
        let ghost models = self.users.deep_view();
        let mut asc: Vec<User> = Vec::new();
        let mut i: usize = 0;
        proof {
            assert(models.take(0) =~= Seq::<UserModel>::empty());
            assert(asc.deep_view() =~= Seq::<UserModel>::empty().filter(pred));
        }
        while i < self.users.len()
            invariant
                i <= self.users@.len(),
                asc.deep_view() == models.take(i as int).filter(pred),
            decreases self.users@.len() - i,
        {
            let u = &self.users[i];
            proof {
                models.lemma_take_succ_push(i as int);
                models.take(i as int).lemma_filter_push(models[i as int], pred);
            }
            if u.deleted_at.is_none() {
                let ghost before = asc.deep_view();
                asc.push(u.clone());
                proof {
                    assert(asc.deep_view() =~= before.push(models[i as int]));
                }
            }
            i = i + 1;
        }
        proof {
            assert(models.take(models.len() as int) =~= models);
        }
        reversed_users(asc)
    }

    /// Looks a live account up by id; soft-deleted accounts are invisible.
    pub fn get_user_by_id(&self, user_id: i32) -> (r: Result<User, AccountError>)
        requires
            self.wf(),
        ensures
            match r {
                Ok(u) => self.user_visible(user_id) && u@ == self.users@[user_id - 1]@,
                Err(e) => e == AccountError::NotFound && !self.user_visible(user_id),
            },
    {
        if user_id >= 1 && (user_id as usize) <= self.users.len() {
            let u = &self.users[user_id as usize - 1];
            if u.deleted_at.is_none() {
                return Ok(u.clone());
            }
        }
        Err(AccountError::NotFound)
    }

    /// Soft-deletes the live account with this id: sets the tombstone and
    /// refreshes `updated_at`. Returns whether a row changed.
    pub fn soft_delete_user(&mut self, user_id: i32, now: i64) -> (r: bool)
        requires
            old(self).wf(),
        ensures
            final(self).wf(),
            old(self).user_visible(user_id) ==> r && final(self).users@ == old(self).users@.update(
                user_id - 1,
                User {
                    updated_at: now,
                    deleted_at: Some(now),
                    ..old(self).users@[user_id - 1]
                },
            ),
            !old(self).user_visible(user_id) ==> !r && *final(self) == *old(self),
    {
        if user_id >= 1 && (user_id as usize) <= self.users.len() {
            let idx: usize = user_id as usize - 1;
            if self.users[idx].deleted_at.is_none() {
                let target = &mut self.users[idx];
                target.updated_at = now;
                target.deleted_at = Some(now);
                return true;
            }
        }
        false
    }

    /// Soft-deletes the account, reporting an absent or already-deleted
    /// account as an error.
    pub fn delete_user(&mut self, user_id: i32, now: i64) -> (r: Result<(), AccountError>)
        requires
            old(self).wf(),
        ensures
            final(self).wf(),
            old(self).user_visible(user_id) ==> r is Ok && final(self).users@ == old(
                self,
            ).users@.update(
                user_id - 1,
                User {
                    updated_at: now,
                    deleted_at: Some(now),
                    ..old(self).users@[user_id - 1]
                },
            ),
            !old(self).user_visible(user_id) ==> r == Err::<(), AccountError>(
                AccountError::NotFound,
            ) && *final(self) == *old(self),
    {
        if self.soft_delete_user(user_id, now) {
            Ok(())
        } else {
            Err(AccountError::NotFound)
        }
    }
}

/// The input sequence in reverse order, element views preserved.
#[verifier::loop_isolation(false)]
fn reversed_users(v: Vec<User>) -> (r: Vec<User>)
    ensures
        r.deep_view() == v.deep_view().reverse(),
{
    let ghost models = v.deep_view();
    let mut out: Vec<User> = Vec::new();
    let mut i: usize = v.len();
    proof {
        assert(models.skip(models.len() as int) =~= Seq::<UserModel>::empty());
        assert(out.deep_view() =~= models.skip(models.len() as int).reverse());
    }
    while i > 0
        invariant
            i <= v@.len(),
            out.deep_view() == models.skip(i as int).reverse(),
        decreases i,
    {
        i = i - 1;
        let ghost before = out.deep_view();
        out.push(v[i].clone());
        proof {
            assert(out.deep_view() =~= before.push(models[i as int]));
            assert(models.skip(i as int).reverse() =~= models.skip(i as int + 1).reverse().push(
                models[i as int],
            ));
        }
    }
    proof {
        assert(models.skip(0) =~= models);
    }
    out
}

} // verus!
