//! Administrator accounts: registration and credential checks, kept apart
//! from regular users as the transport layer grants them a different role.

use vstd::prelude::*;

use crate::crypt::{hash_password, password_matches_hash, verify_password};
use crate::users::AccountError;

verus! {

/// The mathematical value of an [`Admin`].
pub ghost struct AdminModel {
    pub id: i32,
    pub username: Seq<char>,
    pub password_hash: Seq<char>,
    pub created_at: i64,
    pub updated_at: i64,
    pub deleted_at: Option<i64>,
}

/// An administrator account. Only the bcrypt hash of the password is
/// stored, never the password itself.
#[derive(Debug)]
pub struct Admin {
    pub id: i32,
    pub username: String,
    pub password_hash: String,
    pub created_at: i64,
    pub updated_at: i64,
    pub deleted_at: Option<i64>,
}

impl View for Admin {
    type V = AdminModel;

    open spec fn view(&self) -> AdminModel {
        AdminModel {
            id: self.id,
            username: self.username@,
            password_hash: self.password_hash@,
            created_at: self.created_at,
            updated_at: self.updated_at,
            deleted_at: self.deleted_at,
        }
    }
}

impl DeepView for Admin {
    type V = AdminModel;

    open spec fn deep_view(&self) -> AdminModel {
        self@
    }
}

impl Clone for Admin {
    fn clone(&self) -> (r: Self)
        ensures
            r@ == self@,
    {
        Admin {
            id: self.id,
            username: self.username.clone(),
            password_hash: self.password_hash.clone(),
            created_at: self.created_at,
            updated_at: self.updated_at,
            deleted_at: self.deleted_at,
        }
    }
}

/// A registration request carrying the raw password; it is hashed before
/// anything is stored.
#[derive(Debug)]
pub struct RegisterAdminRequest {
    pub username: String,
    pub password: String,
}

/// The row shape an insertion writes: the password already hashed.
#[derive(Debug)]
pub struct NewAdmin {
    pub username: String,
    pub password_hash: String,
}

/// A login attempt carrying the raw password.
#[derive(Debug)]
pub struct LoginCredentials {
    pub username: String,
    pub password: String,
}

pub struct AdminDirectory {
    pub admins: Vec<Admin>,
}

impl AdminDirectory {
    /// Structural well-formedness: ids are assigned in insertion order
    /// starting at 1, and usernames are unique.
    pub open spec fn wf(self) -> bool {
        &&& forall|i: int|
            0 <= i < self.admins@.len() ==> (#[trigger] self.admins@[i]).id == i + 1
        &&& forall|i: int, j: int|
            0 <= i < self.admins@.len() && 0 <= j < self.admins@.len() && i != j ==> (
            #[trigger] self.admins@[i]).username@ != (#[trigger] self.admins@[j]).username@
    }

    /// Some admin account carries this username.
    pub open spec fn username_taken(self, name: Seq<char>) -> bool {
        exists|i: int|
            0 <= i < self.admins@.len() && (#[trigger] self.admins@[i]).username@ == name
    }

    /// The admin account carrying this username; meaningful only when one
    /// does, and unique because usernames are.
    pub open spec fn spec_admin_named(self, name: Seq<char>) -> Admin
        recommends
            self.username_taken(name),
    {
        self.admins@[choose|i: int|
            0 <= i < self.admins@.len() && (#[trigger] self.admins@[i]).username@ == name]
    }

    pub fn new() -> (r: AdminDirectory)
        ensures
            r.wf(),
            r.admins@ == Seq::<Admin>::empty(),
    {
        let r = AdminDirectory { admins: Vec::new() };
        proof {
            assert(r.admins@ =~= Seq::<Admin>::empty());
        }
        r
    }

    /// Whether any admin account carries this username.
    #[verifier::loop_isolation(false)]
    pub fn username_exists(&self, name: &String) -> (r: bool)
        ensures
            r == self.username_taken(name@),
    {
        let mut i: usize = 0;
        while i < self.admins.len()
            invariant
                i <= self.admins@.len(),
                forall|j: int| 0 <= j < i ==> (#[trigger] self.admins@[j]).username@ != name@,
            decreases self.admins@.len() - i,
        {
            if self.admins[i].username == *name {
                return true;
            }
            i = i + 1;
        }
        false
    }

    /// Registers an admin account: hashes the raw password, then stores
    /// the row unless the username is taken.
    #[verifier::loop_isolation(false)]
    pub fn register_admin(&mut self, request: RegisterAdminRequest, now: i64) -> (r: Result<
        Admin,
        AccountError,
    >)
        requires
            old(self).wf(),
            old(self).admins@.len() < i32::MAX as int,
        ensures
            final(self).wf(),
            old(self).username_taken(request.username@) ==> r == Err::<Admin, AccountError>(
                AccountError::DuplicateUsername,
            ) && *final(self) == *old(self),
            !old(self).username_taken(request.username@) ==> (r is Ok || r == Err::<
                Admin,
                AccountError,
            >(AccountError::HashFailure)),
            r == Err::<Admin, AccountError>(AccountError::HashFailure) ==> *final(self) == *old(
                self,
            ),
            r matches Ok(a) ==> {
                &&& a@ == (AdminModel {
                    id: (old(self).admins@.len() + 1) as i32,
                    username: request.username@,
                    password_hash: a@.password_hash,
                    created_at: now,
                    updated_at: now,
                    deleted_at: None,
                })
                &&& password_matches_hash(request.password@, a@.password_hash)
                &&& final(self).admins.deep_view() == old(self).admins.deep_view().push(a@)
            },
    {
        if self.username_exists(&request.username) {
            return Err(AccountError::DuplicateUsername);
        }
        let hashed = match hash_password(request.password.as_str()) {
            Ok(h) => h,
            Err(_) => {
                return Err(AccountError::HashFailure);
            },
        };
        let id: i32 = self.admins.len() as i32 + 1;
        let admin = Admin {
            id,
            username: request.username,
            password_hash: hashed,
            created_at: now,
            updated_at: now,
            deleted_at: None,
        };
        let copy = admin.clone();
        self.admins.push(admin);
        proof {
            assert(final(self).admins.deep_view() =~= old(self).admins.deep_view().push(copy@));
        }
        Ok(copy)
    }

    /// Looks the admin account for this username up and holds the raw
    /// password against its stored hash. Unknown usernames and wrong
    /// passwords get the same answer.
    #[verifier::loop_isolation(false)]
    pub fn find_admin_by_username_and_verify_password(
        &self,
        credentials: &LoginCredentials,
    ) -> (r: Result<Admin, AccountError>)
        requires
            self.wf(),
        ensures
            !self.username_taken(credentials.username@) ==> r == Err::<Admin, AccountError>(
                AccountError::InvalidCredentials,
            ),
            self.username_taken(credentials.username@) ==> {
                let named = self.spec_admin_named(credentials.username@);
                match r {
                    Ok(a) => a@ == named@ && password_matches_hash(
                        credentials.password@,
                        named.password_hash@,
                    ),
                    Err(e) => (e == AccountError::InvalidCredentials && !password_matches_hash(
                        credentials.password@,
                        named.password_hash@,
                    )) || e == AccountError::HashFailure,
                }
            },
    {
        let mut i: usize = 0;
        while i < self.admins.len()
            invariant
                i <= self.admins@.len(),
                forall|j: int|
                    0 <= j < i ==> (#[trigger] self.admins@[j]).username@ != credentials.username@,
            decreases self.admins@.len() - i,
        {
            if self.admins[i].username == credentials.username {
                proof {
                    let name = credentials.username@;
                    let j = choose|k: int|
                        0 <= k < self.admins@.len() && (#[trigger] self.admins@[k]).username@
                            == name;
                    assert(self.admins@[i as int].username@ == name);
                    assert(j == i as int);
                }
                let matches_hash = match verify_password(
                    credentials.password.as_str(),
                    self.admins[i].password_hash.as_str(),
                ) {
                    Ok(b) => b,
                    Err(_) => {
                        return Err(AccountError::HashFailure);
                    },
                };
                if matches_hash {
                    return Ok(self.admins[i].clone());
                } else {
                    return Err(AccountError::InvalidCredentials);
                }
            }
            i = i + 1;
        }
        Err(AccountError::InvalidCredentials)
    }

    /// Checks the credentials and returns the admin account's id.
    pub fn login_admin(&self, credentials: &LoginCredentials) -> (r: Result<i32, AccountError>)
        requires
            self.wf(),
        ensures
            !self.username_taken(credentials.username@) ==> r == Err::<i32, AccountError>(
                AccountError::InvalidCredentials,
            ),
            self.username_taken(credentials.username@) ==> {
                let named = self.spec_admin_named(credentials.username@);
                match r {
                    Ok(id) => id == named.id && password_matches_hash(
                        credentials.password@,
                        named.password_hash@,
                    ),
                    Err(e) => (e == AccountError::InvalidCredentials && !password_matches_hash(
                        credentials.password@,
                        named.password_hash@,
                    )) || e == AccountError::HashFailure,
                }
            },
    {
        match self.find_admin_by_username_and_verify_password(credentials) {
            Ok(a) => Ok(a.id),
            Err(e) => Err(e),
        }
    }
}

} // verus!
