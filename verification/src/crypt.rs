//! Password hashing, through the bcrypt crate.

use vstd::prelude::*;

verus! {

/// bcrypt's error type, declared so the wrappers below can return it;
/// verified callers map it to this library's own error.
#[verifier::external_type_specification]
#[verifier::external_body]
pub struct ExBcryptError(bcrypt::BcryptError);

/// What bcrypt's `verify` decides for a password held against a stored
/// hash: a function of the two arguments alone.
pub uninterp spec fn password_matches_hash(password: Seq<char>, hash: Seq<char>) -> bool;

/// Relies on bcrypt's `hash`: whatever salt the OS randomness supplies,
/// the returned hash is one that `verify` accepts for this password.
#[verifier::external_body]
pub(crate) fn hash_password(password: &str) -> (r: Result<String, bcrypt::BcryptError>)
    ensures
        r matches Ok(h) ==> password_matches_hash(password@, h@),
{
    bcrypt::hash(password, bcrypt::DEFAULT_COST)
}

/// Relies on bcrypt's `verify`: decides whether the password matches the
/// stored hash; it fails only on a hash that does not parse.
#[verifier::external_body]
pub(crate) fn verify_password(password: &str, hash: &str) -> (r: Result<bool, bcrypt::BcryptError>)
    ensures
        r matches Ok(b) ==> b == password_matches_hash(password@, hash@),
{
    bcrypt::verify(password, hash)
}

} // verus!
