//! Accounts: password hashing and credential checks.
//!
//! The store keeps only a salted hash of each password. Registration hashes
//! the password; login fetches the stored account (a store concern) and the
//! check below decides, from the fetched account and the presented password
//! alone, whether the login is accepted.

use vstd::prelude::*;

use crate::model::{ApiError, User};

verus! {

/// The cost factor used when hashing new passwords.
pub const PASSWORD_HASH_COST: u32 = 12;

/// Whether `password` matches the salted hash string `hash`. The salt and
/// cost are part of the hash text, so this depends on the two strings alone.
pub uninterp spec fn password_matches_hash(password: Seq<char>, hash: Seq<char>) -> bool;

// bcrypt's error type, carried through the hashing wrapper.
#[verifier::external_type_specification]
#[verifier::external_body]
pub struct ExBcryptError(bcrypt::BcryptError);

/// Relies on bcrypt::verify: whether a password matches a bcrypt hash is a
/// function of the two strings (a malformed hash matches nothing).
#[verifier::external_body]
fn bcrypt_check(password: &str, hash: &str) -> (r: bool)
    ensures
        r == password_matches_hash(password@, hash@),
{
    bcrypt::verify(password, hash).unwrap_or(false)
}

/// Relies on bcrypt::hash: the salt is drawn fresh, so the hash is not a
/// function of the password, but bcrypt::verify accepts the password
/// against any hash this returns.
#[verifier::external_body]
fn bcrypt_hash(password: &str, cost: u32) -> (r: Result<String, bcrypt::BcryptError>)
    ensures
        r matches Ok(h) ==> password_matches_hash(password@, h@),
{
    bcrypt::hash(password, cost)
}

/// Hash a password for storage. On success the returned hash accepts
/// exactly the password it was made from under `check_credentials`.
pub fn hash_password(password: &str) -> (r: Result<String, ApiError>)
    ensures
        r matches Ok(h) ==> password_matches_hash(password@, h@),
        r matches Err(e) ==> e == ApiError::StoreFailure,
{
    match bcrypt_hash(password, PASSWORD_HASH_COST) {
        Ok(h) => Ok(h),
        Err(_) => Err(ApiError::StoreFailure),
    }
}

/// Decide a login from the fetched account and the presented password: the
/// account passes through exactly when it exists and the password matches
/// its stored hash; everything else is the one uniform credentials
/// rejection, so a caller cannot tell a wrong password from an unknown
/// account.
pub fn check_credentials(user: Option<User>, password: &str) -> (r: Result<User, ApiError>)
    ensures
        match user {
            Some(u) => if password_matches_hash(password@, u.password_hash@) {
                r == Ok::<User, ApiError>(u)
            } else {
                r == Err::<User, ApiError>(ApiError::InvalidCredentials)
            },
            None => r == Err::<User, ApiError>(ApiError::InvalidCredentials),
        },
{
    match user {
        Some(u) => {
            if bcrypt_check(password, u.password_hash.as_str()) {
                Ok(u)
            } else {
                Err(ApiError::InvalidCredentials)
            }
        },
        None => Err(ApiError::InvalidCredentials),
    }
}

} // verus!
