//! Password hashing, delegated to the adaptive hash of the `bcrypt` crate.

use vstd::prelude::*;

verus! {

/// The error type of the `bcrypt` crate.
#[verifier::external_type_specification]
#[verifier::external_body]
pub struct ExBcryptError(bcrypt::BcryptError);

/// What `bcrypt::verify` answers for a password and a stored hash: whether
/// they match, or `None` where it fails on the hash.
pub uninterp spec fn bcrypt_verdict(password: Seq<char>, hash: Seq<char>) -> Option<bool>;

/// Calls `bcrypt::hash` at the crate's default cost. The salt is random, so
/// the hash itself has no name. Trusted, of every hash that comes back: it
/// is one that `bcrypt::verify` confirms for the same password. The crate's
/// README pairs the two calls in this way, and `verify` recomputes the hash
/// with the cost and the salt that it reads back out of the text. Whether a
/// hash comes back at all is not claimed.
#[verifier::external_body]
fn bcrypt_hash(password: &str) -> (result: Result<String, bcrypt::BcryptError>)
    ensures
        result matches Ok(hash) ==> bcrypt_verdict(password@, hash@) == Some(true),
{
    bcrypt::hash(password, bcrypt::DEFAULT_COST)
}

/// Calls `bcrypt::verify`. Trusted: the outcome is a function of the password
/// and the hash, named [`bcrypt_verdict`].
#[verifier::external_body]
fn bcrypt_verify(password: &str, hash: &str) -> (result: Result<bool, bcrypt::BcryptError>)
    ensures
        match result {
            Ok(same) => bcrypt_verdict(password@, hash@) == Some(same),
            Err(_) => bcrypt_verdict(password@, hash@) is None,
        },
{
    bcrypt::verify(password, hash)
}

/// A fresh salted hash of `password`, or `None` where hashing failed. The
/// salt is drawn anew at each call, so the hash differs from call to call;
/// whichever comes back, [`check_password`] confirms `password` against it.
pub fn hash_password(password: &str) -> (hash: Option<String>)
    ensures
        hash matches Some(text) ==> bcrypt_verdict(password@, text@) == Some(true),
{
    match bcrypt_hash(password) {
        Ok(hash) => Some(hash),
        Err(_) => None,
    }
}

/// Whether `password` is the one that `hash` was made from, or `None` where
/// `hash` is no hash at all.
pub fn check_password(password: &str, hash: &str) -> (verdict: Option<bool>)
    ensures
        verdict == bcrypt_verdict(password@, hash@),
{
    match bcrypt_verify(password, hash) {
        Ok(same) => Some(same),
        Err(_) => None,
    }
}

} // verus!
