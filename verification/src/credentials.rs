//! The credential service: hashing a cleartext password for storage, and
//! checking a cleartext password against a stored hash. Both are bcrypt's.

use vstd::prelude::*;

verus! {

/// bcrypt's error, carried from the call to the place that maps it; nothing
/// is read from it.
#[verifier::external_type_specification]
#[verifier::external_body]
pub struct ExBcryptError(bcrypt::BcryptError);

/// What `bcrypt::verify` returns for a password and a stored hash: whether the
/// password matches, or `None` where it returns an error.
pub uninterp spec fn bcrypt_verify(password: Seq<char>, hash: Seq<char>) -> Option<bool>;

/// Why the credential service failed.
#[derive(Clone, Copy, Debug, PartialEq, Eq, Structural)]
pub enum CredentialError {
    /// No hash could be made: the system gave no salt.
    Hashing,
    /// The stored hash is not one that bcrypt accepts.
    MalformedHash,
}

/// The length of every hash that bcrypt writes.
pub open spec fn hash_len() -> nat {
    60
}

/// Whether `hash` can be what hashing `password` gave: a string of
/// [`hash_len`] characters against which `password` verifies.
pub open spec fn is_hash_of(password: Seq<char>, hash: Seq<char>) -> bool {
    hash.len() == hash_len() && bcrypt_verify(password, hash) == Some(true)
}

/// What [`verify`] makes of bcrypt's answer.
pub open spec fn verdict(answer: Option<bool>) -> Result<bool, CredentialError> {
    match answer {
        Some(matches) => Ok(matches),
        None => Err(CredentialError::MalformedHash),
    }
}

/// `bcrypt::hash` on the bytes of `password`, at `bcrypt::DEFAULT_COST`.
///
/// Trusted: bcrypt draws a fresh salt on each call, so nothing names the hash.
/// A hash that it returns is the 60 characters of bcrypt's format, and carries
/// the salt and cost from which `bcrypt::verify` computes the same digest for
/// the same password.
#[verifier::external_body]
fn bcrypt_hash(password: &str) -> (r: Result<String, bcrypt::BcryptError>)
    ensures
        r matches Ok(h) ==> h@.len() == 60 && bcrypt_verify(password@, h@) == Some(true),
{
    bcrypt::hash(password.as_bytes(), bcrypt::DEFAULT_COST)
}

/// `bcrypt::verify` on `password` and `hash`.
///
/// Trusted: the result depends on the two strings alone, and is what
/// [`bcrypt_verify`] names.
#[verifier::external_body]
fn bcrypt_check(password: &str, hash: &str) -> (r: Result<bool, bcrypt::BcryptError>)
    ensures
        bcrypt_verify(password@, hash@) == (match r {
            Ok(matches) => Some(matches),
            Err(_) => None,
        }),
{
    bcrypt::verify(password, hash)
}

/// Hashes a cleartext password for storage, with a salt of its own.
///
/// Whatever salt was drawn, a hash that comes back verifies against the
/// password it was made from.
pub fn hash(password: &str) -> (r: Result<String, CredentialError>)
    ensures
        match r {
            Ok(h) => is_hash_of(password@, h@),
            Err(e) => e == CredentialError::Hashing,
        },
{
    match bcrypt_hash(password) {
        Ok(h) => Ok(h),
        Err(_) => Err(CredentialError::Hashing),
    }
}

/// Checks a cleartext password against a stored hash. A stored hash that
/// bcrypt does not accept is an error, not a mismatch.
pub fn verify(password: &str, stored_hash: &str) -> (r: Result<bool, CredentialError>)
    ensures
        r == verdict(bcrypt_verify(password@, stored_hash@)),
{
    match bcrypt_check(password, stored_hash) {
        Ok(matches) => Ok(matches),
        Err(_) => Err(CredentialError::MalformedHash),
    }
}

} // verus!
