//! Password hashing with bcrypt.
//!
//! A hash is salted at random, so two hashes of one password differ; what
//! ties a hash to its password is that bcrypt accepts the pair again.

use vstd::prelude::*;
use crate::error::RepoError;

verus! {

/// The error type of the bcrypt crate.
#[verifier::external_type_specification]
#[verifier::external_body]
pub struct ExBcryptError(bcrypt::BcryptError);

/// The work factor that `PasswordHasher::new` uses: bcrypt's own default.
pub const DEFAULT_COST: u32 = 12;

/// What `bcrypt::verify` answers for a password and a stored hash: `Some` of
/// its verdict, or `None` where it returns an error, as it does for a hash
/// that is malformed or names a work factor that bcrypt does not take.
pub uninterp spec fn bcrypt_verify_outcome(password: Seq<char>, hash: Seq<char>) -> Option<bool>;

/// bcrypt accepts `password` for `hash`.
pub open spec fn accepts(password: Seq<char>, hash: Seq<char>) -> bool {
    bcrypt_verify_outcome(password, hash) == Some(true)
}

/// The work factors that bcrypt takes.
pub open spec fn cost_allowed(cost: u32) -> bool {
    4 <= cost <= 31
}

/// Calls `bcrypt::hash`. Trusted: a hash is only returned for a work factor
/// from 4 to 31, it is the 60 characters of the `$2b$` format, and
/// `bcrypt::verify` accepts the password for it. Whether a hash is returned
/// also depends on the system's random source, which supplies the salt.
#[verifier::external_body]
fn bcrypt_hash(password: &str, cost: u32) -> (hashed: Result<String, bcrypt::BcryptError>)
    ensures
        hashed matches Ok(h) ==> cost_allowed(cost) && h@.len() == 60 && accepts(password@, h@),
{
    bcrypt::hash(password, cost)
}

/// Calls `bcrypt::verify`. Trusted: the answer is a function of the two
/// texts alone, which `bcrypt_verify_outcome` names; an error stands for
/// `None`.
#[verifier::external_body]
fn bcrypt_verify(password: &str, hash: &str) -> (outcome: Result<bool, bcrypt::BcryptError>)
    ensures
        outcome matches Ok(verdict) ==> bcrypt_verify_outcome(password@, hash@) == Some(verdict),
        outcome is Err ==> bcrypt_verify_outcome(password@, hash@) is None,
{
    bcrypt::verify(password, hash)
}

/// What the access layer makes of bcrypt's answer to a hashing request: the
/// hash, or `RepoError::Hashing` whatever bcrypt's reason was. No hash is
/// ever made up in place of a failed one.
pub fn hashing_result(outcome: Result<String, bcrypt::BcryptError>) -> (hashed: Result<
    String,
    RepoError,
>)
    ensures
        outcome matches Ok(h) ==> hashed == Ok::<String, RepoError>(h),
        outcome is Err ==> hashed == Err::<String, RepoError>(RepoError::Hashing),
{
    match outcome {
        Ok(h) => Ok(h),
        Err(_) => Err(RepoError::Hashing),
    }
}

/// What the access layer makes of bcrypt's answer to a verification: yes
/// only where bcrypt said yes. A hash that bcrypt rejects as malformed
/// counts as a mismatch.
pub fn verdict(outcome: Result<bool, bcrypt::BcryptError>) -> (accepted: bool)
    ensures
        accepted == (outcome matches Ok(verdict) && verdict),
{
    match outcome {
        Ok(verdict) => verdict,
        Err(_) => false,
    }
}

/// Hashes passwords at a fixed work factor.
#[derive(Clone, Copy, Debug, PartialEq, Eq, Structural)]
pub struct PasswordHasher {
    pub cost: u32,
}

impl PasswordHasher {
    /// A hasher at the default work factor.
    pub fn new() -> (hasher: PasswordHasher)
        ensures
            hasher.cost == DEFAULT_COST,
    {
        PasswordHasher { cost: DEFAULT_COST }
    }

    /// A hasher at the given work factor. With a factor that bcrypt does not
    /// take, every call of `hash` fails.
    pub fn with_cost(cost: u32) -> (hasher: PasswordHasher)
        ensures
            hasher.cost == cost,
    {
        PasswordHasher { cost }
    }

    /// Hashes `plaintext` under a fresh salt. The only failure is
    /// `RepoError::Hashing`; it is certain where the work factor is not
    /// allowed, and otherwise comes only from the system's random source.
    pub fn hash(&self, plaintext: &str) -> (hashed: Result<String, RepoError>)
        ensures
            hashed matches Ok(h) ==> cost_allowed(self.cost) && h@.len() == 60 && accepts(
                plaintext@,
                h@,
            ),
            hashed matches Err(e) ==> e == RepoError::Hashing,
    {
        hashing_result(bcrypt_hash(plaintext, self.cost))
    }
}

/// Whether `plaintext` is the password that `hash` was made from. A
/// mismatch and a malformed hash both give `false`.
pub fn verify(plaintext: &str, hash: &str) -> (accepted: bool)
    ensures
        accepted == accepts(plaintext@, hash@),
{
    verdict(bcrypt_verify(plaintext, hash))
}

} // verus!
