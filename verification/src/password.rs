//! Password hashing, done by the `bcrypt` crate.

use vstd::prelude::*;

verus! {

/// `bcrypt::BcryptError`, carried through unopened.
#[verifier::external_type_specification]
#[verifier::external_body]
pub struct ExBcryptError(bcrypt::BcryptError);

/// What `bcrypt::verify(password, hash)` answers: `Some(b)` for `Ok(b)`, `None`
/// for an error (a hash that does not parse). It depends on its two arguments alone.
pub uninterp spec fn bcrypt_verify_outcome(password: Seq<char>, hash: Seq<char>) -> Option<bool>;

/// The form of a hash that `bcrypt::hash` produces at the default cost: `$2b$12$`
/// followed by 22 characters of salt and 31 of hash, 60 in all.
pub open spec fn is_default_cost_hash(h: Seq<char>) -> bool {
    h.len() == 60 && h.subrange(0, 7) == "$2b$12$"@
}

/// Calls `bcrypt::hash(password, bcrypt::DEFAULT_COST)`.
///
/// The salt comes from the operating system's random source, so two calls on one
/// password give different hashes, and an error comes only when that source fails.
/// Claimed: a hash that is returned is one that `bcrypt::verify` accepts for the same
/// password (the crate re-derives the hash from the salt and cost it reads back from
/// the string), and it has the `$2b$12$` form of 60 characters that the crate writes
/// for version 2b and cost 12. Nothing is said of which salt, nor of when an error
/// comes.
#[verifier::external_body]
pub(crate) fn hash_password(password: &str) -> (r: Result<String, bcrypt::BcryptError>)
    ensures
        r matches Ok(h) ==> bcrypt_verify_outcome(password@, h@) == Some(true)
            && is_default_cost_hash(h@),
{
    bcrypt::hash(password, bcrypt::DEFAULT_COST)
}

/// Calls `bcrypt::verify(password, hash)`.
///
/// Claimed: the answer is the one named by `bcrypt_verify_outcome` for the two
/// arguments, an error appearing there as `None`.
#[verifier::external_body]
pub(crate) fn verify_password(password: &str, hash: &str) -> (r: Result<bool, bcrypt::BcryptError>)
    ensures
        match r {
            Ok(b) => bcrypt_verify_outcome(password@, hash@) == Some(b),
            Err(_) => bcrypt_verify_outcome(password@, hash@) is None,
        },
{
    bcrypt::verify(password, hash)
}

} // verus!
