//! Password hashing and checking through bcrypt.

use vstd::prelude::*;

verus! {

/// `bcrypt::BcryptError`, the error of `bcrypt::hash` and `bcrypt::verify`,
/// carried through unopened.
#[verifier::external_type_specification]
#[verifier::external_body]
pub struct ExBcryptError(bcrypt::BcryptError);

/// Whether `bcrypt::verify(password, hash)` returns `Ok(true)`; it depends on
/// the two texts alone.
pub uninterp spec fn bcrypt_verifies(password: Seq<char>, hash: Seq<char>) -> bool;

/// The work factor of stored hashes.
pub const HASH_COST: u32 = 12;

/// Relies on `bcrypt::hash`: with a random salt, the 60-character modular-crypt
/// text `$2b$<cost>$<salt><hash>`, which `bcrypt::verify` accepts for the same
/// password (it recomputes the hash from the cost and salt that the text holds).
/// It fails only where the OS random source does.
#[verifier::external_body]
pub(crate) fn hash_password(password: &str, cost: u32) -> (r: Result<String, bcrypt::BcryptError>)
    requires
        4 <= cost <= 31,
    ensures
        r matches Ok(h) ==> h@.len() == 60 && bcrypt_verifies(password@, h@),
{
    bcrypt::hash(password, cost)
}

/// Relies on `bcrypt::verify`: `Ok(true)` when the password hashes to `hash`
/// under the cost and salt that `hash` holds.
#[verifier::external_body]
pub(crate) fn verify_password(password: &str, hash: &str) -> (r: Result<bool, bcrypt::BcryptError>)
    ensures
        r matches Ok(b) ==> b == bcrypt_verifies(password@, hash@),
        bcrypt_verifies(password@, hash@) ==> r matches Ok(true),
{
    bcrypt::verify(password, hash)
}

} // verus!
