//! Password hashing and verification, through the argon2 crate.
//!
//! A stored credential is a PHC-formatted hash string.  Whether a password
//! verifies against such a string, and whether a string is well-formed PHC
//! at all, are functions of the characters alone; the two are named below
//! and everything the directory proves about authentication is phrased
//! over those names.

use argon2::PasswordHasher;
use argon2::PasswordVerifier;
use vstd::prelude::*;

verus! {

/// Whether `password` verifies against the PHC hash string `hash`: `hash`
/// parses as a PHC string and running the algorithm it names over
/// `password` with its salt and parameters reproduces its output.
pub uninterp spec fn phc_verifies(password: Seq<char>, hash: Seq<char>) -> bool;

/// Whether `hash` parses as a PHC-formatted hash string.
pub uninterp spec fn phc_wellformed(hash: Seq<char>) -> bool;

/// Relies on argon2's `PasswordVerifier::<str>::verify_password`, which
/// parses `hash` as a PHC string, recomputes the hash of `password` under
/// the salt and parameters stored in it, and compares; every failure,
/// a malformed `hash` included, comes back as an error.  The outcome is a
/// function of the two arguments alone.
#[verifier::external_body]
pub(crate) fn phc_verify(password: &str, hash: &str) -> (r: bool)
    ensures
        r == phc_verifies(password@, hash@),
{
    argon2::Argon2::default().verify_password(password.as_bytes(), hash).is_ok()
}

/// Relies on `password_hash::phc::PasswordHash::new`, the PHC string
/// parser; its outcome is a function of the characters alone.
#[verifier::external_body]
pub(crate) fn phc_check(hash: &str) -> (r: bool)
    ensures
        r == phc_wellformed(hash@),
{
    argon2::password_hash::phc::PasswordHash::new(hash).is_ok()
}

/// Relies on argon2's `PasswordHasher::<PasswordHash>::hash_password`: it
/// hashes `password` under a freshly generated random salt and returns the
/// PHC string of the result.  The salt is random, so nothing is said about
/// which string comes back, only what holds of any of them: it is
/// well-formed PHC, and `password` verifies against it (verification
/// recomputes the hash under the stored salt and parameters, per the
/// `PasswordVerifier` documentation).  `None` reports a hashing failure.
#[verifier::external_body]
pub(crate) fn phc_hash(password: &str) -> (r: Option<String>)
    ensures
        r matches Some(h) ==> phc_wellformed(h@) && phc_verifies(password@, h@),
{
    match argon2::Argon2::default().hash_password(password.as_bytes()) {
        Ok(h) => Some(h.to_string()),
        Err(_) => None,
    }
}

} // verus!
