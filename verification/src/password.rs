//! Password hashes.

use vstd::prelude::*;
use crate::error::{AppError, AppResult, FailureKind};

verus! {

/// The error type of the `bcrypt` crate. Nothing is known of a value of it.
#[verifier::external_type_specification]
#[verifier::external_body]
pub struct ExBcryptError(bcrypt::BcryptError);

/// What `bcrypt::verify` finds for a password and a hash: whether they
/// match, or nothing where it fails on the hash.
pub uninterp spec fn bcrypt_match(password: Seq<char>, hash: Seq<char>) -> Option<bool>;

/// Calls `bcrypt::hash` with the crate's default cost. The salt is random,
/// so the hash itself is not stated.
///
/// The contract claims that the password matches the hash that comes back:
/// `bcrypt::verify` reads cost and salt out of a hash, hashes the password
/// again with them and compares, and `bcrypt::hash` writes what it computed
/// in that same layout.
#[verifier::external_body]
fn bcrypt_hash(password: &str) -> (r: Result<String, bcrypt::BcryptError>)
    ensures
        r matches Ok(hash) ==> bcrypt_match(password@, hash@) == Some(true),
{
    bcrypt::hash(password, bcrypt::DEFAULT_COST)
}

/// Calls `bcrypt::verify`. The contract names the outcome, which depends on
/// the password and the hash alone; an error of the crate stands for no
/// outcome.
#[verifier::external_body]
fn bcrypt_verify(password: &str, hash: &str) -> (r: Result<bool, bcrypt::BcryptError>)
    ensures
        match r {
            Ok(matches) => bcrypt_match(password@, hash@) == Some(matches),
            Err(_) => bcrypt_match(password@, hash@) is None,
        },
{
    bcrypt::verify(password, hash)
}

/// Why a password could not be hashed.
pub open spec fn hashing_failed() -> Seq<char> {
    "Error al procesar la contrase\u{f1}a"@
}

/// Why a password could not be compared.
pub open spec fn comparing_failed() -> Seq<char> {
    "Error al verificar la contrase\u{f1}a"@
}

/// What comparing gives for each outcome of the hash function.
pub open spec fn comparison(outcome: Option<bool>) -> Result<bool, (FailureKind, Seq<char>)> {
    match outcome {
        Some(matches) => Ok(matches),
        None => Err((FailureKind::Internal, comparing_failed())),
    }
}

/// The view of a comparison.
pub open spec fn comparison_view(r: AppResult<bool>) -> Result<bool, (FailureKind, Seq<char>)> {
    match r {
        Ok(matches) => Ok(matches),
        Err(e) => Err((e.kind(), e.detail())),
    }
}

/// Turns the outcome of the hash function into the service's: the hash, or
/// an internal failure whatever went wrong.
pub fn hashed(outcome: Result<String, bcrypt::BcryptError>) -> (r: AppResult<String>)
    ensures
        r is Ok <==> outcome is Ok,
        r matches Ok(hash) ==> outcome matches Ok(h) && hash == h,
        r matches Err(e) ==> e.is(FailureKind::Internal, hashing_failed()),
{
    match outcome {
        Ok(hash) => Ok(hash),
        Err(_) => Err(AppError::InternalServerError("Error al procesar la contrase\u{f1}a".to_owned())),
    }
}

/// Turns the outcome of a comparison into the service's.
pub fn compared(outcome: Result<bool, bcrypt::BcryptError>) -> (r: AppResult<bool>)
    ensures
        r is Ok <==> outcome is Ok,
        r matches Ok(matches) ==> outcome matches Ok(m) && matches == m,
        r matches Err(e) ==> e.is(FailureKind::Internal, comparing_failed()),
{
    match outcome {
        Ok(matches) => Ok(matches),
        Err(_) => Err(
            AppError::InternalServerError("Error al verificar la contrase\u{f1}a".to_owned()),
        ),
    }
}

/// Hashes `password` with a fresh random salt. The password matches the
/// hash that comes back; the only failure is an internal one.
pub fn hash_password(password: &str) -> (r: AppResult<String>)
    ensures
        r matches Ok(hash) ==> bcrypt_match(password@, hash@) == Some(true),
        r matches Err(e) ==> e.is(FailureKind::Internal, hashing_failed()),
{
    hashed(bcrypt_hash(password))
}

/// Tells whether `password` matches `hash`. A hash that cannot be read is an
/// internal failure.
pub fn verify_password(password: &str, hash: &str) -> (r: AppResult<bool>)
    ensures
        comparison_view(r) == comparison(bcrypt_match(password@, hash@)),
{
    compared(bcrypt_verify(password, hash))
}

} // verus!
