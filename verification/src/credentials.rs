//! Passwords: one-way digests and their verification, by `bcrypt`.
//!
//! A digest is salted and carries its cost factor and salt, so that
//! verifying needs nothing but the digest. The plain text is handed to
//! `bcrypt` and goes nowhere else.

use vstd::prelude::*;

verus! {

/// `bcrypt::BcryptError`: handed on to be turned into its message.
#[verifier::external_type_specification]
#[verifier::external_body]
pub struct ExBcryptError(bcrypt::BcryptError);

/// Hashing or verifying failed inside the hasher.
#[derive(Debug, Clone)]
pub struct CredentialError {
    /// The hasher's own message.
    pub message: String,
}

/// What `bcrypt::verify` says of a password and a digest: whether they
/// match, or `None` where it reports an error.
pub uninterp spec fn bcrypt_verdict(password: Seq<char>, digest: Seq<char>) -> Option<bool>;

/// `bcrypt::hash` at the default cost. The salt is random, so the digest is
/// not a function of the password. Whatever digest comes back, verifying the
/// same password against it says that they match: `bcrypt::verify` reads
/// cost and salt from the digest and repeats the computation. A digest is
/// `$2b$12$`, the version and the cost, and then 22 characters of salt and
/// 31 of hash: 60 characters, all of them ASCII.
#[verifier::external_body]
fn bcrypt_hash(password: &str) -> (hashed: Result<String, bcrypt::BcryptError>)
    ensures
        hashed is Ok ==> bcrypt_verdict(password@, hashed->Ok_0@) == Some(true),
        hashed is Ok ==> hashed->Ok_0@.len() == 60 && "$2b$12$"@.is_prefix_of(hashed->Ok_0@),
        hashed is Ok ==> vstd::utf8::is_ascii_chars(hashed->Ok_0@),
{
    bcrypt::hash(password, bcrypt::DEFAULT_COST)
}

/// `bcrypt::verify`.
#[verifier::external_body]
fn bcrypt_verify(password: &str, digest: &str) -> (checked: Result<bool, bcrypt::BcryptError>)
    ensures
        match checked {
            Ok(same) => bcrypt_verdict(password@, digest@) == Some(same),
            Err(_) => bcrypt_verdict(password@, digest@) is None,
        },
{
    bcrypt::verify(password, digest)
}

/// `Display` of a `bcrypt` error: its message. Nothing is promised of the
/// text.
#[verifier::external_body]
fn bcrypt_error_text(error: &bcrypt::BcryptError) -> String {
    error.to_string()
}

/// Whether `digest` is one against which `password` verifies.
pub open spec fn password_matches(password: Seq<char>, digest: Seq<char>) -> bool {
    bcrypt_verdict(password, digest) == Some(true)
}

/// A salted digest of `password`.
///
/// Two calls on one password give different digests. Every digest that
/// comes back is one against which the password verifies, and carries its
/// cost factor, 12, in front: verifying needs nothing but the digest. An
/// error comes only from the hasher itself, where it finds no randomness.
pub fn hash_password(password: &str) -> (hashed: Result<String, CredentialError>)
    ensures
        hashed is Ok ==> password_matches(password@, hashed->Ok_0@),
        hashed is Ok ==> hashed->Ok_0@.len() == 60 && "$2b$12$"@.is_prefix_of(hashed->Ok_0@),
        hashed is Ok ==> vstd::utf8::is_ascii_chars(hashed->Ok_0@),
{
    digest_outcome(bcrypt_hash(password))
}

/// Whether `password` is the one that `hash` was made of.
///
/// A password that does not match is `Ok(false)`, not an error; an error
/// comes exactly where the digest is malformed.
pub fn verify_password(password: &str, hash: &str) -> (checked: Result<bool, CredentialError>)
    ensures
        match bcrypt_verdict(password@, hash@) {
            Some(same) => checked is Ok && checked->Ok_0 == same,
            None => checked is Err,
        },
{
    match bcrypt_verify(password, hash) {
        Ok(same) => Ok(same),
        Err(error) => Err(CredentialError { message: bcrypt_error_text(&error) }),
    }
}

/// What the hasher's outcome comes to: the digest as the hasher gave it, or
/// an error that carries the hasher's message.
pub fn digest_outcome(outcome: Result<String, bcrypt::BcryptError>) -> (hashed: Result<
    String,
    CredentialError,
>)
    ensures
        match outcome {
            Ok(digest) => hashed is Ok && hashed->Ok_0@ == digest@,
            Err(_) => hashed is Err,
        },
{
    match outcome {
        Ok(digest) => Ok(digest),
        Err(error) => Err(CredentialError { message: bcrypt_error_text(&error) }),
    }
}

} // verus!
