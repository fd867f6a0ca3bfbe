//! Salted password digests. A digest is a self-describing string: the
//! algorithm, its parameters, the salt and the hash, so that checking a
//! password needs nothing but the digest.

use vstd::prelude::*;
use argon2::{PasswordHasher, PasswordVerifier};
use crate::error::app_error::{unexpected_failure, AppError, AppErrorView};

verus! {

/// The digest that Argon2id, version 19, with its default parameters
/// derives from `password` and the encoded `salt`, if it derives one.
pub uninterp spec fn argon2id_digest(password: Seq<char>, salt: Seq<char>) -> Option<Seq<char>>;

/// Whether `digest` parses as a digest and `password`, hashed again with
/// the parameters and the salt it holds, gives the hash it holds.
pub uninterp spec fn digest_accepts(digest: Seq<char>, password: Seq<char>) -> bool;

/// Draws a random salt of the recommended length, by
/// `SaltString::generate` on the operating system's generator. Trusted;
/// nothing is claimed of the value.
#[verifier::external_body]
fn fresh_salt() -> (salt: String) {
    let drawn = argon2::password_hash::SaltString::generate(
        &mut argon2::password_hash::rand_core::OsRng,
    );
    drawn.as_str().to_owned()
}

/// Derives a digest, by `PasswordHasher::hash_password` of an `Argon2`
/// set up for Argon2id, version 19 and default parameters. Trusted: the
/// digest is named `argon2id_digest`, and since checking re-derives with
/// what the digest holds, it accepts the password it was made from.
#[verifier::external_body]
fn derive_digest(password: &str, salt: &str) -> (digest: Option<String>)
    ensures
        match digest {
            Some(text) => argon2id_digest(password@, salt@) == Some(text@) && digest_accepts(
                text@,
                password@,
            ),
            None => argon2id_digest(password@, salt@) is None,
        },
{
    let salt = argon2::password_hash::SaltString::from_b64(salt).ok()?;
    let hasher = argon2::Argon2::new(
        argon2::Algorithm::Argon2id,
        argon2::Version::V0x13,
        argon2::Params::default(),
    );
    match hasher.hash_password(password.as_bytes(), &salt) {
        Ok(hash) => Some(hash.to_string()),
        Err(_) => None,
    }
}

/// Checks a password against a digest, by `PasswordHash::new` and
/// `PasswordVerifier::verify_password` of the default `Argon2`. A digest
/// that does not parse is a mismatch. The memory and time that the check
/// takes are those that the digest asks for. Trusted: the outcome is named
/// `digest_accepts`.
#[verifier::external_body]
fn check_digest(password: &str, digest: &str) -> (accepted: bool)
    ensures
        accepted == digest_accepts(digest@, password@),
{
    match argon2::PasswordHash::new(digest) {
        Ok(parsed) => {
            argon2::Argon2::default().verify_password(password.as_bytes(), &parsed).is_ok()
        },
        Err(_) => false,
    }
}

/// Whether `digest` is a digest of `password` under some salt, and accepts
/// it.
pub open spec fn is_digest_of(digest: Seq<char>, password: Seq<char>) -> bool {
    &&& digest_accepts(digest, password)
    &&& exists|salt: Seq<char>| argon2id_digest(password, salt) == Some(digest)
}

/// What hashing `password` under `salt` gives: the digest that the hasher
/// derives, or, where it derives none, the failure that is reported without
/// detail.
pub open spec fn hash_outcome(password: Seq<char>, salt: Seq<char>) -> Result<
    Seq<char>,
    AppErrorView,
> {
    match argon2id_digest(password, salt) {
        Some(digest) => Ok(digest),
        None => Err(unexpected_failure()),
    }
}

/// Whether `hashed` is what hashing `password` under `salt` gives.
pub open spec fn hashed_under(
    password: Seq<char>,
    salt: Seq<char>,
    hashed: Result<String, AppError>,
) -> bool {
    match hash_outcome(password, salt) {
        Ok(digest) => hashed matches Ok(text) && text@ == digest,
        Err(failure) => hashed matches Err(error) && error@ == failure,
    }
}

/// Derives a digest of `password` under a fresh random salt. Whatever salt
/// was drawn, the outcome is that of the hasher under that salt: hashing
/// succeeds wherever the hasher derives a digest, and the digest accepts
/// the password. Where the hasher derives none, that is reported without
/// detail.
pub fn hash_password(password: &str) -> (hashed: Result<String, AppError>)
    ensures
        exists|salt: Seq<char>| #[trigger] hashed_under(password@, salt, hashed),
        match hashed {
            Ok(digest) => is_digest_of(digest@, password@),
            Err(error) => error@ == unexpected_failure(),
        },
{
    let salt = fresh_salt();
    let hashed = match derive_digest(password, salt.as_str()) {
        Some(digest) => Ok(digest),
        None => Err(AppError::unexpected()),
    };
    assert(hashed_under(password@, salt@, hashed));
    hashed
}

/// Whether `password` is the one that `password_hash` was derived from. A
/// malformed digest is a mismatch like any other.
pub fn verify_password(password: &str, password_hash: &str) -> (accepted: bool)
    ensures
        accepted == digest_accepts(password_hash@, password@),
{
    check_digest(password, password_hash)
}

} // verus!
