use vstd::prelude::*;

use argon2::PasswordHasher;
use argon2::PasswordVerifier;

verus! {

/// Whether `hash` is a well-formed encoded password hash, that is,
/// whether `password_hash::PasswordHash::new` accepts it. A function of
/// the string alone.
pub uninterp spec fn hash_parses(hash: Seq<char>) -> bool;

/// Whether the Argon2 verifier accepts `password` against the encoded
/// `hash`: it re-derives the digest from the salt and parameters embedded
/// in `hash` and compares. A function of the two strings alone.
pub uninterp spec fn verifies(password: Seq<char>, hash: Seq<char>) -> bool;

/// `password` is accepted against `hash`: the encoded hash is well formed
/// and the re-derived digest matches the embedded one.
pub open spec fn credential_matches(password: Seq<char>, hash: Seq<char>) -> bool {
    hash_parses(hash) && verifies(password, hash)
}

/// The password length, in characters, below which hashing is owed to
/// succeed: such a password stays under the hasher's four-gigabyte input
/// limit however its characters encode, at up to four bytes each.
pub const MAX_HASHABLE_PASSWORD_CHARS: usize = 0x40000000;

/// Relies on password_hash::SaltString::generate, fed by the operating
/// system's secure generator, and on argon2::Argon2::hash_password with
/// the default parameters. A generated salt is always 16 bytes, inside
/// the range the hasher accepts, and its output length is fixed and
/// accepted too, so the only input-dependent refusal left is a password
/// over four gigabytes: for any password of fewer than 2^30 characters
/// hashing succeeds. On success the encoded string embeds the algorithm,
/// its parameters, the salt and the digest, so it parses back as a
/// password hash, and verifying the same password against it re-derives
/// the same digest.
#[verifier::external_body]
fn argon2_hash_with_fresh_salt(password: &str) -> (r: Option<String>)
    ensures
        r matches Some(h) ==> hash_parses(h@) && verifies(password@, h@),
        password@.len() < MAX_HASHABLE_PASSWORD_CHARS ==> r is Some,
{
    let salt = password_hash::SaltString::generate(&mut rand::rngs::OsRng);
    match argon2::Argon2::default().hash_password(password.as_bytes(), &salt) {
        Ok(h) => Some(h.to_string()),
        Err(_) => None,
    }
}

/// Relies on password_hash::PasswordHash::new, which accepts exactly the
/// well-formed encoded strings, and on argon2::Argon2::verify_password,
/// which re-derives the digest from the salt and parameters embedded in
/// the hash and compares it in constant time. Both results depend on
/// `password` and `hash` alone.
#[verifier::external_body]
fn argon2_verify(password: &str, hash: &str) -> (r: bool)
    ensures
        r == (hash_parses(hash@) && verifies(password@, hash@)),
{
    match password_hash::PasswordHash::new(hash) {
        Ok(parsed) => argon2::Argon2::default()
            .verify_password(password.as_bytes(), &parsed)
            .is_ok(),
        Err(_) => false,
    }
}

/// Relies on uuid::Uuid::new_v4 and its display form: a fresh random
/// version-4 UUID, printed as the 36-character hyphenated string. The
/// value is random; only its length is promised.
#[verifier::external_body]
fn uuid_v4() -> (r: String)
    ensures
        r@.len() == 36,
{
    uuid::Uuid::new_v4().to_string()
}

/// A fresh identifier for a new record: a random version-4 UUID in its
/// 36-character hyphenated form. Drawn independently of the store, so
/// two calls collide only with negligible probability; nothing beyond
/// the length is promised of the value.
pub fn fresh_id() -> (r: String)
    ensures
        r@.len() == 36,
{
    uuid_v4()
}

/// Hashes `password` with a fresh random salt. Distinct calls draw
/// distinct salts, so the encoded results differ, but every hash this
/// function returns verifies against the password it was derived from.
/// Success is owed for every password of fewer than 2^30 characters;
/// `None` can only mean the hasher refused a larger input.
pub fn hash_password(password: &str) -> (r: Option<String>)
    ensures
        r matches Some(h) ==> credential_matches(password@, h@),
        password@.len() < MAX_HASHABLE_PASSWORD_CHARS ==> r is Some,
{
    argon2_hash_with_fresh_salt(password)
}

/// Checks `password` against the encoded `hash`: true exactly when the
/// hash is well formed and the re-derived digest matches. Deterministic:
/// the outcome is a function of the two strings alone, so a hash that
/// verified once verifies again. A malformed stored hash is reported as
/// a mismatch, never a crash.
pub fn verify_credential(password: &str, hash: &str) -> (r: bool)
    ensures
        r == credential_matches(password@, hash@),
{
    argon2_verify(password, hash)
}

} // verus!
