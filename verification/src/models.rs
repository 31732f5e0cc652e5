use vstd::prelude::*;

verus! {

/// A registration request as it arrives from a caller: the display name,
/// the e-mail address the account is keyed by, and the plaintext password.
/// The password never outlives the hashing step.
pub struct RegisterRequest {
    pub name: String,
    pub email: String,
    pub password: String,
}

/// A login attempt: the e-mail address of the claimed account and the
/// plaintext password to check against the stored hash.
pub struct LoginRequest {
    pub email: String,
    pub password: String,
}

/// A durable credential record: what the store persists for one user.
/// `password_hash` is an encoded string that embeds the algorithm,
/// its parameters, the salt and the digest.
pub struct UserRecord {
    pub id: String,
    pub name: String,
    pub email: String,
    pub password_hash: String,
}

/// The outward view of a stored user: every field of [`UserRecord`]
/// except the password hash. Read operations return only this.
#[derive(Debug)]
pub struct User {
    pub id: String,
    pub name: String,
    pub email: String,
}

} // verus!
