use vstd::prelude::*;

use crate::credential::credential_matches;
use crate::credential::fresh_id;
use crate::credential::hash_password;
use crate::credential::verify_credential;
use crate::credential::MAX_HASHABLE_PASSWORD_CHARS;
use crate::models::LoginRequest;
use crate::models::RegisterRequest;
use crate::models::User;
use crate::models::UserRecord;
use crate::store::UserStore;
use crate::store::emails_unique;
use crate::store::has_email;
use crate::store::public_view;
use crate::validate::ValidationErrors;
use crate::validate::email_ok;
use crate::validate::valid_registration;
use crate::validate::validate_registration;
use crate::validate::MIN_PASSWORD_CHARS;

verus! {

/// Why a registration was refused. A duplicate e-mail address is its own
/// kind, never conflated with the hasher's configuration fault.
#[derive(Debug)]
pub enum RegisterError {
    /// At least one structural rule failed; one message per broken rule.
    Validation(ValidationErrors),
    /// The e-mail address already identifies a stored record.
    DuplicateEmail,
    /// The password hasher itself refused: a configuration fault, not a
    /// property of the request.
    Hashing,
}

/// Why a login was refused. Unknown e-mail, wrong password and a
/// malformed stored hash are all the same outward kind, so a caller
/// cannot learn which addresses are registered.
#[derive(Debug)]
pub enum LoginError {
    InvalidCredentials,
}

/// A login for `email` with `password` must succeed on `users`: some
/// record carries the address and its stored hash accepts the password.
pub open spec fn login_succeeds(users: Seq<UserRecord>, email: Seq<char>, password: Seq<char>) -> bool {
    exists|i: int| 0 <= i < users.len() && users[i].email@ == email
        && credential_matches(password, users[i].password_hash@)
}

/// Registers one user: validates the input, hashes the password with a
/// fresh salt, draws a fresh identifier, and inserts the record; the
/// store's own atomic duplicate check decides conflicts. For any valid
/// input whose password is under the hasher's size limit, success is
/// owed when the address is free and the distinct duplicate error when
/// it is taken. On success the caller gets the new record's outward
/// view, never the hash and never the plaintext.
pub fn register(store: &mut UserStore, req: &RegisterRequest) -> (r: Result<User, RegisterError>)
    requires
        old(store).wf(),
    ensures
        final(store).wf(),
        (r matches Err(e) && e is Validation) <==> !valid_registration(req.name@, req.email@, req.password@),
        r matches Err(RegisterError::Validation(e)) ==> {
            &&& final(store)@ == old(store)@
            &&& (e.name is Some <==> req.name@.len() == 0)
            &&& (e.email is Some <==> !email_ok(req.email@))
            &&& (e.password is Some <==> req.password@.len() < MIN_PASSWORD_CHARS)
        },
        r matches Err(e) && e is Hashing ==> valid_registration(req.name@, req.email@, req.password@)
            && final(store)@ == old(store)@,
        r matches Err(e) && e is DuplicateEmail ==> valid_registration(req.name@, req.email@, req.password@)
            && has_email(old(store)@, req.email@) && final(store)@ == old(store)@,
        valid_registration(req.name@, req.email@, req.password@) && !has_email(old(store)@, req.email@)
            ==> r is Ok || (r matches Err(e) && e is Hashing),
        valid_registration(req.name@, req.email@, req.password@) && !has_email(old(store)@, req.email@)
            && req.password@.len() < MAX_HASHABLE_PASSWORD_CHARS ==> r is Ok,
        valid_registration(req.name@, req.email@, req.password@) && has_email(old(store)@, req.email@)
            && req.password@.len() < MAX_HASHABLE_PASSWORD_CHARS ==> (r matches Err(e) && e is DuplicateEmail),
        has_email(old(store)@, req.email@) ==> !(r is Ok),
        r matches Ok(u) ==> ({
            let rec = final(store)@.last();
            &&& valid_registration(req.name@, req.email@, req.password@)
            &&& !has_email(old(store)@, req.email@)
            &&& final(store)@ == old(store)@.push(rec)
            &&& rec.name@ == req.name@
            &&& rec.email@ == req.email@
            &&& credential_matches(req.password@, rec.password_hash@)
            &&& rec.id@.len() == 36
            &&& u == public_view(rec)
        }),
{
    if let Err(e) = validate_registration(req) {
        return Err(RegisterError::Validation(e));
    }
    let hash = match hash_password(req.password.as_str()) {
        Some(h) => h,
        None => {
            return Err(RegisterError::Hashing);
        },
    };
    let rec = UserRecord {
        id: fresh_id(),
        name: req.name.clone(),
        email: req.email.clone(),
        password_hash: hash,
    };
    let view = User {
        id: rec.id.clone(),
        name: rec.name.clone(),
        email: rec.email.clone(),
    };
    match store.insert(rec) {
        Ok(()) => Ok(view),
        Err(_) => Err(RegisterError::DuplicateEmail),
    }
}

/// Checks a login attempt: success exactly when a stored record carries
/// the attempt's e-mail address and its hash accepts the password. Every
/// refusal — unknown address, wrong password, malformed stored hash — is
/// the one kind `InvalidCredentials`.
pub fn login(store: &UserStore, req: &LoginRequest) -> (r: Result<(), LoginError>)
    requires
        store.wf(),
    ensures
        r is Ok <==> login_succeeds(store@, req.email@, req.password@),
        r matches Err(e) ==> e == LoginError::InvalidCredentials,
{
    match store.find_by_email(&req.email) {
        Some(rec) => {
            if verify_credential(req.password.as_str(), rec.password_hash.as_str()) {
                Ok(())
            } else {
                proof {
                    let i = choose|i: int|
                        0 <= i < store@.len() && store@[i] == *rec && (#[trigger] store@[i].email@) == req.email@;
                    if login_succeeds(store@, req.email@, req.password@) {
                        let j = choose|j: int| 0 <= j < store@.len() && store@[j].email@ == req.email@
                            && credential_matches(req.password@, store@[j].password_hash@);
                        assert(i == j);
                    }
                }
                Err(LoginError::InvalidCredentials)
            }
        },
        None => Err(LoginError::InvalidCredentials),
    }
}

/// Registering the same e-mail address twice yields exactly one success
/// and one conflict: once a record carrying the address stands in the
/// store, any further record carrying it finds the address taken, so the
/// store's atomic insert must refuse it as a duplicate.
pub proof fn lemma_duplicate_email_conflicts(users: Seq<UserRecord>, first: UserRecord, second: UserRecord)
    requires
        !has_email(users, first.email@),
        second.email@ == first.email@,
    ensures
        has_email(users.push(first), second.email@),
{
    assert(users.push(first)[users.len() as int] == first);
}

/// Login discriminates only on the credential: with the address of a
/// stored record and a password its hash accepts, login must succeed;
/// with a password the hash refuses it must fail; with an address no
/// record carries it must fail — and both failures are one and the same
/// outcome, so they are outwardly indistinguishable.
pub proof fn lemma_login_outcomes(
    users: Seq<UserRecord>,
    k: int,
    correct: Seq<char>,
    wrong: Seq<char>,
    unknown_email: Seq<char>,
    any: Seq<char>,
)
    requires
        emails_unique(users),
        0 <= k < users.len(),
        credential_matches(correct, users[k].password_hash@),
        !credential_matches(wrong, users[k].password_hash@),
        !has_email(users, unknown_email),
    ensures
        login_succeeds(users, users[k].email@, correct),
        !login_succeeds(users, users[k].email@, wrong),
        !login_succeeds(users, unknown_email, any),
{
    if login_succeeds(users, users[k].email@, wrong) {
        let j = choose|j: int| 0 <= j < users.len() && users[j].email@ == users[k].email@
            && credential_matches(wrong, users[j].password_hash@);
        assert(j == k);
    }
}

/// Hash-then-verify round trip: every hash that `hash_password` hands
/// back for a password is one the password matches, so a record built
/// from it can log in as soon as it is stored, whatever salt was drawn
/// and whatever else the store holds.
pub proof fn lemma_hash_then_verify(users: Seq<UserRecord>, rec: UserRecord, password: Seq<char>)
    requires
        credential_matches(password, rec.password_hash@),
    ensures
        login_succeeds(users.push(rec), rec.email@, password),
{
    assert(users.push(rec)[users.len() as int] == rec);
}

} // verus!
