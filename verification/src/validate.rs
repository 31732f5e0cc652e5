use vstd::prelude::*;

use crate::models::RegisterRequest;
use validator::ValidateEmail;
use vstd::string::StrSliceExecFns;

verus! {

/// Whether a string is a syntactically valid e-mail address in the sense
/// of the HTML5 form-validation grammar. A function of the string alone.
pub uninterp spec fn email_ok(s: Seq<char>) -> bool;

/// Relies on validator::ValidateEmail::validate_email for `&str`: the
/// HTML5 e-mail grammar, a deterministic function of the string alone.
#[verifier::external_body]
fn email_syntax_ok(s: &str) -> (r: bool)
    ensures
        r == email_ok(s@),
{
    s.validate_email()
}

/// The fewest characters a password may have.
pub const MIN_PASSWORD_CHARS: usize = 8;

/// The three structural rules on registration input: a non-empty name,
/// a syntactically valid e-mail address, and a password of at least
/// `MIN_PASSWORD_CHARS` characters.
pub open spec fn valid_registration(name: Seq<char>, email: Seq<char>, password: Seq<char>) -> bool {
    &&& name.len() >= 1
    &&& email_ok(email)
    &&& password.len() >= MIN_PASSWORD_CHARS
}

/// One message per violated rule; a field is `None` when its rule held.
/// Every violation is reported at once, not only the first.
#[derive(Debug)]
pub struct ValidationErrors {
    pub name: Option<String>,
    pub email: Option<String>,
    pub password: Option<String>,
}

/// Checks the structural rules on `req`: `Ok` exactly when all three
/// rules hold, otherwise one message for each violated rule. Pure; no
/// credential work happens before this check passes.
pub fn validate_registration(req: &RegisterRequest) -> (r: Result<(), ValidationErrors>)
    ensures
        r is Ok <==> valid_registration(req.name@, req.email@, req.password@),
        r matches Err(e) ==> {
            &&& (e.name is Some <==> req.name@.len() == 0)
            &&& (e.email is Some <==> !email_ok(req.email@))
            &&& (e.password is Some <==> req.password@.len() < MIN_PASSWORD_CHARS)
            &&& (e.name matches Some(m) ==> m@ == "Name is required"@)
            &&& (e.email matches Some(m) ==> m@ == "Invalid email address"@)
            &&& (e.password matches Some(m) ==> m@ == "Password must be at least 8 characters long"@)
        },
{
    let name_err: Option<String> = if req.name.as_str().is_empty() {
        Some("Name is required".to_owned())
    } else {
        None
    };
    let email_err: Option<String> = if !email_syntax_ok(req.email.as_str()) {
        Some("Invalid email address".to_owned())
    } else {
        None
    };
    let password_err: Option<String> = if req.password.as_str().unicode_len() < MIN_PASSWORD_CHARS {
        Some("Password must be at least 8 characters long".to_owned())
    } else {
        None
    };
    if name_err.is_some() || email_err.is_some() || password_err.is_some() {
        Err(ValidationErrors { name: name_err, email: email_err, password: password_err })
    } else {
        Ok(())
    }
}

} // verus!
