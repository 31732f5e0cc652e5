use credential_service::models::LoginRequest;
use credential_service::models::RegisterRequest;
use credential_service::models::UserRecord;
use credential_service::service::login;
use credential_service::service::register;
use credential_service::service::LoginError;
use credential_service::service::RegisterError;
use credential_service::store::InsertError;
use credential_service::store::UserStore;
use credential_service::validate::validate_registration;

fn request(name: &str, email: &str, password: &str) -> RegisterRequest {
    RegisterRequest {
        name: name.to_owned(),
        email: email.to_owned(),
        password: password.to_owned(),
    }
}

#[test]
fn accepts_valid_registration() {
    let req = request("Ana", "ana@example.com", "longenough1");
    assert!(validate_registration(&req).is_ok());

    let mut store = UserStore::new();
    let user = register(&mut store, &req).expect("valid registration must succeed");
    assert_eq!(user.name, "Ana");
    assert_eq!(user.email, "ana@example.com");
    assert_eq!(user.id.len(), 36);
    assert_eq!(store.len(), 1);
}

#[test]
fn rejects_all_invalid_fields_at_once() {
    let req = request("", "not-an-email", "short1");
    let errs = validate_registration(&req).expect_err("invalid input must be rejected");
    assert_eq!(errs.name.as_deref(), Some("Name is required"));
    assert_eq!(errs.email.as_deref(), Some("Invalid email address"));
    assert_eq!(
        errs.password.as_deref(),
        Some("Password must be at least 8 characters long")
    );
}

#[test]
fn rejects_empty_name_alone() {
    let req = request("", "ana@example.com", "longenough1");
    let errs = validate_registration(&req).expect_err("empty name must be rejected");
    assert_eq!(errs.name.as_deref(), Some("Name is required"));
    assert!(errs.email.is_none());
    assert!(errs.password.is_none());
}

#[test]
fn rejects_malformed_email_alone() {
    let req = request("Ana", "not-an-email", "longenough1");
    let errs = validate_registration(&req).expect_err("malformed email must be rejected");
    assert!(errs.name.is_none());
    assert_eq!(errs.email.as_deref(), Some("Invalid email address"));
    assert!(errs.password.is_none());
}

#[test]
fn rejects_short_password_alone() {
    let req = request("Ana", "ana@example.com", "short1");
    let errs = validate_registration(&req).expect_err("short password must be rejected");
    assert!(errs.name.is_none());
    assert!(errs.email.is_none());
    assert_eq!(
        errs.password.as_deref(),
        Some("Password must be at least 8 characters long")
    );
}

#[test]
fn invalid_registration_does_not_reach_the_store() {
    let mut store = UserStore::new();
    let req = request("Ana", "not-an-email", "longenough1");
    let err = register(&mut store, &req).expect_err("invalid input must be rejected");
    assert!(matches!(err, RegisterError::Validation(_)));
    assert_eq!(store.len(), 0);
}

#[test]
fn duplicate_email_yields_one_success_and_one_conflict() {
    let mut store = UserStore::new();
    let first = request("Ana", "ana@example.com", "longenough1");
    let second = request("Another Ana", "ana@example.com", "otherpassword2");

    assert!(register(&mut store, &first).is_ok());
    let err = register(&mut store, &second).expect_err("duplicate email must conflict");
    assert!(matches!(err, RegisterError::DuplicateEmail));
    assert_eq!(store.len(), 1);
}

#[test]
fn store_insert_reports_duplicates_distinctly() {
    let mut store = UserStore::new();
    let rec = UserRecord {
        id: "id-1".to_owned(),
        name: "Ana".to_owned(),
        email: "ana@example.com".to_owned(),
        password_hash: "opaque".to_owned(),
    };
    let dup = UserRecord {
        id: "id-2".to_owned(),
        name: "Ana Again".to_owned(),
        email: "ana@example.com".to_owned(),
        password_hash: "opaque".to_owned(),
    };
    assert!(store.insert(rec).is_ok());
    assert!(matches!(
        store.insert(dup),
        Err(InsertError::DuplicateEmail)
    ));
    assert_eq!(store.len(), 1);
}

#[test]
fn login_accepts_correct_password_only() {
    let mut store = UserStore::new();
    let req = request("Ana", "ana@example.com", "longenough1");
    register(&mut store, &req).expect("registration must succeed");

    let correct = LoginRequest {
        email: "ana@example.com".to_owned(),
        password: "longenough1".to_owned(),
    };
    assert!(login(&store, &correct).is_ok());

    let wrong = LoginRequest {
        email: "ana@example.com".to_owned(),
        password: "wrongpassword9".to_owned(),
    };
    let wrong_err = login(&store, &wrong).expect_err("wrong password must fail");

    let unknown = LoginRequest {
        email: "nobody@example.com".to_owned(),
        password: "longenough1".to_owned(),
    };
    let unknown_err = login(&store, &unknown).expect_err("unknown email must fail");

    assert!(matches!(wrong_err, LoginError::InvalidCredentials));
    assert!(matches!(unknown_err, LoginError::InvalidCredentials));
}
