use credential_service::credential::hash_password;
use credential_service::credential::verify_credential;
use credential_service::models::RegisterRequest;
use credential_service::store::UserStore;
use credential_service::service::register;

#[test]
fn hashing_draws_distinct_salts_but_always_verifies() {
    let password = "longenough1";
    let first = hash_password(password).expect("hashing must succeed");
    let second = hash_password(password).expect("hashing must succeed");

    assert_ne!(first, second);
    assert!(verify_credential(password, &first));
    assert!(verify_credential(password, &second));
    assert!(!verify_credential("wrongpassword9", &first));
    assert!(!verify_credential("wrongpassword9", &second));
}

#[test]
fn verification_is_deterministic() {
    let password = "longenough1";
    let hash = hash_password(password).expect("hashing must succeed");
    for _ in 0..3 {
        assert!(verify_credential(password, &hash));
        assert!(!verify_credential("longenough2", &hash));
    }
}

#[test]
fn malformed_stored_hash_is_a_mismatch_not_a_crash() {
    assert!(!verify_credential("longenough1", "not-an-encoded-hash"));
    assert!(!verify_credential("longenough1", ""));
}

#[test]
fn hash_embeds_algorithm_and_salt() {
    let hash = hash_password("longenough1").expect("hashing must succeed");
    assert!(hash.starts_with("$argon2"));
}

#[test]
fn listing_and_lookup_return_only_non_secret_fields() {
    let mut store = UserStore::new();
    let ana = RegisterRequest {
        name: "Ana".to_owned(),
        email: "ana@example.com".to_owned(),
        password: "longenough1".to_owned(),
    };
    let bob = RegisterRequest {
        name: "Bob".to_owned(),
        email: "bob@example.com".to_owned(),
        password: "alsolongenough2".to_owned(),
    };
    let ana_view = register(&mut store, &ana).expect("registration must succeed");
    register(&mut store, &bob).expect("registration must succeed");

    let listed = store.list_users();
    assert_eq!(listed.len(), 2);
    assert_eq!(listed[0].name, "Ana");
    assert_eq!(listed[0].email, "ana@example.com");
    assert_eq!(listed[1].name, "Bob");
    assert_eq!(listed[1].email, "bob@example.com");

    let fetched = store
        .get_by_id(&ana_view.id)
        .expect("a stored id must be found");
    assert_eq!(fetched.id, ana_view.id);
    assert_eq!(fetched.name, "Ana");
    assert_eq!(fetched.email, "ana@example.com");
}

#[test]
fn fetching_an_unknown_id_is_not_found_not_an_error() {
    let mut store = UserStore::new();
    let ana = RegisterRequest {
        name: "Ana".to_owned(),
        email: "ana@example.com".to_owned(),
        password: "longenough1".to_owned(),
    };
    register(&mut store, &ana).expect("registration must succeed");

    let missing = store.get_by_id(&"00000000-0000-0000-0000-000000000000".to_owned());
    assert!(missing.is_none());

    let empty = UserStore::new();
    assert!(empty.get_by_id(&"anything".to_owned()).is_none());
}
