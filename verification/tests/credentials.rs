use authflow::credentials::{check_email, hash_password};
use authflow::encoding::to_hex;
use authflow::{CredentialError, CredentialStore, Profile};

fn profile() -> Profile {
    Profile { first_name: None, last_name: None, role: None, tenant_id: None }
}

fn named(first: &str, last: &str) -> Profile {
    Profile {
        first_name: Some(first.to_string()),
        last_name: Some(last.to_string()),
        role: Some("admin".to_string()),
        tenant_id: Some("acme".to_string()),
    }
}

#[test]
fn password_hash_is_pbkdf2_hmac_sha256() {
    assert_eq!(
        to_hex(&hash_password("password", b"salt", 1)),
        "120fb6cffcf8b32c43e7225256c4f837a86548c92ccc35480805987cb70be17b"
    );
    assert_eq!(
        to_hex(&hash_password("password", b"salt", 2)),
        "ae4d0c95af6b46d32d0adff928f06dd02a303f8ef3c251dfd6e2d85a95474c43"
    );
    assert_eq!(
        to_hex(&hash_password("password", b"salt", 4096)),
        "c5e478d59288c841aa530db6845c4c8d962893a001ce4e11a4963873aa98134a"
    );
}

#[test]
fn email_key_is_lower_case() {
    assert_eq!(check_email("Ada@Example.COM"), Some(b"ada@example.com".to_vec()));
    assert_eq!(check_email("a@b"), Some(b"a@b".to_vec()));
    assert_eq!(check_email("x+y_z-1@host.tld"), Some(b"x+y_z-1@host.tld".to_vec()));
}

#[test]
fn email_needs_exactly_one_at_inside() {
    assert_eq!(check_email("ada.example.com"), None);
    assert_eq!(check_email("ada@@example.com"), None);
    assert_eq!(check_email("ada@ex@ample.com"), None);
    assert_eq!(check_email("@example.com"), None);
    assert_eq!(check_email("ada@"), None);
    assert_eq!(check_email("a@"), None);
    assert_eq!(check_email("@@@"), None);
}

#[test]
fn email_is_printable_ascii_without_space() {
    assert_eq!(check_email("a da@example.com"), None);
    assert_eq!(check_email("ada@exam\tple.com"), None);
    assert_eq!(check_email("adä@example.com"), None);
    assert_eq!(check_email("ada@example.com\u{7f}"), None);
}

#[test]
fn email_length_is_bounded() {
    assert_eq!(check_email(""), None);
    assert_eq!(check_email("a@"), None);
    let local = "a".repeat(250);
    let longest = format!("{}@b.c", local);
    assert_eq!(longest.len(), 254);
    assert!(check_email(&longest).is_some());
    let too_long = format!("{}a@b.c", local);
    assert_eq!(check_email(&too_long), None);
}

#[test]
fn create_numbers_accounts_in_order() {
    let mut store = CredentialStore::new(2);
    assert_eq!(store.len(), 0);
    let ada = store
        .create("ada@example.com", "correct horse", named("Ada", "Lovelace"), b"s1".to_vec())
        .unwrap();
    assert_eq!(ada.id, "0");
    assert_eq!(ada.email, "ada@example.com");
    assert_eq!(ada.first_name.as_deref(), Some("Ada"));
    assert_eq!(ada.last_name.as_deref(), Some("Lovelace"));
    assert_eq!(ada.role.as_deref(), Some("admin"));
    assert_eq!(ada.tenant_id.as_deref(), Some("acme"));
    let bob = store.create("bob@example.com", "battery staple", profile(), b"s2".to_vec()).unwrap();
    assert_eq!(bob.id, "1");
    assert_eq!(bob.first_name, None);
    assert_eq!(store.len(), 2);
    assert_eq!(store.user(0).unwrap().email, "ada@example.com");
    assert_eq!(store.user(1).unwrap().email, "bob@example.com");
    assert!(store.user(2).is_none());
}

#[test]
fn create_refuses_an_invalid_email() {
    let mut store = CredentialStore::new(2);
    let r = store.create("not-an-email", "correct horse", profile(), b"s".to_vec());
    assert_eq!(r.err(), Some(CredentialError::InvalidEmail));
    assert_eq!(store.len(), 0);
}

#[test]
fn create_refuses_a_short_password() {
    let mut store = CredentialStore::new(2);
    let r = store.create("ada@example.com", "1234567", profile(), b"s".to_vec());
    assert_eq!(r.err(), Some(CredentialError::WeakPassword));
    assert_eq!(store.len(), 0);
    assert!(store.create("ada@example.com", "12345678", profile(), b"s".to_vec()).is_ok());
    assert!(store.create("eve@example.com", "ééééééé", profile(), b"s".to_vec()).is_err());
    assert!(store.create("eve@example.com", "éééééééé", profile(), b"s".to_vec()).is_ok());
}

#[test]
fn create_refuses_a_taken_email_in_any_case() {
    let mut store = CredentialStore::new(2);
    store.create("ada@example.com", "correct horse", profile(), b"s".to_vec()).unwrap();
    let r = store.create("ADA@Example.Com", "another password", profile(), b"t".to_vec());
    assert_eq!(r.err(), Some(CredentialError::DuplicateEmail));
    assert_eq!(store.len(), 1);
    assert_eq!(store.user(0).unwrap().email, "ada@example.com");
}

#[test]
fn create_reports_a_taken_email_before_a_short_password() {
    let mut store = CredentialStore::new(2);
    store.create("ada@example.com", "correct horse", profile(), b"s".to_vec()).unwrap();
    let r = store.create("ada@example.com", "short", profile(), b"t".to_vec());
    assert_eq!(r.err(), Some(CredentialError::DuplicateEmail));
    let r = store.create("ada.example.com", "short", profile(), b"t".to_vec());
    assert_eq!(r.err(), Some(CredentialError::InvalidEmail));
}

#[test]
fn verify_accepts_the_password_that_was_set() {
    let mut store = CredentialStore::new(3);
    store.create("ada@example.com", "correct horse", profile(), b"salt-a".to_vec()).unwrap();
    store.create("bob@example.com", "battery staple", profile(), b"salt-b".to_vec()).unwrap();
    assert_eq!(store.verify("ada@example.com", "correct horse").unwrap().id, "0");
    assert_eq!(store.verify("BOB@EXAMPLE.COM", "battery staple").unwrap().id, "1");
    let (number, user) = store.authenticate("bob@example.com", "battery staple").unwrap();
    assert_eq!(number, 1);
    assert_eq!(user.email, "bob@example.com");
}

#[test]
fn verify_tells_a_missing_account_from_a_wrong_password() {
    let mut store = CredentialStore::new(3);
    store.create("ada@example.com", "correct horse", profile(), b"salt-a".to_vec()).unwrap();
    store.create("bob@example.com", "battery staple", profile(), b"salt-b".to_vec()).unwrap();
    assert_eq!(
        store.verify("ada@example.com", "battery staple").err(),
        Some(CredentialError::BadPassword)
    );
    assert_eq!(
        store.verify("ada@example.com", "correct hors").err(),
        Some(CredentialError::BadPassword)
    );
    assert_eq!(
        store.verify("eve@example.com", "correct horse").err(),
        Some(CredentialError::NotFound)
    );
    assert_eq!(store.verify("nonsense", "correct horse").err(), Some(CredentialError::NotFound));
    assert_eq!(store.verify("", "").err(), Some(CredentialError::NotFound));
}
