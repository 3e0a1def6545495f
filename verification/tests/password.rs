use auth_gate::password::{hash_password, stored_hash, verify_password, PasswordCheck, HASH_COST};

#[test]
fn hash_matches_its_password_only() {
    let hash = bcrypt::hash("s3cret-pw", 4).unwrap();
    assert_eq!(verify_password("s3cret-pw", &hash), PasswordCheck::Match);
    assert_eq!(verify_password("s3cret-pW", &hash), PasswordCheck::Mismatch);
    assert_eq!(verify_password("", &hash), PasswordCheck::Mismatch);
}

#[test]
fn known_hash_is_recognised() {
    let hash = "$2y$05$bvIG6Nmid91Mu9RcmmWZfO5HJIMCT8riNW0hEp8f6/FuA2/mHZFpe";
    assert_eq!(verify_password("password", hash), PasswordCheck::Match);
    assert_eq!(verify_password("passw0rd", hash), PasswordCheck::Mismatch);
}

#[test]
fn text_that_is_no_hash_is_unreadable() {
    assert_eq!(verify_password("s3cret-pw", ""), PasswordCheck::Unreadable);
    assert_eq!(verify_password("s3cret-pw", "s3cret-pw"), PasswordCheck::Unreadable);
    assert_eq!(verify_password("s3cret-pw", "$2b$12$tooshort"), PasswordCheck::Unreadable);
}

#[test]
fn new_hash_is_salted_and_verifies() {
    assert_eq!(HASH_COST, 12);
    let first = hash_password("s3cret-pw").unwrap();
    assert_ne!(first, "s3cret-pw");
    assert_eq!(first.len(), 60);
    assert!(first.starts_with("$2b$12$"));
    assert_eq!(verify_password("s3cret-pw", &first), PasswordCheck::Match);
    assert_eq!(verify_password("other-pw", &first), PasswordCheck::Mismatch);
}

#[test]
fn only_a_hash_that_was_made_is_stored() {
    assert_eq!(stored_hash(Ok("$2b$12$abc".to_string())), Some("$2b$12$abc".to_string()));
    assert_eq!(stored_hash(Ok(String::new())), Some(String::new()));
    assert_eq!(stored_hash(Err(bcrypt::BcryptError::CostNotAllowed(3))), None);
    assert_eq!(stored_hash(Err(bcrypt::BcryptError::InvalidHash("no hash"))), None);
    assert_eq!(stored_hash(Err(bcrypt::BcryptError::Truncation(73))), None);
}
