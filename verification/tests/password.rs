use seeder::{checked_hash, hash_password, SeedError, HASH_COST};

#[test]
fn hash_cost_is_the_lowest_that_bcrypt_takes() {
    assert_eq!(HASH_COST, 4);
    assert!(bcrypt::hash("x", HASH_COST - 1).is_err());
    assert!(bcrypt::hash("x", HASH_COST).is_ok());
}

#[test]
fn hash_password_gives_a_bcrypt_hash_of_the_lowest_cost() {
    let hashed = hash_password(String::from("testuser")).unwrap();
    assert_eq!(hashed.chars().count(), 60);
    assert!(hashed.starts_with("$2b$04$"));
}

#[test]
fn hash_password_hashes_the_password_that_it_is_given() {
    for plain in ["testuser", "testmasteruser", "", "correct horse battery staple"] {
        let hashed = hash_password(String::from(plain)).unwrap();
        assert!(bcrypt::verify(plain, &hashed).unwrap());
        assert!(!bcrypt::verify("another password", &hashed).unwrap());
    }
}

#[test]
fn stored_password_differs_from_its_plaintext() {
    for plain in ["testuser", "testmasteruser", "", "a much longer pass phrase, with spaces"] {
        let hashed = hash_password(String::from(plain)).unwrap();
        assert_ne!(hashed, plain);
    }
}

#[test]
fn two_hashes_of_one_password_both_verify() {
    let first = hash_password(String::from("testuser")).unwrap();
    let second = hash_password(String::from("testuser")).unwrap();
    assert!(bcrypt::verify("testuser", &first).unwrap());
    assert!(bcrypt::verify("testuser", &second).unwrap());
    assert!(!bcrypt::verify("testmasteruser", &first).unwrap());
}

#[test]
fn checked_hash_keeps_a_hash_that_is_not_the_password() {
    let plain = String::from("testuser");
    let hashed = String::from("$2b$04$EGdrhbKUv8Oc9vGiXX0HQOxSg445d458Muh7DAHskb6QbtCvdxcie");
    assert_eq!(checked_hash(&plain, Ok(hashed.clone())), Ok(hashed));
}

#[test]
fn checked_hash_refuses_the_password_itself() {
    let plain = String::from("testuser");
    assert_eq!(checked_hash(&plain, Ok(String::from("testuser"))), Err(SeedError::HashIsPlaintext));
}

#[test]
fn checked_hash_reports_a_failed_hashing() {
    let plain = String::from("testuser");
    let outcome = bcrypt::hash("testuser", 3);
    assert!(outcome.is_err());
    assert_eq!(checked_hash(&plain, outcome), Err(SeedError::HashFailed));
}
