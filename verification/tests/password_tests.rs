use rust_rmce_api::password::{check_password, hash_password};

#[test]
fn hash_verifies_against_its_password() {
    let hash = hash_password("SecurePass123!").unwrap();
    assert_ne!(hash, "SecurePass123!");
    assert_eq!(hash.len(), 60);
    assert_eq!(check_password("SecurePass123!", &hash), Some(true));
}

#[test]
fn hash_does_not_verify_against_another_password() {
    let hash = hash_password("SecurePass123!").unwrap();
    assert_eq!(check_password("wrong_password", &hash), Some(false));
    assert_eq!(check_password("", &hash), Some(false));
}

#[test]
fn hashes_are_salted() {
    let one = hash_password("same").unwrap();
    let two = hash_password("same").unwrap();
    assert_ne!(one, two);
    assert_eq!(check_password("same", &one), Some(true));
    assert_eq!(check_password("same", &two), Some(true));
}

#[test]
fn a_known_hash_verifies() {
    // bcrypt test vector, cost 4
    let hash = "$2a$04$zVHmKQtGGQob.b/Nc7l9NO8UlrYcW05FiuCj/SxsFO/ZtiN9.mNzy";
    assert_eq!(check_password("", hash), Some(true));
    assert_eq!(check_password("a", hash), Some(false));
}

#[test]
fn a_text_that_is_no_hash_gives_no_verdict() {
    assert_eq!(check_password("pw", "not-a-hash"), None);
    assert_eq!(check_password("pw", ""), None);
    assert_eq!(check_password("pw", "pw"), None);
}

#[test]
fn every_hash_verifies_against_its_own_password() {
    let long = "x".repeat(100);
    for password in ["", "a", "pässwörd ✓", "with\0nul", long.as_str()] {
        let hash = hash_password(password).unwrap();
        assert_eq!(check_password(password, &hash), Some(true), "{:?}", password);
    }
}
