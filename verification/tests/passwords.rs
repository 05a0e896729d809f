use budget::passwords::{
    can_hash, can_verify, check_password, hash_password, sign_in_check, verify_password,
};

const KNOWN: &str = "$argon2i$v=19$m=4096,t=3,p=1$c29tZXNhbHQ$iWh06vD8Fy27wf9npn6FXWiCX4K6pW6Ue1Bnzz07Z8A";

#[test]
fn hashes_with_the_default_configuration() {
    assert!(can_hash("password", b"somesalt"));
    assert_eq!(hash_password("password", b"somesalt"), KNOWN);
}

#[test]
fn a_short_salt_cannot_be_used() {
    assert!(!can_hash("password", b"short"));
    assert!(can_hash("", b"12345678"));
}

#[test]
fn verification_passes_on_any_checkable_hash() {
    assert!(can_verify("password", KNOWN));
    verify_password("password", KNOWN);
    assert!(can_verify("not the password", KNOWN));
    verify_password("not the password", KNOWN);
    assert!(!can_verify("password", "not a hash"));
}

#[test]
fn signing_in_checks_the_stored_password_against_a_fresh_hash() {
    let stored = hash_password("secret", b"somesalt");
    assert_eq!(sign_in_check(&stored, "secret", b"somesalt"), stored);
    let fresh = sign_in_check(&stored, "wrong", b"somesalt");
    assert_eq!(fresh, hash_password("wrong", b"somesalt"));
    assert!(can_verify(&stored, &fresh));
}

#[test]
fn a_stored_hash_checks_against_its_password() {
    let stored = hash_password("secret", b"somesalt");
    assert!(stored.starts_with("$argon2i$v=19$m=4096,t=3,p=1$"));
    assert_eq!(check_password("secret", &stored), Some(true));
    assert_eq!(check_password("other", &stored), Some(false));
    assert_eq!(check_password("secret", "not a hash"), None);
}
