use argon2::password_hash::{PasswordHash, PasswordHasher, PasswordVerifier, SaltString};
use argon2::Argon2;
use asset_telemetry::error::CustomError;
use asset_telemetry::user::users::{
    embedded_salt, generate_id, hash_with_salt, is_email_valid, multi_scheme_hash,
    verify_password,
};
use sha2::{Digest, Sha512};

const SALT: &str = "c29tZXNhbHRzb21lc2FsdA";

#[test]
fn hash_then_verify_same_password() {
    let hash = multi_scheme_hash("p@ss1").expect("hashing works");
    assert!(matches!(verify_password(&hash, "p@ss1"), Ok(true)));
}

#[test]
fn hash_then_verify_empty_password() {
    let hash = multi_scheme_hash("").expect("hashing works");
    assert!(matches!(verify_password(&hash, ""), Ok(true)));
    assert!(matches!(verify_password(&hash, " "), Ok(false)));
}

#[test]
fn hash_then_verify_other_password_fails() {
    let hash = multi_scheme_hash("correct horse").expect("hashing works");
    let verdict = verify_password(&hash, "battery staple");
    assert!(matches!(verdict, Ok(false)));
}

#[test]
fn hash_is_a_versioned_argon2_string() {
    let hash = multi_scheme_hash("p@ss1").expect("hashing works");
    assert!(hash.starts_with("$argon2id$v=19$"));
    assert_ne!(hash, "p@ss1");
}

#[test]
fn two_hashes_of_one_password_differ_by_salt() {
    let first = multi_scheme_hash("p@ss1").expect("hashing works");
    let second = multi_scheme_hash("p@ss1").expect("hashing works");
    assert_ne!(first, second);
    assert!(matches!(verify_password(&first, "p@ss1"), Ok(true)));
    assert!(matches!(verify_password(&second, "p@ss1"), Ok(true)));
}

#[test]
fn hash_with_salt_is_a_function_of_password_and_salt() {
    let first = hash_with_salt("p@ss1", SALT).expect("hashing works");
    let second = hash_with_salt("p@ss1", SALT).expect("hashing works");
    let other = hash_with_salt("p@ss2", SALT).expect("hashing works");
    assert_eq!(first, second);
    assert_ne!(first, other);
    assert!(first.contains(SALT));
}

#[test]
fn hash_with_salt_refuses_a_salt_that_is_no_b64() {
    let outcome = hash_with_salt("p@ss1", "not a salt!");
    assert!(matches!(outcome, Err(CustomError::Argon2Error(_))));
}

#[test]
fn chain_digests_before_the_memory_hard_step() {
    // The stored hash is Argon2 of the SHA-512 digest, not of the password.
    let hash = hash_with_salt("p@ss1", SALT).expect("hashing works");
    let salt = SaltString::from_b64(SALT).expect("a valid salt");

    let raw = Argon2::default().hash_password(b"p@ss1", &salt).expect("hashing works").to_string();
    assert_ne!(hash, raw);

    let digest = Sha512::digest(b"p@ss1");
    let chained =
        Argon2::default().hash_password(digest.as_slice(), &salt).expect("hashing works").to_string();
    assert_eq!(hash, chained);
}

#[test]
fn raw_password_does_not_verify_against_the_chain() {
    let hash = multi_scheme_hash("p@ss1").expect("hashing works");
    let parsed = PasswordHash::new(&hash).expect("a PHC string");
    assert!(Argon2::default().verify_password(b"p@ss1", &parsed).is_err());
    let digest = Sha512::digest(b"p@ss1");
    assert!(Argon2::default().verify_password(digest.as_slice(), &parsed).is_ok());
}

#[test]
fn hash_of_raw_password_is_not_accepted() {
    let salt = SaltString::from_b64(SALT).expect("a valid salt");
    let raw = Argon2::default().hash_password(b"p@ss1", &salt).expect("hashing works").to_string();
    assert!(matches!(verify_password(&raw, "p@ss1"), Ok(false)));
}

#[test]
fn malformed_stored_hash_is_neither_accepted_nor_a_mismatch() {
    for hash in ["", "not-a-hash", "plainly wrong", "$argon2id$", "argon2id$v=19$x"] {
        let verdict = verify_password(hash, "p@ss1");
        assert!(!matches!(verdict, Ok(_)));
        assert!(matches!(verdict, Err(CustomError::Argon2Error(_))));
        assert!(matches!(embedded_salt(hash), Err(CustomError::Argon2Error(_))));
    }
}

#[test]
fn hash_of_another_algorithm_cannot_be_recomputed() {
    // Parses as a PHC string, but is no Argon2 hash.
    let scrypt = "$scrypt$ln=16,r=8,p=1$aM15713r3Xsvxbi31lqr1Q$nFNh2CVHVjNldFVKDHDlm4CbdRSCdEBsjjJxD+iCs5E";
    assert!(matches!(embedded_salt(scrypt), Ok(Some(salt)) if salt == "aM15713r3Xsvxbi31lqr1Q"));
    assert!(matches!(verify_password(scrypt, "p@ss1"), Err(CustomError::Argon2Error(_))));
}

#[test]
fn hash_without_salt_parses_and_matches_nothing() {
    assert!(matches!(embedded_salt("$argon2id"), Ok(None)));
    assert!(matches!(verify_password("$argon2id", "p@ss1"), Ok(false)));
}

#[test]
fn each_hash_carries_its_own_salt() {
    let other_salt = "b3RoZXJzYWx0b3RoZXJzYQ";
    let first = hash_with_salt("p@ss1", SALT).expect("hashing works");
    let second = hash_with_salt("p@ss1", other_salt).expect("hashing works");
    assert_ne!(first, second);
    assert!(matches!(embedded_salt(&first), Ok(Some(salt)) if salt == SALT));
    assert!(matches!(embedded_salt(&second), Ok(Some(salt)) if salt == other_salt));
    assert!(matches!(verify_password(&first, "p@ss1"), Ok(true)));
    assert!(matches!(verify_password(&second, "p@ss1"), Ok(true)));
}

#[test]
fn drawn_salts_are_recorded_and_differ() {
    let first = multi_scheme_hash("p@ss1").expect("hashing works");
    let second = multi_scheme_hash("p@ss1").expect("hashing works");
    let first_salt = embedded_salt(&first).expect("parses").expect("has a salt");
    let second_salt = embedded_salt(&second).expect("parses").expect("has a salt");
    assert_eq!(first_salt.len(), 22);
    assert_ne!(first_salt, second_salt);
    assert_eq!(first, hash_with_salt("p@ss1", &first_salt).expect("hashing works"));
    assert_eq!(second, hash_with_salt("p@ss1", &second_salt).expect("hashing works"));
}

#[test]
fn no_password_is_refused_for_its_content_or_length() {
    let long = "x".repeat(1 << 20);
    for password in ["", " ", "\0", "pässwörd-密码", long.as_str()] {
        let hash = multi_scheme_hash(password).expect("hashing works");
        assert!(matches!(verify_password(&hash, password), Ok(true)));
    }
    let hash = multi_scheme_hash(&long).expect("hashing works");
    assert!(matches!(verify_password(&hash, &long[1..]), Ok(false)));
}

#[test]
fn malformed_stored_hash_is_an_error() {
    assert!(matches!(verify_password("", "p@ss1"), Err(CustomError::Argon2Error(_))));
    assert!(matches!(verify_password("plainly wrong", "p@ss1"), Err(CustomError::Argon2Error(_))));
    assert!(matches!(verify_password("$argon2id$", "p@ss1"), Err(CustomError::Argon2Error(_))));
}

#[test]
fn verify_password_handles_non_ascii() {
    let hash = multi_scheme_hash("pässwörd-密码").expect("hashing works");
    assert!(matches!(verify_password(&hash, "pässwörd-密码"), Ok(true)));
    assert!(matches!(verify_password(&hash, "passwoerd"), Ok(false)));
}

#[test]
fn email_with_at_sign_is_valid() {
    assert!(is_email_valid("ops@co.com"));
    assert!(is_email_valid("@"));
    assert!(is_email_valid("a@b@c"));
    assert!(is_email_valid("trailing@"));
    assert!(is_email_valid("ünï@cödé"));
}

#[test]
fn email_without_at_sign_is_invalid() {
    assert!(!is_email_valid(""));
    assert!(!is_email_valid("ops.co.com"));
    assert!(!is_email_valid("ops(at)co.com"));
    assert!(!is_email_valid("ünïcödé"));
}

#[test]
fn generated_ids_are_positive() {
    for _ in 0..200 {
        let id = generate_id();
        assert!(id >= 1);
    }
}

#[test]
fn generated_ids_vary() {
    let first = generate_id();
    let mut differs = false;
    for _ in 0..50 {
        if generate_id() != first {
            differs = true;
        }
    }
    assert!(differs);
}

#[test]
fn error_message_carries_heading_and_detail() {
    let other = CustomError::OtherError("Not Found".to_string());
    assert_eq!(other.message(), "Other error: Not Found");

    let hashing = verify_password("plainly wrong", "p@ss1").expect_err("malformed");
    assert!(hashing.message().starts_with("Argon2 error: "));
    assert!(hashing.message().len() > "Argon2 error: ".len());

    let storage = CustomError::from(sqlx::Error::RowNotFound);
    assert!(matches!(storage, CustomError::SqlxError(_)));
    assert!(storage.message().starts_with("SQLx error: "));
}

#[test]
fn argon2_error_converts_into_custom_error() {
    let error = CustomError::from(argon2::password_hash::Error::Password);
    assert!(matches!(
        error,
        CustomError::Argon2Error(argon2::password_hash::Error::Password)
    ));
    assert_eq!(error.message(), "Argon2 error: invalid password");
}
