use asset_telemetry::auth::claims::{
    current_time, issue_token, issue_token_at, validate_token, validate_token_at, Claims,
    EXPIRY_LEEWAY_SECS, TOKEN_LIFETIME_SECS,
};
use asset_telemetry::auth::middleware::{bearer_token, Admission, AuthMiddleware, Credential};
use jsonwebtoken::{decode, DecodingKey, Validation};

const SECRET: &[u8] = b"secret";
const HOUR: u64 = 3600;
const T: u64 = 1_700_000_000;

#[test]
fn token_is_accepted_after_23_hours_and_rejected_after_25() {
    let token = issue_token_at("ops@co.com", T, SECRET).expect("issued");
    assert!(validate_token_at(&token, SECRET, T + 23 * HOUR));
    assert!(!validate_token_at(&token, SECRET, T + 25 * HOUR));
}

#[test]
fn token_lives_for_its_lifetime_and_the_leeway() {
    let token = issue_token_at("ops@co.com", T, SECRET).expect("issued");
    assert!(validate_token_at(&token, SECRET, 0));
    assert!(validate_token_at(&token, SECRET, T));
    assert!(validate_token_at(&token, SECRET, T + 24 * HOUR));
    assert!(validate_token_at(&token, SECRET, T + 24 * HOUR + 60));
    assert!(!validate_token_at(&token, SECRET, T + 24 * HOUR + 61));
    assert!(!validate_token_at(&token, SECRET, u64::MAX));
}

#[test]
fn lifetime_is_24_hours_and_leeway_one_minute() {
    assert_eq!(TOKEN_LIFETIME_SECS, 24 * HOUR);
    assert_eq!(EXPIRY_LEEWAY_SECS, 60);
}

#[test]
fn claims_expire_one_lifetime_after_issue() {
    let claims = Claims::issued_at("ops@co.com", T);
    assert_eq!(claims.sub(), "ops@co.com");
    assert_eq!(claims.exp(), T + 86_400);
    assert!(!claims.is_expired_at(T + 23 * HOUR));
    assert!(claims.is_expired_at(T + 25 * HOUR));
    assert!(!claims.is_expired_at(0));
    assert!(!claims.is_expired_at(59));
}

#[test]
fn claims_issued_at_the_end_of_time_saturate() {
    let claims = Claims::issued_at("ops@co.com", u64::MAX - 5);
    assert_eq!(claims.exp(), u64::MAX);
    assert!(!claims.is_expired_at(u64::MAX));
}

#[test]
fn claims_with_email_expire_a_day_from_now() {
    let before = current_time();
    let claims = Claims::with_email("ops@co.com");
    let after = current_time();
    assert_eq!(claims.sub(), "ops@co.com");
    assert!(claims.exp() >= before + 86_400);
    assert!(claims.exp() <= after + 86_400);
}

#[test]
fn current_time_is_recent() {
    let now = current_time();
    assert!(now > 1_577_836_800);
    assert!(now < 4_102_444_800);
}

#[test]
fn token_round_trips_its_claims() {
    let claims = Claims::issued_at("ops@co.com", T);
    let token = claims.sign(SECRET).expect("signed");
    assert!(!token.is_empty());
    assert_eq!(token.split('.').count(), 3);
    assert_ne!(token, "ops@co.com");
    let read = Claims::read(&token, SECRET).expect("readable");
    assert_eq!(read, claims);
}

#[test]
fn token_is_a_function_of_claims_and_secret() {
    let first = issue_token_at("ops@co.com", T, SECRET).expect("issued");
    let second = issue_token_at("ops@co.com", T, SECRET).expect("issued");
    assert_eq!(first, second);
    assert_ne!(first, issue_token_at("ops@co.com", T + 1, SECRET).expect("issued"));
    assert_ne!(first, issue_token_at("sam@co.com", T, SECRET).expect("issued"));
    assert_ne!(first, issue_token_at("ops@co.com", T, b"other").expect("issued"));
}

#[test]
fn token_signed_under_another_secret_is_rejected() {
    let token = issue_token_at("ops@co.com", T, b"one secret").expect("issued");
    assert!(Claims::read(&token, b"another secret").is_none());
    assert!(!validate_token_at(&token, b"another secret", T));
    assert!(validate_token_at(&token, b"one secret", T));
}

#[test]
fn tampered_token_is_rejected() {
    let token = issue_token_at("ops@co.com", T, SECRET).expect("issued");
    let mut tampered = token.clone();
    let last = tampered.pop().expect("not empty");
    tampered.push(if last == 'A' { 'B' } else { 'A' });
    assert!(!validate_token_at(&tampered, SECRET, T));
    assert!(!validate_token_at("", SECRET, T));
    assert!(!validate_token_at("a.b.c", SECRET, T));
    assert!(!validate_token_at("not a token", SECRET, T));
}

#[test]
fn token_without_subject_is_rejected() {
    // {"alg":"HS256","typ":"JWT"} . {"exp":1700086400}, signed under "secret".
    let mut claims = serde_json::Map::new();
    claims.insert("exp".to_string(), serde_json::Value::from(T + 86_400));
    let token = jsonwebtoken::encode(
        &jsonwebtoken::Header::default(),
        &claims,
        &jsonwebtoken::EncodingKey::from_secret(SECRET),
    )
    .expect("encoded");
    assert!(Claims::read(&token, SECRET).is_none());
    assert!(!validate_token_at(&token, SECRET, T));
}

#[test]
fn token_without_expiry_is_rejected() {
    let mut claims = serde_json::Map::new();
    claims.insert("sub".to_string(), serde_json::Value::from("ops@co.com"));
    let token = jsonwebtoken::encode(
        &jsonwebtoken::Header::default(),
        &claims,
        &jsonwebtoken::EncodingKey::from_secret(SECRET),
    )
    .expect("encoded");
    assert!(Claims::read(&token, SECRET).is_none());
    assert!(!validate_token_at(&token, SECRET, 0));
}

#[test]
fn fresh_token_is_valid_now() {
    let token = issue_token("ops@co.com", SECRET).expect("issued");
    assert!(validate_token(&token, SECRET));
    assert!(!validate_token(&token, b"other"));
}

#[test]
fn token_issued_23_hours_ago_is_valid_now_and_one_issued_25_hours_ago_is_not() {
    let now = current_time();
    let recent = issue_token_at("ops@co.com", now - 23 * HOUR, SECRET).expect("issued");
    let stale = issue_token_at("ops@co.com", now - 25 * HOUR, SECRET).expect("issued");
    assert!(validate_token(&recent, SECRET));
    assert!(!validate_token(&stale, SECRET));
}

#[test]
fn expiry_rule_agrees_with_the_token_crate() {
    // The crate's own validator, with its defaults, draws the same line.
    let now = current_time();
    let key = DecodingKey::from_secret(SECRET);
    let check = |token: &str| {
        decode::<serde_json::Map<String, serde_json::Value>>(token, &key, &Validation::default())
            .is_ok()
    };
    for age in [0, 23 * HOUR, 24 * HOUR, 24 * HOUR + 30, 24 * HOUR + 90, 25 * HOUR] {
        let token = issue_token_at("ops@co.com", now - age, SECRET).expect("issued");
        assert_eq!(validate_token_at(&token, SECRET, now), check(&token));
    }
    let recent = issue_token_at("ops@co.com", now - 23 * HOUR, SECRET).expect("issued");
    let stale = issue_token_at("ops@co.com", now - 25 * HOUR, SECRET).expect("issued");
    assert!(check(&recent));
    assert!(!check(&stale));
}

#[test]
fn bearer_token_follows_the_prefix() {
    assert_eq!(bearer_token("Bearer abc.def.ghi"), Some("abc.def.ghi".to_string()));
    assert_eq!(bearer_token("Bearer "), Some(String::new()));
    assert_eq!(bearer_token("Bearer  x"), Some(" x".to_string()));
    assert_eq!(bearer_token("Bearer tökën"), Some("tökën".to_string()));
}

#[test]
fn bearer_token_wants_the_exact_prefix() {
    assert_eq!(bearer_token(""), None);
    assert_eq!(bearer_token("Bearer"), None);
    assert_eq!(bearer_token("bearer abc"), None);
    assert_eq!(bearer_token("Basic abc"), None);
    assert_eq!(bearer_token(" Bearer abc"), None);
    assert_eq!(bearer_token("Béarer abc"), None);
    assert_eq!(bearer_token("abc"), None);
}

#[test]
fn filter_forwards_every_request() {
    let filter = AuthMiddleware.new_transform("service");
    assert_eq!(filter.service, "service");
    let token = issue_token_at("ops@co.com", T, SECRET).expect("issued");
    let header = format!("Bearer {}", token);

    let valid = filter.call_at(Some(&header), SECRET, T + HOUR);
    assert_eq!(valid, Admission { credential: Credential::Valid, forward: true });

    let expired = filter.call_at(Some(&header), SECRET, T + 25 * HOUR);
    assert_eq!(expired, Admission { credential: Credential::Invalid, forward: true });

    let forged = filter.call_at(Some("Bearer forged"), SECRET, T);
    assert_eq!(forged, Admission { credential: Credential::Invalid, forward: true });

    let other_scheme = filter.call_at(Some("Basic dXNlcg=="), SECRET, T);
    assert_eq!(other_scheme, Admission { credential: Credential::Absent, forward: true });

    let absent = filter.call_at(None, SECRET, T);
    assert_eq!(absent, Admission { credential: Credential::Absent, forward: true });
}

#[test]
fn filter_reads_the_clock_when_not_told_the_time() {
    let filter = AuthMiddleware.new_transform(());
    let fresh = format!("Bearer {}", issue_token("ops@co.com", SECRET).expect("issued"));
    let admitted = filter.call(Some(&fresh), SECRET);
    assert_eq!(admitted, Admission { credential: Credential::Valid, forward: true });

    let stale = format!("Bearer {}", issue_token_at("ops@co.com", 1000, SECRET).expect("issued"));
    let admitted = filter.call(Some(&stale), SECRET);
    assert_eq!(admitted, Admission { credential: Credential::Invalid, forward: true });

    assert!(filter.call(None, SECRET).forward);
}
