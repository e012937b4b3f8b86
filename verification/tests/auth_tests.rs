use agent_monitor::auth::{
    login, register, token_claims, LoginError, LoginInput, RegisterInput, MAX_TIMESTAMP, MIN_TIMESTAMP,
};

const SECRET: &[u8] = b"test-secret";

#[test]
fn claims_hold_hyphenated_id_and_expiry() {
    let claims = token_claims(0x0123_4567_89ab_cdef_0011_2233_4455_6677, 1_700_086_400);
    assert_eq!(claims, "{\"sub\":\"01234567-89ab-cdef-0011-223344556677\",\"exp\":1700086400}");
    assert_eq!(token_claims(0, 0), "{\"sub\":\"00000000-0000-0000-0000-000000000000\",\"exp\":0}");
}

fn registered(password: &str) -> agent_monitor::auth::NewUser {
    register(RegisterInput { email: "ops@example.com".to_string(), password: password.to_string() }).unwrap()
}

#[test]
fn registration_hashes_the_password() {
    let user = registered("hunter2");
    assert_eq!(user.email, "ops@example.com");
    assert!(user.password_hash.starts_with("$argon2id$"));
    assert!(!user.password_hash.contains("hunter2"));
    assert_eq!(uuid::Uuid::from_u128(user.id).get_version_num(), 4);
    let again = registered("hunter2");
    assert_ne!(user.password_hash, again.password_hash);
}

fn decode(token: &str) -> serde_json::Value {
    let mut validation = jsonwebtoken::Validation::new(jsonwebtoken::Algorithm::HS256);
    validation.validate_exp = false;
    validation.required_spec_claims.clear();
    jsonwebtoken::decode::<serde_json::Value>(token, &jsonwebtoken::DecodingKey::from_secret(SECRET), &validation)
        .unwrap()
        .claims
}

#[test]
fn login_with_registered_password_issues_day_long_token() {
    let user = registered("correct horse");
    let input = LoginInput { email: user.email.clone(), password: "correct horse".to_string() };
    let answer = login(user.id, &user.password_hash, &input, 1_700_000_000, SECRET).unwrap();
    let claims = decode(&answer.token);
    assert_eq!(claims["exp"].as_u64(), Some(1_700_086_400));
    assert_eq!(claims["sub"].as_str(), Some(uuid::Uuid::from_u128(user.id).to_string().as_str()));
    let payload = answer.token.split('.').nth(1).unwrap().to_string();
    let expected = jsonwebtoken::encode(
        &jsonwebtoken::Header::default(),
        &serde_json::value::RawValue::from_string(token_claims(user.id, 1_700_086_400)).unwrap(),
        &jsonwebtoken::EncodingKey::from_secret(SECRET),
    )
    .unwrap();
    assert_eq!(answer.token, expected);
    assert!(!payload.is_empty());
}

#[test]
fn login_with_other_password_is_refused() {
    let user = registered("correct horse");
    let input = LoginInput { email: user.email.clone(), password: "battery staple".to_string() };
    assert!(matches!(login(user.id, &user.password_hash, &input, 1_700_000_000, SECRET), Err(LoginError::WrongPassword)));
}

#[test]
fn login_against_malformed_hash_is_refused() {
    let input = LoginInput { email: "x@y".to_string(), password: "pw".to_string() };
    assert!(matches!(login(1, "not a phc string", &input, 1_700_000_000, SECRET), Err(LoginError::WrongPassword)));
}

#[test]
fn login_beyond_the_calendar_is_refused() {
    let user = registered("pw");
    let input = LoginInput { email: user.email.clone(), password: "pw".to_string() };
    assert!(matches!(login(user.id, &user.password_hash, &input, i64::MAX - 10, SECRET), Err(LoginError::ClockOutOfRange)));
    assert!(matches!(
        login(user.id, &user.password_hash, &input, MAX_TIMESTAMP - 86_399, SECRET),
        Err(LoginError::ClockOutOfRange)
    ));
    assert!(login(user.id, &user.password_hash, &input, MAX_TIMESTAMP - 86_400, SECRET).is_ok());
    assert!(matches!(
        login(user.id, &user.password_hash, &input, MIN_TIMESTAMP - 1, SECRET),
        Err(LoginError::ClockOutOfRange)
    ));
    assert!(login(user.id, &user.password_hash, &input, MIN_TIMESTAMP, SECRET).is_ok());
}

#[test]
fn timestamp_bounds_are_chronos() {
    assert_eq!(chrono::DateTime::<chrono::Utc>::MAX_UTC.timestamp(), MAX_TIMESTAMP);
    assert_eq!(chrono::DateTime::<chrono::Utc>::MIN_UTC.timestamp(), MIN_TIMESTAMP);
}

#[test]
fn registration_accepts_empty_and_unicode_passwords() {
    for password in ["", "pässwörd ✓", "a much longer password with spaces and digits 0123456789"] {
        let user = registered(password);
        let input = LoginInput { email: user.email.clone(), password: password.to_string() };
        assert!(login(user.id, &user.password_hash, &input, 0, SECRET).is_ok());
    }
}
