use ferrum_vault::token::{
    claims_expiring, generate_refresh_token, generate_session_token, sign_claims, token_at, Claims,
    TokenError, REFRESH_SECRET_KEY, SESSION_SECRET_KEY,
};
use jsonwebtoken::{decode, Algorithm, DecodingKey, Validation};

fn claims_of(token: &str, secret: &str, check_exp: bool) -> Option<serde_json::Value> {
    let mut validation = Validation::new(Algorithm::HS256);
    validation.validate_exp = check_exp;
    if !check_exp {
        validation.required_spec_claims.clear();
    }
    decode::<serde_json::Value>(token, &DecodingKey::from_secret(secret.as_bytes()), &validation)
        .ok()
        .map(|d| d.claims)
}

fn now() -> u64 {
    std::time::SystemTime::now().duration_since(std::time::UNIX_EPOCH).unwrap().as_secs()
}

#[test]
fn claims_json_is_what_serde_writes() {
    let c = Claims { sub: "42".to_string(), exp: 1700000000 };
    assert_eq!(c.to_json(), r#"{"sub":"42","exp":1700000000}"#);
    let q = Claims { sub: "a\"b\\c\n".to_string(), exp: 0 };
    assert_eq!(q.to_json(), r#"{"sub":"a\"b\\c\n","exp":0}"#);
}

#[test]
fn claims_expire_after_lifetime() {
    let c = claims_expiring("1".to_string(), 1000, 300).unwrap();
    assert_eq!(c.sub, "1");
    assert_eq!(c.exp, 1300);
    assert!(claims_expiring("1".to_string(), u64::MAX - 10, 300).is_none());
}

#[test]
fn expiration_overflow_is_reported() {
    assert_eq!(token_at("1".to_string(), u64::MAX, 300, SESSION_SECRET_KEY), Err(TokenError::ExpirationOverflow));
}

#[test]
fn signed_claims_decode_with_the_secret() {
    let c = Claims { sub: "9".to_string(), exp: 300 };
    let token = sign_claims(&c, "k").unwrap();
    let claims = claims_of(&token, "k", false).unwrap();
    assert_eq!(claims["sub"], "9");
    assert_eq!(claims["exp"], 300);
    assert!(claims_of(&token, "other", false).is_none());
}

#[test]
fn token_at_matches_jsonwebtoken_encoding() {
    let token = token_at("17".to_string(), 1000, 300, SESSION_SECRET_KEY).unwrap();
    let claims = claims_of(&token, SESSION_SECRET_KEY, false).unwrap();
    assert_eq!(claims["sub"], "17");
    assert_eq!(claims["exp"], 1300);
}

#[test]
fn session_token_lives_five_minutes() {
    let before = now();
    let token = generate_session_token("42".to_string()).unwrap();
    let claims = claims_of(&token, SESSION_SECRET_KEY, true).unwrap();
    assert_eq!(claims["sub"], "42");
    let exp = claims["exp"].as_u64().unwrap();
    assert!(exp >= before + 300 && exp <= now() + 300);
    assert!(claims_of(&token, REFRESH_SECRET_KEY, true).is_none());
}

#[test]
fn refresh_token_lives_seven_days() {
    let before = now();
    let token = generate_refresh_token("42".to_string()).unwrap();
    let claims = claims_of(&token, REFRESH_SECRET_KEY, true).unwrap();
    assert_eq!(claims["sub"], "42");
    let exp = claims["exp"].as_u64().unwrap();
    assert!(exp >= before + 604800 && exp <= now() + 604800);
    assert!(claims_of(&token, SESSION_SECRET_KEY, true).is_none());
}

#[test]
fn session_token_for_42_at_1000_carries_exp_1300() {
    let token = token_at("42".to_string(), 1000, 300, SESSION_SECRET_KEY).unwrap();
    let claims = claims_of(&token, SESSION_SECRET_KEY, false).unwrap();
    assert_eq!(claims.as_object().unwrap().len(), 2);
    assert_eq!(claims["sub"], "42");
    assert_eq!(claims["exp"], 1300);
    assert_eq!(token.split('.').count(), 3);
}

#[test]
fn refresh_token_for_7_at_1000_carries_exp_605800() {
    let token = token_at("7".to_string(), 1000, 604800, REFRESH_SECRET_KEY).unwrap();
    let claims = claims_of(&token, REFRESH_SECRET_KEY, false).unwrap();
    assert_eq!(claims.as_object().unwrap().len(), 2);
    assert_eq!(claims["sub"], "7");
    assert_eq!(claims["exp"], 605800);
}

#[test]
fn claims_with_control_chars_are_escaped_as_serde_json_does() {
    let c = Claims { sub: "\u{1}\u{8}\u{c}\t\r/é".to_string(), exp: 3 };
    let expected = serde_json::to_string(&c.sub).unwrap();
    assert_eq!(c.to_json(), format!("{{\"sub\":{},\"exp\":3}}", expected));
    assert!(sign_claims(&c, "k").is_ok());
}

#[test]
fn control_chars_use_short_or_unicode_escapes() {
    let c = Claims { sub: "\u{1}\u{1f}\u{8}\"\\x".to_string(), exp: 3 };
    assert_eq!(c.to_json(), r#"{"sub":"\u0001\u001f\b\"\\x","exp":3}"#);
}

use ferrum_vault::token::{verify_refresh_token, verify_session_token, verify_token_at};

#[test]
fn issued_session_token_verifies_to_its_claims() {
    let token = generate_session_token("42".to_string()).unwrap();
    let claims = verify_session_token(&token).unwrap();
    assert_eq!(claims.sub, "42");
    assert!(claims.exp as u64 >= now() + 299);
    assert_eq!(verify_refresh_token(&token).unwrap_err(), TokenError::Invalid);
}

#[test]
fn issued_refresh_token_verifies_to_its_claims() {
    let token = generate_refresh_token("7".to_string()).unwrap();
    let claims = verify_refresh_token(&token).unwrap();
    assert_eq!(claims.sub, "7");
    assert_eq!(verify_session_token(&token).unwrap_err(), TokenError::Invalid);
}

#[test]
fn tokens_expire_after_the_leeway() {
    let token = token_at("1".to_string(), 1000, 300, SESSION_SECRET_KEY).unwrap();
    let c = verify_token_at(&token, SESSION_SECRET_KEY, 1360).unwrap();
    assert_eq!((c.sub.as_str(), c.exp), ("1", 1300));
    assert_eq!(verify_token_at(&token, SESSION_SECRET_KEY, 1361).unwrap_err(), TokenError::Expired);
    assert_eq!(verify_token_at(&token, SESSION_SECRET_KEY, 0).unwrap().exp, 1300);
}

#[test]
fn malformed_tokens_are_invalid() {
    assert_eq!(verify_session_token("not a token").unwrap_err(), TokenError::Invalid);
    let mut map = serde_json::Map::new();
    map.insert("sub".to_string(), serde_json::Value::from(5));
    map.insert("exp".to_string(), serde_json::Value::from(now() + 300));
    let numeric_sub = jsonwebtoken::encode(
        &jsonwebtoken::Header::default(),
        &serde_json::Value::Object(map),
        &jsonwebtoken::EncodingKey::from_secret(SESSION_SECRET_KEY.as_bytes()),
    )
    .unwrap();
    assert_eq!(verify_session_token(&numeric_sub).unwrap_err(), TokenError::Invalid);
    let mut no_exp = serde_json::Map::new();
    no_exp.insert("sub".to_string(), serde_json::Value::from("5"));
    let missing_exp = jsonwebtoken::encode(
        &jsonwebtoken::Header::default(),
        &serde_json::Value::Object(no_exp),
        &jsonwebtoken::EncodingKey::from_secret(SESSION_SECRET_KEY.as_bytes()),
    )
    .unwrap();
    assert_eq!(verify_session_token(&missing_exp).unwrap_err(), TokenError::Invalid);
}
