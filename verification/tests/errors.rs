use ferrum_vault::errors::{error_body_json, AuthError, VaultError};

#[test]
fn auth_errors_answer_with_status_and_message() {
    assert_eq!(AuthError::WrongCredentials.into_response(), (401, r#"{"error":"Wrong credentials"}"#.to_string()));
    assert_eq!(AuthError::MissingCredentials.into_response(), (400, r#"{"error":"Missing credentials"}"#.to_string()));
    assert_eq!(AuthError::InvalidToken.into_response(), (400, r#"{"error":"Invalid token"}"#.to_string()));
    assert_eq!(AuthError::NotImplemented.into_response(), (501, r#"{"error":"Not implemented"}"#.to_string()));
    assert_eq!(AuthError::Other("boom".to_string()).into_response(), (500, r#"{"error":"boom"}"#.to_string()));
}

#[test]
fn vault_errors_answer_with_status_and_message() {
    assert_eq!(VaultError::DatabaseError.into_response(), (500, r#"{"error":"internal database error"}"#.to_string()));
    assert_eq!(VaultError::EntryNotFound.into_response(), (404, r#"{"error":"entry not found"}"#.to_string()));
    assert_eq!(VaultError::EncryptionError.into_response(), (500, r#"{"error":"An encryption error occured"}"#.to_string()));
    assert_eq!(VaultError::Other("x".to_string()).into_response(), (500, r#"{"error":"x"}"#.to_string()));
}

#[test]
fn error_body_escapes_the_message() {
    assert_eq!(error_body_json("say \"hi\""), r#"{"error":"say \"hi\""}"#);
    let parsed: serde_json::Value = serde_json::from_str(&error_body_json("a\\b\tc")).unwrap();
    assert_eq!(parsed["error"], "a\\b\tc");
}
