//! The errors the API answers with: each maps to an HTTP status and a JSON
//! body `{"error": <message>}`.

use vstd::prelude::*;
use crate::encoding::{json_quote, json_string_literal, push_char, push_str};

verus! {

/// HTTP status 400 Bad Request.
pub const STATUS_BAD_REQUEST: u16 = 400;
/// HTTP status 401 Unauthorized.
pub const STATUS_UNAUTHORIZED: u16 = 401;
/// HTTP status 404 Not Found.
pub const STATUS_NOT_FOUND: u16 = 404;
/// HTTP status 500 Internal Server Error.
pub const STATUS_INTERNAL_SERVER_ERROR: u16 = 500;
/// HTTP status 501 Not Implemented.
pub const STATUS_NOT_IMPLEMENTED: u16 = 501;

/// The JSON body of an error answer: `{"error":<message>}`, as serde_json
/// writes that object.
pub open spec fn error_body(message: Seq<char>) -> Seq<char> {
    "{\"error\":"@ + json_string_literal(message) + seq!['}']
}

/// Writes the JSON body of an error answer.
pub fn error_body_json(message: &str) -> (r: String)
    ensures
        r@ == error_body(message@),
{
    let mut s = "{\"error\":".to_owned();
    let quoted = json_quote(message);
    push_str(&mut s, quoted.as_str());
    push_char(&mut s, '}');
    s
}

/// Errors of the account and session endpoints.
#[derive(Debug, Clone)]
pub enum AuthError {
    WrongCredentials,
    MissingCredentials,
    InvalidToken,
    NotImplemented,
    Other(String),
}

impl AuthError {
    /// The HTTP status the error is answered with.
    pub open spec fn status_of(&self) -> u16 {
        match self {
            AuthError::WrongCredentials => STATUS_UNAUTHORIZED,
            AuthError::MissingCredentials => STATUS_BAD_REQUEST,
            AuthError::InvalidToken => STATUS_BAD_REQUEST,
            AuthError::NotImplemented => STATUS_NOT_IMPLEMENTED,
            AuthError::Other(_) => STATUS_INTERNAL_SERVER_ERROR,
        }
    }

    /// The message the error is answered with.
    pub open spec fn message_of(&self) -> Seq<char> {
        match self {
            AuthError::WrongCredentials => "Wrong credentials"@,
            AuthError::MissingCredentials => "Missing credentials"@,
            AuthError::InvalidToken => "Invalid token"@,
            AuthError::NotImplemented => "Not implemented"@,
            AuthError::Other(s) => s@,
        }
    }

    /// The HTTP status the error is answered with.
    pub fn status_code(&self) -> (r: u16)
        ensures
            r == self.status_of(),
    {
        match self {
            AuthError::WrongCredentials => STATUS_UNAUTHORIZED,
            AuthError::MissingCredentials => STATUS_BAD_REQUEST,
            AuthError::InvalidToken => STATUS_BAD_REQUEST,
            AuthError::NotImplemented => STATUS_NOT_IMPLEMENTED,
            AuthError::Other(_) => STATUS_INTERNAL_SERVER_ERROR,
        }
    }

    /// The message the error is answered with.
    pub fn message(&self) -> (r: String)
        ensures
            r@ == self.message_of(),
    {
        match self {
            AuthError::WrongCredentials => "Wrong credentials".to_owned(),
            AuthError::MissingCredentials => "Missing credentials".to_owned(),
            AuthError::InvalidToken => "Invalid token".to_owned(),
            AuthError::NotImplemented => "Not implemented".to_owned(),
            AuthError::Other(s) => s.clone(),
        }
    }

    /// The answer to the error: HTTP status and JSON body.
    pub fn into_response(self) -> (r: (u16, String))
        ensures
            r.0 == self.status_of(),
            r.1@ == error_body(self.message_of()),
    {
        let status = self.status_code();
        let message = self.message();
        (status, error_body_json(message.as_str()))
    }
}

/// Errors of the vault endpoints.
#[derive(Debug, Clone)]
pub enum VaultError {
    EncryptionError,
    DatabaseError,
    EntryNotFound,
    Other(String),
}

impl VaultError {
    /// The HTTP status the error is answered with.
    pub open spec fn status_of(&self) -> u16 {
        match self {
            VaultError::DatabaseError => STATUS_INTERNAL_SERVER_ERROR,
            VaultError::EntryNotFound => STATUS_NOT_FOUND,
            VaultError::EncryptionError => STATUS_INTERNAL_SERVER_ERROR,
            VaultError::Other(_) => STATUS_INTERNAL_SERVER_ERROR,
        }
    }

    /// The message the error is answered with.
    pub open spec fn message_of(&self) -> Seq<char> {
        match self {
            VaultError::DatabaseError => "internal database error"@,
            VaultError::EntryNotFound => "entry not found"@,
            VaultError::EncryptionError => "An encryption error occured"@,
            VaultError::Other(s) => s@,
        }
    }

    /// The HTTP status the error is answered with.
    pub fn status_code(&self) -> (r: u16)
        ensures
            r == self.status_of(),
    {
        match self {
            VaultError::DatabaseError => STATUS_INTERNAL_SERVER_ERROR,
            VaultError::EntryNotFound => STATUS_NOT_FOUND,
            VaultError::EncryptionError => STATUS_INTERNAL_SERVER_ERROR,
            VaultError::Other(_) => STATUS_INTERNAL_SERVER_ERROR,
        }
    }

    /// The message the error is answered with.
    pub fn message(&self) -> (r: String)
        ensures
            r@ == self.message_of(),
    {
        match self {
            VaultError::DatabaseError => "internal database error".to_owned(),
            VaultError::EntryNotFound => "entry not found".to_owned(),
            VaultError::EncryptionError => "An encryption error occured".to_owned(),
            VaultError::Other(s) => s.clone(),
        }
    }

    /// The answer to the error: HTTP status and JSON body.
    pub fn into_response(self) -> (r: (u16, String))
        ensures
            r.0 == self.status_of(),
            r.1@ == error_body(self.message_of()),
    {
        let status = self.status_code();
        let message = self.message();
        (status, error_body_json(message.as_str()))
    }
}

} // verus!
