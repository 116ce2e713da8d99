//! Records of the vault as the database and the pages see them.

use vstd::prelude::*;

verus! {

/// A stored password without its secret.
#[derive(Debug, Clone)]
pub struct PasswordEntry {
    pub id: i32,
    pub service: String,
    pub username: String,
}

/// A stored password with its (encrypted or revealed) secret.
#[derive(Debug, Clone)]
pub struct FullPasswordEntry {
    pub id: i32,
    pub service: String,
    pub username: String,
    pub password: String,
}

/// A row of the password table: user name and encrypted password.
#[derive(Debug, Clone)]
pub struct RowItem {
    pub username: Option<String>,
    pub password: String,
}

/// The encrypted password of a row.
#[derive(Debug, Clone)]
pub struct GetRowItem {
    pub password: String,
}

/// A service name of the password table.
#[derive(Debug, Clone)]
pub struct ServiceRow {
    pub service: String,
}

/// The server's configuration, as `config.toml` holds it.
#[derive(Debug, Clone)]
pub struct Config {
    pub address: String,
    pub port: u16,
    pub database_path: String,
}

} // verus!
