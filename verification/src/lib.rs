//! A local password vault: the logic behind its web API, verified.

pub mod account;
pub mod cipher;
pub mod encoding;
pub mod errors;
pub mod frontend;
pub mod models;
pub mod token;
pub mod vault;
