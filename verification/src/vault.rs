//! The vault endpoints: storing passwords encrypted under a passphrase and
//! revealing them again.

use vstd::prelude::*;
use crate::cipher::{
    decrypt_password, decrypted, encrypt_password, encrypted_with_nonce, seal_accepts, sealed_fits, stored_len,
    decrypt_panics, CipherError, NONCE_LEN,
};
use vstd::utf8::encode_utf8;
use crate::errors::VaultError;

verus! {

/// What a lookup in the database gave.
#[derive(Debug, Clone)]
pub enum Fetched<T> {
    /// The query failed.
    DatabaseFailed,
    /// No row matched.
    NotFound,
    /// The row found.
    Found(T),
}

// ------------------------ simple password API ------------------------

/// A request to store a password for a service and user name.
#[derive(Debug, Clone)]
pub struct AddPasswordRequest {
    pub service: String,
    pub username: String,
    pub password: String,
    pub master_password: String,
}

/// A request for the password stored for a service and user name.
#[derive(Debug, Clone)]
pub struct GetPasswordRequest {
    pub service: String,
    pub username: String,
    pub master_password: String,
}

/// The revealed password.
#[derive(Debug, Clone)]
pub struct GetPasswordResponse {
    pub password: String,
}

/// The password row an `AddPasswordRequest` stores.
#[derive(Debug, Clone)]
pub struct NewPassword {
    pub service: String,
    pub username: String,
    pub encrypted_password: String,
}

/// Whether `text` is the stored form of `password` under `master_password`
/// for some nonce.
pub open spec fn encrypts(text: Seq<char>, master_password: Seq<char>, password: Seq<char>) -> bool {
    exists|nonce: Seq<u8>| nonce.len() == NONCE_LEN && #[trigger] encrypted_with_nonce(master_password, password, nonce) == Some(text)
}

/// The row that stores the requested password, encrypted under the master
/// password.
pub fn add_password_row(data: AddPasswordRequest) -> (r: Result<NewPassword, CipherError>)
    requires
        sealed_fits(encode_utf8(data.password@).len()),
    ensures
        match r {
            Ok(row) => {
                &&& row.service@ == data.service@
                &&& row.username@ == data.username@
                &&& encrypts(row.encrypted_password@, data.master_password@, data.password@)
                &&& decrypted(data.master_password@, row.encrypted_password@) == Ok::<Seq<char>, CipherError>(data.password@)
                &&& row.encrypted_password@.len() == stored_len(encode_utf8(data.password@).len())
                &&& row.encrypted_password@ != data.password@
            },
            Err(e) => e == CipherError::ChaChaError,
        },
        r is Ok <==> seal_accepts(encode_utf8(data.password@).len()),
{
    let encrypted_password = encrypt_password(data.master_password.as_str(), data.password.as_str())?;
    Ok(NewPassword { service: data.service, username: data.username, encrypted_password })
}

/// The answer with the stored password `encrypted` revealed under the
/// requested master password.
pub fn get_password_response(data: &GetPasswordRequest, encrypted: &str) -> (r: Result<GetPasswordResponse, CipherError>)
    requires
        !decrypt_panics(encrypted@),
    ensures
        match r {
            Ok(resp) => decrypted(data.master_password@, encrypted@) == Ok::<Seq<char>, CipherError>(resp.password@),
            Err(e) => decrypted(data.master_password@, encrypted@) == Err::<Seq<char>, CipherError>(e),
        },
{
    let password = decrypt_password(data.master_password.as_str(), encrypted)?;
    Ok(GetPasswordResponse { password })
}

// ------------------------ vault entries ------------------------

/// The account whose entries the listing shows.
pub const LISTED_ACCOUNT_ID: i32 = 1;

/// A request to create a vault entry.
#[derive(Debug, Clone)]
pub struct CreateRequest {
    pub passphrase: String,
    pub name: String,
    pub email: String,
    pub password: String,
    pub url: String,
    pub note: Option<String>,
}

/// The answer to the creation of an entry.
#[derive(Debug, Clone)]
pub struct CreateResponse {
    pub success: bool,
}

/// The row a `CreateRequest` inserts.
#[derive(Debug, Clone)]
pub struct NewVaultEntry {
    pub account_id: i32,
    pub name: String,
    pub email: String,
    pub password: String,
    pub url: String,
    pub note: Option<String>,
}

/// A vault entry without its password.
#[derive(Debug, Clone)]
pub struct VaultEntry {
    pub id: i32,
    pub name: String,
    pub email: String,
    pub url: String,
    pub note: Option<String>,
}

/// A request to reveal an entry.
#[derive(Debug, Clone)]
pub struct GetEntryRequest {
    pub passphrase: String,
    pub challenge_token: String,
}

/// A vault entry with its password.
#[derive(Debug, Clone)]
pub struct FullVaultEntry {
    pub id: i32,
    pub name: String,
    pub email: String,
    pub password: String,
    pub url: String,
    pub note: Option<String>,
}

/// The row that stores a new entry of `account_id`, its password encrypted
/// under the passphrase.
pub fn create_entry(account_id: i32, req: CreateRequest) -> (r: Result<NewVaultEntry, VaultError>)
    requires
        sealed_fits(encode_utf8(req.password@).len()),
    ensures
        match r {
            Ok(row) => {
                &&& row.account_id == account_id
                &&& row.name@ == req.name@
                &&& row.email@ == req.email@
                &&& row.url@ == req.url@
                &&& row.note == req.note
                &&& encrypts(row.password@, req.passphrase@, req.password@)
                &&& decrypted(req.passphrase@, row.password@) == Ok::<Seq<char>, CipherError>(req.password@)
                &&& row.password@.len() == stored_len(encode_utf8(req.password@).len())
                &&& row.password@ != req.password@
            },
            Err(e) => e is EncryptionError,
        },
        r is Ok <==> seal_accepts(encode_utf8(req.password@).len()),
{
    let password = match encrypt_password(req.passphrase.as_str(), req.password.as_str()) {
        Ok(p) => p,
        Err(_) => return Err(VaultError::EncryptionError),
    };
    Ok(NewVaultEntry {
        account_id,
        name: req.name,
        email: req.email,
        password,
        url: req.url,
        note: req.note,
    })
}

/// The answer to the creation of a stored entry.
pub fn create_response() -> (r: CreateResponse)
    ensures
        r.success,
{
    CreateResponse { success: true }
}

/// The listing of entries, or a database error where the query failed.
pub fn get_all_entries(fetched: Option<Vec<VaultEntry>>) -> (r: Result<Vec<VaultEntry>, VaultError>)
    ensures
        match fetched {
            Some(entries) => r matches Ok(listed) && listed@ == entries@,
            None => r matches Err(VaultError::DatabaseError),
        },
{
    match fetched {
        Some(entries) => Ok(entries),
        None => Err(VaultError::DatabaseError),
    }
}

/// Whether an entry fetch would reach a decryption that panics.
pub open spec fn fetched_would_panic(fetched: Fetched<FullVaultEntry>) -> bool {
    fetched matches Fetched::Found(e) && decrypt_panics(e.password@)
}

/// The entry found by a lookup, with its password revealed under the
/// passphrase.
pub fn get_entry(fetched: Fetched<FullVaultEntry>, req: &GetEntryRequest) -> (r: Result<FullVaultEntry, VaultError>)
    requires
        !fetched_would_panic(fetched),
    ensures
        match fetched {
            Fetched::DatabaseFailed => r matches Err(VaultError::DatabaseError),
            Fetched::NotFound => r matches Err(VaultError::EntryNotFound),
            Fetched::Found(e) => match decrypted(req.passphrase@, e.password@) {
                Ok(p) => r matches Ok(entry) && {
                    &&& entry.id == e.id
                    &&& entry.name@ == e.name@
                    &&& entry.email@ == e.email@
                    &&& entry.url@ == e.url@
                    &&& entry.note == e.note
                    &&& entry.password@ == p
                },
                Err(_) => r matches Err(VaultError::EncryptionError),
            },
        },
{
    match fetched {
        Fetched::DatabaseFailed => Err(VaultError::DatabaseError),
        Fetched::NotFound => Err(VaultError::EntryNotFound),
        Fetched::Found(mut entry) => {
            match decrypt_password(req.passphrase.as_str(), entry.password.as_str()) {
                Ok(p) => {
                    entry.password = p;
                    Ok(entry)
                },
                Err(_) => Err(VaultError::EncryptionError),
            }
        },
    }
}

} // verus!
