use ferrum_vault::cipher::{decrypt_password, CipherError};
use ferrum_vault::errors::VaultError;
use ferrum_vault::vault::{
    add_password_row, create_entry, create_response, get_all_entries, get_entry, get_password_response,
    AddPasswordRequest, CreateRequest, Fetched, FullVaultEntry, GetEntryRequest, GetPasswordRequest, VaultEntry,
};

#[test]
fn added_password_is_returned_by_get() {
    let row = add_password_row(AddPasswordRequest {
        service: "mail".to_string(),
        username: "bob".to_string(),
        password: "s3cret".to_string(),
        master_password: "mp".to_string(),
    })
    .unwrap();
    assert_eq!(row.service, "mail");
    assert_eq!(row.username, "bob");
    assert_ne!(row.encrypted_password, "s3cret");
    assert_eq!(row.encrypted_password.len(), 2 * (12 + "s3cret".len() + 16));
    let req = GetPasswordRequest { service: "mail".to_string(), username: "bob".to_string(), master_password: "mp".to_string() };
    assert_eq!(get_password_response(&req, &row.encrypted_password).unwrap().password, "s3cret");
    let wrong = GetPasswordRequest { master_password: "nope".to_string(), ..req };
    assert_eq!(get_password_response(&wrong, &row.encrypted_password).err(), Some(CipherError::ChaChaError));
}

fn create_request() -> CreateRequest {
    CreateRequest {
        passphrase: "phrase".to_string(),
        name: "bank".to_string(),
        email: "c@example.com".to_string(),
        password: "1234".to_string(),
        url: "https://bank.example".to_string(),
        note: Some("pin".to_string()),
    }
}

#[test]
fn created_entry_is_revealed_by_get_entry() {
    let row = create_entry(5, create_request()).unwrap();
    assert_eq!(row.account_id, 5);
    assert_eq!(row.name, "bank");
    assert_eq!(row.note.as_deref(), Some("pin"));
    assert_eq!(decrypt_password("phrase", &row.password).unwrap(), "1234");
    assert_ne!(row.password, "1234");
    assert_eq!(row.password.len(), 2 * (12 + 4 + 16));
    let stored = FullVaultEntry {
        id: 11,
        name: row.name.clone(),
        email: row.email.clone(),
        password: row.password.clone(),
        url: row.url.clone(),
        note: row.note.clone(),
    };
    let req = GetEntryRequest { passphrase: "phrase".to_string(), challenge_token: String::new() };
    let entry = get_entry(Fetched::Found(stored.clone()), &req).unwrap();
    assert_eq!(entry.id, 11);
    assert_eq!(entry.password, "1234");
    assert_eq!(entry.url, "https://bank.example");
    let wrong = GetEntryRequest { passphrase: "x".to_string(), challenge_token: String::new() };
    assert!(matches!(get_entry(Fetched::Found(stored), &wrong), Err(VaultError::EncryptionError)));
}

#[test]
fn entry_lookup_failures() {
    let req = GetEntryRequest { passphrase: "p".to_string(), challenge_token: String::new() };
    assert!(matches!(get_entry(Fetched::DatabaseFailed, &req), Err(VaultError::DatabaseError)));
    assert!(matches!(get_entry(Fetched::NotFound, &req), Err(VaultError::EntryNotFound)));
}

#[test]
fn listing_passes_entries_or_reports_database_error() {
    let e = VaultEntry { id: 1, name: "n".to_string(), email: "e".to_string(), url: "u".to_string(), note: None };
    let listed = get_all_entries(Some(vec![e])).unwrap();
    assert_eq!(listed.len(), 1);
    assert_eq!(listed[0].name, "n");
    assert!(matches!(get_all_entries(None), Err(VaultError::DatabaseError)));
}

#[test]
fn create_answer_reports_success() {
    assert!(create_response().success);
}
