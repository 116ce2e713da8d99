use ferrum_vault::cipher::{encrypt_password, CipherError};
use ferrum_vault::frontend::{passwords, signin_challenge, view, SigninChallengeParams, ViewRequestForm};
use ferrum_vault::models::{FullPasswordEntry, PasswordEntry};

#[test]
fn view_reveals_the_password() {
    let entry = FullPasswordEntry {
        id: 3,
        service: "git".to_string(),
        username: "dev".to_string(),
        password: encrypt_password("mp", "token").unwrap(),
    };
    let form = ViewRequestForm { id: 3, master_password: "mp".to_string() };
    let page = view(entry.clone(), &form).unwrap();
    assert_eq!(page.entry.id, 3);
    assert_eq!(page.entry.service, "git");
    assert_eq!(page.entry.username, "dev");
    assert_eq!(page.entry.password, "token");
    let wrong = ViewRequestForm { id: 3, master_password: "no".to_string() };
    assert_eq!(view(entry, &wrong).err(), Some(CipherError::ChaChaError));
}

#[test]
fn challenge_page_names_the_password() {
    assert_eq!(signin_challenge(SigninChallengeParams { id: 9 }).password_id, 9);
}

#[test]
fn list_page_holds_the_entries() {
    let e = PasswordEntry { id: 1, service: "s".to_string(), username: "u".to_string() };
    let page = passwords(vec![e]);
    assert_eq!(page.entries.len(), 1);
    assert_eq!(page.entries[0].service, "s");
}
