//! The pages of the web front end and the forms they send.

use vstd::prelude::*;
use crate::cipher::{decrypt_password, decrypted, decrypt_panics, CipherError};
use crate::models::{FullPasswordEntry, PasswordEntry};

verus! {

/// The start page.
#[derive(Debug, Clone)]
pub struct IndexTemplate {}

/// The list of stored passwords.
#[derive(Debug, Clone)]
pub struct PasswordsTemplate {
    pub entries: Vec<PasswordEntry>,
}

/// The page that asks for the master password before revealing one.
#[derive(Debug, Clone)]
pub struct SigninChallengeTemplate {
    pub password_id: i32,
}

/// The sign-in page.
#[derive(Debug, Clone)]
pub struct SigninTemplate {}

/// The page that shows a revealed password.
#[derive(Debug, Clone)]
pub struct ViewTemplate {
    pub entry: FullPasswordEntry,
}

/// Query of the challenge page: the password to reveal.
#[derive(Debug, Clone)]
pub struct SigninChallengeParams {
    pub id: i32,
}

/// Form that asks to reveal a password.
#[derive(Debug, Clone)]
pub struct ViewRequestForm {
    pub id: i32,
    pub master_password: String,
}

/// The sign-in form.
#[derive(Debug, Clone)]
pub struct SignInForm {
    pub email: String,
    pub password: String,
    pub remember: Option<bool>,
}

/// The start page.
pub fn index() -> IndexTemplate {
    IndexTemplate {}
}

/// The contacts page, which shows the start page for now.
pub fn contacts() -> IndexTemplate {
    IndexTemplate {}
}

/// The recovery codes page, which shows the start page for now.
pub fn recovery_codes() -> IndexTemplate {
    IndexTemplate {}
}

/// The sign-in page.
pub fn signin_get() -> SigninTemplate {
    SigninTemplate {}
}

/// The list page of the given entries.
pub fn passwords(entries: Vec<PasswordEntry>) -> (r: PasswordsTemplate)
    ensures
        r.entries@ == entries@,
{
    PasswordsTemplate { entries }
}

/// The challenge page for the password the query names.
pub fn signin_challenge(params: SigninChallengeParams) -> (r: SigninChallengeTemplate)
    ensures
        r.password_id == params.id,
{
    SigninChallengeTemplate { password_id: params.id }
}

/// The page showing `entry` with its password revealed under the form's
/// master password.
pub fn view(entry: FullPasswordEntry, form: &ViewRequestForm) -> (r: Result<ViewTemplate, CipherError>)
    requires
        !decrypt_panics(entry.password@),
    ensures
        match decrypted(form.master_password@, entry.password@) {
            Ok(p) => r matches Ok(page) && {
                &&& page.entry.id == entry.id
                &&& page.entry.service@ == entry.service@
                &&& page.entry.username@ == entry.username@
                &&& page.entry.password@ == p
            },
            Err(e) => r == Err::<ViewTemplate, CipherError>(e),
        },
{
    let password = decrypt_password(form.master_password.as_str(), entry.password.as_str())?;
    let mut db_entry = entry;
    db_entry.password = password;
    Ok(ViewTemplate { entry: db_entry })
}

} // verus!
