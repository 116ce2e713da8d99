//! Accounts and sessions: registration, sign-in, session refresh and the
//! user a request acts for.

use vstd::prelude::*;
use vstd::utf8::encode_utf8;
use argon2::password_hash::rand_core::OsRng;
use argon2::password_hash::{PasswordHash, PasswordHasher, PasswordVerifier, Salt, SaltString};
use argon2::Argon2;
use crate::encoding::{i64_to_decimal, parse_i32, push_str, signed_decimal, str_to_i32};
use crate::errors::{AuthError, STATUS_INTERNAL_SERVER_ERROR, STATUS_UNAUTHORIZED};
use crate::token::{
    checked_claims, generate_refresh_token, generate_session_token, jwt_hs256_claims, token_for, Claims,
    TokenError, TOKEN_LEEWAY_SECS,
    REFRESH_LIFETIME_SECS, REFRESH_SECRET_KEY, SESSION_LIFETIME_SECS, SESSION_SECRET_KEY,
};

verus! {

/// Whether Argon2 with default parameters accepts `password` against the
/// PHC string `phc`: nothing when `phc` is no PHC string, else whether the
/// password hashes, under the parameters and salt that `phc` names, to the
/// hash it holds.
pub uninterp spec fn argon2_verification(password: Seq<u8>, phc: Seq<char>) -> Option<bool>;

/// The PHC string of the Argon2id hash (default parameters) of `password`
/// under the B64 salt text `salt`.
pub uninterp spec fn argon2id_phc(password: Seq<u8>, salt: Seq<char>) -> Seq<char>;

/// The value of a char in the standard Base64 alphabet, or -1.
pub open spec fn b64_value(c: char) -> int {
    let u = c as u32;
    if 65 <= u <= 90 {
        u - 65
    } else if 97 <= u <= 122 {
        u - 71
    } else if 48 <= u <= 57 {
        u + 4
    } else if u == 43 {
        62
    } else if u == 47 {
        63
    } else {
        -1
    }
}

/// Whether `salt` is the unpadded standard Base64 text of 16 bytes: 22
/// chars of the alphabet, the last carrying two bits and four zero bits.
pub open spec fn is_salt_text(salt: Seq<char>) -> bool {
    &&& salt.len() == 22
    &&& forall|i: int| 0 <= i < salt.len() ==> #[trigger] b64_value(salt[i]) >= 0
    &&& b64_value(salt[21]) % 16 == 0
}

/// How the PHC string of an Argon2id hash with default parameters begins.
pub open spec fn argon2_phc_prefix() -> Seq<char> {
    "$argon2id$v=19$m=19456,t=2,p=1$"@
}

/// Whether `phc` is a PHC string of Argon2id with default parameters whose
/// salt is `salt`: the prefix, the salt, a `$`, then the hash.
pub open spec fn phc_names_salt(phc: Seq<char>, salt: Seq<char>) -> bool {
    phc.take(argon2_phc_prefix().len() + salt.len() + 1int) == argon2_phc_prefix() + salt + seq!['$']
}

/// Wraps `SaltString::generate` with the operating system's random source,
/// taken as its text: the unpadded Base64 text of 16 random bytes. The
/// random source panics if the operating system cannot supply randomness;
/// no argument governs that.
#[verifier::external_body]
fn generate_salt() -> (salt: String)
    ensures
        is_salt_text(salt@),
{
    SaltString::generate(&mut OsRng).as_str().to_owned()
}

/// Wraps `Argon2::default().hash_password` on the salt text `salt` (read
/// by `Salt::from_b64`), followed by `to_string`: the PHC string of the
/// hash, which begins with the algorithm, version and parameters, then the
/// salt text. As the argon2 crate documents, verifying the same password
/// against that string succeeds. Hashing fails only on a password longer
/// than `u32::MAX` bytes or a salt that does not decode to 8 to
/// `u32::MAX` bytes; the salt text of 16 bytes decodes.
#[verifier::external_body]
fn argon2_hash(password: &[u8], salt: &str) -> (r: Option<String>)
    ensures
        r matches Some(phc) ==> phc@ == argon2id_phc(password@, salt@),
        r matches Some(phc) ==> argon2_verification(password@, phc@) == Some(true),
        r matches Some(phc) ==> phc_names_salt(phc@, salt@),
        password@.len() <= 0xFFFF_FFFF && is_salt_text(salt@) ==> r is Some,
{
    let salt = match Salt::from_b64(salt) {
        Ok(salt) => salt,
        Err(_) => return None,
    };
    match Argon2::default().hash_password(password, salt) {
        Ok(h) => Some(h.to_string()),
        Err(_) => None,
    }
}

/// Wraps `PasswordHash::new` on `phc` followed by
/// `Argon2::default().verify_password`.
#[verifier::external_body]
fn argon2_verify(password: &[u8], phc: &str) -> (r: Option<bool>)
    ensures
        r == argon2_verification(password@, phc@),
{
    match PasswordHash::new(phc) {
        Ok(hash) => Some(Argon2::default().verify_password(password, &hash).is_ok()),
        Err(_) => None,
    }
}

// ----------------------------- register -----------------------------

/// A request to create an account.
#[derive(Debug, Clone)]
pub struct RegisterRequest {
    pub email: String,
    pub username: String,
    pub password: String,
}

/// The answer to a registration.
#[derive(Debug, Clone)]
pub struct RegisterResponse {
    pub success: bool,
    pub message: Option<String>,
}

/// The account row a registration inserts.
#[derive(Debug, Clone)]
pub struct NewAccount {
    pub email: String,
    pub username: String,
    pub password_hash: String,
}

/// Hashes a password with Argon2id under a fresh random salt; the result
/// is a PHC string that the same password verifies against. It succeeds for
/// any password of at most `u32::MAX` bytes.
pub fn hash_password(password: &str) -> (r: Option<String>)
    ensures
        r matches Some(phc) ==> argon2_verification(encode_utf8(password@), phc@) == Some(true),
        r matches Some(phc) ==> exists|salt: Seq<char>| is_salt_text(salt) && phc_names_salt(phc@, salt)
            && phc@ == #[trigger] argon2id_phc(encode_utf8(password@), salt),
        encode_utf8(password@).len() <= 0xFFFF_FFFF ==> r is Some,
{
    let salt = generate_salt();
    argon2_hash(password.as_bytes(), salt.as_str())
}

/// The account row for a registration: the given email and user name and
/// the hash of the given password, or nothing where hashing failed.
pub fn prepare_account(req: RegisterRequest) -> (r: Option<NewAccount>)
    ensures
        r matches Some(a) ==> {
            &&& a.email@ == req.email@
            &&& a.username@ == req.username@
            &&& argon2_verification(encode_utf8(req.password@), a.password_hash@) == Some(true)
            &&& exists|salt: Seq<char>| is_salt_text(salt) && phc_names_salt(a.password_hash@, salt)
                && a.password_hash@ == #[trigger] argon2id_phc(encode_utf8(req.password@), salt)
        },
        encode_utf8(req.password@).len() <= 0xFFFF_FFFF ==> r is Some,
{
    match hash_password(req.password.as_str()) {
        Some(password_hash) => Some(NewAccount { email: req.email, username: req.username, password_hash }),
        None => None,
    }
}

/// The answer to a registration whose account was stored.
pub fn register_response() -> (r: RegisterResponse)
    ensures
        r.success,
        r.message is None,
{
    RegisterResponse { success: true, message: None }
}

// ----------------------------- login -----------------------------

/// A sign-in request.
#[derive(Debug, Clone)]
pub struct LoginRequest {
    pub email: String,
    pub password: String,
    pub remember: bool,
    pub metadata: String,
}

/// The answer to a successful sign-in.
#[derive(Debug, Clone)]
pub struct LoginResponse {
    pub refresh_token: Option<String>,
    pub session_token: String,
}

/// The id and password hash stored for an email.
#[derive(Debug, Clone)]
pub struct LoginHelper {
    pub id: i32,
    pub password: String,
}

/// What checking a sign-in gives.
#[derive(Debug, Clone, Copy, PartialEq, Eq, Structural)]
pub enum LoginVerdict {
    /// The password matches the account with this id.
    Accepted(i32),
    /// No account has the email, or the password does not match.
    WrongCredentials,
    /// The stored hash is no PHC string.
    UnreadableHash,
}

/// The verdict on a sign-in with `password` for the account `entry` found
/// for the email, if any.
pub open spec fn login_verdict(entry: Option<LoginHelper>, password: Seq<char>) -> LoginVerdict {
    match entry {
        None => LoginVerdict::WrongCredentials,
        Some(e) => match argon2_verification(encode_utf8(password), e.password@) {
            None => LoginVerdict::UnreadableHash,
            Some(true) => LoginVerdict::Accepted(e.id),
            Some(false) => LoginVerdict::WrongCredentials,
        },
    }
}

/// Checks a sign-in with `password` against the account found for the
/// email, if any.
pub fn verify_login(entry: Option<LoginHelper>, password: &str) -> (r: LoginVerdict)
    ensures
        r == login_verdict(entry, password@),
        entry is None ==> r == LoginVerdict::WrongCredentials,
        entry matches Some(e) ==> (r == LoginVerdict::UnreadableHash
            <==> argon2_verification(encode_utf8(password@), e.password@) is None),
        entry matches Some(e) ==> (r == LoginVerdict::WrongCredentials
            <==> argon2_verification(encode_utf8(password@), e.password@) == Some(false)),
        entry matches Some(e) ==> (r == LoginVerdict::Accepted(e.id)
            <==> argon2_verification(encode_utf8(password@), e.password@) == Some(true)),
{
    match entry {
        None => LoginVerdict::WrongCredentials,
        Some(e) => match argon2_verify(password.as_bytes(), e.password.as_str()) {
            None => LoginVerdict::UnreadableHash,
            Some(true) => LoginVerdict::Accepted(e.id),
            Some(false) => LoginVerdict::WrongCredentials,
        },
    }
}

impl LoginVerdict {
    /// The account id of an accepted sign-in, or the error it is answered
    /// with; an unreadable stored hash has no answer (the server stops).
    pub fn into_result(self) -> (r: Option<Result<i32, AuthError>>)
        ensures
            match self {
                LoginVerdict::Accepted(id) => r == Some(Ok::<i32, AuthError>(id)),
                LoginVerdict::WrongCredentials => r matches Some(Err(AuthError::WrongCredentials)),
                LoginVerdict::UnreadableHash => r is None,
            },
    {
        match self {
            LoginVerdict::Accepted(id) => Some(Ok(id)),
            LoginVerdict::WrongCredentials => Some(Err(AuthError::WrongCredentials)),
            LoginVerdict::UnreadableHash => None,
        }
    }
}

/// The tokens of a sign-in of account `id`: a session token and, when the
/// user asked to be remembered, a refresh token; both name the account id
/// in decimal.
pub fn login_tokens(id: i32, remember: bool) -> (r: Result<LoginResponse, TokenError>)
    ensures
        r matches Ok(resp) ==> {
            &&& exists|now: nat| resp.session_token@ == #[trigger] token_for(signed_decimal(id as int), now + SESSION_LIFETIME_SECS, SESSION_SECRET_KEY)
                && jwt_hs256_claims(resp.session_token@, encode_utf8(SESSION_SECRET_KEY@))
                    == Some((signed_decimal(id as int), (now + SESSION_LIFETIME_SECS) as nat))
            &&& (resp.refresh_token is Some <==> remember)
            &&& resp.refresh_token matches Some(t) ==> exists|now: nat| t@ == #[trigger] token_for(signed_decimal(id as int), now + REFRESH_LIFETIME_SECS, REFRESH_SECRET_KEY)
                && jwt_hs256_claims(t@, encode_utf8(REFRESH_SECRET_KEY@))
                    == Some((signed_decimal(id as int), (now + REFRESH_LIFETIME_SECS) as nat))
        },
        r matches Err(e) ==> e == TokenError::ClockBeforeEpoch || e == TokenError::ExpirationOverflow,
{
    let session_token = generate_session_token(i64_to_decimal(id as i64))?;
    let refresh_token = if remember {
        Some(generate_refresh_token(i64_to_decimal(id as i64))?)
    } else {
        None
    };
    Ok(LoginResponse { refresh_token, session_token })
}

// ----------------------------- refresh session -----------------------------

/// A request for a new session token.
#[derive(Debug, Clone)]
pub struct RefreshRequest {
    pub refresh_token: String,
}

/// The answer to a refresh.
#[derive(Debug, Clone)]
pub struct RefreshResponse {
    pub session_token: String,
}

/// The subject of the new session token: the account the refresh token is
/// stored for, in decimal; a refresh token that is not stored is invalid.
pub fn refresh_subject(account_id: Option<i64>) -> (r: Result<String, AuthError>)
    ensures
        match account_id {
            Some(id) => r matches Ok(s) && s@ == signed_decimal(id as int),
            None => r matches Err(AuthError::InvalidToken),
        },
{
    match account_id {
        Some(id) => Ok(i64_to_decimal(id)),
        None => Err(AuthError::InvalidToken),
    }
}

// ----------------------------- change email -----------------------------

/// The answer to an email change.
#[derive(Debug, Clone)]
pub struct ChangeEmailResponse {}

/// Changing the email is not implemented.
pub fn update_email() -> (r: Result<ChangeEmailResponse, AuthError>)
    ensures
        r matches Err(AuthError::NotImplemented),
{
    Err(AuthError::NotImplemented)
}

// ----------------------------- challenge -----------------------------

/// A challenge request.
#[derive(Debug, Clone)]
pub struct ChallengeRequest {
    pub token: String,
    pub password: String,
}

/// The answer to a challenge.
#[derive(Debug, Clone)]
pub struct ChallengeResponse {
    pub token: String,
}

/// Answers a challenge with the token `"<token>, <password>"`.
pub fn challenge(req: ChallengeRequest) -> (r: Result<ChallengeResponse, AuthError>)
    ensures
        r matches Ok(resp) && resp.token@ == req.token@ + ", "@ + req.password@,
{
    let mut token = req.token;
    push_str(&mut token, ", ");
    push_str(&mut token, req.password.as_str());
    Ok(ChallengeResponse { token })
}

// ----------------------------- request user -----------------------------

/// The account a request acts for.
#[derive(Debug, Clone, Copy, PartialEq, Eq, Structural)]
pub struct SessionUser(pub i32);

/// The user a request acts for, given the claims of its bearer token if it
/// had a valid one: 401 without, 500 when the subject is no `i32`.
pub open spec fn session_user_of(claims: Option<Claims>) -> Result<SessionUser, u16> {
    match claims {
        None => Err(STATUS_UNAUTHORIZED),
        Some(c) => match parse_i32(c.sub@) {
            Some(id) => Ok(SessionUser(id)),
            None => Err(STATUS_INTERNAL_SERVER_ERROR),
        },
    }
}

impl SessionUser {
    /// The user of a request from the claims of its bearer token, if it had
    /// a valid one: 401 without, 500 when the subject is no `i32`.
    pub fn from_claims(claims: Option<Claims>) -> (r: Result<SessionUser, u16>)
        ensures
            r == session_user_of(claims),
    {
        match claims {
            None => Err(STATUS_UNAUTHORIZED),
            Some(c) => match str_to_i32(c.sub.as_str()) {
                Some(id) => Ok(SessionUser(id)),
                None => Err(STATUS_INTERNAL_SERVER_ERROR),
            },
        }
    }
}

// ----------------------------- laws -----------------------------

/// Claims whose subject is the decimal text of an account id, as sign-in
/// and refresh write it, make requests act for that very account.
pub proof fn lemma_token_subject_names_account(id: i32, claims: Claims)
    requires
        claims.sub@ == signed_decimal(id as int),
    ensures
        session_user_of(Some(claims)) == Ok::<SessionUser, u16>(SessionUser(id)),
{
    crate::encoding::lemma_i32_decimal_round_trip(id);
}

/// A session token issued for account `id`, checked at most
/// `TOKEN_LEEWAY_SECS` seconds after it expired, is accepted with its
/// claims, and requests carrying it act for that very account.
pub proof fn lemma_issued_session_token_acts_for_account(token: Seq<char>, id: i32, exp: nat, now: u64)
    requires
        jwt_hs256_claims(token, encode_utf8(SESSION_SECRET_KEY@)) == Some((signed_decimal(id as int), exp)),
        exp <= usize::MAX,
        now <= exp + TOKEN_LEEWAY_SECS,
    ensures
        checked_claims(jwt_hs256_claims(token, encode_utf8(SESSION_SECRET_KEY@)), now)
            == Ok::<(Seq<char>, nat), TokenError>((signed_decimal(id as int), exp)),
        parse_i32(signed_decimal(id as int)) == Some(id),
{
    crate::encoding::lemma_i32_decimal_round_trip(id);
}

/// An account row as registration prepares it, once found by its email,
/// signs in with the password it was registered with.
pub proof fn lemma_registered_password_signs_in(req: RegisterRequest, account: NewAccount, id: i32)
    requires
        argon2_verification(encode_utf8(req.password@), account.password_hash@) == Some(true),
    ensures
        login_verdict(Some(LoginHelper { id, password: account.password_hash }), req.password@)
            == LoginVerdict::Accepted(id),
{
}

/// The verdict on a sign-in follows the Argon2 check of the password
/// against the stored hash alone: a stored hash that is no PHC string is the
/// only reason for `UnreadableHash`; a readable hash that the password does
/// not verify against, like an unknown email, gives `WrongCredentials`; and
/// the account is accepted exactly when the password verifies.
pub proof fn lemma_login_verdict_cases(entry: Option<LoginHelper>, password: Seq<char>)
    ensures
        login_verdict(entry, password) == LoginVerdict::UnreadableHash
            <==> (entry matches Some(e) && argon2_verification(encode_utf8(password), e.password@) is None),
        login_verdict(entry, password) == LoginVerdict::WrongCredentials
            <==> (entry is None || (entry matches Some(e)
                && argon2_verification(encode_utf8(password), e.password@) == Some(false))),
        forall|id: i32| login_verdict(entry, password) == LoginVerdict::Accepted(id)
            <==> (entry matches Some(e) && e.id == id
                && argon2_verification(encode_utf8(password), e.password@) == Some(true)),
{
}

} // verus!
