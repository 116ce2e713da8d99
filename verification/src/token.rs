//! Session and refresh tokens: JWTs (HS256) whose claims name the account
//! and the moment the token expires.

use vstd::prelude::*;
use vstd::utf8::encode_utf8;
use jsonwebtoken::{decode, Algorithm, DecodingKey, Validation};
use serde_json::Value;
use crate::encoding::{decimal, json_quote, json_string_literal, push_char, push_decimal, push_str};

verus! {

/// The claims a token carries.
#[derive(Debug, Clone)]
pub struct Claims {
    /// Subject: the account id, in decimal.
    pub sub: String,
    /// Expiration time, in seconds since the Unix epoch.
    pub exp: usize,
}

/// Why no token could be made or accepted.
#[derive(Debug, Clone, Copy, PartialEq, Eq, Structural)]
pub enum TokenError {
    /// The token is no HS256 JWT signed with the secret, or its claims are
    /// no string `sub` and no `exp` that fits a `usize`.
    Invalid,
    /// The token expired more than `TOKEN_LEEWAY_SECS` seconds ago.
    Expired,
    /// The system clock reads a time before the Unix epoch.
    ClockBeforeEpoch,
    /// The expiration time does not fit a `usize`.
    ExpirationOverflow,
    /// The JWT library refused to encode the claims; it does not refuse
    /// claims this library writes.
    Encoding,
}

/// Secret that signs session tokens.
pub const SESSION_SECRET_KEY: &'static str = "session_secret";

/// Secret that signs refresh tokens.
pub const REFRESH_SECRET_KEY: &'static str = "refresh_secret";

/// How long a session token is valid: 5 minutes.
pub const SESSION_LIFETIME_SECS: u64 = 300;

/// How long a refresh token is valid: 7 days.
pub const REFRESH_LIFETIME_SECS: u64 = 604800;

/// The JSON text of claims, as serde writes the struct: the fields in
/// declaration order, no spaces.
pub open spec fn claims_json(sub: Seq<char>, exp: nat) -> Seq<char> {
    "{\"sub\":"@ + json_string_literal(sub) + ",\"exp\":"@ + decimal(exp) + seq!['}']
}

/// The JWT with the default header (HS256, type JWT) whose payload is the
/// JSON text `claims_json`, signed with HMAC-SHA256 under `secret`.
pub uninterp spec fn jwt_hs256(claims_json: Seq<char>, secret: Seq<u8>) -> Seq<char>;

/// The claims a JWT carries when it is an HS256 token signed with `secret`
/// whose payload holds a string `sub` and an unsigned integer `exp`, as
/// `jsonwebtoken::decode` reads it with expiry checks off; else nothing.
pub uninterp spec fn jwt_hs256_claims(token: Seq<char>, secret: Seq<u8>) -> Option<(Seq<char>, nat)>;

/// How long past `exp` a token is still accepted, in seconds.
pub const TOKEN_LEEWAY_SECS: u64 = 60;

/// Whether a token with expiration `exp` has expired at `now`, leeway
/// included.
pub open spec fn is_expired(exp: nat, now: u64) -> bool {
    exp + TOKEN_LEEWAY_SECS < now
}

/// What checking a token at `now` gives, from the claims it decodes to.
pub open spec fn checked_claims(decoded: Option<(Seq<char>, nat)>, now: u64) -> Result<(Seq<char>, nat), TokenError> {
    match decoded {
        None => Err(TokenError::Invalid),
        Some((sub, exp)) => if exp > usize::MAX {
            Err(TokenError::Invalid)
        } else if is_expired(exp, now) {
            Err(TokenError::Expired)
        } else {
            Ok((sub, exp))
        },
    }
}

/// The claims of a checked token as plain values, or the error.
pub open spec fn claims_view(r: Result<Claims, TokenError>) -> Result<(Seq<char>, nat), TokenError> {
    match r {
        Ok(c) => Ok((c.sub@, c.exp as nat)),
        Err(e) => Err(e),
    }
}

/// The token for `sub` that expires at `exp`, signed with `secret`.
pub open spec fn token_for(sub: Seq<char>, exp: int, secret: &str) -> Seq<char> {
    jwt_hs256(claims_json(sub, exp as nat), encode_utf8(secret@))
}

/// Wraps `jsonwebtoken::encode` with the default header and a key made
/// from `secret`, on the claims given as JSON text. The text goes through
/// `serde_json::value::RawValue`, which fails only on text that is no JSON
/// and otherwise serialises to that very text; `encode` fails only on a key
/// of another algorithm family than the header's (not so for HS256 and a
/// secret) or on a serde error (none for a raw value). So the claims text
/// that `claims_json` writes, a JSON object, is always encoded, and
/// `jsonwebtoken::decode` under the same secret, which recomputes the
/// signature over the same text, reads the same `sub` and `exp` back.
#[verifier::external_body]
fn jwt_encode_hs256(payload: &str, secret: &[u8]) -> (r: Option<String>)
    ensures
        r matches Some(t) ==> t@ == jwt_hs256(payload@, secret@),
        (exists|sub: Seq<char>, exp: nat| #[trigger] claims_json(sub, exp) == payload@) ==> r is Some,
        r matches Some(t) ==> forall|sub: Seq<char>, exp: nat|
            #[trigger] claims_json(sub, exp) == payload@ && exp <= u64::MAX
                ==> jwt_hs256_claims(t@, secret@) == Some((sub, exp)),
{
    let raw = match serde_json::value::RawValue::from_string(payload.to_owned()) {
        Ok(raw) => raw,
        Err(_) => return None,
    };
    let key = jsonwebtoken::EncodingKey::from_secret(secret);
    match jsonwebtoken::encode(&jsonwebtoken::Header::default(), &raw, &key) {
        Ok(t) => Some(t),
        Err(_) => None,
    }
}

/// Wraps `SystemTime::now().duration_since(UNIX_EPOCH)`: whole seconds
/// since the Unix epoch, or nothing for a clock set before it. The value
/// depends on the clock; nothing is promised of it.
#[verifier::external_body]
fn unix_time_secs() -> (r: Option<u64>) {
    match std::time::SystemTime::now().duration_since(std::time::UNIX_EPOCH) {
        Ok(d) => Some(d.as_secs()),
        Err(_) => None,
    }
}

/// Wraps `jsonwebtoken::decode` into a JSON object with HS256 validation,
/// expiry checks off, under a key made from `secret`, and moves out the
/// string `sub` and the unsigned integer `exp`: the claims of a well-signed
/// token, or nothing.
#[verifier::external_body]
fn jwt_decode_hs256(token: &str, secret: &[u8]) -> (r: Option<(String, u64)>)
    ensures
        r matches Some((sub, exp)) ==> jwt_hs256_claims(token@, secret@) == Some((sub@, exp as nat)),
        r is None ==> jwt_hs256_claims(token@, secret@) is None,
{
    let mut validation = Validation::new(Algorithm::HS256);
    validation.validate_exp = false;
    let key = DecodingKey::from_secret(secret);
    let mut claims = match decode::<serde_json::Map<String, Value>>(token, &key, &validation) {
        Ok(data) => data.claims,
        Err(_) => return None,
    };
    match (claims.remove("sub"), claims.remove("exp")) {
        (Some(Value::String(sub)), Some(Value::Number(exp))) => exp.as_u64().map(|e| (sub, e)),
        _ => None,
    }
}

impl Claims {
    /// The claims as the JSON text a token carries.
    pub fn to_json(&self) -> (r: String)
        ensures
            r@ == claims_json(self.sub@, self.exp as nat),
    {
        let mut s = "{\"sub\":".to_owned();
        let sub = json_quote(self.sub.as_str());
        push_str(&mut s, sub.as_str());
        push_str(&mut s, ",\"exp\":");
        push_decimal(&mut s, self.exp as u64);
        push_char(&mut s, '}');
        s
    }
}

/// Claims for `sub` that expire `lifetime` seconds after `now`, unless
/// that moment does not fit a `usize`.
pub fn claims_expiring(sub: String, now: u64, lifetime: u64) -> (r: Option<Claims>)
    ensures
        match r {
            Some(c) => now + lifetime <= usize::MAX && c.sub@ == sub@ && c.exp == now + lifetime,
            None => now + lifetime > usize::MAX,
        },
{
    if now > usize::MAX as u64 || lifetime > usize::MAX as u64 - now {
        None
    } else {
        Some(Claims { sub, exp: (now + lifetime) as usize })
    }
}

/// Signs `claims` with `secret`.
pub fn sign_claims(claims: &Claims, secret: &str) -> (r: Result<String, TokenError>)
    ensures
        r matches Ok(t) && t@ == token_for(claims.sub@, claims.exp as int, secret),
        r matches Ok(t) ==> jwt_hs256_claims(t@, encode_utf8(secret@)) == Some((claims.sub@, claims.exp as nat)),
{
    let json = claims.to_json();
    match jwt_encode_hs256(json.as_str(), secret.as_bytes()) {
        Some(t) => Ok(t),
        None => Err(TokenError::Encoding),
    }
}

/// The token for `sub` that expires `lifetime` seconds after `now`, signed
/// with `secret`.
pub fn token_at(sub: String, now: u64, lifetime: u64, secret: &str) -> (r: Result<String, TokenError>)
    ensures
        now + lifetime > usize::MAX ==> r == Err::<String, TokenError>(TokenError::ExpirationOverflow),
        now + lifetime <= usize::MAX ==> (r matches Ok(t) && t@ == token_for(sub@, now + lifetime, secret)),
        r matches Ok(t) ==> jwt_hs256_claims(t@, encode_utf8(secret@)) == Some((sub@, (now + lifetime) as nat)),
{
    match claims_expiring(sub, now, lifetime) {
        Some(claims) => sign_claims(&claims, secret),
        None => Err(TokenError::ExpirationOverflow),
    }
}

/// Creates a session token for `sub`, valid for 5 minutes from now.
pub fn generate_session_token(sub: String) -> (r: Result<String, TokenError>)
    ensures
        r matches Ok(t) ==> exists|now: nat| t@ == #[trigger] token_for(sub@, now + SESSION_LIFETIME_SECS, SESSION_SECRET_KEY)
            && jwt_hs256_claims(t@, encode_utf8(SESSION_SECRET_KEY@)) == Some((sub@, (now + SESSION_LIFETIME_SECS) as nat)),
        r matches Err(e) ==> e == TokenError::ClockBeforeEpoch || e == TokenError::ExpirationOverflow,
{
    match unix_time_secs() {
        Some(now) => {
            let r = token_at(sub, now, SESSION_LIFETIME_SECS, SESSION_SECRET_KEY);
            proof {
                if r is Ok {
                    assert(r->Ok_0@ == token_for(sub@, now + SESSION_LIFETIME_SECS, SESSION_SECRET_KEY));
                }
            }
            r
        },
        None => Err(TokenError::ClockBeforeEpoch),
    }
}

/// Creates a refresh token for `sub`, valid for 7 days from now.
pub fn generate_refresh_token(sub: String) -> (r: Result<String, TokenError>)
    ensures
        r matches Ok(t) ==> exists|now: nat| t@ == #[trigger] token_for(sub@, now + REFRESH_LIFETIME_SECS, REFRESH_SECRET_KEY)
            && jwt_hs256_claims(t@, encode_utf8(REFRESH_SECRET_KEY@)) == Some((sub@, (now + REFRESH_LIFETIME_SECS) as nat)),
        r matches Err(e) ==> e == TokenError::ClockBeforeEpoch || e == TokenError::ExpirationOverflow,
{
    match unix_time_secs() {
        Some(now) => {
            let r = token_at(sub, now, REFRESH_LIFETIME_SECS, REFRESH_SECRET_KEY);
            proof {
                if r is Ok {
                    assert(r->Ok_0@ == token_for(sub@, now + REFRESH_LIFETIME_SECS, REFRESH_SECRET_KEY));
                }
            }
            r
        },
        None => Err(TokenError::ClockBeforeEpoch),
    }
}

/// The claims of `token`, signed with `secret`, checked for expiry at `now`.
pub fn verify_token_at(token: &str, secret: &str, now: u64) -> (r: Result<Claims, TokenError>)
    ensures
        match checked_claims(jwt_hs256_claims(token@, encode_utf8(secret@)), now) {
            Ok((sub, exp)) => r matches Ok(c) && c.sub@ == sub && c.exp == exp,
            Err(e) => r == Err::<Claims, TokenError>(e),
        },
        claims_view(r) == checked_claims(jwt_hs256_claims(token@, encode_utf8(secret@)), now),
{
    match jwt_decode_hs256(token, secret.as_bytes()) {
        None => Err(TokenError::Invalid),
        Some((sub, exp)) => {
            if exp > usize::MAX as u64 {
                Err(TokenError::Invalid)
            } else if now > TOKEN_LEEWAY_SECS && exp < now - TOKEN_LEEWAY_SECS {
                Err(TokenError::Expired)
            } else {
                Ok(Claims { sub, exp: exp as usize })
            }
        },
    }
}

/// Checks `token` against `secret` now: the claims of an unexpired token
/// signed with it.
fn verify_token_now(token: &str, secret: &str) -> (r: Result<Claims, TokenError>)
    ensures
        r matches Ok(c) ==> jwt_hs256_claims(token@, encode_utf8(secret@)) == Some((c.sub@, c.exp as nat)),
        r matches Err(e) ==> e == TokenError::ClockBeforeEpoch
            || exists|now: u64| checked_claims(jwt_hs256_claims(token@, encode_utf8(secret@)), now) == Err::<(Seq<char>, nat), TokenError>(e),
        jwt_hs256_claims(token@, encode_utf8(secret@)) is None ==> r is Err,
        r == Err::<Claims, TokenError>(TokenError::ClockBeforeEpoch)
            || exists|now: u64| #[trigger] checked_claims(jwt_hs256_claims(token@, encode_utf8(secret@)), now) == claims_view(r),
{
    match unix_time_secs() {
        Some(now) => verify_token_at(token, secret, now),
        None => Err(TokenError::ClockBeforeEpoch),
    }
}

/// Checks a session token: the claims of an unexpired token signed with the
/// session secret.
pub fn verify_session_token(token: &str) -> (r: Result<Claims, TokenError>)
    ensures
        r matches Ok(c) ==> jwt_hs256_claims(token@, encode_utf8(SESSION_SECRET_KEY@)) == Some((c.sub@, c.exp as nat)),
        r matches Err(e) ==> e == TokenError::ClockBeforeEpoch
            || exists|now: u64| checked_claims(jwt_hs256_claims(token@, encode_utf8(SESSION_SECRET_KEY@)), now) == Err::<(Seq<char>, nat), TokenError>(e),
        jwt_hs256_claims(token@, encode_utf8(SESSION_SECRET_KEY@)) is None ==> r is Err,
        r == Err::<Claims, TokenError>(TokenError::ClockBeforeEpoch)
            || exists|now: u64| #[trigger] checked_claims(jwt_hs256_claims(token@, encode_utf8(SESSION_SECRET_KEY@)), now) == claims_view(r),
{
    verify_token_now(token, SESSION_SECRET_KEY)
}

/// Checks a refresh token: the claims of an unexpired token signed with the
/// refresh secret.
pub fn verify_refresh_token(token: &str) -> (r: Result<Claims, TokenError>)
    ensures
        r matches Ok(c) ==> jwt_hs256_claims(token@, encode_utf8(REFRESH_SECRET_KEY@)) == Some((c.sub@, c.exp as nat)),
        r matches Err(e) ==> e == TokenError::ClockBeforeEpoch
            || exists|now: u64| checked_claims(jwt_hs256_claims(token@, encode_utf8(REFRESH_SECRET_KEY@)), now) == Err::<(Seq<char>, nat), TokenError>(e),
        jwt_hs256_claims(token@, encode_utf8(REFRESH_SECRET_KEY@)) is None ==> r is Err,
        r == Err::<Claims, TokenError>(TokenError::ClockBeforeEpoch)
            || exists|now: u64| #[trigger] checked_claims(jwt_hs256_claims(token@, encode_utf8(REFRESH_SECRET_KEY@)), now) == claims_view(r),
{
    verify_token_now(token, REFRESH_SECRET_KEY)
}

/// A token whose claims decode to `sub` and `exp` is accepted with those
/// claims at any moment up to `TOKEN_LEEWAY_SECS` seconds after `exp`.
pub proof fn lemma_unexpired_token_verifies(token: Seq<char>, secret: Seq<u8>, sub: Seq<char>, exp: nat, now: u64)
    requires
        jwt_hs256_claims(token, secret) == Some((sub, exp)),
        exp <= usize::MAX,
        now <= exp + TOKEN_LEEWAY_SECS,
    ensures
        checked_claims(jwt_hs256_claims(token, secret), now) == Ok::<(Seq<char>, nat), TokenError>((sub, exp)),
{
}

/// A token whose claims decode to `sub` and an `exp` more than
/// `TOKEN_LEEWAY_SECS` seconds before `now` is rejected at `now` as expired.
pub proof fn lemma_expired_token_rejected(token: Seq<char>, secret: Seq<u8>, sub: Seq<char>, exp: nat, now: u64)
    requires
        jwt_hs256_claims(token, secret) == Some((sub, exp)),
        exp <= usize::MAX,
        exp + TOKEN_LEEWAY_SECS < now,
    ensures
        checked_claims(jwt_hs256_claims(token, secret), now) == Err::<(Seq<char>, nat), TokenError>(TokenError::Expired),
{
}

/// A token issued at `issued` for `lifetime` seconds is accepted with its
/// claims up to `TOKEN_LEEWAY_SECS` seconds after `issued + lifetime`, and
/// rejected as expired from then on.
pub proof fn lemma_token_lifetime(token: Seq<char>, secret: Seq<u8>, sub: Seq<char>, issued: u64, lifetime: u64, now: u64)
    requires
        jwt_hs256_claims(token, secret) == Some((sub, (issued + lifetime) as nat)),
        issued + lifetime <= usize::MAX,
    ensures
        checked_claims(jwt_hs256_claims(token, secret), now) == if now <= issued + lifetime + TOKEN_LEEWAY_SECS {
            Ok::<(Seq<char>, nat), TokenError>((sub, (issued + lifetime) as nat))
        } else {
            Err(TokenError::Expired)
        },
{
}

/// Acceptance only narrows as time passes: a token accepted at `later` is
/// accepted with the same claims at any earlier moment, and one rejected as
/// expired at `earlier` stays rejected at every later moment.
pub proof fn lemma_expiry_monotone(token: Seq<char>, secret: Seq<u8>, earlier: u64, later: u64)
    requires
        earlier <= later,
    ensures
        checked_claims(jwt_hs256_claims(token, secret), later) is Ok ==> checked_claims(jwt_hs256_claims(token, secret), earlier)
            == checked_claims(jwt_hs256_claims(token, secret), later),
        checked_claims(jwt_hs256_claims(token, secret), earlier) == Err::<(Seq<char>, nat), TokenError>(TokenError::Expired)
            ==> checked_claims(jwt_hs256_claims(token, secret), later) == Err::<(Seq<char>, nat), TokenError>(TokenError::Expired),
{
}

} // verus!
