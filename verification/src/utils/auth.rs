//! Session tokens: signed claims that name a user and expire.

use vstd::prelude::*;
use vstd::string::*;
use vstd::utf8::encode_utf8;

use crate::domain::data_stores::{BannedTokenStore, BannedTokenStoreError};
use crate::domain::email::{is_email, Email};

verus! {

/// Name of the cookie that carries the session token.
pub const JWT_COOKIE_NAME: &'static str = "jwt";

/// Seconds for which a session token is valid.
pub const TOKEN_TTL_SECONDS: i64 = 600;

/// The token that `jsonwebtoken::encode` writes for the claims `sub`, `iat`
/// and `exp` under the HS256 header and the secret, if it writes one.
pub uninterp spec fn jwt_text(sub: Seq<char>, iat: u64, exp: u64, secret: Seq<u8>) -> Option<
    Seq<char>,
>;

/// The claims `sub`, `iat` and `exp` that `jsonwebtoken::decode` reads from
/// `token` under the secret, if the signature holds and the three are there.
pub uninterp spec fn jwt_claims(token: Seq<char>, secret: Seq<u8>) -> Option<
    (Seq<char>, u64, u64),
>;

/// Why a session token was not made or not taken.
#[derive(Debug, Clone, Copy, PartialEq, Eq, Structural)]
pub enum SessionError {
    /// The token is malformed, its signature does not hold, or it names no
    /// email address.
    BadSignature,
    /// The token's time is over.
    Expired,
    /// The token was revoked.
    Revoked,
    /// The signer or the store of banned tokens failed.
    UnexpectedError,
}

/// What a session token says.
pub struct Claims {
    /// The text of the user's email address.
    pub sub: String,
    /// When the token was made, in seconds since the epoch.
    pub iat: u64,
    /// Until when the token is valid, in seconds since the epoch.
    pub exp: u64,
}

impl View for Claims {
    type V = (Seq<char>, u64, u64);

    open spec fn view(&self) -> (Seq<char>, u64, u64) {
        (self.sub@, self.iat, self.exp)
    }
}

/// How a cookie is kept from other sites.
#[derive(Debug, Clone, Copy, PartialEq, Eq, Structural)]
pub enum SameSite {
    Strict,
    Lax,
}

/// The cookie that hands a session token to a client.
pub struct AuthCookie {
    pub name: String,
    pub value: String,
    pub path: String,
    pub http_only: bool,
    pub same_site: SameSite,
    pub secure: bool,
}

/// Whether `cookie` carries `token` the way the service sends it: under the
/// name `jwt`, for the path `/`, out of reach of scripts, lax towards other
/// sites, and over secure channels only.
pub open spec fn is_auth_cookie(cookie: AuthCookie, token: Seq<char>) -> bool {
    &&& cookie.name@ == JWT_COOKIE_NAME@
    &&& cookie.value@ == token
    &&& cookie.path@ == "/"@
    &&& cookie.http_only
    &&& cookie.same_site == SameSite::Lax
    &&& cookie.secure
}

/// Whether a token made at `now` has a time of expiry that is a number of
/// 64 bits.
pub open spec fn can_issue(now: u64) -> bool {
    now + TOKEN_TTL_SECONDS <= u64::MAX
}

/// Whether `token` was signed under `secret` for `email` at `now`: it reads
/// back as these claims.
pub open spec fn names(token: Seq<char>, secret: Seq<char>, email: Seq<char>, now: u64) -> bool {
    jwt_claims(token, encode_utf8(secret)) == Some(
        (email, now, (now + TOKEN_TTL_SECONDS) as u64),
    )
}

/// The token made at `now` for the user with address `email`: none where the
/// time of expiry is too large a number, else what the signer writes.
pub open spec fn issued_token(email: Seq<char>, secret: Seq<char>, now: u64) -> Option<Seq<char>> {
    if now + TOKEN_TTL_SECONDS > u64::MAX {
        None
    } else {
        jwt_text(email, now, (now + TOKEN_TTL_SECONDS) as u64, encode_utf8(secret))
    }
}

/// What claims that were read from a token say at `now`: the address they
/// name, or why the token is not taken. No claims stand for a token that
/// could not be read. A subject that is no email address counts as a bad
/// signature; a token is expired once `now` is past its time of expiry.
pub open spec fn claims_verdict(claims: Option<(Seq<char>, u64, u64)>, now: u64) -> Result<
    Seq<char>,
    SessionError,
> {
    match claims {
        None => Err(SessionError::BadSignature),
        Some((sub, iat, exp)) => if !is_email(sub) {
            Err(SessionError::BadSignature)
        } else if exp < now {
            Err(SessionError::Expired)
        } else {
            Ok(sub)
        },
    }
}

/// What the token itself says at `now`, before any store is asked. The
/// signature comes first, then the time.
pub open spec fn local_verdict(token: Seq<char>, secret: Seq<char>, now: u64) -> Result<
    Seq<char>,
    SessionError,
> {
    claims_verdict(jwt_claims(token, encode_utf8(secret)), now)
}

/// What holding the token against the banned ones adds to
/// [`local_verdict`].
pub open spec fn verdict(token: Seq<char>, secret: Seq<char>, now: u64, banned: Set<Seq<char>>)
    -> Result<Seq<char>, SessionError> {
    match local_verdict(token, secret, now) {
        Err(e) => Err(e),
        Ok(sub) => if banned.contains(token) {
            Err(SessionError::Revoked)
        } else {
            Ok(sub)
        },
    }
}

/// Calls `jsonwebtoken::encode` with the default header (HS256), a JSON
/// object of the three claims and the secret as an HMAC key. The token is a
/// function of the arguments alone. The call does not fail: the key is of
/// the header's family, the claims are a JSON object of a string and two
/// numbers, and an HMAC is made of any bytes. The token is never empty, as
/// two dots join its three parts; and decoding it under the same secret
/// finds the signature good and reads the same three claims.
#[verifier::external_body]
fn sign(sub: &str, iat: u64, exp: u64, secret: &[u8]) -> (token: Option<String>)
    ensures
        token is Some,
        token matches Some(text) ==> jwt_text(sub@, iat, exp, secret@) == Some(text@),
        token matches Some(text) ==> text@.len() > 0,
        token matches Some(text) ==> jwt_claims(text@, secret@) == Some((sub@, iat, exp)),
{
    let mut claims = serde_json::Map::new();
    claims.insert("sub".to_owned(), serde_json::Value::from(sub));
    claims.insert("iat".to_owned(), serde_json::Value::from(iat));
    claims.insert("exp".to_owned(), serde_json::Value::from(exp));
    let key = jsonwebtoken::EncodingKey::from_secret(secret);
    jsonwebtoken::encode(&jsonwebtoken::Header::default(), &claims, &key).ok()
}

/// Calls `jsonwebtoken::decode` for HS256 with the secret as an HMAC key and
/// with the check of `exp` against the clock switched off, so that the answer
/// is a function of the arguments alone. `None` where the call fails or one
/// of the three claims is missing or of another type.
#[verifier::external_body]
fn unseal(token: &str, secret: &[u8]) -> (claims: Option<Claims>)
    ensures
        claims_view(claims) == jwt_claims(token@, secret@),
{
    let mut rules = jsonwebtoken::Validation::new(jsonwebtoken::Algorithm::HS256);
    rules.validate_exp = false;
    let key = jsonwebtoken::DecodingKey::from_secret(secret);
    let data = jsonwebtoken::decode::<serde_json::Value>(token, &key, &rules).ok()?;
    let sub = data.claims.get("sub")?.as_str()?.to_owned();
    let iat = data.claims.get("iat")?.as_u64()?;
    let exp = data.claims.get("exp")?.as_u64()?;
    Some(Claims { sub, iat, exp })
}

/// Makes the session token of `email` at `now`, valid for
/// [`TOKEN_TTL_SECONDS`]. A token is owed whenever its time of expiry is a
/// number of 64 bits, and it reads back as the claims it was made of.
pub fn generate_auth_token(email: &Email, secret: &str, now: u64) -> (res: Result<
    String,
    SessionError,
>)
    ensures
        match res {
            Ok(token) => {
                &&& can_issue(now)
                &&& issued_token(email@, secret@, now) == Some(token@)
                &&& token@.len() > 0
                &&& names(token@, secret@, email@, now)
            },
            Err(e) => e == SessionError::UnexpectedError && !can_issue(now),
        },
{
    if now > u64::MAX - (TOKEN_TTL_SECONDS as u64) {
        return Err(SessionError::UnexpectedError);
    }
    let exp: u64 = now + (TOKEN_TTL_SECONDS as u64);
    match sign(email.as_ref(), now, exp, secret.as_bytes()) {
        Some(token) => Ok(token),
        None => Err(SessionError::UnexpectedError),
    }
}

/// The cookie that carries `token`.
pub fn create_auth_cookie(token: String) -> (cookie: AuthCookie)
    ensures
        is_auth_cookie(cookie, token@),
{
    AuthCookie {
        name: JWT_COOKIE_NAME.to_owned(),
        value: token,
        path: "/".to_owned(),
        http_only: true,
        same_site: SameSite::Lax,
        secure: true,
    }
}

/// Whether `cookie` is the session cookie made for `email` at `now`: it
/// carries, the way the service sends it, the token issued, which is not
/// empty and reads back as the claims it was made of.
pub open spec fn is_session_cookie(
    cookie: AuthCookie,
    email: Seq<char>,
    secret: Seq<char>,
    now: u64,
) -> bool {
    &&& can_issue(now)
    &&& is_auth_cookie(cookie, cookie.value@)
    &&& issued_token(email, secret, now) == Some(cookie.value@)
    &&& cookie.value@.len() > 0
    &&& names(cookie.value@, secret, email, now)
}

/// Makes the session token of `email` at `now` and the cookie that carries
/// it.
pub fn generate_auth_cookie(email: &Email, secret: &str, now: u64) -> (res: Result<
    AuthCookie,
    SessionError,
>)
    ensures
        match res {
            Ok(cookie) => is_session_cookie(cookie, email@, secret@, now),
            Err(e) => e == SessionError::UnexpectedError && !can_issue(now),
        },
{
    match generate_auth_token(email, secret, now) {
        Ok(token) => Ok(create_auth_cookie(token)),
        Err(e) => Err(e),
    }
}

/// A token that was issued to an email address is valid by itself from the
/// time it was made to the time it expires, and names that address.
pub proof fn lemma_issued_token_is_valid(
    token: Seq<char>,
    secret: Seq<char>,
    email: Seq<char>,
    now: u64,
    later: u64,
)
    requires
        is_email(email),
        can_issue(now),
        names(token, secret, email, now),
        later <= now + TOKEN_TTL_SECONDS,
    ensures
        local_verdict(token, secret, later) == Ok::<Seq<char>, SessionError>(email),
        forall|banned: Set<Seq<char>>|
            !banned.contains(token) ==> #[trigger] verdict(token, secret, later, banned) == Ok::<
                Seq<char>,
                SessionError,
            >(email),
{
}

/// The view of claims that may be missing.
pub open spec fn claims_view(claims: Option<Claims>) -> Option<(Seq<char>, u64, u64)> {
    match claims {
        Some(c) => Some(c@),
        None => None,
    }
}

/// Holds claims that were read from a token against the clock: the user
/// they name, or why the token is not taken.
pub fn check_claims(claims: Option<Claims>, now: u64) -> (res: Result<Email, SessionError>)
    ensures
        match res {
            Ok(email) => claims_verdict(claims_view(claims), now) == Ok::<Seq<char>, SessionError>(
                email@,
            ),
            Err(e) => claims_verdict(claims_view(claims), now) == Err::<Seq<char>, SessionError>(
                e,
            ),
        },
{
    match claims {
        None => Err(SessionError::BadSignature),
        Some(c) => {
            let exp = c.exp;
            match Email::parse(c.sub) {
                Err(_) => Err(SessionError::BadSignature),
                Ok(email) => {
                    if exp < now {
                        Err(SessionError::Expired)
                    } else {
                        Ok(email)
                    }
                },
            }
        },
    }
}

/// What the store's answer adds to a token that is valid by itself and
/// names `sub`: only one that the store says it does not hold is taken. One
/// that it holds is revoked, and where the store fails the token is not
/// taken either.
pub open spec fn lookup_verdict(sub: Seq<char>, held: Result<bool, BannedTokenStoreError>)
    -> Result<Seq<char>, SessionError> {
    match held {
        Ok(false) => Ok(sub),
        Ok(true) => Err(SessionError::Revoked),
        Err(_) => Err(SessionError::UnexpectedError),
    }
}

/// The view of a verdict.
pub open spec fn verdict_view(res: Result<Email, SessionError>) -> Result<Seq<char>, SessionError> {
    match res {
        Ok(email) => Ok(email@),
        Err(e) => Err(e),
    }
}

/// Decides on a token that is valid by itself and names `email`, given what
/// the store of banned tokens answered.
pub fn after_contains_token(email: Email, held: Result<bool, BannedTokenStoreError>) -> (res:
    Result<Email, SessionError>)
    ensures
        verdict_view(res) == lookup_verdict(email@, held),
{
    match held {
        Ok(false) => Ok(email),
        Ok(true) => Err(SessionError::Revoked),
        Err(_) => Err(SessionError::UnexpectedError),
    }
}

/// What validating a token may answer. A token that fails by itself is
/// answered with its own failure, whatever the store holds. For one that is
/// valid by itself the answer is what [`lookup_verdict`] makes of an answer
/// of the store, and a dependable store answers whether it holds the token.
pub open spec fn validation_admits<B: BannedTokenStore>(
    banned: B,
    token: Seq<char>,
    secret: Seq<char>,
    now: u64,
    res: Result<Seq<char>, SessionError>,
) -> bool {
    match local_verdict(token, secret, now) {
        Err(e) => res == Err::<Seq<char>, SessionError>(e),
        Ok(sub) => exists|held: Result<bool, BannedTokenStoreError>|
            {
                &&& res == #[trigger] lookup_verdict(sub, held)
                &&& banned.dependable() ==> held == Ok::<bool, BannedTokenStoreError>(
                    banned.tokens().contains(token),
                )
            },
    }
}

/// Validates a session token at `now`: first its signature and claims, then
/// its time, and only then whether it was revoked. The store is not asked
/// about a token that fails on its own. Of a dependable store the answer is
/// the [`verdict`].
pub fn validate_token<B: BannedTokenStore>(
    token: &str,
    secret: &str,
    now: u64,
    banned_token_store: &B,
) -> (res: Result<Email, SessionError>)
    ensures
        validation_admits(*banned_token_store, token@, secret@, now, verdict_view(res)),
        banned_token_store.dependable() ==> verdict_view(res) == verdict(
            token@,
            secret@,
            now,
            banned_token_store.tokens(),
        ),
{
    let email = match check_claims(unseal(token, secret.as_bytes()), now) {
        Ok(email) => email,
        Err(e) => { return Err(e); },
    };
    let held = banned_token_store.contains_token(token);
    let res = after_contains_token(email, held);
    assert(verdict_view(res) == lookup_verdict(email@, held));
    res
}

} // verus!
