//! Checking a session token on its own.

use vstd::prelude::*;
use vstd::string::*;

use crate::domain::data_stores::{BannedTokenStore, BannedTokenStoreError};
use crate::domain::email::Email;
use crate::domain::errors::AuthAPIError;
use crate::routes::login::OK;
use crate::routes::logout::{logout_admits, refusal, refuse};
use crate::utils::auth::{
    local_verdict, lookup_verdict, validate_token, validation_admits, verdict, verdict_view,
    SessionError,
};

verus! {

/// What a client sends to have a token checked.
pub struct VerifyTokenRequest {
    pub token: String,
}

/// What checking a token answers to what validating it gave: 200 for a
/// token that was taken, and for one that was not what [`refuse`] says.
pub open spec fn verify_token_follows(
    validated: Result<Seq<char>, SessionError>,
    res: Result<u16, AuthAPIError>,
) -> bool {
    match validated {
        Ok(_) => res matches Ok(status) && status == OK,
        Err(e) => res matches Err(error) && refusal(e, error),
    }
}

/// Decides on a check, given what validating the token gave.
pub fn after_validate_token(validated: Result<Email, SessionError>) -> (res: Result<
    u16,
    AuthAPIError,
>)
    ensures
        verify_token_follows(verdict_view(validated), res),
{
    match validated {
        Ok(_) => Ok(OK),
        Err(e) => Err(refuse(e)),
    }
}

/// What checking a token may answer at `now`, given the store of banned
/// tokens: what [`verify_token_follows`] makes of a validation of the
/// token. So the answer is 200 only for a token that is valid by itself and
/// that the store said it does not hold; it is `InvalidToken` for one that
/// fails on its own or is held, and `UnexpectedError` where the store
/// failed. A dependable store has exactly the tokens taken whose
/// [`verdict`] is good.
pub open spec fn verify_token_admits<B: BannedTokenStore>(
    banned: B,
    secret: Seq<char>,
    now: u64,
    request: VerifyTokenRequest,
    res: Result<u16, AuthAPIError>,
) -> bool {
    exists|validated: Result<Seq<char>, SessionError>|
        {
            &&& #[trigger] validation_admits(banned, request.token@, secret, now, validated)
            &&& banned.dependable() ==> validated == verdict(
                request.token@,
                secret,
                now,
                banned.tokens(),
            )
            &&& verify_token_follows(validated, res)
        }
}

/// Checks a session token. Nothing changes.
pub fn verify_token<B: BannedTokenStore>(
    banned_token_store: &B,
    secret: &str,
    now: u64,
    request: VerifyTokenRequest,
) -> (res: Result<u16, AuthAPIError>)
    ensures
        verify_token_admits(*banned_token_store, secret@, now, request, res),
{
    let validated = validate_token(request.token.as_str(), secret, now, banned_token_store);
    let res = after_validate_token(validated);
    assert(validation_admits(
        *banned_token_store,
        request.token@,
        secret@,
        now,
        verdict_view(validated),
    ));
    res
}

/// A token is answered with 200 only where it is valid by itself and the
/// store answered that it does not hold it, whatever store it is: a failed
/// look-up takes no token.
pub proof fn lemma_token_is_taken_on_the_stores_word<B: BannedTokenStore>(
    banned: B,
    secret: Seq<char>,
    now: u64,
    request: VerifyTokenRequest,
    res: Result<u16, AuthAPIError>,
)
    requires
        verify_token_admits(banned, secret, now, request, res),
        res is Ok,
    ensures
        local_verdict(request.token@, secret, now) matches Ok(sub) && lookup_verdict(
            sub,
            Ok(false),
        ) == Ok::<Seq<char>, SessionError>(sub),
        forall|held: Result<bool, BannedTokenStoreError>|
            held != Ok::<bool, BannedTokenStoreError>(false) ==> #[trigger] lookup_verdict(
                local_verdict(request.token@, secret, now)->Ok_0,
                held,
            ) is Err,
{
}

/// Logging out with a token that is valid, from a dependable store, is
/// answered with 200 and leaves the token among the banned ones. Every later
/// check of it is answered with `InvalidToken`, which is 401, at whatever
/// time.
pub proof fn lemma_logged_out_token_is_refused<B: BannedTokenStore>(
    before: B,
    after: B,
    secret: Seq<char>,
    now: u64,
    token: String,
    logout_res: Result<u16, AuthAPIError>,
    later: u64,
    request: VerifyTokenRequest,
    check_res: Result<u16, AuthAPIError>,
)
    requires
        before.dependable(),
        verdict(token@, secret, now, before.tokens()) is Ok,
        logout_admits(before, after, secret, now, Some(token), logout_res),
        request.token@ == token@,
        verify_token_admits(after, secret, later, request, check_res),
    ensures
        logout_res matches Ok(status) && status == 200,
        after.tokens() == before.tokens().insert(token@),
        after.tokens().contains(token@),
        check_res matches Err(e) && e is InvalidToken && e.status() == 401,
{
}

/// After a logout that was answered with 200, a second one is refused and
/// bans nothing: with the same cookie by `InvalidToken`, which is 401, and
/// without a cookie by `MissingToken`, which is 400. The store is taken to be
/// dependable.
pub proof fn lemma_second_logout_is_refused<B: BannedTokenStore>(
    before: B,
    between: B,
    secret: Seq<char>,
    now: u64,
    token: String,
    first_res: Result<u16, AuthAPIError>,
    later: u64,
    cookie: Option<String>,
    after: B,
    second_res: Result<u16, AuthAPIError>,
)
    requires
        between.dependable(),
        logout_admits(before, between, secret, now, Some(token), first_res),
        first_res is Ok,
        cookie matches Some(again) ==> again@ == token@,
        logout_admits(between, after, secret, later, cookie, second_res),
    ensures
        after.tokens() == between.tokens(),
        cookie is Some ==> (second_res matches Err(e) && e is InvalidToken && e.status() == 401),
        cookie is None ==> (second_res matches Err(e) && e is MissingToken && e.status() == 400),
{
}

} // verus!
