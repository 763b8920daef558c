//! Logging out: revoking the session token.

use vstd::prelude::*;
use vstd::string::*;

use crate::domain::data_stores::{BannedTokenStore, BannedTokenStoreError};
use crate::domain::errors::AuthAPIError;
use crate::routes::login::OK;
use crate::utils::auth::{
    validate_token, validation_admits, verdict, verdict_view, SessionError,
};

verus! {

/// What a client is told of a session token that was not taken: nothing of
/// the reason, unless the store failed.
pub open spec fn refusal(e: SessionError, error: AuthAPIError) -> bool {
    match e {
        SessionError::UnexpectedError => error is UnexpectedError,
        _ => error is InvalidToken,
    }
}

/// What a client is told of a session token that was not taken.
pub fn refuse(e: SessionError) -> (error: AuthAPIError)
    ensures
        refusal(e, error),
{
    match e {
        SessionError::UnexpectedError => AuthAPIError::UnexpectedError(
            "failed to look the token up".to_owned(),
        ),
        _ => AuthAPIError::InvalidToken,
    }
}

/// What logging out answers to what the store answered when it was asked to
/// ban the token: 200 where it did, `UnexpectedError` where it failed.
pub open spec fn logout_follows(
    banned: Result<(), BannedTokenStoreError>,
    res: Result<u16, AuthAPIError>,
) -> bool {
    match banned {
        Ok(()) => res matches Ok(status) && status == OK,
        Err(_) => res matches Err(AuthAPIError::UnexpectedError(_)),
    }
}

/// Decides on a logout with a valid token, given what the store answered
/// when it was asked to ban the token.
pub fn after_add_token(banned: Result<(), BannedTokenStoreError>) -> (res: Result<
    u16,
    AuthAPIError,
>)
    ensures
        logout_follows(banned, res),
{
    match banned {
        Ok(()) => Ok(OK),
        Err(_) => Err(AuthAPIError::UnexpectedError("failed to ban the token".to_owned())),
    }
}

/// What logging out may do: the answer at `now` to a request that came with
/// the cookie `cookie`, with the store of banned tokens going from `before`
/// to `after`.
///
/// Without a cookie the answer is `MissingToken`. A token that is not taken
/// is answered as [`refuse`] says: with `InvalidToken` where it fails on
/// its own or is held by the store already, with `UnexpectedError` where the
/// store failed. None of these touches the store. A token that is taken is
/// handed to the store to be banned, and the answer is as
/// [`logout_follows`] says: 200, on which the client's cookie is to be
/// cleared, or `UnexpectedError`, which a dependable store never brings
/// about.
pub open spec fn logout_admits<B: BannedTokenStore>(
    before: B,
    after: B,
    secret: Seq<char>,
    now: u64,
    cookie: Option<String>,
    res: Result<u16, AuthAPIError>,
) -> bool {
    &&& after.dependable() == before.dependable()
    &&& match cookie {
        None => {
            &&& res matches Err(AuthAPIError::MissingToken)
            &&& after == before
        },
        Some(token) => exists|validated: Result<Seq<char>, SessionError>|
            {
                &&& #[trigger] validation_admits(before, token@, secret, now, validated)
                &&& before.dependable() ==> validated == verdict(
                    token@,
                    secret,
                    now,
                    before.tokens(),
                )
                &&& match validated {
                    Err(e) => {
                        &&& after == before
                        &&& res matches Err(error) && refusal(e, error)
                    },
                    Ok(_) => {
                        &&& exists|banned: Result<(), BannedTokenStoreError>| #[trigger]
                            logout_follows(banned, res)
                        &&& before.dependable() ==> (res matches Ok(status) && status == OK
                            && after.tokens() == before.tokens().insert(token@))
                    },
                }
            },
    }
}

/// Logs out: validates the token that came in the cookie and bans it.
pub fn logout<B: BannedTokenStore>(
    banned_token_store: &mut B,
    secret: &str,
    now: u64,
    cookie: Option<String>,
) -> (res: Result<u16, AuthAPIError>)
    ensures
        logout_admits(
            *old(banned_token_store),
            *final(banned_token_store),
            secret@,
            now,
            cookie,
            res,
        ),
{
    let token = match cookie {
        Some(token) => token,
        None => { return Err(AuthAPIError::MissingToken); },
    };
    let validated = validate_token(token.as_str(), secret, now, &*banned_token_store);
    match validated {
        Ok(_) => {},
        Err(e) => {
            let res = Err(refuse(e));
            assert(validation_admits(
                *old(banned_token_store),
                token@,
                secret@,
                now,
                verdict_view(validated),
            ));
            return res;
        },
    }
    let banned = banned_token_store.add_token(token);
    let res = after_add_token(banned);
    proof {
        assert(logout_follows(banned, res));
        assert(validation_admits(
            *old(banned_token_store),
            token@,
            secret@,
            now,
            verdict_view(validated),
        ));
    }
    res
}

} // verus!
