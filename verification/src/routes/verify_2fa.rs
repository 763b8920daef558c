//! Confirming a challenge: the second factor.

use vstd::prelude::*;
use vstd::string::*;

use crate::domain::data_stores::{TwoFACodeStore, TwoFACodeStoreError, UserStore};
use crate::domain::email_client::EmailClient;
use crate::domain::email::{is_email, Email};
use crate::domain::errors::AuthAPIError;
use crate::domain::login_attempt_id::{uuid_text, uuid_value, LoginAttemptId};
use crate::domain::two_fa_code::{is_code, TwoFACode};
use crate::routes::login::{login_admits, LoginRequest, LoginResponse, OK};
use crate::utils::auth::{
    can_issue, generate_auth_cookie, is_session_cookie, AuthCookie, SessionError,
};

verus! {

/// What a client sends to confirm a challenge.
pub struct Verify2FARequest {
    pub email: String,
    pub login_attempt_id: String,
    pub two_fa_code: String,
}

/// Whether the three fields of `request` are well formed.
pub open spec fn is_well_formed(request: Verify2FARequest) -> bool {
    &&& is_email(request.email@)
    &&& uuid_value(request.login_attempt_id@) is Some
    &&& is_code(request.two_fa_code@)
}

/// Whether `request` names the challenge that is held for its address:
/// both the identifier, in its hyphenated form, and the code are the ones
/// held.
pub open spec fn confirms(
    codes: Map<Seq<char>, (Seq<char>, Seq<char>)>,
    request: Verify2FARequest,
) -> bool {
    &&& codes.contains_key(request.email@)
    &&& codes[request.email@] == (
        uuid_text(uuid_value(request.login_attempt_id@).unwrap()),
        request.two_fa_code@,
    )
}

/// What confirming a challenge answers to what the store answered. A
/// challenge that the store did not hand out, or one that differs from the
/// request in the identifier or in the code, is `IncorrectCredentials`, and
/// the store is not asked to take anything away. Else the store is asked to
/// take the challenge away: where that failed the answer is
/// `UnexpectedError` and no cookie is set; where it went well the answer is
/// 200 with the session cookie, or `UnexpectedError` without one where no
/// token can be issued at `now`.
pub open spec fn verify_2fa_follows(
    found: Result<(Seq<char>, Seq<char>), TwoFACodeStoreError>,
    removed: Option<Result<(), TwoFACodeStoreError>>,
    asked: (Seq<char>, Seq<char>),
    email: Seq<char>,
    secret: Seq<char>,
    now: u64,
    answer: (Option<AuthCookie>, Result<u16, AuthAPIError>),
) -> bool {
    if found != Ok::<(Seq<char>, Seq<char>), TwoFACodeStoreError>(asked) {
        &&& removed is None
        &&& answer.0 is None
        &&& answer.1 matches Err(AuthAPIError::IncorrectCredentials)
    } else {
        match removed {
            Some(Ok(())) => if can_issue(now) {
                &&& answer.1 matches Ok(status) && status == OK
                &&& answer.0 matches Some(cookie) && is_session_cookie(cookie, email, secret, now)
            } else {
                &&& answer.0 is None
                &&& answer.1 matches Err(AuthAPIError::UnexpectedError(_))
            },
            Some(Err(_)) => {
                &&& answer.0 is None
                &&& answer.1 matches Err(AuthAPIError::UnexpectedError(_))
            },
            None => false,
        }
    }
}

/// The views of a challenge that may be missing.
pub open spec fn challenge_view(found: Result<(LoginAttemptId, TwoFACode), TwoFACodeStoreError>)
    -> Result<(Seq<char>, Seq<char>), TwoFACodeStoreError> {
    match found {
        Ok((login_attempt_id, code)) => Ok((login_attempt_id@, code@)),
        Err(e) => Err(e),
    }
}

/// Decides on a confirmation, given what the store answered when it was
/// asked for the challenge: it goes on only where the store handed out the
/// very identifier and code that the request names.
pub fn after_get_code(
    found: Result<(LoginAttemptId, TwoFACode), TwoFACodeStoreError>,
    login_attempt_id: &LoginAttemptId,
    two_fa_code: &TwoFACode,
) -> (res: Result<(), AuthAPIError>)
    ensures
        if challenge_view(found) == Ok::<(Seq<char>, Seq<char>), TwoFACodeStoreError>(
            (login_attempt_id@, two_fa_code@),
        ) {
            res is Ok
        } else {
            res matches Err(AuthAPIError::IncorrectCredentials)
        },
{
    match found {
        Ok((stored_login_attempt_id, stored_two_fa_code)) => {
            if *two_fa_code == stored_two_fa_code && *login_attempt_id == stored_login_attempt_id {
                Ok(())
            } else {
                Err(AuthAPIError::IncorrectCredentials)
            }
        },
        Err(_) => Err(AuthAPIError::IncorrectCredentials),
    }
}

/// Decides on a confirmed challenge, given what the store answered when it
/// was asked to take it away: a session begins only where it is gone.
pub fn after_remove_code(removed: Result<(), TwoFACodeStoreError>) -> (res: Result<
    (),
    AuthAPIError,
>)
    ensures
        match removed {
            Ok(()) => res is Ok,
            Err(_) => res matches Err(AuthAPIError::UnexpectedError(_)),
        },
{
    match removed {
        Ok(()) => Ok(()),
        Err(_) => Err(AuthAPIError::UnexpectedError("failed to remove the 2FA code".to_owned())),
    }
}

/// Decides on a session after a challenge, given what issuing its cookie
/// gave: 200 with the cookie, or `UnexpectedError` without one.
pub fn after_generate_auth_cookie(issued: Result<AuthCookie, SessionError>) -> (answer: (
    Option<AuthCookie>,
    Result<u16, AuthAPIError>,
))
    ensures
        match issued {
            Ok(cookie) => answer.0 == Some(cookie) && (answer.1 matches Ok(status) && status
                == OK),
            Err(_) => answer.0 is None && answer.1 matches Err(AuthAPIError::UnexpectedError(_)),
        },
{
    match issued {
        Ok(cookie) => (Some(cookie), Ok(OK)),
        Err(_) => (
            None,
            Err(AuthAPIError::UnexpectedError("failed to issue the session token".to_owned())),
        ),
    }
}

/// What confirming a challenge may do: the answer to `request` at `now`,
/// with the challenge store going from `before` to `after`.
///
/// A request with a field that is not well formed is answered with
/// `InvalidCredentials` and the store is not touched. Else the answer is as
/// [`verify_2fa_follows`] says of what the store answered. A dependable
/// store hands out the challenge that it holds and none where it holds
/// none, so exactly the request that names the challenge held is confirmed;
/// it does not fail to take the challenge away, and holds it no more after
/// that. A request that is not confirmed leaves the store untouched.
pub open spec fn verify_2fa_admits<T: TwoFACodeStore>(
    before: T,
    after: T,
    secret: Seq<char>,
    now: u64,
    request: Verify2FARequest,
    answer: (Option<AuthCookie>, Result<u16, AuthAPIError>),
) -> bool {
    &&& after.dependable() == before.dependable()
    &&& if !is_well_formed(request) {
        &&& answer.0 is None
        &&& answer.1 matches Err(AuthAPIError::InvalidCredentials)
        &&& after == before
    } else {
        let asked = (
            uuid_text(uuid_value(request.login_attempt_id@).unwrap()),
            request.two_fa_code@,
        );
        exists|
            found: Result<(Seq<char>, Seq<char>), TwoFACodeStoreError>,
            removed: Option<Result<(), TwoFACodeStoreError>>,
        |
            {
                &&& #[trigger] verify_2fa_follows(
                    found,
                    removed,
                    asked,
                    request.email@,
                    secret,
                    now,
                    answer,
                )
                &&& removed is None ==> after == before
                &&& before.dependable() ==> {
                    &&& found is Ok <==> before.codes().contains_key(request.email@)
                    &&& found matches Ok(held) ==> held == before.codes()[request.email@]
                    &&& removed matches Some(gone) ==> gone is Ok && after.codes()
                        == before.codes().remove(request.email@)
                }
            }
    }
}

/// Confirms a challenge: checks the request, holds it against the challenge
/// kept for its address, takes that challenge away so that it cannot be
/// used again, and begins a session.
pub fn verify_2fa<T: TwoFACodeStore>(
    two_fa_code_store: &mut T,
    secret: &str,
    now: u64,
    request: Verify2FARequest,
) -> (answer: (Option<AuthCookie>, Result<u16, AuthAPIError>))
    ensures
        verify_2fa_admits(
            *old(two_fa_code_store),
            *final(two_fa_code_store),
            secret@,
            now,
            request,
            answer,
        ),
{
    let email = match Email::parse(request.email) {
        Ok(email) => email,
        Err(_) => { return (None, Err(AuthAPIError::InvalidCredentials)); },
    };
    let login_attempt_id = match LoginAttemptId::parse(request.login_attempt_id) {
        Ok(login_attempt_id) => login_attempt_id,
        Err(_) => { return (None, Err(AuthAPIError::InvalidCredentials)); },
    };
    let two_fa_code = match TwoFACode::parse(request.two_fa_code) {
        Ok(two_fa_code) => two_fa_code,
        Err(_) => { return (None, Err(AuthAPIError::InvalidCredentials)); },
    };
    let ghost asked = (login_attempt_id@, two_fa_code@);
    let found = two_fa_code_store.get_code(&email);
    let ghost seen = challenge_view(found);
    if let Err(e) = after_get_code(found, &login_attempt_id, &two_fa_code) {
        let answer = (None, Err(e));
        assert(verify_2fa_follows(seen, None, asked, email@, secret@, now, answer));
        return answer;
    }
    let removed = two_fa_code_store.remove_code(&email);
    if let Err(e) = after_remove_code(removed) {
        let answer = (None, Err(e));
        assert(verify_2fa_follows(seen, Some(removed), asked, email@, secret@, now, answer));
        return answer;
    }
    let answer = after_generate_auth_cookie(generate_auth_cookie(&email, secret, now));
    assert(verify_2fa_follows(seen, Some(removed), asked, email@, secret@, now, answer));
    answer
}

/// A login that is answered with 206 leaves a challenge under the user's
/// address. Confirming it with the identifier from the answer and the code
/// that was kept is answered with 200 and a cookie, if the signer writes a
/// token; confirming it once more is answered with `IncorrectCredentials`,
/// which is 401, for the challenge is gone. The challenge store is taken to
/// be dependable.
pub proof fn lemma_challenge_is_confirmed_once<
    U: UserStore,
    T: TwoFACodeStore,
    E: EmailClient,
>(
    users: U,
    codes_before: T,
    codes: T,
    client_before: E,
    client_after: E,
    secret: Seq<char>,
    now: u64,
    login_request: LoginRequest,
    login_answer: (Option<AuthCookie>, Result<(u16, LoginResponse), AuthAPIError>),
    request: Verify2FARequest,
    first_time: u64,
    codes_between: T,
    first_answer: (Option<AuthCookie>, Result<u16, AuthAPIError>),
    second_time: u64,
    codes_after: T,
    second_answer: (Option<AuthCookie>, Result<u16, AuthAPIError>),
)
    requires
        codes.dependable(),
        login_admits(
            users,
            codes_before,
            codes,
            client_before,
            client_after,
            secret,
            now,
            login_request,
            login_answer,
        ),
        login_answer.1 matches Ok((_, LoginResponse::TwoFactorAuth(body)))
            && request.login_attempt_id@ == body.login_attempt_id@,
        request.email@ == login_request.email@,
        request.two_fa_code@ == codes.codes()[login_request.email@].1,
        can_issue(first_time),
        verify_2fa_admits(codes, codes_between, secret, first_time, request, first_answer),
        verify_2fa_admits(codes_between, codes_after, secret, second_time, request, second_answer),
    ensures
        login_answer.1 matches Ok((status, _)) && status == 206,
        codes.codes().contains_key(login_request.email@),
        first_answer.1 matches Ok(status) && status == 200,
        first_answer.0 is Some,
        !codes_between.codes().contains_key(request.email@),
        second_answer.0 is None,
        second_answer.1 matches Err(e) && e is IncorrectCredentials && e.status() == 401,
{
}

/// Of two logins in succession that are both answered with 206, the second
/// one's challenge takes the place of the first one's. Confirming with the
/// first one's identifier and code is then answered with
/// `IncorrectCredentials`, unless both draws came out the same. The
/// challenge store is taken to be dependable.
pub proof fn lemma_stale_challenge_is_refused<U: UserStore, T: TwoFACodeStore, E: EmailClient>(
    users: U,
    codes_before: T,
    codes_first: T,
    codes_second: T,
    client_before: E,
    client_between: E,
    client_after: E,
    secret: Seq<char>,
    first_time: u64,
    second_time: u64,
    first_request: LoginRequest,
    second_request: LoginRequest,
    first_answer: (Option<AuthCookie>, Result<(u16, LoginResponse), AuthAPIError>),
    second_answer: (Option<AuthCookie>, Result<(u16, LoginResponse), AuthAPIError>),
    request: Verify2FARequest,
    time: u64,
    codes_after: T,
    answer: (Option<AuthCookie>, Result<u16, AuthAPIError>),
)
    requires
        codes_second.dependable(),
        second_request.email@ == first_request.email@,
        login_admits(
            users,
            codes_before,
            codes_first,
            client_before,
            client_between,
            secret,
            first_time,
            first_request,
            first_answer,
        ),
        first_answer.1 matches Ok((_, LoginResponse::TwoFactorAuth(_))),
        login_admits(
            users,
            codes_first,
            codes_second,
            client_between,
            client_after,
            secret,
            second_time,
            second_request,
            second_answer,
        ),
        second_answer.1 matches Ok((_, LoginResponse::TwoFactorAuth(_))),
        codes_second.codes()[first_request.email@] != codes_first.codes()[first_request.email@],
        request.email@ == first_request.email@,
        request.login_attempt_id@ == codes_first.codes()[first_request.email@].0,
        request.two_fa_code@ == codes_first.codes()[first_request.email@].1,
        verify_2fa_admits(codes_second, codes_after, secret, time, request, answer),
    ensures
        codes_second.codes() == codes_first.codes().insert(
            first_request.email@,
            codes_second.codes()[first_request.email@],
        ),
        answer.0 is None,
        answer.1 matches Err(e) && e == AuthAPIError::IncorrectCredentials && e.status() == 401,
        codes_after.codes() == codes_second.codes(),
{
}

} // verus!
