//! Logging in: the first factor, and the challenge for the second.

use vstd::prelude::*;
use vstd::string::*;

use crate::domain::data_stores::{
    TwoFACodeStore, TwoFACodeStoreError, UserStore, UserStoreError,
};
use crate::domain::email::{is_email, Email};
use crate::domain::email_client::{EmailClient, Message};
use crate::domain::errors::AuthAPIError;
use crate::domain::login_attempt_id::{is_login_attempt_id, LoginAttemptId};
use crate::domain::password::{is_password, Password};
use crate::domain::two_fa_code::{is_code, TwoFACode};
use crate::routes::signup::{signup_admits, SignupRequest, SignupResponse};
use crate::services::hash_map_user_store::HashmapUserStore;
use crate::domain::user::User;
use crate::utils::auth::{
    can_issue, generate_auth_cookie, is_session_cookie, lemma_issued_token_is_valid,
    local_verdict, AuthCookie, SessionError, TOKEN_TTL_SECONDS,
};

verus! {

/// The HTTP status of a login that needs no second factor.
pub const OK: u16 = 200;

/// The HTTP status of a login that waits for its second factor.
pub const PARTIAL_CONTENT: u16 = 206;

/// What a client sends to log in.
pub struct LoginRequest {
    pub email: String,
    pub password: String,
}

/// What a client is told when logging in went well.
#[derive(Debug)]
pub enum LoginResponse {
    /// The session has begun.
    RegularAuth,
    /// A code is on its way; the session begins when it is confirmed.
    TwoFactorAuth(TwoFactorAuthResponse),
}

/// What a client is told when a second factor is asked for. It names the
/// attempt and never the code.
#[derive(Debug)]
pub struct TwoFactorAuthResponse {
    pub message: String,
    pub login_attempt_id: String,
}

impl PartialEq for TwoFactorAuthResponse {
    fn eq(&self, other: &Self) -> (equal: bool) {
        self.message == other.message && self.login_attempt_id == other.login_attempt_id
    }
}

impl vstd::std_specs::cmp::PartialEqSpecImpl for TwoFactorAuthResponse {
    open spec fn obeys_eq_spec() -> bool {
        true
    }

    open spec fn eq_spec(&self, other: &Self) -> bool {
        self.message@ == other.message@ && self.login_attempt_id@ == other.login_attempt_id@
    }
}

/// Whether the store holds a user under `email` whose password it takes
/// `password` for.
pub open spec fn credentials_hold<U: UserStore>(users: U, email: Seq<char>, password: Seq<char>)
    -> bool {
    users.users().contains_key(email) && U::accepts(users.users()[email].password, password)
}

/// Whether a fresh challenge was put under `email`, in place of any that was
/// there, and nothing else changed.
pub open spec fn kept(
    before: Map<Seq<char>, (Seq<char>, Seq<char>)>,
    after: Map<Seq<char>, (Seq<char>, Seq<char>)>,
    email: Seq<char>,
) -> bool {
    &&& after.contains_key(email)
    &&& after == before.insert(email, after[email])
    &&& is_login_attempt_id(after[email].0)
    &&& is_code(after[email].1)
}

/// Whether one message was taken, and it carries a code to `email` under the
/// subject `2FA code`.
pub open spec fn sent(before: Seq<Message>, after: Seq<Message>, email: Seq<char>) -> bool {
    &&& after.len() == before.len() + 1
    &&& after == before.push(after.last())
    &&& after.last().recipient == email
    &&& after.last().subject == "2FA code"@
    &&& is_code(after.last().content)
}

/// What opening a challenge answers to what the store and the notifier
/// answered. Where the store failed to keep the challenge the notifier is
/// not touched and the answer is `UnexpectedError`. Where the challenge was
/// kept the notifier is asked: where it failed the answer is
/// `UnexpectedError` and never 206, and where it took the code the answer is
/// 206 with the identifier `id` of the attempt. No cookie is set.
pub open spec fn second_factor_follows<E: EmailClient>(
    stored: Result<(), TwoFACodeStoreError>,
    sent: Option<Result<(), String>>,
    id: Seq<char>,
    client_before: E,
    client_after: E,
    answer: (Option<AuthCookie>, Result<(u16, LoginResponse), AuthAPIError>),
) -> bool {
    &&& answer.0 is None
    &&& match stored {
        Err(_) => {
            &&& sent is None
            &&& client_after == client_before
            &&& answer.1 matches Err(AuthAPIError::UnexpectedError(_))
        },
        Ok(()) => match sent {
            Some(Ok(())) => {
                &&& answer.1 matches Ok((status, LoginResponse::TwoFactorAuth(body)))
                &&& status == PARTIAL_CONTENT
                &&& body.message@ == "2FA required"@
                &&& body.login_attempt_id@ == id
            },
            Some(Err(_)) => answer.1 matches Err(AuthAPIError::UnexpectedError(_)),
            None => false,
        },
    }
}

/// Decides on a challenge, given what the store answered when it was asked
/// to keep it: the notifier is to be asked only where it was kept.
pub fn after_add_code(stored: Result<(), TwoFACodeStoreError>) -> (res: Result<(), AuthAPIError>)
    ensures
        match stored {
            Ok(()) => res is Ok,
            Err(_) => res matches Err(AuthAPIError::UnexpectedError(_)),
        },
{
    match stored {
        Ok(()) => Ok(()),
        Err(_) => Err(AuthAPIError::UnexpectedError("failed to keep the 2FA code".to_owned())),
    }
}

/// Decides on a challenge that was kept, given what the notifier answered:
/// 206 with the identifier of the attempt where the code was taken for
/// delivery, `UnexpectedError` with the notifier's cause where it was not.
pub fn after_send_email(sent: Result<(), String>, login_attempt_id: &LoginAttemptId) -> (res:
    Result<(u16, LoginResponse), AuthAPIError>)
    ensures
        match sent {
            Ok(()) => {
                &&& res matches Ok((status, LoginResponse::TwoFactorAuth(body)))
                &&& status == PARTIAL_CONTENT
                &&& body.message@ == "2FA required"@
                &&& body.login_attempt_id@ == login_attempt_id@
            },
            Err(cause) => res matches Err(AuthAPIError::UnexpectedError(text)) && text@ == cause@,
        },
{
    match sent {
        Ok(()) => Ok(
            (
                PARTIAL_CONTENT,
                LoginResponse::TwoFactorAuth(
                    TwoFactorAuthResponse {
                        message: "2FA required".to_owned(),
                        login_attempt_id: login_attempt_id.as_ref().to_owned(),
                    },
                ),
            ),
        ),
        Err(cause) => Err(AuthAPIError::UnexpectedError(cause)),
    }
}

/// What opening a challenge for `email` may do. No cookie is set.
///
/// The answer is as [`second_factor_follows`] says of what the store and
/// the notifier answered. On 206 a dependable store has the challenge kept
/// under the address, a dependable notifier has the code sent to it, and
/// where both are the code sent is the code kept. A dependable store does
/// not fail to keep the challenge, and a dependable notifier does not fail
/// to take the code; where the notifier fails after the challenge was kept,
/// the challenge stays.
pub open spec fn second_factor_admits<T: TwoFACodeStore, E: EmailClient>(
    codes_before: T,
    codes_after: T,
    client_before: E,
    client_after: E,
    email: Seq<char>,
    answer: (Option<AuthCookie>, Result<(u16, LoginResponse), AuthAPIError>),
) -> bool {
    &&& codes_after.dependable() == codes_before.dependable()
    &&& client_after.dependable() == client_before.dependable()
    &&& answer.0 is None
    &&& exists|stored: Result<(), TwoFACodeStoreError>, sent: Option<Result<(), String>>, id: Seq<char>|
        {
            &&& #[trigger] second_factor_follows(
                stored,
                sent,
                id,
                client_before,
                client_after,
                answer,
            )
            &&& is_login_attempt_id(id)
            &&& codes_before.dependable() ==> stored is Ok
            &&& client_before.dependable() ==> !(sent matches Some(Err(_)))
        }
    &&& match answer.1 {
        Ok((status, LoginResponse::TwoFactorAuth(body))) => {
            &&& status == PARTIAL_CONTENT
            &&& body.message@ == "2FA required"@
            &&& is_login_attempt_id(body.login_attempt_id@)
            &&& codes_before.dependable() ==> kept(
                codes_before.codes(),
                codes_after.codes(),
                email,
            ) && codes_after.codes()[email].0 == body.login_attempt_id@
            &&& client_before.dependable() ==> sent(
                client_before.outbox(),
                client_after.outbox(),
                email,
            )
            &&& codes_before.dependable() && client_before.dependable()
                ==> client_after.outbox().last().content == codes_after.codes()[email].1
        },
        Err(AuthAPIError::UnexpectedError(_)) => {
            ||| !codes_before.dependable() && client_after == client_before
            ||| {
                &&& !client_before.dependable()
                &&& codes_before.dependable() ==> kept(
                    codes_before.codes(),
                    codes_after.codes(),
                    email,
                )
            }
        },
        _ => false,
    }
}

/// What beginning a session for `email` at `now` may do: the answer is 200
/// with the session cookie, whenever a token can be issued at `now`, and
/// `UnexpectedError` without a cookie else.
pub open spec fn first_factor_admits(
    email: Seq<char>,
    secret: Seq<char>,
    now: u64,
    answer: (Option<AuthCookie>, Result<(u16, LoginResponse), AuthAPIError>),
) -> bool {
    if can_issue(now) {
        &&& answer.1 matches Ok((status, LoginResponse::RegularAuth))
        &&& status == OK
        &&& answer.0 matches Some(cookie)
        &&& is_session_cookie(cookie, email, secret, now)
    } else {
        &&& answer.1 matches Err(AuthAPIError::UnexpectedError(_))
        &&& answer.0 is None
    }
}

/// What holding credentials against the user store comes to, given what
/// the store answered: credentials that it did not confirm, and a user that
/// it could not hand out, are `IncorrectCredentials` whatever the reason;
/// else the user's setting says whether a second factor is asked for.
pub open spec fn credentials_follow(
    validated: Result<(), UserStoreError>,
    fetched: Option<Result<User, UserStoreError>>,
    res: Result<bool, AuthAPIError>,
) -> bool {
    match validated {
        Err(_) => fetched is None && res matches Err(AuthAPIError::IncorrectCredentials),
        Ok(()) => match fetched {
            Some(Ok(user)) => res == Ok::<bool, AuthAPIError>(user.requires_2fa),
            Some(Err(_)) => res matches Err(AuthAPIError::IncorrectCredentials),
            None => false,
        },
    }
}

/// Decides on credentials, given what the store answered when it was asked
/// to validate them: the user is to be fetched only where it confirmed
/// them.
pub fn after_validate_user(validated: Result<(), UserStoreError>) -> (res: Result<
    (),
    AuthAPIError,
>)
    ensures
        match validated {
            Ok(()) => res is Ok,
            Err(_) => res matches Err(AuthAPIError::IncorrectCredentials),
        },
{
    match validated {
        Ok(()) => Ok(()),
        Err(_) => Err(AuthAPIError::IncorrectCredentials),
    }
}

/// Decides on confirmed credentials, given what the store answered when it
/// was asked for the user: whether a second factor is asked for.
pub fn after_get_user(fetched: Result<User, UserStoreError>) -> (res: Result<bool, AuthAPIError>)
    ensures
        match fetched {
            Ok(user) => res == Ok::<bool, AuthAPIError>(user.requires_2fa),
            Err(_) => res matches Err(AuthAPIError::IncorrectCredentials),
        },
{
    match fetched {
        Ok(user) => Ok(user.requires_2fa),
        Err(_) => Err(AuthAPIError::IncorrectCredentials),
    }
}

/// What logging in may do: the answer to `request` at `now`, with the
/// challenge store and the notifier going from `before` to `after`.
///
/// A request whose address or password is not well formed is answered with
/// `InvalidCredentials`. Else the user store is asked, and what it answers
/// decides as [`credentials_follow`] says: credentials that it does not
/// confirm are answered with `IncorrectCredentials`, whatever the reason,
/// and a dependable store confirms exactly those that hold. Neither answer
/// touches the challenge store or the notifier. Else the user's setting,
/// which a dependable store tells truly, decides between
/// [`first_factor_admits`], which touches neither as well, and
/// [`second_factor_admits`].
pub open spec fn login_admits<U: UserStore, T: TwoFACodeStore, E: EmailClient>(
    users: U,
    codes_before: T,
    codes_after: T,
    client_before: E,
    client_after: E,
    secret: Seq<char>,
    now: u64,
    request: LoginRequest,
    answer: (Option<AuthCookie>, Result<(u16, LoginResponse), AuthAPIError>),
) -> bool {
    let email = request.email@;
    let password = request.password@;
    let untouched = codes_after == codes_before && client_after == client_before;
    &&& codes_after.dependable() == codes_before.dependable()
    &&& client_after.dependable() == client_before.dependable()
    &&& if !is_email(email) || !is_password(password) {
        &&& answer.0 is None
        &&& answer.1 matches Err(AuthAPIError::InvalidCredentials)
        &&& untouched
    } else {
        exists|
            validated: Result<(), UserStoreError>,
            fetched: Option<Result<User, UserStoreError>>,
            asked: Result<bool, AuthAPIError>,
        |
            {
                &&& #[trigger] credentials_follow(validated, fetched, asked)
                &&& users.dependable() ==> (asked is Ok <==> credentials_hold(
                    users,
                    email,
                    password,
                ))
                &&& match asked {
                    Err(_) => {
                        &&& answer.0 is None
                        &&& answer.1 matches Err(AuthAPIError::IncorrectCredentials)
                        &&& untouched
                    },
                    Ok(second_factor) => {
                        &&& users.dependable() ==> second_factor
                            == users.users()[email].requires_2fa
                        &&& if second_factor {
                            second_factor_admits(
                                codes_before,
                                codes_after,
                                client_before,
                                client_after,
                                email,
                                answer,
                            )
                        } else {
                            untouched && first_factor_admits(email, secret, now, answer)
                        }
                    },
                }
            }
    }
}

/// Logs a user in: checks the request, holds the credentials against the
/// user store, and then either begins a session or opens a challenge.
pub fn login<U: UserStore, T: TwoFACodeStore, E: EmailClient>(
    user_store: &U,
    two_fa_code_store: &mut T,
    email_client: &mut E,
    secret: &str,
    now: u64,
    request: LoginRequest,
) -> (answer: (Option<AuthCookie>, Result<(u16, LoginResponse), AuthAPIError>))
    ensures
        login_admits(
            *user_store,
            *old(two_fa_code_store),
            *final(two_fa_code_store),
            *old(email_client),
            *final(email_client),
            secret@,
            now,
            request,
            answer,
        ),
{
    let email = match Email::parse(request.email) {
        Ok(email) => email,
        Err(_) => { return (None, Err(AuthAPIError::InvalidCredentials)); },
    };
    let password = match Password::parse(request.password) {
        Ok(password) => password,
        Err(_) => { return (None, Err(AuthAPIError::InvalidCredentials)); },
    };
    let validated = user_store.validate_user(&email, &password);
    if let Err(e) = after_validate_user(validated) {
        let answer = (None, Err(e));
        assert(credentials_follow(
            validated,
            None,
            Err::<bool, AuthAPIError>(AuthAPIError::IncorrectCredentials),
        ));
        return answer;
    }
    let fetched = user_store.get_user(&email);
    let ghost seen = Some(fetched);
    let second_factor = match after_get_user(fetched) {
        Ok(second_factor) => second_factor,
        Err(e) => {
            let answer = (None, Err(e));
            assert(credentials_follow(
                validated,
                seen,
                Err::<bool, AuthAPIError>(AuthAPIError::IncorrectCredentials),
            ));
            return answer;
        },
    };
    let answer = if second_factor {
        handle_2fa(&email, two_fa_code_store, email_client)
    } else {
        handle_no_2fa(&email, secret, now)
    };
    assert(credentials_follow(validated, seen, Ok::<bool, AuthAPIError>(second_factor)));
    answer
}

/// Opens a challenge for `email`: draws an identifier and a code, keeps them
/// in place of any earlier challenge, and sends the code. A challenge that
/// was kept stays kept when sending fails.
fn handle_2fa<T: TwoFACodeStore, E: EmailClient>(
    email: &Email,
    two_fa_code_store: &mut T,
    email_client: &mut E,
) -> (answer: (Option<AuthCookie>, Result<(u16, LoginResponse), AuthAPIError>))
    ensures
        second_factor_admits(
            *old(two_fa_code_store),
            *final(two_fa_code_store),
            *old(email_client),
            *final(email_client),
            email@,
            answer,
        ),
{
    let login_attempt_id = LoginAttemptId::default();
    let two_fa_code = TwoFACode::default();
    let stored = two_fa_code_store.add_code(
        email.clone(),
        login_attempt_id.clone(),
        two_fa_code.clone(),
    );
    if let Err(e) = after_add_code(stored) {
        let answer = (None, Err(e));
        assert(second_factor_follows(
            stored,
            None,
            login_attempt_id@,
            *old(email_client),
            *email_client,
            answer,
        ));
        return answer;
    }
    let sent = email_client.send_email(email, "2FA code", two_fa_code.as_ref());
    let ghost seen = Some(sent);
    let answer = (None, after_send_email(sent, &login_attempt_id));
    assert(second_factor_follows(
        stored,
        seen,
        login_attempt_id@,
        *old(email_client),
        *email_client,
        answer,
    ));
    answer
}

/// Decides on a session, given what issuing its cookie gave: 200 with the
/// cookie, or `UnexpectedError` without one.
pub fn after_generate_auth_cookie(issued: Result<AuthCookie, SessionError>) -> (answer: (
    Option<AuthCookie>,
    Result<(u16, LoginResponse), AuthAPIError>,
))
    ensures
        match issued {
            Ok(cookie) => answer.0 == Some(cookie) && (answer.1 matches Ok(
                (status, LoginResponse::RegularAuth),
            ) && status == OK),
            Err(_) => answer.0 is None && answer.1 matches Err(AuthAPIError::UnexpectedError(_)),
        },
{
    match issued {
        Ok(cookie) => (Some(cookie), Ok((OK, LoginResponse::RegularAuth))),
        Err(_) => (
            None,
            Err(AuthAPIError::UnexpectedError("failed to issue the session token".to_owned())),
        ),
    }
}

/// Begins a session for `email` at `now`.
fn handle_no_2fa(email: &Email, secret: &str, now: u64) -> (answer: (
    Option<AuthCookie>,
    Result<(u16, LoginResponse), AuthAPIError>,
))
    ensures
        first_factor_admits(email@, secret@, now, answer),
{
    after_generate_auth_cookie(generate_auth_cookie(email, secret, now))
}

/// A user who signed up without a second factor and logs in with the same
/// address and password is answered with 200 and the session cookie,
/// whenever a token can be issued at that time. The cookie's token is not
/// empty, and until it expires it is valid by itself and names the user. A
/// password that the store does not take for the one it keeps is answered
/// with `IncorrectCredentials`, which is 401, and no cookie. The user store
/// is taken to be dependable.
pub proof fn lemma_login_after_signup<U: UserStore, T: TwoFACodeStore, E: EmailClient>(
    start: U,
    signup_request: SignupRequest,
    users: U,
    signup_res: Result<(u16, SignupResponse), AuthAPIError>,
    codes_before: T,
    codes_after: T,
    client_before: E,
    client_after: E,
    secret: Seq<char>,
    now: u64,
    request: LoginRequest,
    answer: (Option<AuthCookie>, Result<(u16, LoginResponse), AuthAPIError>),
    later: u64,
)
    requires
        users.dependable(),
        signup_admits(start, signup_request, users, signup_res),
        signup_res is Ok,
        !signup_request.requires_2fa,
        request.email@ == signup_request.email@,
        is_password(request.password@),
        login_admits(
            users,
            codes_before,
            codes_after,
            client_before,
            client_after,
            secret,
            now,
            request,
            answer,
        ),
        later <= now + TOKEN_TTL_SECONDS,
    ensures
        request.password@ == signup_request.password@ && can_issue(now) ==> {
            &&& answer.1 matches Ok((status, LoginResponse::RegularAuth)) && status == 200
            &&& answer.0 matches Some(cookie) && cookie.value@.len() > 0 && local_verdict(
                cookie.value@,
                secret,
                later,
            ) == Ok::<Seq<char>, SessionError>(request.email@)
            &&& codes_after == codes_before
            &&& client_after == client_before
        },
        !U::accepts(users.users()[request.email@].password, request.password@) ==> answer.0
            is None && (answer.1 matches Err(e) && e == AuthAPIError::IncorrectCredentials
            && e.status() == 401),
{
    if request.password@ == signup_request.password@ && can_issue(now) {
        let cookie = answer.0->Some_0;
        lemma_issued_token_is_valid(cookie.value@, secret, request.email@, now, later);
    }
}

/// A user who signed up with a second factor and logs in with the same
/// address and password is never answered with a cookie: the answer is 206,
/// or `UnexpectedError` where the challenge store or the notifier failed,
/// which dependable ones do not. On 206 a dependable challenge store holds a
/// challenge under the address. The user store is taken to be dependable.
pub proof fn lemma_second_factor_is_asked_for<U: UserStore, T: TwoFACodeStore, E: EmailClient>(
    start: U,
    signup_request: SignupRequest,
    users: U,
    signup_res: Result<(u16, SignupResponse), AuthAPIError>,
    codes_before: T,
    codes_after: T,
    client_before: E,
    client_after: E,
    secret: Seq<char>,
    now: u64,
    request: LoginRequest,
    answer: (Option<AuthCookie>, Result<(u16, LoginResponse), AuthAPIError>),
)
    requires
        users.dependable(),
        signup_admits(start, signup_request, users, signup_res),
        signup_res is Ok,
        signup_request.requires_2fa,
        request.email@ == signup_request.email@,
        request.password@ == signup_request.password@,
        login_admits(
            users,
            codes_before,
            codes_after,
            client_before,
            client_after,
            secret,
            now,
            request,
            answer,
        ),
    ensures
        answer.0 is None,
        (answer.1 matches Ok((status, LoginResponse::TwoFactorAuth(_))) && status == 206)
            || answer.1 matches Err(AuthAPIError::UnexpectedError(_)),
        codes_before.dependable() && client_before.dependable() ==> answer.1 is Ok,
        answer.1 is Ok && codes_before.dependable() ==> codes_after.codes().contains_key(
            request.email@,
        ),
{
}

/// The store in memory takes no password but the one the user signed up
/// with: logging in with another is answered with `IncorrectCredentials`,
/// which is 401, and no cookie.
pub proof fn lemma_wrong_password_is_refused<T: TwoFACodeStore, E: EmailClient>(
    start: HashmapUserStore,
    signup_request: SignupRequest,
    users: HashmapUserStore,
    signup_res: Result<(u16, SignupResponse), AuthAPIError>,
    codes_before: T,
    codes_after: T,
    client_before: E,
    client_after: E,
    secret: Seq<char>,
    now: u64,
    request: LoginRequest,
    answer: (Option<AuthCookie>, Result<(u16, LoginResponse), AuthAPIError>),
)
    requires
        signup_admits(start, signup_request, users, signup_res),
        signup_res is Ok,
        request.email@ == signup_request.email@,
        is_password(request.password@),
        request.password@ != signup_request.password@,
        login_admits(
            users,
            codes_before,
            codes_after,
            client_before,
            client_after,
            secret,
            now,
            request,
            answer,
        ),
    ensures
        answer.0 is None,
        answer.1 matches Err(e) && e == AuthAPIError::IncorrectCredentials && e.status() == 401,
{
}

} // verus!
