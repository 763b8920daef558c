//! Signing up.

use vstd::prelude::*;
use vstd::string::*;

use crate::domain::data_stores::{UserStore, UserStoreError};
use crate::domain::email::{is_email, Email};
use crate::domain::errors::AuthAPIError;
use crate::domain::password::{is_password, Password};
use crate::domain::user::User;

verus! {

/// The HTTP status of a sign-up that went through.
pub const CREATED: u16 = 201;

/// What a client sends to sign up.
pub struct SignupRequest {
    pub email: String,
    pub password: String,
    pub requires_2fa: bool,
}

/// What a client is told when the user was created.
#[derive(Debug)]
pub struct SignupResponse {
    pub message: String,
}

impl PartialEq for SignupResponse {
    fn eq(&self, other: &Self) -> (equal: bool) {
        self.message == other.message
    }
}

impl vstd::std_specs::cmp::PartialEqSpecImpl for SignupResponse {
    open spec fn obeys_eq_spec() -> bool {
        true
    }

    open spec fn eq_spec(&self, other: &Self) -> bool {
        self.message@ == other.message@
    }
}

/// Whether `after` holds what `before` held and, under `email`, a new user
/// with that address and that setting, whose kept password the store takes
/// `password` for.
pub open spec fn registered<U: UserStore>(
    before: U,
    after: U,
    email: Seq<char>,
    password: Seq<char>,
    requires_2fa: bool,
) -> bool {
    &&& !before.users().contains_key(email)
    &&& after.users().contains_key(email)
    &&& after.users().remove(email) == before.users()
    &&& after.users()[email].email == email
    &&& after.users()[email].requires_2fa == requires_2fa
    &&& U::accepts(after.users()[email].password, password)
}

/// What signing up answers to what the store answered, once the request was
/// found well formed: 201 where the user was added, `UserAlreadyExists`
/// where the store says so, and `UnexpectedError` on any other failure of
/// the store.
pub open spec fn signup_follows(
    added: Result<(), UserStoreError>,
    res: Result<(u16, SignupResponse), AuthAPIError>,
) -> bool {
    match added {
        Ok(()) => res matches Ok((status, body)) && status == CREATED && body.message@
            == "User created successfully!"@,
        Err(UserStoreError::UserAlreadyExists) => res matches Err(AuthAPIError::UserAlreadyExists),
        Err(_) => res matches Err(AuthAPIError::UnexpectedError(_)),
    }
}

/// Decides on a sign-up, given what the store answered when it was asked to
/// add the user.
pub fn after_add_user(added: Result<(), UserStoreError>) -> (res: Result<
    (u16, SignupResponse),
    AuthAPIError,
>)
    ensures
        signup_follows(added, res),
{
    match added {
        Ok(()) => Ok(
            (CREATED, SignupResponse { message: "User created successfully!".to_owned() }),
        ),
        Err(UserStoreError::UserAlreadyExists) => Err(AuthAPIError::UserAlreadyExists),
        Err(UserStoreError::UnexpectedError(cause)) => Err(AuthAPIError::UnexpectedError(cause)),
        Err(_) => Err(AuthAPIError::UnexpectedError("failed to add the user".to_owned())),
    }
}

/// What signing up may do: the answer `res` to `request`, with the user
/// store going from `before` to `after`.
///
/// A request whose address or password is not well formed is answered with
/// `InvalidCredentials` and the store is not touched. Else the answer is as
/// [`signup_follows`] says of an answer of the store. A dependable store has
/// the user added and the answer 201, or holds the address already and the
/// answer is `UserAlreadyExists`; it never brings about `UnexpectedError`.
pub open spec fn signup_admits<U: UserStore>(
    before: U,
    request: SignupRequest,
    after: U,
    res: Result<(u16, SignupResponse), AuthAPIError>,
) -> bool {
    &&& after.dependable() == before.dependable()
    &&& if !is_email(request.email@) || !is_password(request.password@) {
        &&& res matches Err(AuthAPIError::InvalidCredentials)
        &&& after == before
    } else {
        &&& exists|added: Result<(), UserStoreError>| #[trigger] signup_follows(added, res)
        &&& match res {
            Ok((status, body)) => {
                &&& status == CREATED
                &&& body.message@ == "User created successfully!"@
                &&& before.dependable() ==> registered(
                    before,
                    after,
                    request.email@,
                    request.password@,
                    request.requires_2fa,
                )
            },
            Err(AuthAPIError::UserAlreadyExists) => {
                before.dependable() ==> before.users().contains_key(request.email@)
                    && after.users() == before.users()
            },
            Err(AuthAPIError::UnexpectedError(_)) => !before.dependable(),
            Err(_) => false,
        }
    }
}

/// Signs a user up: checks the address and the password, then adds the user
/// to the store.
pub fn signup<U: UserStore>(user_store: &mut U, request: SignupRequest) -> (res: Result<
    (u16, SignupResponse),
    AuthAPIError,
>)
    ensures
        signup_admits(*old(user_store), request, *final(user_store), res),
{
    let requires_2fa = request.requires_2fa;
    let email = match Email::parse(request.email) {
        Ok(email) => email,
        Err(_) => { return Err(AuthAPIError::InvalidCredentials); },
    };
    let password = match Password::parse(request.password) {
        Ok(password) => password,
        Err(_) => { return Err(AuthAPIError::InvalidCredentials); },
    };
    let added = user_store.add_user(User::new(email, password, requires_2fa));
    let res = after_add_user(added);
    assert(signup_follows(added, res));
    res
}

/// Of two sign-ups with one address, the first into a dependable store that
/// does not hold it, the first is answered with 201 and the second with
/// `UserAlreadyExists`, which is 409.
pub proof fn lemma_second_signup_is_refused<U: UserStore>(
    start: U,
    first: SignupRequest,
    between: U,
    first_res: Result<(u16, SignupResponse), AuthAPIError>,
    second: SignupRequest,
    end: U,
    second_res: Result<(u16, SignupResponse), AuthAPIError>,
)
    requires
        start.dependable(),
        is_email(first.email@),
        is_password(first.password@),
        !start.users().contains_key(first.email@),
        second.email@ == first.email@,
        is_password(second.password@),
        signup_admits(start, first, between, first_res),
        signup_admits(between, second, end, second_res),
    ensures
        first_res matches Ok((status, _)) && status == 201,
        second_res matches Err(e) && e == AuthAPIError::UserAlreadyExists && e.status() == 409,
        end.users() == between.users(),
{
}

} // verus!
