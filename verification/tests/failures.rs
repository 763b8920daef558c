use auth_service::domain::{
    AuthAPIError, BannedTokenStore, BannedTokenStoreError, Email, EmailClient, LoginAttemptId,
    Password, TwoFACode, TwoFACodeStore, TwoFACodeStoreError, User, UserStore, UserStoreError,
};
use auth_service::routes::{
    login, logout, signup, verify_2fa, verify_token, LoginRequest, SignupRequest,
    Verify2FARequest, VerifyTokenRequest,
};
use auth_service::services::{HashmapTwoFACodeStore, HashmapUserStore, MockEmailClient};
use auth_service::utils::auth::{generate_auth_token, validate_token, SessionError};

const SECRET: &str = "server-held-secret";
const NOW: u64 = 1_700_000_000;

/// A user store that cannot be reached.
struct DownUserStore;

impl UserStore for DownUserStore {
    fn add_user(&mut self, _user: User) -> Result<(), UserStoreError> {
        Err(UserStoreError::UnexpectedError("down".to_owned()))
    }

    fn get_user(&self, _email: &Email) -> Result<User, UserStoreError> {
        Err(UserStoreError::UnexpectedError("down".to_owned()))
    }

    fn validate_user(&self, _email: &Email, _password: &Password) -> Result<(), UserStoreError> {
        Err(UserStoreError::UnexpectedError("down".to_owned()))
    }
}

/// A store of banned tokens that cannot be reached.
struct DownBannedTokenStore;

impl BannedTokenStore for DownBannedTokenStore {
    fn add_token(&mut self, _token: String) -> Result<(), BannedTokenStoreError> {
        Err(BannedTokenStoreError::UnexpectedError)
    }

    fn contains_token(&self, _token: &str) -> Result<bool, BannedTokenStoreError> {
        Err(BannedTokenStoreError::UnexpectedError)
    }
}

/// A store of banned tokens that can be read and not written.
struct ReadOnlyBannedTokenStore;

impl BannedTokenStore for ReadOnlyBannedTokenStore {
    fn add_token(&mut self, _token: String) -> Result<(), BannedTokenStoreError> {
        Err(BannedTokenStoreError::UnexpectedError)
    }

    fn contains_token(&self, _token: &str) -> Result<bool, BannedTokenStoreError> {
        Ok(false)
    }
}

/// A store of challenges that cannot be reached.
struct DownTwoFACodeStore;

impl TwoFACodeStore for DownTwoFACodeStore {
    fn add_code(
        &mut self,
        _email: Email,
        _login_attempt_id: LoginAttemptId,
        _code: TwoFACode,
    ) -> Result<(), TwoFACodeStoreError> {
        Err(TwoFACodeStoreError::UnexpectedError)
    }

    fn remove_code(&mut self, _email: &Email) -> Result<(), TwoFACodeStoreError> {
        Err(TwoFACodeStoreError::UnexpectedError)
    }

    fn get_code(&self, _email: &Email) -> Result<(LoginAttemptId, TwoFACode), TwoFACodeStoreError> {
        Err(TwoFACodeStoreError::UnexpectedError)
    }
}

/// A notifier that delivers nothing.
struct DownEmailClient {
    calls: usize,
}

impl EmailClient for DownEmailClient {
    fn send_email(&mut self, _recipient: &Email, _subject: &str, _content: &str) -> Result<(), String> {
        self.calls += 1;
        Err("down".to_owned())
    }
}

fn users_with(email: &str, requires_2fa: bool) -> HashmapUserStore {
    let mut user_store = HashmapUserStore::new();
    let request =
        SignupRequest { email: email.to_owned(), password: "password123".to_owned(), requires_2fa };
    signup(&mut user_store, request).unwrap();
    user_store
}

fn login_request(email: &str) -> LoginRequest {
    LoginRequest { email: email.to_owned(), password: "password123".to_owned() }
}

#[test]
fn signup_with_a_failing_store_is_an_unexpected_error() {
    let mut user_store = DownUserStore;
    let request = SignupRequest {
        email: "some@mydomain.com".to_owned(),
        password: "password123".to_owned(),
        requires_2fa: false,
    };
    let error = signup(&mut user_store, request).err().unwrap();
    assert_eq!(error, AuthAPIError::UnexpectedError(String::new()));
    assert_eq!(error.status_code(), 500);
    // the input is checked first all the same
    let request = SignupRequest {
        email: "some_mydomain.com".to_owned(),
        password: "password123".to_owned(),
        requires_2fa: false,
    };
    assert_eq!(signup(&mut user_store, request).err(), Some(AuthAPIError::InvalidCredentials));
}

#[test]
fn login_with_a_failing_user_store_is_incorrect_credentials() {
    let mut codes = HashmapTwoFACodeStore::new();
    let mut client = MockEmailClient::new();
    let (cookie, response) =
        login(&DownUserStore, &mut codes, &mut client, SECRET, NOW, login_request("a@b.com"));
    assert!(cookie.is_none());
    assert_eq!(response.err(), Some(AuthAPIError::IncorrectCredentials));
    assert!(client.sent().is_empty());
}

#[test]
fn login_with_a_failing_challenge_store_is_an_unexpected_error() {
    let users = users_with("a@b.com", true);
    let mut client = MockEmailClient::new();
    let (cookie, response) =
        login(&users, &mut DownTwoFACodeStore, &mut client, SECRET, NOW, login_request("a@b.com"));
    assert!(cookie.is_none());
    assert_eq!(response.err(), Some(AuthAPIError::UnexpectedError(String::new())));
    // nothing is sent for a challenge that was not kept
    assert!(client.sent().is_empty());
}

#[test]
fn login_with_a_failing_notifier_keeps_the_challenge() {
    let users = users_with("a@b.com", true);
    let mut codes = HashmapTwoFACodeStore::new();
    let mut client = DownEmailClient { calls: 0 };
    let (cookie, response) =
        login(&users, &mut codes, &mut client, SECRET, NOW, login_request("a@b.com"));
    assert!(cookie.is_none());
    assert_eq!(response.err(), Some(AuthAPIError::UnexpectedError(String::new())));
    assert_eq!(client.calls, 1);
    let email = Email::parse("a@b.com".to_owned()).unwrap();
    assert!(codes.get_code(&email).is_ok());
}

#[test]
fn login_without_second_factor_asks_neither_challenge_store_nor_notifier() {
    let users = users_with("a@b.com", false);
    let mut client = DownEmailClient { calls: 0 };
    let (cookie, response) =
        login(&users, &mut DownTwoFACodeStore, &mut client, SECRET, NOW, login_request("a@b.com"));
    assert!(cookie.is_some());
    assert_eq!(response.unwrap().0, 200);
    assert_eq!(client.calls, 0);
}

#[test]
fn login_whose_token_cannot_be_issued_is_an_unexpected_error() {
    let users = users_with("a@b.com", false);
    let mut codes = HashmapTwoFACodeStore::new();
    let mut client = MockEmailClient::new();
    let (cookie, response) =
        login(&users, &mut codes, &mut client, SECRET, u64::MAX, login_request("a@b.com"));
    assert!(cookie.is_none());
    assert_eq!(response.err(), Some(AuthAPIError::UnexpectedError(String::new())));
}

#[test]
fn verify_2fa_with_a_failing_store_is_incorrect_credentials() {
    let request = Verify2FARequest {
        email: "a@b.com".to_owned(),
        login_attempt_id: "1dd67e3b-94e5-46e5-aa10-31f9c7f037e5".to_owned(),
        two_fa_code: "123456".to_owned(),
    };
    let (cookie, response) = verify_2fa(&mut DownTwoFACodeStore, SECRET, NOW, request);
    assert!(cookie.is_none());
    assert_eq!(response, Err(AuthAPIError::IncorrectCredentials));
}

#[test]
fn verify_2fa_whose_token_cannot_be_issued_uses_the_challenge_up() {
    let email = Email::parse("a@b.com".to_owned()).unwrap();
    let id = LoginAttemptId::parse("1dd67e3b-94e5-46e5-aa10-31f9c7f037e5".to_owned()).unwrap();
    let code = TwoFACode::parse("123456".to_owned()).unwrap();
    let mut codes = HashmapTwoFACodeStore::new_with_codes(vec![(email.clone(), id, code)]);
    let request = Verify2FARequest {
        email: "a@b.com".to_owned(),
        login_attempt_id: "1dd67e3b-94e5-46e5-aa10-31f9c7f037e5".to_owned(),
        two_fa_code: "123456".to_owned(),
    };
    let (cookie, response) = verify_2fa(&mut codes, SECRET, u64::MAX, request);
    assert!(cookie.is_none());
    assert_eq!(response, Err(AuthAPIError::UnexpectedError(String::new())));
    assert_eq!(codes.get_code(&email).err(), Some(TwoFACodeStoreError::LoginAttemptIdNotFound));
}

#[test]
fn token_checks_with_a_failing_store_are_unexpected_errors() {
    let email = Email::parse("a@b.com".to_owned()).unwrap();
    let token = generate_auth_token(&email, SECRET, NOW).unwrap();
    assert!(
        validate_token(&token, SECRET, NOW, &DownBannedTokenStore).err()
            == Some(SessionError::UnexpectedError)
    );
    let request = VerifyTokenRequest { token: token.clone() };
    let error = verify_token(&DownBannedTokenStore, SECRET, NOW, request).err().unwrap();
    assert_eq!(error, AuthAPIError::UnexpectedError(String::new()));
    assert_eq!(error.status_code(), 500);
    assert_eq!(
        logout(&mut DownBannedTokenStore, SECRET, NOW, Some(token.clone())),
        Err(AuthAPIError::UnexpectedError(String::new()))
    );
    assert_eq!(
        logout(&mut ReadOnlyBannedTokenStore, SECRET, NOW, Some(token)),
        Err(AuthAPIError::UnexpectedError(String::new()))
    );
}

#[test]
fn a_token_that_fails_on_its_own_does_not_reach_the_store() {
    assert!(
        validate_token("bar", SECRET, NOW, &DownBannedTokenStore).err()
            == Some(SessionError::BadSignature)
    );
    let request = VerifyTokenRequest { token: "bar".to_owned() };
    assert_eq!(
        verify_token(&DownBannedTokenStore, SECRET, NOW, request),
        Err(AuthAPIError::InvalidToken)
    );
    assert_eq!(
        logout(&mut DownBannedTokenStore, SECRET, NOW, Some("bar".to_owned())),
        Err(AuthAPIError::InvalidToken)
    );
    assert_eq!(logout(&mut DownBannedTokenStore, SECRET, NOW, None), Err(AuthAPIError::MissingToken));
}
