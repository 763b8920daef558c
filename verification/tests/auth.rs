use auth_service::domain::{BannedTokenStore, Email};
use auth_service::services::HashSetBannedTokenStore;
use auth_service::utils::auth::{
    check_claims, create_auth_cookie, generate_auth_cookie, generate_auth_token, validate_token,
    Claims, SameSite, SessionError, JWT_COOKIE_NAME, TOKEN_TTL_SECONDS,
};

const SECRET: &str = "server-held-secret";
const NOW: u64 = 1_700_000_000;

fn email() -> Email {
    Email::parse("a@test.com".to_owned()).unwrap()
}

#[test]
fn issued_token_is_valid_until_it_expires() {
    let store = HashSetBannedTokenStore::default();
    let token = generate_auth_token(&email(), SECRET, NOW).unwrap();
    assert!(!token.is_empty());
    assert_eq!(token.matches('.').count(), 2);
    let holder = validate_token(&token, SECRET, NOW, &store).ok().unwrap();
    assert_eq!(holder.as_ref(), "a@test.com");
    // valid up to and at the time of expiry, not after it
    assert!(validate_token(&token, SECRET, NOW + 599, &store).is_ok());
    assert!(validate_token(&token, SECRET, NOW + 600, &store).is_ok());
    assert!(validate_token(&token, SECRET, NOW + 601, &store).err() == Some(SessionError::Expired));
    assert!(validate_token(&token, SECRET, u64::MAX, &store).err() == Some(SessionError::Expired));
}

#[test]
fn token_ttl_is_ten_minutes_and_cookie_is_named_jwt() {
    assert_eq!(TOKEN_TTL_SECONDS, 600);
    assert_eq!(JWT_COOKIE_NAME, "jwt");
}

#[test]
fn token_is_a_function_of_user_time_and_secret() {
    let one = generate_auth_token(&email(), SECRET, NOW).unwrap();
    let same = generate_auth_token(&email(), SECRET, NOW).unwrap();
    let later = generate_auth_token(&email(), SECRET, NOW + 1).unwrap();
    let other_secret = generate_auth_token(&email(), "another-secret", NOW).unwrap();
    let other_user =
        generate_auth_token(&Email::parse("b@test.com".to_owned()).unwrap(), SECRET, NOW).unwrap();
    assert_eq!(one, same);
    assert_ne!(one, later);
    assert_ne!(one, other_secret);
    assert_ne!(one, other_user);
}

#[test]
fn token_under_another_secret_has_a_bad_signature() {
    let store = HashSetBannedTokenStore::default();
    let token = generate_auth_token(&email(), SECRET, NOW).unwrap();
    assert!(
        validate_token(&token, "another-secret", NOW, &store).err()
            == Some(SessionError::BadSignature)
    );
}

#[test]
fn malformed_token_has_a_bad_signature() {
    let store = HashSetBannedTokenStore::default();
    for token in ["", "bar", "invalid", "a.b.c", "a.b"] {
        assert!(
            validate_token(token, SECRET, NOW, &store).err() == Some(SessionError::BadSignature),
            "{}",
            token
        );
    }
    let token = generate_auth_token(&email(), SECRET, NOW).unwrap();
    let mut tampered = token.clone();
    tampered.pop();
    assert!(validate_token(&tampered, SECRET, NOW, &store).err() == Some(SessionError::BadSignature));
}

#[test]
fn banned_token_is_revoked() {
    let mut store = HashSetBannedTokenStore::default();
    let token = generate_auth_token(&email(), SECRET, NOW).unwrap();
    let other = generate_auth_token(&email(), SECRET, NOW + 1).unwrap();
    store.add_token(token.clone()).unwrap();
    assert!(validate_token(&token, SECRET, NOW, &store).err() == Some(SessionError::Revoked));
    assert!(validate_token(&other, SECRET, NOW + 1, &store).is_ok());
}

#[test]
fn signature_and_time_are_checked_before_the_banned_tokens() {
    let mut store = HashSetBannedTokenStore::default();
    let token = generate_auth_token(&email(), SECRET, NOW).unwrap();
    store.add_token(token.clone()).unwrap();
    store.add_token("bar".to_owned()).unwrap();
    assert!(validate_token("bar", SECRET, NOW, &store).err() == Some(SessionError::BadSignature));
    assert!(validate_token(&token, SECRET, NOW + 601, &store).err() == Some(SessionError::Expired));
    assert!(
        validate_token(&token, "another-secret", NOW + 601, &store).err()
            == Some(SessionError::BadSignature)
    );
}

#[test]
fn token_cannot_be_issued_when_its_expiry_overflows() {
    assert!(generate_auth_token(&email(), SECRET, u64::MAX).err() == Some(SessionError::UnexpectedError));
    assert!(
        generate_auth_token(&email(), SECRET, u64::MAX - 599).err()
            == Some(SessionError::UnexpectedError)
    );
    assert!(generate_auth_token(&email(), SECRET, u64::MAX - 600).is_ok());
    assert!(generate_auth_cookie(&email(), SECRET, u64::MAX).is_err());
}

#[test]
fn claims_are_checked_for_subject_and_time() {
    let claims = |sub: &str, exp: u64| Some(Claims { sub: sub.to_owned(), iat: 0, exp });
    assert!(check_claims(None, NOW).err() == Some(SessionError::BadSignature));
    assert!(check_claims(claims("not-an-email", NOW + 1), NOW).err() == Some(SessionError::BadSignature));
    assert!(check_claims(claims("not-an-email", NOW - 1), NOW).err() == Some(SessionError::BadSignature));
    assert!(check_claims(claims("a@test.com", NOW - 1), NOW).err() == Some(SessionError::Expired));
    assert!(check_claims(claims("a@test.com", NOW), NOW).ok().unwrap().as_ref() == "a@test.com");
    assert!(check_claims(claims("a@test.com", NOW + 1), NOW).is_ok());
    assert!(check_claims(claims("a@test.com", 0), 0).is_ok());
}

#[test]
fn auth_cookie_is_http_only_lax_secure_and_for_the_root_path() {
    let cookie = create_auth_cookie("some-token".to_owned());
    assert_eq!(cookie.name, "jwt");
    assert_eq!(cookie.value, "some-token");
    assert_eq!(cookie.path, "/");
    assert!(cookie.http_only);
    assert!(cookie.secure);
    assert_eq!(cookie.same_site, SameSite::Lax);
    let issued = generate_auth_cookie(&email(), SECRET, NOW).ok().unwrap();
    assert_eq!(issued.name, JWT_COOKIE_NAME);
    assert_eq!(issued.value, generate_auth_token(&email(), SECRET, NOW).unwrap());
    assert_eq!(issued.path, "/");
    assert!(issued.http_only && issued.secure);
    assert_eq!(issued.same_site, SameSite::Lax);
}
