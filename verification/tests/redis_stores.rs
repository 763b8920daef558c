use auth_service::domain::{Email, LoginAttemptId, TwoFACode, TwoFACodeStoreError};
use auth_service::services::redis_banned_token_store;
use auth_service::services::redis_two_fa_code_store;

fn challenge() -> (Email, LoginAttemptId, TwoFACode) {
    (
        Email::parse("a@b.com".to_owned()).unwrap(),
        LoginAttemptId::parse("02ce228e-f1f4-40a5-bb1d-e1ab52391008".to_owned()).unwrap(),
        TwoFACode::parse("345678".to_owned()).unwrap(),
    )
}

#[test]
fn banned_token_key_has_its_prefix() {
    assert_eq!(redis_banned_token_store::BANNED_TOKEN_KEY_PREFIX, "banned_token:");
    assert_eq!(redis_banned_token_store::get_key("foo"), "banned_token:foo");
    assert_eq!(redis_banned_token_store::get_key(""), "banned_token:");
    assert_eq!(redis_banned_token_store::get_key("a.b.c"), "banned_token:a.b.c");
}

#[test]
fn banned_token_entry_expires_with_the_token() {
    let entry = redis_banned_token_store::add_token_entry("foo").unwrap();
    assert_eq!(entry.key, "banned_token:foo");
    assert!(entry.value);
    assert_eq!(entry.ttl, 600);
}

#[test]
fn two_fa_code_key_has_its_prefix() {
    let (email, _, _) = challenge();
    assert_eq!(redis_two_fa_code_store::TWO_FA_CODE_PREFIX, "two_fa_code:");
    assert_eq!(redis_two_fa_code_store::get_key(&email), "two_fa_code:a@b.com");
}

#[test]
fn two_fa_code_entry_is_a_json_pair_that_expires_after_ten_minutes() {
    let (email, login_attempt_id, code) = challenge();
    let entry = redis_two_fa_code_store::add_code_entry(&email, &login_attempt_id, &code).unwrap();
    assert_eq!(entry.key, "two_fa_code:a@b.com");
    assert_eq!(entry.value, "[\"02ce228e-f1f4-40a5-bb1d-e1ab52391008\",\"345678\"]");
    assert_eq!(entry.ttl, 600);
    assert_eq!(redis_two_fa_code_store::TEN_MINUTES_IN_SECONDS, 600);
}

#[test]
fn two_fa_code_entry_is_read_back() {
    let (email, login_attempt_id, code) = challenge();
    let entry = redis_two_fa_code_store::add_code_entry(&email, &login_attempt_id, &code).unwrap();
    assert_eq!(
        redis_two_fa_code_store::get_code_from_value(Some(entry.value)),
        Ok((login_attempt_id, code))
    );
}

#[test]
fn two_fa_code_value_is_read_as_json() {
    let (_, login_attempt_id, code) = challenge();
    let spaced = " [ \"02CE228E-F1F4-40A5-BB1D-E1AB52391008\" , \"\\u003345678\" ] ".to_owned();
    assert_eq!(
        redis_two_fa_code_store::get_code_from_value(Some(spaced)),
        Ok((login_attempt_id, code))
    );
}

#[test]
fn missing_two_fa_code_value_is_not_found() {
    assert_eq!(
        redis_two_fa_code_store::get_code_from_value(None),
        Err(TwoFACodeStoreError::LoginAttemptIdNotFound)
    );
}

#[test]
fn malformed_two_fa_code_value_is_an_unexpected_error() {
    for value in [
        "",
        "not json",
        "[]",
        "[\"02ce228e-f1f4-40a5-bb1d-e1ab52391008\"]",
        "[\"02ce228e-f1f4-40a5-bb1d-e1ab52391008\",345678]",
        "[\"02ce228e-f1f4-40a5-bb1d-e1ab52391008\",\"345678\",\"more\"]",
        "{\"0\":\"02ce228e-f1f4-40a5-bb1d-e1ab52391008\",\"1\":\"345678\"}",
        "[\"not-a-uuid\",\"345678\"]",
        "[\"02ce228e-f1f4-40a5-bb1d-e1ab52391008\",\"045678\"]",
        "[\"345678\",\"02ce228e-f1f4-40a5-bb1d-e1ab52391008\"]",
    ] {
        assert_eq!(
            redis_two_fa_code_store::get_code_from_value(Some(value.to_owned())),
            Err(TwoFACodeStoreError::UnexpectedError),
            "{}",
            value
        );
    }
}

#[test]
fn pair_read_from_the_cache_stands_for_a_challenge() {
    let (_, login_attempt_id, code) = challenge();
    let pair = |a: &str, b: &str| Some((a.to_owned(), b.to_owned()));
    assert_eq!(
        redis_two_fa_code_store::challenge_from_pair(pair(
            "02CE228EF1F440A5BB1DE1AB52391008",
            "345678"
        )),
        Ok((login_attempt_id, code))
    );
    assert_eq!(
        redis_two_fa_code_store::challenge_from_pair(pair("x", "345678")),
        Err(TwoFACodeStoreError::UnexpectedError)
    );
    assert_eq!(
        redis_two_fa_code_store::challenge_from_pair(pair(
            "02ce228e-f1f4-40a5-bb1d-e1ab52391008",
            "34567"
        )),
        Err(TwoFACodeStoreError::UnexpectedError)
    );
    assert_eq!(
        redis_two_fa_code_store::challenge_from_pair(None),
        Err(TwoFACodeStoreError::UnexpectedError)
    );
}

#[test]
fn delete_that_took_nothing_away_is_not_found() {
    assert_eq!(
        redis_two_fa_code_store::remove_outcome(0),
        Err(TwoFACodeStoreError::LoginAttemptIdNotFound)
    );
    assert_eq!(redis_two_fa_code_store::remove_outcome(1), Ok(()));
    assert_eq!(redis_two_fa_code_store::remove_outcome(2), Ok(()));
}
