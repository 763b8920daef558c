use auth_service::domain::{Email, LoginAttemptId, TwoFACode, TwoFACodeStore, TwoFACodeStoreError};
use auth_service::services::HashmapTwoFACodeStore;

fn challenge() -> (Email, LoginAttemptId, TwoFACode) {
    let email = Email::parse(String::from("a@b.com")).unwrap();
    let login_attempt_id =
        LoginAttemptId::parse(String::from("02ce228e-f1f4-40a5-bb1d-e1ab52391008")).unwrap();
    let code = TwoFACode::parse(String::from("345678")).unwrap();
    (email, login_attempt_id, code)
}

#[test]
fn test_add_code_succeeds() {
    let mut store = HashmapTwoFACodeStore::new();
    let (email, login_attempt_id, code) = challenge();
    store.add_code(email.clone(), login_attempt_id.clone(), code.clone()).unwrap();
    let retrieved_code = store.get_code(&email);
    assert_eq!(retrieved_code, Ok((login_attempt_id, code)))
}

#[test]
fn test_remove_code_succeeds() {
    let mut store = HashmapTwoFACodeStore::new();
    let (email, login_attempt_id, code) = challenge();
    store.add_code(email.clone(), login_attempt_id.clone(), code.clone()).unwrap();
    let retrieved_code = store.get_code(&email);
    assert_eq!(retrieved_code, Ok((login_attempt_id, code)));
    let result = store.remove_code(&email);
    assert_eq!(result, Ok(()));
}

#[test]
fn test_remove_code_fails() {
    let mut store = HashmapTwoFACodeStore::new();
    let (email, login_attempt_id, code) = challenge();
    store.add_code(email.clone(), login_attempt_id.clone(), code.clone()).unwrap();
    let retrieved_code = store.get_code(&email);
    assert_eq!(retrieved_code, Ok((login_attempt_id, code)));
    let result = store.remove_code(&email);
    assert_eq!(result, Ok(()));
    let result = store.remove_code(&email);
    assert_eq!(result, Err(TwoFACodeStoreError::LoginAttemptIdNotFound));
}

#[test]
fn test_get_code_succeeds() {
    let mut store = HashmapTwoFACodeStore::new();
    let (email, login_attempt_id, code) = challenge();
    store.add_code(email.clone(), login_attempt_id.clone(), code.clone()).unwrap();
    let retrieved_code = store.get_code(&email);
    assert_eq!(retrieved_code, Ok((login_attempt_id, code)));
}

#[test]
fn test_get_code_fails() {
    let mut store = HashmapTwoFACodeStore::new();
    let (email, login_attempt_id, code) = challenge();
    store.add_code(email.clone(), login_attempt_id.clone(), code.clone()).unwrap();
    let non_matching_email = Email::parse(String::from("foo@bar.com")).unwrap();
    let retrieved_code = store.get_code(&non_matching_email);
    assert_eq!(retrieved_code, Err(TwoFACodeStoreError::LoginAttemptIdNotFound));
}

#[test]
fn later_code_takes_the_place_of_the_earlier_one() {
    let mut store = HashmapTwoFACodeStore::default();
    let (email, login_attempt_id, code) = challenge();
    store.add_code(email.clone(), login_attempt_id, code).unwrap();
    let later_id =
        LoginAttemptId::parse(String::from("1dd67e3b-94e5-46e5-aa10-31f9c7f037e5")).unwrap();
    let later_code = TwoFACode::parse(String::from("123456")).unwrap();
    store.add_code(email.clone(), later_id.clone(), later_code.clone()).unwrap();
    assert_eq!(store.get_code(&email), Ok((later_id, later_code)));
    assert_eq!(store.remove_code(&email), Ok(()));
    assert_eq!(store.get_code(&email), Err(TwoFACodeStoreError::LoginAttemptIdNotFound));
}

#[test]
fn removed_code_is_gone() {
    let mut store = HashmapTwoFACodeStore::new();
    let (email, login_attempt_id, code) = challenge();
    assert_eq!(store.remove_code(&email), Err(TwoFACodeStoreError::LoginAttemptIdNotFound));
    store.add_code(email.clone(), login_attempt_id, code).unwrap();
    assert_eq!(store.remove_code(&email), Ok(()));
    assert_eq!(store.get_code(&email), Err(TwoFACodeStoreError::LoginAttemptIdNotFound));
}

#[test]
fn store_made_with_codes_holds_the_last_for_each_address() {
    let (email, login_attempt_id, code) = challenge();
    let other = Email::parse(String::from("foo@bar.com")).unwrap();
    let later_id =
        LoginAttemptId::parse(String::from("1dd67e3b-94e5-46e5-aa10-31f9c7f037e5")).unwrap();
    let later_code = TwoFACode::parse(String::from("123456")).unwrap();
    let store = HashmapTwoFACodeStore::new_with_codes(vec![
        (email.clone(), login_attempt_id.clone(), code.clone()),
        (other.clone(), login_attempt_id.clone(), code.clone()),
        (email.clone(), later_id.clone(), later_code.clone()),
    ]);
    assert_eq!(store.get_code(&email), Ok((later_id, later_code)));
    assert_eq!(store.get_code(&other), Ok((login_attempt_id, code)));
    let empty = HashmapTwoFACodeStore::new_with_codes(Vec::new());
    assert_eq!(empty.get_code(&email), Err(TwoFACodeStoreError::LoginAttemptIdNotFound));
}
