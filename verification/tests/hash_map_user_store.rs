use auth_service::domain::{Email, Password, User, UserStore, UserStoreError};
use auth_service::services::HashmapUserStore;

fn user(email: &str, password: &str, requires_2fa: bool) -> User {
    User {
        email: Email::parse(String::from(email)).unwrap(),
        password: Password::parse(String::from(password)).unwrap(),
        requires_2fa,
    }
}

#[test]
fn test_add_user() {
    let mut user_store = HashmapUserStore::new();
    let user = user("a@test.com", "some-password-1", false);
    let initial_insert_result = user_store.add_user(user.clone());
    assert_eq!(initial_insert_result, Ok(()));
    let subsequent_insert_result = user_store.add_user(user);
    assert_eq!(subsequent_insert_result, Err(UserStoreError::UserAlreadyExists))
}

#[test]
fn test_get_user() {
    let user = user("a@test.com", "some-password-1", false);
    let mut user_store = HashmapUserStore::new();
    assert_eq!(user_store.add_user(user.clone()), Ok(()));
    let no_matching_user_result =
        user_store.get_user(&Email::parse("b@test.com".to_owned()).unwrap());
    assert!(no_matching_user_result == Err(UserStoreError::UserNotFound));
    let user_exists_result = user_store.get_user(&user.email);
    assert!(user_exists_result == Ok(user))
}

#[test]
fn test_validate_user() {
    let user = user("a@test.com", "some-password-1", false);
    let mut user_store = HashmapUserStore::default();
    assert_eq!(user_store.add_user(user.clone()), Ok(()));
    let result_invalid = user_store
        .validate_user(&user.email, &Password::parse("wrong-password".to_owned()).unwrap());
    assert_eq!(result_invalid, Err(UserStoreError::InvalidCredentials));
    let result_user_does_not_exist = user_store.validate_user(
        &Email::parse("c@test.com".to_owned()).unwrap(),
        &Password::parse("some-password-1".to_owned()).unwrap(),
    );
    assert_eq!(result_user_does_not_exist, Err(UserStoreError::UserNotFound));
    let result_valid = user_store.validate_user(&user.email, &user.password);
    assert_eq!(result_valid, Ok(()))
}

#[test]
fn second_user_with_the_same_address_changes_nothing() {
    let mut user_store = HashmapUserStore::new();
    let first = user("a@test.com", "some-password-1", false);
    let second = user("a@test.com", "another-password", true);
    assert_eq!(user_store.add_user(first.clone()), Ok(()));
    assert_eq!(user_store.add_user(second), Err(UserStoreError::UserAlreadyExists));
    let kept = user_store.get_user(&first.email).ok().unwrap();
    assert!(kept == first);
    assert!(!kept.requires_2fa);
}

#[test]
fn users_with_addresses_that_differ_in_case_are_two() {
    let mut user_store = HashmapUserStore::new();
    assert_eq!(user_store.add_user(user("a@test.com", "some-password-1", false)), Ok(()));
    assert_eq!(user_store.add_user(user("A@test.com", "some-password-2", true)), Ok(()));
    let upper = user_store.get_user(&Email::parse("A@test.com".to_owned()).unwrap()).ok().unwrap();
    assert!(upper.requires_2fa);
}

#[test]
fn user_store_errors_compare_by_kind_and_have_a_text() {
    assert_eq!(
        UserStoreError::UnexpectedError("one".to_owned()),
        UserStoreError::UnexpectedError("two".to_owned())
    );
    assert_ne!(UserStoreError::UserNotFound, UserStoreError::InvalidCredentials);
    assert_ne!(UserStoreError::UserAlreadyExists, UserStoreError::UnexpectedError(String::new()));
    assert_eq!(UserStoreError::UserAlreadyExists.to_string(), "User already exists");
    assert_eq!(UserStoreError::UserNotFound.to_string(), "User not found");
    assert_eq!(UserStoreError::InvalidCredentials.to_string(), "Invalid credentials");
    assert_eq!(UserStoreError::UnexpectedError("why".to_owned()).to_string(), "Unexpected error");
}

#[test]
fn user_new_keeps_its_parts() {
    let built = User::new(
        Email::parse("a@test.com".to_owned()).unwrap(),
        Password::parse("some-password-1".to_owned()).unwrap(),
        true,
    );
    assert_eq!(built.email.as_ref(), "a@test.com");
    assert_eq!(built.password.as_ref(), "some-password-1");
    assert!(built.requires_2fa);
    assert!(built == user("a@test.com", "some-password-1", true));
    assert!(built != user("a@test.com", "some-password-1", false));
}
