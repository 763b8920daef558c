use auth_service::domain::BannedTokenStore;
use auth_service::services::HashSetBannedTokenStore;

#[test]
fn test_add_token() {
    let mut store = HashSetBannedTokenStore::default();
    let result = store.add_token("foo".to_owned());
    assert!(result.is_ok());
    assert!(store.contains_token("foo").unwrap());
}

#[test]
fn test_contains_token() {
    let mut store = HashSetBannedTokenStore::default();
    store.add_token("bar".to_owned()).unwrap();
    assert!(store.contains_token("bar").unwrap())
}

#[test]
fn token_that_was_not_added_is_not_contained() {
    let mut store = HashSetBannedTokenStore::default();
    assert_eq!(store.contains_token("foo"), Ok(false));
    store.add_token("foo".to_owned()).unwrap();
    assert_eq!(store.contains_token("bar"), Ok(false));
    assert_eq!(store.contains_token("fo"), Ok(false));
}

#[test]
fn adding_a_token_twice_is_no_error() {
    let mut store = HashSetBannedTokenStore::default();
    assert_eq!(store.add_token("foo".to_owned()), Ok(()));
    assert_eq!(store.add_token("foo".to_owned()), Ok(()));
    assert_eq!(store.contains_token("foo"), Ok(true));
}
