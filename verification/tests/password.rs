use auth_service::domain::Password;

#[test]
pub fn valid_password() {
    let valid_password = "long enough".to_owned();
    let parsed = Password::parse(valid_password.clone());
    assert!(parsed.is_ok());
    assert_eq!(parsed.ok().unwrap().as_ref(), valid_password);
}

#[test]
pub fn invalid_password() {
    let invalid_password = "2short".to_owned();
    assert_eq!(
        Password::parse(invalid_password.clone()).err(),
        Some("2short is not a valid password".to_owned())
    );
}

#[test]
fn password_of_eight_bytes_is_the_shortest() {
    assert!(Password::parse("1234567".to_owned()).is_err());
    assert!(Password::parse("12345678".to_owned()).is_ok());
    assert!(Password::parse("".to_owned()).is_err());
}

#[test]
fn password_length_counts_bytes() {
    // four characters of two bytes each
    assert!(Password::parse("éééé".to_owned()).is_ok());
    assert!(Password::parse("ééé".to_owned()).is_err());
}

#[test]
fn passwords_compare_by_their_text() {
    let one = Password::parse("password123".to_owned()).unwrap();
    let same = Password::parse("password123".to_owned()).unwrap();
    let other = Password::parse("Password123".to_owned()).unwrap();
    assert!(one == same);
    assert!(one != other);
    assert!(one.clone() == one);
}
