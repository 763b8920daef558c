use auth_service::domain::Email;

#[test]
fn empty_string_is_rejected() {
    let email = "".to_string();
    assert!(Email::parse(email).is_err());
}

#[test]
fn email_missing_at_symbol_is_rejected() {
    let email = "ursuladomain.com".to_string();
    assert!(Email::parse(email).is_err());
}

#[test]
fn email_missing_subject_is_rejected() {
    let email = "@domain.com".to_string();
    assert!(Email::parse(email).is_err());
}

#[test]
fn email_missing_domain_is_rejected() {
    assert!(Email::parse("ursula@".to_string()).is_err());
}

#[test]
fn email_with_two_at_symbols_is_rejected() {
    assert!(Email::parse("something@@somewhere.com".to_string()).is_err());
    assert!(Email::parse("a@b@c.com".to_string()).is_err());
}

#[test]
fn email_with_underscore_in_domain_is_rejected() {
    assert!(Email::parse("spammer@some_domain.com".to_string()).is_err());
}

#[test]
fn valid_emails_are_parsed_successfully() {
    for address in ["a@test.com", "some@mydomain.com", "coder@tester.com", "email@[127.0.0.1]"] {
        let parsed = Email::parse(address.to_string());
        assert!(parsed.is_ok(), "{}", address);
        assert_eq!(parsed.ok().unwrap().as_ref(), address);
    }
}

#[test]
fn rejected_email_is_named_in_the_message() {
    assert_eq!(
        Email::parse("ursuladomain.com".to_string()).err(),
        Some("ursuladomain.com is not a valid email address.".to_string())
    );
}

#[test]
fn emails_compare_by_their_text_with_case() {
    let lower = Email::parse("a@test.com".to_string()).unwrap();
    let same = Email::parse("a@test.com".to_string()).unwrap();
    let upper = Email::parse("A@test.com".to_string()).unwrap();
    assert!(lower == same);
    assert!(lower != upper);
    assert!(lower.clone() == lower);
}
