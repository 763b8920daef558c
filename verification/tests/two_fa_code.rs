use auth_service::domain::TwoFACode;

#[test]
fn six_digit_code_in_range_is_accepted() {
    for text in ["345678", "100000", "999999", "123456"] {
        let code = TwoFACode::parse(text.to_owned()).unwrap();
        assert_eq!(code.as_ref(), text);
    }
}

#[test]
fn code_outside_the_range_is_rejected() {
    for text in ["000000", "099999", "012345"] {
        assert_eq!(TwoFACode::parse(text.to_owned()).err(), Some("Invalid code".to_owned()), "{}", text);
    }
}

#[test]
fn code_of_another_length_is_rejected() {
    for text in ["", "1", "12345", "1234567", "2short "] {
        assert_eq!(TwoFACode::parse(text.to_owned()).err(), Some("Invalid code".to_owned()), "{}", text);
    }
}

#[test]
fn code_that_is_not_all_digits_is_rejected() {
    for text in ["2short", "string", "12a456", "+12345", "-12345", "12345 ", "１２", "1234é", "12345６"] {
        assert_eq!(TwoFACode::parse(text.to_owned()).err(), Some("Invalid code".to_owned()), "{}", text);
    }
}

#[test]
fn code_of_a_number_is_its_six_digits() {
    assert_eq!(TwoFACode::from_number(345_678).unwrap().as_ref(), "345678");
    assert_eq!(TwoFACode::from_number(100_000).unwrap().as_ref(), "100000");
    assert_eq!(TwoFACode::from_number(999_999).unwrap().as_ref(), "999999");
    assert_eq!(TwoFACode::from_number(907_060).unwrap().as_ref(), "907060");
    assert!(TwoFACode::from_number(99_999).is_none());
    assert!(TwoFACode::from_number(0).is_none());
    assert!(TwoFACode::from_number(1_000_000).is_none());
    assert!(TwoFACode::from_number(u32::MAX).is_none());
}

#[test]
fn generated_code_round_trips() {
    for _ in 0..200 {
        let code = TwoFACode::generate();
        let number: u32 = code.as_ref().parse().unwrap();
        assert!((100_000..=999_999).contains(&number));
        let parsed = TwoFACode::parse(code.as_ref().to_owned()).unwrap();
        assert_eq!(parsed, code);
    }
    let code = TwoFACode::default();
    assert_eq!(code.as_ref().len(), 6);
    assert_eq!(code.clone(), code);
}
