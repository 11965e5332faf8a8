use auth_service::{Email, LoginAttemptId, Password, TwoFACode};

#[test]
fn email_without_at_cannot_be_parsed() {
    let res = Email::parse("hello".to_string());
    let expected_error_string = "hello is not a valid email.";
    match res {
        Err(e) => assert_eq!(e.to_string(), expected_error_string),
        _ => panic!("error was expected when parsing invalid email"),
    }
}

#[test]
fn email_with_two_at_cannot_be_parsed() {
    let res = Email::parse("hello@hello@hello.com".to_string());
    let expected_error_string = "hello@hello@hello.com is not a valid email.";
    match res {
        Err(e) => assert_eq!(e.to_string(), expected_error_string),
        _ => panic!("error was expected when parsing invalid email"),
    }
}

#[test]
fn valid_email_can_be_parsed() {
    let res = Email::parse("ken@cttm.io".to_string()).expect("email should be parsed");
    let expected = "ken@cttm.io";
    assert_eq!(res.as_ref(), expected);
}

#[test]
fn can_convert_email_to_string() {
    let email = "ken@cttm.io";
    let res = Email::parse(email.to_string()).unwrap();
    assert_eq!(res.as_ref(), email);
}

#[test]
fn empty_email_cannot_be_parsed() {
    assert!(Email::parse(String::new()).is_err());
}

#[test]
fn emails_compare_by_text() {
    let a = Email::parse("a@b.com".to_string()).unwrap();
    let b = Email::parse("a@b.com".to_string()).unwrap();
    let c = Email::parse("c@b.com".to_string()).unwrap();
    assert!(a == b);
    assert!(a != c);
}

#[test]
fn cannot_parse_short_password() {
    assert!(Password::parse("a".to_string()).is_err());
}

#[test]
fn password_of_seven_characters_is_refused_and_eight_accepted() {
    assert!(Password::parse("abcdefg".to_string()).is_err());
    let p = Password::parse("abcdefgh".to_string()).expect("eight characters suffice");
    assert_eq!(p.as_ref(), "abcdefgh");
}

#[test]
fn password_length_counts_characters() {
    // seven characters, more than eight bytes
    assert!(Password::parse("ééééééé".to_string()).is_err());
    assert!(Password::parse("éééééééé".to_string()).is_ok());
}

#[test]
fn six_digit_code_is_parsed() {
    let c = TwoFACode::parse("012345".to_string()).expect("six digits");
    assert_eq!(c.as_ref(), "012345");
}

#[test]
fn code_of_wrong_length_is_refused() {
    assert_eq!(
        TwoFACode::parse("12".to_string()).err(),
        Some("could not parse FA Code".to_string())
    );
    assert!(TwoFACode::parse("1234567".to_string()).is_err());
    assert!(TwoFACode::parse(String::new()).is_err());
}

#[test]
fn code_with_non_digit_is_refused() {
    assert_eq!(
        TwoFACode::parse("12a456".to_string()).err(),
        Some("could not parse FA Code because a non-digit was found".to_string())
    );
    assert!(TwoFACode::parse("١٢٣٤٥٦".to_string()).is_err());
}

#[test]
fn fresh_code_is_six_digits_in_range() {
    for _ in 0..50 {
        let c = TwoFACode::default();
        let text = c.as_ref();
        assert_eq!(text.len(), 6);
        let n: u32 = text.parse().unwrap();
        assert!((100000..1000000).contains(&n));
        assert!(TwoFACode::parse(text.to_string()).is_ok());
    }
}

#[test]
fn login_attempt_id_is_kept_hyphenated() {
    let id = LoginAttemptId::parse("67E55044-10B1-426F-9247-BB680E5FE0C8".to_string())
        .expect("a UUID");
    assert_eq!(id.as_ref(), "67e55044-10b1-426f-9247-bb680e5fe0c8");
    let simple = LoginAttemptId::parse("67e5504410b1426f9247bb680e5fe0c8".to_string())
        .expect("a UUID without hyphens");
    assert!(simple == id);
}

#[test]
fn malformed_login_attempt_id_is_refused() {
    assert_eq!(
        LoginAttemptId::parse("oij".to_string()).err(),
        Some("could not parse login attempt id".to_string())
    );
}

#[test]
fn fresh_login_attempt_ids_parse_back_and_differ() {
    let a = LoginAttemptId::default();
    let b = LoginAttemptId::default();
    assert_eq!(a.as_ref().len(), 36);
    let again = LoginAttemptId::parse(a.as_ref().to_string()).unwrap();
    assert_eq!(again.as_ref(), a.as_ref());
    assert!(a != b);
}
