use check_if_email_exists::syntax::{
    check_syntax, get_similar_mail_provider, syntax_details_from, SyntaxDetails,
};

#[test]
fn should_return_invalid_for_invalid_email() {
    assert_eq!(
        check_syntax("foo"),
        SyntaxDetails {
            address: None,
            domain: "".into(),
            is_valid_syntax: false,
            username: "".into(),
            suggestion: None,
        }
    );
}

#[test]
fn should_return_invalid_for_invalid_email_with_at() {
    assert_eq!(
        check_syntax("foo@bar"),
        SyntaxDetails {
            address: None,
            domain: "".into(),
            is_valid_syntax: false,
            username: "".into(),
            suggestion: None,
        }
    );
}

#[test]
fn should_work_for_valid_email() {
    assert_eq!(
        check_syntax("foo@bar.com"),
        SyntaxDetails {
            address: Some("foo@bar.com".into()),
            domain: "bar.com".into(),
            is_valid_syntax: true,
            username: "foo".into(),
            suggestion: None,
        }
    );
}

#[test]
fn should_suggest_a_correct_mail_if_similar() {
    let mut syntax = SyntaxDetails {
        address: Some("test@gmali.com".into()),
        domain: "gmali.com".into(),
        is_valid_syntax: true,
        username: "test".into(),
        suggestion: None,
    };
    get_similar_mail_provider(&mut syntax);
    assert_eq!(syntax.suggestion, Some("test@gmail.com".to_string()))
}

#[test]
fn no_suggestion_for_a_distant_domain() {
    let mut syntax = check_syntax("someone@example.org");
    let before = syntax.clone();
    get_similar_mail_provider(&mut syntax);
    assert_eq!(syntax, before);
}

#[test]
fn a_valid_address_is_username_at_domain() {
    let s = check_syntax("first.last+tag@sub.example.com");
    assert!(s.is_valid_syntax);
    assert_eq!(format!("{}@{}", s.username, s.domain), "first.last+tag@sub.example.com");
}

#[test]
fn spaces_are_refused() {
    assert!(!check_syntax("foo bar@example.com").is_valid_syntax);
}

#[test]
fn syntax_details_follow_the_mail_checker_verdict() {
    let d = syntax_details_from("foo@bar.com", true);
    assert_eq!(
        d,
        SyntaxDetails {
            address: Some("foo@bar.com".to_string()),
            domain: "bar.com".into(),
            is_valid_syntax: true,
            username: "foo".into(),
            suggestion: None,
        }
    );
    assert_eq!(syntax_details_from("foo@bar.com", false), SyntaxDetails::default());
    // Refused by the SMTP client whatever the mail checker says.
    assert_eq!(syntax_details_from("foo bar@baz.com", true), SyntaxDetails::default());
}
