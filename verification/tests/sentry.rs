use check_if_email_exists::sentry::redact;

#[test]
fn test_redact() {
    assert_eq!("***@gmail.com", redact("someone@gmail.com", "someone"));
    assert_eq!(
        "my email is ***@gmail.com.",
        redact("my email is someone@gmail.com.", "someone")
    );
    assert_eq!(
        "my email is ***@gmail.com., I repeat, my email is ***@gmail.com.",
        redact(
            "my email is someone@gmail.com., I repeat, my email is someone@gmail.com.",
            "someone"
        )
    );
    assert_eq!(
        "*** @ gmail . com",
        redact("someone @ gmail . com", "someone")
    );
    assert_eq!("*** is here.", redact("someone is here.", "someone"));
}

#[test]
fn redact_without_the_username_changes_nothing() {
    assert_eq!(redact("nothing to hide", "someone"), "nothing to hide");
}

#[test]
fn no_instance_of_the_username_is_left() {
    assert_eq!(redact("ababab", "abab"), "***ab");
    assert!(!redact("ababab", "abab").contains("abab"));
    assert_eq!(redact("xsomeoneone", "someone"), "x***one");
}
