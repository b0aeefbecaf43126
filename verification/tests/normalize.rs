use check_if_email_exists::normalize::normalize_email;

#[test]
fn test_gmail_removes_periods() {
    assert_eq!(normalize_email("a.b.c@gmail.com"), "abc@gmail.com");
}

#[test]
fn test_gmail_removes_subaddress() {
    assert_eq!(normalize_email("abc+123@gmail.com"), "abc@gmail.com");
}

#[test]
fn test_gmail_uses_gmail_com() {
    assert_eq!(normalize_email("abc@googlemail.com"), "abc@gmail.com");
}

#[test]
fn test_gmail() {
    assert_eq!(normalize_email("ABC+123@googlemail.com"), "abc@gmail.com");
}

#[test]
fn other_domains_are_kept_as_they_are() {
    assert_eq!(normalize_email("A.B+c@Example.org"), "A.B+c@Example.org");
}

#[test]
fn normalizing_twice_changes_nothing() {
    let once = normalize_email("Foo.Bar+news@googlemail.com");
    assert_eq!(once, "foobar@gmail.com");
    assert_eq!(normalize_email(&once), once);
}

#[test]
fn the_split_is_at_the_last_at_sign() {
    assert_eq!(normalize_email("\"a@b\"@gmail.com"), "\"a@b\"@gmail.com");
}
