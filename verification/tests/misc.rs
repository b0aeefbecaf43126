use check_if_email_exists::gravatar::{gravatar_url, gravatar_url_if_found, gravatar_url_of_digest};
use check_if_email_exists::haveibeenpwned::{
    haveibeenpwned_api_key_header, haveibeenpwned_outcome, haveibeenpwned_url,
};
use check_if_email_exists::misc::{
    check_misc, load_str_as_hashset, misc_details_from, trim_range, StringSet,
};
use check_if_email_exists::syntax::SyntaxDetails;

fn gmail_test_syntax() -> SyntaxDetails {
    SyntaxDetails {
        address: Some("test@gmail.com".to_string()),
        is_valid_syntax: true,
        username: "test".to_string(),
        domain: "gmail.com".to_string(),
        suggestion: None,
    }
}

#[test]
fn test_check_misc() {
    // The role-account and consumer-provider lists, in the format of their
    // files: one entry per line.
    let roles = load_str_as_hashset("admin\ninfo\ntest\n");
    let b2c = load_str_as_hashset("gmail.com\nyahoo.com\n");
    let misc_details = check_misc(&gmail_test_syntax(), &roles, &b2c, None, None);

    assert!(!misc_details.is_disposable); // gmail.com is not in mailchecker
    assert!(misc_details.is_role_account); // test is in roles.txt
    assert!(misc_details.is_b2c); // gmail.com is in b2c.txt
}

#[test]
fn disposable_domains_are_flagged() {
    let syntax = SyntaxDetails {
        address: Some("someone@mailinator.com".to_string()),
        is_valid_syntax: true,
        username: "someone".to_string(),
        domain: "mailinator.com".to_string(),
        suggestion: None,
    };
    let d = check_misc(&syntax, &StringSet::new(), &StringSet::new(), None, Some(2));
    assert!(d.is_disposable);
    assert!(!d.is_role_account && !d.is_b2c);
    assert_eq!(d.haveibeenpwned, Some(true));
}

#[test]
fn role_and_provider_match_in_lower_case() {
    let syntax = SyntaxDetails {
        address: Some("Admin@GMAIL.com".to_string()),
        is_valid_syntax: true,
        username: "Admin".to_string(),
        domain: "GMAIL.com".to_string(),
        suggestion: None,
    };
    let roles = load_str_as_hashset("admin");
    let b2c = load_str_as_hashset("gmail.com");
    let d = check_misc(&syntax, &roles, &b2c, Some("u".to_string()), None);
    assert!(d.is_role_account && d.is_b2c);
    assert_eq!(d.gravatar_url, Some("u".to_string()));
}

#[test]
fn lines_are_trimmed_and_a_final_newline_adds_nothing() {
    let set = load_str_as_hashset("  admin \r\nsales\t\n\n");
    assert!(set.contains("admin"));
    assert!(set.contains("sales"));
    // The empty line between the two newlines is a line.
    assert!(set.contains(""));
    assert!(!set.contains(" admin"));
    let set = load_str_as_hashset("a\nb");
    assert!(set.contains("a") && set.contains("b") && !set.contains(""));
    let set = load_str_as_hashset("");
    assert!(!set.contains(""));
}

#[test]
fn trim_removes_unicode_white_space() {
    let v: Vec<char> = "\u{3000} x y\u{a0}\n".chars().collect();
    assert_eq!(trim_range(&v, 0, v.len()), "x y");
    let v: Vec<char> = "   ".chars().collect();
    assert_eq!(trim_range(&v, 0, v.len()), "");
}

#[test]
fn string_set_insert_and_contains() {
    let mut s = StringSet::new();
    assert!(!s.contains("a"));
    s.insert("a".to_string());
    assert!(s.contains("a") && !s.contains("b"));
}

#[test]
fn gravatar_url_of_a_digest() {
    let digest: Vec<u8> = (0u8..16).map(|i| i * 17).collect();
    assert_eq!(
        gravatar_url_of_digest(&digest),
        "https://www.gravatar.com/avatar/00112233445566778899aabbccddeeff"
    );
}

#[test]
fn gravatar_url_uses_the_md5_of_the_address() {
    let expected = format!(
        "https://www.gravatar.com/avatar/{:x}",
        md5::compute("test@gmail.com")
    );
    assert_eq!(gravatar_url("test@gmail.com"), expected);
    assert_eq!(
        gravatar_url(""),
        "https://www.gravatar.com/avatar/d41d8cd98f00b204e9800998ecf8427e"
    );
}

#[test]
fn gravatar_picture_exists_only_on_200() {
    let url = "https://www.gravatar.com/avatar/x".to_string();
    assert_eq!(gravatar_url_if_found(url.clone(), Some(200)), Some(url.clone()));
    assert_eq!(gravatar_url_if_found(url.clone(), Some(404)), None);
    assert_eq!(gravatar_url_if_found(url, None), None);
}

#[test]
fn haveibeenpwned_request_and_answer() {
    assert_eq!(
        haveibeenpwned_url("foo@bar.com"),
        "https://haveibeenpwned.com/api/v3/breachedaccount/foo@bar.com?truncateResponse=false"
    );
    assert_eq!(haveibeenpwned_api_key_header(Some("k".to_string())), "k");
    assert_eq!(haveibeenpwned_api_key_header(None), "");
    assert_eq!(haveibeenpwned_outcome(Some(200), 3), Some(3));
    assert_eq!(haveibeenpwned_outcome(Some(204), 0), Some(0));
    assert_eq!(haveibeenpwned_outcome(Some(404), 0), Some(0));
    assert_eq!(haveibeenpwned_outcome(Some(429), 0), None);
    assert_eq!(haveibeenpwned_outcome(None, 5), None);
}

#[test]
fn misc_details_follow_the_mail_checker_verdict() {
    let roles = load_str_as_hashset("test");
    let b2c = load_str_as_hashset("gmail.com");
    let d = misc_details_from(&gmail_test_syntax(), false, &roles, &b2c, None, Some(0));
    assert!(d.is_disposable);
    assert!(d.is_role_account && d.is_b2c);
    assert_eq!(d.haveibeenpwned, Some(false));
    let d = misc_details_from(&gmail_test_syntax(), true, &StringSet::new(), &StringSet::new(), None, None);
    assert!(!d.is_disposable && !d.is_role_account && !d.is_b2c);
    assert_eq!(d.haveibeenpwned, None);
}
