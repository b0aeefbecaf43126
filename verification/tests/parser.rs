use check_if_email_exists::parser::{
    is_disabled_account, is_err_io_errors, is_err_ip_blacklisted, is_err_needs_rdns, is_full_inbox,
    is_invalid,
};
use check_if_email_exists::smtp_error::{AsyncSmtpError, SmtpError, SmtpErrorDesc};

#[test]
fn test_is_invalid() {
    let email = "foo@bar.baz";

    assert_eq!(
        is_invalid(
            "554 5.7.1 <mta.voipdir.net[]>: Client host rejected: Access denied",
            email
        ),
        false
    );

    assert_eq!(
        is_invalid("RCPT (***@stigpods.com.cn) dosn't exist", email),
        true
    );

    assert_eq!(
        is_invalid(
            "permanent: 5.1.1 MXIN501 mailbox foo@bar.baz unknown (on @virginmedia.com)",
            email
        ),
        true
    );
}

#[test]
fn test_is_err_ip_blacklisted() {
    let err = AsyncSmtpError::Permanent(vec![
        "gmx.net (mxgmx117) Nemesis ESMTP Service not available".to_string(),
        "No SMTP service".to_string(),
        "IP address is block listed.".to_string(),
        "For explanation visit https://www.gmx.net/mail/senderguidelines?c=bl".to_string(),
    ]);

    assert!(is_err_ip_blacklisted(&SmtpError::AsyncSmtpError(err)))
}

#[test]
fn mailbox_unknown_phrase_names_the_address() {
    assert!(!is_invalid("mailbox other@bar.baz unknown", "foo@bar.baz"));
    assert!(is_invalid("mailbox foo@bar.baz unknown", "foo@bar.baz"));
}

#[test]
fn full_inbox_and_disabled_phrases() {
    assert!(is_full_inbox("452 4.2.2 mailbox full"));
    assert!(is_full_inbox("552 user is over quota"));
    assert!(!is_full_inbox("550 no such user"));
    assert!(is_disabled_account("the account has been disabled"));
    assert!(is_disabled_account("service discontinued"));
    assert!(!is_disabled_account("user unknown"));
    assert!(is_disabled_account("554 this account has been blocked by the provider"));
    assert!(!is_disabled_account("550 user unknown"));
}

#[test]
fn io_incomplete_is_recognized() {
    let e = SmtpError::AsyncSmtpError(AsyncSmtpError::Io("incomplete".to_string()));
    assert!(is_err_io_errors(&e));
    let e = SmtpError::AsyncSmtpError(AsyncSmtpError::Io("broken pipe".to_string()));
    assert!(!is_err_io_errors(&e));
    let e = SmtpError::IOError("incomplete".to_string());
    assert!(!is_err_io_errors(&e));
}

#[test]
fn needs_rdns_is_read_in_lowercase() {
    let e = SmtpError::AsyncSmtpError(AsyncSmtpError::Transient(vec![
        "Client host rejected: cannot find your REVERSE hostname".to_string(),
    ]));
    assert!(is_err_needs_rdns(&e));
    assert!(!is_err_ip_blacklisted(&e));
}

#[test]
fn descriptions_of_reply_errors() {
    let reply = |m: &str| {
        SmtpError::AsyncSmtpError(AsyncSmtpError::Transient(vec![
            m.to_string(),
            "8BITMIME".to_string(),
            "SIZE 42".to_string(),
        ]))
    };
    assert_eq!(
        reply("blacklist").get_description(),
        Some(SmtpErrorDesc::IpBlacklisted)
    );
    assert_eq!(
        reply("Client host rejected: cannot find your reverse hostname").get_description(),
        Some(SmtpErrorDesc::NeedsRDNS)
    );
    assert_eq!(reply("foobar").get_description(), None);
    assert_eq!(SmtpError::IOError("blacklist".to_string()).get_description(), None);
}

#[test]
fn reply_text_shows_the_first_line() {
    let e = AsyncSmtpError::Transient(vec!["foobar".to_string(), "SIZE 42".to_string()]);
    assert_eq!(e.to_text(), "transient: foobar");
    let e = AsyncSmtpError::Permanent(vec![]);
    assert_eq!(e.to_text(), "permanent: undetailed error during SMTP transaction");
    assert_eq!(AsyncSmtpError::Io("incomplete".to_string()).to_text(), "io: incomplete");
}

/// The error message and description that a report of a transient SMTP
/// error carries.
#[test]
fn should_serialize_correctly() {
    fn dummy_error_with_message(m: &str) -> AsyncSmtpError {
        AsyncSmtpError::Transient(vec![m.to_string(), "8BITMIME".to_string(), "SIZE 42".to_string()])
    }

    let e = dummy_error_with_message("blacklist");
    assert_eq!(e.to_text(), "transient: blacklist");
    assert_eq!(SmtpError::AsyncSmtpError(e).get_description(), Some(SmtpErrorDesc::IpBlacklisted));

    let e = dummy_error_with_message("Client host rejected: cannot find your reverse hostname");
    assert_eq!(e.to_text(), "transient: Client host rejected: cannot find your reverse hostname");
    assert_eq!(SmtpError::AsyncSmtpError(e).get_description(), Some(SmtpErrorDesc::NeedsRDNS));

    let e = dummy_error_with_message("foobar");
    assert_eq!(e.to_text(), "transient: foobar");
    assert_eq!(SmtpError::AsyncSmtpError(e).get_description(), None);
}
