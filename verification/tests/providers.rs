use check_if_email_exists::simple_smtp::{email_deliverable, smtp_details, SimpleSmtpDetails, SimpleSmtpError};
use check_if_email_exists::gmail::gmail_outcome;
use check_if_email_exists::headless::{
    hotmail_recovery_outcome, poll_driver_again, retry_headless, yahoo_recovery_outcome,
    HotmailRecoveryPage, YahooRecoveryPage,
};
use check_if_email_exists::providers::{is_gmail, is_hotmail, is_hotmail_b2b, is_hotmail_b2c, is_outlook, is_yahoo};
use check_if_email_exists::smtp::Deliverability;

#[test]
fn provider_hosts() {
    assert!(is_gmail("ALT1.ASPMX.L.GOOGLE.COM."));
    assert!(!is_gmail("google.com"));
    assert!(is_yahoo("mta5.am0.yahoodns.net."));
    assert!(is_hotmail("x.olc.protection.outlook.com."));
    assert!(is_hotmail_b2c("x.olc.protection.outlook.com."));
    assert!(!is_hotmail_b2b("x.olc.protection.outlook.com."));
    assert!(is_hotmail_b2b("acme-com.mail.protection.outlook.com."));
    assert!(is_outlook("acme-com.mail.protection.outlook.com."));
}

#[test]
fn recovery_pages() {
    let d = yahoo_recovery_outcome(YahooRecoveryPage::ErrorMessage);
    assert!(!d.is_deliverable && !d.is_disabled && d.can_connect_smtp);
    let d = yahoo_recovery_outcome(YahooRecoveryPage::AccountLocked);
    assert!(!d.is_deliverable && d.is_disabled);
    for p in [
        YahooRecoveryPage::Recaptcha,
        YahooRecoveryPage::EmailVerifyChallenge,
        YahooRecoveryPage::ChallengeSelector,
    ] {
        let d = yahoo_recovery_outcome(p);
        assert!(d.is_deliverable && !d.is_disabled);
    }
    assert!(!hotmail_recovery_outcome(HotmailRecoveryPage::MemberNameError).is_deliverable);
    assert!(!hotmail_recovery_outcome(HotmailRecoveryPage::SigninNameError).is_deliverable);
    assert!(hotmail_recovery_outcome(HotmailRecoveryPage::SelectProofTitle).is_deliverable);
    assert!(hotmail_recovery_outcome(HotmailRecoveryPage::EnterVerification).is_deliverable);
}

#[test]
fn bounded_retries() {
    assert!(retry_headless(1) && retry_headless(2) && !retry_headless(3));
    assert!(poll_driver_again(9) && !poll_driver_again(10));
}

#[test]
fn gmail_cookie_means_deliverable() {
    assert!(gmail_outcome(true).is_deliverable);
    assert!(!gmail_outcome(false).is_deliverable);
    assert!(gmail_outcome(false).can_connect_smtp);
}

#[test]
fn simple_smtp_reply_reading() {
    assert_eq!(
        email_deliverable(Ok(Some("250 2.1.5 Recipient e-mail address ok.".to_string()))),
        Ok(Deliverability {
            has_full_inbox: false,
            is_deliverable: true,
            is_disabled: false
        })
    );
    assert_eq!(
        email_deliverable(Ok(Some("250 OK".to_string()))),
        Err(SimpleSmtpError::SmtpError("Can't find 2.1.5 in RCPT command".to_string()))
    );
    assert_eq!(
        email_deliverable(Ok(None)),
        Err(SimpleSmtpError::SmtpError("No response on RCPT command".to_string()))
    );
    let d = email_deliverable(Err("550 account disabled".to_string())).unwrap();
    assert!(d.is_disabled);
    let d = email_deliverable(Err("552 over quota".to_string())).unwrap();
    assert!(d.has_full_inbox);
    let d = email_deliverable(Err("550 user unknown".to_string())).unwrap();
    assert!(!d.is_deliverable && !d.is_disabled && !d.has_full_inbox);
    assert_eq!(
        email_deliverable(Err("421 try later".to_string())),
        Err(SimpleSmtpError::SmtpError("421 try later".to_string()))
    );
}

#[test]
fn simple_smtp_details() {
    let d = Deliverability {
        has_full_inbox: false,
        is_deliverable: true,
        is_disabled: false,
    };
    assert_eq!(
        smtp_details(Ok(d), d),
        SimpleSmtpDetails {
            has_full_inbox: false,
            is_catch_all: true,
            is_deliverable: true,
            is_disabled: false
        }
    );
    assert!(!smtp_details(Err(SimpleSmtpError::Skipped), d).is_catch_all);
}
