use check_if_email_exists::smtp::SmtpDetails;
use check_if_email_exists::smtp_error::{AsyncSmtpError, SmtpError};
use check_if_email_exists::smtp_session::{event_fits, smtp_step, SmtpAction, SmtpEvent, SmtpStage};

fn perm(m: &str) -> SmtpEvent {
    SmtpEvent::Reply(Err(AsyncSmtpError::Permanent(vec![m.to_string()])))
}

fn incomplete() -> SmtpEvent {
    SmtpEvent::Reply(Err(AsyncSmtpError::Io("incomplete".to_string())))
}

fn ok() -> SmtpEvent {
    SmtpEvent::Reply(Ok(()))
}

#[test]
fn the_sender_comes_first() {
    let (stage, action) = smtp_step(SmtpStage::Connecting, SmtpEvent::Ready, false, "me@a.com", "foo@bar.com", "bar.com");
    assert!(matches!(stage, SmtpStage::SendingFrom { reconnected: false }));
    assert!(matches!(action, SmtpAction::MailFrom(a) if a == "me@a.com"));
    let (_, action) = smtp_step(SmtpStage::Connecting, SmtpEvent::Ready, false, "me @a.com", "foo@bar.com", "bar.com");
    assert!(matches!(action, SmtpAction::MailFrom(a) if a == "user@example.org"));
}

#[test]
fn a_refused_sender_ends_the_verification() {
    let stage = SmtpStage::SendingFrom { reconnected: false };
    let (stage, action) = smtp_step(stage, perm("550 sender rejected"), false, "me@a.com", "foo@bar.com", "bar.com");
    assert!(matches!(stage, SmtpStage::Finished));
    assert!(matches!(
        action,
        SmtpAction::Refused(SmtpError::AsyncSmtpError(AsyncSmtpError::Permanent(lines))) if lines == vec!["550 sender rejected".to_string()]
    ));
}

#[test]
fn a_skipped_probe_asks_for_the_address_at_once() {
    let (stage, action) = smtp_step(SmtpStage::SendingFrom { reconnected: false }, ok(), true, "me@a.com", "foo@bar.com", "bar.com");
    assert!(matches!(stage, SmtpStage::AskingRecipient { reconnected: false }));
    assert!(matches!(action, SmtpAction::Rcpt(a) if a == "foo@bar.com"));
}

#[test]
fn the_probe_is_a_random_address_of_the_domain() {
    let (stage, action) = smtp_step(SmtpStage::SendingFrom { reconnected: false }, ok(), false, "me@a.com", "foo@bar.com", "bar.com");
    let probe = match stage {
        SmtpStage::ProbingCatchAll { probe } => probe,
        other => panic!("expected a probe, got {other:?}"),
    };
    assert_eq!(probe.len(), 23);
    assert!(probe.ends_with("@bar.com"));
    assert!(probe[..15].chars().all(|c| c.is_ascii_alphanumeric()));
    assert!(matches!(action, SmtpAction::Rcpt(a) if a == probe));
}

#[test]
fn an_accepted_probe_means_catch_all() {
    let stage = SmtpStage::ProbingCatchAll { probe: "abc@bar.com".to_string() };
    let (stage, action) = smtp_step(stage, SmtpEvent::Reply(Ok(())), false, "me@a.com", "foo@bar.com", "bar.com");
    assert!(matches!(stage, SmtpStage::Finished));
    let expected = SmtpDetails {
        can_connect_smtp: true,
        has_full_inbox: false,
        is_catch_all: true,
        is_deliverable: true,
        is_disabled: false,
    };
    assert!(matches!(action, SmtpAction::Finish(Ok(d)) if d == expected));
}

#[test]
fn a_refused_probe_moves_on_to_the_address() {
    let stage = SmtpStage::ProbingCatchAll { probe: "abc@bar.com".to_string() };
    let (stage, action) = smtp_step(stage, perm("5.1.1 User unknown"), false, "me@a.com", "foo@bar.com", "bar.com");
    assert!(matches!(stage, SmtpStage::AskingRecipient { reconnected: false }));
    assert!(matches!(action, SmtpAction::Rcpt(a) if a == "foo@bar.com"));
    // An error that cannot be parsed is no catch-all either.
    let stage = SmtpStage::ProbingCatchAll { probe: "abc@bar.com".to_string() };
    let (stage, _) = smtp_step(stage, perm("5.7.1 something else"), false, "me@a.com", "foo@bar.com", "bar.com");
    assert!(matches!(stage, SmtpStage::AskingRecipient { reconnected: false }));
}

#[test]
fn a_dropped_connection_is_reopened_once() {
    let stage = SmtpStage::AskingRecipient { reconnected: false };
    let (stage, action) = smtp_step(stage, incomplete(), false, "me@a.com", "foo@bar.com", "bar.com");
    assert!(matches!(stage, SmtpStage::Reconnecting));
    assert!(matches!(action, SmtpAction::Reconnect));
    let (stage, action) = smtp_step(stage, SmtpEvent::Ready, false, "me@a.com", "foo@bar.com", "bar.com");
    assert!(matches!(stage, SmtpStage::SendingFrom { reconnected: true }));
    assert!(matches!(action, SmtpAction::MailFrom(a) if a == "me@a.com"));
    // On the second connection there is no new probe.
    let (stage, action) = smtp_step(stage, ok(), false, "me@a.com", "foo@bar.com", "bar.com");
    assert!(matches!(stage, SmtpStage::AskingRecipient { reconnected: true }));
    assert!(matches!(action, SmtpAction::Rcpt(a) if a == "foo@bar.com"));
    let (stage, action) = smtp_step(stage, incomplete(), false, "me@a.com", "foo@bar.com", "bar.com");
    assert!(matches!(stage, SmtpStage::Finished));
    assert!(matches!(
        action,
        SmtpAction::Finish(Err(SmtpError::AsyncSmtpError(AsyncSmtpError::Io(m)))) if m == "incomplete"
    ));
}

#[test]
fn the_reply_for_the_address_is_the_outcome() {
    let stage = SmtpStage::AskingRecipient { reconnected: false };
    let (stage, action) = smtp_step(stage, SmtpEvent::Reply(Ok(())), false, "me@a.com", "foo@bar.com", "bar.com");
    assert!(matches!(stage, SmtpStage::Finished));
    let expected = SmtpDetails {
        can_connect_smtp: true,
        has_full_inbox: false,
        is_catch_all: false,
        is_deliverable: true,
        is_disabled: false,
    };
    assert!(matches!(action, SmtpAction::Finish(Ok(d)) if d == expected));
    let stage = SmtpStage::AskingRecipient { reconnected: false };
    let (_, action) = smtp_step(stage, perm("5.2.2 Mailbox full"), false, "me@a.com", "foo@bar.com", "bar.com");
    assert!(matches!(action, SmtpAction::Finish(Ok(d)) if d.has_full_inbox && !d.is_deliverable));
}

#[test]
fn events_fit_their_stages() {
    assert!(event_fits(&SmtpStage::Connecting, &SmtpEvent::Ready));
    assert!(!event_fits(&SmtpStage::Connecting, &incomplete()));
    assert!(event_fits(&SmtpStage::AskingRecipient { reconnected: true }, &incomplete()));
    assert!(!event_fits(&SmtpStage::Reconnecting, &incomplete()));
    assert!(!event_fits(&SmtpStage::Finished, &SmtpEvent::Ready));
}
