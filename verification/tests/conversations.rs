use check_if_email_exists::telnet::{connect, telnet_conversation, telnet_next, Step};
use check_if_email_exists::with_lettre::email_exists;

#[test]
fn telnet_found_on_2_1_5() {
    let answers = vec![
        "220 mx.example.org ESMTP".to_string(),
        "250 mx.example.org".to_string(),
        "250 2.1.0 Sender OK".to_string(),
        "250 2.1.5 Recipient OK".to_string(),
    ];
    assert!(connect(&answers, "me@example.com", "you@example.org"));
}

#[test]
fn telnet_not_found_without_2_1_5() {
    let answers = vec![
        "220 mx.example.org ESMTP".to_string(),
        "250 mx.example.org".to_string(),
        "250 2.1.0 Sender OK".to_string(),
        "550 5.1.1 User unknown".to_string(),
    ];
    assert!(!connect(&answers, "me@example.com", "you@example.org"));
    assert!(!connect(&vec!["554 no service".to_string()], "a@b.c", "d@e.f"));
}

#[test]
fn telnet_lines_sent() {
    assert_eq!(
        telnet_next(Step::Welcome, "220 hi", "a@b.c", "d@e.f"),
        Some((Step::SentHelo, "HELO Hi\n".to_string()))
    );
    assert_eq!(
        telnet_next(Step::SentHelo, "250 ok", "a@b.c", "d@e.f"),
        Some((Step::SentMailFrom, "MAIL FROM: <a@b.c>\n".to_string()))
    );
    assert_eq!(
        telnet_next(Step::SentMailFrom, "250 2.1.0 ok", "a@b.c", "d@e.f"),
        Some((Step::SentRcptTo, "RCPT TO: <d@e.f>\n".to_string()))
    );
    assert_eq!(
        telnet_next(Step::SentRcptTo, "550 no", "a@b.c", "d@e.f"),
        Some((Step::NotFound, "QUIT\n".to_string()))
    );
    assert_eq!(telnet_next(Step::Found, "x", "a@b.c", "d@e.f"), None);
}

#[test]
fn lettre_conversation_needs_every_reply_positive() {
    assert!(email_exists(&[true, true, true, true, true], false));
    assert!(!email_exists(&[true, true, true, true], false));
    assert!(email_exists(&[true, true, true, true, true, true], true));
    assert!(!email_exists(&[true, true, false, true, true], false));
    // A failure is final, whatever comes after.
    assert!(!email_exists(&[false, true, true, true, true, true], false));
}

#[test]
fn telnet_stops_at_the_first_failed_answer() {
    let answers: Vec<String> = ["x", "220", "250", "2.1.0", "2.1.5"]
        .iter()
        .map(|s| s.to_string())
        .collect();
    assert!(!connect(&answers, "a@b.c", "d@e.f"));
}

#[test]
fn telnet_sends_its_lines_in_order() {
    let answers: Vec<String> = ["220 hi", "250 ok", "250 2.1.0 ok", "550 5.1.1 no such user", "221 bye"]
        .iter()
        .map(|a| a.to_string())
        .collect();
    let (found, sent) = telnet_conversation(&answers, "me@example.com", "you@example.org");
    assert!(!found);
    assert_eq!(
        sent,
        vec![
            "HELO Hi\n".to_string(),
            "MAIL FROM: <me@example.com>\n".to_string(),
            "RCPT TO: <you@example.org>\n".to_string(),
            "QUIT\n".to_string(),
        ]
    );
    let answers: Vec<String> = ["220 hi", "500 what", "250 2.1.0 ok"].iter().map(|a| a.to_string()).collect();
    let (found, sent) = telnet_conversation(&answers, "me@example.com", "you@example.org");
    assert!(!found);
    assert_eq!(sent, vec!["HELO Hi\n".to_string()]);
}
