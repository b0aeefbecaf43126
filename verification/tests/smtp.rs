use check_if_email_exists::check::{
    calculate_reachable, check_email_output, continue_after_mx, continue_after_syntax,
    from_email_or_default, race_outcome, DebugDetails,
};
use check_if_email_exists::misc::MiscDetails;
use check_if_email_exists::input_output::Reachable;
use check_if_email_exists::mx::{MxDetails, MxError, ResolveFailure};
use check_if_email_exists::rules::{AllRules, RulesByDomain, Rule};
use check_if_email_exists::smtp::{
    catch_all_probe_address, check_email_deliverability, choose_verification, clean_host,
    needs_reconnect, retry_decision, skip_catch_all, smtp_details_of, Deliverability, SmtpDetails,
    Verification,
};
use check_if_email_exists::smtp_error::{AsyncSmtpError, SmtpError};
use check_if_email_exists::syntax::check_syntax;
use check_if_email_exists::verif_method::{EmailProvider, VerifMethod};
use std::time::Duration;

fn details(deliverable: bool) -> SmtpDetails {
    SmtpDetails {
        can_connect_smtp: true,
        has_full_inbox: false,
        is_catch_all: false,
        is_deliverable: deliverable,
        is_disabled: false,
    }
}

#[test]
fn rcpt_success_is_deliverable() {
    let d = check_email_deliverability(Ok(()), "foo@bar.baz").unwrap();
    assert_eq!(
        d,
        Deliverability {
            has_full_inbox: false,
            is_deliverable: true,
            is_disabled: false
        }
    );
}

#[test]
fn rcpt_errors_are_classified() {
    let perm = |m: &str| Err(AsyncSmtpError::Permanent(vec![m.to_string()]));
    let d = check_email_deliverability(perm("5.2.1 The email account that you tried to reach is DISABLED"), "a@b.c").unwrap();
    assert!(d.is_disabled && !d.is_deliverable);
    let d = check_email_deliverability(perm("5.2.2 Mailbox full"), "a@b.c").unwrap();
    assert!(d.has_full_inbox && !d.is_deliverable);
    let d = check_email_deliverability(
        perm("The user you are trying to contact is receiving mail at a rate that prevents additional messages"),
        "a@b.c",
    )
    .unwrap();
    assert!(d.is_deliverable);
    let d = check_email_deliverability(perm("5.1.1 User unknown"), "a@b.c").unwrap();
    assert!(!d.is_deliverable && !d.has_full_inbox && !d.is_disabled);
    match check_email_deliverability(perm("5.7.1 something else"), "a@b.c") {
        Err(SmtpError::AsyncSmtpError(AsyncSmtpError::Permanent(lines))) => {
            assert_eq!(lines, vec!["5.7.1 something else".to_string()])
        }
        _ => panic!("expected the reply back"),
    }
}

#[test]
fn reconnect_only_after_incomplete_io() {
    let incomplete: Result<Deliverability, SmtpError> =
        Err(SmtpError::AsyncSmtpError(AsyncSmtpError::Io("incomplete".to_string())));
    assert!(needs_reconnect(&incomplete));
    let other: Result<Deliverability, SmtpError> = Err(SmtpError::Timeout(Duration::from_secs(1)));
    assert!(!needs_reconnect(&other));
}

#[test]
fn retries_stop_at_one_connection_left() {
    let unknown: Result<SmtpDetails, SmtpError> =
        Err(SmtpError::AsyncSmtpError(AsyncSmtpError::Transient(vec!["greylisted".to_string()])));
    assert_eq!(retry_decision(&unknown, 3), Some(2));
    assert_eq!(retry_decision(&unknown, 2), Some(1));
    assert_eq!(retry_decision(&unknown, 1), None);
    let known: Result<SmtpDetails, SmtpError> =
        Err(SmtpError::AsyncSmtpError(AsyncSmtpError::Transient(vec!["blacklisted IP".to_string()])));
    assert_eq!(retry_decision(&known, 3), None);
    let yahoo: Result<SmtpDetails, SmtpError> = Err(SmtpError::YahooError("NoCookie".to_string()));
    assert_eq!(retry_decision(&yahoo, 3), None);
    assert_eq!(retry_decision(&Ok(details(true)), 3), None);
}

#[test]
fn catch_all_skip_by_domain_or_mx_suffix() {
    let all = AllRules {
        by_domain: vec![(
            "gmx.de".to_string(),
            RulesByDomain {
                rules: vec![Rule::SkipCatchAll],
            },
        )],
        by_mx_suffix: vec![(
            ".antispamcloud.com.".to_string(),
            RulesByDomain {
                rules: vec![Rule::SkipCatchAll],
            },
        )],
    };
    assert!(skip_catch_all(&all, "gmx.de", "mx.gmx.net."));
    assert!(skip_catch_all(&all, "foo.com", "mx10.antispamcloud.com."));
    assert!(!skip_catch_all(&all, "foo.com", "mx.foo.com."));
}

#[test]
fn any_matching_mx_suffix_brings_its_rule() {
    let all = AllRules {
        by_domain: vec![],
        by_mx_suffix: vec![
            (
                ".com.".to_string(),
                RulesByDomain {
                    rules: vec![Rule::SmtpTimeout45s],
                },
            ),
            (
                ".antispamcloud.com.".to_string(),
                RulesByDomain {
                    rules: vec![Rule::SkipCatchAll],
                },
            ),
        ],
    };
    assert!(skip_catch_all(&all, "foo.com", "mx10.antispamcloud.com."));
    assert!(!skip_catch_all(&all, "foo.com", "mx.foo.com."));
}

#[test]
fn smtp_details_of_a_connection() {
    let d = Deliverability {
        has_full_inbox: true,
        is_deliverable: false,
        is_disabled: false,
    };
    assert_eq!(
        smtp_details_of(true, d),
        SmtpDetails {
            can_connect_smtp: true,
            has_full_inbox: true,
            is_catch_all: true,
            is_deliverable: false,
            is_disabled: false
        }
    );
}

#[test]
fn verification_follows_the_provider() {
    let vm = VerifMethod::default();
    let (p, v) = choose_verification("alt4.aspmx.l.google.com.", &vm).unwrap();
    assert_eq!(p, EmailProvider::Gmail);
    match v {
        Verification::Smtp(m) => {
            assert_eq!(m.config.smtp_port, 25);
            assert_eq!(m.config.retries, 1);
            assert!(m.proxy.is_none());
        }
        _ => panic!("Gmail is verified over SMTP"),
    }
    let (p, v) = choose_verification("mta7.am0.yahoodns.net.", &vm).unwrap();
    assert_eq!(p, EmailProvider::Yahoo);
    assert!(matches!(v, Verification::YahooHeadless));
    let (p, v) = choose_verification("hotmail-com.olc.protection.outlook.com.", &vm).unwrap();
    assert_eq!(p, EmailProvider::HotmailB2C);
    assert!(matches!(v, Verification::HotmailHeadless));
}

#[test]
fn hosts_lose_their_final_dots() {
    assert_eq!(clean_host("alt4.aspmx.l.google.com."), "alt4.aspmx.l.google.com");
    assert_eq!(clean_host("mx.example.org.."), "mx.example.org");
    assert_eq!(clean_host("mx.example.org"), "mx.example.org");
}

#[test]
fn catch_all_probe_is_random_local_part_at_domain() {
    let a = catch_all_probe_address("example.org").unwrap();
    assert_eq!(a.len(), 15 + 1 + "example.org".len());
    assert!(a.ends_with("@example.org"));
    assert!(a[..15].chars().all(|c| c.is_ascii_alphanumeric()));
    assert!(catch_all_probe_address("exa mple.org").is_none());
}

#[test]
fn from_email_falls_back_when_refused() {
    assert_eq!(from_email_or_default("me@example.com"), "me@example.com");
    assert_eq!(from_email_or_default("<me>@example.com"), "user@example.org");
    assert_eq!(from_email_or_default("café@example.com"), "user@example.org");
}

#[test]
fn race_keeps_the_first_success_or_the_last_failure() {
    let e = |m: &str| -> Result<SmtpDetails, SmtpError> { Err(SmtpError::IOError(m.to_string())) };
    let r = race_outcome(vec![e("a"), Ok(details(false)), Ok(details(true))]);
    assert_eq!(r.unwrap(), details(false));
    match race_outcome(vec![e("a"), e("b")]) {
        Err(SmtpError::IOError(m)) => assert_eq!(m, "b"),
        _ => panic!("expected the last failure"),
    }
    assert_eq!(race_outcome(vec![Ok(details(true))]).unwrap(), details(true));
}

fn debug() -> DebugDetails {
    DebugDetails::skipped("test".to_string(), 0, 0, Duration::from_secs(0))
}

#[test]
fn invalid_syntax_stops_the_check() {
    let syntax = check_syntax("foo");
    assert!(!continue_after_syntax(&syntax));
    let out = check_email_output("foo".to_string(), syntax, None, None, None, debug());
    assert_eq!(out.input, "foo");
    assert_eq!(out.is_reachable, Reachable::Invalid);
    assert!(matches!(&out.mx, Ok(d) if matches!(&d.lookup, Err(ResolveFailure::Other(m)) if m == "Skipped")));
    assert!(matches!(&out.smtp, Ok(d) if *d == SmtpDetails::default()));
    assert!(matches!(&out.misc, Ok(d) if !d.is_disposable && d.gravatar_url.is_none()));
}

#[test]
fn mx_failures_stop_the_check() {
    let no_records: Result<MxDetails, MxError> = Ok(MxDetails {
        lookup: Err(ResolveFailure::NoRecordsFound("none".to_string())),
    });
    assert!(!continue_after_mx(&no_records));
    let failed: Result<MxDetails, MxError> = Err(MxError::ResolveError("timeout".to_string()));
    assert!(!continue_after_mx(&failed));
    let found: Result<MxDetails, MxError> =
        Ok(MxDetails::from_records(vec!["mx.example.org.".to_string()]));
    assert!(continue_after_mx(&found));
}

#[test]
fn reachability_of_the_details() {
    let misc = MiscDetails::default();
    assert_eq!(calculate_reachable(&misc, &Ok(details(true))), Reachable::Safe);
    assert_eq!(calculate_reachable(&misc, &Ok(details(false))), Reachable::Invalid);
    let mut catch_all = details(true);
    catch_all.is_catch_all = true;
    assert_eq!(calculate_reachable(&misc, &Ok(catch_all)), Reachable::Risky);
    let role = MiscDetails {
        is_role_account: true,
        ..MiscDetails::default()
    };
    assert_eq!(calculate_reachable(&role, &Ok(details(true))), Reachable::Risky);
    let failed: Result<SmtpDetails, SmtpError> = Err(SmtpError::Timeout(Duration::from_secs(1)));
    assert_eq!(calculate_reachable(&misc, &failed), Reachable::Unknown);
}

#[test]
fn reachability_of_the_output() {
    let syntax = check_syntax("foo@example.org");
    let mx: Result<MxDetails, MxError> =
        Ok(MxDetails::from_records(vec!["mx.example.org.".to_string()]));
    let out = check_email_output(
        "foo@example.org".to_string(),
        syntax.clone(),
        Some(mx),
        Some(MiscDetails::default()),
        Some(Ok(details(true))),
        debug(),
    );
    assert_eq!(out.is_reachable, Reachable::Safe);
    let no_mx: Result<MxDetails, MxError> = Err(MxError::ResolveError("timeout".to_string()));
    let out = check_email_output("foo@example.org".to_string(), syntax, Some(no_mx), None, None, debug());
    assert_eq!(out.is_reachable, Reachable::Invalid);
}
