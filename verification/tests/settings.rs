use check_if_email_exists::config::ReacherConfig;
use check_if_email_exists::email_input::EmailInput;
use check_if_email_exists::input_output::{
    parse_u64, CheckEmailInput, CheckEmailInputProxy, GmailVerifMethod, HotmailVerifMethod,
    SmtpSecurity, YahooVerifMethod,
};
use check_if_email_exists::throttle::{Throttle, WorkerAction, worker_turn, SECOND_NANOS};
use check_if_email_exists::worker_config::{parse_verif_methods, split_on, Queue, ThrottleConfig, WorkerVerifMethod};
use std::time::Duration;

#[test]
fn input_defaults() {
    let input = CheckEmailInput::new("foo@bar.com".to_string());
    assert_eq!(input.to_email, "foo@bar.com");
    assert_eq!(input.from_email, "reacher.email@gmail.com");
    assert_eq!(input.hello_name, "gmail.com");
    assert_eq!(input.smtp_port, 25);
    assert_eq!(input.smtp_timeout, Some(Duration::from_secs(30)));
    assert_eq!(input.retries, 1);
    assert!(!input.check_gravatar);
    assert!(input.proxy.is_none());
    assert_eq!(input.skipped_domains, vec![String::new()]);
}

#[test]
fn input_defaults_from_the_environment() {
    let input = CheckEmailInput::default_from_env(
        Some("me@a.com".to_string()),
        None,
        Some("12".to_string()),
    );
    assert_eq!(input.from_email, "me@a.com");
    assert_eq!(input.hello_name, "gmail.com");
    assert_eq!(input.smtp_timeout, Some(Duration::from_secs(12)));
    let input = CheckEmailInput::default_from_env(None, None, Some("soon".to_string()));
    assert_eq!(input.smtp_timeout, Some(Duration::from_secs(30)));
}

#[test]
fn input_setters_chain() {
    let mut input = CheckEmailInput::new("foo@bar.com".to_string());
    input
        .set_from_email("me@a.com".to_string())
        .set_hello_name("a.com".to_string())
        .set_smtp_port(587)
        .set_retries(3)
        .set_smtp_security(SmtpSecurity::Required)
        .set_check_gravatar(true)
        .set_skipped_domains(vec!["x.com".to_string()]);
    assert_eq!(input.from_email, "me@a.com");
    assert_eq!(input.hello_name, "a.com");
    assert_eq!(input.smtp_port, 587);
    assert_eq!(input.retries, 3);
    assert!(input.check_gravatar);
    assert_eq!(input.skipped_domains, vec!["x.com".to_string()]);
    input.proxy("h".to_string(), 1080);
    assert_eq!(
        input.proxy,
        Some(CheckEmailInputProxy {
            host: "h".to_string(),
            port: 1080,
            username: None,
            password: None
        })
    );
}

#[test]
fn verif_method_names() {
    assert!(matches!(YahooVerifMethod::parse("Api"), Ok(YahooVerifMethod::Api)));
    assert_eq!(
        YahooVerifMethod::parse("api").err(),
        Some("Unknown yahoo verify method: api".to_string())
    );
    assert!(matches!(GmailVerifMethod::parse("Smtp"), Ok(GmailVerifMethod::Smtp)));
    assert!(matches!(HotmailVerifMethod::parse("OneDriveApi"), Ok(HotmailVerifMethod::OneDriveApi)));
    assert!(HotmailVerifMethod::parse("Api").is_err());
}

#[test]
fn decimal_numbers() {
    assert_eq!(parse_u64("0"), Some(0));
    assert_eq!(parse_u64("+42"), Some(42));
    assert_eq!(parse_u64("18446744073709551615"), Some(u64::MAX));
    assert_eq!(parse_u64("18446744073709551616"), None);
    assert_eq!(parse_u64(""), None);
    assert_eq!(parse_u64("-1"), None);
    assert_eq!(parse_u64("1 "), None);
}

#[test]
fn email_input_builder() {
    let mut input = EmailInput::new("a@b.c".to_string());
    assert_eq!(input.from_email, "user@example.org");
    assert_eq!(input.hello_name, "localhost");
    input.from_email("me@x.y".to_string()).hello_name("x.y".to_string()).proxy("p".to_string(), 9050);
    assert_eq!(input.from_email, "me@x.y");
    assert_eq!(input.hello_name, "x.y");
    let p = input.proxy.unwrap();
    assert_eq!((p.host.as_str(), p.port), ("p", 9050));
}

#[test]
fn reacher_config_defaults() {
    let c = ReacherConfig::default();
    assert_eq!(c.backend_name, "backend-dev");
    assert_eq!(c.webdriver_addr, "http://localhost:9515");
}

#[test]
fn queue_names_round_trip() {
    for q in [
        Queue::SmtpGmail,
        Queue::SmtpYahoo,
        Queue::SmtpHotmailB2B,
        Queue::SmtpHotmailB2C,
        Queue::SmtpHotmailAll,
        Queue::SmtpAll,
        Queue::HeadlessYahoo,
        Queue::HeadlessHotmailB2C,
        Queue::HeadlessAll,
        Queue::All,
    ] {
        assert_eq!(Queue::from_name(&q.to_text()), Some(q));
    }
    assert_eq!(Queue::from_name("check.Smtp.outlook"), None);
}

#[test]
fn worker_verif_methods() {
    assert_eq!(
        parse_verif_methods("Api,Smtp"),
        Some(vec![WorkerVerifMethod::Api, WorkerVerifMethod::Smtp])
    );
    assert_eq!(parse_verif_methods("Api,,Smtp"), None);
    assert_eq!(parse_verif_methods("Headless"), Some(vec![WorkerVerifMethod::Headless]));
    assert_eq!(WorkerVerifMethod::Smtp.queue_name(), "check_email.Smtp");
    assert_eq!(split_on("a,,b", ','), vec!["a".to_string(), "".to_string(), "b".to_string()]);
    assert_eq!(split_on("", ','), vec!["".to_string()]);
}

fn limits(per_second: Option<u32>) -> ThrottleConfig {
    ThrottleConfig {
        max_requests_per_second: per_second,
        max_requests_per_minute: None,
        max_requests_per_hour: None,
        max_requests_per_day: None,
    }
}

#[test]
fn throttle_waits_for_the_rest_of_the_window() {
    let mut t = Throttle::new(0);
    let c = limits(Some(2));
    assert_eq!(worker_turn(&mut t, &c, 10), WorkerAction::Fetch);
    t.increment_counters();
    assert_eq!(worker_turn(&mut t, &c, 20), WorkerAction::Fetch);
    t.increment_counters();
    assert_eq!(worker_turn(&mut t, &c, 100), WorkerAction::Wait(SECOND_NANOS - 100));
    // A second later the window is reset.
    assert_eq!(worker_turn(&mut t, &c, SECOND_NANOS), WorkerAction::Fetch);
    assert_eq!(t.requests_per_second, 0);
    assert_eq!(t.requests_per_minute, 2);
}

#[test]
fn throttle_without_limits_never_waits() {
    let mut t = Throttle::new(5);
    for _ in 0..10 {
        t.increment_counters();
    }
    assert_eq!(t.should_throttle(&limits(None), 5), None);
    assert_eq!(t.should_throttle(&limits(Some(0)), 5), Some(SECOND_NANOS));
}

#[test]
fn proxy_credentials_need_both_parts() {
    let mut proxy = CheckEmailInputProxy {
        host: "h".to_string(),
        port: 1080,
        username: Some("u".to_string()),
        password: None,
    };
    assert_eq!(proxy.credentials(), None);
    proxy.password = Some("p".to_string());
    assert_eq!(proxy.credentials(), Some(("u".to_string(), "p".to_string())));
}
