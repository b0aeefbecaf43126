use check_if_email_exists::input_output::CheckEmailInputProxy;
use check_if_email_exists::verif_method::{
    EmailProvider, GmailVerifMethod, HotmailB2BVerifMethod, HotmailB2CVerifMethod, ProxyMap,
    VerifMethod, VerifMethodError, VerifMethodSmtpConfig, YahooVerifMethod,
};

#[test]
fn test_validate_proxies() {
    let mut proxies = ProxyMap::new();
    proxies.insert("proxy1".to_string(), CheckEmailInputProxy::default());
    proxies.insert("proxy2".to_string(), CheckEmailInputProxy::default());

    // Test invalid proxies.
    let verif_method = VerifMethod {
        proxies: proxies.clone(),
        gmail: GmailVerifMethod::Smtp(VerifMethodSmtpConfig {
            proxy: Some("proxy3".to_string()),
            ..Default::default()
        }),
        ..Default::default()
    };

    assert!(verif_method.validate_proxies().is_err());

    // Test valid proxies.
    let verif_method = VerifMethod {
        proxies,
        gmail: GmailVerifMethod::Smtp(VerifMethodSmtpConfig {
            proxy: Some("proxy1".to_string()),
            ..Default::default()
        }),
        hotmailb2b: HotmailB2BVerifMethod::Smtp(VerifMethodSmtpConfig {
            proxy: Some("proxy2".to_string()),
            ..Default::default()
        }),
        hotmailb2c: HotmailB2CVerifMethod::Smtp(VerifMethodSmtpConfig {
            proxy: Some("proxy1".to_string()),
            ..Default::default()
        }),
        yahoo: YahooVerifMethod::Smtp(VerifMethodSmtpConfig {
            proxy: Some("proxy2".to_string()),
            ..Default::default()
        }),
        ..Default::default()
    };

    assert!(verif_method.validate_proxies().is_ok());
}

#[test]
fn test_get_proxy() {
    let mut proxies = ProxyMap::new();
    proxies.insert("proxy1".to_string(), CheckEmailInputProxy::default());
    proxies.insert("proxy2".to_string(), CheckEmailInputProxy::default());

    let verif_method = VerifMethod {
        proxies: proxies.clone(),
        gmail: GmailVerifMethod::Smtp(VerifMethodSmtpConfig {
            proxy: Some("proxy1".to_string()),
            ..Default::default()
        }),
        hotmailb2b: HotmailB2BVerifMethod::Smtp(VerifMethodSmtpConfig {
            proxy: Some("proxy2".to_string()),
            ..Default::default()
        }),
        hotmailb2c: HotmailB2CVerifMethod::Smtp(VerifMethodSmtpConfig {
            proxy: Some("proxy1".to_string()),
            ..Default::default()
        }),
        yahoo: YahooVerifMethod::Smtp(VerifMethodSmtpConfig {
            proxy: Some("proxy2".to_string()),
            ..Default::default()
        }),
        ..Default::default()
    };

    assert_eq!(
        verif_method.get_proxy(EmailProvider::Gmail),
        Ok(proxies.get("proxy1"))
    );
    assert_eq!(
        verif_method.get_proxy(EmailProvider::HotmailB2B),
        Ok(proxies.get("proxy2"))
    );
    assert_eq!(
        verif_method.get_proxy(EmailProvider::HotmailB2C),
        Ok(proxies.get("proxy1"))
    );
    assert_eq!(
        verif_method.get_proxy(EmailProvider::Yahoo),
        Ok(proxies.get("proxy2"))
    );
    assert!(verif_method
        .get_proxy(EmailProvider::EverythingElse)
        .unwrap()
        .is_none());
}

#[test]
fn a_valid_configuration_resolves_every_named_proxy() {
    let mut proxies = ProxyMap::new();
    let p = CheckEmailInputProxy {
        host: "10.0.0.1".to_string(),
        port: 1080,
        username: None,
        password: None,
    };
    proxies.insert("eu".to_string(), p.clone());
    let verif_method = VerifMethod {
        proxies,
        gmail: GmailVerifMethod::Smtp(VerifMethodSmtpConfig {
            proxy: Some("eu".to_string()),
            ..Default::default()
        }),
        ..Default::default()
    };
    assert!(verif_method.validate_proxies().is_ok());
    assert_eq!(verif_method.get_proxy(EmailProvider::Gmail), Ok(Some(&p)));
}

#[test]
fn later_insert_replaces_a_proxy() {
    let mut proxies = ProxyMap::new();
    let p1 = CheckEmailInputProxy {
        host: "a".to_string(),
        port: 1,
        username: None,
        password: None,
    };
    let p2 = CheckEmailInputProxy {
        host: "b".to_string(),
        port: 2,
        username: None,
        password: None,
    };
    proxies.insert("x".to_string(), p1);
    proxies.insert("x".to_string(), p2.clone());
    assert_eq!(proxies.get("x"), Some(&p2));
    assert_eq!(proxies.get("y"), None);
}

#[test]
fn providers_from_mx_hosts() {
    assert_eq!(
        EmailProvider::from_mx_host("alt4.aspmx.l.google.com."),
        EmailProvider::Gmail
    );
    assert_eq!(
        EmailProvider::from_mx_host("mta5.am0.yahoodns.net."),
        EmailProvider::Yahoo
    );
    assert_eq!(
        EmailProvider::from_mx_host("hotmail-com.olc.protection.outlook.com."),
        EmailProvider::HotmailB2C
    );
    assert_eq!(
        EmailProvider::from_mx_host("acme-com.mail.protection.outlook.com."),
        EmailProvider::HotmailB2B
    );
    assert_eq!(
        EmailProvider::from_mx_host("mx.example.org."),
        EmailProvider::EverythingElse
    );
}

#[test]
fn an_unconfigured_proxy_is_an_error() {
    let verif_method = VerifMethod {
        gmail: GmailVerifMethod::Smtp(VerifMethodSmtpConfig {
            proxy: Some("proxy3".to_string()),
            ..Default::default()
        }),
        ..Default::default()
    };
    assert_eq!(
        verif_method.get_proxy(EmailProvider::Gmail),
        Err(VerifMethodError::InvalidProxies("Invalid Gmail proxy proxy3".to_string()))
    );
    assert_eq!(verif_method.get_proxy(EmailProvider::HotmailB2B), Ok(None));
}

#[test]
fn smtp_config_defaults() {
    let c = VerifMethodSmtpConfig::default();
    assert_eq!(c.from_email, "reacher.email@gmail.com");
    assert_eq!(c.hello_name, "gmail.com");
    assert!(c.proxy.is_none());
    assert_eq!(c.smtp_port, 25);
    assert!(c.smtp_timeout.is_none());
    assert_eq!(c.retries, 1);
}
