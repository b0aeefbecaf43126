//! The input of the simple email check: address, sender and
//! greeting name, and an optional proxy.

use vstd::prelude::*;

verus! {

/// Perform the email verification via a specified proxy.
#[derive(Debug, Clone)]
pub struct EmailInputProxy {
    /// Use the specified SOCKS5 proxy host to perform email verification.
    pub host: String,
    /// Use the specified SOCKS5 proxy port to perform email verification.
    pub port: u16,
}

/// Builder pattern for the input argument of the email check.
#[derive(Debug, Clone)]
pub struct EmailInput {
    /// The email to validate.
    pub to_email: String,
    /// Email to use in the `MAIL FROM:` SMTP command. Defaults to
    /// "user@example.org".
    pub from_email: String,
    /// Name to use in the `EHLO:` SMTP command. Defaults to "localhost".
    pub hello_name: String,
    /// Perform the email verification via a specified proxy.
    pub proxy: Option<EmailInputProxy>,
}

impl EmailInput {
    /// Create a new EmailInput.
    pub fn new(email: String) -> (r: EmailInput)
        ensures
            r.to_email == email,
            r.from_email@ == "user@example.org"@,
            r.hello_name@ == "localhost"@,
            r.proxy is None,
    {
        EmailInput {
            to_email: email,
            from_email: String::from_str("user@example.org"),
            hello_name: String::from_str("localhost"),
            proxy: None,
        }
    }

    /// Set the email to use in the `MAIL FROM:` SMTP command.
    pub fn from_email(&mut self, email: String) -> (r: &mut EmailInput)
        ensures
            *final(self) == *final(r),
            *r == (EmailInput { from_email: email, ..*old(self) }),
    {
        self.from_email = email;
        self
    }

    /// Set the name to use in the `EHLO:` SMTP command.
    pub fn hello_name(&mut self, name: String) -> (r: &mut EmailInput)
        ensures
            *final(self) == *final(r),
            *r == (EmailInput { hello_name: name, ..*old(self) }),
    {
        self.hello_name = name;
        self
    }

    /// Use the specified proxy to perform email verification.
    pub fn proxy(&mut self, proxy_host: String, proxy_port: u16) -> (r: &mut EmailInput)
        ensures
            *final(self) == *final(r),
            r.proxy matches Some(p) && p.host == proxy_host && p.port == proxy_port,
            *r == (EmailInput { proxy: r.proxy, ..*old(self) }),
    {
        self.proxy = Some(EmailInputProxy { host: proxy_host, port: proxy_port });
        self
    }
}

} // verus!
