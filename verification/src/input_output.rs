//! The input of an email verification: the address to check, and how to
//! check it.

use vstd::prelude::*;
use std::time::Duration;
use crate::text::{chars_of, str_eq};

verus! {

/// Perform the email verification via a specified proxy. The usage of a proxy
/// is optional.
#[derive(Debug, Clone, PartialEq)]
pub struct CheckEmailInputProxy {
    /// Use the specified SOCKS5 proxy host to perform email verification.
    pub host: String,
    /// Use the specified SOCKS5 proxy port to perform email verification.
    pub port: u16,
    /// Username to pass to proxy authentication.
    pub username: Option<String>,
    /// Password to pass to proxy authentication.
    pub password: Option<String>,
}

impl Default for CheckEmailInputProxy {
    fn default() -> (r: Self)
        ensures
            r.host@ == Seq::<char>::empty(),
            r.port == 0,
            r.username is None,
            r.password is None,
    {
        CheckEmailInputProxy { host: String::new(), port: 0, username: None, password: None }
    }
}

impl CheckEmailInputProxy {
    /// The username and password to authenticate with at the proxy: only
    /// when both are given; otherwise the proxy is used without
    /// authentication.
    pub fn credentials(&self) -> (r: Option<(String, String)>)
        ensures
            match r {
                Some((u, p)) => self.username matches Some(u0) && self.password matches Some(p0)
                    && u@ == u0@ && p@ == p0@,
                None => self.username is None || self.password is None,
            },
    {
        match (&self.username, &self.password) {
            (Some(u), Some(p)) => Some((u.clone(), p.clone())),
            _ => None,
        }
    }
}

/// What `Duration::from_secs` gives for a number of seconds.
pub uninterp spec fn duration_of_secs(secs: u64) -> Duration;

/// `std::time::Duration::from_secs`.
#[verifier::external_body]
pub(crate) fn secs_to_duration(secs: u64) -> (d: Duration)
    ensures
        d == duration_of_secs(secs),
{
    Duration::from_secs(secs)
}

/// Define how to apply TLS to a SMTP client connection.
#[derive(Debug, Clone, Copy, PartialEq, Eq, Structural)]
pub enum SmtpSecurity {
    /// Insecure connection only (for testing purposes). Named `None` in the
    /// serialized form.
    Insecure,
    /// Start with insecure connection and use `STARTTLS` when available.
    Opportunistic,
    /// Start with insecure connection and require `STARTTLS`.
    Required,
    /// Use TLS wrapped connection.
    Wrapper,
}

impl Default for SmtpSecurity {
    fn default() -> (r: Self)
        ensures
            r == SmtpSecurity::Opportunistic,
    {
        SmtpSecurity::Opportunistic
    }
}

/// Select how to verify Yahoo emails.
#[derive(Debug, Clone, Copy, PartialEq, Eq, Structural)]
pub enum YahooVerifMethod {
    /// Use Yahoo's API to check if an email exists.
    Api,
    /// Use Yahoo's password recovery page, through a WebDriver.
    Headless,
    /// Use Yahoo's SMTP servers to check if an email exists.
    Smtp,
}

/// Select how to verify Gmail emails.
#[derive(Debug, Clone, Copy, PartialEq, Eq, Structural)]
pub enum GmailVerifMethod {
    /// Use Gmail's API to check if an email exists.
    Api,
    /// Use Gmail's SMTP servers to check if an email exists.
    Smtp,
}

/// Select how to verify Hotmail emails.
#[derive(Debug, Clone, Copy, PartialEq, Eq, Structural)]
pub enum HotmailVerifMethod {
    /// Use OneDrive API to check if an email exists.
    OneDriveApi,
    /// Use Hotmail's password recovery page, through a WebDriver.
    Headless,
    /// Use Hotmail's SMTP servers to check if an email exists.
    Smtp,
}

/// The name of a Yahoo verification method.
pub open spec fn yahoo_method_of(s: Seq<char>) -> Option<YahooVerifMethod> {
    if s == "Api"@ {
        Some(YahooVerifMethod::Api)
    } else if s == "Headless"@ {
        Some(YahooVerifMethod::Headless)
    } else if s == "Smtp"@ {
        Some(YahooVerifMethod::Smtp)
    } else {
        None
    }
}

/// The name of a Gmail verification method.
pub open spec fn gmail_method_of(s: Seq<char>) -> Option<GmailVerifMethod> {
    if s == "Api"@ {
        Some(GmailVerifMethod::Api)
    } else if s == "Smtp"@ {
        Some(GmailVerifMethod::Smtp)
    } else {
        None
    }
}

/// The name of a Hotmail verification method.
pub open spec fn hotmail_method_of(s: Seq<char>) -> Option<HotmailVerifMethod> {
    if s == "OneDriveApi"@ {
        Some(HotmailVerifMethod::OneDriveApi)
    } else if s == "Headless"@ {
        Some(HotmailVerifMethod::Headless)
    } else if s == "Smtp"@ {
        Some(HotmailVerifMethod::Smtp)
    } else {
        None
    }
}

impl YahooVerifMethod {
    /// Parse a method name: "Api", "Headless" or "Smtp".
    pub fn parse(s: &str) -> (r: Result<Self, String>)
        ensures
            match r {
                Ok(m) => yahoo_method_of(s@) == Some(m),
                Err(e) => yahoo_method_of(s@) is None && e@ == "Unknown yahoo verify method: "@ + s@,
            },
    {
        if str_eq(s, "Api") {
            Ok(YahooVerifMethod::Api)
        } else if str_eq(s, "Headless") {
            Ok(YahooVerifMethod::Headless)
        } else if str_eq(s, "Smtp") {
            Ok(YahooVerifMethod::Smtp)
        } else {
            Err(String::from_str("Unknown yahoo verify method: ").concat(s))
        }
    }
}

impl GmailVerifMethod {
    /// Parse a method name: "Api" or "Smtp".
    pub fn parse(s: &str) -> (r: Result<Self, String>)
        ensures
            match r {
                Ok(m) => gmail_method_of(s@) == Some(m),
                Err(e) => gmail_method_of(s@) is None && e@ == "Unknown gmail verify method: "@ + s@,
            },
    {
        if str_eq(s, "Api") {
            Ok(GmailVerifMethod::Api)
        } else if str_eq(s, "Smtp") {
            Ok(GmailVerifMethod::Smtp)
        } else {
            Err(String::from_str("Unknown gmail verify method: ").concat(s))
        }
    }
}

impl HotmailVerifMethod {
    /// Parse a method name: "OneDriveApi", "Headless" or "Smtp".
    pub fn parse(s: &str) -> (r: Result<Self, String>)
        ensures
            match r {
                Ok(m) => hotmail_method_of(s@) == Some(m),
                Err(e) => hotmail_method_of(s@) is None && e@ == "Unknown hotmail verify method: "@
                    + s@,
            },
    {
        if str_eq(s, "OneDriveApi") {
            Ok(HotmailVerifMethod::OneDriveApi)
        } else if str_eq(s, "Headless") {
            Ok(HotmailVerifMethod::Headless)
        } else if str_eq(s, "Smtp") {
            Ok(HotmailVerifMethod::Smtp)
        } else {
            Err(String::from_str("Unknown hotmail verify method: ").concat(s))
        }
    }
}

impl std::str::FromStr for YahooVerifMethod {
    type Err = String;

    fn from_str(s: &str) -> (r: Result<Self, Self::Err>)
        ensures
            match r {
                Ok(m) => yahoo_method_of(s@) == Some(m),
                Err(e) => yahoo_method_of(s@) is None && e@ == "Unknown yahoo verify method: "@ + s@,
            },
    {
        Self::parse(s)
    }
}

impl std::str::FromStr for GmailVerifMethod {
    type Err = String;

    fn from_str(s: &str) -> (r: Result<Self, Self::Err>)
        ensures
            match r {
                Ok(m) => gmail_method_of(s@) == Some(m),
                Err(e) => gmail_method_of(s@) is None && e@ == "Unknown gmail verify method: "@ + s@,
            },
    {
        Self::parse(s)
    }
}

impl std::str::FromStr for HotmailVerifMethod {
    type Err = String;

    fn from_str(s: &str) -> (r: Result<Self, Self::Err>)
        ensures
            match r {
                Ok(m) => hotmail_method_of(s@) == Some(m),
                Err(e) => hotmail_method_of(s@) is None && e@ == "Unknown hotmail verify method: "@ + s@,
            },
    {
        Self::parse(s)
    }
}

/// The value of a string of decimal digits.
pub open spec fn decimal_value(digits: Seq<char>) -> nat
    decreases digits.len(),
{
    if digits.len() == 0 {
        0
    } else {
        decimal_value(digits.drop_last()) * 10 + ((digits.last() as u32) - ('0' as u32)) as nat
    }
}

/// Every character is an ASCII digit.
pub open spec fn all_digits(s: Seq<char>) -> bool {
    forall|i: int| 0 <= i < s.len() ==> '0' <= #[trigger] s[i] && s[i] <= '9'
}

/// What `u64::from_str` accepts: an optional `+`, then at least one ASCII
/// digit, for a value that fits in 64 bits.
pub open spec fn parse_u64_spec(s: Seq<char>) -> Option<u64> {
    let digits = if s.len() > 0 && s[0] == '+' {
        s.drop_first()
    } else {
        s
    };
    if digits.len() > 0 && all_digits(digits) && decimal_value(digits) <= u64::MAX {
        Some(decimal_value(digits) as u64)
    } else {
        None
    }
}

proof fn lemma_decimal_value_grows(digits: Seq<char>, n: int)
    requires
        0 <= n <= digits.len(),
        all_digits(digits),
    ensures
        decimal_value(digits.subrange(0, n)) <= decimal_value(digits),
    decreases digits.len() - n,
{
    if n < digits.len() {
        lemma_decimal_value_grows(digits, n + 1);
        assert(digits.subrange(0, n + 1).drop_last() =~= digits.subrange(0, n));
    } else {
        assert(digits.subrange(0, n) =~= digits);
    }
}

/// Parse an unsigned decimal number, as `u64::from_str` does.
pub fn parse_u64(s: &str) -> (r: Option<u64>)
    ensures
        r == parse_u64_spec(s@),
{
    let v = chars_of(s);
    let start: usize = if v.len() > 0 && v[0] == '+' {
        1
    } else {
        0
    };
    let ghost digits = if s@.len() > 0 && s@[0] == '+' {
        s@.drop_first()
    } else {
        s@
    };
    assert(digits =~= v@.subrange(start as int, v@.len() as int));
    if start == v.len() {
        return None;
    }
    let mut acc: u64 = 0;
    let mut i: usize = start;
    while i < v.len()
        invariant
            start <= i <= v@.len(),
            v@ == s@,
            digits == (if s@.len() > 0 && s@[0] == '+' {
                s@.drop_first()
            } else {
                s@
            }),
            digits == v@.subrange(start as int, v@.len() as int),
            all_digits(v@.subrange(start as int, i as int)),
            acc as nat == decimal_value(v@.subrange(start as int, i as int)),
        decreases v@.len() - i,
    {
        let c = v[i];
        if !('0' <= c && c <= '9') {
            assert(digits[i - start] == c);
            assert(!all_digits(digits));
            return None;
        }
        let d = (c as u32 - '0' as u32) as u64;
        assert(v@.subrange(start as int, i + 1).drop_last() =~= v@.subrange(start as int, i as int));
        assert(decimal_value(v@.subrange(start as int, i + 1)) == acc * 10 + d);
        if acc > (u64::MAX - d) / 10 {
            proof {
                assert(acc * 10 + d > u64::MAX) by (nonlinear_arith)
                    requires
                        acc > (u64::MAX - d) / 10,
                        d <= 9,
                ;
                if all_digits(digits) {
                    lemma_decimal_value_grows(digits, i + 1 - start);
                    assert(digits.subrange(0, i + 1 - start) =~= v@.subrange(start as int, i + 1));
                }
            }
            return None;
        }
        proof {
            assert(acc * 10 + d <= u64::MAX) by (nonlinear_arith)
                requires
                    acc <= (u64::MAX - d) / 10,
                    d <= 9,
            ;
        }
        acc = acc * 10 + d;
        i += 1;
        assert(all_digits(v@.subrange(start as int, i as int)));
    }
    Some(acc)
}

/// Builder pattern for the input argument into the main email verification
/// function.
#[derive(Debug, Clone)]
pub struct CheckEmailInput {
    /// The email to validate.
    pub to_email: String,
    /// Email to use in the `MAIL FROM:` SMTP command.
    pub from_email: String,
    /// Name to use in the `EHLO:` SMTP command.
    pub hello_name: String,
    /// Perform the email verification via the specified SOCKS5 proxy.
    pub proxy: Option<CheckEmailInputProxy>,
    /// SMTP port to use for email validation.
    pub smtp_port: u16,
    /// Timeout of each SMTP verification step; None for no timeout.
    pub smtp_timeout: Option<Duration>,
    /// Select how to verify Yahoo emails.
    pub yahoo_verif_method: YahooVerifMethod,
    /// Select how to verify Gmail addresses.
    pub gmail_verif_method: GmailVerifMethod,
    /// Select how to verify Hotmail/Outlook/Microsoft email addresses.
    pub hotmail_verif_method: HotmailVerifMethod,
    /// Whether to check if a gravatar image is existing for the given email.
    pub check_gravatar: bool,
    /// If set, the HaveIBeenPwned API is queried with this key.
    pub haveibeenpwned_api_key: Option<String>,
    /// Number of SMTP connections to make.
    pub retries: usize,
    /// How to apply TLS to a SMTP client connection.
    pub smtp_security: SmtpSecurity,
    /// List of MX substrings for which the SMTP connection is skipped.
    /// Defaults to a list holding one empty string.
    pub skipped_domains: Vec<String>,
}

/// The default settings of an input (all fields but the address), given the
/// values of the environment variables `RCH_FROM_EMAIL`, `RCH_HELLO_NAME` and
/// `RCH_SMTP_TIMEOUT` (None when one is not set).
pub open spec fn default_input_spec(
    r: CheckEmailInput,
    from_email_env: Option<Seq<char>>,
    hello_name_env: Option<Seq<char>>,
    smtp_timeout_env: Option<Seq<char>>,
) -> bool {
    &&& r.from_email@ == match from_email_env {
        Some(e) => e,
        None => "reacher.email@gmail.com"@,
    }
    &&& r.hello_name@ == match hello_name_env {
        Some(n) => n,
        None => "gmail.com"@,
    }
    &&& r.proxy is None
    &&& r.smtp_port == 25
    &&& r.smtp_security == SmtpSecurity::Opportunistic
    &&& r.smtp_timeout == Some(
        duration_of_secs(
            match smtp_timeout_env {
                Some(t) => match parse_u64_spec(t) {
                    Some(n) => n,
                    None => 30u64,
                },
                None => 30u64,
            },
        ),
    )
    &&& r.yahoo_verif_method == YahooVerifMethod::Headless
    &&& r.gmail_verif_method == GmailVerifMethod::Smtp
    &&& r.hotmail_verif_method == HotmailVerifMethod::Headless
    &&& !r.check_gravatar
    &&& r.haveibeenpwned_api_key is None
    &&& r.retries == 1
    &&& r.skipped_domains@.len() == 1
    &&& r.skipped_domains@[0]@ == Seq::<char>::empty()
}

impl CheckEmailInput {
    /// The default input, given the values of the environment variables
    /// `RCH_FROM_EMAIL`, `RCH_HELLO_NAME` and `RCH_SMTP_TIMEOUT`. A timeout that
    /// is not a number of seconds is ignored.
    pub fn default_from_env(
        from_email_env: Option<String>,
        hello_name_env: Option<String>,
        smtp_timeout_env: Option<String>,
    ) -> (r: CheckEmailInput)
        ensures
            r.to_email@ == Seq::<char>::empty(),
            default_input_spec(
                r,
                match from_email_env {
                    Some(e) => Some(e@),
                    None => None,
                },
                match hello_name_env {
                    Some(e) => Some(e@),
                    None => None,
                },
                match smtp_timeout_env {
                    Some(e) => Some(e@),
                    None => None,
                },
            ),
    {
        let from_email = match from_email_env {
            Some(e) => e,
            None => String::from_str("reacher.email@gmail.com"),
        };
        let hello_name = match hello_name_env {
            Some(n) => n,
            None => String::from_str("gmail.com"),
        };
        let secs = match &smtp_timeout_env {
            Some(t) => match parse_u64(t.as_str()) {
                Some(n) => n,
                None => 30,
            },
            None => 30,
        };
        CheckEmailInput {
            to_email: String::new(),
            from_email,
            hello_name,
            proxy: None,
            smtp_port: 25,
            smtp_security: SmtpSecurity::default(),
            smtp_timeout: Some(secs_to_duration(secs)),
            yahoo_verif_method: YahooVerifMethod::Headless,
            gmail_verif_method: GmailVerifMethod::Smtp,
            hotmail_verif_method: HotmailVerifMethod::Headless,
            check_gravatar: false,
            haveibeenpwned_api_key: None,
            retries: 1,
            skipped_domains: vec![String::new()],
        }
    }

    /// Create a new CheckEmailInput for `to_email`, with the defaults that
    /// apply when none of the environment variables is set.
    pub fn new(to_email: String) -> (r: CheckEmailInput)
        ensures
            default_input_spec(r, None, None, None),
            r.to_email == to_email,
    {
        let d = CheckEmailInput::default_from_env(None, None, None);
        CheckEmailInput { to_email, ..d }
    }

    /// Use the specified SOCKS5 proxy, without authentication, to perform
    /// email verification. Deprecated: use `set_proxy`.
    pub fn proxy(&mut self, proxy_host: String, proxy_port: u16) -> (r: &mut CheckEmailInput)
        ensures
            *final(self) == *final(r),
            r.proxy matches Some(p) && p.host == proxy_host && p.port == proxy_port
                && p.username is None && p.password is None,
            *r == (CheckEmailInput { proxy: r.proxy, ..*old(self) }),
    {
        self.proxy = Some(
            CheckEmailInputProxy { host: proxy_host, port: proxy_port, username: None, password: None },
        );
        self
    }

    /// Use the specified SOCKS5 proxy to perform email verification.
    pub fn set_proxy(&mut self, proxy: CheckEmailInputProxy) -> (r: &mut CheckEmailInput)
        ensures
            *final(self) == *final(r),
            *r == (CheckEmailInput { proxy: Some(proxy), ..*old(self) }),
    {
        self.proxy = Some(proxy);
        self
    }

    /// Add a timeout for the SMTP verification step. Deprecated: use
    /// `set_smtp_timeout`.
    pub fn smtp_timeout(&mut self, duration: Duration) -> (r: &mut CheckEmailInput)
        ensures
            *final(self) == *final(r),
            *r == (CheckEmailInput { smtp_timeout: Some(duration), ..*old(self) }),
    {
        self.smtp_timeout = Some(duration);
        self
    }

    /// Set the email to use in the `MAIL FROM:` SMTP command.
    pub fn set_from_email(&mut self, email: String) -> (r: &mut CheckEmailInput)
        ensures
            *final(self) == *final(r),
            *r == (CheckEmailInput { from_email: email, ..*old(self) }),
    {
        self.from_email = email;
        self
    }

    /// Set the name to use in the `EHLO:` SMTP command.
    pub fn set_hello_name(&mut self, name: String) -> (r: &mut CheckEmailInput)
        ensures
            *final(self) == *final(r),
            *r == (CheckEmailInput { hello_name: name, ..*old(self) }),
    {
        self.hello_name = name;
        self
    }

    /// Set the number of SMTP retries to do.
    pub fn set_retries(&mut self, retries: usize) -> (r: &mut CheckEmailInput)
        ensures
            *final(self) == *final(r),
            *r == (CheckEmailInput { retries: retries, ..*old(self) }),
    {
        self.retries = retries;
        self
    }

    /// Change the SMTP port.
    pub fn set_smtp_port(&mut self, port: u16) -> (r: &mut CheckEmailInput)
        ensures
            *final(self) == *final(r),
            *r == (CheckEmailInput { smtp_port: port, ..*old(self) }),
    {
        self.smtp_port = port;
        self
    }

    /// Set the SMTP client security to use for TLS.
    pub fn set_smtp_security(&mut self, smtp_security: SmtpSecurity) -> (r: &mut CheckEmailInput)
        ensures
            *final(self) == *final(r),
            *r == (CheckEmailInput { smtp_security: smtp_security, ..*old(self) }),
    {
        self.smtp_security = smtp_security;
        self
    }

    /// Set the timeout of _each_ SMTP connection attempt (None: no timeout).
    pub fn set_smtp_timeout(&mut self, duration: Option<Duration>) -> (r: &mut CheckEmailInput)
        ensures
            *final(self) == *final(r),
            *r == (CheckEmailInput { smtp_timeout: duration, ..*old(self) }),
    {
        self.smtp_timeout = duration;
        self
    }

    /// Set how Yahoo addresses are verified.
    pub fn set_yahoo_verif_method(&mut self, verif_method: YahooVerifMethod) -> (r: &mut CheckEmailInput)
        ensures
            *final(self) == *final(r),
            *r == (CheckEmailInput { yahoo_verif_method: verif_method, ..*old(self) }),
    {
        self.yahoo_verif_method = verif_method;
        self
    }

    /// Set how Gmail addresses are verified.
    pub fn set_gmail_verif_method(&mut self, verif_method: GmailVerifMethod) -> (r: &mut CheckEmailInput)
        ensures
            *final(self) == *final(r),
            *r == (CheckEmailInput { gmail_verif_method: verif_method, ..*old(self) }),
    {
        self.gmail_verif_method = verif_method;
        self
    }

    /// Set how Hotmail/Outlook/Microsoft addresses are verified.
    pub fn set_hotmail_verif_method(&mut self, verif_method: HotmailVerifMethod) -> (r: &mut CheckEmailInput)
        ensures
            *final(self) == *final(r),
            *r == (CheckEmailInput { hotmail_verif_method: verif_method, ..*old(self) }),
    {
        self.hotmail_verif_method = verif_method;
        self
    }

    /// Whether to check if a gravatar image exists for the given email.
    pub fn set_check_gravatar(&mut self, check_gravatar: bool) -> (r: &mut CheckEmailInput)
        ensures
            *final(self) == *final(r),
            *r == (CheckEmailInput { check_gravatar: check_gravatar, ..*old(self) }),
    {
        self.check_gravatar = check_gravatar;
        self
    }

    /// Set the HaveIBeenPwned API key; the API is only queried when it is set.
    pub fn set_haveibeenpwned_api_key(&mut self, api_key: Option<String>) -> (r: &mut CheckEmailInput)
        ensures
            *final(self) == *final(r),
            *r == (CheckEmailInput { haveibeenpwned_api_key: api_key, ..*old(self) }),
    {
        self.haveibeenpwned_api_key = api_key;
        self
    }

    /// Set the list of MX substrings for which the SMTP verification is skipped.
    pub fn set_skipped_domains(&mut self, domains: Vec<String>) -> (r: &mut CheckEmailInput)
        ensures
            *final(self) == *final(r),
            *r == (CheckEmailInput { skipped_domains: domains, ..*old(self) }),
    {
        self.skipped_domains = domains;
        self
    }

    /// Set the email to use in the `MAIL FROM:` SMTP command. Deprecated:
    /// use `set_from_email`.
    pub fn from_email(&mut self, email: String) -> (r: &mut CheckEmailInput)
        ensures
            *final(self) == *final(r),
            *r == (CheckEmailInput { from_email: email, ..*old(self) }),
    {
        self.from_email = email;
        self
    }

    /// Set the name to use in the `EHLO:` SMTP command. Deprecated: use
    /// `set_hello_name`.
    pub fn hello_name(&mut self, name: String) -> (r: &mut CheckEmailInput)
        ensures
            *final(self) == *final(r),
            *r == (CheckEmailInput { hello_name: name, ..*old(self) }),
    {
        self.hello_name = name;
        self
    }
}

/// An enum to describe how confident we are that the recipient address is
/// real.
#[derive(Debug, Clone, Copy, PartialEq, Eq, Structural)]
pub enum Reachable {
    /// The email is safe to send.
    Safe,
    /// The email address appears to exist, but has quality issues that may
    /// result in low engagement or a bounce: catch-all, disposable,
    /// role-based address or full inbox.
    Risky,
    /// Emails that don't exist or are syntactically incorrect.
    Invalid,
    /// We're unable to get a valid response from the recipient's email server.
    Unknown,
}

} // verus!
