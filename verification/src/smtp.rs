//! The decisions of an SMTP verification: which method verifies a provider,
//! what a reply to `RCPT TO` says about the mailbox, and when to retry.

use vstd::prelude::*;
use crate::input_output::CheckEmailInputProxy;
use crate::outside::{is_ascii_alphanumeric, parse_email_address, random_alphanumeric, smtp_address_accepts, smtp_address_refuses};
use crate::parser::{disabled_account_spec, full_inbox_spec, invalid_spec, is_disabled_account, is_err_io_errors, is_full_inbox, is_invalid};
use crate::rules::{has_rule, domain_has_rule_spec, mx_has_rule_spec, AllRules, Rule};
use crate::smtp_error::{async_smtp_error_text, description_spec, AsyncSmtpError, SmtpError};
use crate::text::{seq_contains, str_contains, to_lowercase, unicode_lowercase};
use crate::verif_method::{
    invalid_proxy_message, provider_of_host, proxy_id_of, proxy_of, proxy_valid, EmailProvider,
    EverythingElseVerifMethod, GmailVerifMethod, HotmailB2BVerifMethod, HotmailB2CVerifMethod,
    VerifMethod, VerifMethodError, VerifMethodSmtp, VerifMethodSmtpConfig, YahooVerifMethod,
};

verus! {

/// Details that we gathered from connecting to this email via SMTP.
#[derive(Debug, Clone, Copy, PartialEq, Eq, Structural, Default)]
pub struct SmtpDetails {
    /// Are we able to connect to the SMTP server?
    pub can_connect_smtp: bool,
    /// Is this email account's inbox full?
    pub has_full_inbox: bool,
    /// Does this domain have a catch-all email address?
    pub is_catch_all: bool,
    /// Can we send an email to this address?
    pub is_deliverable: bool,
    /// Is the email blocked or disabled by the provider?
    pub is_disabled: bool,
}

/// The SMTP verification that was made: the host and the configuration.
#[derive(Debug)]
pub struct SmtpDebugVerifMethodSmtp {
    /// The host we connected to via SMTP.
    pub host: String,
    /// The configuration of the SMTP verification.
    pub verif_method: VerifMethodSmtpConfig,
}

/// How the email was verified.
#[derive(Debug)]
pub enum SmtpDebugVerifMethod {
    /// Email verification was done via SMTP.
    Smtp(SmtpDebugVerifMethodSmtp),
    /// Email verification was done via an HTTP API.
    Api,
    /// Email verification was done via a headless browser.
    Headless,
    /// Email verification was skipped.
    Skipped,
}

/// Debug information on how the SMTP verification went.
#[derive(Debug)]
pub struct SmtpDebug {
    /// The verification method used for the email.
    pub verif_method: SmtpDebugVerifMethod,
}

/// The deliverability information we can gather from communicating with the
/// SMTP server.
#[derive(Debug, Clone, Copy, PartialEq, Eq, Structural)]
pub struct Deliverability {
    /// Is this email account's inbox full?
    pub has_full_inbox: bool,
    /// Can we send an email to this address?
    pub is_deliverable: bool,
    /// Is the email blocked or disabled by the provider?
    pub is_disabled: bool,
}

/// What the reply to `RCPT TO` for `to_email` says about the mailbox: `Some`
/// when the reply is understood, `None` when it is an unparsable error.
pub open spec fn rcpt_reply_spec(reply: Result<(), AsyncSmtpError>, to_email: Seq<char>) -> Option<
    Deliverability,
> {
    match reply {
        Ok(()) => Some(Deliverability { has_full_inbox: false, is_deliverable: true, is_disabled: false }),
        Err(e) => {
            let t = unicode_lowercase(async_smtp_error_text(e));
            if disabled_account_spec(t) {
                Some(Deliverability { has_full_inbox: false, is_deliverable: false, is_disabled: true })
            } else if full_inbox_spec(t) {
                Some(Deliverability { has_full_inbox: true, is_deliverable: false, is_disabled: false })
            } else if seq_contains(
                t,
                "the user you are trying to contact is receiving mail at a rate that"@,
            ) {
                Some(Deliverability { has_full_inbox: false, is_deliverable: true, is_disabled: false })
            } else if invalid_spec(t, to_email) {
                Some(Deliverability { has_full_inbox: false, is_deliverable: false, is_disabled: false })
            } else {
                None
            }
        },
    }
}

/// The deliverability of `to_email`, from the outcome of the `RCPT TO`
/// command. A success means deliverable (RFC 5321 allows only 250 and 251);
/// an error reply is parsed; an error that cannot be parsed is returned.
pub fn check_email_deliverability(reply: Result<(), AsyncSmtpError>, to_email: &str) -> (r: Result<
    Deliverability,
    SmtpError,
>)
    ensures
        match rcpt_reply_spec(reply, to_email@) {
            Some(d) => r == Ok::<Deliverability, SmtpError>(d),
            None => r matches Err(SmtpError::AsyncSmtpError(e)) && reply == Err::<(), AsyncSmtpError>(
                e,
            ),
        },
{
    match reply {
        Ok(()) => Ok(Deliverability { has_full_inbox: false, is_deliverable: true, is_disabled: false }),
        Err(err) => {
            let text = err.to_text();
            let t = to_lowercase(text.as_str());
            if is_disabled_account(t.as_str()) {
                return Ok(
                    Deliverability { has_full_inbox: false, is_deliverable: false, is_disabled: true },
                );
            }
            if is_full_inbox(t.as_str()) {
                return Ok(
                    Deliverability { has_full_inbox: true, is_deliverable: false, is_disabled: false },
                );
            }
            if str_contains(
                t.as_str(),
                "the user you are trying to contact is receiving mail at a rate that",
            ) {
                return Ok(
                    Deliverability { has_full_inbox: false, is_deliverable: true, is_disabled: false },
                );
            }
            if is_invalid(t.as_str(), to_email) {
                return Ok(
                    Deliverability { has_full_inbox: false, is_deliverable: false, is_disabled: false },
                );
            }
            Err(SmtpError::AsyncSmtpError(err))
        },
    }
}

/// The reading of an error reply to `RCPT TO` depends only on its lower-cased
/// text, whatever the kind of error (transient 4xx, permanent 5xx, or
/// another): a disabled, discontinued or blocked account first, then a full
/// inbox, then a recipient receiving mail too fast (which means deliverable),
/// then an unknown mailbox; any other error is handed back unread. A success
/// means deliverable.
pub proof fn lemma_rcpt_reply_reading(e: AsyncSmtpError, e2: AsyncSmtpError, to_email: Seq<char>)
    ensures
        rcpt_reply_spec(Ok(()), to_email) == Some(
            Deliverability { has_full_inbox: false, is_deliverable: true, is_disabled: false },
        ),
        ({
            let t = unicode_lowercase(async_smtp_error_text(e));
            let r = rcpt_reply_spec(Err(e), to_email);
            &&& disabled_account_spec(t) ==> r == Some(
                Deliverability { has_full_inbox: false, is_deliverable: false, is_disabled: true },
            )
            &&& !disabled_account_spec(t) && full_inbox_spec(t) ==> r == Some(
                Deliverability { has_full_inbox: true, is_deliverable: false, is_disabled: false },
            )
            &&& !disabled_account_spec(t) && !full_inbox_spec(t) && seq_contains(
                t,
                "the user you are trying to contact is receiving mail at a rate that"@,
            ) ==> r == Some(
                Deliverability { has_full_inbox: false, is_deliverable: true, is_disabled: false },
            )
            &&& !disabled_account_spec(t) && !full_inbox_spec(t) && !seq_contains(
                t,
                "the user you are trying to contact is receiving mail at a rate that"@,
            ) && invalid_spec(t, to_email) ==> r == Some(
                Deliverability { has_full_inbox: false, is_deliverable: false, is_disabled: false },
            )
            &&& !disabled_account_spec(t) && !full_inbox_spec(t) && !seq_contains(
                t,
                "the user you are trying to contact is receiving mail at a rate that"@,
            ) && !invalid_spec(t, to_email) ==> r is None
        }),
        unicode_lowercase(async_smtp_error_text(e)) == unicode_lowercase(async_smtp_error_text(e2))
            ==> rcpt_reply_spec(Err(e), to_email) == rcpt_reply_spec(Err(e2), to_email),
{
}

/// The deliverability recorded when the domain is a catch-all: the address
/// is taken as deliverable.
pub fn catch_all_deliverability() -> (r: Deliverability)
    ensures
        r == (Deliverability { has_full_inbox: false, is_deliverable: true, is_disabled: false }),
{
    Deliverability { has_full_inbox: false, is_deliverable: true, is_disabled: false }
}

/// Some SMTP servers close the connection after an error; an `io:
/// incomplete` error means that the check must reconnect and try again.
pub fn needs_reconnect(result: &Result<Deliverability, SmtpError>) -> (r: bool)
    ensures
        r == (result matches Err(SmtpError::AsyncSmtpError(AsyncSmtpError::Io(m)))
            && m@ == "incomplete"@),
{
    match result {
        Err(e) => is_err_io_errors(e),
        Ok(_) => false,
    }
}

/// Whether the catch-all check is skipped for this domain and MX host.
pub fn skip_catch_all(all: &AllRules, domain: &str, host: &str) -> (r: bool)
    ensures
        r == (domain_has_rule_spec(*all, domain@, Rule::SkipCatchAll) || mx_has_rule_spec(
            *all,
            host@,
            Rule::SkipCatchAll,
        )),
{
    has_rule(all, domain, host, &Rule::SkipCatchAll)
}

/// The SMTP details of one connection: whether the domain is a catch-all,
/// and the deliverability of the address.
pub fn smtp_details_of(is_catch_all: bool, d: Deliverability) -> (r: SmtpDetails)
    ensures
        r == (SmtpDetails {
            can_connect_smtp: true,
            has_full_inbox: d.has_full_inbox,
            is_catch_all,
            is_deliverable: d.is_deliverable,
            is_disabled: d.is_disabled,
        }),
{
    SmtpDetails {
        can_connect_smtp: true,
        has_full_inbox: d.has_full_inbox,
        is_catch_all,
        is_deliverable: d.is_deliverable,
        is_disabled: d.is_disabled,
    }
}

/// The error is of a kind that is never retried: it comes from an HTTP API
/// or a headless browser, not from an SMTP connection.
pub open spec fn never_retried(e: SmtpError) -> bool {
    e is HeadlessError || e is YahooError || e is GmailError
}

/// Whether an attempt is retried, and with how many connections left:
/// only errors without a known description are retried, while more than one
/// connection is left.
pub open spec fn retry_spec(result: Result<SmtpDetails, SmtpError>, count: usize) -> Option<usize> {
    match result {
        Err(e) => if never_retried(e) {
            None
        } else if description_spec(e) is None && count > 1 {
            Some((count - 1) as usize)
        } else {
            None
        },
        Ok(_) => None,
    }
}

/// Decide whether to retry the SMTP connection after an attempt, in
/// particular to get past greylisting. `Some(n)` means: try again with `n`
/// connections left.
pub fn retry_decision(result: &Result<SmtpDetails, SmtpError>, count: usize) -> (r: Option<usize>)
    ensures
        r == retry_spec(*result, count),
{
    match result {
        Err(SmtpError::HeadlessError(_)) => None,
        Err(SmtpError::YahooError(_)) => None,
        Err(SmtpError::GmailError(_)) => None,
        Err(err) => {
            if err.get_description().is_none() {
                if count <= 1 {
                    None
                } else {
                    Some(count - 1)
                }
            } else {
                None
            }
        },
        Ok(_) => None,
    }
}

/// When an SMTP verification is tried again: never after a success, never
/// after an error of an HTTP API or a headless browser, never after an SMTP
/// error of a known kind (blacklisted IP, missing reverse DNS), and never
/// once a single connection is left; any other error (such as greylisting)
/// is tried again with one connection fewer.
pub proof fn lemma_retry_cases(result: Result<SmtpDetails, SmtpError>, count: usize)
    ensures
        result is Ok ==> retry_spec(result, count) is None,
        count <= 1 ==> retry_spec(result, count) is None,
        result matches Err(e) && (e is HeadlessError || e is YahooError || e is GmailError)
            ==> retry_spec(result, count) is None,
        result matches Err(e) && description_spec(e) is Some ==> retry_spec(result, count) is None,
        (result matches Err(e) && !(e is HeadlessError || e is YahooError || e is GmailError)
            && description_spec(e) is None && count > 1) ==> retry_spec(result, count) == Some(
            (count - 1) as usize,
        ),
{
}

/// A retry always has one connection fewer left, and only happens while more
/// than one is left: a verification makes at most `count` connections (at
/// least one).
pub proof fn lemma_retries_bounded(result: Result<SmtpDetails, SmtpError>, count: usize)
    ensures
        retry_spec(result, count) matches Some(n) ==> count > 1 && n == count - 1,
{
}

impl CheckEmailInputProxy {
    /// A copy of this proxy.
    pub fn duplicate(&self) -> (r: Self)
        ensures
            r == *self,
    {
        CheckEmailInputProxy {
            host: self.host.clone(),
            port: self.port,
            username: match &self.username {
                Some(u) => Some(u.clone()),
                None => None,
            },
            password: match &self.password {
                Some(p) => Some(p.clone()),
                None => None,
            },
        }
    }
}

impl VerifMethodSmtpConfig {
    /// A copy of this configuration.
    pub fn duplicate(&self) -> (r: Self)
        ensures
            r == *self,
    {
        VerifMethodSmtpConfig {
            from_email: self.from_email.clone(),
            hello_name: self.hello_name.clone(),
            proxy: match &self.proxy {
                Some(p) => Some(p.clone()),
                None => None,
            },
            smtp_port: self.smtp_port,
            smtp_timeout: self.smtp_timeout,
            retries: self.retries,
        }
    }
}

/// How an email is verified.
pub enum Verification {
    /// Hotmail B2C, through the password recovery page in a headless browser.
    HotmailHeadless,
    /// Yahoo, through its HTTP API.
    YahooApi,
    /// Yahoo, through the password recovery page in a headless browser.
    YahooHeadless,
    /// Over SMTP, with this method (configuration and resolved proxy).
    Smtp(VerifMethodSmtp),
}

/// The verification that a provider gets under a configuration.
pub open spec fn verification_spec(vm: VerifMethod, p: EmailProvider, v: Verification) -> bool {
    match p {
        EmailProvider::HotmailB2C => match vm.hotmailb2c {
            HotmailB2CVerifMethod::Headless => v is HotmailHeadless,
            HotmailB2CVerifMethod::Smtp(c) => v matches Verification::Smtp(m) && m.config == c
                && m.proxy == proxy_of(vm, p),
        },
        EmailProvider::Yahoo => match vm.yahoo {
            YahooVerifMethod::Api => v is YahooApi,
            YahooVerifMethod::Headless => v is YahooHeadless,
            YahooVerifMethod::Smtp(c) => v matches Verification::Smtp(m) && m.config == c && m.proxy
                == proxy_of(vm, p),
        },
        EmailProvider::Gmail => match vm.gmail {
            GmailVerifMethod::Smtp(c) => v matches Verification::Smtp(m) && m.config == c && m.proxy
                == proxy_of(vm, p),
        },
        EmailProvider::HotmailB2B => match vm.hotmailb2b {
            HotmailB2BVerifMethod::Smtp(c) => v matches Verification::Smtp(m) && m.config == c
                && m.proxy == proxy_of(vm, p),
        },
        EmailProvider::EverythingElse => match vm.everything_else {
            EverythingElseVerifMethod::Smtp(c) => v matches Verification::Smtp(m) && m.config == c
                && m.proxy == proxy_of(vm, p),
        },
    }
}

/// Choose how to verify an email whose MX host is `host`: the provider is
/// found from the host, and the configuration says which method it gets. A
/// method that names a proxy that is not configured is an error.
pub fn choose_verification(host: &str, vm: &VerifMethod) -> (r: Result<
    (EmailProvider, Verification),
    VerifMethodError,
>)
    ensures
        match r {
            Ok((p, v)) => p == provider_of_host(host@) && proxy_valid(*vm, p) && verification_spec(
                *vm,
                p,
                v,
            ),
            Err(VerifMethodError::InvalidProxies(m)) => !proxy_valid(*vm, provider_of_host(host@))
                && m@ == invalid_proxy_message(
                provider_of_host(host@),
                proxy_id_of(*vm, provider_of_host(host@)).unwrap(),
            ),
        },
{
    let provider = EmailProvider::from_mx_host(host);
    let config = match provider {
        EmailProvider::HotmailB2C => match &vm.hotmailb2c {
            HotmailB2CVerifMethod::Headless => {
                return Ok((provider, Verification::HotmailHeadless));
            },
            HotmailB2CVerifMethod::Smtp(c) => c,
        },
        EmailProvider::Yahoo => match &vm.yahoo {
            YahooVerifMethod::Api => {
                return Ok((provider, Verification::YahooApi));
            },
            YahooVerifMethod::Headless => {
                return Ok((provider, Verification::YahooHeadless));
            },
            YahooVerifMethod::Smtp(c) => c,
        },
        EmailProvider::Gmail => match &vm.gmail {
            GmailVerifMethod::Smtp(c) => c,
        },
        EmailProvider::HotmailB2B => match &vm.hotmailb2b {
            HotmailB2BVerifMethod::Smtp(c) => c,
        },
        EmailProvider::EverythingElse => match &vm.everything_else {
            EverythingElseVerifMethod::Smtp(c) => c,
        },
    };
    let proxy = match vm.get_proxy(provider) {
        Ok(Some(p)) => Some(p.duplicate()),
        Ok(None) => None,
        Err(e) => {
            return Err(e);
        },
    };
    Ok((provider, Verification::Smtp(VerifMethodSmtp::new(config.duplicate(), proxy))))
}

/// The debug record of a verification made over SMTP on `host`.
pub fn smtp_debug_for(host: String, config: &VerifMethodSmtpConfig) -> (r: SmtpDebug)
    ensures
        r.verif_method matches SmtpDebugVerifMethod::Smtp(s) && s.host == host && s.verif_method
            == *config,
{
    SmtpDebug {
        verif_method: SmtpDebugVerifMethod::Smtp(
            SmtpDebugVerifMethodSmtp { host, verif_method: config.duplicate() },
        ),
    }
}

/// The address `local@domain`, when the SMTP client accepts it.
pub fn probe_address_from(local: &str, domain: &str) -> (r: Option<String>)
    ensures
        r is Some <==> smtp_address_accepts(local@ + "@"@ + domain@),
        r matches Some(a) ==> a@ == local@ + "@"@ + domain@,
{
    let s = String::from_str(local).concat("@").concat(domain);
    parse_email_address(s.as_str())
}

/// The address probed to detect a catch-all domain: fifteen random ASCII
/// letters and digits, `@`, and the domain. `None` when the SMTP client
/// refuses it, which happens exactly when the domain holds a character that
/// it refuses.
pub fn catch_all_probe_address(domain: &str) -> (r: Option<String>)
    ensures
        r is Some <==> smtp_address_accepts(domain@),
        r matches Some(a) ==> a@.len() == 16 + domain@.len() && a@[15] == '@' && a@.subrange(
            16,
            a@.len() as int,
        ) == domain@ && forall|i: int| 0 <= i < 15 ==> is_ascii_alphanumeric(#[trigger] a@[i]),
{
    let local = random_alphanumeric(15);
    let r = probe_address_from(local.as_str(), domain);
    proof {
        let s = local@ + "@"@ + domain@;
        reveal_strlit("@");
        assert(s.len() == 16 + domain@.len());
        assert(s.subrange(16, s.len() as int) =~= domain@);
        assert forall|i: int| 0 <= i < 15 implies is_ascii_alphanumeric(#[trigger] s[i]) by {
            assert(s[i] == local@[i]);
        }
        assert(smtp_address_accepts(s) <==> smtp_address_accepts(domain@)) by {
            if smtp_address_accepts(domain@) {
                assert forall|i: int| 0 <= i < s.len() implies !smtp_address_refuses(
                    #[trigger] s[i],
                ) by {
                    if i < 15 {
                        assert(is_ascii_alphanumeric(local@[i]));
                    } else if i > 15 {
                        assert(s[i] == domain@[i - 16]);
                    }
                }
            }
            if smtp_address_accepts(s) {
                assert forall|i: int| 0 <= i < domain@.len() implies !smtp_address_refuses(
                    #[trigger] domain@[i],
                ) by {
                    assert(s[i + 16] == domain@[i]);
                }
            }
        }
    }
    r
}

/// `host` without its trailing dots, as `str::trim_end_matches('.')` gives
/// it: an MX host name is fully qualified, and the connection wants it
/// without the final dot.
pub open spec fn without_trailing_dots(host: Seq<char>) -> Seq<char>
    decreases host.len(),
{
    if host.len() > 0 && host.last() == '.' {
        without_trailing_dots(host.drop_last())
    } else {
        host
    }
}

/// The host name to connect to.
pub fn clean_host(host: &str) -> (r: String)
    ensures
        r@ == without_trailing_dots(host@),
{
    let v = crate::text::chars_of(host);
    let mut end = v.len();
    assert(v@.subrange(0, end as int) =~= v@);
    while end > 0 && v[end - 1] == '.'
        invariant
            end <= v@.len(),
            without_trailing_dots(v@) == without_trailing_dots(v@.subrange(0, end as int)),
        decreases end,
    {
        assert(v@.subrange(0, end as int).drop_last() =~= v@.subrange(0, end - 1));
        end -= 1;
    }
    crate::text::string_of_range(&v, 0, end)
}

} // verus!
