//! Errors met while verifying an email address over SMTP, held as the plain
//! values that the decision logic reads.

use vstd::prelude::*;
use std::time::Duration;
use crate::parser::{is_err_ip_blacklisted, is_err_needs_rdns, ip_blacklisted_spec, needs_rdns_spec};

verus! {

/// An error of the SMTP client, as the logic reads it: the reply lines of a
/// transient (4xx) or permanent (5xx) reply, the message of an I/O error, or
/// the text of any other client error.
#[derive(Debug)]
pub enum AsyncSmtpError {
    /// Transient SMTP error, 4xx reply code, with the reply's lines.
    Transient(Vec<String>),
    /// Permanent SMTP error, 5xx reply code, with the reply's lines.
    Permanent(Vec<String>),
    /// I/O error, with its message.
    Io(String),
    /// Any other client error, with its text.
    Other(String),
}

/// Error occurred connecting to this email server via SMTP.
#[derive(Debug)]
pub enum SmtpError {
    /// Error when verifying a Yahoo email via HTTP requests.
    YahooError(String),
    /// Error when verifying a Gmail email via a HTTP request.
    GmailError(String),
    /// Error when verifying a Hotmail email via headless browser.
    HeadlessError(String),
    /// Error when verifying a Microsoft 365 email via HTTP request.
    Microsoft365Error(String),
    /// Error from the SMTP client.
    AsyncSmtpError(AsyncSmtpError),
    /// I/O error.
    IOError(String),
    /// Timeout error.
    Timeout(Duration),
    /// SOCKS5 proxy error.
    Socks5(String),
    /// Catch-all error for anything that fits none of the above.
    AnyhowError(String),
}

/// Describes which known category an SMTP error belongs to.
#[derive(PartialEq, Eq, Structural, Debug, Clone, Copy)]
pub enum SmtpErrorDesc {
    /// The IP is blacklisted.
    IpBlacklisted,
    /// The IP needs a reverse DNS entry.
    NeedsRDNS,
}

/// The lines of a reply joined with `sep` between them.
pub open spec fn join_seqs(lines: Seq<Seq<char>>, sep: Seq<char>) -> Seq<char>
    decreases lines.len(),
{
    if lines.len() == 0 {
        Seq::empty()
    } else if lines.len() == 1 {
        lines[0]
    } else {
        join_seqs(lines.drop_last(), sep) + sep + lines.last()
    }
}

/// The character sequences of a list of strings.
pub open spec fn views_of(lines: Seq<String>) -> Seq<Seq<char>> {
    lines.map_values(|l: String| l@)
}

/// The text of a reply error: its kind, then the reply's first line (the
/// later lines of a multi-line reply, such as advertised extensions, are
/// left out).
pub open spec fn reply_text(prefix: Seq<char>, lines: Seq<Seq<char>>) -> Seq<char> {
    if lines.len() == 0 {
        prefix + "undetailed error during SMTP transaction"@
    } else {
        prefix + lines[0]
    }
}

/// The text of an SMTP client error: `transient: ` or `permanent: ` and the
/// reply's first line, `io: ` and the message, or the text of another error.
pub open spec fn async_smtp_error_text(e: AsyncSmtpError) -> Seq<char> {
    match e {
        AsyncSmtpError::Transient(lines) => reply_text("transient: "@, views_of(lines@)),
        AsyncSmtpError::Permanent(lines) => reply_text("permanent: "@, views_of(lines@)),
        AsyncSmtpError::Io(m) => "io: "@ + m@,
        AsyncSmtpError::Other(m) => m@,
    }
}

/// The description of an SMTP error, when it is of a known category.
pub open spec fn description_spec(e: SmtpError) -> Option<SmtpErrorDesc> {
    match e {
        SmtpError::AsyncSmtpError(_) => {
            if ip_blacklisted_spec(e) {
                Some(SmtpErrorDesc::IpBlacklisted)
            } else if needs_rdns_spec(e) {
                Some(SmtpErrorDesc::NeedsRDNS)
            } else {
                None
            }
        },
        _ => None,
    }
}

/// The description of an error: only an SMTP reply is described; a reply
/// that says the sending IP is blacklisted is described so, also when it
/// also asks for a reverse DNS entry; one that only asks for a reverse DNS
/// entry is described so; any other reply has no description.
pub proof fn lemma_description_cases(e: SmtpError)
    ensures
        !(e is AsyncSmtpError) ==> description_spec(e) is None,
        e is AsyncSmtpError && ip_blacklisted_spec(e) ==> description_spec(e) == Some(
            SmtpErrorDesc::IpBlacklisted,
        ),
        e is AsyncSmtpError && !ip_blacklisted_spec(e) && needs_rdns_spec(e) ==> description_spec(e)
            == Some(SmtpErrorDesc::NeedsRDNS),
        !ip_blacklisted_spec(e) && !needs_rdns_spec(e) ==> description_spec(e) is None,
{
}

/// Join the strings of `lines` with `sep` between them.
pub fn join_lines(lines: &Vec<String>, sep: &str) -> (r: String)
    ensures
        r@ == join_seqs(views_of(lines@), sep@),
{
    let mut r = String::new();
    let mut i: usize = 0;
    let ghost all = views_of(lines@);
    while i < lines.len()
        invariant
            i <= lines@.len(),
            all == views_of(lines@),
            r@ == join_seqs(all.subrange(0, i as int), sep@),
        decreases lines@.len() - i,
    {
        assert(all.subrange(0, i + 1).drop_last() == all.subrange(0, i as int));
        if i == 0 {
            r = lines[0].clone();
        } else {
            r = r.concat(sep);
            r = r.concat(lines[i].as_str());
        }
        i += 1;
    }
    assert(all.subrange(0, lines@.len() as int) == all);
    r
}

impl AsyncSmtpError {
    /// The text of this error, as reports show it.
    pub fn to_text(&self) -> (r: String)
        ensures
            r@ == async_smtp_error_text(*self),
    {
        match self {
            AsyncSmtpError::Transient(lines) => reply_to_text("transient: ", lines),
            AsyncSmtpError::Permanent(lines) => reply_to_text("permanent: ", lines),
            AsyncSmtpError::Io(m) => String::from_str("io: ").concat(m.as_str()),
            AsyncSmtpError::Other(m) => m.clone(),
        }
    }
}

fn reply_to_text(prefix: &str, lines: &Vec<String>) -> (r: String)
    ensures
        r@ == reply_text(prefix@, views_of(lines@)),
{
    let p = String::from_str(prefix);
    if lines.len() == 0 {
        p.concat("undetailed error during SMTP transaction")
    } else {
        p.concat(lines[0].as_str())
    }
}

impl SmtpError {
    /// Get a human-understandable description of the error. Only the known
    /// categories are recognized: IP blacklisted, and IP needs reverse DNS.
    pub fn get_description(&self) -> (r: Option<SmtpErrorDesc>)
        ensures
            r == description_spec(*self),
    {
        match self {
            SmtpError::AsyncSmtpError(_) => {
                if is_err_ip_blacklisted(self) {
                    Some(SmtpErrorDesc::IpBlacklisted)
                } else if is_err_needs_rdns(self) {
                    Some(SmtpErrorDesc::NeedsRDNS)
                } else {
                    None
                }
            },
            _ => None,
        }
    }
}

} // verus!
