//! The simple SMTP check, which reads the reply to `RCPT TO` from its text
//! alone: a success must carry the enhanced code 2.1.5, and an
//! error is classified by the phrases it contains.

use vstd::prelude::*;
use crate::smtp::Deliverability;
use crate::text::{seq_contains, str_contains};

verus! {

/// Errors of the simple SMTP check.
#[derive(Debug, Clone, PartialEq, Eq)]
pub enum SimpleSmtpError {
    /// Skipped checking SMTP details.
    Skipped,
    /// Error of the SOCKS5 proxy, with its message.
    SocksError(String),
    /// Error when communicating with the SMTP server, with its message.
    SmtpError(String),
}

/// The error text says the account is disabled or blocked.
pub open spec fn says_disabled(t: Seq<char>) -> bool {
    seq_contains(t, "disabled"@) || seq_contains(t, "blocked"@)
}

/// The error text says the inbox is full.
pub open spec fn says_full(t: Seq<char>) -> bool {
    seq_contains(t, "full"@) || seq_contains(t, "insufficient"@) || seq_contains(t, "over quota"@)
        || seq_contains(t, "space"@)
}

/// The error text says the address does not exist.
pub open spec fn says_no_such_address(t: Seq<char>) -> bool {
    seq_contains(t, "address rejected"@) || seq_contains(t, "does not exist"@) || seq_contains(
        t,
        "invalid address"@,
    ) || seq_contains(t, "may not exist"@) || seq_contains(t, "no mailbox"@) || seq_contains(
        t,
        "recipient invalid"@,
    ) || seq_contains(t, "recipient rejected"@) || seq_contains(t, "undeliverable"@)
        || seq_contains(t, "user unknown"@) || seq_contains(t, "user not found"@) || seq_contains(
        t,
        "disabled"@,
    )
}

/// What the reply to `RCPT TO` says: `Ok(first)` for a success whose first
/// line is `first` (`None` when it has no line), `Err(text)` for an error
/// displayed as `text`.
pub open spec fn first_rcpt_spec(reply: Result<Option<Seq<char>>, Seq<char>>) -> Result<
    Deliverability,
    Seq<char>,
> {
    match reply {
        Ok(Some(line)) => if seq_contains(line, "2.1.5"@) {
            Ok(Deliverability { has_full_inbox: false, is_deliverable: true, is_disabled: false })
        } else {
            Err("Can't find 2.1.5 in RCPT command"@)
        },
        Ok(None) => Err("No response on RCPT command"@),
        Err(t) => if says_disabled(t) {
            Ok(Deliverability { has_full_inbox: false, is_deliverable: false, is_disabled: true })
        } else if says_full(t) {
            Ok(Deliverability { has_full_inbox: true, is_deliverable: false, is_disabled: false })
        } else if says_no_such_address(t) {
            Ok(Deliverability { has_full_inbox: false, is_deliverable: false, is_disabled: false })
        } else {
            Err(t)
        },
    }
}

/// The view of a reply as `first_rcpt_spec` reads it.
pub open spec fn reply_view(reply: Result<Option<String>, String>) -> Result<
    Option<Seq<char>>,
    Seq<char>,
> {
    match reply {
        Ok(Some(l)) => Ok(Some(l@)),
        Ok(None) => Ok(None),
        Err(t) => Err(t@),
    }
}

fn says_disabled_exec(t: &str) -> (r: bool)
    ensures
        r == says_disabled(t@),
{
    str_contains(t, "disabled") || str_contains(t, "blocked")
}

fn says_full_exec(t: &str) -> (r: bool)
    ensures
        r == says_full(t@),
{
    str_contains(t, "full") || str_contains(t, "insufficient") || str_contains(t, "over quota")
        || str_contains(t, "space")
}

fn says_no_such_address_exec(t: &str) -> (r: bool)
    ensures
        r == says_no_such_address(t@),
{
    str_contains(t, "address rejected") || str_contains(t, "does not exist") || str_contains(
        t,
        "invalid address",
    ) || str_contains(t, "may not exist") || str_contains(t, "no mailbox") || str_contains(
        t,
        "recipient invalid",
    ) || str_contains(t, "recipient rejected") || str_contains(t, "undeliverable")
        || str_contains(t, "user unknown") || str_contains(t, "user not found") || str_contains(
        t,
        "disabled",
    )
}

/// Whether `to_email` is deliverable, from the reply to `RCPT TO`: a
/// success must carry 2.1.5; an error that says the account is disabled, the
/// inbox full or the address unknown is an answer; any other error is
/// returned.
pub fn email_deliverable(reply: Result<Option<String>, String>) -> (r: Result<
    Deliverability,
    SimpleSmtpError,
>)
    ensures
        match first_rcpt_spec(reply_view(reply)) {
            Ok(d) => r == Ok::<Deliverability, SimpleSmtpError>(d),
            Err(t) => r matches Err(SimpleSmtpError::SmtpError(m)) && m@ == t,
        },
{
    match reply {
        Ok(Some(line)) => {
            if str_contains(line.as_str(), "2.1.5") {
                Ok(Deliverability { has_full_inbox: false, is_deliverable: true, is_disabled: false })
            } else {
                Err(SimpleSmtpError::SmtpError(String::from_str("Can't find 2.1.5 in RCPT command")))
            }
        },
        Ok(None) => Err(SimpleSmtpError::SmtpError(String::from_str("No response on RCPT command"))),
        Err(t) => {
            if says_disabled_exec(t.as_str()) {
                return Ok(
                    Deliverability { has_full_inbox: false, is_deliverable: false, is_disabled: true },
                );
            }
            if says_full_exec(t.as_str()) {
                return Ok(
                    Deliverability { has_full_inbox: true, is_deliverable: false, is_disabled: false },
                );
            }
            if says_no_such_address_exec(t.as_str()) {
                return Ok(
                    Deliverability {
                        has_full_inbox: false,
                        is_deliverable: false,
                        is_disabled: false,
                    },
                );
            }
            Err(SimpleSmtpError::SmtpError(t))
        },
    }
}

/// Details gathered by the simple SMTP check.
#[derive(Debug, Clone, Copy, PartialEq, Eq, Structural)]
pub struct SimpleSmtpDetails {
    /// Is this email account's inbox full?
    pub has_full_inbox: bool,
    /// Does this domain have a catch-all email address?
    pub is_catch_all: bool,
    /// Can we send an email to this address?
    pub is_deliverable: bool,
    /// Is the email blocked or disabled by the provider?
    pub is_disabled: bool,
}

/// The details of one connection: the catch-all probe counts only when it
/// was answered and deliverable (a failed probe counts as no catch-all).
pub fn smtp_details(catch_all_probe: Result<Deliverability, SimpleSmtpError>, d: Deliverability) -> (r:
    SimpleSmtpDetails)
    ensures
        r == (SimpleSmtpDetails {
            has_full_inbox: d.has_full_inbox,
            is_catch_all: catch_all_probe matches Ok(p) && p.is_deliverable,
            is_deliverable: d.is_deliverable,
            is_disabled: d.is_disabled,
        }),
{
    let is_catch_all = match catch_all_probe {
        Ok(p) => p.is_deliverable,
        Err(_) => false,
    };
    SimpleSmtpDetails {
        has_full_inbox: d.has_full_inbox,
        is_catch_all,
        is_deliverable: d.is_deliverable,
        is_disabled: d.is_disabled,
    }
}

/// How the simple check reads the reply to `RCPT TO`: a success is
/// deliverable only when its first line carries the enhanced code `2.1.5`,
/// and is an error otherwise; an error reply is read by its text, a disabled
/// or blocked account first, then a full inbox, then an address that does not
/// exist; any other error text is handed back as it is.
pub proof fn lemma_first_rcpt_cases(line: Seq<char>, t: Seq<char>)
    ensures
        seq_contains(line, "2.1.5"@) ==> first_rcpt_spec(Ok(Some(line))) == Ok::<Deliverability, Seq<char>>(
            Deliverability { has_full_inbox: false, is_deliverable: true, is_disabled: false },
        ),
        !seq_contains(line, "2.1.5"@) ==> first_rcpt_spec(Ok(Some(line))) is Err,
        first_rcpt_spec(Ok(None)) is Err,
        says_disabled(t) ==> first_rcpt_spec(Err(t)) == Ok::<Deliverability, Seq<char>>(
            Deliverability { has_full_inbox: false, is_deliverable: false, is_disabled: true },
        ),
        !says_disabled(t) && says_full(t) ==> first_rcpt_spec(Err(t)) == Ok::<Deliverability, Seq<char>>(
            Deliverability { has_full_inbox: true, is_deliverable: false, is_disabled: false },
        ),
        !says_disabled(t) && !says_full(t) && says_no_such_address(t) ==> first_rcpt_spec(Err(t))
            == Ok::<Deliverability, Seq<char>>(
            Deliverability { has_full_inbox: false, is_deliverable: false, is_disabled: false },
        ),
        !says_disabled(t) && !says_full(t) && !says_no_such_address(t) ==> first_rcpt_spec(Err(t))
            == Err::<Deliverability, Seq<char>>(t),
        seq_contains(t, "does not exist"@) || seq_contains(t, "user unknown"@) ==> match first_rcpt_spec(
            Err(t),
        ) {
            Ok(d) => !d.is_deliverable,
            Err(_) => false,
        },
{
}

} // verus!
