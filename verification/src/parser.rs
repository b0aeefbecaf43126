//! Parse the SMTP responses to get information about the email address.

use vstd::prelude::*;
use crate::text::{chars_of, contains_seq, seq_contains, to_lowercase, unicode_lowercase};
use crate::smtp_error::{join_lines, join_seqs, views_of, AsyncSmtpError, SmtpError};

verus! {

/// The phrase `mailbox <EMAIL> unknown` for a given address.
pub open spec fn mailbox_unknown_phrase(email: Seq<char>) -> Seq<char> {
    "mailbox "@ + email + " unknown"@
}

/// The response `e` says that the mailbox of `email` does not exist.
pub open spec fn invalid_spec(e: Seq<char>, email: Seq<char>) -> bool {
    seq_contains(e, "address rejected"@)
        || seq_contains(e, "unrouteable"@)
        || seq_contains(e, "does not exist"@)
        || seq_contains(e, "invalid address"@)
        || seq_contains(e, "invalid email address"@)
        || seq_contains(e, "invalid recipient"@)
        || seq_contains(e, "may not exist"@)
        || seq_contains(e, "recipient invalid"@)
        || seq_contains(e, "recipient rejected"@)
        || seq_contains(e, "unknown recipient address"@)
        || seq_contains(e, "unknown recipient"@)
        || seq_contains(e, "undeliverable"@)
        || seq_contains(e, "user unknown"@)
        || seq_contains(e, "unknown user"@)
        || seq_contains(e, "recipient unknown"@)
        || seq_contains(e, "no such user"@)
        || seq_contains(e, mailbox_unknown_phrase(email))
        || seq_contains(e, "mailbox not found"@)
        || seq_contains(e, "invalid mailbox"@)
        || seq_contains(e, "no mailbox"@)
        || seq_contains(e, "no such mailbox"@)
        || seq_contains(e, "mailbox unavailable"@)
        || seq_contains(e, "mailbox is unavailable"@)
        || seq_contains(e, "not a valid mailbox"@)
        || seq_contains(e, "no such recipient"@)
        || seq_contains(e, "have an account"@)
        || seq_contains(e, "unknown local part"@)
        || seq_contains(e, "no longer available"@)
        || seq_contains(e, "dosn't exist"@)
        || seq_contains(e, "could not be found"@)
        || seq_contains(e, "no such person"@)
        || seq_contains(e, "no such user"@)
        || seq_contains(e, "address error"@)
        || seq_contains(e, "address is not handled"@)
}

/// The response `e` says that the inbox is full.
pub open spec fn full_inbox_spec(e: Seq<char>) -> bool {
    seq_contains(e, "insufficient"@)
        || seq_contains(e, "mailbox full"@)
        || seq_contains(e, "quote exceeded"@)
        || seq_contains(e, "over quota"@)
        || seq_contains(e, "too many messages"@)
}

/// The response `e` says that the account is disabled, discontinued or
/// blocked by the provider.
pub open spec fn disabled_account_spec(e: Seq<char>) -> bool {
    seq_contains(e, "disabled"@)
        || seq_contains(e, "discontinued"@)
        || seq_contains(e, "blocked"@)
}

/// The lower-cased text says that the sending IP is blacklisted.
pub open spec fn blacklisted_text_spec(e: Seq<char>) -> bool {
    seq_contains(e, "blacklist"@)
        || seq_contains(e, "black list"@)
        || seq_contains(e, "block list"@)
        || seq_contains(e, "spam"@)
        || seq_contains(e, "abusix"@)
        || seq_contains(e, "relaying denied"@)
        || seq_contains(e, "access denied"@)
        || seq_contains(e, "administratively denied"@)
        || seq_contains(e, "banned"@)
        || seq_contains(e, "blocked"@)
        || seq_contains(e, "connection rejected"@)
        || seq_contains(e, "poor reputation"@)
        || seq_contains(e, "junkmail"@)
        || seq_contains(e, "refused by proofpoint"@)
        || seq_contains(e, "dnsbl"@)
        || seq_contains(e, "sbrs score too low"@)
        || seq_contains(e, "spamhaus"@)
        || seq_contains(e, "blocked"@)
        || seq_contains(e, "access denied"@)
        || seq_contains(e, "relay not permitted"@)
        || seq_contains(e, "not yet authorized"@)
}

/// The lower-cased text says that the sending IP needs a reverse DNS entry.
pub open spec fn rdns_text_spec(e: Seq<char>) -> bool {
    seq_contains(e, "cannot find your reverse hostname"@)
        || seq_contains(e, "reverse dns entry"@)
}

/// The lower-cased, `; `-joined lines of an SMTP reply error, if `e` is one.
pub open spec fn reply_lines_lowercase(e: SmtpError) -> Option<Seq<char>> {
    match e {
        SmtpError::AsyncSmtpError(AsyncSmtpError::Transient(lines)) =>
            Some(unicode_lowercase(join_seqs(views_of(lines@), "; "@))),
        SmtpError::AsyncSmtpError(AsyncSmtpError::Permanent(lines)) =>
            Some(unicode_lowercase(join_seqs(views_of(lines@), "; "@))),
        _ => None,
    }
}

/// The error is an SMTP reply saying that the sending IP is blacklisted.
pub open spec fn ip_blacklisted_spec(e: SmtpError) -> bool {
    match reply_lines_lowercase(e) {
        Some(t) => blacklisted_text_spec(t),
        None => false,
    }
}

/// The error is an SMTP reply saying that the sending IP needs reverse DNS.
pub open spec fn needs_rdns_spec(e: SmtpError) -> bool {
    match reply_lines_lowercase(e) {
        Some(t) => rdns_text_spec(t),
        None => false,
    }
}

fn has(hay: &Vec<char>, phrase: &str) -> (r: bool)
    ensures
        r == seq_contains(hay@, phrase@),
{
    let p = chars_of(phrase);
    contains_seq(hay, &p)
}

/// is_invalid checks for SMTP responses meaning that the email is invalid,
/// i.e. that the mailbox doesn't exist. `email` is the address that was
/// checked, as text.
pub fn is_invalid(e: &str, email: &str) -> (r: bool)
    ensures
        r == invalid_spec(e@, email@),
{
    let ev = chars_of(e);
    let phrase = String::from_str("mailbox ").concat(email).concat(" unknown");
    let mailbox_phrase = chars_of(phrase.as_str());
    has(&ev, "address rejected")
        || has(&ev, "unrouteable")
        || has(&ev, "does not exist")
        || has(&ev, "invalid address")
        || has(&ev, "invalid email address")
        || has(&ev, "invalid recipient")
        || has(&ev, "may not exist")
        || has(&ev, "recipient invalid")
        || has(&ev, "recipient rejected")
        || has(&ev, "unknown recipient address")
        || has(&ev, "unknown recipient")
        || has(&ev, "undeliverable")
        || has(&ev, "user unknown")
        || has(&ev, "unknown user")
        || has(&ev, "recipient unknown")
        || has(&ev, "no such user")
        || contains_seq(&ev, &mailbox_phrase)
        || has(&ev, "mailbox not found")
        || has(&ev, "invalid mailbox")
        || has(&ev, "no mailbox")
        || has(&ev, "no such mailbox")
        || has(&ev, "mailbox unavailable")
        || has(&ev, "mailbox is unavailable")
        || has(&ev, "not a valid mailbox")
        || has(&ev, "no such recipient")
        || has(&ev, "have an account")
        || has(&ev, "unknown local part")
        || has(&ev, "no longer available")
        || has(&ev, "dosn't exist")
        || has(&ev, "could not be found")
        || has(&ev, "no such person")
        || has(&ev, "no such user")
        || has(&ev, "address error")
        || has(&ev, "address is not handled")
}

/// Check that the mailbox has a full inbox.
pub fn is_full_inbox(e: &str) -> (r: bool)
    ensures
        r == full_inbox_spec(e@),
{
    let ev = chars_of(e);
    has(&ev, "insufficient")
        || has(&ev, "mailbox full")
        || has(&ev, "quote exceeded")
        || has(&ev, "over quota")
        || has(&ev, "too many messages")
}

/// Check if the email account has been disabled or blocked by the email
/// provider.
pub fn is_disabled_account(e: &str) -> (r: bool)
    ensures
        r == disabled_account_spec(e@),
{
    let ev = chars_of(e);
    has(&ev, "disabled")
        || has(&ev, "discontinued")
        || has(&ev, "blocked")
}

/// Check if the error is an I/O "incomplete" error.
pub fn is_err_io_errors(e: &SmtpError) -> (r: bool)
    ensures
        r == (e matches SmtpError::AsyncSmtpError(AsyncSmtpError::Io(m)) && m@ == "incomplete"@),
{
    match e {
        SmtpError::AsyncSmtpError(AsyncSmtpError::Io(m)) => crate::text::str_eq(m.as_str(), "incomplete"),
        _ => false,
    }
}

fn reply_lowercase(e: &SmtpError) -> (r: Option<Vec<char>>)
    ensures
        match r {
            Some(v) => reply_lines_lowercase(*e) == Some(v@),
            None => reply_lines_lowercase(*e) is None,
        },
{
    match e {
        SmtpError::AsyncSmtpError(AsyncSmtpError::Transient(lines)) => {
            let j = join_lines(lines, "; ");
            let l = to_lowercase(j.as_str());
            Some(chars_of(l.as_str()))
        },
        SmtpError::AsyncSmtpError(AsyncSmtpError::Permanent(lines)) => {
            let j = join_lines(lines, "; ");
            let l = to_lowercase(j.as_str());
            Some(chars_of(l.as_str()))
        },
        _ => None,
    }
}

/// Check if the IP is blacklisted.
pub fn is_err_ip_blacklisted(e: &SmtpError) -> (r: bool)
    ensures
        r == ip_blacklisted_spec(*e),
{
    let t = match reply_lowercase(e) {
        Some(t) => t,
        None => return false,
    };
    has(&t, "blacklist")
        || has(&t, "black list")
        || has(&t, "block list")
        || has(&t, "spam")
        || has(&t, "abusix")
        || has(&t, "relaying denied")
        || has(&t, "access denied")
        || has(&t, "administratively denied")
        || has(&t, "banned")
        || has(&t, "blocked")
        || has(&t, "connection rejected")
        || has(&t, "poor reputation")
        || has(&t, "junkmail")
        || has(&t, "refused by proofpoint")
        || has(&t, "dnsbl")
        || has(&t, "sbrs score too low")
        || has(&t, "spamhaus")
        || has(&t, "blocked")
        || has(&t, "access denied")
        || has(&t, "relay not permitted")
        || has(&t, "not yet authorized")
}

/// Check if the IP needs a reverse DNS.
pub fn is_err_needs_rdns(e: &SmtpError) -> (r: bool)
    ensures
        r == needs_rdns_spec(*e),
{
    let t = match reply_lowercase(e) {
        Some(t) => t,
        None => return false,
    };
    has(&t, "cannot find your reverse hostname")
        || has(&t, "reverse dns entry")
}

/// A reply text means that the mailbox does not exist exactly when it holds
/// one of the known phrases for it, among them `does not exist`, `user
/// unknown`, `no such user` and `mailbox <EMAIL> unknown` for the address
/// itself.
pub proof fn lemma_invalid_phrases(e: Seq<char>, email: Seq<char>)
    ensures
        seq_contains(e, "address rejected"@) ==> invalid_spec(e, email),
        seq_contains(e, "unrouteable"@) ==> invalid_spec(e, email),
        seq_contains(e, "does not exist"@) ==> invalid_spec(e, email),
        seq_contains(e, "invalid address"@) ==> invalid_spec(e, email),
        seq_contains(e, "invalid email address"@) ==> invalid_spec(e, email),
        seq_contains(e, "invalid recipient"@) ==> invalid_spec(e, email),
        seq_contains(e, "may not exist"@) ==> invalid_spec(e, email),
        seq_contains(e, "recipient invalid"@) ==> invalid_spec(e, email),
        seq_contains(e, "recipient rejected"@) ==> invalid_spec(e, email),
        seq_contains(e, "unknown recipient address"@) ==> invalid_spec(e, email),
        seq_contains(e, "unknown recipient"@) ==> invalid_spec(e, email),
        seq_contains(e, "undeliverable"@) ==> invalid_spec(e, email),
        seq_contains(e, "user unknown"@) ==> invalid_spec(e, email),
        seq_contains(e, "unknown user"@) ==> invalid_spec(e, email),
        seq_contains(e, "recipient unknown"@) ==> invalid_spec(e, email),
        seq_contains(e, "no such user"@) ==> invalid_spec(e, email),
        seq_contains(e, mailbox_unknown_phrase(email)) ==> invalid_spec(e, email),
        seq_contains(e, "mailbox not found"@) ==> invalid_spec(e, email),
        seq_contains(e, "invalid mailbox"@) ==> invalid_spec(e, email),
        seq_contains(e, "no mailbox"@) ==> invalid_spec(e, email),
        seq_contains(e, "no such mailbox"@) ==> invalid_spec(e, email),
        seq_contains(e, "mailbox unavailable"@) ==> invalid_spec(e, email),
        seq_contains(e, "mailbox is unavailable"@) ==> invalid_spec(e, email),
        seq_contains(e, "not a valid mailbox"@) ==> invalid_spec(e, email),
        seq_contains(e, "no such recipient"@) ==> invalid_spec(e, email),
        seq_contains(e, "have an account"@) ==> invalid_spec(e, email),
        seq_contains(e, "unknown local part"@) ==> invalid_spec(e, email),
        seq_contains(e, "no longer available"@) ==> invalid_spec(e, email),
        seq_contains(e, "dosn't exist"@) ==> invalid_spec(e, email),
        seq_contains(e, "could not be found"@) ==> invalid_spec(e, email),
        seq_contains(e, "no such person"@) ==> invalid_spec(e, email),
        seq_contains(e, "address error"@) ==> invalid_spec(e, email),
        seq_contains(e, "address is not handled"@) ==> invalid_spec(e, email),
        (!seq_contains(e, "address rejected"@)
            && !seq_contains(e, "unrouteable"@)
            && !seq_contains(e, "does not exist"@)
            && !seq_contains(e, "invalid address"@)
            && !seq_contains(e, "invalid email address"@)
            && !seq_contains(e, "invalid recipient"@)
            && !seq_contains(e, "may not exist"@)
            && !seq_contains(e, "recipient invalid"@)
            && !seq_contains(e, "recipient rejected"@)
            && !seq_contains(e, "unknown recipient address"@)
            && !seq_contains(e, "unknown recipient"@)
            && !seq_contains(e, "undeliverable"@)
            && !seq_contains(e, "user unknown"@)
            && !seq_contains(e, "unknown user"@)
            && !seq_contains(e, "recipient unknown"@)
            && !seq_contains(e, "no such user"@)
            && !seq_contains(e, mailbox_unknown_phrase(email))
            && !seq_contains(e, "mailbox not found"@)
            && !seq_contains(e, "invalid mailbox"@)
            && !seq_contains(e, "no mailbox"@)
            && !seq_contains(e, "no such mailbox"@)
            && !seq_contains(e, "mailbox unavailable"@)
            && !seq_contains(e, "mailbox is unavailable"@)
            && !seq_contains(e, "not a valid mailbox"@)
            && !seq_contains(e, "no such recipient"@)
            && !seq_contains(e, "have an account"@)
            && !seq_contains(e, "unknown local part"@)
            && !seq_contains(e, "no longer available"@)
            && !seq_contains(e, "dosn't exist"@)
            && !seq_contains(e, "could not be found"@)
            && !seq_contains(e, "no such person"@)
            && !seq_contains(e, "address error"@)
            && !seq_contains(e, "address is not handled"@)) ==> !invalid_spec(e, email),
{
}

/// A reply text means a full inbox exactly when it holds one of the known
/// phrases for it.
pub proof fn lemma_full_inbox_phrases(e: Seq<char>)
    ensures
        seq_contains(e, "insufficient"@) ==> full_inbox_spec(e),
        seq_contains(e, "mailbox full"@) ==> full_inbox_spec(e),
        seq_contains(e, "quote exceeded"@) ==> full_inbox_spec(e),
        seq_contains(e, "over quota"@) ==> full_inbox_spec(e),
        seq_contains(e, "too many messages"@) ==> full_inbox_spec(e),
        (!seq_contains(e, "insufficient"@)
            && !seq_contains(e, "mailbox full"@)
            && !seq_contains(e, "quote exceeded"@)
            && !seq_contains(e, "over quota"@)
            && !seq_contains(e, "too many messages"@)) ==> !full_inbox_spec(e),
{
}

/// A reply text means a disabled account exactly when it says the account is
/// disabled, discontinued or blocked.
pub proof fn lemma_disabled_account_phrases(e: Seq<char>)
    ensures
        seq_contains(e, "disabled"@) ==> disabled_account_spec(e),
        seq_contains(e, "discontinued"@) ==> disabled_account_spec(e),
        seq_contains(e, "blocked"@) ==> disabled_account_spec(e),
        (!seq_contains(e, "disabled"@)
            && !seq_contains(e, "discontinued"@)
            && !seq_contains(e, "blocked"@)) ==> !disabled_account_spec(e),
{
}

/// A transient or permanent SMTP reply says that the sending IP is
/// blacklisted exactly when its lower-cased lines, joined by `; `, hold one
/// of the known phrases; no other error does.
pub proof fn lemma_blacklisted_phrases(lines: Vec<String>, transient: bool, other: SmtpError)
    ensures
        ({
            let e = if transient {
                SmtpError::AsyncSmtpError(AsyncSmtpError::Transient(lines))
            } else {
                SmtpError::AsyncSmtpError(AsyncSmtpError::Permanent(lines))
            };
            let t = unicode_lowercase(join_seqs(views_of(lines@), "; "@));
            &&& (seq_contains(t, "blacklist"@) ==> ip_blacklisted_spec(e))
            &&& (seq_contains(t, "black list"@) ==> ip_blacklisted_spec(e))
            &&& (seq_contains(t, "block list"@) ==> ip_blacklisted_spec(e))
            &&& (seq_contains(t, "spam"@) ==> ip_blacklisted_spec(e))
            &&& (seq_contains(t, "abusix"@) ==> ip_blacklisted_spec(e))
            &&& (seq_contains(t, "relaying denied"@) ==> ip_blacklisted_spec(e))
            &&& (seq_contains(t, "access denied"@) ==> ip_blacklisted_spec(e))
            &&& (seq_contains(t, "administratively denied"@) ==> ip_blacklisted_spec(e))
            &&& (seq_contains(t, "banned"@) ==> ip_blacklisted_spec(e))
            &&& (seq_contains(t, "blocked"@) ==> ip_blacklisted_spec(e))
            &&& (seq_contains(t, "connection rejected"@) ==> ip_blacklisted_spec(e))
            &&& (seq_contains(t, "poor reputation"@) ==> ip_blacklisted_spec(e))
            &&& (seq_contains(t, "junkmail"@) ==> ip_blacklisted_spec(e))
            &&& (seq_contains(t, "refused by proofpoint"@) ==> ip_blacklisted_spec(e))
            &&& (seq_contains(t, "dnsbl"@) ==> ip_blacklisted_spec(e))
            &&& (seq_contains(t, "sbrs score too low"@) ==> ip_blacklisted_spec(e))
            &&& (seq_contains(t, "spamhaus"@) ==> ip_blacklisted_spec(e))
            &&& (seq_contains(t, "relay not permitted"@) ==> ip_blacklisted_spec(e))
            &&& (seq_contains(t, "not yet authorized"@) ==> ip_blacklisted_spec(e))
            &&& ((!seq_contains(t, "blacklist"@)
                && !seq_contains(t, "black list"@)
                && !seq_contains(t, "block list"@)
                && !seq_contains(t, "spam"@)
                && !seq_contains(t, "abusix"@)
                && !seq_contains(t, "relaying denied"@)
                && !seq_contains(t, "access denied"@)
                && !seq_contains(t, "administratively denied"@)
                && !seq_contains(t, "banned"@)
                && !seq_contains(t, "blocked"@)
                && !seq_contains(t, "connection rejected"@)
                && !seq_contains(t, "poor reputation"@)
                && !seq_contains(t, "junkmail"@)
                && !seq_contains(t, "refused by proofpoint"@)
                && !seq_contains(t, "dnsbl"@)
                && !seq_contains(t, "sbrs score too low"@)
                && !seq_contains(t, "spamhaus"@)
                && !seq_contains(t, "relay not permitted"@)
                && !seq_contains(t, "not yet authorized"@)) ==> !ip_blacklisted_spec(e))
        }),
        !(other matches SmtpError::AsyncSmtpError(AsyncSmtpError::Transient(_)))
            && !(other matches SmtpError::AsyncSmtpError(AsyncSmtpError::Permanent(_)))
            ==> !ip_blacklisted_spec(other),
{
}

/// A transient or permanent SMTP reply says that the sending IP needs a
/// reverse DNS entry exactly when its lower-cased lines, joined by `; `, hold
/// one of the known phrases; no other error does.
pub proof fn lemma_needs_rdns_phrases(lines: Vec<String>, transient: bool, other: SmtpError)
    ensures
        ({
            let e = if transient {
                SmtpError::AsyncSmtpError(AsyncSmtpError::Transient(lines))
            } else {
                SmtpError::AsyncSmtpError(AsyncSmtpError::Permanent(lines))
            };
            let t = unicode_lowercase(join_seqs(views_of(lines@), "; "@));
            &&& (seq_contains(t, "cannot find your reverse hostname"@) ==> needs_rdns_spec(e))
            &&& (seq_contains(t, "reverse dns entry"@) ==> needs_rdns_spec(e))
            &&& ((!seq_contains(t, "cannot find your reverse hostname"@)
                && !seq_contains(t, "reverse dns entry"@)) ==> !needs_rdns_spec(e))
        }),
        !(other matches SmtpError::AsyncSmtpError(AsyncSmtpError::Transient(_)))
            && !(other matches SmtpError::AsyncSmtpError(AsyncSmtpError::Permanent(_)))
            ==> !needs_rdns_spec(other),
{
}

} // verus!
