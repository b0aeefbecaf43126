//! The order of the commands on one SMTP connection: `MAIL FROM`, the
//! catch-all probe, then the address itself, with one reconnection when the server dropped
//! the connection. The caller performs each action on the network and hands
//! back what happened; the decisions are taken here.

use vstd::prelude::*;
use crate::check::from_email_or_default;
use crate::outside::smtp_address_accepts;
use crate::smtp::{
    catch_all_deliverability, catch_all_probe_address, check_email_deliverability,
    needs_reconnect, rcpt_reply_spec, smtp_details_of, Deliverability, SmtpDetails,
};
use crate::smtp_error::{AsyncSmtpError, SmtpError};

verus! {

/// Where the conversation on an SMTP connection stands.
#[derive(Debug)]
pub enum SmtpStage {
    /// The connection is being opened; nothing was asked yet.
    Connecting,
    /// `MAIL FROM` was sent; `reconnected` says whether this is on the
    /// second connection.
    SendingFrom { reconnected: bool },
    /// `RCPT TO` was sent for the random address `probe`, to detect a
    /// catch-all domain.
    ProbingCatchAll { probe: String },
    /// `RCPT TO` was sent for the address itself; `reconnected` says whether
    /// this is on the second connection.
    AskingRecipient { reconnected: bool },
    /// The server dropped the connection: a new one is being opened.
    Reconnecting,
    /// The outcome is known.
    Finished,
}

/// What happened on the network since the last action.
#[derive(Debug)]
pub enum SmtpEvent {
    /// The connection is open.
    Ready,
    /// The outcome of the last command (`MAIL FROM` or `RCPT TO`).
    Reply(Result<(), AsyncSmtpError>),
}

/// What the caller does next.
#[derive(Debug)]
pub enum SmtpAction {
    /// Send `MAIL FROM` with this address.
    MailFrom(String),
    /// Send `RCPT TO` with this address.
    Rcpt(String),
    /// Quit this connection and open a new one.
    Reconnect,
    /// Stop: the outcome of the verification on this connection. On `Ok`
    /// the caller still quits the connection, and a failure to do so is the
    /// outcome instead.
    Finish(Result<SmtpDetails, SmtpError>),
    /// Quit this connection: the verification fails with this error.
    Refused(SmtpError),
}

/// The event is one that `stage` waits for: a ready connection while
/// connecting, a reply after a command.
pub open spec fn event_fits_spec(stage: SmtpStage, event: SmtpEvent) -> bool {
    match stage {
        SmtpStage::Connecting | SmtpStage::Reconnecting => event is Ready,
        SmtpStage::SendingFrom { .. } | SmtpStage::ProbingCatchAll { .. } | SmtpStage::AskingRecipient {
            ..
        } => event is Reply,
        SmtpStage::Finished => false,
    }
}

/// Whether `stage` waits for `event`.
pub fn event_fits(stage: &SmtpStage, event: &SmtpEvent) -> (r: bool)
    ensures
        r == event_fits_spec(*stage, *event),
{
    match stage {
        SmtpStage::Connecting | SmtpStage::Reconnecting => matches!(event, SmtpEvent::Ready),
        SmtpStage::SendingFrom { .. } | SmtpStage::ProbingCatchAll { .. } | SmtpStage::AskingRecipient {
            ..
        } => matches!(event, SmtpEvent::Reply(_)),
        SmtpStage::Finished => false,
    }
}

/// The reply to the probe says that the random address is deliverable: the
/// domain accepts every address.
pub open spec fn probe_caught_spec(reply: Result<(), AsyncSmtpError>, probe: Seq<char>) -> bool {
    rcpt_reply_spec(reply, probe) matches Some(d) && d.is_deliverable
}

/// The reply to `RCPT TO` for the address is an error that the parser does
/// not understand and that says the server dropped the connection.
pub open spec fn dropped_spec(reply: Result<(), AsyncSmtpError>, to_email: Seq<char>) -> bool {
    &&& rcpt_reply_spec(reply, to_email) is None
    &&& reply matches Err(AsyncSmtpError::Io(m)) && m@ == "incomplete"@
}

/// The outcome of a verification whose last `RCPT TO` for the address got
/// `reply`: the parsed deliverability of a domain that is no catch-all, or
/// the client's error.
pub open spec fn recipient_outcome_spec(
    reply: Result<(), AsyncSmtpError>,
    to_email: Seq<char>,
    r: Result<SmtpDetails, SmtpError>,
) -> bool {
    match rcpt_reply_spec(reply, to_email) {
        Some(d) => r == Ok::<SmtpDetails, SmtpError>(
            SmtpDetails {
                can_connect_smtp: true,
                has_full_inbox: d.has_full_inbox,
                is_catch_all: false,
                is_deliverable: d.is_deliverable,
                is_disabled: d.is_disabled,
            },
        ),
        None => r matches Err(SmtpError::AsyncSmtpError(e)) && reply == Err::<(), AsyncSmtpError>(e),
    }
}

/// The action sends `RCPT TO` with the address `addr`.
pub open spec fn asks_for(action: SmtpAction, addr: Seq<char>) -> bool {
    action matches SmtpAction::Rcpt(a) && a@ == addr
}

/// The action ends the verification with an outcome that
/// `recipient_outcome_spec` gives for `reply`.
pub open spec fn finishes_with_reply(action: SmtpAction, reply: Result<(), AsyncSmtpError>, to_email: Seq<char>) -> bool {
    action matches SmtpAction::Finish(o) && recipient_outcome_spec(reply, to_email, o)
}

/// The stage probes `probe`, a random address of `domain`: fifteen
/// characters, `@`, and the domain.
pub open spec fn probes_domain(stage: SmtpStage, action: SmtpAction, domain: Seq<char>) -> bool {
    stage matches SmtpStage::ProbingCatchAll { probe } && {
        &&& asks_for(action, probe@)
        &&& probe@.len() == 16 + domain.len()
        &&& probe@[15] == '@'
        &&& probe@.subrange(16, probe@.len() as int) == domain
    }
}

/// The reply that `event` carries, if any.
pub open spec fn reply_of(event: SmtpEvent) -> Result<(), AsyncSmtpError> {
    match event {
        SmtpEvent::Reply(reply) => reply,
        SmtpEvent::Ready => Ok(()),
    }
}

/// The action sends `MAIL FROM` with the configured sender, or
/// `user@example.org` when the SMTP client refuses it.
pub open spec fn sends_from(action: SmtpAction, from_email: Seq<char>) -> bool {
    action matches SmtpAction::MailFrom(a) && a@ == (if smtp_address_accepts(from_email) {
        from_email
    } else {
        "user@example.org"@
    })
}

/// The next stage and action of the conversation that verifies `to_email`
/// on a server of `domain`, with `from_email` as the configured sender, after
/// `event` at `stage`; `skip_catch_all` says whether the rules skip the
/// catch-all probe.
///
/// Once connected, `MAIL FROM` is sent; if the server refuses it the
/// connection is quit and the verification fails with the server's error.
/// Then a random address of the domain is probed (unless skipped, or the
/// domain cannot make an address); if the server accepts it the domain is a
/// catch-all and the verification ends there. Otherwise the address itself
/// is asked for; when the server dropped the connection, one new connection
/// is made (with its own `MAIL FROM`) and the address asked for again, and
/// the reply on it is final.
pub fn smtp_step(
    stage: SmtpStage,
    event: SmtpEvent,
    skip_catch_all: bool,
    from_email: &str,
    to_email: &str,
    domain: &str,
) -> (r: (SmtpStage, SmtpAction))
    requires
        event_fits_spec(stage, event),
    ensures
        stage is Connecting ==> {
            &&& r.0 == SmtpStage::SendingFrom { reconnected: false }
            &&& sends_from(r.1, from_email@)
        },
        stage is Reconnecting ==> {
            &&& r.0 == SmtpStage::SendingFrom { reconnected: true }
            &&& sends_from(r.1, from_email@)
        },
        stage matches SmtpStage::SendingFrom { reconnected } ==> match reply_of(event) {
            Err(e) => r.0 is Finished && r.1 == SmtpAction::Refused(SmtpError::AsyncSmtpError(e)),
            Ok(()) => if reconnected {
                &&& r.0 == SmtpStage::AskingRecipient { reconnected: true }
                &&& asks_for(r.1, to_email@)
            } else if skip_catch_all || !smtp_address_accepts(domain@) {
                &&& r.0 == SmtpStage::AskingRecipient { reconnected: false }
                &&& asks_for(r.1, to_email@)
            } else {
                probes_domain(r.0, r.1, domain@)
            },
        },
        stage matches SmtpStage::ProbingCatchAll { probe } ==> if probe_caught_spec(reply_of(event), probe@) {
            &&& r.0 is Finished
            &&& r.1 == SmtpAction::Finish(
                Ok(
                    SmtpDetails {
                        can_connect_smtp: true,
                        has_full_inbox: false,
                        is_catch_all: true,
                        is_deliverable: true,
                        is_disabled: false,
                    },
                ),
            )
        } else {
            &&& r.0 == SmtpStage::AskingRecipient { reconnected: false }
            &&& asks_for(r.1, to_email@)
        },
        stage matches SmtpStage::AskingRecipient { reconnected } ==> if !reconnected && dropped_spec(reply_of(event), to_email@) {
            r.0 is Reconnecting && r.1 is Reconnect
        } else {
            r.0 is Finished && finishes_with_reply(r.1, reply_of(event), to_email@)
        },
{
    let reply = match event {
        SmtpEvent::Reply(reply) => reply,
        SmtpEvent::Ready => Ok(()),
    };
    match stage {
        SmtpStage::Connecting => (
            SmtpStage::SendingFrom { reconnected: false },
            SmtpAction::MailFrom(from_email_or_default(from_email)),
        ),
        SmtpStage::Reconnecting => (
            SmtpStage::SendingFrom { reconnected: true },
            SmtpAction::MailFrom(from_email_or_default(from_email)),
        ),
        SmtpStage::SendingFrom { reconnected } => {
            match reply {
                Err(e) => {
                    return (SmtpStage::Finished, SmtpAction::Refused(SmtpError::AsyncSmtpError(e)));
                },
                Ok(()) => {},
            }
            if reconnected || skip_catch_all {
                return (
                    SmtpStage::AskingRecipient { reconnected },
                    SmtpAction::Rcpt(String::from_str(to_email)),
                );
            }
            match catch_all_probe_address(domain) {
                Some(probe) => {
                    let a = probe.clone();
                    (SmtpStage::ProbingCatchAll { probe }, SmtpAction::Rcpt(a))
                },
                None => (
                    SmtpStage::AskingRecipient { reconnected: false },
                    SmtpAction::Rcpt(String::from_str(to_email)),
                ),
            }
        },
        SmtpStage::ProbingCatchAll { probe } => {
            let caught = match check_email_deliverability(reply, probe.as_str()) {
                Ok(d) => d.is_deliverable,
                Err(_) => false,
            };
            if caught {
                (
                    SmtpStage::Finished,
                    SmtpAction::Finish(Ok(smtp_details_of(true, catch_all_deliverability()))),
                )
            } else {
                (
                    SmtpStage::AskingRecipient { reconnected: false },
                    SmtpAction::Rcpt(String::from_str(to_email)),
                )
            }
        },
        SmtpStage::AskingRecipient { reconnected } => {
            let result: Result<Deliverability, SmtpError> = check_email_deliverability(reply, to_email);
            if !reconnected && needs_reconnect(&result) {
                (SmtpStage::Reconnecting, SmtpAction::Reconnect)
            } else {
                let outcome = match result {
                    Ok(d) => Ok(smtp_details_of(false, d)),
                    Err(e) => Err(e),
                };
                (SmtpStage::Finished, SmtpAction::Finish(outcome))
            }
        },
        SmtpStage::Finished => (SmtpStage::Finished, SmtpAction::Reconnect),
    }
}

} // verus!
