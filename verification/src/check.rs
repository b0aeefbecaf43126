//! The result of checking one address, and the decisions of the check: when
//! it stops early, which `MAIL FROM` address it uses, and which SMTP answer
//! it keeps when several MX hosts are asked at once.

use vstd::prelude::*;
use std::time::Duration;
use crate::input_output::Reachable;
use crate::misc::{MiscDetails, MiscError};
use crate::mx::{MxDetails, MxError, ResolveFailure};
use crate::outside::{parse_email_address, smtp_address_accepts};
use crate::smtp::{SmtpDebug, SmtpDebugVerifMethod, SmtpDetails};
use crate::smtp_error::SmtpError;
use crate::syntax::SyntaxDetails;

verus! {

/// Details about the email verification used for debugging.
#[derive(Debug)]
pub struct DebugDetails {
    /// The name of the server that performed the email verification.
    pub server_name: String,
    /// When the email verification started, in milliseconds since the Unix
    /// epoch (UTC).
    pub start_time: i64,
    /// When the email verification ended, in milliseconds since the Unix
    /// epoch (UTC).
    pub end_time: i64,
    /// The duration of the email verification.
    pub duration: Duration,
    /// How the SMTP verification went.
    pub smtp: SmtpDebug,
}

impl DebugDetails {
    /// The debug details of a verification run by `server_name` from
    /// `start_time` to `end_time`, whose SMTP verification was skipped.
    pub fn skipped(server_name: String, start_time: i64, end_time: i64, duration: Duration) -> (r:
        DebugDetails)
        ensures
            r.server_name == server_name,
            r.start_time == start_time,
            r.end_time == end_time,
            r.duration == duration,
            r.smtp.verif_method is Skipped,
    {
        DebugDetails {
            server_name,
            start_time,
            end_time,
            duration,
            smtp: SmtpDebug { verif_method: SmtpDebugVerifMethod::Skipped },
        }
    }
}

/// The result of checking one email address.
#[derive(Debug)]
pub struct CheckEmailOutput {
    /// Input by the user.
    pub input: String,
    /// How confident we are that the address is real.
    pub is_reachable: Reachable,
    /// Misc details about the email address.
    pub misc: Result<MiscDetails, MiscError>,
    /// Details about the MX host.
    pub mx: Result<MxDetails, MxError>,
    /// Details about the SMTP responses of the email.
    pub smtp: Result<SmtpDetails, SmtpError>,
    /// Details about the email address.
    pub syntax: SyntaxDetails,
    /// Details about the email verification used for debugging.
    pub debug: DebugDetails,
}

/// The check goes on to the MX lookup only for a syntactically valid
/// address.
pub fn continue_after_syntax(syntax: &SyntaxDetails) -> (r: bool)
    ensures
        r == syntax.is_valid_syntax,
{
    syntax.is_valid_syntax
}

/// The check goes on to the miscellaneous and SMTP checks only when the MX
/// lookup succeeded and found records.
pub fn continue_after_mx(mx: &Result<MxDetails, MxError>) -> (r: bool)
    ensures
        r == (mx matches Ok(d) && d.lookup is Ok),
{
    match mx {
        Ok(d) => match &d.lookup {
            Ok(_) => true,
            Err(_) => false,
        },
        Err(_) => false,
    }
}

/// SMTP details where nothing was found.
pub open spec fn no_smtp_details() -> SmtpDetails {
    SmtpDetails {
        can_connect_smtp: false,
        has_full_inbox: false,
        is_catch_all: false,
        is_deliverable: false,
        is_disabled: false,
    }
}

/// How confident we are that an address is real, from its miscellaneous and
/// SMTP details: risky when it is a catch-all, disposable or role address or
/// its inbox is full; invalid when it cannot receive mail (not deliverable,
/// no SMTP connection, or disabled); unknown when the SMTP verification
/// failed; safe otherwise.
pub open spec fn reachable_spec(misc: MiscDetails, smtp: Result<SmtpDetails, SmtpError>) -> Reachable {
    match smtp {
        Err(_) => Reachable::Unknown,
        Ok(s) => if misc.is_disposable || misc.is_role_account || s.is_catch_all || s.has_full_inbox {
            Reachable::Risky
        } else if !s.is_deliverable || !s.can_connect_smtp || s.is_disabled {
            Reachable::Invalid
        } else {
            Reachable::Safe
        },
    }
}

/// Compute how confident we are that an address is real.
pub fn calculate_reachable(misc: &MiscDetails, smtp: &Result<SmtpDetails, SmtpError>) -> (r:
    Reachable)
    ensures
        r == reachable_spec(*misc, *smtp),
{
    match smtp {
        Err(_) => Reachable::Unknown,
        Ok(s) => {
            if misc.is_disposable || misc.is_role_account || s.is_catch_all || s.has_full_inbox {
                Reachable::Risky
            } else if !s.is_deliverable || !s.can_connect_smtp || s.is_disabled {
                Reachable::Invalid
            } else {
                Reachable::Safe
            }
        },
    }
}

/// The four reachability classes, for every outcome of the SMTP verification:
/// unknown exactly when it failed; otherwise risky exactly when the address
/// is disposable, a role account, on a catch-all domain or has a full inbox;
/// invalid exactly when it is none of these and cannot receive mail (not
/// deliverable, no SMTP connection, or disabled); safe in the remaining case.
/// In particular a disposable address accepted by the server is risky, never
/// invalid or safe.
pub proof fn lemma_reachability_classes(misc: MiscDetails, smtp: Result<SmtpDetails, SmtpError>)
    ensures
        smtp is Err <==> reachable_spec(misc, smtp) == Reachable::Unknown,
        smtp matches Ok(s) ==> {
            let risky_flag = misc.is_disposable || misc.is_role_account || s.is_catch_all
                || s.has_full_inbox;
            let cannot_receive = !s.is_deliverable || !s.can_connect_smtp || s.is_disabled;
            &&& (reachable_spec(misc, smtp) == Reachable::Risky <==> risky_flag)
            &&& (reachable_spec(misc, smtp) == Reachable::Invalid <==> !risky_flag && cannot_receive)
            &&& (reachable_spec(misc, smtp) == Reachable::Safe <==> !risky_flag && !cannot_receive)
            &&& (misc.is_disposable ==> reachable_spec(misc, smtp) == Reachable::Risky)
        },
{
}

/// An address is called safe only when the SMTP server accepted it and none
/// of the risk flags is raised.
pub proof fn lemma_safe_means_deliverable(misc: MiscDetails, smtp: Result<SmtpDetails, SmtpError>)
    ensures
        reachable_spec(misc, smtp) == Reachable::Safe ==> (smtp matches Ok(s) && s.is_deliverable
            && s.can_connect_smtp && !s.is_disabled && !s.is_catch_all && !s.has_full_inbox
            && !misc.is_disposable && !misc.is_role_account),
        reachable_spec(misc, smtp) == Reachable::Unknown <==> smtp is Err,
{
}

/// The reachability of a check from the stages it ran: a check that stopped
/// at the syntax or at the MX lookup is invalid; one that found no host to
/// ask is unknown; otherwise it is computed from the details.
pub open spec fn output_reachable_spec(
    mx: Option<Result<MxDetails, MxError>>,
    misc: Option<MiscDetails>,
    smtp: Option<Result<SmtpDetails, SmtpError>>,
) -> Reachable {
    match (mx, misc, smtp) {
        (None, _, _) => Reachable::Invalid,
        (Some(_), None, _) => Reachable::Invalid,
        (Some(_), Some(m), Some(s)) => reachable_spec(m, s),
        (Some(_), Some(_), None) => Reachable::Unknown,
    }
}

/// The reachability of a check follows the stages it ran: a check that
/// stopped at the syntax (no MX lookup) or at the MX lookup (no miscellaneous
/// details) is invalid; one that ran every stage has the reachability of its
/// details; one that found no host to ask over SMTP is unknown.
pub proof fn lemma_output_reachability(
    mx: Option<Result<MxDetails, MxError>>,
    misc: Option<MiscDetails>,
    smtp: Option<Result<SmtpDetails, SmtpError>>,
)
    ensures
        mx is None ==> output_reachable_spec(mx, misc, smtp) == Reachable::Invalid,
        mx is Some && misc is None ==> output_reachable_spec(mx, misc, smtp) == Reachable::Invalid,
        mx is Some && misc is Some && smtp is None ==> output_reachable_spec(mx, misc, smtp)
            == Reachable::Unknown,
        mx is Some && misc is Some && smtp is Some ==> output_reachable_spec(mx, misc, smtp)
            == reachable_spec(misc->0, smtp->0),
{
}

/// The output of a check: the stages that were not run report their
/// default (a skipped MX lookup, empty miscellaneous and SMTP details).
pub fn check_email_output(
    input: String,
    syntax: SyntaxDetails,
    mx: Option<Result<MxDetails, MxError>>,
    misc: Option<MiscDetails>,
    smtp: Option<Result<SmtpDetails, SmtpError>>,
    debug: DebugDetails,
) -> (r: CheckEmailOutput)
    ensures
        r.input == input,
        r.is_reachable == output_reachable_spec(mx, misc, smtp),
        r.syntax == syntax,
        r.debug == debug,
        match mx {
            Some(m) => r.mx == m,
            None => r.mx matches Ok(d) && d.lookup matches Err(ResolveFailure::Other(m))
                && m@ == "Skipped"@,
        },
        match misc {
            Some(m) => r.misc == Ok::<MiscDetails, MiscError>(m),
            None => r.misc matches Ok(d) && !d.is_disposable && !d.is_role_account && !d.is_b2c
                && d.gravatar_url is None && d.haveibeenpwned is None,
        },
        match smtp {
            Some(s) => r.smtp == s,
            None => r.smtp == Ok::<SmtpDetails, SmtpError>(no_smtp_details()),
        },
{
    let is_reachable = match (&mx, &misc, &smtp) {
        (None, _, _) => Reachable::Invalid,
        (Some(_), None, _) => Reachable::Invalid,
        (Some(_), Some(m), Some(s)) => calculate_reachable(m, s),
        (Some(_), Some(_), None) => Reachable::Unknown,
    };
    CheckEmailOutput {
        input,
        is_reachable,
        misc: match misc {
            Some(m) => Ok(m),
            None => Ok(MiscDetails::default()),
        },
        mx: match mx {
            Some(m) => m,
            None => Ok(MxDetails::default()),
        },
        smtp: match smtp {
            Some(s) => s,
            None => Ok(
                SmtpDetails {
                    can_connect_smtp: false,
                    has_full_inbox: false,
                    is_catch_all: false,
                    is_deliverable: false,
                    is_disabled: false,
                },
            ),
        },
        syntax,
        debug,
    }
}

/// The address the check uses in `MAIL FROM`: the configured one when the
/// SMTP client accepts it as an address, else `user@example.org`.
pub fn from_email_or_default(from_email: &str) -> (r: String)
    ensures
        r@ == (if smtp_address_accepts(from_email@) {
            from_email@
        } else {
            "user@example.org"@
        }),
{
    match parse_email_address(from_email) {
        Some(a) => a,
        None => String::from_str("user@example.org"),
    }
}

/// The answer kept when the MX hosts are asked at once, given the answers in
/// the order they arrived: the first success, or else the last failure.
pub open spec fn race_spec(results: Seq<Result<SmtpDetails, SmtpError>>) -> Result<
    SmtpDetails,
    SmtpError,
>
    decreases results.len(),
{
    if results.len() <= 1 {
        results[0]
    } else if results[0] is Ok {
        results[0]
    } else {
        race_spec(results.subrange(1, results.len() as int))
    }
}

/// Of the answers of all MX hosts, in the order they arrived, the one kept is
/// the first success when there is one, and the last failure when every
/// answer is a failure.
pub proof fn lemma_race_keeps_first_success(results: Seq<Result<SmtpDetails, SmtpError>>, i: int)
    requires
        results.len() > 0,
    ensures
        0 <= i < results.len() && results[i] is Ok && (forall|j: int| 0 <= j < i ==> results[j] is Err)
            ==> race_spec(results) == results[i],
        (forall|j: int| 0 <= j < results.len() ==> results[j] is Err) ==> race_spec(results)
            == results[results.len() - 1],
    decreases results.len(),
{
    if results.len() > 1 {
        let rest = results.subrange(1, results.len() as int);
        lemma_race_keeps_first_success(rest, i - 1);
        if 0 <= i < results.len() && results[i] is Ok && (forall|j: int| 0 <= j < i ==> results[j] is Err) {
            if i > 0 {
                assert(results[0] is Err);
                assert(rest[i - 1] == results[i]);
                assert forall|j: int| 0 <= j < i - 1 implies rest[j] is Err by {
                    assert(rest[j] == results[j + 1]);
                }
            }
        }
        if forall|j: int| 0 <= j < results.len() ==> results[j] is Err {
            assert(results[0] is Err);
            assert forall|j: int| 0 <= j < rest.len() implies rest[j] is Err by {
                assert(rest[j] == results[j + 1]);
            }
            assert(rest[rest.len() - 1] == results[results.len() - 1]);
        }
    }
}

/// Keep one SMTP answer among those of all MX hosts, given in the order
/// they arrived: the first success, or else the last failure.
pub fn race_outcome(results: Vec<Result<SmtpDetails, SmtpError>>) -> (r: Result<
    SmtpDetails,
    SmtpError,
>)
    requires
        results@.len() > 0,
    ensures
        r == race_spec(results@),
{
    let mut results = results;
    let ghost all = results@;
    let mut kept = results.pop();
    // Keep the last answer, then walk back to the first: an earlier success
    // replaces what is kept, an earlier failure changes nothing.
    let ghost n = all.len();
    proof {
        assert(all.subrange(n - 1, n as int) =~= seq![all[n - 1]]);
    }
    while results.len() > 0
        invariant
            0 <= results@.len() < n,
            results@ == all.subrange(0, results@.len() as int),
            n == all.len(),
            kept == Some(race_spec(all.subrange(results@.len() as int, n as int))),
        decreases results@.len(),
    {
        let ghost k = results@.len() as int;
        let next = results.pop();
        match next {
            Some(res) => {
                proof {
                    let tail = all.subrange(k - 1, n as int);
                    assert(tail.subrange(1, tail.len() as int) =~= all.subrange(k, n as int));
                    assert(tail[0] == res);
                }
                match res {
                    Ok(d) => {
                        kept = Some(Ok(d));
                    },
                    Err(_) => {},
                }
            },
            None => {},
        }
    }
    assert(all.subrange(0, n as int) =~= all);
    kept.unwrap()
}

/// When the MX hosts are asked at once, the answer kept is one of their
/// answers, and it is a success whenever any host succeeded.
pub proof fn lemma_race_keeps_a_success(results: Seq<Result<SmtpDetails, SmtpError>>)
    requires
        results.len() > 0,
    ensures
        exists|i: int| 0 <= i < results.len() && results[i] == race_spec(results),
        (exists|i: int| 0 <= i < results.len() && results[i] is Ok) ==> race_spec(results) is Ok,
    decreases results.len(),
{
    if results.len() > 1 && results[0] is Err {
        let tail = results.subrange(1, results.len() as int);
        lemma_race_keeps_a_success(tail);
        let j = choose|j: int| 0 <= j < tail.len() && tail[j] == race_spec(tail);
        assert(results[j + 1] == race_spec(results));
        if exists|i: int| 0 <= i < results.len() && results[i] is Ok {
            let i = choose|i: int| 0 <= i < results.len() && results[i] is Ok;
            assert(tail[i - 1] is Ok);
        }
    } else {
        assert(results[0] == race_spec(results));
    }
}

/// The `MAIL FROM` address is always one that the SMTP client accepts.
pub proof fn lemma_from_email_accepted(from_email: Seq<char>)
    ensures
        smtp_address_accepts(
            if smtp_address_accepts(from_email) {
                from_email
            } else {
                "user@example.org"@
            },
        ),
{
    reveal_strlit("user@example.org");
}

} // verus!
