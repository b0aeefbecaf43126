//! Verification through a provider's password recovery page in a headless
//! browser: what the page shows says whether the account exists, and failed
//! sessions are tried again a bounded number of times.

use vstd::prelude::*;
use crate::smtp::SmtpDetails;

verus! {

/// What Yahoo's password recovery page shows after the address is entered.
#[derive(Debug, Clone, Copy, PartialEq, Eq, Structural)]
pub enum YahooRecoveryPage {
    /// "Sorry, we don't recognise that email address or phone number".
    ErrorMessage,
    /// "This account has been deactivated due to inactivity".
    AccountLocked,
    /// A reCAPTCHA challenge.
    Recaptcha,
    /// "Enter verification code sent to your email address".
    EmailVerifyChallenge,
    /// "Select an option to sign in to your account".
    ChallengeSelector,
}

/// What Microsoft's password recovery page shows after the address is
/// entered.
#[derive(Debug, Clone, Copy, PartialEq, Eq, Structural)]
pub enum HotmailRecoveryPage {
    /// "Try entering your Microsoft account again. We don't recognise this
    /// one." (member name error).
    MemberNameError,
    /// The same message, under the sign-in name field.
    SigninNameError,
    /// "We need to verify your identity".
    SelectProofTitle,
    /// "Enter the code generated by your authenticator app".
    EnterVerification,
}

/// The details of an account whose recovery page was read: deliverable when
/// the page asks to prove the identity, disabled when it says the account
/// is locked.
pub open spec fn recovery_details(is_deliverable: bool, is_disabled: bool) -> SmtpDetails {
    SmtpDetails {
        can_connect_smtp: true,
        has_full_inbox: false,
        is_catch_all: false,
        is_deliverable,
        is_disabled,
    }
}

/// What Yahoo's recovery page says of the account.
pub fn yahoo_recovery_outcome(page: YahooRecoveryPage) -> (r: SmtpDetails)
    ensures
        r == (match page {
            YahooRecoveryPage::ErrorMessage => recovery_details(false, false),
            YahooRecoveryPage::AccountLocked => recovery_details(false, true),
            _ => recovery_details(true, false),
        }),
{
    let (is_deliverable, is_disabled) = match page {
        YahooRecoveryPage::ErrorMessage => (false, false),
        YahooRecoveryPage::AccountLocked => (false, true),
        YahooRecoveryPage::Recaptcha => (true, false),
        YahooRecoveryPage::EmailVerifyChallenge => (true, false),
        YahooRecoveryPage::ChallengeSelector => (true, false),
    };
    SmtpDetails {
        can_connect_smtp: true,
        has_full_inbox: false,
        is_catch_all: false,
        is_deliverable,
        is_disabled,
    }
}

/// What Microsoft's recovery page says of the account: it exists when the
/// page asks for a proof of identity or a verification code.
pub fn hotmail_recovery_outcome(page: HotmailRecoveryPage) -> (r: SmtpDetails)
    ensures
        r == recovery_details(
            page is SelectProofTitle || page is EnterVerification,
            false,
        ),
{
    let is_deliverable = match page {
        HotmailRecoveryPage::MemberNameError => false,
        HotmailRecoveryPage::SigninNameError => false,
        HotmailRecoveryPage::SelectProofTitle => true,
        HotmailRecoveryPage::EnterVerification => true,
    };
    SmtpDetails {
        can_connect_smtp: true,
        has_full_inbox: false,
        is_catch_all: false,
        is_deliverable,
        is_disabled: false,
    }
}

/// The most sessions a headless check opens for one address.
pub const MAX_HEADLESS_ATTEMPTS: u32 = 3;

/// After a failed session, numbered `attempts` (from 1), whether another one
/// is opened (after a pause of one second).
pub fn retry_headless(attempts: u32) -> (r: bool)
    ensures
        r == (attempts < MAX_HEADLESS_ATTEMPTS),
{
    attempts < MAX_HEADLESS_ATTEMPTS
}

/// The number of polls of the browser driver's status page before the check
/// gives up waiting for it.
pub const MAX_DRIVER_POLLS: u32 = 10;

/// Waiting for the browser driver to start: after `attempts` polls that
/// failed, whether to poll again (after a pause of one second); once the
/// polls are exhausted, the start has failed.
pub fn poll_driver_again(attempts: u32) -> (r: bool)
    ensures
        r == (attempts < MAX_DRIVER_POLLS),
{
    attempts < MAX_DRIVER_POLLS
}

} // verus!
