//! Gmail verification through the `gxlu` page: the page sets a cookie only
//! for addresses that exist.

use vstd::prelude::*;
use crate::smtp::SmtpDetails;

verus! {

/// Possible errors when checking Gmail addresses.
#[derive(Debug, Clone, PartialEq, Eq)]
pub enum GmailError {
    /// Error of the HTTP client, with its message.
    ReqwestError(String),
}

/// What the answer of the `gxlu` page says: the address exists when the
/// answer sets a cookie.
pub fn gmail_outcome(has_set_cookie: bool) -> (r: SmtpDetails)
    ensures
        r == (SmtpDetails {
            can_connect_smtp: true,
            has_full_inbox: false,
            is_catch_all: false,
            is_deliverable: has_set_cookie,
            is_disabled: false,
        }),
{
    SmtpDetails {
        can_connect_smtp: true,
        has_full_inbox: false,
        is_catch_all: false,
        is_deliverable: has_set_cookie,
        is_disabled: false,
    }
}

} // verus!
