//! Recognize email providers from the host names of their mail exchangers.

use vstd::prelude::*;
use crate::text::{seq_ends_with, str_ends_with, to_lowercase, unicode_lowercase};

verus! {

/// The lower-cased `host` ends with `suffix`.
pub open spec fn host_has_suffix(host: Seq<char>, suffix: Seq<char>) -> bool {
    seq_ends_with(unicode_lowercase(host), suffix)
}

/// Check if the MX host is from Google, i.e. either a @gmail.com address, or
/// a Google Suite email.
pub fn is_gmail(host: &str) -> (r: bool)
    ensures
        r == host_has_suffix(host@, ".google.com."@),
{
    let lower = to_lowercase(host);
    str_ends_with(lower.as_str(), ".google.com.")
}

/// Check if a MX host is from outlook.
pub fn is_outlook(host: &str) -> (r: bool)
    ensures
        r == host_has_suffix(host@, ".mail.protection.outlook.com."@),
{
    let lower = to_lowercase(host);
    str_ends_with(lower.as_str(), ".mail.protection.outlook.com.")
}

/// Check if a MX host is from Microsoft: Outlook, Hotmail and Microsoft 365
/// addresses all have their MX hosts under `protection.outlook.com.`.
pub fn is_hotmail(host: &str) -> (r: bool)
    ensures
        r == host_has_suffix(host@, ".protection.outlook.com."@),
{
    let lower = to_lowercase(host);
    str_ends_with(lower.as_str(), ".protection.outlook.com.")
}

/// Check if a MX host is a Microsoft 365 (business) host, of the form
/// `<custom_domain>.mail.protection.outlook.com.`.
pub fn is_hotmail_b2b(host: &str) -> (r: bool)
    ensures
        r == host_has_suffix(host@, ".mail.protection.outlook.com."@),
{
    let lower = to_lowercase(host);
    str_ends_with(lower.as_str(), ".mail.protection.outlook.com.")
}

/// Check if a MX host is a consumer Outlook/Hotmail host, of the form
/// `*.olc.protection.outlook.com.`.
pub fn is_hotmail_b2c(host: &str) -> (r: bool)
    ensures
        r == host_has_suffix(host@, ".olc.protection.outlook.com."@),
{
    let lower = to_lowercase(host);
    str_ends_with(lower.as_str(), ".olc.protection.outlook.com.")
}

/// Check if a MX host is from Yahoo, e.g. `mta7.am0.yahoodns.net.`.
pub fn is_yahoo(host: &str) -> (r: bool)
    ensures
        r == host_has_suffix(host@, ".yahoodns.net."@),
{
    let lower = to_lowercase(host);
    str_ends_with(lower.as_str(), ".yahoodns.net.")
}

} // verus!
