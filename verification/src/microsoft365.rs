//! Microsoft 365 verification through the OneDrive URL of an address.

use vstd::prelude::*;
use crate::smtp::SmtpDetails;
use crate::text::{chars_of, find_char, first_index_of, lemma_first_index_props, push_char, string_of_range};

verus! {

/// `s` with every `from` replaced by `to`.
pub open spec fn replace_char(s: Seq<char>, from: char, to: char) -> Seq<char> {
    s.map_values(|c: char| if c == from { to } else { c })
}

/// The OneDrive URL of an address `username@domain`, where `tenant` is the
/// domain before its first dot.
pub open spec fn onedrive_url_spec(email: Seq<char>) -> Seq<char> {
    let at = first_index_of(email, '@').unwrap();
    let username = email.subrange(0, at);
    let domain = email.subrange(at + 1, email.len() as int);
    let tenant = domain.subrange(0, first_index_of(domain, '.').unwrap());
    "https://"@ + tenant + "-my.sharepoint.com/personal/"@ + replace_char(username, '.', '_') + "_"@
        + replace_char(domain, '.', '_') + "/_layouts/15/onedrive.aspx"@
}

fn push_replaced(out: &mut String, v: &Vec<char>, from: usize, to: usize)
    requires
        from <= to <= v@.len(),
    ensures
        final(out)@ == old(out)@ + replace_char(v@.subrange(from as int, to as int), '.', '_'),
{
    let mut i = from;
    while i < to
        invariant
            from <= i <= to <= v@.len(),
            out@ == old(out)@ + replace_char(v@.subrange(from as int, i as int), '.', '_'),
        decreases to - i,
    {
        let c = v[i];
        push_char(out, if c == '.' { '_' } else { c });
        i += 1;
        assert(replace_char(v@.subrange(from as int, i as int), '.', '_') =~= replace_char(
            v@.subrange(from as int, i - 1),
            '.',
            '_',
        ).push(if c == '.' { '_' } else { c }));
    }
}

/// Convert an email address to its corresponding OneDrive URL. The address
/// holds an `@`, and its domain a dot (its syntax has been checked before).
pub fn get_onedrive_url(email_address: &str) -> (r: String)
    requires
        first_index_of(email_address@, '@') matches Some(at) && first_index_of(
            email_address@.subrange(at + 1, email_address@.len() as int),
            '.',
        ) is Some,
    ensures
        r@ == onedrive_url_spec(email_address@),
{
    let v = chars_of(email_address);
    proof { lemma_first_index_props(v@, '@'); }
    let at = match find_char(&v, '@') {
        Some(i) => {
            assert(i < v@.len());
            i
        },
        None => {
            assert(false);
            0
        },
    };
    let domain = string_of_range(&v, at + 1, v.len());
    let dv = chars_of(domain.as_str());
    proof { lemma_first_index_props(dv@, '.'); }
    let dot = match find_char(&dv, '.') {
        Some(i) => i,
        None => {
            assert(false);
            0
        },
    };
    let tenant = string_of_range(&dv, 0, dot);
    let mut out = String::from_str("https://");
    out = out.concat(tenant.as_str());
    out = out.concat("-my.sharepoint.com/personal/");
    push_replaced(&mut out, &v, 0, at);
    out = out.concat("_");
    push_replaced(&mut out, &dv, 0, dv.len());
    out = out.concat("/_layouts/15/onedrive.aspx");
    assert(dv@.subrange(0, dv@.len() as int) == dv@);
    out
}


/// Possible errors when checking Microsoft 365 addresses.
#[derive(Debug, Clone, PartialEq, Eq)]
pub enum Microsoft365Error {
    /// Error of the HTTP client, with its message.
    ReqwestError(String),
}

/// What the status of the OneDrive URL says: 403 (the personal site exists
/// but is private) means the account exists; any other status says nothing.
pub fn microsoft365_outcome(status: u16) -> (r: Option<SmtpDetails>)
    ensures
        r == (if status == 403 {
            Some(
                SmtpDetails {
                    can_connect_smtp: true,
                    has_full_inbox: false,
                    is_catch_all: false,
                    is_deliverable: true,
                    is_disabled: false,
                },
            )
        } else {
            None::<SmtpDetails>
        }),
{
    if status == 403 {
        Some(
            SmtpDetails {
                can_connect_smtp: true,
                has_full_inbox: false,
                is_catch_all: false,
                is_deliverable: true,
                is_disabled: false,
            },
        )
    } else {
        None
    }
}

} // verus!
