//! The whole check in its simplest form: the domain of the address, and the
//! answer kept among those of its MX hosts.

use vstd::prelude::*;
use crate::syntax::second_segment;
use crate::text::{chars_of, find_char, first_index_of, lemma_first_index_props, string_of_range};

verus! {

/// Errors of the simple check.
#[derive(Debug, Clone, PartialEq, Eq)]
pub enum EmailExistsError {
    /// No MX host answered: the ISP is probably blocking SMTP ports.
    BlockedByIsp,
    /// I/O error, with its message.
    Io(String),
    /// Error while resolving MX lookups, with its message.
    MxLookup(String),
}

/// Why the MX lookup failed.
#[derive(Debug, Clone, PartialEq, Eq)]
pub enum MxLookupError {
    /// The resolver could not be set up; with the message.
    Io(String),
    /// The lookup failed; with the message.
    ResolveError(String),
}

/// The domain of an address: the part after its first `@`, up to the next
/// `@` if there is one.
pub fn domain_of_address(to_email: &str) -> (r: String)
    requires
        first_index_of(to_email@, '@') is Some,
    ensures
        second_segment(to_email@, '@') == Some(r@),
{
    let v = chars_of(to_email);
    proof { lemma_first_index_props(v@, '@'); }
    match find_char(&v, '@') {
        Some(at) => {
            let n = v.len();
            let rest = string_of_range(&v, at + 1, n);
            let rv = chars_of(rest.as_str());
            proof { lemma_first_index_props(rv@, '@'); }
            let end = match find_char(&rv, '@') {
                Some(j) => j,
                None => rv.len(),
            };
            assert(rv@.subrange(0, rv@.len() as int) == rv@);
            string_of_range(&rv, 0, end)
        },
        None => {
            assert(false);
            String::new()
        },
    }
}

/// The error of the check when the MX lookup failed.
pub fn mx_lookup_failure(e: MxLookupError) -> (r: EmailExistsError)
    ensures
        r == (match e {
            MxLookupError::Io(m) => EmailExistsError::Io(m),
            MxLookupError::ResolveError(m) => EmailExistsError::MxLookup(m),
        }),
{
    match e {
        MxLookupError::Io(m) => EmailExistsError::Io(m),
        MxLookupError::ResolveError(m) => EmailExistsError::MxLookup(m),
    }
}

/// Keep one of the answers of the MX hosts: a successful one, if any; when
/// every host failed, the ISP is taken to block SMTP ports.
pub fn any_success<T, E>(answers: Vec<Result<T, E>>) -> (r: Result<T, EmailExistsError>)
    ensures
        match r {
            Ok(d) => exists|i: int| 0 <= i < answers@.len() && answers@[i] == Ok::<T, E>(d),
            Err(e) => e == EmailExistsError::BlockedByIsp && forall|i: int|
                0 <= i < answers@.len() ==> answers@[i] is Err,
        },
{
    let mut results = answers;
    let ghost all = answers@;
    while results.len() > 0
        invariant
            results@ == all.subrange(0, results@.len() as int),
            results@.len() <= all.len(),
            all == answers@,
            forall|i: int| results@.len() <= i < all.len() ==> all[i] is Err,
        decreases results@.len(),
    {
        let ghost k = results@.len() as int;
        match results.pop() {
            Some(Ok(d)) => {
                assert(answers@[k - 1] == Ok::<T, E>(d));
                return Ok(d);
            },
            Some(Err(_)) => {},
            None => {},
        }
    }
    Err(EmailExistsError::BlockedByIsp)
}

} // verus!
