//! Whether an address appears in the HaveIBeenPwned breach database.

use vstd::prelude::*;

verus! {

/// The HaveIBeenPwned request URL for an address.
pub open spec fn haveibeenpwned_url_spec(to_email: Seq<char>) -> Seq<char> {
    "https://haveibeenpwned.com/api/v3/breachedaccount/"@ + to_email + "?truncateResponse=false"@
}

/// The URL that asks HaveIBeenPwned for the breaches of `to_email`.
pub fn haveibeenpwned_url(to_email: &str) -> (r: String)
    ensures
        r@ == haveibeenpwned_url_spec(to_email@),
{
    let out = String::from_str("https://haveibeenpwned.com/api/v3/breachedaccount/");
    let out = out.concat(to_email);
    out.concat("?truncateResponse=false")
}

/// The value of the `hibp-api-key` header: the key, or the empty string.
pub fn haveibeenpwned_api_key_header(api_key: Option<String>) -> (r: String)
    ensures
        r@ == (match api_key {
            Some(k) => k@,
            None => Seq::<char>::empty(),
        }),
{
    match api_key {
        Some(k) => k,
        None => String::new(),
    }
}

/// What the answer says: the number of breaches the address was found in.
/// A success status (2xx) gives the number of breaches in the body (a body
/// that is not a list of breaches counts as none), 404 means none, and any
/// other status or a failed request says nothing.
pub open spec fn haveibeenpwned_outcome_spec(status: Option<u16>, breach_count: nat) -> Option<
    nat,
> {
    match status {
        Some(s) => if 200 <= s <= 299 {
            Some(breach_count)
        } else if s == 404 {
            Some(0)
        } else {
            None
        },
        None => None,
    }
}

/// The answer gives the number of breaches exactly when the request went
/// through with a success status (the count of the body) or with 404 (no
/// breach); a failed request or any other status tells nothing.
pub proof fn lemma_breach_count_cases(status: Option<u16>, breach_count: nat)
    ensures
        status matches Some(s) && 200 <= s < 300 ==> haveibeenpwned_outcome_spec(status, breach_count)
            == Some(breach_count),
        status == Some(404u16) ==> haveibeenpwned_outcome_spec(status, breach_count) == Some(0nat),
        status is None ==> haveibeenpwned_outcome_spec(status, breach_count) is None,
        status matches Some(s) && !(200 <= s < 300) && s != 404 ==> haveibeenpwned_outcome_spec(
            status,
            breach_count,
        ) is None,
{
}

/// Read the answer of HaveIBeenPwned: `status` is `None` when the request
/// failed, and `breach_count` is the number of breaches in the body. The
/// result is the number of breaches the address was found in, if the answer
/// tells it.
pub fn haveibeenpwned_outcome(status: Option<u16>, breach_count: usize) -> (r: Option<usize>)
    ensures
        match r {
            Some(n) => haveibeenpwned_outcome_spec(status, breach_count as nat) == Some(n as nat),
            None => haveibeenpwned_outcome_spec(status, breach_count as nat) is None,
        },
{
    match status {
        Some(s) => {
            if 200 <= s && s <= 299 {
                Some(breach_count)
            } else if s == 404 {
                Some(0)
            } else {
                None
            }
        },
        None => None,
    }
}

} // verus!
