//! The calls this library makes into other crates, each with the contract
//! that the library relies on.

use vstd::prelude::*;
use std::str::FromStr;
use rand::{distributions::Alphanumeric, Rng};

verus! {

/// A character that `async_smtp::EmailAddress::new` refuses: non-ASCII,
/// an ASCII control character, ASCII whitespace, `<` or `>`.
pub open spec fn smtp_address_refuses(c: char) -> bool {
    (c as u32) >= 128 || (c as u32) <= 0x1f || (c as u32) == 0x7f || c == ' ' || c == '\t' || c
        == '\n' || c == '\x0C' || c == '\r' || c == '<' || c == '>'
}

/// The string is accepted by `async_smtp::EmailAddress::new`.
pub open spec fn smtp_address_accepts(s: Seq<char>) -> bool {
    forall|i: int| 0 <= i < s.len() ==> !smtp_address_refuses(#[trigger] s[i])
}

/// `async_smtp::EmailAddress::from_str`: accepts exactly the strings without
/// a refused character (it does no other validation), and keeps the text as
/// it is. The address is returned as text.
#[verifier::external_body]
pub(crate) fn parse_email_address(s: &str) -> (r: Option<String>)
    ensures
        r is Some <==> smtp_address_accepts(s@),
        r matches Some(a) ==> a@ == s@,
{
    match async_smtp::EmailAddress::from_str(s) {
        Ok(a) => Some(a.to_string()),
        Err(_) => None,
    }
}

/// The string holds exactly one `@`, neither first nor last.
pub open spec fn single_inner_at(s: Seq<char>) -> bool {
    exists|i: int|
        0 < i < s.len() - 1 && s[i] == '@' && forall|j: int|
            0 <= j < s.len() && j != i ==> s[j] != '@'
}

/// `mailchecker::is_valid`: the address has a valid syntax and its domain is
/// not a known disposable one. Its source accepts only addresses with exactly
/// one `@`, neither first nor last (it first runs
/// `fast_chemail::is_valid_email`), and that is all that is stated. Which
/// domains count as disposable is left unsaid: besides its built-in list it
/// consults a process-wide list of custom domains that any code can extend,
/// so two calls on one address may answer differently.
#[verifier::external_body]
pub(crate) fn mailchecker_is_valid(email: &str) -> (r: bool)
    ensures
        r ==> single_inner_at(email@),
{
    mailchecker::is_valid(email)
}

/// The least of three numbers.
pub open spec fn min3(a: nat, b: nat, c: nat) -> nat {
    if a <= b && a <= c {
        a
    } else if b <= c {
        b
    } else {
        c
    }
}

/// The Levenshtein distance between two character sequences: the least
/// number of insertions, deletions and substitutions of characters that turn
/// one into the other.
pub open spec fn levenshtein_distance(a: Seq<char>, b: Seq<char>) -> nat
    decreases a.len() + b.len(),
{
    if a.len() == 0 {
        b.len()
    } else if b.len() == 0 {
        a.len()
    } else {
        min3(
            levenshtein_distance(a.drop_last(), b) + 1,
            levenshtein_distance(a, b.drop_last()) + 1,
            levenshtein_distance(a.drop_last(), b.drop_last()) + if a.last() == b.last() {
                0nat
            } else {
                1nat
            },
        )
    }
}

/// `levenshtein::levenshtein`: the Levenshtein distance between the
/// characters of two strings.
#[verifier::external_body]
pub(crate) fn levenshtein(a: &str, b: &str) -> (r: usize)
    ensures
        r as nat == levenshtein_distance(a@, b@),
{
    levenshtein::levenshtein(a, b)
}

/// The MD5 digest of the UTF-8 encoding of a text.
pub uninterp spec fn md5_digest(text: Seq<char>) -> Seq<u8>;

/// `md5::compute` on the bytes of a `&str`: the MD5 digest of the text's
/// UTF-8 encoding, its 16 bytes in order. Its result is named `md5_digest`.
#[verifier::external_body]
pub(crate) fn md5_compute(text: &str) -> (r: Vec<u8>)
    ensures
        r@ == md5_digest(text@),
        r@.len() == 16,
{
    md5::compute(text).0.to_vec()
}

/// An ASCII letter or digit.
pub open spec fn is_ascii_alphanumeric(c: char) -> bool {
    ('a' <= c && c <= 'z') || ('A' <= c && c <= 'Z') || ('0' <= c && c <= '9')
}

/// `rand`'s `Alphanumeric` distribution, sampled `len` times from the
/// thread-local generator (`rand::thread_rng`): random ASCII letters and
/// digits. Only their number and their kind are stated; which ones come out
/// is chance.
#[verifier::external_body]
pub(crate) fn random_alphanumeric(len: usize) -> (r: String)
    ensures
        r@.len() == len,
        forall|i: int| 0 <= i < len ==> is_ascii_alphanumeric(#[trigger] r@[i]),
{
    let mut rng = rand::thread_rng();
    let mut s = String::new();
    for _ in 0..len {
        s.push(char::from(rng.sample(Alphanumeric)));
    }
    s
}

} // verus!
