//! Syntax validation of email addresses, and suggestions for misspelled
//! provider domains.

use vstd::prelude::*;
use crate::outside::{levenshtein, levenshtein_distance, mailchecker_is_valid, parse_email_address, single_inner_at, smtp_address_accepts};
use crate::text::{chars_of, find_char, first_index_of, lemma_first_index_props, string_of_range};

verus! {

/// Syntax information after parsing an email address.
#[derive(Debug, Clone, PartialEq, Eq)]
pub struct SyntaxDetails {
    /// The email address. It will be `None` if the email address is
    /// ill-formed.
    pub address: Option<String>,
    /// The domain name, after "@". It will be the empty string if the email
    /// address is ill-formed.
    pub domain: String,
    /// Does the email have a valid syntax?
    pub is_valid_syntax: bool,
    /// The username, before "@". It will be the empty string if the email
    /// address is ill-formed.
    pub username: String,
    /// A suggested address, when the domain looks like a misspelled one.
    pub suggestion: Option<String>,
}

/// The details of an ill-formed address.
pub open spec fn invalid_syntax(d: SyntaxDetails) -> bool {
    &&& d.address is None
    &&& d.domain@ == Seq::<char>::empty()
    &&& !d.is_valid_syntax
    &&& d.username@ == Seq::<char>::empty()
    &&& d.suggestion is None
}

impl Default for SyntaxDetails {
    fn default() -> (r: Self)
        ensures
            invalid_syntax(r),
    {
        SyntaxDetails {
            address: None,
            domain: String::new(),
            is_valid_syntax: false,
            username: String::new(),
            suggestion: None,
        }
    }
}

/// The part of `s` before the first `c` (all of `s` when there is none).
pub open spec fn first_segment(s: Seq<char>, c: char) -> Seq<char> {
    match first_index_of(s, c) {
        Some(i) => s.subrange(0, i),
        None => s,
    }
}

/// The part of `s` after the first `c` and before the next one; None when
/// there is no `c`.
pub open spec fn second_segment(s: Seq<char>, c: char) -> Option<Seq<char>> {
    match first_index_of(s, c) {
        Some(i) => Some(first_segment(s.subrange(i + 1, s.len() as int), c)),
        None => None,
    }
}

/// The address is well-formed: accepted as an SMTP address, and by the mail
/// checker, whose verdict (valid syntax, not a disposable domain) is
/// `mailchecker_ok`.
pub open spec fn valid_syntax_spec(s: Seq<char>, mailchecker_ok: bool) -> bool {
    smtp_address_accepts(s) && mailchecker_ok
}

/// The syntax details of a well-formed address `s`: the address itself, the
/// part before the `@` as username, the part after it as domain.
pub open spec fn valid_details(s: Seq<char>, d: SyntaxDetails) -> bool {
    &&& d.address matches Some(a) && a@ == s
    &&& d.is_valid_syntax
    &&& d.username@ == first_segment(s, '@')
    &&& second_segment(s, '@') == Some(d.domain@)
    &&& d.suggestion is None
    &&& d.username@ + "@"@ + d.domain@ == s
}

/// The first and second `c`-separated parts of `s`, as `split(c)` gives them.
fn split_two(s: &str, c: char) -> (r: (String, Option<String>))
    ensures
        r.0@ == first_segment(s@, c),
        match r.1 {
            Some(t) => second_segment(s@, c) == Some(t@),
            None => second_segment(s@, c) is None,
        },
{
    let v = chars_of(s);
    proof { lemma_first_index_props(v@, c); }
    match find_char(&v, c) {
        Some(i) => {
            let first = string_of_range(&v, 0, i);
            let rest = string_of_range(&v, i + 1, v.len());
            let rv = chars_of(rest.as_str());
            proof { lemma_first_index_props(rv@, c); }
            let end = match find_char(&rv, c) {
                Some(j) => j,
                None => rv.len(),
            };
            let second = string_of_range(&rv, 0, end);
            assert(rv@.subrange(0, rv@.len() as int) == rv@);
            (first, Some(second))
        },
        None => {
            let all = string_of_range(&v, 0, v.len());
            assert(v@.subrange(0, v@.len() as int) == v@);
            (all, None)
        },
    }
}

/// The syntax details of `email_address`, given the verdict of the mail
/// checker (`mailchecker::is_valid`) on it, which accepts only addresses with
/// exactly one `@`, neither first nor last.
pub fn syntax_details_from(email_address: &str, mailchecker_ok: bool) -> (r: SyntaxDetails)
    requires
        mailchecker_ok ==> single_inner_at(email_address@),
    ensures
        valid_syntax_spec(email_address@, mailchecker_ok) ==> valid_details(email_address@, r),
        !valid_syntax_spec(email_address@, mailchecker_ok) ==> invalid_syntax(r),
{
    let address = match parse_email_address(email_address) {
        Some(a) => {
            if mailchecker_ok {
                a
            } else {
                return SyntaxDetails::default();
            }
        },
        None => {
            return SyntaxDetails::default();
        },
    };
    let (username, domain) = split_two(address.as_str(), '@');
    let domain = match domain {
        Some(d) => d,
        None => {
            proof {
                let i = choose|i: int|
                    0 < i < email_address@.len() - 1 && email_address@[i] == '@' && forall|j: int|
                        0 <= j < email_address@.len() && j != i ==> email_address@[j] != '@';
                lemma_first_index_props(email_address@, '@');
            }
            return SyntaxDetails::default();
        },
    };
    proof {
        let e = email_address@;
        let i = choose|i: int|
            0 < i < e.len() - 1 && e[i] == '@' && forall|j: int|
                0 <= j < e.len() && j != i ==> e[j] != '@';
        lemma_first_index_props(e, '@');
        let k = first_index_of(e, '@')->0;
        assert(k == i) by {
            if k != i {
                assert(e[k] == '@');
            }
        }
        let rest = e.subrange(i + 1, e.len() as int);
        lemma_first_index_props(rest, '@');
        if first_index_of(rest, '@') is Some {
            let m = first_index_of(rest, '@')->0;
            assert(e[i + 1 + m] == rest[m]);
        }
        reveal_strlit("@");
        assert(username@ + "@"@ + domain@ =~= e);
    }
    SyntaxDetails {
        address: Some(address),
        domain,
        is_valid_syntax: true,
        username,
        suggestion: None,
    }
}

/// From an `email_address` string, compute syntax information about it, such
/// as username and domain. The mail checker is asked whether the address is
/// valid: its answer can change with the custom domains registered with it in
/// the process, so the contract states what holds whatever it answers, and
/// `syntax_details_from` what follows from each answer.
pub fn check_syntax(email_address: &str) -> (r: SyntaxDetails)
    ensures
        r.is_valid_syntax ==> smtp_address_accepts(email_address@) && valid_details(email_address@, r),
        !r.is_valid_syntax ==> invalid_syntax(r),
        !smtp_address_accepts(email_address@) ==> invalid_syntax(r),
{
    let ok = mailchecker_is_valid(email_address);
    syntax_details_from(email_address, ok)
}

/// The first of the common mail providers whose domain is within distance 2
/// of `domain`.
pub open spec fn similar_provider_spec(domain: Seq<char>) -> Option<Seq<char>> {
    if levenshtein_distance(domain, "gmail.com"@) < 3 {
        Some("gmail.com"@)
    } else if levenshtein_distance(domain, "yahoo.com"@) < 3 {
        Some("yahoo.com"@)
    } else if levenshtein_distance(domain, "outlook.com"@) < 3 {
        Some("outlook.com"@)
    } else if levenshtein_distance(domain, "hotmail.com"@) < 3 {
        Some("hotmail.com"@)
    } else if levenshtein_distance(domain, "protonmail.com"@) < 3 {
        Some("protonmail.com"@)
    } else if levenshtein_distance(domain, "icloud.com"@) < 3 {
        Some("icloud.com"@)
    } else if levenshtein_distance(domain, "yandex.com"@) < 3 {
        Some("yandex.com"@)
    } else {
        None
    }
}

fn is_close(a: &str, b: &str) -> (r: bool)
    ensures
        r == (levenshtein_distance(a@, b@) < 3),
{
    levenshtein(a, b) < 3
}

/// Supplies the syntax details with a suggestion: the address on the first
/// common mail provider whose domain is within distance 2 of the address's
/// domain (by Levenshtein distance). Without such a provider, nothing
/// changes.
pub fn get_similar_mail_provider(syntax: &mut SyntaxDetails)
    ensures
        match similar_provider_spec(old(syntax).domain@) {
            Some(p) => final(syntax).suggestion matches Some(s) && s@ == old(syntax).username@ + "@"@ + p
                && *final(syntax) == (SyntaxDetails { suggestion: final(syntax).suggestion, ..*old(syntax) }),
            None => *final(syntax) == *old(syntax),
        },
{
    let d = syntax.domain.as_str();
    let provider = if is_close(d, "gmail.com") {
        "gmail.com"
    } else if is_close(d, "yahoo.com") {
        "yahoo.com"
    } else if is_close(d, "outlook.com") {
        "outlook.com"
    } else if is_close(d, "hotmail.com") {
        "hotmail.com"
    } else if is_close(d, "protonmail.com") {
        "protonmail.com"
    } else if is_close(d, "icloud.com") {
        "icloud.com"
    } else if is_close(d, "yandex.com") {
        "yandex.com"
    } else {
        return;
    };
    let s = syntax.username.clone().concat("@").concat(provider);
    syntax.suggestion = Some(s);
}

/// The suggested provider is, in the order gmail.com, yahoo.com, outlook.com,
/// hotmail.com, protonmail.com, icloud.com, yandex.com, the first whose
/// domain is within Levenshtein distance 2 of `domain`; none is suggested
/// when every one of them is farther.
pub proof fn lemma_similar_provider_choice(domain: Seq<char>)
    ensures
        (levenshtein_distance(domain, "gmail.com"@) < 3) ==> similar_provider_spec(domain) == Some("gmail.com"@),
        (levenshtein_distance(domain, "gmail.com"@) >= 3
            && levenshtein_distance(domain, "yahoo.com"@) < 3) ==> similar_provider_spec(domain) == Some("yahoo.com"@),
        (levenshtein_distance(domain, "gmail.com"@) >= 3 && levenshtein_distance(domain, "yahoo.com"@) >= 3
            && levenshtein_distance(domain, "outlook.com"@) < 3) ==> similar_provider_spec(domain) == Some("outlook.com"@),
        (levenshtein_distance(domain, "gmail.com"@) >= 3 && levenshtein_distance(domain, "yahoo.com"@) >= 3 && levenshtein_distance(domain, "outlook.com"@) >= 3
            && levenshtein_distance(domain, "hotmail.com"@) < 3) ==> similar_provider_spec(domain) == Some("hotmail.com"@),
        (levenshtein_distance(domain, "gmail.com"@) >= 3 && levenshtein_distance(domain, "yahoo.com"@) >= 3 && levenshtein_distance(domain, "outlook.com"@) >= 3 && levenshtein_distance(domain, "hotmail.com"@) >= 3
            && levenshtein_distance(domain, "protonmail.com"@) < 3) ==> similar_provider_spec(domain) == Some("protonmail.com"@),
        (levenshtein_distance(domain, "gmail.com"@) >= 3 && levenshtein_distance(domain, "yahoo.com"@) >= 3 && levenshtein_distance(domain, "outlook.com"@) >= 3 && levenshtein_distance(domain, "hotmail.com"@) >= 3 && levenshtein_distance(domain, "protonmail.com"@) >= 3
            && levenshtein_distance(domain, "icloud.com"@) < 3) ==> similar_provider_spec(domain) == Some("icloud.com"@),
        (levenshtein_distance(domain, "gmail.com"@) >= 3 && levenshtein_distance(domain, "yahoo.com"@) >= 3 && levenshtein_distance(domain, "outlook.com"@) >= 3 && levenshtein_distance(domain, "hotmail.com"@) >= 3 && levenshtein_distance(domain, "protonmail.com"@) >= 3 && levenshtein_distance(domain, "icloud.com"@) >= 3
            && levenshtein_distance(domain, "yandex.com"@) < 3) ==> similar_provider_spec(domain) == Some("yandex.com"@),
        (levenshtein_distance(domain, "gmail.com"@) >= 3
            && levenshtein_distance(domain, "yahoo.com"@) >= 3
            && levenshtein_distance(domain, "outlook.com"@) >= 3
            && levenshtein_distance(domain, "hotmail.com"@) >= 3
            && levenshtein_distance(domain, "protonmail.com"@) >= 3
            && levenshtein_distance(domain, "icloud.com"@) >= 3
            && levenshtein_distance(domain, "yandex.com"@) >= 3) ==> similar_provider_spec(domain) is None,
{
}

} // verus!
