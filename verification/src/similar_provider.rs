//! The suggestion for misspelled mail providers by provider name: the
//! provider name (the domain before its first dot) is compared with the
//! known provider names, and the top-level domain is kept.

use vstd::prelude::*;
use crate::outside::{levenshtein, levenshtein_distance};
use crate::syntax::{first_segment, second_segment, SyntaxDetails};
use crate::text::{chars_of, find_char, first_index_of, lemma_first_index_props, string_of_range};

verus! {

/// The first known provider name within distance 2 of `provider`.
pub open spec fn similar_provider_name(provider: Seq<char>) -> Option<Seq<char>> {
    if levenshtein_distance(provider, "gmail"@) < 3 {
        Some("gmail"@)
    } else if levenshtein_distance(provider, "yahoo"@) < 3 {
        Some("yahoo"@)
    } else {
        None
    }
}

/// Suggest an address on a known provider when the provider part of the
/// domain is close to its name: `username@provider.tld`, where `tld` is the
/// second dot-separated part of the domain. The domain holds a dot (its
/// syntax has been checked before).
pub fn get_similar_mail_provider(syntax: &mut SyntaxDetails)
    requires
        first_index_of(old(syntax).domain@, '.') is Some,
    ensures
        match similar_provider_name(first_segment(old(syntax).domain@, '.')) {
            Some(p) => final(syntax).suggestion matches Some(s) && s@ == old(syntax).username@ + "@"@
                + p + "."@ + second_segment(old(syntax).domain@, '.').unwrap() && *final(syntax) == (
            SyntaxDetails { suggestion: final(syntax).suggestion, ..*old(syntax) }),
            None => *final(syntax) == *old(syntax),
        },
{
    let v = chars_of(syntax.domain.as_str());
    proof { lemma_first_index_props(v@, '.'); }
    let dot = match find_char(&v, '.') {
        Some(i) => i,
        None => {
            assert(false);
            0
        },
    };
    let provider = string_of_range(&v, 0, dot);
    let rest = string_of_range(&v, dot + 1, v.len());
    let rv = chars_of(rest.as_str());
    proof { lemma_first_index_props(rv@, '.'); }
    let end = match find_char(&rv, '.') {
        Some(j) => j,
        None => rv.len(),
    };
    let tld = string_of_range(&rv, 0, end);
    assert(rv@.subrange(0, rv@.len() as int) == rv@);
    let name = if levenshtein(provider.as_str(), "gmail") < 3 {
        "gmail"
    } else if levenshtein(provider.as_str(), "yahoo") < 3 {
        "yahoo"
    } else {
        return;
    };
    let s = syntax.username.clone().concat("@").concat(name).concat(".").concat(tld.as_str());
    syntax.suggestion = Some(s);
}

/// The suggested provider name is `gmail` when the provider part is within
/// Levenshtein distance 2 of it, else `yahoo` when within distance 2 of
/// that, else none.
pub proof fn lemma_similar_provider_name_choice(provider: Seq<char>)
    ensures
        levenshtein_distance(provider, "gmail"@) < 3 ==> similar_provider_name(provider) == Some("gmail"@),
        levenshtein_distance(provider, "gmail"@) >= 3 && levenshtein_distance(provider, "yahoo"@) < 3
            ==> similar_provider_name(provider) == Some("yahoo"@),
        levenshtein_distance(provider, "gmail"@) >= 3 && levenshtein_distance(provider, "yahoo"@) >= 3
            ==> similar_provider_name(provider) is None,
{
}

} // verus!
