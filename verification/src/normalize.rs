//! Normalization of email addresses, so that addresses that reach the same
//! mailbox compare equal.

use vstd::prelude::*;
use crate::text::{
    ascii_lower_char, chars_of, find_char, first_index_of, last_index_of, lemma_first_index_none,
    lemma_first_index_props, lemma_last_index_of,
    lemma_last_index_props, push_char, rfind_char, str_eq, string_of, string_of_range,
};

verus! {

/// The part of `s` before the first `c`, or all of `s` when there is no `c`.
pub open spec fn prefix_before(s: Seq<char>, c: char) -> Seq<char> {
    match first_index_of(s, c) {
        Some(j) => s.subrange(0, j),
        None => s,
    }
}

/// ASCII lower-casing of `s`, with every `.` removed.
pub open spec fn lower_no_dots(s: Seq<char>) -> Seq<char>
    decreases s.len(),
{
    if s.len() == 0 {
        Seq::empty()
    } else {
        let rest = lower_no_dots(s.drop_last());
        let c = ascii_lower_char(s.last());
        if c == '.' {
            rest
        } else {
            rest.push(c)
        }
    }
}

/// The Gmail form of a username: sub-address (after `+`) removed, dots
/// removed, lower-cased, on the `gmail.com` domain.
pub open spec fn gmail_normalized(username: Seq<char>) -> Seq<char> {
    lower_no_dots(prefix_before(username, '+')) + "@gmail.com"@
}

/// The domains that Gmail serves.
pub open spec fn is_gmail_domain(domain: Seq<char>) -> bool {
    domain == "gmail.com"@ || domain == "googlemail.com"@
}

/// The username of an address: everything before its last `@`.
pub open spec fn username_of(addr: Seq<char>) -> Seq<char> {
    addr.subrange(0, last_index_of(addr, '@').unwrap())
}

/// The domain of an address: everything after its last `@`.
pub open spec fn domain_of(addr: Seq<char>) -> Seq<char> {
    addr.subrange(last_index_of(addr, '@').unwrap() + 1, addr.len() as int)
}

/// The normalized form of an address: Gmail addresses are put in their
/// canonical Gmail form, all others are kept as they are.
pub open spec fn normalized_email(addr: Seq<char>) -> Seq<char> {
    if is_gmail_domain(domain_of(addr)) {
        gmail_normalized(username_of(addr))
    } else {
        addr
    }
}

/// Normalize an email address. The address must hold an `@` (its syntax has
/// been checked before); the split is made at its last `@`.
pub fn normalize_email(email_address: &str) -> (r: String)
    requires
        last_index_of(email_address@, '@') is Some,
    ensures
        r@ == normalized_email(email_address@),
{
    let v = chars_of(email_address);
    let k = match rfind_char(&v, '@') {
        Some(k) => k,
        None => {
            proof { assert(false); }
            0
        },
    };
    proof { lemma_last_index_props(v@, '@'); }
    let username = string_of_range(&v, 0, k);
    let domain = string_of_range(&v, k + 1, v.len());
    if str_eq(domain.as_str(), "gmail.com") || str_eq(domain.as_str(), "googlemail.com") {
        normalize_gmail(username.as_str())
    } else {
        string_of(&v)
    }
}

/// Normalize a Gmail username: drop the sub-address after `+`, drop dots,
/// lower-case, and use the `gmail.com` domain.
fn normalize_gmail(username: &str) -> (r: String)
    ensures
        r@ == gmail_normalized(username@),
{
    let v = chars_of(username);
    let end = match find_char(&v, '+') {
        Some(j) => j,
        None => v.len(),
    };
    proof { lemma_first_index_props(v@, '+'); }
    let ghost base = prefix_before(v@, '+');
    assert(base == v@.subrange(0, end as int));
    let mut out = String::new();
    let mut i: usize = 0;
    while i < end
        invariant
            end <= v@.len(),
            base == v@.subrange(0, end as int),
            i <= end,
            out@ == lower_no_dots(base.subrange(0, i as int)),
        decreases end - i,
    {
        let c = v[i];
        let lower = if 'A' <= c && c <= 'Z' {
            char_add_32(c)
        } else {
            c
        };
        assert(base.subrange(0, i + 1).drop_last() == base.subrange(0, i as int));
        if lower != '.' {
            push_char(&mut out, lower);
        }
        i += 1;
    }
    assert(base.subrange(0, end as int) == base);
    let suffix = String::from_str("@gmail.com");
    let r = out.concat(suffix.as_str());
    r
}

/// The ASCII lower-case form of an upper-case ASCII letter.
fn char_add_32(c: char) -> (r: char)
    requires
        'A' <= c && c <= 'Z',
    ensures
        r == ascii_lower_char(c),
{
    let b = (c as u8) + 32;
    b as char
}

/// Every character of `lower_no_dots(s)` is lower-case-stable and not a dot,
/// and a `+` only appears there if it appears in `s`.
pub proof fn lemma_lower_no_dots_chars(s: Seq<char>)
    ensures
        forall|i: int|
            0 <= i < lower_no_dots(s).len() ==> {
                &&& lower_no_dots(s)[i] != '.'
                &&& ascii_lower_char(lower_no_dots(s)[i]) == lower_no_dots(s)[i]
            },
        (forall|i: int| 0 <= i < s.len() ==> s[i] != '+') ==> (forall|i: int|
            0 <= i < lower_no_dots(s).len() ==> lower_no_dots(s)[i] != '+'),
    decreases s.len(),
{
    if s.len() > 0 {
        lemma_lower_no_dots_chars(s.drop_last());
        lemma_ascii_lower_char(s.last());
        let rest = lower_no_dots(s.drop_last());
        let c = ascii_lower_char(s.last());
        if c != '.' {
            assert(lower_no_dots(s) == rest.push(c));
            assert forall|i: int| 0 <= i < rest.len() implies lower_no_dots(s)[i] == rest[i] by {}
        }
        if forall|i: int| 0 <= i < s.len() ==> s[i] != '+' {
            assert forall|i: int| 0 <= i < s.drop_last().len() implies s.drop_last()[i] != '+' by {
                assert(s.drop_last()[i] == s[i]);
            }
            assert(s[s.len() - 1] != '+');
        }
    }
}

/// Facts on ASCII lower-casing of one character: it is idempotent, and it
/// keeps `+` and `.` and gives them from no other character.
pub proof fn lemma_ascii_lower_char(c: char)
    ensures
        ascii_lower_char(ascii_lower_char(c)) == ascii_lower_char(c),
        ascii_lower_char(c) == '+' <==> c == '+',
        ascii_lower_char(c) == '.' <==> c == '.',
{
    if 'A' <= c && c <= 'Z' {
        let n = (c as u32) + 32;
        assert(97 <= n <= 122);
        let d = n as char;
        assert(d as u32 == n);
        assert(!('A' <= d && d <= 'Z'));
    }
}

/// `lower_no_dots` leaves alone a sequence that holds no dot and no
/// upper-case ASCII letter.
pub proof fn lemma_lower_no_dots_fixed(s: Seq<char>)
    requires
        forall|i: int| 0 <= i < s.len() ==> s[i] != '.' && ascii_lower_char(s[i]) == s[i],
    ensures
        lower_no_dots(s) == s,
    decreases s.len(),
{
    if s.len() > 0 {
        assert forall|i: int| 0 <= i < s.drop_last().len() implies s.drop_last()[i] != '.'
            && ascii_lower_char(s.drop_last()[i]) == s.drop_last()[i] by {
            assert(s.drop_last()[i] == s[i]);
        }
        lemma_lower_no_dots_fixed(s.drop_last());
        assert(s.drop_last().push(s.last()) =~= s);
    }
}

/// Normalization is idempotent: normalizing a normalized address changes
/// nothing.
pub proof fn lemma_normalize_idempotent(addr: Seq<char>)
    requires
        last_index_of(addr, '@') is Some,
    ensures
        last_index_of(normalized_email(addr), '@') is Some,
        normalized_email(normalized_email(addr)) == normalized_email(addr),
{
    if is_gmail_domain(domain_of(addr)) {
        let user = username_of(addr);
        let p = prefix_before(user, '+');
        let x = lower_no_dots(p);
        let r = x + "@gmail.com"@;
        reveal_strlit("@gmail.com");
        reveal_strlit("gmail.com");
        lemma_first_index_props(user, '+');
        assert forall|i: int| 0 <= i < p.len() implies p[i] != '+' by {
            match first_index_of(user, '+') {
                Some(j) => { assert(p[i] == user[i]); },
                None => {},
            }
        }
        lemma_lower_no_dots_chars(p);
        assert(r[x.len() as int] == '@');
        assert forall|k: int| x.len() < k < r.len() implies r[k] != '@' by {
            assert(r[k] == "@gmail.com"@[k - x.len()]);
        }
        lemma_last_index_of(r, '@', x.len() as int);
        assert(username_of(r) =~= x);
        assert(domain_of(r) =~= "gmail.com"@);
        lemma_first_index_none(x, '+');
        lemma_lower_no_dots_fixed(x);
        assert(gmail_normalized(x) == r);
    }
}

/// What normalization does: an address on `gmail.com` or `googlemail.com`
/// becomes an address on `gmail.com` whose username holds no dot, no `+` and
/// no upper-case ASCII letter (sub-address, dots and case are dropped); an
/// address on any other domain is kept exactly.
pub proof fn lemma_normalized_shape(addr: Seq<char>)
    requires
        last_index_of(addr, '@') is Some,
    ensures
        !is_gmail_domain(domain_of(addr)) ==> normalized_email(addr) == addr,
        is_gmail_domain(domain_of(addr)) ==> {
            let r = normalized_email(addr);
            let u = r.subrange(0, r.len() - 10);
            &&& r.len() >= 10
            &&& r.subrange(r.len() - 10, r.len() as int) == "@gmail.com"@
            &&& forall|i: int| 0 <= i < u.len() ==> u[i] != '.' && u[i] != '+' && !('A' <= u[i] && u[i] <= 'Z')
        },
        domain_of(addr) == "googlemail.com"@ || domain_of(addr) == "gmail.com"@ ==> is_gmail_domain(domain_of(addr)),
{
    if is_gmail_domain(domain_of(addr)) {
        let user = username_of(addr);
        let p = prefix_before(user, '+');
        let x = lower_no_dots(p);
        let r = x + "@gmail.com"@;
        reveal_strlit("@gmail.com");
        lemma_first_index_props(user, '+');
        assert forall|i: int| 0 <= i < p.len() implies p[i] != '+' by {
            match first_index_of(user, '+') {
                Some(j) => { assert(p[i] == user[i]); },
                None => {},
            }
        }
        lemma_lower_no_dots_chars(p);
        assert(r.subrange(0, r.len() - 10) =~= x);
        assert(r.subrange(r.len() - 10, r.len() as int) =~= "@gmail.com"@);
        assert forall|i: int| 0 <= i < x.len() implies !('A' <= x[i] && x[i] <= 'Z') by {
            lemma_ascii_lower_char(x[i]);
            if 'A' <= x[i] && x[i] <= 'Z' {
                let n = (x[i] as u32) + 32;
                assert(ascii_lower_char(x[i]) == n as char);
            }
        }
    }
}

} // verus!
