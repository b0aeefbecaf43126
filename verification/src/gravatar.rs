//! The Gravatar picture of an address: its URL is the lower-case hex MD5
//! digest of the address, and the picture exists when the URL answers 200.

use vstd::prelude::*;
use crate::outside::{md5_compute, md5_digest};
use crate::text::push_char;

verus! {

/// The lower-case hexadecimal digit of a number below 16.
pub open spec fn hex_digit(n: u8) -> char {
    if n < 10 {
        (48 + n) as char
    } else {
        (87 + n) as char
    }
}

fn hex_digit_exec(n: u8) -> (c: char)
    requires
        n < 16,
    ensures
        c == hex_digit(n),
{
    if n < 10 {
        (48 + n) as char
    } else {
        (87 + n) as char
    }
}

/// The lower-case hexadecimal form of some bytes, two digits per byte, high
/// nibble first: what `format!("{:x}", digest)` prints of an MD5 digest.
pub open spec fn lower_hex(bytes: Seq<u8>) -> Seq<char>
    decreases bytes.len(),
{
    if bytes.len() == 0 {
        Seq::empty()
    } else {
        lower_hex(bytes.drop_last()).push(hex_digit(bytes.last() / 16)).push(
            hex_digit(bytes.last() % 16),
        )
    }
}

/// The base of Gravatar picture URLs.
pub open spec fn gravatar_base() -> Seq<char> {
    "https://www.gravatar.com/avatar/"@
}

/// The Gravatar URL for an MD5 digest.
pub open spec fn gravatar_url_spec(digest: Seq<u8>) -> Seq<char> {
    gravatar_base() + lower_hex(digest)
}

/// The Gravatar URL of an address whose MD5 digest is `digest`.
pub fn gravatar_url_of_digest(digest: &[u8]) -> (r: String)
    ensures
        r@ == gravatar_url_spec(digest@),
{
    let mut out = String::from_str("https://www.gravatar.com/avatar/");
    let ghost base = out@;
    let mut i: usize = 0;
    while i < digest.len()
        invariant
            i <= digest@.len(),
            base == gravatar_base(),
            out@ == base + lower_hex(digest@.subrange(0, i as int)),
        decreases digest@.len() - i,
    {
        let b = digest[i];
        push_char(&mut out, hex_digit_exec(b / 16));
        push_char(&mut out, hex_digit_exec(b % 16));
        assert(digest@.subrange(0, i + 1).drop_last() =~= digest@.subrange(0, i as int));
        i += 1;
    }
    assert(digest@.subrange(0, digest@.len() as int) =~= digest@);
    out
}

/// The Gravatar URL of an address: the base URL followed by the lower-case
/// hex MD5 digest of the address.
pub fn gravatar_url(to_email: &str) -> (r: String)
    ensures
        r@ == gravatar_url_spec(md5_digest(to_email@)),
{
    let digest = md5_compute(to_email);
    gravatar_url_of_digest(digest.as_slice())
}

/// The picture URL, when the request for it (made with `d=404`, so that a
/// missing picture answers 404) answered 200; `None` for any other status
/// or a failed request.
pub fn gravatar_url_if_found(url: String, status: Option<u16>) -> (r: Option<String>)
    ensures
        r == (if status == Some(200u16) {
            Some(url)
        } else {
            None::<String>
        }),
{
    match status {
        Some(200) => Some(url),
        _ => None,
    }
}

/// A lower-case hexadecimal digit.
pub open spec fn is_lower_hex_digit(c: char) -> bool {
    ('0' <= c && c <= '9') || ('a' <= c && c <= 'f')
}

/// The hexadecimal form of `n` bytes is `2 * n` lower-case hexadecimal
/// digits: a Gravatar URL is the base followed by 32 of them, since an MD5
/// digest has 16 bytes.
pub proof fn lemma_lower_hex_digits(bytes: Seq<u8>)
    ensures
        lower_hex(bytes).len() == 2 * bytes.len(),
        forall|i: int| 0 <= i < lower_hex(bytes).len() ==> is_lower_hex_digit(#[trigger] lower_hex(bytes)[i]),
    decreases bytes.len(),
{
    if bytes.len() > 0 {
        lemma_lower_hex_digits(bytes.drop_last());
        let b = bytes.last();
        assert(b / 16 < 16 && b % 16 < 16);
        let prev = lower_hex(bytes.drop_last());
        let all = lower_hex(bytes);
        assert forall|i: int| 0 <= i < all.len() implies is_lower_hex_digit(#[trigger] all[i]) by {
            if i < prev.len() {
                assert(all[i] == prev[i]);
            }
        }
    }
}

} // verus!
