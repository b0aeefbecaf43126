//! Miscellaneous details of an address: whether its domain is disposable,
//! whether it is a role account, whether its provider serves consumers, its
//! Gravatar picture and the breaches it appears in.

use vstd::prelude::*;
use crate::outside::{mailchecker_is_valid, single_inner_at};
use crate::syntax::SyntaxDetails;
use crate::text::{chars_of, str_eq, string_of_range, to_lowercase, unicode_lowercase};

verus! {

/// A character of the Unicode `White_Space` property, the characters that
/// `char::is_whitespace` accepts.
pub open spec fn is_white_space(c: char) -> bool {
    let n = c as u32;
    (0x9 <= n && n <= 0xD) || n == 0x20 || n == 0x85 || n == 0xA0 || n == 0x1680 || (0x2000 <= n
        && n <= 0x200A) || n == 0x2028 || n == 0x2029 || n == 0x202F || n == 0x205F || n == 0x3000
}

fn white_space(c: char) -> (r: bool)
    ensures
        r == is_white_space(c),
{
    let n = c as u32;
    (0x9 <= n && n <= 0xD) || n == 0x20 || n == 0x85 || n == 0xA0 || n == 0x1680 || (0x2000 <= n
        && n <= 0x200A) || n == 0x2028 || n == 0x2029 || n == 0x202F || n == 0x205F || n == 0x3000
}

/// `s` without its leading white space.
pub open spec fn trim_start_spec(s: Seq<char>) -> Seq<char>
    decreases s.len(),
{
    if s.len() > 0 && is_white_space(s[0]) {
        trim_start_spec(s.subrange(1, s.len() as int))
    } else {
        s
    }
}

/// `s` without its trailing white space.
pub open spec fn trim_end_spec(s: Seq<char>) -> Seq<char>
    decreases s.len(),
{
    if s.len() > 0 && is_white_space(s.last()) {
        trim_end_spec(s.drop_last())
    } else {
        s
    }
}

/// `s` without its leading and trailing white space, as `str::trim` gives
/// it.
pub open spec fn trim_spec(s: Seq<char>) -> Seq<char> {
    trim_end_spec(trim_start_spec(s))
}

/// The characters of `v[from..to]`, trimmed of white space at both ends.
pub fn trim_range(v: &Vec<char>, from: usize, to: usize) -> (r: String)
    requires
        from <= to <= v@.len(),
    ensures
        r@ == trim_spec(v@.subrange(from as int, to as int)),
{
    let mut a = from;
    while a < to && white_space(v[a])
        invariant
            from <= a <= to <= v@.len(),
            trim_start_spec(v@.subrange(from as int, to as int)) == trim_start_spec(
                v@.subrange(a as int, to as int),
            ),
        decreases to - a,
    {
        assert(v@.subrange(a as int, to as int).subrange(1, to - a) =~= v@.subrange(
            a + 1,
            to as int,
        ));
        a += 1;
    }
    let mut b = to;
    while b > a && white_space(v[b - 1])
        invariant
            a <= b <= to <= v@.len(),
            trim_end_spec(v@.subrange(a as int, to as int)) == trim_end_spec(
                v@.subrange(a as int, b as int),
            ),
        decreases b - a,
    {
        assert(v@.subrange(a as int, b as int).drop_last() =~= v@.subrange(a as int, b - 1));
        b -= 1;
    }
    string_of_range(v, a, b)
}

/// `s[a..b]` is one of the lines that `str::lines` yields: it starts the
/// text or follows a newline, it ends the text or a newline follows it, and
/// it holds no newline. The empty piece after a final newline is no line. A
/// `\r` that ends a line is left here: `trim_spec` removes it, as `str::lines`
/// does.
pub open spec fn is_line(s: Seq<char>, a: int, b: int) -> bool {
    &&& 0 <= a < s.len()
    &&& a <= b <= s.len()
    &&& (a == 0 || s[a - 1] == '\n')
    &&& (b == s.len() || s[b] == '\n')
    &&& forall|k: int| a <= k < b ==> s[k] != '\n'
}

/// The set of the trimmed lines of a text.
pub open spec fn line_set(s: Seq<char>) -> Set<Seq<char>> {
    Set::new(
        |x: Seq<char>| exists|a: int, b: int| is_line(s, a, b) && trim_spec(s.subrange(a, b)) == x,
    )
}

/// Two lines that end at the same place start at the same place.
proof fn lemma_line_start_unique(s: Seq<char>, a: int, a2: int, b: int)
    requires
        is_line(s, a, b),
        is_line(s, a2, b),
    ensures
        a == a2,
{
    if a < a2 {
        assert(s[a2 - 1] == '\n');
        assert(a <= a2 - 1 < b);
    } else if a2 < a {
        assert(s[a - 1] == '\n');
        assert(a2 <= a - 1 < b);
    }
}

/// A set of strings, held as a list searched by the strings' characters so
/// that membership has a contract (vstd specifies `HashSet` only for
/// elements whose hash and equality it models, and `String` is not among
/// them).
pub struct StringSet {
    items: Vec<String>,
}

impl View for StringSet {
    type V = Set<Seq<char>>;

    closed spec fn view(&self) -> Set<Seq<char>> {
        Set::new(|x: Seq<char>| exists|i: int| 0 <= i < self.items@.len() && self.items@[i]@ == x)
    }
}

impl StringSet {
    /// The empty set.
    pub fn new() -> (r: StringSet)
        ensures
            r@ == Set::<Seq<char>>::empty(),
    {
        let r = StringSet { items: Vec::new() };
        assert(r@ =~= Set::<Seq<char>>::empty());
        r
    }

    /// Add `s` to the set.
    pub fn insert(&mut self, s: String)
        ensures
            final(self)@ == old(self)@.insert(s@),
    {
        let ghost old_items = self.items@;
        let ghost sv = s@;
        self.items.push(s);
        assert(self@ =~= old(self)@.insert(sv)) by {
            assert(self.items@[old_items.len() as int]@ == sv);
            assert forall|x: Seq<char>| old(self)@.contains(x) implies self@.contains(x) by {
                let i = choose|i: int| 0 <= i < old_items.len() && old_items[i]@ == x;
                assert(self.items@[i] == old_items[i]);
            }
            assert forall|x: Seq<char>| self@.contains(x) implies old(self)@.insert(sv).contains(
                x,
            ) by {
                let i = choose|i: int| 0 <= i < self.items@.len() && self.items@[i]@ == x;
                if i < old_items.len() {
                    assert(old_items[i] == self.items@[i]);
                }
            }
        }
    }

    /// Is `s` in the set?
    pub fn contains(&self, s: &str) -> (r: bool)
        ensures
            r == self@.contains(s@),
    {
        let mut i: usize = 0;
        while i < self.items.len()
            invariant
                i <= self.items@.len(),
                forall|j: int| 0 <= j < i ==> self.items@[j]@ != s@,
            decreases self.items@.len() - i,
        {
            if str_eq(self.items[i].as_str(), s) {
                assert(self.items@[i as int]@ == s@);
                return true;
            }
            i += 1;
        }
        assert(!self@.contains(s@));
        false
    }
}

/// The set of the lines of a text, each trimmed of white space: how the
/// lists of role accounts and of consumer email providers are read.
pub fn load_str_as_hashset(file_content: &str) -> (r: StringSet)
    ensures
        r@ == line_set(file_content@),
{
    let v = chars_of(file_content);
    let n = v.len();
    let mut set = StringSet::new();
    let mut start: usize = 0;
    let mut i: usize = 0;
    while i < n
        invariant
            n == v@.len(),
            v@ == file_content@,
            start <= i <= n,
            start == 0 || v@[start - 1] == '\n',
            forall|k: int| start <= k < i ==> v@[k] != '\n',
            forall|x: Seq<char>|
                set@.contains(x) <==> exists|a: int, b: int|
                    is_line(v@, a, b) && b < start && trim_spec(v@.subrange(a, b)) == x,
        decreases n - i,
    {
        if v[i] == '\n' {
            let line = trim_range(&v, start, i);
            let ghost old_set = set@;
            let ghost (s0, i0) = (start as int, i as int);
            set.insert(line);
            assert(is_line(v@, s0, i0));
            assert forall|x: Seq<char>|
                set@.contains(x) <==> exists|a: int, b: int|
                    is_line(v@, a, b) && b < i0 + 1 && trim_spec(v@.subrange(a, b)) == x by {
                if set@.contains(x) {
                    if x != trim_spec(v@.subrange(s0, i0)) {
                        assert(old_set.contains(x));
                        let (a, b) = choose|a: int, b: int|
                            is_line(v@, a, b) && b < s0 && trim_spec(v@.subrange(a, b)) == x;
                        assert(is_line(v@, a, b) && b < i0 + 1);
                    } else {
                        assert(is_line(v@, s0, i0) && i0 < i0 + 1 && trim_spec(
                            v@.subrange(s0, i0),
                        ) == x);
                    }
                }
                if exists|a: int, b: int|
                    is_line(v@, a, b) && b < i0 + 1 && trim_spec(v@.subrange(a, b)) == x {
                    let (a, b) = choose|a: int, b: int|
                        is_line(v@, a, b) && b < i0 + 1 && trim_spec(v@.subrange(a, b)) == x;
                    if b < s0 {
                        assert(old_set.contains(x));
                    } else {
                        if b < i0 {
                            assert(v@[b] != '\n');
                        }
                        assert(b == i0);
                        lemma_line_start_unique(v@, a, s0, b);
                    }
                }
            }
            start = i + 1;
        }
        i += 1;
    }
    if start < n {
        let line = trim_range(&v, start, n);
        let ghost old_set = set@;
        let ghost s0 = start as int;
        set.insert(line);
        assert(is_line(v@, s0, n as int));
        assert forall|x: Seq<char>| set@.contains(x) <==> #[trigger] line_set(v@).contains(x) by {
            if set@.contains(x) {
                if x != trim_spec(v@.subrange(s0, n as int)) {
                    assert(old_set.contains(x));
                    let (a, b) = choose|a: int, b: int|
                        is_line(v@, a, b) && b < s0 && trim_spec(v@.subrange(a, b)) == x;
                    assert(is_line(v@, a, b));
                } else {
                    assert(is_line(v@, s0, n as int));
                }
            }
            if line_set(v@).contains(x) {
                let (a, b) = choose|a: int, b: int|
                    is_line(v@, a, b) && trim_spec(v@.subrange(a, b)) == x;
                if b < s0 {
                    assert(old_set.contains(x));
                } else {
                    if b < n {
                        assert(v@[b] != '\n');
                    }
                    lemma_line_start_unique(v@, a, s0, b);
                }
            }
        }
        assert(set@ =~= line_set(v@));
    } else {
        assert forall|x: Seq<char>| set@.contains(x) <==> #[trigger] line_set(v@).contains(x) by {
            if line_set(v@).contains(x) {
                let (a, b) = choose|a: int, b: int|
                    is_line(v@, a, b) && trim_spec(v@.subrange(a, b)) == x;
                if b >= start {
                    assert(v@[start - 1] == '\n');
                    assert(a <= start - 1 < b);
                }
            }
            if set@.contains(x) {
                let (a, b) = choose|a: int, b: int|
                    is_line(v@, a, b) && b < start && trim_spec(v@.subrange(a, b)) == x;
                assert(is_line(v@, a, b));
            }
        }
        assert(set@ =~= line_set(v@));
    }
    set
}

/// Miscellaneous details about an email address.
#[derive(Debug, Clone, PartialEq, Eq)]
pub struct MiscDetails {
    /// Is this a DEA (disposable email account)?
    pub is_disposable: bool,
    /// Is this email a role-based account?
    pub is_role_account: bool,
    /// Is this email a B2C email address?
    pub is_b2c: bool,
    /// If set, the gravatar URL for this email address.
    pub gravatar_url: Option<String>,
    /// Is this email address listed in the haveibeenpwned database for
    /// previous breaches?
    pub haveibeenpwned: Option<bool>,
}

impl Default for MiscDetails {
    fn default() -> (r: Self)
        ensures
            !r.is_disposable,
            !r.is_role_account,
            !r.is_b2c,
            r.gravatar_url is None,
            r.haveibeenpwned is None,
    {
        MiscDetails {
            is_disposable: false,
            is_role_account: false,
            is_b2c: false,
            gravatar_url: None,
            haveibeenpwned: None,
        }
    }
}

/// The miscellaneous checks never fail: no value of this type exists.
#[derive(Debug)]
pub struct MiscError {
    never: std::convert::Infallible,
}

impl MiscError {
    /// The uninhabited value inside: a caller matches on it with no arm.
    pub fn never(&self) -> std::convert::Infallible {
        self.never
    }
}

/// The miscellaneous details of a syntactically valid address, given the
/// verdict `mailchecker_ok` of the mail checker on it: disposable when the
/// mail checker refuses it, a role account when its lower-cased username is
/// in `role_accounts`, B2C when its lower-cased domain is in
/// `free_email_providers`; the Gravatar URL is the outcome of its lookup,
/// and the breach flag says whether the breach count looked up is positive;
/// each is `None` when not looked up.
pub fn misc_details_from(
    syntax: &SyntaxDetails,
    mailchecker_ok: bool,
    role_accounts: &StringSet,
    free_email_providers: &StringSet,
    gravatar_url: Option<String>,
    haveibeenpwned_breaches: Option<usize>,
) -> (r: MiscDetails)
    ensures
        r.is_disposable == !mailchecker_ok,
        r.is_role_account == role_accounts@.contains(unicode_lowercase(syntax.username@)),
        r.is_b2c == free_email_providers@.contains(unicode_lowercase(syntax.domain@)),
        r.gravatar_url == gravatar_url,
        r.haveibeenpwned == (match haveibeenpwned_breaches {
            Some(n) => Some(n > 0),
            None => None::<bool>,
        }),
{
    let username = to_lowercase(syntax.username.as_str());
    let domain = to_lowercase(syntax.domain.as_str());
    MiscDetails {
        is_disposable: !mailchecker_ok,
        is_role_account: role_accounts.contains(username.as_str()),
        is_b2c: free_email_providers.contains(domain.as_str()),
        gravatar_url,
        haveibeenpwned: match haveibeenpwned_breaches {
            Some(n) => Some(n > 0),
            None => None,
        },
    }
}

/// The miscellaneous details of a syntactically valid address, with the
/// mail checker asked whether the address is disposable. Its answer can
/// change with the custom domains registered with it in the process, so the
/// contract leaves `is_disposable` open; everything else is as
/// `misc_details_from` gives it.
pub fn check_misc(
    syntax: &SyntaxDetails,
    role_accounts: &StringSet,
    free_email_providers: &StringSet,
    gravatar_url: Option<String>,
    haveibeenpwned_breaches: Option<usize>,
) -> (r: MiscDetails)
    requires
        syntax.address is Some,
    ensures
        !r.is_disposable ==> single_inner_at(syntax.address->0@),
        r.is_role_account == role_accounts@.contains(unicode_lowercase(syntax.username@)),
        r.is_b2c == free_email_providers@.contains(unicode_lowercase(syntax.domain@)),
        r.gravatar_url == gravatar_url,
        r.haveibeenpwned == (match haveibeenpwned_breaches {
            Some(n) => Some(n > 0),
            None => None::<bool>,
        }),
{
    let address = match &syntax.address {
        Some(a) => a.as_str(),
        None => "",
    };
    let ok = mailchecker_is_valid(address);
    misc_details_from(syntax, ok, role_accounts, free_email_providers, gravatar_url, haveibeenpwned_breaches)
}

} // verus!
