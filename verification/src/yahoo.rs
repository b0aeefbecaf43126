//! Yahoo verification through its sign-up form: the pieces read from the
//! sign-up page (the `acrumb` of the cookie, the `sessionIndex` of the body),
//! the form sent back, and what the form's answer says of the address.

use vstd::prelude::*;
use crate::smtp::SmtpDetails;
use crate::syntax::first_segment;
use crate::text::{
    chars_of, find_char, lemma_first_index_props, matches_at, occurs_at, str_eq, string_of_range,
};

verus! {

/// `t[from..to]` holds no `stop` character.
pub open spec fn free_of(t: Seq<char>, stop: char, from: int, to: int) -> bool {
    forall|k: int| from <= k < to ==> t[k] != stop
}

/// The text matches `prefix`, then any run of characters other than `stop`,
/// then `suffix`, starting at `i`, the run ending at `j`.
pub open spec fn capture_at(
    t: Seq<char>,
    prefix: Seq<char>,
    suffix: Seq<char>,
    stop: char,
    i: int,
    j: int,
) -> bool {
    &&& occurs_at(t, prefix, i)
    &&& i + prefix.len() <= j
    &&& free_of(t, stop, i + prefix.len(), j)
    &&& occurs_at(t, suffix, j)
}

/// The match that a regular expression `prefix([^stop]*)suffix` finds: the
/// leftmost start, and from it the longest run (the repetition is greedy).
pub open spec fn leftmost_greedy(
    t: Seq<char>,
    prefix: Seq<char>,
    suffix: Seq<char>,
    stop: char,
    i: int,
    j: int,
) -> bool {
    &&& capture_at(t, prefix, suffix, stop, i, j)
    &&& forall|i2: int, j2: int| i2 < i ==> !capture_at(t, prefix, suffix, stop, i2, j2)
    &&& forall|j2: int| j < j2 ==> !capture_at(t, prefix, suffix, stop, i, j2)
}

/// The captured run of the match of `prefix([^stop]*)suffix` in `t`, as a
/// regular expression engine with leftmost-first semantics captures it.
pub open spec fn capture_spec(t: Seq<char>, prefix: Seq<char>, suffix: Seq<char>, stop: char) -> Option<
    Seq<char>,
> {
    if exists|i: int, j: int| capture_at(t, prefix, suffix, stop, i, j) {
        let (i, j) = choose|i: int, j: int| leftmost_greedy(t, prefix, suffix, stop, i, j);
        Some(t.subrange(i + prefix.len(), j))
    } else {
        None
    }
}

/// What a capture holds never contains its stop character: an `acrumb`
/// holds no `;`, a `sessionIndex` no newline.
pub proof fn lemma_capture_free_of_stop(t: Seq<char>, prefix: Seq<char>, suffix: Seq<char>, stop: char)
    ensures
        capture_spec(t, prefix, suffix, stop) matches Some(c) ==> forall|k: int|
            0 <= k < c.len() ==> c[k] != stop,
{
    if exists|i: int, j: int| capture_at(t, prefix, suffix, stop, i, j) {
        let (i0, j0) = choose|i: int, j: int| capture_at(t, prefix, suffix, stop, i, j);
        lemma_leftmost_exists(t, prefix, suffix, stop, i0, j0);
        let (a, b) = choose|a: int, b: int| leftmost_greedy(t, prefix, suffix, stop, a, b);
        let c = t.subrange(a + prefix.len(), b);
        assert forall|k: int| 0 <= k < c.len() implies c[k] != stop by {
            assert(c[k] == t[a + prefix.len() + k]);
        }
    }
}

/// A match gives a leftmost, greedy one.
proof fn lemma_leftmost_exists(
    t: Seq<char>,
    prefix: Seq<char>,
    suffix: Seq<char>,
    stop: char,
    i: int,
    j: int,
)
    requires
        capture_at(t, prefix, suffix, stop, i, j),
    ensures
        exists|a: int, b: int| leftmost_greedy(t, prefix, suffix, stop, a, b),
    decreases i, t.len() - j,
{
    if exists|i2: int, j2: int| i2 < i && capture_at(t, prefix, suffix, stop, i2, j2) {
        let (i2, j2) = choose|i2: int, j2: int| i2 < i && capture_at(t, prefix, suffix, stop, i2, j2);
        assert(i2 >= 0);
        lemma_leftmost_exists(t, prefix, suffix, stop, i2, j2);
    } else if exists|j2: int| j < j2 && capture_at(t, prefix, suffix, stop, i, j2) {
        let j2 = choose|j2: int| j < j2 && capture_at(t, prefix, suffix, stop, i, j2);
        assert(j2 + suffix.len() <= t.len());
        lemma_leftmost_exists(t, prefix, suffix, stop, i, j2);
    } else {
        assert(leftmost_greedy(t, prefix, suffix, stop, i, j));
    }
}

/// The leftmost match is unique.
proof fn lemma_leftmost_greedy_unique(
    t: Seq<char>,
    prefix: Seq<char>,
    suffix: Seq<char>,
    stop: char,
    i: int,
    j: int,
    i2: int,
    j2: int,
)
    requires
        leftmost_greedy(t, prefix, suffix, stop, i, j),
        leftmost_greedy(t, prefix, suffix, stop, i2, j2),
    ensures
        i == i2 && j == j2,
{
    if i < i2 {
        assert(!capture_at(t, prefix, suffix, stop, i, j));
    } else if i2 < i {
        assert(!capture_at(t, prefix, suffix, stop, i2, j2));
    } else if j < j2 {
        assert(!capture_at(t, prefix, suffix, stop, i, j2));
    } else if j2 < j {
        assert(!capture_at(t, prefix, suffix, stop, i2, j));
    }
}

/// Find the match of `prefix([^stop]*)suffix`: the start of the match and
/// the end of its run.
fn find_capture(t: &Vec<char>, prefix: &Vec<char>, suffix: &Vec<char>, stop: char) -> (r: Option<
    (usize, usize),
>)
    ensures
        match r {
            Some((i, j)) => leftmost_greedy(t@, prefix@, suffix@, stop, i as int, j as int),
            None => forall|i: int, j: int| !capture_at(t@, prefix@, suffix@, stop, i, j),
        },
{
    let n = t.len();
    let mut i: usize = 0;
    loop
        invariant
            i <= n,
            n == t@.len(),
            forall|i2: int, j2: int| i2 < i ==> !capture_at(t@, prefix@, suffix@, stop, i2, j2),
        ensures
            forall|i2: int, j2: int| !capture_at(t@, prefix@, suffix@, stop, i2, j2),
        decreases n - i,
    {
        if matches_at(t, prefix, i) {
            let start = i + prefix.len();
            let mut e = start;
            while e < n && t[e] != stop
                invariant
                    start <= e <= n,
                    n == t@.len(),
                    free_of(t@, stop, start as int, e as int),
                decreases n - e,
            {
                e += 1;
            }
            // Any match from `i` ends its run at or before `e`.
            assert forall|j2: int| capture_at(t@, prefix@, suffix@, stop, i as int, j2) implies j2
                <= e by {
                if j2 > e {
                    assert(e < n);
                    assert(t@[e as int] != stop);
                }
            }
            let mut j = e;
            loop
                invariant
                    start <= j <= e <= n,
                    n == t@.len(),
                    free_of(t@, stop, start as int, e as int),
                    occurs_at(t@, prefix@, i as int),
                    start == i + prefix@.len(),
                    forall|j2: int| j < j2 ==> !capture_at(t@, prefix@, suffix@, stop, i as int, j2),
                    forall|i2: int, j2: int|
                        i2 < i ==> !capture_at(t@, prefix@, suffix@, stop, i2, j2),
                    forall|j2: int|
                        capture_at(t@, prefix@, suffix@, stop, i as int, j2) ==> j2 <= e,
                ensures
                    forall|j2: int| !capture_at(t@, prefix@, suffix@, stop, i as int, j2),
                decreases j - start,
            {
                if matches_at(t, suffix, j) {
                    assert(capture_at(t@, prefix@, suffix@, stop, i as int, j as int));
                    return Some((i, j));
                }
                if j == start {
                    break;
                }
                j -= 1;
            }
        }
        if i == n {
            break;
        }
        i += 1;
    }
    None
}

/// The run captured by `prefix([^stop]*)suffix` in `text`, or `None` when
/// the pattern does not occur.
pub fn capture(text: &str, prefix: &str, suffix: &str, stop: char) -> (r: Option<String>)
    ensures
        r is None <==> capture_spec(text@, prefix@, suffix@, stop) is None,
        r matches Some(c) ==> capture_spec(text@, prefix@, suffix@, stop) == Some(c@),
{
    let t = chars_of(text);
    let p = chars_of(prefix);
    let s = chars_of(suffix);
    match find_capture(&t, &p, &s, stop) {
        Some((i, j)) => {
            proof {
                let (i2, j2) = choose|i2: int, j2: int|
                    leftmost_greedy(text@, prefix@, suffix@, stop, i2, j2);
                lemma_leftmost_greedy_unique(
                    text@,
                    prefix@,
                    suffix@,
                    stop,
                    i as int,
                    j as int,
                    i2,
                    j2,
                );
            }
            Some(string_of_range(&t, i + p.len(), j))
        },
        None => None,
    }
}

/// The `acrumb` field of Yahoo's cookie: what `s=([^;]*)&d` captures.
pub fn acrumb_of_cookie(cookie: &str) -> (r: Option<String>)
    ensures
        r is None <==> capture_spec(cookie@, "s="@, "&d"@, ';') is None,
        r matches Some(c) ==> capture_spec(cookie@, "s="@, "&d"@, ';') == Some(c@),
{
    capture(cookie, "s=", "&d", ';')
}

/// The `acrumb` field of Yahoo's cookie for the form that names the user
/// `yid`: what
/// `s=([^;]*)` captures.
pub fn acrumb_of_cookie_without_suffix(cookie: &str) -> (r: Option<String>)
    ensures
        r is None <==> capture_spec(cookie@, "s="@, ""@, ';') is None,
        r matches Some(c) ==> capture_spec(cookie@, "s="@, ""@, ';') == Some(c@),
{
    capture(cookie, "s=", "", ';')
}

/// The value of the hidden `sessionIndex` input of the sign-up page: what
/// `<input type="hidden" value="(.*)" name="sessionIndex">` captures, `.`
/// matching anything but a newline.
pub fn session_index_of_body(body: &str) -> (r: Option<String>)
    ensures
        r is None <==> capture_spec(
            body@,
            "<input type=\"hidden\" value=\""@,
            "\" name=\"sessionIndex\">"@,
            '\n',
        ) is None,
        r matches Some(c) ==> capture_spec(
            body@,
            "<input type=\"hidden\" value=\""@,
            "\" name=\"sessionIndex\">"@,
            '\n',
        ) == Some(c@),
{
    capture(body, "<input type=\"hidden\" value=\"", "\" name=\"sessionIndex\">", '\n')
}

/// The part of an address before its first `@` (the whole address when it
/// holds none).
pub fn username_of(to_email: &str) -> (r: String)
    ensures
        r@ == first_segment(to_email@, '@'),
{
    let v = chars_of(to_email);
    proof { lemma_first_index_props(v@, '@'); }
    match find_char(&v, '@') {
        Some(i) => string_of_range(&v, 0, i),
        None => {
            assert(v@.subrange(0, v@.len() as int) == v@);
            string_of_range(&v, 0, v.len())
        },
    }
}

/// The form inputs to pass into the HTTP request.
#[derive(Debug, Clone, PartialEq, Eq)]
pub struct FormRequest {
    pub acrumb: String,
    pub session_index: String,
    pub spec_id: String,
    pub user_id: String,
}

impl Default for FormRequest {
    fn default() -> (r: Self)
        ensures
            r.acrumb@ == Seq::<char>::empty(),
            r.session_index@ == Seq::<char>::empty(),
            r.spec_id@ == "yidReg"@,
            r.user_id@ == Seq::<char>::empty(),
    {
        FormRequest {
            acrumb: String::new(),
            session_index: String::new(),
            spec_id: String::from_str("yidReg"),
            user_id: String::new(),
        }
    }
}

impl FormRequest {
    /// The form for `user_id`, with the `acrumb` and `sessionIndex` read from
    /// the sign-up page; the `specId` is the default one.
    pub fn new(acrumb: String, session_index: String, user_id: String) -> (r: Self)
        ensures
            r.acrumb == acrumb,
            r.session_index == session_index,
            r.spec_id@ == "yidReg"@,
            r.user_id == user_id,
    {
        FormRequest { acrumb, session_index, user_id, spec_id: String::from_str("yidReg") }
    }
}

/// The form inputs that name the user `yid`.
#[derive(Debug, Clone, PartialEq, Eq)]
pub struct YidFormRequest {
    pub acrumb: String,
    pub spec_id: String,
    pub yid: String,
}

impl Default for YidFormRequest {
    fn default() -> (r: Self)
        ensures
            r.acrumb@ == Seq::<char>::empty(),
            r.spec_id@ == "yidReg"@,
            r.yid@ == Seq::<char>::empty(),
    {
        YidFormRequest { acrumb: String::new(), spec_id: String::from_str("yidReg"), yid: String::new() }
    }
}

impl YidFormRequest {
    /// The form for `yid`, with the `acrumb` read from the cookie.
    pub fn new(acrumb: String, yid: String) -> (r: Self)
        ensures
            r.acrumb == acrumb,
            r.spec_id@ == "yidReg"@,
            r.yid == yid,
    {
        YidFormRequest { acrumb, yid, spec_id: String::from_str("yidReg") }
    }
}

/// One item in the response of the HTTP form request.
#[derive(Debug, Clone, PartialEq, Eq)]
pub struct FormResponseItem {
    pub error: String,
    pub name: String,
}

/// Possible errors when checking Yahoo email addresses.
#[derive(Debug, Clone, PartialEq, Eq)]
pub enum YahooError {
    /// Cannot find "acrumb" field in cookie.
    NoAcrumb,
    /// Cannot find "sessionIndex" hidden input in body.
    NoSessionIndex,
    /// Cannot find cookie in Yahoo response.
    NoCookie,
    /// Error of the HTTP client, with its message.
    ReqwestError(String),
    /// Error when serializing or deserializing HTTP requests and responses,
    /// with its message.
    SerdeError(String),
}

impl YahooError {
    /// The message of the error.
    pub fn message(&self) -> (r: String)
        ensures
            r@ == (match *self {
                YahooError::NoAcrumb => "Cannot find \"acrumb\" field in cookie"@,
                YahooError::NoSessionIndex => "Cannot find \"sessionIndex\" hidden input in body"@,
                YahooError::NoCookie => "Cannot find cookie in Yahoo response"@,
                YahooError::ReqwestError(m) =>
                    "Error serializing or deserializing HTTP requests and responses: "@ + m@,
                YahooError::SerdeError(m) =>
                    "Error serializing or deserializing HTTP requests and responses: "@ + m@,
            }),
    {
        match self {
            YahooError::NoAcrumb => String::from_str("Cannot find \"acrumb\" field in cookie"),
            YahooError::NoSessionIndex => String::from_str(
                "Cannot find \"sessionIndex\" hidden input in body",
            ),
            YahooError::NoCookie => String::from_str("Cannot find cookie in Yahoo response"),
            YahooError::ReqwestError(m) => String::from_str(
                "Error serializing or deserializing HTTP requests and responses: ",
            ).concat(m.as_str()),
            YahooError::SerdeError(m) => String::from_str(
                "Error serializing or deserializing HTTP requests and responses: ",
            ).concat(m.as_str()),
        }
    }
}

/// The text of a `Set-Cookie` header as the check reads it.
pub open spec fn cookie_view(cookie: Option<Option<&str>>) -> Option<Option<Seq<char>>> {
    match cookie {
        None => None,
        Some(None) => Some(None),
        Some(Some(c)) => Some(Some(c@)),
    }
}

/// The form that the sign-up API gets for `to_email`, from the sign-up
/// page's `Set-Cookie` header (`None` when it is missing) and body. A header
/// that is not visible ASCII is given as `Some(None)`: it has no `acrumb`.
pub open spec fn api_form_spec(
    to_email: Seq<char>,
    cookie: Option<Option<Seq<char>>>,
    body: Seq<char>,
) -> Result<(Seq<char>, Seq<char>, Seq<char>), YahooError> {
    match cookie {
        None => Err(YahooError::NoCookie),
        Some(None) => Err(YahooError::NoAcrumb),
        Some(Some(c)) => match capture_spec(c, "s="@, "&d"@, ';') {
            None => Err(YahooError::NoAcrumb),
            Some(acrumb) => match capture_spec(
                body,
                "<input type=\"hidden\" value=\""@,
                "\" name=\"sessionIndex\">"@,
                '\n',
            ) {
                None => Err(YahooError::NoSessionIndex),
                Some(session) => Ok((acrumb, session, first_segment(to_email, '@'))),
            },
        },
    }
}

/// Build the form that asks Yahoo's sign-up API whether the user of
/// `to_email` is taken, from what the sign-up page returned.
pub fn api_form_request(to_email: &str, cookie: Option<Option<&str>>, body: &str) -> (r: Result<
    FormRequest,
    YahooError,
>)
    ensures
        match api_form_spec(to_email@, cookie_view(cookie), body@) {
            Ok((a, s, u)) => r matches Ok(f) && f.acrumb@ == a && f.session_index@ == s
                && f.user_id@ == u && f.spec_id@ == "yidReg"@,
            Err(e) => r == Err::<FormRequest, YahooError>(e),
        },
{
    let cookie = match cookie {
        None => {
            return Err(YahooError::NoCookie);
        },
        Some(None) => {
            return Err(YahooError::NoAcrumb);
        },
        Some(Some(c)) => c,
    };
    let acrumb = match acrumb_of_cookie(cookie) {
        Some(a) => a,
        None => {
            return Err(YahooError::NoAcrumb);
        },
    };
    let session_index = match session_index_of_body(body) {
        Some(s) => s,
        None => {
            return Err(YahooError::NoSessionIndex);
        },
    };
    Ok(FormRequest::new(acrumb, session_index, username_of(to_email)))
}

/// The `yid` form, from the `Set-Cookie` header.
pub open spec fn yid_form_spec(to_email: Seq<char>, cookie: Option<Option<Seq<char>>>) -> Result<
    (Seq<char>, Seq<char>),
    YahooError,
> {
    match cookie {
        None => Err(YahooError::NoCookie),
        Some(None) => Err(YahooError::NoAcrumb),
        Some(Some(c)) => match capture_spec(c, "s="@, ""@, ';') {
            None => Err(YahooError::NoAcrumb),
            Some(acrumb) => Ok((acrumb, first_segment(to_email, '@'))),
        },
    }
}

/// Build the `yid` form from the sign-up page's
/// `Set-Cookie` header.
pub fn yid_form_request(to_email: &str, cookie: Option<Option<&str>>) -> (r: Result<
    YidFormRequest,
    YahooError,
>)
    ensures
        match yid_form_spec(to_email@, cookie_view(cookie)) {
            Ok((a, y)) => r matches Ok(f) && f.acrumb@ == a && f.yid@ == y && f.spec_id@
                == "yidReg"@,
            Err(e) => r == Err::<YidFormRequest, YahooError>(e),
        },
{
    let cookie = match cookie {
        None => {
            return Err(YahooError::NoCookie);
        },
        Some(None) => {
            return Err(YahooError::NoAcrumb);
        },
        Some(Some(c)) => c,
    };
    match acrumb_of_cookie_without_suffix(cookie) {
        Some(a) => Ok(YidFormRequest::new(a, username_of(to_email))),
        None => Err(YahooError::NoAcrumb),
    }
}

/// One answer item says that the user id is taken.
pub open spec fn user_id_taken(item: FormResponseItem) -> bool {
    item.name@ == "userId"@ && (item.error@ == "IDENTIFIER_NOT_AVAILABLE"@ || item.error@
        == "IDENTIFIER_EXISTS"@)
}

/// One answer item to the `yid` form says that the yid is taken.
pub open spec fn yid_taken(item: FormResponseItem) -> bool {
    item.name@ == "yid"@ && item.error@ == "IDENTIFIER_EXISTS"@
}

/// What the sign-up API's answer says: the address exists when one of the
/// errors says its user id is taken.
pub fn api_outcome(errors: &Vec<FormResponseItem>) -> (r: SmtpDetails)
    ensures
        r == (SmtpDetails {
            can_connect_smtp: true,
            has_full_inbox: false,
            is_catch_all: false,
            is_deliverable: exists|i: int| 0 <= i < errors@.len() && user_id_taken(#[trigger] errors@[i]),
            is_disabled: false,
        }),
{
    let mut found = false;
    let mut i: usize = 0;
    while i < errors.len()
        invariant
            i <= errors@.len(),
            found == exists|k: int| 0 <= k < i && user_id_taken(#[trigger] errors@[k]),
        decreases errors@.len() - i,
    {
        let item = &errors[i];
        if str_eq(item.name.as_str(), "userId") && (str_eq(
            item.error.as_str(),
            "IDENTIFIER_NOT_AVAILABLE",
        ) || str_eq(item.error.as_str(), "IDENTIFIER_EXISTS")) {
            assert(user_id_taken(errors@[i as int]));
            found = true;
        }
        i += 1;
    }
    SmtpDetails {
        can_connect_smtp: true,
        has_full_inbox: false,
        is_catch_all: false,
        is_deliverable: found,
        is_disabled: false,
    }
}

/// What the answer to the `yid` form says: the address exists
/// when one of the errors says its yid is taken.
pub fn yid_outcome(errors: &Vec<FormResponseItem>) -> (r: SmtpDetails)
    ensures
        r == (SmtpDetails {
            can_connect_smtp: true,
            has_full_inbox: false,
            is_catch_all: false,
            is_deliverable: exists|i: int| 0 <= i < errors@.len() && yid_taken(#[trigger] errors@[i]),
            is_disabled: false,
        }),
{
    let mut found = false;
    let mut i: usize = 0;
    while i < errors.len()
        invariant
            i <= errors@.len(),
            found == exists|k: int| 0 <= k < i && yid_taken(#[trigger] errors@[k]),
        decreases errors@.len() - i,
    {
        let item = &errors[i];
        if str_eq(item.name.as_str(), "yid") && str_eq(item.error.as_str(), "IDENTIFIER_EXISTS") {
            assert(yid_taken(errors@[i as int]));
            found = true;
        }
        i += 1;
    }
    SmtpDetails {
        can_connect_smtp: true,
        has_full_inbox: false,
        is_catch_all: false,
        is_deliverable: found,
        is_disabled: false,
    }
}

} // verus!
