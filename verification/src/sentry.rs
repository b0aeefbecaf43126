//! The decisions behind reporting errors to Sentry: which errors are known
//! (and not reported), and redaction of the user's name.

use vstd::prelude::*;
use crate::smtp::SmtpDetails;
use crate::smtp_error::{description_spec, AsyncSmtpError, SmtpError};
use crate::text::{chars_of, matches_at, occurs_at, push_char, seq_contains, str_contains, to_lowercase, unicode_lowercase};

verus! {

/// `s` with every occurrence of `pat` replaced by `rep`, as `str::replace`
/// does it: matches are found left to right and do not overlap; the empty
/// pattern matches before every character and at the end.
pub open spec fn replace_all(s: Seq<char>, pat: Seq<char>, rep: Seq<char>) -> Seq<char>
    decreases s.len(), pat.len(),
{
    if pat.len() == 0 {
        if s.len() == 0 {
            rep
        } else {
            rep + seq![s[0]] + replace_all(s.drop_first(), pat, rep)
        }
    } else if s.len() < pat.len() {
        s
    } else if s.subrange(0, pat.len() as int) == pat {
        rep + replace_all(s.subrange(pat.len() as int, s.len() as int), pat, rep)
    } else {
        seq![s[0]] + replace_all(s.drop_first(), pat, rep)
    }
}

/// Replace every occurrence of `username` in `input` with `***`, for privacy
/// reasons.
pub fn redact(input: &str, username: &str) -> (r: String)
    ensures
        r@ == replace_all(input@, username@, "***"@),
{
    let s = chars_of(input);
    let p = chars_of(username);
    let mut out = String::new();
    let mut i: usize = 0;
    let ghost rep = "***"@;
    if p.len() == 0 {
        assert(s@.subrange(0, s@.len() as int) =~= s@);
        while i < s.len()
            invariant
                i <= s@.len(),
                p@.len() == 0,
                rep == "***"@,
                out@ + replace_all(s@.subrange(i as int, s@.len() as int), p@, rep) == replace_all(
                    s@,
                    p@,
                    rep,
                ),
            decreases s@.len() - i,
        {
            let ghost rest = s@.subrange(i as int, s@.len() as int);
            assert(rest.drop_first() =~= s@.subrange(i + 1, s@.len() as int));
            out = out.concat("***");
            push_char(&mut out, s[i]);
            i += 1;
            assert(out@ + replace_all(s@.subrange(i as int, s@.len() as int), p@, rep) =~= replace_all(
                s@,
                p@,
                rep,
            ));
        }
        out = out.concat("***");
        assert(s@.subrange(i as int, s@.len() as int).len() == 0);
        return out;
    }
    assert(s@.subrange(0, s@.len() as int) =~= s@);
    while i < s.len()
        invariant
            i <= s@.len(),
            p@.len() > 0,
            s@ == input@,
            p@ == username@,
            rep == "***"@,
            out@ + replace_all(s@.subrange(i as int, s@.len() as int), p@, rep) == replace_all(
                s@,
                p@,
                rep,
            ),
        decreases s@.len() - i,
    {
        let ghost rest = s@.subrange(i as int, s@.len() as int);
        if matches_at(&s, &p, i) {
            assert(rest.subrange(0, p@.len() as int) =~= p@);
            assert(rest.subrange(p@.len() as int, rest.len() as int) =~= s@.subrange(
                i + p@.len(),
                s@.len() as int,
            ));
            out = out.concat("***");
            i += p.len();
        } else {
            proof {
                if rest.len() >= p@.len() {
                    assert(rest.subrange(0, p@.len() as int) =~= s@.subrange(i as int, i + p@.len()));
                }
            }
            if s.len() - i < p.len() {
                assert(replace_all(rest, p@, rep) == rest);
                assert(out@ + rest == replace_all(s@, p@, rep));
                let tail = crate::text::string_of_range(&s, i, s.len());
                let ghost before = out@;
                out = out.concat(tail.as_str());
                assert(out@ == before + rest);
                return out;
            }
            assert(rest.drop_first() =~= s@.subrange(i + 1, s@.len() as int));
            push_char(&mut out, s[i]);
            i += 1;
            assert(out@ + replace_all(s@.subrange(i as int, s@.len() as int), p@, rep) =~= replace_all(
                s@,
                p@,
                rep,
            ));
        }
    }
    assert(s@.subrange(i as int, s@.len() as int).len() == 0);
    out
}

/// The first line of a reply says to try again or later.
pub open spec fn transient_retry_spec(first_line: Seq<char>) -> bool {
    let l = unicode_lowercase(first_line);
    seq_contains(l, "try again"@) || seq_contains(l, "try later"@)
}

/// Check if the message contains known SMTP transient errors ("try again",
/// "try later" in its first line). The message has at least one line.
pub fn skip_smtp_transient_errors(message: &[String]) -> (r: bool)
    requires
        message@.len() > 0,
    ensures
        r == transient_retry_spec(message@[0]@),
{
    let first_line = to_lowercase(message[0].as_str());
    str_contains(first_line.as_str(), "try again") || str_contains(first_line.as_str(), "try later")
}

/// The kind of error that is reported to Sentry.
#[derive(Debug, Clone, Copy, PartialEq, Eq, Structural)]
pub enum SentryErrorKind {
    Misc,
    Mx,
    Smtp,
}

impl SentryErrorKind {
    /// The error type passed into Sentry's Exception `ty` field.
    pub fn get_exception_type(&self) -> (r: String)
        ensures
            r@ == match *self {
                SentryErrorKind::Misc => "MiscError"@,
                SentryErrorKind::Mx => "MxError"@,
                SentryErrorKind::Smtp => "SmtpError"@,
            },
    {
        match self {
            SentryErrorKind::Misc => String::from_str("MiscError"),
            SentryErrorKind::Mx => String::from_str("MxError"),
            SentryErrorKind::Smtp => String::from_str("SmtpError"),
        }
    }
}

/// Which error of a verification output is reported to Sentry: misc and MX
/// errors always are; SMTP errors are not when they have a known
/// description, or are transient replies asking to try again.
pub open spec fn sentry_report_spec(misc_failed: bool, mx_failed: bool, smtp: Result<
    SmtpDetails,
    SmtpError,
>) -> Option<SentryErrorKind> {
    if misc_failed {
        Some(SentryErrorKind::Misc)
    } else if mx_failed {
        Some(SentryErrorKind::Mx)
    } else {
        match smtp {
            Ok(_) => None,
            Err(e) => if description_spec(e) is Some {
                None
            } else if e matches SmtpError::AsyncSmtpError(AsyncSmtpError::Transient(lines)) && lines@.len() > 0
                && transient_retry_spec(lines@[0]@) {
                None
            } else {
                Some(SentryErrorKind::Smtp)
            },
        }
    }
}

/// Decide which error of a verification output is reported to Sentry, if
/// any (known errors are not, to avoid spamming it). A transient reply is
/// read by its first line, so it has at least one when it is looked at.
pub fn unknown_error_to_report(misc_failed: bool, mx_failed: bool, smtp: &Result<
    SmtpDetails,
    SmtpError,
>) -> (r: Option<SentryErrorKind>)
    requires
        misc_failed || mx_failed || !(*smtp matches Err(
            SmtpError::AsyncSmtpError(AsyncSmtpError::Transient(lines)),
        ) && lines@.len() == 0),
    ensures
        r == sentry_report_spec(misc_failed, mx_failed, *smtp),
{
    if misc_failed {
        return Some(SentryErrorKind::Misc);
    }
    if mx_failed {
        return Some(SentryErrorKind::Mx);
    }
    match smtp {
        Ok(_) => None,
        Err(e) => {
            if e.get_description().is_some() {
                return None;
            }
            match e {
                SmtpError::AsyncSmtpError(AsyncSmtpError::Transient(lines)) => {
                    if lines.len() > 0 && skip_smtp_transient_errors(lines.as_slice()) {
                        return None;
                    }
                },
                _ => {},
            }
            Some(SentryErrorKind::Smtp)
        },
    }
}

/// An occurrence of `pat` at `k + 1` in `s` is one at `k` in `s` without its
/// first character.
proof fn lemma_occurs_drop_first(s: Seq<char>, pat: Seq<char>, k: int)
    requires
        s.len() > 0,
        0 <= k,
    ensures
        occurs_at(s.drop_first(), pat, k) <==> occurs_at(s, pat, k + 1),
{
    if 0 <= k && k + pat.len() <= s.len() - 1 {
        assert(s.drop_first().subrange(k, k + pat.len()) =~= s.subrange(k + 1, k + 1 + pat.len()));
    }
}

/// Before the first occurrence of `pat`, the replacement copies the text;
/// at that occurrence it writes `rep`.
proof fn lemma_replace_prefix(t: Seq<char>, pat: Seq<char>, rep: Seq<char>, m: int)
    requires
        pat.len() > 0,
        0 <= m <= t.len(),
        forall|k: int| 0 <= k < m ==> !occurs_at(t, pat, k),
    ensures
        replace_all(t, pat, rep).len() >= m,
        replace_all(t, pat, rep).subrange(0, m) == t.subrange(0, m),
        occurs_at(t, pat, m) ==> replace_all(t, pat, rep).len() >= m + rep.len()
            && replace_all(t, pat, rep).subrange(m, m + rep.len()) == rep,
    decreases m,
{
    let r = replace_all(t, pat, rep);
    if m == 0 {
        if occurs_at(t, pat, 0) {
            assert(t.subrange(0, pat.len() as int) == pat);
            assert(r.subrange(0, rep.len() as int) =~= rep);
        }
        assert(r.subrange(0, 0) =~= t.subrange(0, 0));
    } else if t.len() < pat.len() {
        assert(r == t);
        if occurs_at(t, pat, m) {
            assert(false);
        }
    } else {
        assert(!occurs_at(t, pat, 0));
        assert(t.subrange(0, pat.len() as int) != pat);
        let d = t.drop_first();
        assert forall|k: int| 0 <= k < m - 1 implies !occurs_at(d, pat, k) by {
            lemma_occurs_drop_first(t, pat, k);
        }
        lemma_replace_prefix(d, pat, rep, m - 1);
        lemma_occurs_drop_first(t, pat, m - 1);
        let rd = replace_all(d, pat, rep);
        assert(r == seq![t[0]] + rd);
        assert(r.subrange(0, m) =~= seq![t[0]] + rd.subrange(0, m - 1));
        assert(t.subrange(0, m) =~= seq![t[0]] + d.subrange(0, m - 1));
        if occurs_at(t, pat, m) {
            assert(r.subrange(m, m + rep.len()) =~= rd.subrange(m - 1, m - 1 + rep.len()));
        }
    }
}

/// Some occurrence before `bound` gives a first one.
proof fn lemma_first_occurrence(t: Seq<char>, pat: Seq<char>, bound: int) -> (k: int)
    requires
        exists|k: int| 0 <= k < bound && occurs_at(t, pat, k),
    ensures
        0 <= k < bound,
        occurs_at(t, pat, k),
        forall|k2: int| 0 <= k2 < k ==> !occurs_at(t, pat, k2),
    decreases bound,
{
    if exists|k: int| 0 <= k < bound - 1 && occurs_at(t, pat, k) {
        lemma_first_occurrence(t, pat, bound - 1)
    } else {
        bound - 1
    }
}

/// Redaction removes every instance of a username that holds no `*`: none
/// is left in the text, not even one formed across a replacement.
pub proof fn lemma_redact_removes_username(input: Seq<char>, username: Seq<char>)
    requires
        username.len() > 0,
        forall|i: int| 0 <= i < username.len() ==> username[i] != '*',
    ensures
        !seq_contains(replace_all(input, username, "***"@), username),
    decreases input.len(),
{
    let pat = username;
    let rep = "***"@;
    reveal_strlit("***");
    let r = replace_all(input, pat, rep);
    if input.len() < pat.len() {
        assert(r == input);
        if seq_contains(r, pat) {
            let i = choose|i: int| occurs_at(r, pat, i);
            assert(false);
        }
    } else if input.subrange(0, pat.len() as int) == pat {
        let rest = input.subrange(pat.len() as int, input.len() as int);
        lemma_redact_removes_username(rest, pat);
        let rr = replace_all(rest, pat, rep);
        assert(r == rep + rr);
        if seq_contains(r, pat) {
            let i = choose|i: int| occurs_at(r, pat, i);
            if i < 3 {
                assert(r.subrange(i, i + pat.len())[0] == r[i]);
                assert(r[i] == '*');
                assert(pat[0] == '*');
            } else {
                assert(r.subrange(i, i + pat.len()) =~= rr.subrange(i - 3, i - 3 + pat.len()));
                assert(occurs_at(rr, pat, i - 3));
            }
        }
    } else {
        let d = input.drop_first();
        lemma_redact_removes_username(d, pat);
        let rd = replace_all(d, pat, rep);
        assert(r == seq![input[0]] + rd);
        if seq_contains(r, pat) {
            let i = choose|i: int| occurs_at(r, pat, i);
            if i >= 1 {
                assert(r.subrange(i, i + pat.len()) =~= rd.subrange(i - 1, i - 1 + pat.len()));
                assert(occurs_at(rd, pat, i - 1));
            } else {
                // The occurrence starts the output: its first character is
                // the input's, the rest comes from the redacted remainder.
                assert(r.subrange(0, pat.len() as int) == pat);
                let n = pat.len() - 1;
                assert(rd.len() >= n);
                assert(rd.subrange(0, n) =~= pat.subrange(1, pat.len() as int)) by {
                    assert forall|j: int| 0 <= j < n implies rd[j] == pat[j + 1] by {
                        assert(r[j + 1] == rd[j]);
                        assert(r.subrange(0, pat.len() as int)[j + 1] == r[j + 1]);
                    }
                }
                if exists|k: int| 0 <= k < n && occurs_at(d, pat, k) {
                    let k = lemma_first_occurrence(d, pat, n);
                    lemma_replace_prefix(d, pat, rep, k);
                    assert(rd.subrange(k, k + 3)[0] == rd[k]);
                    assert(rd[k] == '*');
                    assert(rd.subrange(0, n)[k] == rd[k]);
                    assert(pat[k + 1] == '*');
                } else {
                    lemma_replace_prefix(d, pat, rep, n);
                    assert(input.subrange(0, pat.len() as int) =~= seq![input[0]] + d.subrange(0, n));
                    assert(r.subrange(0, pat.len() as int)[0] == input[0]);
                    assert(pat[0] == input[0]);
                    assert(input.subrange(0, pat.len() as int) =~= pat);
                }
            }
        }
    }
}

/// Which error is reported: a failure of the miscellaneous checks first,
/// then one of the MX lookup; of the SMTP outcome, only an error with no
/// known description that is not a transient reply asking to try again (or
/// later). A successful verification reports nothing.
pub proof fn lemma_sentry_report_cases(
    misc_failed: bool,
    mx_failed: bool,
    smtp: Result<SmtpDetails, SmtpError>,
    lines: Vec<String>,
)
    ensures
        misc_failed ==> sentry_report_spec(misc_failed, mx_failed, smtp) == Some(SentryErrorKind::Misc),
        !misc_failed && mx_failed ==> sentry_report_spec(misc_failed, mx_failed, smtp) == Some(
            SentryErrorKind::Mx,
        ),
        !misc_failed && !mx_failed && smtp is Ok ==> sentry_report_spec(misc_failed, mx_failed, smtp)
            is None,
        !misc_failed && !mx_failed && (smtp matches Err(e) && description_spec(e) is Some)
            ==> sentry_report_spec(misc_failed, mx_failed, smtp) is None,
        !misc_failed && !mx_failed && (smtp matches Err(e) && description_spec(e) is None && !(
        e is AsyncSmtpError)) ==> sentry_report_spec(misc_failed, mx_failed, smtp) == Some(
            SentryErrorKind::Smtp,
        ),
        !misc_failed && !mx_failed && (smtp matches Err(e) && description_spec(e) is None && e matches SmtpError::AsyncSmtpError(AsyncSmtpError::Permanent(_)))
            ==> sentry_report_spec(misc_failed, mx_failed, smtp) == Some(SentryErrorKind::Smtp),
        ({
            let e = SmtpError::AsyncSmtpError(AsyncSmtpError::Transient(lines));
            !misc_failed && !mx_failed && lines@.len() > 0 && description_spec(e) is None ==> (
            sentry_report_spec(misc_failed, mx_failed, Err(e)) is None <==> transient_retry_spec(
                lines@[0]@,
            ))
        }),
{
}

} // verus!
