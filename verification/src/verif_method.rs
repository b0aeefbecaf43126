//! How each email provider is verified: the verification method per provider,
//! and the proxies that SMTP verifications go through.

use vstd::prelude::*;
use std::time::Duration;
use crate::input_output::CheckEmailInputProxy;
use crate::providers::{host_has_suffix, is_gmail, is_hotmail_b2b, is_hotmail_b2c, is_yahoo};
use crate::text::{seq_ends_with, str_eq};

verus! {

/// Errors in the configuration of the verification methods.
#[derive(Debug, Clone, PartialEq, Eq)]
pub enum VerifMethodError {
    /// A verification method names a proxy that is not configured; the
    /// string says which.
    InvalidProxies(String),
}

/// Reacher categorizes each email into one of the following email providers.
/// This is used to determine the verification method to use for each email
/// provider.
#[derive(PartialEq, Eq, Structural, Debug, Clone, Copy)]
pub enum EmailProvider {
    Gmail,
    HotmailB2B,
    HotmailB2C,
    Yahoo,
    EverythingElse,
}

/// The provider that a MX host belongs to.
pub open spec fn provider_of_host(host: Seq<char>) -> EmailProvider {
    if host_has_suffix(host, ".olc.protection.outlook.com."@) {
        EmailProvider::HotmailB2C
    } else if host_has_suffix(host, ".mail.protection.outlook.com."@) {
        EmailProvider::HotmailB2B
    } else if host_has_suffix(host, ".google.com."@) {
        EmailProvider::Gmail
    } else if host_has_suffix(host, ".yahoodns.net."@) {
        EmailProvider::Yahoo
    } else {
        EmailProvider::EverythingElse
    }
}

/// Two suffixes of one sequence agree on each position counted from the end.
proof fn lemma_suffixes_agree(l: Seq<char>, a: Seq<char>, b: Seq<char>, k: int)
    requires
        seq_ends_with(l, a),
        seq_ends_with(l, b),
        0 <= k < a.len(),
        k < b.len(),
    ensures
        a[a.len() - 1 - k] == b[b.len() - 1 - k],
{
    assert(l.subrange(l.len() - a.len(), l.len() as int)[a.len() - 1 - k] == l[l.len() - 1 - k]);
    assert(l.subrange(l.len() - b.len(), l.len() as int)[b.len() - 1 - k] == l[l.len() - 1 - k]);
}

/// Each provider is recognized by the suffix of its lower-cased MX host,
/// whatever else the host holds: `.olc.protection.outlook.com.` for Hotmail
/// B2C, `.mail.protection.outlook.com.` for Hotmail B2B (Microsoft 365),
/// `.google.com.` for Gmail and Google Workspace, `.yahoodns.net.` for Yahoo;
/// a host with none of these suffixes is of another provider.
pub proof fn lemma_provider_by_suffix(host: Seq<char>)
    ensures
        host_has_suffix(host, ".olc.protection.outlook.com."@) ==> provider_of_host(host)
            == EmailProvider::HotmailB2C,
        host_has_suffix(host, ".mail.protection.outlook.com."@) ==> provider_of_host(host)
            == EmailProvider::HotmailB2B,
        host_has_suffix(host, ".google.com."@) ==> provider_of_host(host) == EmailProvider::Gmail,
        host_has_suffix(host, ".yahoodns.net."@) ==> provider_of_host(host) == EmailProvider::Yahoo,
        !host_has_suffix(host, ".olc.protection.outlook.com."@) && !host_has_suffix(
            host,
            ".mail.protection.outlook.com."@,
        ) && !host_has_suffix(host, ".google.com."@) && !host_has_suffix(host, ".yahoodns.net."@)
            ==> provider_of_host(host) == EmailProvider::EverythingElse,
{
    let l = crate::text::unicode_lowercase(host);
    let olc = ".olc.protection.outlook.com."@;
    let mail = ".mail.protection.outlook.com."@;
    let google = ".google.com."@;
    let yahoo = ".yahoodns.net."@;
    reveal_strlit(".olc.protection.outlook.com.");
    reveal_strlit(".mail.protection.outlook.com.");
    reveal_strlit(".google.com.");
    reveal_strlit(".yahoodns.net.");
    if seq_ends_with(l, olc) && seq_ends_with(l, mail) {
        lemma_suffixes_agree(l, olc, mail, 24);
    }
    if seq_ends_with(l, olc) && seq_ends_with(l, google) {
        lemma_suffixes_agree(l, olc, google, 5);
    }
    if seq_ends_with(l, olc) && seq_ends_with(l, yahoo) {
        lemma_suffixes_agree(l, olc, yahoo, 1);
    }
    if seq_ends_with(l, mail) && seq_ends_with(l, google) {
        lemma_suffixes_agree(l, mail, google, 5);
    }
    if seq_ends_with(l, mail) && seq_ends_with(l, yahoo) {
        lemma_suffixes_agree(l, mail, yahoo, 1);
    }
    if seq_ends_with(l, google) && seq_ends_with(l, yahoo) {
        lemma_suffixes_agree(l, google, yahoo, 1);
    }
}

impl EmailProvider {
    /// Determine the email provider from the MX host.
    pub fn from_mx_host(host: &str) -> (r: Self)
        ensures
            r == provider_of_host(host@),
    {
        if is_hotmail_b2c(host) {
            EmailProvider::HotmailB2C
        } else if is_hotmail_b2b(host) {
            EmailProvider::HotmailB2B
        } else if is_gmail(host) {
            EmailProvider::Gmail
        } else if is_yahoo(host) {
            EmailProvider::Yahoo
        } else {
            EmailProvider::EverythingElse
        }
    }
}

/// The value stored for `key` in a list of entries: that of its first entry.
pub open spec fn lookup(entries: Seq<(Seq<char>, CheckEmailInputProxy)>, key: Seq<char>) -> Option<
    CheckEmailInputProxy,
>
    decreases entries.len(),
{
    if entries.len() == 0 {
        None
    } else if entries[0].0 == key {
        Some(entries[0].1)
    } else {
        lookup(entries.drop_first(), key)
    }
}

/// Proxies by name. The key is any unique name for the proxy, such as
/// "proxy1", and the value is the proxy itself.
///
/// The entries are a list searched by the keys' characters, so that a
/// lookup has a contract: vstd specifies `HashMap` only for keys whose hash
/// and equality it models, and `String` is not among them.
#[derive(Debug, Clone)]
pub struct ProxyMap {
    entries: Vec<(String, CheckEmailInputProxy)>,
}

impl ProxyMap {
    /// The entries, keys taken as character sequences.
    pub closed spec fn entries_view(&self) -> Seq<(Seq<char>, CheckEmailInputProxy)> {
        self.entries@.map_values(|e: (String, CheckEmailInputProxy)| (e.0@, e.1))
    }

    /// The proxy stored under `key`, if any.
    pub open spec fn spec_get(&self, key: Seq<char>) -> Option<CheckEmailInputProxy> {
        lookup(self.entries_view(), key)
    }

    /// An empty map.
    pub fn new() -> (r: Self)
        ensures
            forall|k: Seq<char>| r.spec_get(k) is None,
    {
        let r = ProxyMap { entries: Vec::new() };
        assert(r.entries_view().len() == 0);
        r
    }

    /// Store `proxy` under `key`, replacing what was stored there.
    pub fn insert(&mut self, key: String, proxy: CheckEmailInputProxy)
        ensures
            forall|k: Seq<char>|
                #[trigger] final(self).spec_get(k) == if k == key@ {
                    Some(proxy)
                } else {
                    old(self).spec_get(k)
                },
    {
        let ghost old_entries = self.entries_view();
        match self.position(key.as_str()) {
            Some(i) => {
                let ghost kv = key@;
                self.entries.set(i, (key, proxy));
                proof {
                    assert(self.entries_view() =~= old_entries.update(i as int, (kv, proxy)));
                    lemma_lookup_update_first(old_entries, i as int, kv, proxy);
                }
            },
            None => {
                let ghost kv = key@;
                self.entries.push((key, proxy));
                proof {
                    assert(self.entries_view() =~= old_entries.push((kv, proxy)));
                    lemma_lookup_push(old_entries, kv, proxy);
                }
            },
        }
    }

    /// Index of the first entry stored under `key`.
    fn position(&self, key: &str) -> (r: Option<usize>)
        ensures
            match r {
                Some(i) => {
                    &&& i < self.entries_view().len()
                    &&& self.entries_view()[i as int].0 == key@
                    &&& forall|j: int| 0 <= j < i ==> self.entries_view()[j].0 != key@
                },
                None => forall|j: int|
                    0 <= j < self.entries_view().len() ==> self.entries_view()[j].0 != key@,
            },
    {
        let mut i: usize = 0;
        while i < self.entries.len()
            invariant
                i <= self.entries@.len(),
                self.entries_view().len() == self.entries@.len(),
                forall|j: int| 0 <= j < i ==> self.entries_view()[j].0 != key@,
            decreases self.entries@.len() - i,
        {
            if str_eq(self.entries[i].0.as_str(), key) {
                return Some(i);
            }
            i += 1;
        }
        None
    }

    /// The proxy stored under `key`, if any.
    pub fn get(&self, key: &str) -> (r: Option<&CheckEmailInputProxy>)
        ensures
            match r {
                Some(p) => self.spec_get(key@) == Some(*p),
                None => self.spec_get(key@) is None,
            },
    {
        match self.position(key) {
            Some(i) => {
                proof { lemma_lookup_first(self.entries_view(), i as int, key@); }
                Some(&self.entries[i].1)
            },
            None => {
                proof { lemma_lookup_absent(self.entries_view(), key@); }
                None
            },
        }
    }
}

/// The value of the first entry under `key` is what `lookup` gives.
pub proof fn lemma_lookup_first(
    entries: Seq<(Seq<char>, CheckEmailInputProxy)>,
    i: int,
    key: Seq<char>,
)
    requires
        0 <= i < entries.len(),
        entries[i].0 == key,
        forall|j: int| 0 <= j < i ==> entries[j].0 != key,
    ensures
        lookup(entries, key) == Some(entries[i].1),
    decreases i,
{
    if i > 0 {
        lemma_lookup_first(entries.drop_first(), i - 1, key);
    }
}

/// A key under which no entry is stored has no value.
pub proof fn lemma_lookup_absent(entries: Seq<(Seq<char>, CheckEmailInputProxy)>, key: Seq<char>)
    requires
        forall|j: int| 0 <= j < entries.len() ==> entries[j].0 != key,
    ensures
        lookup(entries, key) is None,
    decreases entries.len(),
{
    if entries.len() > 0 {
        lemma_lookup_absent(entries.drop_first(), key);
    }
}

/// Appending an entry under a new key adds exactly that key.
pub proof fn lemma_lookup_push(
    entries: Seq<(Seq<char>, CheckEmailInputProxy)>,
    key: Seq<char>,
    v: CheckEmailInputProxy,
)
    requires
        forall|j: int| 0 <= j < entries.len() ==> entries[j].0 != key,
    ensures
        forall|k: Seq<char>|
            #[trigger] lookup(entries.push((key, v)), k) == if k == key {
                Some(v)
            } else {
                lookup(entries, k)
            },
    decreases entries.len(),
{
    let e2 = entries.push((key, v));
    if entries.len() > 0 {
        lemma_lookup_push(entries.drop_first(), key, v);
        assert(e2.drop_first() =~= entries.drop_first().push((key, v)));
        assert forall|k: Seq<char>|
            #[trigger] lookup(e2, k) == if k == key {
                Some(v)
            } else {
                lookup(entries, k)
            } by {
            assert(e2[0] == entries[0]);
            assert(entries[0].0 != key);
            let d = entries.drop_first().push((key, v));
            assert(lookup(d, k) == if k == key {
                Some(v)
            } else {
                lookup(entries.drop_first(), k)
            });
            assert(lookup(e2.drop_first(), k) == lookup(d, k));
            if k == entries[0].0 {
                assert(lookup(e2, k) == Some(entries[0].1));
                assert(lookup(entries, k) == Some(entries[0].1));
            } else {
                assert(lookup(e2, k) == lookup(e2.drop_first(), k));
                assert(lookup(entries, k) == lookup(entries.drop_first(), k));
            }
        }
    } else {
        assert forall|k: Seq<char>|
            #[trigger] lookup(e2, k) == if k == key {
                Some(v)
            } else {
                lookup(entries, k)
            } by {
            assert(e2[0] == (key, v));
            assert(e2.drop_first().len() == 0);
            assert(lookup(e2.drop_first(), k) is None);
            assert(lookup(entries, k) is None);
        }
    }
}

/// Replacing the first entry under a key changes exactly that key.
pub proof fn lemma_lookup_update_first(
    entries: Seq<(Seq<char>, CheckEmailInputProxy)>,
    i: int,
    key: Seq<char>,
    v: CheckEmailInputProxy,
)
    requires
        0 <= i < entries.len(),
        entries[i].0 == key,
        forall|j: int| 0 <= j < i ==> entries[j].0 != key,
    ensures
        forall|k: Seq<char>|
            #[trigger] lookup(entries.update(i, (key, v)), k) == if k == key {
                Some(v)
            } else {
                lookup(entries, k)
            },
    decreases i,
{
    let e2 = entries.update(i, (key, v));
    if i > 0 {
        lemma_lookup_update_first(entries.drop_first(), i - 1, key, v);
        assert(e2.drop_first() =~= entries.drop_first().update(i - 1, (key, v)));
        assert forall|k: Seq<char>|
            #[trigger] lookup(e2, k) == if k == key {
                Some(v)
            } else {
                lookup(entries, k)
            } by {
            assert(e2[0] == entries[0]);
            assert(entries[0].0 != key);
            assert(lookup(e2.drop_first(), k) == lookup(
                entries.drop_first().update(i - 1, (key, v)),
                k,
            ));
            assert(lookup(entries.drop_first(), k) == lookup(entries.drop_first(), k));
        }
    } else {
        assert forall|k: Seq<char>|
            #[trigger] lookup(e2, k) == if k == key {
                Some(v)
            } else {
                lookup(entries, k)
            } by {
            assert(e2[0] == (key, v));
            assert(e2.drop_first() =~= entries.drop_first());
        }
    }
}

/// Configuration of the SMTP verification method.
#[derive(Debug, Clone)]
pub struct VerifMethodSmtpConfig {
    /// Email to use in the `MAIL FROM:` SMTP command.
    ///
    /// Defaults to "reacher.email@gmail.com", an unused address owned by Reacher.
    pub from_email: String,
    /// Name to use in the `EHLO:` SMTP command.
    ///
    /// Defaults to "gmail.com" (note: "localhost" is not a FQDN).
    pub hello_name: String,
    /// Use a proxy to check if an email exists. This proxy must exist in the
    /// `VerifMethod.proxies` field, and it must be a SOCKS5 proxy.
    pub proxy: Option<String>,
    /// SMTP port to use for email validation. Defaults to 25.
    pub smtp_port: u16,
    /// Timeout of each SMTP connection. Defaults to None.
    pub smtp_timeout: Option<Duration>,
    /// Number of total SMTP connections to do. Defaults to 1.
    pub retries: usize,
}

impl Default for VerifMethodSmtpConfig {
    fn default() -> (r: Self)
        ensures
            r.from_email@ == "reacher.email@gmail.com"@,
            r.hello_name@ == "gmail.com"@,
            r.proxy is None,
            r.smtp_port == 25,
            r.smtp_timeout is None,
            r.retries == 1,
    {
        VerifMethodSmtpConfig {
            from_email: String::from_str("reacher.email@gmail.com"),
            hello_name: String::from_str("gmail.com"),
            proxy: None,
            smtp_port: 25,
            smtp_timeout: None,
            retries: 1,
        }
    }
}

/// Verification method for Gmail.
#[derive(Debug, Clone)]
pub enum GmailVerifMethod {
    Smtp(VerifMethodSmtpConfig),
}

/// Verification method for Hotmail B2B.
#[derive(Debug, Clone)]
pub enum HotmailB2BVerifMethod {
    /// Use Hotmail's SMTP servers to check if an email exists.
    Smtp(VerifMethodSmtpConfig),
}

/// Verification method for Hotmail B2C.
#[derive(Debug, Clone)]
pub enum HotmailB2CVerifMethod {
    /// Use Hotmail's password recovery page, through a WebDriver.
    Headless,
    /// Use Hotmail's SMTP servers to check if an email exists.
    Smtp(VerifMethodSmtpConfig),
}

/// Verification method for Yahoo.
#[derive(Debug, Clone)]
pub enum YahooVerifMethod {
    /// Use Yahoo's API to check if an email exists.
    Api,
    /// Use Yahoo's password recovery page, through a WebDriver.
    Headless,
    /// Use Yahoo's SMTP servers to check if an email exists.
    Smtp(VerifMethodSmtpConfig),
}

/// Verification method for everything else.
#[derive(Debug, Clone)]
pub enum EverythingElseVerifMethod {
    /// Use the SMTP server of the email provider to check if an email exists.
    Smtp(VerifMethodSmtpConfig),
}

impl Default for GmailVerifMethod {
    fn default() -> (r: Self)
        ensures
            r matches GmailVerifMethod::Smtp(c) && c.proxy is None && c.smtp_port == 25
                && c.retries == 1,
    {
        GmailVerifMethod::Smtp(VerifMethodSmtpConfig::default())
    }
}

impl Default for HotmailB2BVerifMethod {
    fn default() -> (r: Self)
        ensures
            r matches HotmailB2BVerifMethod::Smtp(c) && c.proxy is None && c.smtp_port == 25
                && c.retries == 1,
    {
        HotmailB2BVerifMethod::Smtp(VerifMethodSmtpConfig::default())
    }
}

impl Default for HotmailB2CVerifMethod {
    fn default() -> (r: Self)
        ensures
            r is Headless,
    {
        HotmailB2CVerifMethod::Headless
    }
}

impl Default for YahooVerifMethod {
    fn default() -> (r: Self)
        ensures
            r is Headless,
    {
        YahooVerifMethod::Headless
    }
}

impl Default for EverythingElseVerifMethod {
    fn default() -> (r: Self)
        ensures
            r matches EverythingElseVerifMethod::Smtp(c) && c.proxy is None && c.smtp_port == 25
                && c.retries == 1,
    {
        EverythingElseVerifMethod::Smtp(VerifMethodSmtpConfig::default())
    }
}

/// The verification method to use for each email provider.
#[derive(Debug, Clone)]
pub struct VerifMethod {
    /// Proxies to use for email verification, by name.
    pub proxies: ProxyMap,
    /// Verification method for Gmail.
    pub gmail: GmailVerifMethod,
    /// Verification method for Hotmail B2B.
    pub hotmailb2b: HotmailB2BVerifMethod,
    /// Verification method for Hotmail B2C.
    pub hotmailb2c: HotmailB2CVerifMethod,
    /// Verification method for Yahoo.
    pub yahoo: YahooVerifMethod,
    /// Verification method for everything else.
    pub everything_else: EverythingElseVerifMethod,
}

impl Default for VerifMethod {
    fn default() -> (r: Self)
        ensures
            forall|k: Seq<char>| r.proxies.spec_get(k) is None,
            r.gmail matches GmailVerifMethod::Smtp(c) && c.proxy is None,
            r.hotmailb2b matches HotmailB2BVerifMethod::Smtp(c) && c.proxy is None,
            r.hotmailb2c is Headless,
            r.yahoo is Headless,
            r.everything_else matches EverythingElseVerifMethod::Smtp(c) && c.proxy is None,
    {
        VerifMethod {
            proxies: ProxyMap::new(),
            gmail: GmailVerifMethod::default(),
            hotmailb2b: HotmailB2BVerifMethod::default(),
            hotmailb2c: HotmailB2CVerifMethod::default(),
            yahoo: YahooVerifMethod::default(),
            everything_else: EverythingElseVerifMethod::default(),
        }
    }
}

/// The SMTP configuration that a provider is verified with, if it is
/// verified over SMTP.
pub open spec fn smtp_config_of(vm: VerifMethod, p: EmailProvider) -> Option<VerifMethodSmtpConfig> {
    match p {
        EmailProvider::Gmail => match vm.gmail {
            GmailVerifMethod::Smtp(c) => Some(c),
        },
        EmailProvider::HotmailB2B => match vm.hotmailb2b {
            HotmailB2BVerifMethod::Smtp(c) => Some(c),
        },
        EmailProvider::HotmailB2C => match vm.hotmailb2c {
            HotmailB2CVerifMethod::Smtp(c) => Some(c),
            _ => None,
        },
        EmailProvider::Yahoo => match vm.yahoo {
            YahooVerifMethod::Smtp(c) => Some(c),
            _ => None,
        },
        EmailProvider::EverythingElse => match vm.everything_else {
            EverythingElseVerifMethod::Smtp(c) => Some(c),
        },
    }
}

/// The name of the proxy that a provider's verification goes through, if
/// any.
pub open spec fn proxy_id_of(vm: VerifMethod, p: EmailProvider) -> Option<Seq<char>> {
    match smtp_config_of(vm, p) {
        Some(c) => match c.proxy {
            Some(id) => Some(id@),
            None => None,
        },
        None => None,
    }
}

/// The proxy that a provider's verification goes through, if it names one
/// that is configured.
pub open spec fn proxy_of(vm: VerifMethod, p: EmailProvider) -> Option<CheckEmailInputProxy> {
    match proxy_id_of(vm, p) {
        Some(id) => vm.proxies.spec_get(id),
        None => None,
    }
}

/// The proxy name of the provider is configured, or none is named.
pub open spec fn proxy_valid(vm: VerifMethod, p: EmailProvider) -> bool {
    match proxy_id_of(vm, p) {
        Some(id) => vm.proxies.spec_get(id) is Some,
        None => true,
    }
}

/// The message for a provider whose proxy is not configured.
pub open spec fn invalid_proxy_message(p: EmailProvider, id: Seq<char>) -> Seq<char> {
    match p {
        EmailProvider::Gmail => "Invalid Gmail proxy "@ + id,
        EmailProvider::HotmailB2B => "Invalid Hotmail B2B proxy "@ + id,
        EmailProvider::HotmailB2C => "Invalid Hotmail B2C proxy "@ + id,
        EmailProvider::Yahoo => "Invalid Yahoo proxy "@ + id,
        EmailProvider::EverythingElse => "Invalid EverythingElse proxy "@ + id,
    }
}

/// The providers, in the order in which their proxies are checked.
pub open spec fn provider_order() -> Seq<EmailProvider> {
    seq![
        EmailProvider::Gmail,
        EmailProvider::HotmailB2B,
        EmailProvider::HotmailB2C,
        EmailProvider::Yahoo,
        EmailProvider::EverythingElse,
    ]
}

/// Every provider's proxy name, if any, is configured.
pub open spec fn all_proxies_valid(vm: VerifMethod) -> bool {
    forall|p: EmailProvider| proxy_valid(vm, p)
}

impl VerifMethod {
    /// Check a provider's proxy name against the configured proxies.
    fn check_provider(&self, p: EmailProvider) -> (r: Result<(), VerifMethodError>)
        ensures
            match r {
                Ok(()) => proxy_valid(*self, p),
                Err(VerifMethodError::InvalidProxies(m)) => !proxy_valid(*self, p) && m@
                    == invalid_proxy_message(p, proxy_id_of(*self, p).unwrap()),
            },
    {
        let cfg = match p {
            EmailProvider::Gmail => match &self.gmail {
                GmailVerifMethod::Smtp(c) => Some(c),
            },
            EmailProvider::HotmailB2B => match &self.hotmailb2b {
                HotmailB2BVerifMethod::Smtp(c) => Some(c),
            },
            EmailProvider::HotmailB2C => match &self.hotmailb2c {
                HotmailB2CVerifMethod::Smtp(c) => Some(c),
                _ => None,
            },
            EmailProvider::Yahoo => match &self.yahoo {
                YahooVerifMethod::Smtp(c) => Some(c),
                _ => None,
            },
            EmailProvider::EverythingElse => match &self.everything_else {
                EverythingElseVerifMethod::Smtp(c) => Some(c),
            },
        };
        match cfg {
            Some(c) => match &c.proxy {
                Some(proxy_id) => {
                    if self.proxies.get(proxy_id.as_str()).is_some() {
                        Ok(())
                    } else {
                        let prefix = match p {
                            EmailProvider::Gmail => "Invalid Gmail proxy ",
                            EmailProvider::HotmailB2B => "Invalid Hotmail B2B proxy ",
                            EmailProvider::HotmailB2C => "Invalid Hotmail B2C proxy ",
                            EmailProvider::Yahoo => "Invalid Yahoo proxy ",
                            EmailProvider::EverythingElse => "Invalid EverythingElse proxy ",
                        };
                        Err(
                            VerifMethodError::InvalidProxies(
                                String::from_str(prefix).concat(proxy_id.as_str()),
                            ),
                        )
                    }
                },
                None => Ok(()),
            },
            None => Ok(()),
        }
    }

    /// Check that every proxy named by a verification method is configured.
    /// The providers are checked in the order Gmail, Hotmail B2B, Hotmail
    /// B2C, Yahoo, everything else; the error names the first one whose proxy
    /// is missing.
    pub fn validate_proxies(&self) -> (r: Result<(), VerifMethodError>)
        ensures
            r is Ok <==> all_proxies_valid(*self),
            match r {
                Ok(()) => true,
                Err(VerifMethodError::InvalidProxies(m)) => exists|i: int|
                    0 <= i < 5 && {
                        let p = #[trigger] provider_order()[i];
                        &&& !proxy_valid(*self, p)
                        &&& m@ == invalid_proxy_message(p, proxy_id_of(*self, p).unwrap())
                        &&& forall|j: int| 0 <= j < i ==> proxy_valid(*self, provider_order()[j])
                    },
            },
    {
        let r0 = self.check_provider(EmailProvider::Gmail);
        if r0.is_err() {
            assert(provider_order()[0] == EmailProvider::Gmail);
            return r0;
        }
        let r1 = self.check_provider(EmailProvider::HotmailB2B);
        if r1.is_err() {
            assert(provider_order()[1] == EmailProvider::HotmailB2B);
            return r1;
        }
        let r2 = self.check_provider(EmailProvider::HotmailB2C);
        if r2.is_err() {
            assert(provider_order()[2] == EmailProvider::HotmailB2C);
            return r2;
        }
        let r3 = self.check_provider(EmailProvider::Yahoo);
        if r3.is_err() {
            assert(provider_order()[3] == EmailProvider::Yahoo);
            return r3;
        }
        let r4 = self.check_provider(EmailProvider::EverythingElse);
        if r4.is_err() {
            assert(provider_order()[4] == EmailProvider::EverythingElse);
            return r4;
        }
        assert forall|p: EmailProvider| proxy_valid(*self, p) by {
            match p {
                EmailProvider::Gmail => {},
                EmailProvider::HotmailB2B => {},
                EmailProvider::HotmailB2C => {},
                EmailProvider::Yahoo => {},
                EmailProvider::EverythingElse => {},
            }
        }
        Ok(())
    }

    /// Get the proxy to use for the email provider: the configured proxy
    /// that the provider's SMTP method names, or none when it names none. A
    /// configuration error, a named proxy that is not configured, is an
    /// error.
    pub fn get_proxy(&self, email_provider: EmailProvider) -> (r: Result<
        Option<&CheckEmailInputProxy>,
        VerifMethodError,
    >)
        ensures
            match r {
                Ok(Some(p)) => proxy_id_of(*self, email_provider) is Some && proxy_of(
                    *self,
                    email_provider,
                ) == Some(*p),
                Ok(None) => proxy_id_of(*self, email_provider) is None,
                Err(VerifMethodError::InvalidProxies(m)) => !proxy_valid(*self, email_provider)
                    && m@ == invalid_proxy_message(
                    email_provider,
                    proxy_id_of(*self, email_provider).unwrap(),
                ),
            },
    {
        match self.check_provider(email_provider) {
            Err(e) => {
                return Err(e);
            },
            Ok(()) => {},
        }
        let cfg = match email_provider {
            EmailProvider::Gmail => match &self.gmail {
                GmailVerifMethod::Smtp(c) => Some(c),
            },
            EmailProvider::HotmailB2B => match &self.hotmailb2b {
                HotmailB2BVerifMethod::Smtp(c) => Some(c),
            },
            EmailProvider::HotmailB2C => match &self.hotmailb2c {
                HotmailB2CVerifMethod::Smtp(c) => Some(c),
                _ => None,
            },
            EmailProvider::Yahoo => match &self.yahoo {
                YahooVerifMethod::Smtp(c) => Some(c),
                _ => None,
            },
            EmailProvider::EverythingElse => match &self.everything_else {
                EverythingElseVerifMethod::Smtp(c) => Some(c),
            },
        };
        match cfg {
            Some(c) => match &c.proxy {
                Some(proxy_id) => Ok(self.proxies.get(proxy_id.as_str())),
                None => Ok(None),
            },
            None => Ok(None),
        }
    }
}

/// When the proxies are valid, every provider whose method names a proxy
/// gets that proxy from `get_proxy`.
pub proof fn lemma_valid_proxies_resolve(vm: VerifMethod, p: EmailProvider)
    requires
        all_proxies_valid(vm),
    ensures
        proxy_id_of(vm, p) is Some ==> proxy_of(vm, p) is Some,
        proxy_id_of(vm, p) is None ==> proxy_of(vm, p) is None,
{
    assert(proxy_valid(vm, p));
}

/// The SMTP verification method, with the proxy it resolves to.
#[derive(Debug)]
pub struct VerifMethodSmtp {
    pub config: VerifMethodSmtpConfig,
    pub proxy: Option<CheckEmailInputProxy>,
}

impl VerifMethodSmtp {
    pub fn new(config: VerifMethodSmtpConfig, proxy: Option<CheckEmailInputProxy>) -> (r: Self)
        ensures
            r.config == config,
            r.proxy == proxy,
    {
        Self { config, proxy }
    }
}

} // verus!
