//! Provider- and domain-specific rules: match each email verification to the
//! domain or the MX host, and tell which rules apply.

use vstd::prelude::*;
use crate::text::{chars_of, ends_with_seq, seq_ends_with, str_eq};

verus! {

/// A rule that changes how an email is verified.
#[derive(PartialEq, Eq, Structural, Debug, Clone, Copy, Hash)]
pub enum Rule {
    /// Don't perform catch-all check.
    SkipCatchAll,
    /// Set the SMTP timeout to 45s.
    SmtpTimeout45s,
}

/// The rules that apply to one domain or MX suffix.
#[derive(Debug, Clone)]
pub struct RulesByDomain {
    pub rules: Vec<Rule>,
}

/// All rules: by domain name (after the `@`), and by suffix of the MX host.
/// A domain takes the rules of the first entry with its name; an MX host has
/// a rule when any suffix entry that it ends with has it.
#[derive(Debug, Clone)]
pub struct AllRules {
    /// Apply rules by domain name, i.e. after the @ symbol.
    pub by_domain: Vec<(String, RulesByDomain)>,
    /// Apply rules by the MX host. Since each domain potentially has multiple
    /// MX records, we match by their suffix.
    pub by_mx_suffix: Vec<(String, RulesByDomain)>,
}

/// The entries of a rule table, keys as character sequences.
pub open spec fn rule_entries(v: Seq<(String, RulesByDomain)>) -> Seq<(Seq<char>, Seq<Rule>)> {
    v.map_values(|e: (String, RulesByDomain)| (e.0@, e.1.rules@))
}

/// The rules of the first entry whose key is `domain`.
pub open spec fn rules_for_domain(entries: Seq<(Seq<char>, Seq<Rule>)>, domain: Seq<char>) -> Option<
    Seq<Rule>,
>
    decreases entries.len(),
{
    if entries.len() == 0 {
        None
    } else if entries[0].0 == domain {
        Some(entries[0].1)
    } else {
        rules_for_domain(entries.drop_first(), domain)
    }
}

/// The domain's rules hold `rule`.
pub open spec fn domain_has_rule_spec(all: AllRules, domain: Seq<char>, rule: Rule) -> bool {
    match rules_for_domain(rule_entries(all.by_domain@), domain) {
        Some(rs) => rs.contains(rule),
        None => false,
    }
}

/// Some suffix entry that `host` ends with has `rule` among its rules.
pub open spec fn mx_has_rule_spec(all: AllRules, host: Seq<char>, rule: Rule) -> bool {
    exists|j: int|
        0 <= j < all.by_mx_suffix@.len() && #[trigger] seq_ends_with(
            host,
            rule_entries(all.by_mx_suffix@)[j].0,
        ) && rule_entries(all.by_mx_suffix@)[j].1.contains(rule)
}

proof fn lemma_domain_first(entries: Seq<(Seq<char>, Seq<Rule>)>, i: int, d: Seq<char>)
    requires
        0 <= i <= entries.len(),
        forall|j: int| 0 <= j < i ==> entries[j].0 != d,
    ensures
        rules_for_domain(entries, d) == rules_for_domain(entries.subrange(i, entries.len() as int), d),
    decreases i,
{
    if i > 0 {
        lemma_domain_first(entries.drop_first(), i - 1, d);
        assert(entries.drop_first().subrange(i - 1, entries.drop_first().len() as int) =~= entries.subrange(
            i,
            entries.len() as int,
        ));
    } else {
        assert(entries.subrange(0, entries.len() as int) =~= entries);
    }
}

fn has_rule_in(rules: &Vec<Rule>, rule: Rule) -> (r: bool)
    ensures
        r == rules@.contains(rule),
{
    let mut i: usize = 0;
    while i < rules.len()
        invariant
            i <= rules@.len(),
            forall|j: int| 0 <= j < i ==> rules@[j] != rule,
        decreases rules@.len() - i,
    {
        if rules[i] == rule {
            assert(rules@[i as int] == rule);
            return true;
        }
        i += 1;
    }
    false
}

fn does_domain_have_rule(all: &AllRules, domain: &str, rule: &Rule) -> (r: bool)
    ensures
        r == domain_has_rule_spec(*all, domain@, *rule),
{
    let ghost e = rule_entries(all.by_domain@);
    let mut i: usize = 0;
    while i < all.by_domain.len()
        invariant
            e == rule_entries(all.by_domain@),
            i <= all.by_domain@.len(),
            forall|j: int| 0 <= j < i ==> e[j].0 != domain@,
        decreases all.by_domain@.len() - i,
    {
        if str_eq(all.by_domain[i].0.as_str(), domain) {
            proof {
                lemma_domain_first(e, i as int, domain@);
                assert(e.subrange(i as int, e.len() as int)[0] == e[i as int]);
            }
            return has_rule_in(&all.by_domain[i].1.rules, *rule);
        }
        i += 1;
    }
    proof {
        lemma_domain_first(e, i as int, domain@);
    }
    false
}

fn does_mx_have_rule(all: &AllRules, host: &str, rule: &Rule) -> (r: bool)
    ensures
        r == mx_has_rule_spec(*all, host@, *rule),
{
    let ghost e = rule_entries(all.by_mx_suffix@);
    let hv = chars_of(host);
    let mut i: usize = 0;
    while i < all.by_mx_suffix.len()
        invariant
            e == rule_entries(all.by_mx_suffix@),
            e.len() == all.by_mx_suffix@.len(),
            hv@ == host@,
            i <= all.by_mx_suffix@.len(),
            forall|j: int| 0 <= j < i ==> !(#[trigger] seq_ends_with(host@, e[j].0) && e[j].1.contains(*rule)),
        decreases all.by_mx_suffix@.len() - i,
    {
        let kv = chars_of(all.by_mx_suffix[i].0.as_str());
        assert(e[i as int] == (all.by_mx_suffix@[i as int].0@, all.by_mx_suffix@[i as int].1.rules@));
        if ends_with_seq(&hv, &kv) && has_rule_in(&all.by_mx_suffix[i].1.rules, *rule) {
            assert(seq_ends_with(host@, e[i as int].0) && e[i as int].1.contains(*rule));
            return true;
        }
        i += 1;
    }
    false
}

/// Check if either the domain or the MX host has any given rule.
pub fn has_rule(all: &AllRules, domain: &str, host: &str, rule: &Rule) -> (r: bool)
    ensures
        r == (domain_has_rule_spec(*all, domain@, *rule) || mx_has_rule_spec(*all, host@, *rule)),
{
    does_domain_have_rule(all, domain, rule) || does_mx_have_rule(all, host, rule)
}

} // verus!
