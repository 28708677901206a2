//! Configuration health: findings with a code, a severity and advice, the
//! status they add up to, their display order, and the advice given for
//! legacy profile names and deprecated fields.
use crate::config::settings::AppConfig;
use crate::config::toml_tree::{entries_view, find_entry, key_index, lemma_key_index, lemma_table_view, table_get, TomlValue, TomlView};
use crate::config::{
    DEFAULT_FOCUS_SECS, DEFAULT_LONG_BREAK_INTERVAL, DEFAULT_LONG_BREAK_SECS, DEFAULT_SHORT_BREAK_SECS,
};
use crate::text::{
    ascending_of, lemma_ascending_unique, lower, owned, seq_less, sort_dedup_strings, str_eq, strictly_ascending,
    text_less, text_set, trim, trimmed_lower,
};
use crate::text::{lemma_seq_less_asymmetric, lemma_seq_less_total, lemma_seq_less_transitive};
use vstd::prelude::*;

verus! {

/// The overall health of a configuration.
#[derive(Debug, Clone, Copy, PartialEq, Eq, Structural)]
pub enum ConfigHealthStatus {
    /// No findings (reported as `ok`).
    Healthy,
    Warning,
    Error,
}

/// How serious one finding is.
#[derive(Debug, Clone, Copy, PartialEq, Eq, Structural)]
pub enum ConfigHealthSeverity {
    Warning,
    Error,
}

/// One finding about a configuration file: what was found and what to do.
#[derive(Debug, Clone, PartialEq, Eq)]
pub struct ConfigHealthFinding {
    pub code: String,
    pub severity: ConfigHealthSeverity,
    pub message: String,
    pub remediation: String,
}

pub struct FindingView {
    pub code: Seq<char>,
    pub severity: ConfigHealthSeverity,
    pub message: Seq<char>,
    pub remediation: Seq<char>,
}

impl View for ConfigHealthFinding {
    type V = FindingView;

    open spec fn view(&self) -> FindingView {
        FindingView {
            code: self.code@,
            severity: self.severity,
            message: self.message@,
            remediation: self.remediation@,
        }
    }
}

pub open spec fn findings_view(v: Seq<ConfigHealthFinding>) -> Seq<FindingView> {
    v.map_values(|f: ConfigHealthFinding| f@)
}

/// A warning-level finding.
pub fn config_health_warning(code: &str, message: &str, remediation: &str) -> (r: ConfigHealthFinding)
    ensures
        r@ == (FindingView {
            code: code@,
            severity: ConfigHealthSeverity::Warning,
            message: message@,
            remediation: remediation@,
        }),
{
    ConfigHealthFinding {
        code: owned(code),
        severity: ConfigHealthSeverity::Warning,
        message: owned(message),
        remediation: owned(remediation),
    }
}

/// An error-level finding.
pub fn config_health_error(code: &str, message: &str, remediation: &str) -> (r: ConfigHealthFinding)
    ensures
        r@ == (FindingView {
            code: code@,
            severity: ConfigHealthSeverity::Error,
            message: message@,
            remediation: remediation@,
        }),
{
    ConfigHealthFinding {
        code: owned(code),
        severity: ConfigHealthSeverity::Error,
        message: owned(message),
        remediation: owned(remediation),
    }
}

/// The status findings add up to: an error if any finding is one, `Ok`
/// with no findings, a warning otherwise.
pub open spec fn spec_health_status(findings: Seq<FindingView>) -> ConfigHealthStatus {
    if exists|i: int| 0 <= i < findings.len() && (#[trigger] findings[i]).severity == ConfigHealthSeverity::Error {
        ConfigHealthStatus::Error
    } else if findings.len() == 0 {
        ConfigHealthStatus::Healthy
    } else {
        ConfigHealthStatus::Warning
    }
}

/// The highest severity among the findings.
pub fn summarize_config_health(findings: &Vec<ConfigHealthFinding>) -> (r: ConfigHealthStatus)
    ensures
        r == spec_health_status(findings_view(findings@)),
{
    let ghost fv = findings_view(findings@);
    let mut i: usize = 0;
    while i < findings.len()
        invariant
            i <= findings.len(),
            fv == findings_view(findings@),
            forall|k: int| 0 <= k < i ==> (#[trigger] fv[k]).severity != ConfigHealthSeverity::Error,
        decreases findings.len() - i,
    {
        if findings[i].severity == ConfigHealthSeverity::Error {
            assert(fv[i as int].severity == ConfigHealthSeverity::Error);
            return ConfigHealthStatus::Error;
        }
        i = i + 1;
    }
    if findings.len() == 0 {
        ConfigHealthStatus::Healthy
    } else {
        ConfigHealthStatus::Warning
    }
}

/// Display order of findings: by code, then by message.
pub open spec fn finding_le(a: FindingView, b: FindingView) -> bool {
    seq_less(a.code, b.code) || (a.code == b.code && !seq_less(b.message, a.message))
}

proof fn lemma_finding_le_total(a: FindingView, b: FindingView)
    ensures
        finding_le(a, b) || finding_le(b, a),
{
    lemma_seq_less_total(a.code, b.code);
    lemma_seq_less_asymmetric(a.message, b.message);
}

proof fn lemma_finding_le_transitive(a: FindingView, b: FindingView, c: FindingView)
    requires
        finding_le(a, b),
        finding_le(b, c),
    ensures
        finding_le(a, c),
{
    lemma_seq_less_asymmetric(a.code, b.code);
    lemma_seq_less_asymmetric(b.code, c.code);
    lemma_seq_less_asymmetric(a.code, c.code);
    lemma_seq_less_total(a.message, b.message);
    lemma_seq_less_total(b.message, c.message);
    if seq_less(a.code, b.code) && seq_less(b.code, c.code) {
        lemma_seq_less_transitive(a.code, b.code, c.code);
    }
    if a.code == b.code && b.code == c.code {
        if seq_less(c.message, a.message) {
            if seq_less(c.message, b.message) {
                assert(seq_less(b.message, a.message) || a.message == b.message || seq_less(a.message, b.message));
                if seq_less(a.message, b.message) {
                    lemma_seq_less_transitive(c.message, a.message, b.message);
                    lemma_seq_less_asymmetric(c.message, b.message);
                }
            } else {
                lemma_seq_less_total(c.message, b.message);
                if c.message != b.message {
                    lemma_seq_less_transitive(b.message, c.message, a.message);
                }
            }
        }
    }
}

/// Where `x` goes among `s`: after every finding that does not come after it.
pub open spec fn insert_position(s: Seq<FindingView>, x: FindingView) -> int
    decreases s.len(),
{
    if s.len() == 0 || !finding_le(s[0], x) {
        0
    } else {
        1 + insert_position(s.drop_first(), x)
    }
}

/// The findings sorted stably into display order: each taken in turn and
/// placed after every earlier one that does not come after it.
pub open spec fn spec_sorted_findings(s: Seq<FindingView>) -> Seq<FindingView>
    decreases s.len(),
{
    if s.len() == 0 {
        s
    } else {
        let prev = spec_sorted_findings(s.drop_last());
        prev.insert(insert_position(prev, s.last()), s.last())
    }
}

proof fn lemma_insert_position(s: Seq<FindingView>, x: FindingView, p: int)
    requires
        0 <= p <= s.len(),
        forall|k: int| 0 <= k < p ==> finding_le(#[trigger] s[k], x),
        p < s.len() ==> !finding_le(s[p], x),
    ensures
        insert_position(s, x) == p,
    decreases p,
{
    if p > 0 {
        assert(finding_le(s[0], x));
        assert forall|k: int| 0 <= k < p - 1 implies finding_le(#[trigger] s.drop_first()[k], x) by {
            assert(s.drop_first()[k] == s[k + 1]);
        }
        if p < s.len() {
            assert(s.drop_first()[p - 1] == s[p]);
        }
        lemma_insert_position(s.drop_first(), x, p - 1);
    }
}

/// What `insert_position` gives: a place after every finding that does not
/// come after `x`, and before the first one that does.
proof fn lemma_insert_position_places(s: Seq<FindingView>, x: FindingView)
    ensures
        0 <= insert_position(s, x) <= s.len(),
        forall|k: int| 0 <= k < insert_position(s, x) ==> finding_le(#[trigger] s[k], x),
        insert_position(s, x) < s.len() ==> !finding_le(s[insert_position(s, x)], x),
    decreases s.len(),
{
    if s.len() > 0 && finding_le(s[0], x) {
        let t = s.drop_first();
        lemma_insert_position_places(t, x);
        assert forall|k: int| 0 <= k < insert_position(s, x) implies finding_le(#[trigger] s[k], x) by {
            if k > 0 {
                assert(s[k] == t[k - 1]);
            }
        }
        if insert_position(s, x) < s.len() {
            assert(s[insert_position(s, x)] == t[insert_position(t, x)]);
        }
    }
}

/// The sorted findings are in display order: no finding comes after one
/// that follows it.
pub proof fn lemma_sorted_findings_in_order(s: Seq<FindingView>)
    ensures
        spec_sorted_findings(s).len() == s.len(),
        forall|i: int, j: int|
            0 <= i < j < s.len() ==> finding_le(
                #[trigger] spec_sorted_findings(s)[i],
                #[trigger] spec_sorted_findings(s)[j],
            ),
    decreases s.len(),
{
    if s.len() > 0 {
        let prev = spec_sorted_findings(s.drop_last());
        let x = s.last();
        lemma_sorted_findings_in_order(s.drop_last());
        lemma_insert_position_places(prev, x);
        let p = insert_position(prev, x);
        let nv = prev.insert(p, x);
        assert(spec_sorted_findings(s) == nv);
        assert forall|k: int| p <= k < prev.len() implies finding_le(x, #[trigger] prev[k]) by {
            lemma_finding_le_total(x, prev[p]);
            if k > p {
                lemma_finding_le_transitive(x, prev[p], prev[k]);
            }
        }
        assert forall|a: int, b: int| 0 <= a < b < nv.len() implies finding_le(#[trigger] nv[a], #[trigger] nv[b]) by {
            if a < p && b < p {
                assert(finding_le(prev[a], prev[b]));
            } else if a < p && b == p {
                assert(finding_le(prev[a], x));
            } else if a < p && b > p {
                assert(finding_le(prev[a], x));
                lemma_finding_le_transitive(prev[a], x, prev[b - 1]);
            } else if a == p {
                assert(finding_le(x, prev[b - 1]));
            } else {
                assert(finding_le(prev[a - 1], prev[b - 1]));
            }
        }
    }
}

fn finding_le_exec(a: &ConfigHealthFinding, b: &ConfigHealthFinding) -> (r: bool)
    ensures
        r == finding_le(a@, b@),
{
    text_less(a.code.as_str(), b.code.as_str()) || (str_eq(a.code.as_str(), b.code.as_str()) && !text_less(
        b.message.as_str(),
        a.message.as_str(),
    ))
}

/// Sorts findings into display order, by code then message, keeping the
/// given order among equal ones.
pub fn sort_config_health_findings(findings: &mut Vec<ConfigHealthFinding>)
    ensures
        findings_view(final(findings)@) == spec_sorted_findings(findings_view(old(findings)@)),
        findings_view(final(findings)@).to_multiset() == findings_view(old(findings)@).to_multiset(),
        forall|i: int, j: int|
            0 <= i < j < final(findings)@.len() ==> finding_le(
                #[trigger] findings_view(final(findings)@)[i],
                #[trigger] findings_view(final(findings)@)[j],
            ),
{
    let mut input: Vec<ConfigHealthFinding> = Vec::new();
    std::mem::swap(&mut input, findings);
    let ghost orig = findings_view(input@);
    let ghost src = input@;
    let mut rest = input;
    let mut sorted: Vec<ConfigHealthFinding> = Vec::new();
    let mut i: usize = 0;
    let total = rest.len();
    assert(orig.subrange(0, 0) =~= Seq::<FindingView>::empty());
    while rest.len() > 0
        invariant
            total == src.len(),
            i + rest@.len() == src.len(),
            rest@ == src.subrange(i as int, src.len() as int),
            orig == findings_view(src),
            findings_view(sorted@) == spec_sorted_findings(orig.subrange(0, i as int)),
            findings_view(sorted@).to_multiset() == orig.subrange(0, i as int).to_multiset(),
            forall|a: int, b: int|
                0 <= a < b < sorted@.len() ==> finding_le(
                    #[trigger] findings_view(sorted@)[a],
                    #[trigger] findings_view(sorted@)[b],
                ),
        decreases rest@.len(),
    {
        let x = rest.remove(0);
        assert(x == src[i as int]);
        let ghost xv = x@;
        let ghost sv = findings_view(sorted@);
        let mut p: usize = 0;
        while p < sorted.len() && finding_le_exec(&sorted[p], &x)
            invariant
                p <= sorted.len(),
                sv == findings_view(sorted@),
                xv == x@,
                forall|k: int| 0 <= k < p ==> finding_le(#[trigger] sv[k], xv),
            decreases sorted.len() - p,
        {
            p = p + 1;
        }
        proof {
            lemma_insert_position(sv, xv, p as int);
            assert(orig.subrange(0, i + 1).drop_last() =~= orig.subrange(0, i as int));
            assert(orig.subrange(0, i + 1).last() == xv);
            assert forall|k: int| p <= k < sv.len() implies finding_le(xv, #[trigger] sv[k]) by {
                lemma_finding_le_total(xv, sv[p as int]);
                if k > p {
                    lemma_finding_le_transitive(xv, sv[p as int], sv[k]);
                }
            }
        }
        sorted.insert(p, x);
        proof {
            let nv = findings_view(sorted@);
            assert(nv =~= sv.insert(p as int, xv));
            assert forall|a: int, b: int| 0 <= a < b < nv.len() implies finding_le(#[trigger] nv[a], #[trigger] nv[b]) by {
                if a < p && b < p {
                    assert(finding_le(sv[a], sv[b]));
                } else if a < p && b == p {
                    assert(finding_le(sv[a], xv));
                } else if a < p && b > p {
                    assert(finding_le(sv[a], xv));
                    lemma_finding_le_transitive(sv[a], xv, sv[b - 1]);
                } else if a == p {
                    assert(finding_le(xv, sv[b - 1]));
                } else {
                    assert(finding_le(sv[a - 1], sv[b - 1]));
                }
            }
            assert(orig.subrange(0, i + 1) =~= orig.subrange(0, i as int).push(xv));
            vstd::seq_lib::to_multiset_insert(sv, p as int, xv);
            vstd::seq_lib::to_multiset_build(orig.subrange(0, i as int), xv);
        }
        assert(rest@ =~= src.subrange(i + 1, src.len() as int));
        i = i + 1;
    }
    assert(orig.subrange(0, i as int) =~= orig);
    *findings = sorted;
}

/// The canonical token a legacy profile name migrates to.
pub open spec fn spec_migration_target(value: Seq<char>) -> Option<Seq<char>> {
    let key = lower(trim(value));
    if key == "classic"@ {
        Some("basic"@)
    } else if key == "deep-work"@ || key == "deep_work"@ || key == "deepwork"@ {
        Some("standard"@)
    } else if key == "custom"@ {
        Some("advanced"@)
    } else {
        None
    }
}

/// Maps a legacy profile token to its canonical replacement.
pub fn legacy_profile_token_migration_target(value: &str) -> (r: Option<&'static str>)
    ensures
        r is Some == spec_migration_target(value@) is Some,
        r matches Some(t) ==> spec_migration_target(value@) == Some(t@),
{
    let key = trimmed_lower(value);
    let k = key.as_str();
    if str_eq(k, "classic") {
        Some("basic")
    } else if str_eq(k, "deep-work") || str_eq(k, "deep_work") || str_eq(k, "deepwork") {
        Some("standard")
    } else if str_eq(k, "custom") {
        Some("advanced")
    } else {
        None
    }
}

/// The advice for a legacy value at a location.
pub open spec fn value_advice(location: Seq<char>, value: Seq<char>, target: Seq<char>) -> Seq<char> {
    location + " uses legacy value \""@ + value + "\"; migrate it to \""@ + target + "\"."@
}

/// Adds advice for a legacy profile value.
pub fn push_legacy_profile_value_advice(advice: &mut Vec<String>, location: &str, value: &str)
    ensures
        match spec_migration_target(value@) {
            Some(t) => final(advice)@.len() == old(advice)@.len() + 1 && final(advice)@.subrange(
                0,
                old(advice)@.len() as int,
            ) == old(advice)@ && final(advice)@.last()@ == value_advice(location@, value@, t),
            None => final(advice)@ == old(advice)@,
        },
{
    match legacy_profile_token_migration_target(value) {
        Some(target) => {
            let mut m = owned(location);
            m.append(" uses legacy value \"");
            m.append(value);
            m.append("\"; migrate it to \"");
            m.append(target);
            m.append("\".");
            let ghost before = advice@;
            advice.push(m);
            assert(advice@.subrange(0, before.len() as int) =~= before);
        },
        None => {},
    }
}

/// The legacy preset keys and what they are renamed to.
pub open spec fn preset_key_pair(i: int) -> (Seq<char>, Seq<char>) {
    if i == 0 {
        ("classic"@, "basic"@)
    } else if i == 1 {
        ("deep_work"@, "standard"@)
    } else if i == 2 {
        ("deep-work"@, "standard"@)
    } else {
        ("custom"@, "advanced"@)
    }
}

/// The advice for a legacy preset key.
pub open spec fn key_advice(legacy: Seq<char>, canonical: Seq<char>) -> Seq<char> {
    "[profile_automation."@ + legacy + "] should be renamed to [profile_automation."@ + canonical + "]."@
}

/// The advice for each legacy preset key present in a preset table, in the
/// order of the pairs.
pub open spec fn spec_key_advice(pa: Seq<(Seq<char>, TomlView)>, n: int) -> Seq<Seq<char>>
    decreases n,
{
    if n <= 0 {
        Seq::empty()
    } else {
        let prev = spec_key_advice(pa, n - 1);
        let (legacy, canonical) = preset_key_pair(n - 1);
        if key_index(pa, legacy) is Some {
            prev.push(key_advice(legacy, canonical))
        } else {
            prev
        }
    }
}

/// The preset-key advice of a document's `[profile_automation]` table.
pub open spec fn spec_automation_key_advice(t: Seq<(Seq<char>, TomlView)>) -> Seq<Seq<char>> {
    match table_get(t, "profile_automation"@) {
        Some(TomlView::Table(pa)) => spec_key_advice(pa, 4),
        _ => Seq::empty(),
    }
}

/// Adds advice for legacy preset keys under `[profile_automation]`.
pub fn push_legacy_profile_automation_key_advice(advice: &mut Vec<String>, table: &Vec<crate::config::toml_tree::TomlEntry>)
    ensures
        final(advice)@.map_values(|s: String| s@) == old(advice)@.map_values(|s: String| s@)
            + spec_automation_key_advice(entries_view(table@)),
{
    let ghost a0 = advice@.map_values(|s: String| s@);
    let ghost t = entries_view(table@);
    proof {
        lemma_key_index(t, "profile_automation"@);
    }
    let pa = match find_entry(table, "profile_automation") {
        Some(i) => match &table[i].value {
            TomlValue::Table(pa) => pa,
            _ => {
                assert(a0 + Seq::<Seq<char>>::empty() =~= a0);
                return ;
            },
        },
        None => {
            assert(a0 + Seq::<Seq<char>>::empty() =~= a0);
            return ;
        },
    };
    proof {
        lemma_table_view(*pa);
    }
    let ghost pv = entries_view(pa@);
    let mut n: usize = 0;
    assert(a0 + spec_key_advice(pv, 0) =~= a0);
    while n < 4
        invariant
            n <= 4,
            pv == entries_view(pa@),
            advice@.map_values(|s: String| s@) == a0 + spec_key_advice(pv, n as int),
        decreases 4 - n,
    {
        let (legacy, canonical) = if n == 0 {
            ("classic", "basic")
        } else if n == 1 {
            ("deep_work", "standard")
        } else if n == 2 {
            ("deep-work", "standard")
        } else {
            ("custom", "advanced")
        };
        assert(preset_key_pair(n as int) == (legacy@, canonical@));
        proof {
            lemma_key_index(pv, legacy@);
        }
        if find_entry(pa, legacy).is_some() {
            let mut m = owned("[profile_automation.");
            m.append(legacy);
            m.append("] should be renamed to [profile_automation.");
            m.append(canonical);
            m.append("].");
            let ghost before = advice@.map_values(|s: String| s@);
            let ghost mv = m@;
            advice.push(m);
            assert(advice@.map_values(|s: String| s@) =~= before.push(mv));
        }
        n = n + 1;
    }
}

/// The rename advice a document calls for: for `selected_profile`, then for
/// the preset keys, sorted with duplicates removed.
pub open spec fn spec_rename_advice_texts(v: TomlView) -> Set<Seq<char>> {
    match v {
        TomlView::Table(t) => {
            let selected = match table_get(t, "selected_profile"@) {
                Some(TomlView::String(s)) => match spec_migration_target(s) {
                    Some(target) => seq![value_advice("selected_profile"@, s, target)],
                    None => Seq::empty(),
                },
                _ => Seq::empty(),
            };
            (selected + spec_automation_key_advice(t)).to_set()
        },
        _ => Set::empty(),
    }
}

/// The rename advice of a document, in ascending order without duplicates.
pub open spec fn spec_rename_advice(v: TomlView) -> Seq<Seq<char>> {
    ascending_of(spec_rename_advice_texts(v))
}

/// Advice for legacy profile names that migration canonicalizes, in
/// ascending order without duplicates.
pub fn collect_legacy_profile_rename_advice(config_toml: &TomlValue) -> (r: Vec<String>)
    ensures
        r@.map_values(|s: String| s@) == spec_rename_advice(config_toml@),
{
    let table = match config_toml {
        TomlValue::Table(es) => es,
        _ => {
            let r: Vec<String> = Vec::new();
            proof {
                let e = r@.map_values(|s: String| s@);
                assert(e.to_set() =~= Set::<Seq<char>>::empty());
                assert(strictly_ascending(e));
                let c = ascending_of(spec_rename_advice_texts(config_toml@));
                lemma_ascending_unique(e, c);
            }
            return r;
        },
    };
    proof {
        lemma_table_view(*table);
    }
    let ghost t = entries_view(table@);
    let mut advice: Vec<String> = Vec::new();
    proof {
        lemma_key_index(t, "selected_profile"@);
    }
    match find_entry(table, "selected_profile") {
        Some(i) => match &table[i].value {
            TomlValue::String(value) => {
                push_legacy_profile_value_advice(&mut advice, "selected_profile", value.as_str());
            },
            _ => {},
        },
        None => {},
    }
    let ghost selected = advice@.map_values(|s: String| s@);
    push_legacy_profile_automation_key_advice(&mut advice, table);
    let ghost all = advice@.map_values(|s: String| s@);
    let r = sort_dedup_strings(advice);
    proof {
        let expected = match table_get(t, "selected_profile"@) {
            Some(TomlView::String(s)) => match spec_migration_target(s) {
                Some(target) => seq![value_advice("selected_profile"@, s, target)],
                None => Seq::<Seq<char>>::empty(),
            },
            _ => Seq::<Seq<char>>::empty(),
        };
        assert(selected =~= expected);
        assert(text_set(advice@) =~= all.to_set()) by {
            assert forall|x: Seq<char>| text_set(advice@).contains(x) implies all.to_set().contains(x) by {
                let k = choose|k: int| 0 <= k < advice@.len() && #[trigger] advice@[k]@ == x;
                assert(all[k] == x);
            }
            assert forall|x: Seq<char>| all.to_set().contains(x) implies text_set(advice@).contains(x) by {
                let k = choose|k: int| 0 <= k < all.len() && all[k] == x;
                assert(advice@[k]@ == x);
            }
        }
        let rv = r@.map_values(|s: String| s@);
        assert(strictly_ascending(rv)) by {
            assert forall|i: int, j: int| 0 <= i < j < rv.len() implies seq_less(#[trigger] rv[i], #[trigger] rv[j]) by {
                assert(seq_less(r@[i]@, r@[j]@));
            }
        }
        assert(rv.to_set() =~= text_set(r@)) by {
            assert forall|x: Seq<char>| rv.to_set().contains(x) implies text_set(r@).contains(x) by {
                let k = choose|k: int| 0 <= k < rv.len() && rv[k] == x;
                assert(r@[k]@ == x);
            }
            assert forall|x: Seq<char>| text_set(r@).contains(x) implies rv.to_set().contains(x) by {
                let k = choose|k: int| 0 <= k < r@.len() && #[trigger] r@[k]@ == x;
                assert(rv[k] == x);
            }
        }
        assert(rv.to_set() == spec_rename_advice_texts(config_toml@));
        let c = ascending_of(spec_rename_advice_texts(config_toml@));
        lemma_ascending_unique(rv, c);
    }
    r
}

/// The warnings for deprecated fields still in use.
pub open spec fn spec_deprecation_warnings(c: AppConfig) -> Seq<Seq<char>> {
    let durations = c.custom_profile is None && (c.focus_secs != DEFAULT_FOCUS_SECS || c.short_break_secs
        != DEFAULT_SHORT_BREAK_SECS || c.long_break_secs != DEFAULT_LONG_BREAK_SECS || c.long_break_interval
        != DEFAULT_LONG_BREAK_INTERVAL);
    let legacy_automation = !c.notifications.enabled || c.notifications.sound || c.auto_start.focus_to_break
        || c.auto_start.break_to_focus || c.strict_mode || c.recurring_schedule.windows@.len() > 0;
    let incomplete = match c.profile_automation {
        Some(s) => s.basic is None || s.standard is None || s.advanced is None,
        None => true,
    };
    let blocked = c.blocklist_profiles@.len() == 0 && c.blocked_sites@.len() > 0;
    (if durations {
        seq![durations_warning()]
    } else {
        Seq::empty()
    }) + (if legacy_automation && incomplete {
        seq![automation_warning()]
    } else {
        Seq::empty()
    }) + (if blocked {
        seq![blocked_sites_warning()]
    } else {
        Seq::empty()
    })
}

pub open spec fn durations_warning() -> Seq<char> {
    "Deprecated top-level timer fields (`focus_secs`, `short_break_secs`, `long_break_secs`, `long_break_interval`) are in use. Move these values into `[custom_profile]`."@
}

pub open spec fn automation_warning() -> Seq<char> {
    "Deprecated top-level automation fields (`notifications`, `auto_start`, `strict_mode`, `recurring_schedule`) are in use. Move them under `[profile_automation.<preset>]`."@
}

pub open spec fn blocked_sites_warning() -> Seq<char> {
    "Deprecated `blocked_sites` is in use without `[[blocklist_profiles]]`. Move entries into a blocklist profile (for example `Default`)."@
}

/// Warnings for deprecated configuration surfaces still in use.
pub fn detect_legacy_config_deprecation_warnings(config: &AppConfig) -> (r: Vec<String>)
    ensures
        r@.map_values(|s: String| s@) == spec_deprecation_warnings(*config),
{
    let mut warnings: Vec<String> = Vec::new();
    let durations = config.custom_profile.is_none() && (config.focus_secs != DEFAULT_FOCUS_SECS
        || config.short_break_secs != DEFAULT_SHORT_BREAK_SECS || config.long_break_secs
        != DEFAULT_LONG_BREAK_SECS || config.long_break_interval != DEFAULT_LONG_BREAK_INTERVAL);
    if durations {
        warnings.push(
            owned(
                "Deprecated top-level timer fields (`focus_secs`, `short_break_secs`, `long_break_secs`, `long_break_interval`) are in use. Move these values into `[custom_profile]`.",
            ),
        );
    }
    let legacy_automation = !config.notifications.enabled || config.notifications.sound
        || config.auto_start.focus_to_break || config.auto_start.break_to_focus || config.strict_mode
        || config.recurring_schedule.windows.len() > 0;
    let incomplete = match &config.profile_automation {
        Some(s) => s.basic.is_none() || s.standard.is_none() || s.advanced.is_none(),
        None => true,
    };
    if legacy_automation && incomplete {
        warnings.push(
            owned(
                "Deprecated top-level automation fields (`notifications`, `auto_start`, `strict_mode`, `recurring_schedule`) are in use. Move them under `[profile_automation.<preset>]`.",
            ),
        );
    }
    if config.blocklist_profiles.len() == 0 && config.blocked_sites.len() > 0 {
        warnings.push(
            owned(
                "Deprecated `blocked_sites` is in use without `[[blocklist_profiles]]`. Move entries into a blocklist profile (for example `Default`).",
            ),
        );
    }
    assert(warnings@.map_values(|s: String| s@) =~= spec_deprecation_warnings(*config));
    warnings
}

} // verus!
