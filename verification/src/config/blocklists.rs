//! Blocklist profiles: the block and allow rules of the one profile the
//! application keeps, and how older multi-profile and category layouts
//! collapse into it. Rules are compared without regard to ASCII case; the
//! first spelling of a rule is the one kept.
use crate::config::{
    clone_strings, normalize_nonempty_or_default_string, spec_nonempty_or_default, strings_view,
};
use crate::text::{
    concat, decimal, digit_char, eq_ignore_case, lower, lower_char, owned, str_eq, to_lower, u64_to_string,
};
use vstd::relations::injective_on;
use vstd::set_lib::{lemma_int_range, lemma_len_subset, lemma_map_size, set_int_range};
use vstd::prelude::*;

verus! {

/// One blocklist profile: its name, blocked rules and allowed exceptions.
#[derive(Debug, Clone, PartialEq, Eq)]
pub struct BlocklistProfileConfig {
    pub name: String,
    pub sites: Vec<String>,
    pub allowlist_sites: Vec<String>,
}

/// A category of rules, as older configuration files group them inside a profile.
#[derive(Debug, Clone, PartialEq, Eq)]
pub struct BlocklistCategoryConfig {
    pub name: String,
    pub sites: Vec<String>,
    pub allowlist_sites: Vec<String>,
}

pub struct ProfileView {
    pub name: Seq<char>,
    pub sites: Seq<Seq<char>>,
    pub allowlist_sites: Seq<Seq<char>>,
}

impl View for BlocklistProfileConfig {
    type V = ProfileView;

    open spec fn view(&self) -> ProfileView {
        ProfileView {
            name: self.name@,
            sites: strings_view(self.sites@),
            allowlist_sites: strings_view(self.allowlist_sites@),
        }
    }
}

impl View for BlocklistCategoryConfig {
    type V = ProfileView;

    open spec fn view(&self) -> ProfileView {
        ProfileView {
            name: self.name@,
            sites: strings_view(self.sites@),
            allowlist_sites: strings_view(self.allowlist_sites@),
        }
    }
}

pub open spec fn profiles_view(v: Seq<BlocklistProfileConfig>) -> Seq<ProfileView> {
    v.map_values(|p: BlocklistProfileConfig| p@)
}

pub open spec fn categories_view(v: Seq<BlocklistCategoryConfig>) -> Seq<ProfileView> {
    v.map_values(|c: BlocklistCategoryConfig| c@)
}

pub open spec fn default_profile_name() -> Seq<char> {
    "Default"@
}

pub open spec fn default_category_name() -> Seq<char> {
    "General"@
}

/// Some rule of `s` has the case-insensitive key `k`.
pub open spec fn has_key(s: Seq<Seq<char>>, k: Seq<char>) -> bool {
    exists|i: int| 0 <= i < s.len() && lower(#[trigger] s[i]) == k
}

/// No two rules of `s` are equal without regard to case.
pub open spec fn is_dup_free(s: Seq<Seq<char>>) -> bool {
    forall|i: int, j: int| 0 <= i < j < s.len() ==> lower(#[trigger] s[i]) != lower(#[trigger] s[j])
}

/// The rules of `s` in order, each kept only at the first occurrence of its
/// case-insensitive key.
pub open spec fn spec_dedup_ci(s: Seq<Seq<char>>) -> Seq<Seq<char>>
    decreases s.len(),
{
    if s.len() == 0 {
        Seq::empty()
    } else {
        let prev = spec_dedup_ci(s.drop_last());
        if has_key(s.drop_last(), lower(s.last())) {
            prev
        } else {
            prev.push(s.last())
        }
    }
}

/// `target` followed by each rule of `source` whose key is not yet present.
pub open spec fn spec_merge_ci(target: Seq<Seq<char>>, source: Seq<Seq<char>>) -> Seq<Seq<char>>
    decreases source.len(),
{
    if source.len() == 0 {
        target
    } else {
        let prev = spec_merge_ci(target, source.drop_last());
        if has_key(prev, lower(source.last())) {
            prev
        } else {
            prev.push(source.last())
        }
    }
}

/// The rules of all profiles in order, block rules or allow rules.
pub open spec fn all_rules(profiles: Seq<ProfileView>, allow: bool) -> Seq<Seq<char>>
    decreases profiles.len(),
{
    if profiles.len() == 0 {
        Seq::empty()
    } else {
        all_rules(profiles.drop_last(), allow) + if allow {
            profiles.last().allowlist_sites
        } else {
            profiles.last().sites
        }
    }
}

/// The block rules of the collapsed profile: the legacy top-level rules, then
/// each profile's rules merged in order.
pub open spec fn spec_collapsed_sites(legacy: Seq<Seq<char>>, profiles: Seq<ProfileView>) -> Seq<Seq<char>>
    decreases profiles.len(),
{
    if profiles.len() == 0 {
        spec_dedup_ci(legacy)
    } else {
        spec_merge_ci(spec_collapsed_sites(legacy, profiles.drop_last()), profiles.last().sites)
    }
}

/// The allow rules of the collapsed profile: each profile's merged in order.
pub open spec fn spec_collapsed_allowlist(profiles: Seq<ProfileView>) -> Seq<Seq<char>>
    decreases profiles.len(),
{
    if profiles.len() == 0 {
        Seq::empty()
    } else {
        spec_merge_ci(spec_collapsed_allowlist(profiles.drop_last()), profiles.last().allowlist_sites)
    }
}

/// An allow rule survives the collapse of profiles when every profile that
/// blocks its key also allows it: merging profiles lifts no block that its
/// own profile kept.
pub open spec fn allow_kept(profiles: Seq<ProfileView>, r: Seq<char>) -> bool {
    forall|q: int|
        0 <= q < profiles.len() && has_key(#[trigger] profiles[q].sites, lower(r)) ==> has_key(
            profiles[q].allowlist_sites,
            lower(r),
        )
}

/// The allow rules of the collapsed profile: all profiles' allow rules
/// merged in order, without those that would lift another profile's block.
pub open spec fn spec_profiles_allowlist(profiles: Seq<ProfileView>) -> Seq<Seq<char>> {
    spec_collapsed_allowlist(profiles).filter(|r: Seq<char>| allow_kept(profiles, r))
}

/// A dedup keeps exactly the keys it was given.
pub proof fn lemma_dedup_keys(s: Seq<Seq<char>>, k: Seq<char>)
    ensures
        has_key(spec_dedup_ci(s), k) == has_key(s, k),
    decreases s.len(),
{
    if s.len() > 0 {
        let p = s.drop_last();
        lemma_dedup_keys(p, k);
        lemma_dedup_keys(p, lower(s.last()));
        let d = spec_dedup_ci(s);
        if has_key(s, k) {
            let i = choose|i: int| 0 <= i < s.len() && lower(#[trigger] s[i]) == k;
            if i < p.len() {
                assert(lower(p[i]) == k);
                let j = choose|j: int| 0 <= j < spec_dedup_ci(p).len() && lower(#[trigger] spec_dedup_ci(p)[j]) == k;
                assert(d[j] == spec_dedup_ci(p)[j]);
            } else if !has_key(p, lower(s.last())) {
                assert(d[d.len() - 1] == s.last());
            } else {
                let j = choose|j: int| 0 <= j < spec_dedup_ci(p).len() && lower(#[trigger] spec_dedup_ci(p)[j]) == k;
                assert(d[j] == spec_dedup_ci(p)[j]);
            }
        }
        if has_key(d, k) {
            let j = choose|j: int| 0 <= j < d.len() && lower(#[trigger] d[j]) == k;
            if j < spec_dedup_ci(p).len() {
                assert(spec_dedup_ci(p)[j] == d[j]);
                let i = choose|i: int| 0 <= i < p.len() && lower(#[trigger] p[i]) == k;
                assert(s[i] == p[i]);
            } else {
                assert(s[s.len() - 1] == s.last());
            }
        }
    }
}

/// A dedup holds no two rules with the same key.
pub proof fn lemma_dedup_is_dup_free(s: Seq<Seq<char>>)
    ensures
        is_dup_free(spec_dedup_ci(s)),
    decreases s.len(),
{
    if s.len() > 0 {
        let p = s.drop_last();
        lemma_dedup_is_dup_free(p);
        lemma_dedup_keys(p, lower(s.last()));
        let d = spec_dedup_ci(s);
        let dp = spec_dedup_ci(p);
        if !has_key(p, lower(s.last())) {
            assert forall|i: int, j: int| 0 <= i < j < d.len() implies lower(#[trigger] d[i]) != lower(
                #[trigger] d[j],
            ) by {
                if j == d.len() - 1 {
                    assert(d[i] == dp[i]);
                    assert(!has_key(dp, lower(s.last())));
                    if lower(d[i]) == lower(d[j]) {
                        assert(lower(dp[i]) == lower(s.last()));
                    }
                } else {
                    assert(d[i] == dp[i] && d[j] == dp[j]);
                }
            }
        }
    }
}

/// A rule list without repeated keys is its own dedup.
pub proof fn lemma_dedup_of_dup_free(s: Seq<Seq<char>>)
    requires
        is_dup_free(s),
    ensures
        spec_dedup_ci(s) == s,
    decreases s.len(),
{
    if s.len() > 0 {
        let p = s.drop_last();
        assert(is_dup_free(p)) by {
            assert forall|i: int, j: int| 0 <= i < j < p.len() implies lower(#[trigger] p[i]) != lower(
                #[trigger] p[j],
            ) by {
                assert(s[i] == p[i] && s[j] == p[j]);
            }
        }
        lemma_dedup_of_dup_free(p);
        if has_key(p, lower(s.last())) {
            let i = choose|i: int| 0 <= i < p.len() && lower(#[trigger] p[i]) == lower(s.last());
            assert(s[i] == p[i]);
            assert(lower(s[i]) == lower(s[s.len() - 1]));
        }
        assert(p.push(s.last()) =~= s);
    }
}

/// Merging into a list without repeated keys is the dedup of the two lists joined.
pub proof fn lemma_merge_is_dedup_of_concat(t: Seq<Seq<char>>, s: Seq<Seq<char>>)
    requires
        is_dup_free(t),
    ensures
        spec_merge_ci(t, s) == spec_dedup_ci(t + s),
    decreases s.len(),
{
    if s.len() == 0 {
        assert(t + s =~= t);
        lemma_dedup_of_dup_free(t);
    } else {
        let p = s.drop_last();
        lemma_merge_is_dedup_of_concat(t, p);
        assert((t + s).drop_last() =~= t + p);
        assert((t + s).last() == s.last());
        lemma_dedup_keys(t + p, lower(s.last()));
    }
}

/// The collapsed block rules are the dedup of the legacy rules followed by
/// every profile's rules.
pub proof fn lemma_collapsed_sites_dedup(legacy: Seq<Seq<char>>, profiles: Seq<ProfileView>)
    ensures
        spec_collapsed_sites(legacy, profiles) == spec_dedup_ci(legacy + all_rules(profiles, false)),
        is_dup_free(spec_collapsed_sites(legacy, profiles)),
    decreases profiles.len(),
{
    if profiles.len() == 0 {
        assert(legacy + all_rules(profiles, false) =~= legacy);
    } else {
        let p = profiles.drop_last();
        lemma_collapsed_sites_dedup(legacy, p);
        let prev = legacy + all_rules(p, false);
        lemma_dedup_is_dup_free(prev);
        lemma_merge_is_dedup_of_concat(spec_dedup_ci(prev), profiles.last().sites);
        lemma_dedup_concat_absorbs(prev, profiles.last().sites);
        assert(legacy + all_rules(profiles, false) =~= prev + profiles.last().sites);
    }
    lemma_dedup_is_dup_free(legacy + all_rules(profiles, false));
}

/// The collapsed allow rules are the dedup of every profile's allow rules.
pub proof fn lemma_collapsed_allowlist_dedup(profiles: Seq<ProfileView>)
    ensures
        spec_collapsed_allowlist(profiles) == spec_dedup_ci(all_rules(profiles, true)),
        is_dup_free(spec_collapsed_allowlist(profiles)),
    decreases profiles.len(),
{
    if profiles.len() > 0 {
        let p = profiles.drop_last();
        lemma_collapsed_allowlist_dedup(p);
        let prev = all_rules(p, true);
        lemma_dedup_is_dup_free(prev);
        lemma_merge_is_dedup_of_concat(spec_dedup_ci(prev), profiles.last().allowlist_sites);
        lemma_dedup_concat_absorbs(prev, profiles.last().allowlist_sites);
        assert(all_rules(profiles, true) =~= prev + profiles.last().allowlist_sites);
    }
    lemma_dedup_is_dup_free(all_rules(profiles, true));
}

/// A rule list of one profile is part of the rules of all profiles.
proof fn lemma_all_rules_has_key(profiles: Seq<ProfileView>, q: int, k: Seq<char>)
    requires
        0 <= q < profiles.len(),
        has_key(profiles[q].sites, k),
    ensures
        has_key(all_rules(profiles, false), k),
    decreases profiles.len(),
{
    let prev = all_rules(profiles.drop_last(), false);
    let last = profiles.last().sites;
    assert(all_rules(profiles, false) == prev + last);
    if q == profiles.len() - 1 {
        let i = choose|i: int| 0 <= i < last.len() && lower(#[trigger] last[i]) == k;
        assert((prev + last)[prev.len() + i] == last[i]);
    } else {
        assert(profiles.drop_last()[q] == profiles[q]);
        lemma_all_rules_has_key(profiles.drop_last(), q, k);
        let i = choose|i: int| 0 <= i < prev.len() && lower(#[trigger] prev[i]) == k;
        assert((prev + last)[i] == prev[i]);
    }
}

/// Collapsing profiles loses no block: a key that some profile blocks and
/// does not allow is blocked by the collapsed profile and not allowed by it.
pub proof fn lemma_collapse_keeps_blocks(
    legacy: Seq<Seq<char>>,
    profiles: Seq<ProfileView>,
    q: int,
    k: Seq<char>,
)
    requires
        0 <= q < profiles.len(),
        has_key(profiles[q].sites, k),
        !has_key(profiles[q].allowlist_sites, k),
    ensures
        has_key(spec_collapsed_sites(legacy, profiles), k),
        !has_key(spec_profiles_allowlist(profiles), k),
{
    lemma_collapsed_sites_dedup(legacy, profiles);
    lemma_all_rules_has_key(profiles, q, k);
    let all = all_rules(profiles, false);
    let i = choose|i: int| 0 <= i < all.len() && lower(#[trigger] all[i]) == k;
    assert((legacy + all)[legacy.len() + i] == all[i]);
    lemma_dedup_keys(legacy + all, k);
    let kept = spec_profiles_allowlist(profiles);
    let keep = |r: Seq<char>| allow_kept(profiles, r);
    if has_key(kept, k) {
        let j = choose|j: int| 0 <= j < kept.len() && lower(#[trigger] kept[j]) == k;
        spec_collapsed_allowlist(profiles).lemma_filter_pred(keep, j);
        assert(allow_kept(profiles, kept[j]));
        assert(has_key(profiles[q].sites, lower(kept[j])));
    }
}

/// Merging keeps the target as a prefix.
proof fn lemma_merge_prefix(t: Seq<Seq<char>>, s: Seq<Seq<char>>)
    ensures
        spec_merge_ci(t, s).len() >= t.len(),
        spec_merge_ci(t, s).subrange(0, t.len() as int) == t,
    decreases s.len(),
{
    if s.len() > 0 {
        lemma_merge_prefix(t, s.drop_last());
        let prev = spec_merge_ci(t, s.drop_last());
        assert(prev.push(s.last()).subrange(0, t.len() as int) =~= prev.subrange(0, t.len() as int));
    } else {
        assert(t.subrange(0, t.len() as int) =~= t);
    }
}

/// The collapsed block rules start with the legacy rules, deduplicated.
proof fn lemma_collapsed_sites_prefix(legacy: Seq<Seq<char>>, profiles: Seq<ProfileView>)
    ensures
        spec_collapsed_sites(legacy, profiles).len() >= spec_dedup_ci(legacy).len(),
        spec_collapsed_sites(legacy, profiles).subrange(0, spec_dedup_ci(legacy).len() as int) == spec_dedup_ci(
            legacy,
        ),
    decreases profiles.len(),
{
    let d = spec_dedup_ci(legacy);
    if profiles.len() == 0 {
        assert(d.subrange(0, d.len() as int) =~= d);
    } else {
        let prev = spec_collapsed_sites(legacy, profiles.drop_last());
        lemma_collapsed_sites_prefix(legacy, profiles.drop_last());
        lemma_merge_prefix(prev, profiles.last().sites);
        let now = spec_collapsed_sites(legacy, profiles);
        assert(now.subrange(0, d.len() as int) =~= now.subrange(0, prev.len() as int).subrange(0, d.len() as int));
    }
}

/// Merging rules whose keys are all present already changes nothing.
proof fn lemma_merge_present(t: Seq<Seq<char>>, p: Seq<Seq<char>>)
    requires
        forall|i: int| 0 <= i < p.len() ==> has_key(t, lower(#[trigger] p[i])),
    ensures
        spec_merge_ci(t, p) == t,
    decreases p.len(),
{
    if p.len() > 0 {
        assert forall|i: int| 0 <= i < p.drop_last().len() implies has_key(t, lower(#[trigger] p.drop_last()[i])) by {
            assert(p.drop_last()[i] == p[i]);
        }
        lemma_merge_present(t, p.drop_last());
        assert(has_key(t, lower(p[p.len() - 1])));
    }
}

/// Merging a list that starts with the target and has no repeated key
/// gives that list.
proof fn lemma_merge_absorbs(t: Seq<Seq<char>>, r: Seq<Seq<char>>)
    requires
        is_dup_free(t + r),
    ensures
        spec_merge_ci(t, t + r) == t + r,
    decreases r.len(),
{
    if r.len() == 0 {
        assert(t + r =~= t);
        assert forall|i: int| 0 <= i < t.len() implies has_key(t, lower(#[trigger] t[i])) by {}
        lemma_merge_present(t, t);
    } else {
        let rp = r.drop_last();
        assert((t + r).drop_last() =~= t + rp);
        assert(is_dup_free(t + rp)) by {
            assert forall|i: int, j: int| 0 <= i < j < (t + rp).len() implies lower(#[trigger] (t + rp)[i]) != lower(
                #[trigger] (t + rp)[j],
            ) by {
                assert((t + rp)[i] == (t + r)[i] && (t + rp)[j] == (t + r)[j]);
            }
        }
        lemma_merge_absorbs(t, rp);
        assert((t + r).last() == r.last());
        if has_key(t + rp, lower(r.last())) {
            let i = choose|i: int| 0 <= i < (t + rp).len() && lower(#[trigger] (t + rp)[i]) == lower(r.last());
            assert((t + r)[i] == (t + rp)[i]);
            assert((t + r)[(t + r).len() - 1] == r.last());
        }
        assert((t + rp).push(r.last()) =~= t + r);
    }
}

/// Filtering keeps a list free of repeated keys.
proof fn lemma_filter_dup_free(s: Seq<Seq<char>>, pred: spec_fn(Seq<char>) -> bool)
    requires
        is_dup_free(s),
    ensures
        is_dup_free(s.filter(pred)),
    decreases s.len(),
{
    reveal(Seq::filter);
    if s.len() > 0 {
        let p = s.drop_last();
        assert(is_dup_free(p)) by {
            assert forall|i: int, j: int| 0 <= i < j < p.len() implies lower(#[trigger] p[i]) != lower(#[trigger] p[j]) by {
                assert(s[i] == p[i] && s[j] == p[j]);
            }
        }
        lemma_filter_dup_free(p, pred);
        let f = p.filter(pred);
        if pred(s.last()) {
            assert forall|i: int, j: int| 0 <= i < j < f.push(s.last()).len() implies lower(
                #[trigger] f.push(s.last())[i],
            ) != lower(#[trigger] f.push(s.last())[j]) by {
                if j == f.len() {
                    assert(f.contains(f[i]));
                    p.lemma_filter_contains_rev(pred, f[i]);
                    let k = choose|k: int| 0 <= k < p.len() && p[k] == f[i];
                    assert(s[k] == p[k]);
                    assert(s[s.len() - 1] == s.last());
                } else {
                    assert(f.push(s.last())[i] == f[i] && f.push(s.last())[j] == f[j]);
                }
            }
        }
    }
}

/// Filtering by a predicate every element meets changes nothing.
proof fn lemma_filter_all(s: Seq<Seq<char>>, pred: spec_fn(Seq<char>) -> bool)
    requires
        forall|i: int| 0 <= i < s.len() ==> pred(#[trigger] s[i]),
    ensures
        s.filter(pred) == s,
    decreases s.len(),
{
    reveal(Seq::filter);
    if s.len() > 0 {
        assert forall|i: int| 0 <= i < s.drop_last().len() implies pred(#[trigger] s.drop_last()[i]) by {
            assert(s.drop_last()[i] == s[i]);
        }
        lemma_filter_all(s.drop_last(), pred);
        assert(pred(s[s.len() - 1]));
        assert(s.drop_last().push(s.last()) =~= s);
    }
}

/// Normalizing the one collapsed profile again, with the same legacy rules,
/// changes neither its block rules nor its allow rules.
pub proof fn lemma_collapse_idempotent(legacy: Seq<Seq<char>>, profiles: Seq<ProfileView>)
    ensures
        ({
            let one = seq![
                ProfileView {
                    name: default_profile_name(),
                    sites: spec_collapsed_sites(legacy, profiles),
                    allowlist_sites: spec_profiles_allowlist(profiles),
                },
            ];
            &&& spec_collapsed_sites(legacy, one) == spec_collapsed_sites(legacy, profiles)
            &&& spec_profiles_allowlist(one) == spec_profiles_allowlist(profiles)
        }),
{
    let sites = spec_collapsed_sites(legacy, profiles);
    let allow = spec_profiles_allowlist(profiles);
    let one = seq![ProfileView { name: default_profile_name(), sites, allowlist_sites: allow }];
    let d = spec_dedup_ci(legacy);
    lemma_collapsed_sites_prefix(legacy, profiles);
    lemma_collapsed_sites_dedup(legacy, profiles);
    let r = sites.subrange(d.len() as int, sites.len() as int);
    assert(d + r =~= sites);
    lemma_merge_absorbs(d, r);
    assert(one.drop_last() =~= Seq::<ProfileView>::empty());
    assert(spec_collapsed_sites(legacy, one.drop_last()) == d);
    assert(one.last().sites == sites);
    assert(spec_collapsed_sites(legacy, one) == spec_merge_ci(d, sites));
    lemma_collapsed_allowlist_dedup(profiles);
    let keep = |x: Seq<char>| allow_kept(profiles, x);
    lemma_filter_dup_free(spec_collapsed_allowlist(profiles), keep);
    assert(Seq::<Seq<char>>::empty() + allow =~= allow);
    lemma_merge_absorbs(Seq::empty(), allow);
    assert(spec_collapsed_allowlist(one.drop_last()) == Seq::<Seq<char>>::empty());
    assert(one.last().allowlist_sites == allow);
    assert(spec_collapsed_allowlist(one) == spec_merge_ci(Seq::empty(), allow));
    let keep_one = |x: Seq<char>| allow_kept(one, x);
    assert forall|i: int| 0 <= i < allow.len() implies keep_one(#[trigger] allow[i]) by {
        assert(has_key(allow, lower(allow[i])));
        assert forall|q: int| 0 <= q < one.len() && has_key(#[trigger] one[q].sites, lower(allow[i])) implies has_key(
            one[q].allowlist_sites,
            lower(allow[i]),
        ) by {
            assert(one[q].allowlist_sites == allow);
        }
    }
    lemma_filter_all(allow, keep_one);
}

/// Deduplicating a prefix first changes nothing.
pub proof fn lemma_dedup_concat_absorbs(a: Seq<Seq<char>>, b: Seq<Seq<char>>)
    ensures
        spec_dedup_ci(spec_dedup_ci(a) + b) == spec_dedup_ci(a + b),
    decreases b.len(),
{
    if b.len() == 0 {
        assert(spec_dedup_ci(a) + b =~= spec_dedup_ci(a));
        assert(a + b =~= a);
        lemma_dedup_is_dup_free(a);
        lemma_dedup_of_dup_free(spec_dedup_ci(a));
    } else {
        let p = b.drop_last();
        lemma_dedup_concat_absorbs(a, p);
        assert((spec_dedup_ci(a) + b).drop_last() =~= spec_dedup_ci(a) + p);
        assert((a + b).drop_last() =~= a + p);
        lemma_dedup_keys(spec_dedup_ci(a) + p, lower(b.last()));
        lemma_dedup_keys(a + p, lower(b.last()));
        lemma_dedup_keys(a, lower(b.last()));
        if has_key(spec_dedup_ci(a) + p, lower(b.last())) != has_key(a + p, lower(b.last())) {
            let k = lower(b.last());
            if has_key(spec_dedup_ci(a) + p, k) {
                let i = choose|i: int| 0 <= i < (spec_dedup_ci(a) + p).len() && lower(#[trigger] (spec_dedup_ci(a) + p)[i]) == k;
                if i < spec_dedup_ci(a).len() {
                    let j = choose|j: int| 0 <= j < a.len() && lower(#[trigger] a[j]) == k;
                    assert((a + p)[j] == a[j]);
                } else {
                    assert((a + p)[a.len() + (i - spec_dedup_ci(a).len())] == p[i - spec_dedup_ci(a).len()]);
                }
            } else {
                let i = choose|i: int| 0 <= i < (a + p).len() && lower(#[trigger] (a + p)[i]) == k;
                if i < a.len() {
                    let j = choose|j: int| 0 <= j < spec_dedup_ci(a).len() && lower(#[trigger] spec_dedup_ci(a)[j]) == k;
                    assert((spec_dedup_ci(a) + p)[j] == spec_dedup_ci(a)[j]);
                } else {
                    assert((spec_dedup_ci(a) + p)[spec_dedup_ci(a).len() + (i - a.len())] == p[i - a.len()]);
                }
            }
        }
    }
}

/// The rules in order, each kept at the first occurrence of its key.
pub fn dedup_case_insensitive(values: &Vec<String>) -> (r: Vec<String>)
    ensures
        strings_view(r@) == spec_dedup_ci(strings_view(values@)),
{
    let mut out: Vec<String> = Vec::new();
    let mut i: usize = 0;
    while i < values.len()
        invariant
            i <= values.len(),
            strings_view(out@) == spec_dedup_ci(strings_view(values@).subrange(0, i as int)),
        decreases values.len() - i,
    {
        let ghost prefix = strings_view(values@).subrange(0, i as int);
        assert(strings_view(values@).subrange(0, i + 1).drop_last() =~= prefix);
        proof {
            lemma_dedup_keys(prefix, lower(values@[i as int]@));
        }
        if !has_key_exec(&out, values[i].as_str()) {
            out.push(owned(values[i].as_str()));
            assert(strings_view(out@) =~= spec_dedup_ci(prefix).push(values@[i as int]@));
        }
        i = i + 1;
    }
    assert(strings_view(values@).subrange(0, values.len() as int) =~= strings_view(values@));
    out
}

/// Whether some rule of `rules` equals `value` without regard to ASCII case.
fn has_key_exec(rules: &Vec<String>, value: &str) -> (r: bool)
    ensures
        r == has_key(strings_view(rules@), lower(value@)),
{
    let mut i: usize = 0;
    while i < rules.len()
        invariant
            i <= rules.len(),
            forall|k: int| 0 <= k < i ==> lower(rules@[k]@) != lower(value@),
        decreases rules.len() - i,
    {
        if eq_ignore_case(rules[i].as_str(), value) {
            assert(lower(strings_view(rules@)[i as int]) == lower(value@));
            return true;
        }
        i = i + 1;
    }
    assert forall|k: int| 0 <= k < strings_view(rules@).len() implies lower(
        #[trigger] strings_view(rules@)[k],
    ) != lower(value@) by {
        assert(strings_view(rules@)[k] == rules@[k]@);
    }
    false
}

/// Appends each rule of `source` whose key is not yet in `target`.
pub fn merge_unique_case_insensitive(target: &mut Vec<String>, source: &Vec<String>)
    ensures
        strings_view(final(target)@) == spec_merge_ci(strings_view(old(target)@), strings_view(source@)),
{
    let ghost t0 = strings_view(target@);
    let mut i: usize = 0;
    while i < source.len()
        invariant
            i <= source.len(),
            strings_view(target@) == spec_merge_ci(t0, strings_view(source@).subrange(0, i as int)),
        decreases source.len() - i,
    {
        assert(strings_view(source@).subrange(0, i + 1).drop_last() =~= strings_view(source@).subrange(
            0,
            i as int,
        ));
        if !has_key_exec(target, source[i].as_str()) {
            target.push(owned(source[i].as_str()));
            assert(strings_view(target@) =~= spec_merge_ci(
                t0,
                strings_view(source@).subrange(0, i as int),
            ).push(source@[i as int]@));
        }
        i = i + 1;
    }
    assert(strings_view(source@).subrange(0, source.len() as int) =~= strings_view(source@));
}

/// The name of the one profile the application keeps.
pub fn default_blocklist_profile_name() -> (r: String)
    ensures
        r@ == default_profile_name(),
{
    owned("Default")
}

fn default_blocklist_category_name() -> (r: String)
    ensures
        r@ == default_category_name(),
{
    owned("General")
}

impl Default for BlocklistProfileConfig {
    /// The empty `Default` profile.
    fn default() -> (r: BlocklistProfileConfig)
        ensures
            r@.name == default_profile_name(),
            r@.sites.len() == 0,
            r@.allowlist_sites.len() == 0,
    {
        BlocklistProfileConfig {
            name: default_blocklist_profile_name(),
            sites: Vec::new(),
            allowlist_sites: Vec::new(),
        }
    }
}

/// Whether an allow rule survives the collapse of `profiles`.
fn allow_rule_kept(profiles: &Vec<BlocklistProfileConfig>, rule: &str) -> (r: bool)
    ensures
        r == allow_kept(profiles_view(profiles@), rule@),
{
    let ghost pv = profiles_view(profiles@);
    let mut q: usize = 0;
    while q < profiles.len()
        invariant
            q <= profiles.len(),
            pv == profiles_view(profiles@),
            forall|j: int|
                0 <= j < q && has_key(#[trigger] pv[j].sites, lower(rule@)) ==> has_key(
                    pv[j].allowlist_sites,
                    lower(rule@),
                ),
        decreases profiles.len() - q,
    {
        assert(pv[q as int] == profiles@[q as int]@);
        if has_key_exec(&profiles[q].sites, rule) && !has_key_exec(&profiles[q].allowlist_sites, rule) {
            assert(has_key(pv[q as int].sites, lower(rule@)));
            assert(!has_key(pv[q as int].allowlist_sites, lower(rule@)));
            return false;
        }
        q = q + 1;
    }
    true
}

/// Collapses all profiles, and the legacy top-level rules, into one
/// `Default` profile. Block rules are all
/// kept; an allow rule is kept only when it lifts no block that another
/// profile keeps.
pub fn normalize_blocklist_profiles(
    profiles: &Vec<BlocklistProfileConfig>,
    legacy_blocked_sites: &Vec<String>,
) -> (r: Vec<BlocklistProfileConfig>)
    ensures
        r@.len() == 1,
        r@[0]@.name == default_profile_name(),
        r@[0]@.sites == spec_collapsed_sites(strings_view(legacy_blocked_sites@), profiles_view(profiles@)),
        r@[0]@.allowlist_sites == spec_profiles_allowlist(profiles_view(profiles@)),
{
    let ghost pv = profiles_view(profiles@);
    let mut sites = dedup_case_insensitive(legacy_blocked_sites);
    let mut merged_allowlist: Vec<String> = Vec::new();
    let mut i: usize = 0;
    assert(strings_view(merged_allowlist@) =~= Seq::<Seq<char>>::empty());
    while i < profiles.len()
        invariant
            i <= profiles.len(),
            pv == profiles_view(profiles@),
            strings_view(sites@) == spec_collapsed_sites(strings_view(legacy_blocked_sites@), pv.subrange(0, i as int)),
            strings_view(merged_allowlist@) == spec_collapsed_allowlist(pv.subrange(0, i as int)),
        decreases profiles.len() - i,
    {
        assert(pv.subrange(0, i + 1).drop_last() =~= pv.subrange(0, i as int));
        assert(pv.subrange(0, i + 1).last() == profiles@[i as int]@);
        merge_unique_case_insensitive(&mut sites, &profiles[i].sites);
        merge_unique_case_insensitive(&mut merged_allowlist, &profiles[i].allowlist_sites);
        i = i + 1;
    }
    assert(pv.subrange(0, profiles.len() as int) =~= pv);
    let ghost merged = strings_view(merged_allowlist@);
    let ghost keep = |r: Seq<char>| allow_kept(pv, r);
    let mut allowlist_sites: Vec<String> = Vec::new();
    let mut k: usize = 0;
    assert(merged.subrange(0, 0).filter(keep) =~= Seq::<Seq<char>>::empty()) by {
        reveal(Seq::filter);
    }
    while k < merged_allowlist.len()
        invariant
            k <= merged_allowlist.len(),
            merged == strings_view(merged_allowlist@),
            pv == profiles_view(profiles@),
            keep == (|r: Seq<char>| allow_kept(pv, r)),
            strings_view(allowlist_sites@) == merged.subrange(0, k as int).filter(keep),
        decreases merged_allowlist.len() - k,
    {
        assert(merged.subrange(0, k + 1) =~= merged.subrange(0, k as int).push(merged_allowlist@[k as int]@));
        proof {
            merged.subrange(0, k as int).lemma_filter_push(merged_allowlist@[k as int]@, keep);
        }
        if allow_rule_kept(profiles, merged_allowlist[k].as_str()) {
            let ghost before = allowlist_sites@;
            allowlist_sites.push(owned(merged_allowlist[k].as_str()));
            assert(strings_view(allowlist_sites@) =~= strings_view(before).push(merged_allowlist@[k as int]@));
        }
        k = k + 1;
    }
    assert(merged.subrange(0, merged_allowlist.len() as int) =~= merged);
    let mut r: Vec<BlocklistProfileConfig> = Vec::new();
    r.push(BlocklistProfileConfig { name: default_blocklist_profile_name(), sites, allowlist_sites });
    r
}

/// The selected profile is always the `Default` one.
pub fn normalize_selected_blocklist_profile(
    _selected_name: &str,
    _profiles: &Vec<BlocklistProfileConfig>,
) -> (r: String)
    ensures
        r@ == default_profile_name(),
{
    default_blocklist_profile_name()
}

/// The name `base (n)` tried for the `n`-th duplicate of `base`.
pub open spec fn numbered_name(base: Seq<char>, n: nat) -> Seq<char> {
    base + " ("@ + decimal(n) + ")"@
}

/// The case-insensitive key of `numbered_name(base, n)`.
pub open spec fn numbered_key(base: Seq<char>, n: int) -> Seq<char> {
    lower(numbered_name(base, n as nat))
}

/// The first suffix from 2 on whose name is not yet taken.
pub open spec fn first_free_suffix(base: Seq<char>, seen: Seq<Seq<char>>) -> nat {
    choose|n: nat|
        n >= 2 && !seen.contains(numbered_key(base, n as int)) && forall|m: int|
            2 <= m < n ==> seen.contains(#[trigger] numbered_key(base, m))
}

/// `base` when its key is free, else the first free `base (n)`.
pub open spec fn spec_unique_name(base: Seq<char>, seen: Seq<Seq<char>>) -> Seq<char> {
    if !seen.contains(lower(base)) {
        base
    } else {
        numbered_name(base, first_free_suffix(base, seen))
    }
}

proof fn lemma_decimal_digits(n: nat)
    ensures
        decimal(n).len() >= 1,
        n >= 10 ==> decimal(n).len() >= 2,
        forall|i: int| 0 <= i < decimal(n).len() ==> '0' <= #[trigger] decimal(n)[i] <= '9',
    decreases n,
{
    if n >= 10 {
        lemma_decimal_digits(n / 10);
        assert forall|i: int| 0 <= i < decimal(n).len() implies '0' <= #[trigger] decimal(n)[i] <= '9' by {
            if i < decimal(n / 10).len() {
                assert(decimal(n)[i] == decimal(n / 10)[i]);
            }
        }
    }
}

/// Distinct numbers have distinct decimal renderings.
pub proof fn lemma_decimal_injective(a: nat, b: nat)
    requires
        decimal(a) == decimal(b),
    ensures
        a == b,
    decreases a,
{
    lemma_decimal_digits(a);
    lemma_decimal_digits(b);
    if a < 10 && b < 10 {
        assert(decimal(a)[0] == digit_char(a));
        assert(decimal(b)[0] == digit_char(b));
    } else if a >= 10 && b >= 10 {
        let da = decimal(a);
        let db = decimal(b);
        assert(da.last() == digit_char(a % 10));
        assert(db.last() == digit_char(b % 10));
        assert(da.drop_last() =~= decimal(a / 10));
        assert(db.drop_last() =~= decimal(b / 10));
        lemma_decimal_injective(a / 10, b / 10);
    }
}

/// Distinct suffixes give distinct keys.
pub proof fn lemma_numbered_key_injective(base: Seq<char>, a: nat, b: nat)
    requires
        numbered_key(base, a as int) == numbered_key(base, b as int),
    ensures
        a == b,
{
    let na = numbered_name(base, a);
    let nb = numbered_name(base, b);
    let off = base.len() + 2;
    reveal_strlit(" (");
    reveal_strlit(")");
    lemma_decimal_digits(a);
    lemma_decimal_digits(b);
    assert(lower(na).len() == na.len());
    assert(decimal(a).len() == decimal(b).len());
    assert forall|i: int| 0 <= i < decimal(a).len() implies decimal(a)[i] == decimal(b)[i] by {
        assert(na[off + i] == decimal(a)[i]);
        assert(nb[off + i] == decimal(b)[i]);
        assert(lower(na)[off + i] == lower_char(na[off + i]));
        assert(lower(nb)[off + i] == lower_char(nb[off + i]));
    }
    assert(decimal(a) =~= decimal(b));
    lemma_decimal_injective(a, b);
}

/// A numbered key is longer than the key of its base.
proof fn lemma_numbered_key_not_base(base: Seq<char>, n: nat)
    ensures
        numbered_key(base, n as int) != lower(base),
{
    reveal_strlit(" (");
    assert(numbered_key(base, n as int).len() > lower(base).len());
}

/// When the keys of suffixes `2..n` are all taken, there are at least `n - 2` keys.
proof fn lemma_taken_suffixes_bound(base: Seq<char>, seen: Seq<Seq<char>>, n: int)
    requires
        n >= 2,
        seen.contains(lower(base)),
        forall|m: int| 2 <= m < n ==> seen.contains(#[trigger] numbered_key(base, m)),
    ensures
        n - 1 <= seen.len(),
{
    let range = set_int_range(2, n);
    let f = |m: int| numbered_key(base, m);
    lemma_int_range(2, n);
    assert(injective_on(f, range)) by {
        assert forall|x: int, y: int| range.contains(x) && range.contains(y) && #[trigger] f(x) == #[trigger] f(y) implies x == y by {
            lemma_numbered_key_injective(base, x as nat, y as nat);
        }
    }
    let keys = range.map(f);
    lemma_map_size(range, keys, f);
    let all = keys.insert(lower(base));
    assert(!keys.contains(lower(base))) by {
        if keys.contains(lower(base)) {
            let m = choose|m: int| range.contains(m) && f(m) == lower(base);
            lemma_numbered_key_not_base(base, m as nat);
        }
    }
    assert(all.subset_of(seen.to_set()));
    seen.lemma_cardinality_of_set();
    vstd::seq_lib::seq_to_set_is_finite(seen);
    lemma_len_subset(all, seen.to_set());
}

/// Some suffix from `n` on is free, and every one before it from 2 is taken.
proof fn lemma_first_free_from(base: Seq<char>, seen: Seq<Seq<char>>, n: int)
    requires
        2 <= n,
        seen.contains(lower(base)),
        forall|m: int| 2 <= m < n ==> seen.contains(#[trigger] numbered_key(base, m)),
    ensures
        exists|k: nat|
            k >= 2 && !seen.contains(numbered_key(base, k as int)) && forall|m: int|
                2 <= m < k ==> seen.contains(#[trigger] numbered_key(base, m)),
    decreases seen.len() + 3 - n,
{
    lemma_taken_suffixes_bound(base, seen, n);
    if !seen.contains(numbered_key(base, n)) {
        let k = n as nat;
        assert(k >= 2 && !seen.contains(numbered_key(base, k as int)) && forall|m: int|
            2 <= m < k ==> seen.contains(#[trigger] numbered_key(base, m)));
    } else {
        lemma_first_free_from(base, seen, n + 1);
    }
}

/// The name given is not yet taken, without regard to case.
pub proof fn lemma_unique_name_is_new(base: Seq<char>, seen: Seq<Seq<char>>)
    ensures
        !seen.contains(lower(spec_unique_name(base, seen))),
{
    if seen.contains(lower(base)) {
        lemma_first_free_from(base, seen, 2);
    }
}

/// Categories come out with names that differ without regard to case, and
/// the keys taken are exactly theirs.
pub proof fn lemma_unique_names_distinct(bases: Seq<Seq<char>>)
    ensures
        spec_unique_names(bases).1 == spec_unique_names(bases).0.map_values(|n: Seq<char>| lower(n)),
        forall|i: int, j: int|
            0 <= i < j < bases.len() ==> lower(#[trigger] spec_unique_names(bases).0[i]) != lower(
                #[trigger] spec_unique_names(bases).0[j],
            ),
    decreases bases.len(),
{
    lemma_unique_names_len(bases);
    if bases.len() > 0 {
        let p = bases.drop_last();
        lemma_unique_names_distinct(p);
        lemma_unique_names_len(p);
        let prev = spec_unique_names(p);
        let name = spec_unique_name(bases.last(), prev.1);
        lemma_unique_name_is_new(bases.last(), prev.1);
        let names = spec_unique_names(bases).0;
        assert(spec_unique_names(bases).1 =~= names.map_values(|n: Seq<char>| lower(n)));
        assert forall|i: int, j: int| 0 <= i < j < bases.len() implies lower(#[trigger] names[i]) != lower(
            #[trigger] names[j],
        ) by {
            if j == bases.len() - 1 {
                assert(prev.1[i] == lower(prev.0[i]));
                assert(names[i] == prev.0[i]);
                assert(names[j] == name);
                if lower(names[i]) == lower(names[j]) {
                    assert(prev.1.contains(lower(name)));
                }
            } else {
                assert(names[i] == prev.0[i] && names[j] == prev.0[j]);
            }
        }
    }
}

/// Whether `v` holds the text `s`.
fn contains_text(v: &Vec<String>, s: &str) -> (r: bool)
    ensures
        r == strings_view(v@).contains(s@),
{
    let mut i: usize = 0;
    while i < v.len()
        invariant
            i <= v.len(),
            forall|k: int| 0 <= k < i ==> v@[k]@ != s@,
        decreases v.len() - i,
    {
        if str_eq(v[i].as_str(), s) {
            assert(strings_view(v@)[i as int] == s@);
            return true;
        }
        i = i + 1;
    }
    assert forall|k: int| 0 <= k < strings_view(v@).len() implies strings_view(v@)[k] != s@ by {
        assert(strings_view(v@)[k] == v@[k]@);
    }
    false
}

/// `base_name`, or `base_name (n)` with the first `n` from 2 whose name is
/// free, compared without regard to case; its key joins `seen_names`.
pub fn make_unique_profile_name(base_name: &str, seen_names: &mut Vec<String>) -> (r: String)
    requires
        old(seen_names)@.len() < usize::MAX,
    ensures
        r@ == spec_unique_name(base_name@, strings_view(old(seen_names)@)),
        strings_view(final(seen_names)@) == strings_view(old(seen_names)@).push(lower(r@)),
{
    let ghost seen0 = strings_view(seen_names@);
    let key = to_lower(base_name);
    if !contains_text(seen_names, key.as_str()) {
        seen_names.push(key);
        assert(strings_view(seen_names@) =~= seen0.push(lower(base_name@)));
        return owned(base_name);
    }
    let mut suffix: usize = 2;
    loop
        invariant
            2 <= suffix <= seen0.len() + 1,
            seen0.len() < usize::MAX,
            seen0 == strings_view(seen_names@),
            seen0 == strings_view(old(seen_names)@),
            seen0.contains(lower(base_name@)),
            forall|m: int| 2 <= m < suffix ==> seen0.contains(#[trigger] numbered_key(base_name@, m)),
        decreases seen0.len() + 1 - suffix,
    {
        let digits = u64_to_string(suffix as u64);
        let head = concat(base_name, " (");
        let mid = concat(head.as_str(), digits.as_str());
        let candidate = concat(mid.as_str(), ")");
        assert(candidate@ =~= numbered_name(base_name@, suffix as nat));
        let key = to_lower(candidate.as_str());
        if !contains_text(seen_names, key.as_str()) {
            proof {
                let n = suffix as nat;
                assert(n >= 2 && !seen0.contains(numbered_key(base_name@, n as int)) && forall|m: int|
                    2 <= m < n ==> seen0.contains(#[trigger] numbered_key(base_name@, m)));
                let w = first_free_suffix(base_name@, seen0);
                if w < n {
                    assert(seen0.contains(numbered_key(base_name@, w as int)));
                }
                if w > n {
                    assert(seen0.contains(numbered_key(base_name@, n as int)));
                }
            }
            seen_names.push(key);
            assert(strings_view(seen_names@) =~= seen0.push(lower(candidate@)));
            return candidate;
        }
        proof {
            lemma_taken_suffixes_bound(base_name@, seen0, suffix + 1);
        }
        suffix = suffix + 1;
    }
}

/// A category's base name: its name trimmed, `General` when blank.
pub open spec fn category_base(c: ProfileView) -> Seq<char> {
    spec_nonempty_or_default(c.name, default_category_name())
}

/// The unique names given to categories with these bases, in order, and the
/// keys taken after them.
pub open spec fn spec_unique_names(bases: Seq<Seq<char>>) -> (Seq<Seq<char>>, Seq<Seq<char>>)
    decreases bases.len(),
{
    if bases.len() == 0 {
        (Seq::empty(), Seq::empty())
    } else {
        let prev = spec_unique_names(bases.drop_last());
        let name = spec_unique_name(bases.last(), prev.1);
        (prev.0.push(name), prev.1.push(lower(name)))
    }
}

proof fn lemma_unique_names_len(bases: Seq<Seq<char>>)
    ensures
        spec_unique_names(bases).0.len() == bases.len(),
        spec_unique_names(bases).1.len() == bases.len(),
    decreases bases.len(),
{
    if bases.len() > 0 {
        lemma_unique_names_len(bases.drop_last());
    }
}

/// The categories renamed to unique names, rules untouched.
pub open spec fn spec_named_categories(cats: Seq<ProfileView>) -> Seq<ProfileView> {
    let names = spec_unique_names(cats.map_values(|c: ProfileView| category_base(c))).0;
    Seq::new(
        cats.len(),
        |i: int| ProfileView { name: names[i], sites: cats[i].sites, allowlist_sites: cats[i].allowlist_sites },
    )
}

/// Position of the first category named `General`, without regard to case.
pub open spec fn general_index(cats: Seq<ProfileView>) -> Option<int> {
    if exists|i: int| 0 <= i < cats.len() && lower((#[trigger] cats[i]).name) == lower(default_category_name()) {
        Some(
            choose|i: int|
                0 <= i < cats.len() && lower(cats[i].name) == lower(default_category_name()) && forall|j: int|
                    0 <= j < i ==> lower((#[trigger] cats[j]).name) != lower(default_category_name()),
        )
    } else {
        None
    }
}

/// The categories a profile's rules are kept in: renamed uniquely, with the
/// profile's own legacy rules merged into the first `General` category (one
/// is added at the end when there is none); with no categories at all, one
/// `General` category holding the legacy rules.
pub open spec fn spec_normalized_categories(
    cats: Seq<ProfileView>,
    legacy_sites: Seq<Seq<char>>,
    legacy_allowlist: Seq<Seq<char>>,
) -> Seq<ProfileView> {
    let named = spec_named_categories(cats);
    if cats.len() == 0 {
        seq![ProfileView { name: default_category_name(), sites: legacy_sites, allowlist_sites: legacy_allowlist }]
    } else if legacy_sites.len() == 0 && legacy_allowlist.len() == 0 {
        named
    } else {
        match general_index(named) {
            Some(g) => named.update(
                g,
                ProfileView {
                    name: named[g].name,
                    sites: spec_merge_ci(named[g].sites, legacy_sites),
                    allowlist_sites: spec_merge_ci(named[g].allowlist_sites, legacy_allowlist),
                },
            ),
            None => named.push(
                ProfileView {
                    name: default_category_name(),
                    sites: spec_merge_ci(Seq::empty(), legacy_sites),
                    allowlist_sites: spec_merge_ci(Seq::empty(), legacy_allowlist),
                },
            ),
        }
    }
}

/// A copy of a category under another name.
fn renamed_category(c: &BlocklistCategoryConfig, name: String) -> (r: BlocklistCategoryConfig)
    ensures
        r@ == (ProfileView { name: name@, sites: c@.sites, allowlist_sites: c@.allowlist_sites }),
{
    BlocklistCategoryConfig { name, sites: clone_strings(&c.sites), allowlist_sites: clone_strings(&c.allowlist_sites) }
}

/// The categories under unique names, in order.
fn named_categories(categories: &Vec<BlocklistCategoryConfig>) -> (r: Vec<BlocklistCategoryConfig>)
    ensures
        categories_view(r@) == spec_named_categories(categories_view(categories@)),
{
    let ghost cats = categories_view(categories@);
    let ghost bases = cats.map_values(|c: ProfileView| category_base(c));
    let mut normalized: Vec<BlocklistCategoryConfig> = Vec::new();
    let mut seen_names: Vec<String> = Vec::new();
    let mut i: usize = 0;
    while i < categories.len()
        invariant
            i <= categories.len(),
            cats == categories_view(categories@),
            bases == cats.map_values(|c: ProfileView| category_base(c)),
            normalized@.len() == i,
            seen_names@.len() == i,
            strings_view(seen_names@) == spec_unique_names(bases.subrange(0, i as int)).1,
            forall|k: int| 0 <= k < i ==> (#[trigger] normalized@[k])@ == (ProfileView {
                name: spec_unique_names(bases.subrange(0, i as int)).0[k],
                sites: cats[k].sites,
                allowlist_sites: cats[k].allowlist_sites,
            }),
        decreases categories.len() - i,
    {
        let ghost prev = spec_unique_names(bases.subrange(0, i as int));
        assert(bases.subrange(0, i + 1).drop_last() =~= bases.subrange(0, i as int));
        assert(cats[i as int] == categories@[i as int]@);
        let base = normalize_nonempty_or_default_string(categories[i].name.as_str(), "General");
        proof {
            reveal_strlit("General");
            lemma_unique_names_len(bases.subrange(0, i as int));
        }
        assert(base@ == bases[i as int]);
        let name = make_unique_profile_name(base.as_str(), &mut seen_names);
        assert(strings_view(seen_names@).len() == seen_names@.len());
        let ghost next = spec_unique_names(bases.subrange(0, i + 1));
        assert(next.0 == prev.0.push(name@));
        let c = renamed_category(&categories[i], name);
        normalized.push(c);
        i = i + 1;
    }
    proof {
        lemma_unique_names_len(bases);
    }
    assert(bases.subrange(0, categories.len() as int) =~= bases);
    assert(categories_view(normalized@) =~= spec_named_categories(cats));
    normalized
}

/// Position of the first category named `General` without regard to case.
fn find_general(categories: &Vec<BlocklistCategoryConfig>) -> (r: Option<usize>)
    ensures
        match r {
            Some(g) => general_index(categories_view(categories@)) == Some(g as int) && g < categories@.len(),
            None => general_index(categories_view(categories@)) is None,
        },
{
    let ghost cats = categories_view(categories@);
    let mut j: usize = 0;
    while j < categories.len()
        invariant
            j <= categories.len(),
            cats == categories_view(categories@),
            forall|k: int| 0 <= k < j ==> lower((#[trigger] cats[k]).name) != lower(default_category_name()),
        decreases categories.len() - j,
    {
        proof {
            reveal_strlit("General");
        }
        if eq_ignore_case(categories[j].name.as_str(), "General") {
            proof {
                assert(lower(cats[j as int].name) == lower(default_category_name()));
                let w = choose|w: int|
                    0 <= w < cats.len() && lower(cats[w].name) == lower(default_category_name()) && forall|k: int|
                        0 <= k < w ==> lower((#[trigger] cats[k]).name) != lower(default_category_name());
                assert(0 <= w < cats.len() && lower(cats[w].name) == lower(default_category_name()) && forall|k: int|
                    0 <= k < w ==> lower((#[trigger] cats[k]).name) != lower(default_category_name())) by {
                    assert(0 <= j < cats.len() && lower(cats[j as int].name) == lower(default_category_name()) && forall|k: int|
                        0 <= k < j ==> lower((#[trigger] cats[k]).name) != lower(default_category_name()));
                }
                if w < j {
                    assert(lower(cats[w].name) != lower(default_category_name()));
                }
                if w > j {
                    assert(lower(cats[j as int].name) != lower(default_category_name()));
                }
            }
            return Some(j);
        }
        j = j + 1;
    }
    None
}

/// The categories of a profile normalized: unique names, and the profile's
/// legacy rules kept in its `General` category.
pub fn normalize_blocklist_categories(
    categories: &Vec<BlocklistCategoryConfig>,
    legacy_sites: &Vec<String>,
    legacy_allowlist_sites: &Vec<String>,
) -> (r: Vec<BlocklistCategoryConfig>)
    ensures
        categories_view(r@) == spec_normalized_categories(
            categories_view(categories@),
            strings_view(legacy_sites@),
            strings_view(legacy_allowlist_sites@),
        ),
{
    let ghost cats = categories_view(categories@);
    let ghost ls = strings_view(legacy_sites@);
    let ghost la = strings_view(legacy_allowlist_sites@);
    let mut normalized = named_categories(categories);
    let ghost named = categories_view(normalized@);
    if normalized.len() == 0 {
        let mut r: Vec<BlocklistCategoryConfig> = Vec::new();
        r.push(BlocklistCategoryConfig {
            name: default_blocklist_category_name(),
            sites: clone_strings(legacy_sites),
            allowlist_sites: clone_strings(legacy_allowlist_sites),
        });
        assert(categories_view(r@) =~= seq![ProfileView { name: default_category_name(), sites: ls, allowlist_sites: la }]);
        return r;
    }
    if legacy_sites.len() == 0 && legacy_allowlist_sites.len() == 0 {
        return normalized;
    }
    match find_general(&normalized) {
        Some(g) => {
            let ghost before = normalized@;
            let mut c = normalized.remove(g);
            assert(c == before[g as int]);
            merge_unique_case_insensitive(&mut c.sites, legacy_sites);
            merge_unique_case_insensitive(&mut c.allowlist_sites, legacy_allowlist_sites);
            let ghost cc = c;
            normalized.insert(g, c);
            assert(normalized@ =~= before.update(g as int, cc));
            assert(categories_view(normalized@) =~= named.update(
                g as int,
                ProfileView {
                    name: named[g as int].name,
                    sites: spec_merge_ci(named[g as int].sites, ls),
                    allowlist_sites: spec_merge_ci(named[g as int].allowlist_sites, la),
                },
            ));
            normalized
        },
        None => {
            let mut sites: Vec<String> = Vec::new();
            let mut allowlist_sites: Vec<String> = Vec::new();
            assert(strings_view(sites@) =~= Seq::<Seq<char>>::empty());
            assert(strings_view(allowlist_sites@) =~= Seq::<Seq<char>>::empty());
            merge_unique_case_insensitive(&mut sites, legacy_sites);
            merge_unique_case_insensitive(&mut allowlist_sites, legacy_allowlist_sites);
            let ghost before = normalized@;
            let c = BlocklistCategoryConfig { name: default_blocklist_category_name(), sites, allowlist_sites };
            let ghost cc = c;
            normalized.push(c);
            assert(categories_view(normalized@) =~= named.push(cc@));
            normalized
        },
    }
}

/// All rules of the categories merged in order, block rules and allow rules
/// apart.
pub fn flatten_blocklist_categories(categories: &Vec<BlocklistCategoryConfig>) -> (r: (Vec<String>, Vec<String>))
    ensures
        strings_view(r.0@) == spec_collapsed_sites(Seq::empty(), categories_view(categories@)),
        strings_view(r.1@) == spec_collapsed_allowlist(categories_view(categories@)),
{
    let ghost cv = categories_view(categories@);
    let mut sites: Vec<String> = Vec::new();
    let mut allowlist_sites: Vec<String> = Vec::new();
    let mut i: usize = 0;
    assert(strings_view(sites@) =~= Seq::<Seq<char>>::empty());
    assert(spec_dedup_ci(Seq::<Seq<char>>::empty()) =~= Seq::<Seq<char>>::empty());
    while i < categories.len()
        invariant
            i <= categories.len(),
            cv == categories_view(categories@),
            strings_view(sites@) == spec_collapsed_sites(Seq::empty(), cv.subrange(0, i as int)),
            strings_view(allowlist_sites@) == spec_collapsed_allowlist(cv.subrange(0, i as int)),
        decreases categories.len() - i,
    {
        assert(cv.subrange(0, i + 1).drop_last() =~= cv.subrange(0, i as int));
        assert(cv.subrange(0, i + 1).last() == categories@[i as int]@);
        merge_unique_case_insensitive(&mut sites, &categories[i].sites);
        merge_unique_case_insensitive(&mut allowlist_sites, &categories[i].allowlist_sites);
        i = i + 1;
    }
    assert(cv.subrange(0, categories.len() as int) =~= cv);
    (sites, allowlist_sites)
}

/// A profile's rules as stored: its categories normalized, then flattened.
pub fn flattened_profile_rules(
    categories: &Vec<BlocklistCategoryConfig>,
    legacy_sites: &Vec<String>,
    legacy_allowlist_sites: &Vec<String>,
) -> (r: (Vec<String>, Vec<String>))
    ensures
        strings_view(r.0@) == spec_collapsed_sites(
            Seq::empty(),
            spec_normalized_categories(categories_view(categories@), strings_view(legacy_sites@), strings_view(legacy_allowlist_sites@)),
        ),
        strings_view(r.1@) == spec_collapsed_allowlist(
            spec_normalized_categories(categories_view(categories@), strings_view(legacy_sites@), strings_view(legacy_allowlist_sites@)),
        ),
{
    let normalized = normalize_blocklist_categories(categories, legacy_sites, legacy_allowlist_sites);
    flatten_blocklist_categories(&normalized)
}

/// A profile as read from disk, where older files still group rules in categories.
pub struct BlocklistProfileConfigDisk {
    pub name: String,
    pub sites: Vec<String>,
    pub allowlist_sites: Vec<String>,
    pub categories: Vec<BlocklistCategoryConfig>,
}

impl BlocklistProfileConfig {
    /// The profile with its categories flattened into its own rules
    /// (the conversion from `BlocklistProfileConfigDisk`).
    pub fn from_disk(profile: BlocklistProfileConfigDisk) -> (r: BlocklistProfileConfig)
        ensures
            r@.name == profile.name@,
            r@.sites == spec_collapsed_sites(
                Seq::empty(),
                spec_normalized_categories(categories_view(profile.categories@), strings_view(profile.sites@), strings_view(profile.allowlist_sites@)),
            ),
            r@.allowlist_sites == spec_collapsed_allowlist(
                spec_normalized_categories(categories_view(profile.categories@), strings_view(profile.sites@), strings_view(profile.allowlist_sites@)),
            ),
    {
        let (sites, allowlist_sites) = flattened_profile_rules(&profile.categories, &profile.sites, &profile.allowlist_sites);
        BlocklistProfileConfig { name: profile.name, sites, allowlist_sites }
    }
}

} // verus!
