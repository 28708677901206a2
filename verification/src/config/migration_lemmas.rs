//! Why migrating a configuration a second time changes nothing: the cleanup
//! passes leave a document that none of them changes again, provided its
//! tables hold each key once, as a parsed TOML document's tables do.
use crate::config::migration::{
    as_table, spec_canonical_profile_field, spec_canonicalize, spec_cleanup, spec_migrate_categories,
    spec_preset_keys, spec_remove_exception_dates, spec_remove_key, spec_remove_templates, spec_remove_wakatime,
    StepView, spec_collapse_profiles, lemma_migrated_config_declares_current_schema, spec_migrate_detailed,
    spec_schema_steps, spec_schema_version, spec_v1_to_v2, spec_flatten_profile, spec_merge, spec_merge_entries, spec_move_key,
    spec_move_preset_keys, spec_profile_table, spec_strip_preset, spec_strip_presets, spec_strip_schedule,
    spec_toml_profiles,
};
use crate::config::toml_tree::{
    keys_unique, lemma_get_ok, lemma_insert_keeps, lemma_key_index, lemma_remove_keeps, lemma_same_keys, lemma_table_get_after_insert,
    lemma_table_get_after_remove, table_get, tables_unique, lemma_tables_unique_unfold, table_insert, table_remove, values_ok, TomlView,
};
use crate::config::{lemma_profile_token_canonical, spec_profile_token, CURRENT_CONFIG_SCHEMA_VERSION};
use vstd::prelude::*;

verus! {

/// The keys the cleanup passes look at, told apart.
proof fn lemma_key_names()
    ensures
        "selected_profile"@.len() == 16,
        "profile_automation"@.len() == 18,
        "weekday_profile_rules"@.len() == 21,
        "automation_triggers"@.len() == 19,
        "recurring_schedule"@.len() == 18,
        "exception_dates"@.len() == 15,
        "session_templates"@.len() == 17,
        "selected_session_template"@.len() == 25,
        "blocklist_profiles"@.len() == 18,
        "wakatime"@.len() == 8,
        "wakatime_runtime"@.len() == 16,
        "categories"@.len() == 10,
        "selected_category"@.len() == 17,
        "sites"@.len() == 5,
        "allowlist_sites"@.len() == 15,
        "name"@.len() == 4,
        "schema_version"@.len() == 14,
        "classic"@.len() == 7,
        "deep_work"@.len() == 9,
        "deep-work"@.len() == 9,
        "custom"@.len() == 6,
        "basic"@.len() == 5,
        "standard"@.len() == 8,
        "advanced"@.len() == 8,
        "selected_profile"@ != "wakatime_runtime"@,
        "profile_automation"@ != "recurring_schedule"@,
        "profile_automation"@ != "blocklist_profiles"@,
        "recurring_schedule"@ != "blocklist_profiles"@,
        "deep_work"@ != "deep-work"@,
        "standard"@ != "advanced"@,
{
    reveal_strlit("selected_profile");
    reveal_strlit("profile_automation");
    reveal_strlit("weekday_profile_rules");
    reveal_strlit("automation_triggers");
    reveal_strlit("recurring_schedule");
    reveal_strlit("exception_dates");
    reveal_strlit("session_templates");
    reveal_strlit("selected_session_template");
    reveal_strlit("blocklist_profiles");
    reveal_strlit("wakatime");
    reveal_strlit("wakatime_runtime");
    reveal_strlit("categories");
    reveal_strlit("selected_category");
    reveal_strlit("sites");
    reveal_strlit("allowlist_sites");
    reveal_strlit("name");
    reveal_strlit("schema_version");
    reveal_strlit("classic");
    reveal_strlit("deep_work");
    reveal_strlit("deep-work");
    reveal_strlit("custom");
    reveal_strlit("basic");
    reveal_strlit("standard");
    reveal_strlit("advanced");
    assert("selected_profile"@[0] != "wakatime_runtime"@[0]);
    assert("profile_automation"@[0] != "recurring_schedule"@[0]);
    assert("profile_automation"@[0] != "blocklist_profiles"@[0]);
    assert("recurring_schedule"@[0] != "blocklist_profiles"@[0]);
    assert("deep_work"@[4] != "deep-work"@[4]);
    assert("standard"@[0] != "advanced"@[0]);
}

/// Removing a key leaves every other key's value as it was.
proof fn lemma_remove_other(t: Seq<(Seq<char>, TomlView)>, k: Seq<char>)
    ensures
        forall|k2: Seq<char>| k2 != k ==> #[trigger] table_get(table_remove(t, k), k2) == table_get(t, k2),
{
    assert forall|k2: Seq<char>| k2 != k implies #[trigger] table_get(table_remove(t, k), k2) == table_get(t, k2) by {
        lemma_table_get_after_remove(t, k, k2);
    }
}

/// Setting a key gives it the value set and leaves every other key's value
/// as it was.
proof fn lemma_insert_other(t: Seq<(Seq<char>, TomlView)>, k: Seq<char>, v: TomlView)
    ensures
        table_get(table_insert(t, k, v), k) == Some(v),
        forall|k2: Seq<char>| k2 != k ==> #[trigger] table_get(table_insert(t, k, v), k2) == table_get(t, k2),
{
    lemma_table_get_after_insert(t, k, v, k);
    assert forall|k2: Seq<char>| k2 != k implies #[trigger] table_get(table_insert(t, k, v), k2) == table_get(t, k2) by {
        lemma_table_get_after_insert(t, k, v, k2);
    }
}

/// In a table with unique keys, the value of any entry is the one its key finds.
proof fn lemma_unique_get(t: Seq<(Seq<char>, TomlView)>, j: int)
    requires
        keys_unique(t),
        0 <= j < t.len(),
    ensures
        table_get(t, t[j].0) == Some(t[j].1),
{
    lemma_key_index(t, t[j].0);
    let i = crate::config::toml_tree::key_index(t, t[j].0)->0;
    if i < j {
        assert(t[i].0 != t[j].0);
    }
}

pub open spec fn any_value() -> spec_fn(TomlView) -> bool {
    |v: TomlView| true
}

/// A table with unique keys whose `recurring_schedule`, where it is a table,
/// has unique keys too.
pub open spec fn schedule_unique(q: TomlView) -> bool {
    match q {
        TomlView::Table(qt) => keys_unique(qt) && (table_get(qt, "recurring_schedule"@) matches Some(
            TomlView::Table(s),
        ) ==> keys_unique(s)),
        _ => true,
    }
}

pub open spec fn schedule_unique_fn() -> spec_fn(TomlView) -> bool {
    |q: TomlView| schedule_unique(q)
}

/// Merging into a table with unique keys keeps them unique.
proof fn lemma_merge_entries_unique(et: Seq<(Seq<char>, TomlView)>, it: Seq<(Seq<char>, TomlView)>, n: nat)
    requires
        keys_unique(et),
    ensures
        keys_unique(spec_merge_entries(et, it, n)),
    decreases n,
{
    if n > 0 && n <= it.len() {
        lemma_merge_entries_unique(et, it, (n - 1) as nat);
        let prev = spec_merge_entries(et, it, (n - 1) as nat);
        let k = it[n - 1].0;
        match table_get(prev, k) {
            Some(ev) => lemma_insert_keeps(prev, k, spec_merge(ev, it[n - 1].1), any_value()),
            None => lemma_insert_keeps(prev, k, it[n - 1].1, any_value()),
        }
    }
}

/// Merging keeps a table's schedule with unique keys.
proof fn lemma_merge_entries_schedule(et: Seq<(Seq<char>, TomlView)>, it: Seq<(Seq<char>, TomlView)>, n: nat)
    requires
        schedule_unique(TomlView::Table(et)),
        schedule_unique(TomlView::Table(it)),
    ensures
        schedule_unique(TomlView::Table(spec_merge_entries(et, it, n))),
    decreases n,
{
    lemma_merge_entries_unique(et, it, n);
    if n > 0 && n <= it.len() {
        lemma_merge_entries_schedule(et, it, (n - 1) as nat);
        let prev = spec_merge_entries(et, it, (n - 1) as nat);
        let k = it[n - 1].0;
        let rs = "recurring_schedule"@;
        let nv = match table_get(prev, k) {
            Some(ev) => spec_merge(ev, it[n - 1].1),
            None => it[n - 1].1,
        };
        assert(spec_merge_entries(et, it, n) == table_insert(prev, k, nv));
        lemma_insert_other(prev, k, nv);
        if k == rs {
            match table_get(prev, k) {
                Some(ev) => {
                    if let (TomlView::Table(es), TomlView::Table(ist)) = (ev, it[n - 1].1) {
                        lemma_merge_entries_unique(es, ist, ist.len());
                    }
                },
                None => {
                    lemma_unique_get(it, n - 1);
                },
            }
        }
    }
}

/// Merging two tables whose schedules have unique keys gives such a table.
proof fn lemma_merge_schedule(e: TomlView, v: TomlView)
    requires
        schedule_unique(e),
        schedule_unique(v),
    ensures
        schedule_unique(spec_merge(e, v)),
{
    if let (TomlView::Table(et), TomlView::Table(it)) = (e, v) {
        lemma_merge_entries_schedule(et, it, it.len());
    }
}

/// Renaming a key keeps the keys unique and every preset's schedule with
/// unique keys; the old key is gone after, and a key absent before, other
/// than the new one, is absent after.
proof fn lemma_move_key(t: Seq<(Seq<char>, TomlView)>, old: Seq<char>, new: Seq<char>)
    requires
        keys_unique(t),
        values_ok(t, schedule_unique_fn()),
        old != new,
    ensures
        keys_unique(spec_move_key(t, old, new)),
        values_ok(spec_move_key(t, old, new), schedule_unique_fn()),
        table_get(spec_move_key(t, old, new), old) is None,
        forall|k3: Seq<char>|
            k3 != new && table_get(t, k3) is None ==> #[trigger] table_get(spec_move_key(t, old, new), k3) is None,
        table_get(t, old) is None ==> spec_move_key(t, old, new) == t,
{
    let f = schedule_unique_fn();
    match table_get(t, old) {
        None => {},
        Some(v) => {
            lemma_get_ok(t, old, f);
            let t1 = table_remove(t, old);
            lemma_remove_keeps(t, old, f);
            lemma_remove_other(t, old);
            let nv = match table_get(t1, new) {
                Some(e) => spec_merge(e, v),
                None => v,
            };
            if let Some(e) = table_get(t1, new) {
                lemma_get_ok(t1, new, f);
                lemma_merge_schedule(e, v);
            }
            assert(f(nv));
            lemma_insert_keeps(t1, new, nv, f);
            lemma_insert_other(t1, new, nv);
            assert(spec_move_key(t, old, new) == table_insert(t1, new, nv));
        },
    }
}

/// The preset table with its legacy keys renamed: keys still unique, every
/// preset's schedule with unique keys, and no legacy key left; a table with
/// no legacy key is kept as it is.
proof fn lemma_move_preset_keys(p: Seq<(Seq<char>, TomlView)>)
    requires
        keys_unique(p),
        values_ok(p, schedule_unique_fn()),
    ensures
        keys_unique(spec_move_preset_keys(p)),
        values_ok(spec_move_preset_keys(p), schedule_unique_fn()),
        legacy_presets_gone(spec_move_preset_keys(p)),
        legacy_presets_gone(p) ==> spec_move_preset_keys(p) == p,
{
    reveal(spec_move_preset_keys);
    lemma_key_names();
    let a = spec_move_key(p, "classic"@, "basic"@);
    lemma_move_key(p, "classic"@, "basic"@);
    let b = spec_move_key(a, "deep_work"@, "standard"@);
    lemma_move_key(a, "deep_work"@, "standard"@);
    let c = spec_move_key(b, "deep-work"@, "standard"@);
    lemma_move_key(b, "deep-work"@, "standard"@);
    lemma_move_key(c, "custom"@, "advanced"@);
}

/// No legacy preset key is left.
pub open spec fn legacy_presets_gone(p: Seq<(Seq<char>, TomlView)>) -> bool {
    &&& table_get(p, "classic"@) is None
    &&& table_get(p, "deep_work"@) is None
    &&& table_get(p, "deep-work"@) is None
    &&& table_get(p, "custom"@) is None
}

/// A table whose `recurring_schedule`, where it is a table, has no
/// `exception_dates`.
pub open spec fn schedule_clean(q: TomlView) -> bool {
    match q {
        TomlView::Table(qt) => table_get(qt, "recurring_schedule"@) matches Some(TomlView::Table(s)) ==> table_get(
            s,
            "exception_dates"@,
        ) is None,
        _ => true,
    }
}

pub open spec fn schedule_clean_fn() -> spec_fn(TomlView) -> bool {
    |q: TomlView| schedule_clean(q)
}

/// Stripping a table's schedule touches only `recurring_schedule`, leaves
/// it without `exception_dates` when its keys were unique, and changes
/// nothing in a table whose schedule has none.
proof fn lemma_strip_schedule(t: Seq<(Seq<char>, TomlView)>)
    ensures
        keys_unique(t) ==> keys_unique(spec_strip_schedule(t)),
        forall|k2: Seq<char>|
            k2 != "recurring_schedule"@ ==> #[trigger] table_get(spec_strip_schedule(t), k2) == table_get(t, k2),
        schedule_unique(TomlView::Table(t)) ==> schedule_clean(TomlView::Table(spec_strip_schedule(t))),
        schedule_clean(TomlView::Table(t)) ==> spec_strip_schedule(t) == t,
{
    let rs = "recurring_schedule"@;
    let ed = "exception_dates"@;
    match table_get(t, rs) {
        Some(TomlView::Table(s)) => {
            let nv = TomlView::Table(table_remove(s, ed));
            lemma_insert_keeps(t, rs, nv, any_value());
            lemma_insert_other(t, rs, nv);
            lemma_remove_keeps(s, ed, any_value());
        },
        _ => {},
    }
}

/// Stripping every preset's schedule keeps the preset keys in place, leaves
/// every preset's schedule without `exception_dates`, and changes nothing
/// when none has any.
proof fn lemma_strip_presets(pa: Seq<(Seq<char>, TomlView)>)
    ensures
        spec_strip_presets(pa).len() == pa.len(),
        forall|j: int| 0 <= j < pa.len() ==> (#[trigger] pa[j]).0 == spec_strip_presets(pa)[j].0,
        values_ok(pa, schedule_unique_fn()) ==> values_ok(spec_strip_presets(pa), schedule_clean_fn()),
        values_ok(pa, schedule_clean_fn()) ==> spec_strip_presets(pa) == pa,
{
    let r = spec_strip_presets(pa);
    assert forall|j: int| 0 <= j < pa.len() implies (#[trigger] pa[j]).0 == r[j].0 && r[j] == spec_strip_preset(
        pa[j],
    ) by {}
    if values_ok(pa, schedule_unique_fn()) {
        assert forall|j: int| 0 <= j < r.len() implies schedule_clean_fn()(#[trigger] r[j].1) by {
            assert(schedule_unique_fn()(pa[j].1));
            if let TomlView::Table(q) = pa[j].1 {
                lemma_strip_schedule(q);
            }
        }
    }
    if values_ok(pa, schedule_clean_fn()) {
        assert forall|j: int| 0 <= j < r.len() implies r[j] == pa[j] by {
            assert(schedule_clean_fn()(pa[j].1));
            if let TomlView::Table(q) = pa[j].1 {
                lemma_strip_schedule(q);
            }
        }
        assert(r =~= pa);
    }
}

/// A profile with neither `categories` nor `selected_category`.
pub open spec fn flat_profile(q: TomlView) -> bool {
    match q {
        TomlView::Table(qt) => table_get(qt, "categories"@) is None && table_get(qt, "selected_category"@) is None,
        _ => true,
    }
}

/// Flattening a profile whose keys are unique leaves it flat, and a flat
/// profile is flattened to itself.
proof fn lemma_flatten(q: TomlView)
    ensures
        (q matches TomlView::Table(qt) ==> keys_unique(qt)) ==> flat_profile(spec_flatten_profile(q)),
        flat_profile(q) ==> spec_flatten_profile(q) == q,
{
    reveal(spec_flatten_profile);
    lemma_key_names();
    if let TomlView::Table(t) = q {
        let cat = "categories"@;
        let sel = "selected_category"@;
        let r1 = table_remove(t, cat);
        let rest = table_remove(r1, sel);
        lemma_remove_keeps(t, cat, any_value());
        lemma_remove_keeps(r1, sel, any_value());
        lemma_remove_other(r1, sel);
        assert forall|a: TomlView, b: TomlView| keys_unique(t) implies flat_profile(
            TomlView::Table(table_insert(table_insert(rest, "sites"@, a), "allowlist_sites"@, b)),
        ) by {
            lemma_insert_other(rest, "sites"@, a);
            lemma_insert_other(table_insert(rest, "sites"@, a), "allowlist_sites"@, b);
        }
    }
}

/// The profiles are flattened and collapsed so that doing it again changes
/// nothing.
proof fn lemma_collapse_settles(ps: Seq<TomlView>)
    requires
        forall|i: int| 0 <= i < ps.len() ==> (#[trigger] ps[i] matches TomlView::Table(q) ==> keys_unique(q)),
    ensures
        ({
            let r = spec_collapse_profiles(ps.map_values(|p: TomlView| spec_flatten_profile(p)));
            spec_collapse_profiles(r.map_values(|p: TomlView| spec_flatten_profile(p))) == r
        }),
{
    let ps1 = ps.map_values(|p: TomlView| spec_flatten_profile(p));
    assert forall|i: int| 0 <= i < ps1.len() implies flat_profile(#[trigger] ps1[i]) by {
        lemma_flatten(ps[i]);
    }
    let r = spec_collapse_profiles(ps1);
    let pv = spec_toml_profiles(ps1);
    if pv.len() < 2 {
        assert forall|i: int| 0 <= i < ps1.len() implies spec_flatten_profile(#[trigger] ps1[i]) == ps1[i] by {
            lemma_flatten(ps1[i]);
        }
        assert(r.map_values(|p: TomlView| spec_flatten_profile(p)) =~= ps1);
    } else {
        let d = spec_profile_table(
            "Default"@,
            crate::config::blocklists::spec_collapsed_sites(Seq::empty(), pv),
            crate::config::blocklists::spec_profiles_allowlist(pv),
        );
        assert(r == seq![d]);
        lemma_profile_table_flat(
            "Default"@,
            crate::config::blocklists::spec_collapsed_sites(Seq::empty(), pv),
            crate::config::blocklists::spec_profiles_allowlist(pv),
        );
        lemma_flatten(d);
        assert(r.map_values(|p: TomlView| spec_flatten_profile(p)) =~= r);
        lemma_single_profile(d);
    }
}

/// A profile table built from its name and rule lists is flat.
proof fn lemma_profile_table_flat(name: Seq<char>, sites: Seq<Seq<char>>, allowlist: Seq<Seq<char>>)
    ensures
        flat_profile(spec_profile_table(name, sites, allowlist)),
{
    lemma_key_names();
    let t0 = Seq::<(Seq<char>, TomlView)>::empty();
    lemma_key_index(t0, "categories"@);
    lemma_key_index(t0, "selected_category"@);
    let t1 = table_insert(t0, "name"@, TomlView::String(name));
    lemma_insert_other(t0, "name"@, TomlView::String(name));
    let v2 = crate::config::migration::spec_string_values(sites);
    let t2 = table_insert(t1, "sites"@, v2);
    lemma_insert_other(t1, "sites"@, v2);
    let v3 = crate::config::migration::spec_string_values(allowlist);
    lemma_insert_other(t2, "allowlist_sites"@, v3);
}

/// One table is one profile.
proof fn lemma_single_profile(d: TomlView)
    requires
        d is Table,
    ensures
        spec_toml_profiles(seq![d]).len() == 1,
{
    assert(seq![d].drop_last() =~= Seq::<TomlView>::empty());
    assert(spec_toml_profiles(Seq::<TomlView>::empty()).len() == 0);
}

/// `k` is not a key of `t`.
pub open spec fn gone(t: Seq<(Seq<char>, TomlView)>, k: Seq<char>) -> bool {
    table_get(t, k) is None
}

/// The preset table, where there is one, holds each key once and every
/// preset's schedule holds each key once.
pub open spec fn presets_ready(t: Seq<(Seq<char>, TomlView)>) -> bool {
    table_get(t, "profile_automation"@) matches Some(TomlView::Table(p)) ==> keys_unique(p) && values_ok(
        p,
        schedule_unique_fn(),
    )
}

/// Every preset's schedule, where there is one, is without `exception_dates`.
pub open spec fn presets_clean(t: Seq<(Seq<char>, TomlView)>) -> bool {
    table_get(t, "profile_automation"@) matches Some(TomlView::Table(p)) ==> values_ok(p, schedule_clean_fn())
}

/// Every block-list profile table holds each key once.
pub open spec fn profiles_ready(t: Seq<(Seq<char>, TomlView)>) -> bool {
    table_get(t, "blocklist_profiles"@) matches Some(TomlView::Array(ps)) ==> forall|i: int|
        0 <= i < ps.len() ==> (#[trigger] ps[i] matches TomlView::Table(q) ==> keys_unique(q))
}

/// The block-list profiles, flattened and collapsed again, stay as they are.
pub open spec fn profiles_settled(t: Seq<(Seq<char>, TomlView)>) -> bool {
    table_get(t, "blocklist_profiles"@) matches Some(TomlView::Array(r)) ==> spec_collapse_profiles(
        r.map_values(|p: TomlView| spec_flatten_profile(p)),
    ) == r
}

/// The retired schedule shims are gone.
pub open spec fn shims_gone(t: Seq<(Seq<char>, TomlView)>) -> bool {
    gone(t, "weekday_profile_rules"@) && gone(t, "automation_triggers"@)
}

/// The retired session templates are gone.
pub open spec fn templates_gone(t: Seq<(Seq<char>, TomlView)>) -> bool {
    gone(t, "session_templates"@) && gone(t, "selected_session_template"@)
}

/// The retired WakaTime sections are gone.
pub open spec fn wakatime_gone(t: Seq<(Seq<char>, TomlView)>) -> bool {
    gone(t, "wakatime"@) && gone(t, "wakatime_runtime"@)
}

/// A document the cleanup passes can work on: a table with each key once,
/// whose preset table, schedule and block-list profiles hold each key once.
pub open spec fn cleanup_ready(v: TomlView) -> bool {
    match v {
        TomlView::Table(t) => keys_unique(t) && presets_ready(t) && schedule_unique(v) && profiles_ready(t),
        _ => true,
    }
}

/// The profile aliases are canonical: `selected_profile` names a canonical
/// token, or none at all, and no legacy preset key is left.
pub open spec fn profiles_canonical(t: Seq<(Seq<char>, TomlView)>) -> bool {
    &&& (table_get(t, "selected_profile"@) matches Some(TomlView::String(r)) ==> (spec_profile_token(r) is None
        || spec_profile_token(r) == Some(r)))
    &&& (table_get(t, "profile_automation"@) matches Some(TomlView::Table(p)) ==> legacy_presets_gone(p))
}

/// A document none of the cleanup passes changes.
pub open spec fn cleaned(v: TomlView) -> bool {
    match v {
        TomlView::Table(t) => {
            &&& profiles_canonical(t)
            &&& shims_gone(t)
            &&& presets_clean(t)
            &&& schedule_clean(v)
            &&& templates_gone(t)
            &&& profiles_settled(t)
            &&& wakatime_gone(t)
        },
        _ => true,
    }
}

/// Renaming absent keys changes nothing.
proof fn lemma_move_preset_keys_noop(p: Seq<(Seq<char>, TomlView)>)
    requires
        legacy_presets_gone(p),
    ensures
        spec_move_preset_keys(p) == p,
{
    reveal(spec_move_preset_keys);
}

/// Canonicalizing keeps a document ready, makes its profile aliases
/// canonical, and touches no key but `selected_profile` and
/// `profile_automation`.
pub proof fn lemma_canonicalize_ready(v: TomlView)
    requires
        cleanup_ready(v),
    ensures
        cleanup_ready(spec_canonicalize(v)),
        as_table(v) is None ==> spec_canonicalize(v) == v,
        as_table(v) matches Some(t) ==> {
            &&& as_table(spec_canonicalize(v)) is Some
            &&& profiles_canonical(as_table(spec_canonicalize(v))->0)
            &&& forall|k2: Seq<char>|
                k2 != "selected_profile"@ && k2 != "profile_automation"@ ==> #[trigger] table_get(
                    as_table(spec_canonicalize(v))->0,
                    k2,
                ) == table_get(t, k2)
        },
{
    lemma_key_names();
    if let TomlView::Table(t) = v {
        let sp = "selected_profile"@;
        let pa = "profile_automation"@;
        let c1 = spec_canonical_profile_field(t, sp);
        match table_get(t, sp) {
            Some(TomlView::String(raw)) => {
                lemma_profile_token_canonical(raw);
                match spec_profile_token(raw) {
                    Some(m) => {
                        lemma_insert_other(t, sp, TomlView::String(m));
                        lemma_insert_keeps(t, sp, TomlView::String(m), any_value());
                    },
                    None => {},
                }
            },
            _ => {},
        }
        assert(forall|k2: Seq<char>| k2 != sp ==> #[trigger] table_get(c1, k2) == table_get(t, k2));
        assert(keys_unique(c1));
        let t1 = spec_preset_keys(c1);
        match table_get(c1, pa) {
            Some(TomlView::Table(p)) => {
                lemma_move_preset_keys(p);
                lemma_insert_other(c1, pa, TomlView::Table(spec_move_preset_keys(p)));
                lemma_insert_keeps(c1, pa, TomlView::Table(spec_move_preset_keys(p)), any_value());
            },
            _ => {},
        }
        assert(spec_canonicalize(v) == TomlView::Table(t1));
        assert(forall|k2: Seq<char>| k2 != sp && k2 != pa ==> #[trigger] table_get(t1, k2) == table_get(t, k2));
        assert(keys_unique(t1));
        assert(table_get(t1, "recurring_schedule"@) == table_get(t, "recurring_schedule"@));
        assert(table_get(t1, "blocklist_profiles"@) == table_get(t, "blocklist_profiles"@));
    }
}

/// Removing the schedule shims from a canonical ready table.
proof fn lemma_shims_step(t1: Seq<(Seq<char>, TomlView)>)
    requires
        cleanup_ready(TomlView::Table(t1)),
        profiles_canonical(t1),
    ensures
        ({
            let t3 = table_remove(table_remove(t1, "weekday_profile_rules"@), "automation_triggers"@);
            &&& cleanup_ready(TomlView::Table(t3))
            &&& profiles_canonical(t3)
            &&& shims_gone(t3)
        }),
{
    lemma_key_names();
    let t2 = table_remove(t1, "weekday_profile_rules"@);
    lemma_remove_keeps(t1, "weekday_profile_rules"@, any_value());
    lemma_remove_other(t1, "weekday_profile_rules"@);
    lemma_remove_keeps(t2, "automation_triggers"@, any_value());
    lemma_remove_other(t2, "automation_triggers"@);
}

/// Stripping the schedules' exception dates.
proof fn lemma_exceptions_step(t3: Seq<(Seq<char>, TomlView)>)
    requires
        cleanup_ready(TomlView::Table(t3)),
        profiles_canonical(t3),
        shims_gone(t3),
    ensures
        as_table(spec_remove_exception_dates(TomlView::Table(t3))) matches Some(t4) && {
            &&& keys_unique(t4)
            &&& profiles_ready(t4)
            &&& profiles_canonical(t4)
            &&& shims_gone(t4)
            &&& presets_clean(t4)
            &&& schedule_clean(TomlView::Table(t4))
        },
{
    lemma_key_names();
    let pa = "profile_automation"@;
    let s1 = spec_strip_schedule(t3);
    lemma_strip_schedule(t3);
    match table_get(s1, pa) {
        Some(TomlView::Table(p)) => {
            let q = spec_strip_presets(p);
            lemma_strip_presets(p);
            lemma_same_keys(p, q, "classic"@);
            lemma_same_keys(p, q, "deep_work"@);
            lemma_same_keys(p, q, "deep-work"@);
            lemma_same_keys(p, q, "custom"@);
            lemma_insert_other(s1, pa, TomlView::Table(q));
            lemma_insert_keeps(s1, pa, TomlView::Table(q), any_value());
        },
        _ => {},
    }
}

/// Removing the session templates.
proof fn lemma_templates_step(t4: Seq<(Seq<char>, TomlView)>)
    requires
        keys_unique(t4),
        profiles_ready(t4),
        profiles_canonical(t4),
        shims_gone(t4),
        presets_clean(t4),
        schedule_clean(TomlView::Table(t4)),
    ensures
        ({
            let t5 = table_remove(table_remove(t4, "session_templates"@), "selected_session_template"@);
            &&& keys_unique(t5)
            &&& profiles_ready(t5)
            &&& profiles_canonical(t5)
            &&& shims_gone(t5)
            &&& presets_clean(t5)
            &&& schedule_clean(TomlView::Table(t5))
            &&& templates_gone(t5)
        }),
{
    lemma_key_names();
    let t45 = table_remove(t4, "session_templates"@);
    lemma_remove_keeps(t4, "session_templates"@, any_value());
    lemma_remove_other(t4, "session_templates"@);
    lemma_remove_keeps(t45, "selected_session_template"@, any_value());
    lemma_remove_other(t45, "selected_session_template"@);
}

/// Flattening and collapsing the block-list profiles.
proof fn lemma_categories_step(t5: Seq<(Seq<char>, TomlView)>)
    requires
        keys_unique(t5),
        profiles_ready(t5),
        profiles_canonical(t5),
        shims_gone(t5),
        presets_clean(t5),
        schedule_clean(TomlView::Table(t5)),
        templates_gone(t5),
    ensures
        as_table(spec_migrate_categories(TomlView::Table(t5))) matches Some(t6) && {
            &&& keys_unique(t6)
            &&& profiles_settled(t6)
            &&& profiles_canonical(t6)
            &&& shims_gone(t6)
            &&& presets_clean(t6)
            &&& schedule_clean(TomlView::Table(t6))
            &&& templates_gone(t6)
        },
{
    lemma_key_names();
    let bp = "blocklist_profiles"@;
    match table_get(t5, bp) {
        Some(TomlView::Array(ps)) => {
            let r = spec_collapse_profiles(ps.map_values(|p: TomlView| spec_flatten_profile(p)));
            lemma_collapse_settles(ps);
            lemma_insert_other(t5, bp, TomlView::Array(r));
            lemma_insert_keeps(t5, bp, TomlView::Array(r), any_value());
        },
        _ => {},
    }
}

/// Removing the WakaTime sections.
proof fn lemma_wakatime_step(t6: Seq<(Seq<char>, TomlView)>)
    requires
        keys_unique(t6),
        profiles_settled(t6),
        profiles_canonical(t6),
        shims_gone(t6),
        presets_clean(t6),
        schedule_clean(TomlView::Table(t6)),
        templates_gone(t6),
    ensures
        cleaned(spec_remove_wakatime(TomlView::Table(t6))),
{
    lemma_key_names();
    let t65 = table_remove(t6, "wakatime"@);
    lemma_remove_keeps(t6, "wakatime"@, any_value());
    lemma_remove_other(t6, "wakatime"@);
    lemma_remove_keeps(t65, "wakatime_runtime"@, any_value());
    lemma_remove_other(t65, "wakatime_runtime"@);
}

/// After one run of the cleanup passes over a ready document, none of them
/// changes it any more.
proof fn lemma_cleanup_cleans(w: TomlView, version: u32)
    requires
        cleanup_ready(w),
    ensures
        cleaned(spec_cleanup(w, version).0),
{
    let v1 = spec_canonicalize(w);
    lemma_canonicalize_ready(w);
    if let TomlView::Table(t) = w {
        let t1 = as_table(v1)->0;
        lemma_shims_step(t1);
        let t3 = table_remove(table_remove(t1, "weekday_profile_rules"@), "automation_triggers"@);
        assert(spec_remove_key(spec_remove_key(v1, "weekday_profile_rules"@), "automation_triggers"@)
            == TomlView::Table(t3));
        lemma_exceptions_step(t3);
        let v4 = spec_remove_exception_dates(TomlView::Table(t3));
        let t4 = as_table(v4)->0;
        lemma_templates_step(t4);
        let t5 = table_remove(table_remove(t4, "session_templates"@), "selected_session_template"@);
        assert(spec_remove_templates(v4) == TomlView::Table(t5));
        lemma_categories_step(t5);
        let v6 = spec_migrate_categories(TomlView::Table(t5));
        lemma_wakatime_step(as_table(v6)->0);
    }
}

/// A document none of the cleanup passes changes goes through them as it is,
/// with no step reported.
proof fn lemma_cleaned_settles(y: TomlView, version: u32)
    requires
        cleaned(y),
    ensures
        spec_cleanup(y, version) == (y, Seq::<StepView>::empty()),
{
    lemma_key_names();
    if let TomlView::Table(t) = y {
        let sp = "selected_profile"@;
        let pa = "profile_automation"@;
        match table_get(t, sp) {
            Some(TomlView::String(raw)) => match spec_profile_token(raw) {
                Some(m) => lemma_insert_keeps(t, sp, TomlView::String(m), any_value()),
                None => {},
            },
            _ => {},
        }
        assert(spec_canonical_profile_field(t, sp) == t);
        match table_get(t, pa) {
            Some(TomlView::Table(p)) => {
                lemma_move_preset_keys_noop(p);
                lemma_insert_keeps(t, pa, TomlView::Table(p), any_value());
            },
            _ => {},
        }
        assert(spec_canonicalize(y) == y);
        lemma_remove_keeps(t, "weekday_profile_rules"@, any_value());
        lemma_remove_keeps(t, "automation_triggers"@, any_value());
        lemma_strip_schedule(t);
        match table_get(t, pa) {
            Some(TomlView::Table(p)) => {
                lemma_strip_presets(p);
                lemma_insert_keeps(t, pa, TomlView::Table(p), any_value());
            },
            _ => {},
        }
        assert(spec_remove_exception_dates(y) == y);
        lemma_remove_keeps(t, "session_templates"@, any_value());
        lemma_remove_keeps(t, "selected_session_template"@, any_value());
        assert(spec_remove_templates(y) == y);
        match table_get(t, "blocklist_profiles"@) {
            Some(TomlView::Array(r)) => lemma_insert_keeps(t, "blocklist_profiles"@, TomlView::Array(r), any_value()),
            _ => {},
        }
        assert(spec_migrate_categories(y) == y);
        lemma_remove_keeps(t, "wakatime"@, any_value());
        lemma_remove_keeps(t, "wakatime_runtime"@, any_value());
        assert(spec_remove_wakatime(y) == y);
    }
    assert(spec_cleanup(y, version).1 =~= Seq::<StepView>::empty());
}

/// The cleanup passes are idempotent: run again over what they made of a
/// document whose tables hold each key once, they change nothing and
/// report no step.
pub proof fn lemma_cleanup_idempotent(w: TomlView, first: u32, second: u32)
    requires
        cleanup_ready(w),
    ensures
        spec_cleanup(spec_cleanup(w, first).0, second) == (spec_cleanup(w, first).0, Seq::<StepView>::empty()),
{
    lemma_cleanup_cleans(w, first);
    lemma_cleaned_settles(spec_cleanup(w, first).0, second);
}

/// Recording a schema version keeps a document ready for the cleanup.
proof fn lemma_schema_version_ready(t: Seq<(Seq<char>, TomlView)>, version: TomlView)
    requires
        cleanup_ready(TomlView::Table(t)),
    ensures
        cleanup_ready(TomlView::Table(table_insert(t, "schema_version"@, version))),
{
    lemma_key_names();
    lemma_insert_other(t, "schema_version"@, version);
    lemma_insert_keeps(t, "schema_version"@, version, any_value());
}

/// The schema steps keep a document ready for the cleanup.
proof fn lemma_schema_steps_ready(x: TomlView, sv: u32)
    requires
        cleanup_ready(x),
        spec_schema_version(x) == Some(sv),
        sv <= CURRENT_CONFIG_SCHEMA_VERSION,
        spec_schema_steps(x, sv) is Ok,
    ensures
        cleanup_ready(spec_schema_steps(x, sv)->Ok_0.0),
{
    reveal_with_fuel(spec_schema_steps, 3);
    let t = as_table(x)->0;
    if sv == 0 {
        lemma_schema_version_ready(t, TomlView::Integer(1));
        let n1 = TomlView::Table(table_insert(t, "schema_version"@, TomlView::Integer(1)));
        lemma_canonicalize_ready(n1);
        lemma_schema_version_ready(as_table(spec_canonicalize(n1))->0, TomlView::Integer(2));
        assert(spec_v1_to_v2(n1) == Some(
            TomlView::Table(table_insert(as_table(spec_canonicalize(n1))->0, "schema_version"@, TomlView::Integer(2))),
        ));
    } else if sv == 1 {
        lemma_canonicalize_ready(x);
        lemma_schema_version_ready(as_table(spec_canonicalize(x))->0, TomlView::Integer(2));
        assert(spec_v1_to_v2(x) == Some(
            TomlView::Table(table_insert(as_table(spec_canonicalize(x))->0, "schema_version"@, TomlView::Integer(2))),
        ));
    }
}

/// A migrated configuration is a fixed point of the migration: for a
/// document whose tables hold each key once, migrated to a supported
/// schema, migrating the result again gives it back unchanged, at the
/// current schema version, with no step reported.
pub proof fn lemma_migration_fixed_point(x: TomlView)
    requires
        cleanup_ready(x),
        spec_migrate_detailed(x) is Ok,
        spec_migrate_detailed(x)->Ok_0.1 <= CURRENT_CONFIG_SCHEMA_VERSION,
    ensures
        spec_migrate_detailed(spec_migrate_detailed(x)->Ok_0.0) == Ok::<(TomlView, u32, Seq<StepView>), Seq<char>>(
            (spec_migrate_detailed(x)->Ok_0.0, CURRENT_CONFIG_SCHEMA_VERSION, Seq::empty()),
        ),
{
    let sv = spec_schema_version(x)->0;
    lemma_schema_steps_ready(x, sv);
    let w = spec_schema_steps(x, sv)->Ok_0.0;
    lemma_migrated_config_declares_current_schema(x);
    lemma_cleanup_cleans(w, CURRENT_CONFIG_SCHEMA_VERSION);
    let y = spec_cleanup(w, CURRENT_CONFIG_SCHEMA_VERSION).0;
    assert(spec_migrate_detailed(x)->Ok_0.0 == y);
    lemma_cleaned_settles(y, CURRENT_CONFIG_SCHEMA_VERSION);
}

/// The value under a key of a tree whose tables hold each key once is such
/// a tree too.
proof fn lemma_unique_member(t: Seq<(Seq<char>, TomlView)>, k: Seq<char>)
    requires
        tables_unique(TomlView::Table(t)),
    ensures
        table_get(t, k) matches Some(v) ==> tables_unique(v),
{
    lemma_key_index(t, k);
    lemma_tables_unique_unfold(TomlView::Table(t));
    if let Some(i) = crate::config::toml_tree::key_index(t, k) {
        assert(tables_unique(t[i].1));
    }
}

/// A tree whose tables all hold each key once, as a parsed document's do,
/// is ready for the cleanup passes.
pub proof fn lemma_unique_tables_ready(v: TomlView)
    requires
        tables_unique(v),
    ensures
        cleanup_ready(v),
{
    lemma_key_names();
    lemma_tables_unique_unfold(v);
    if let TomlView::Table(t) = v {
        lemma_unique_member(t, "profile_automation"@);
        lemma_unique_member(t, "recurring_schedule"@);
        lemma_unique_member(t, "blocklist_profiles"@);
        if let Some(TomlView::Table(p)) = table_get(t, "profile_automation"@) {
            lemma_tables_unique_unfold(TomlView::Table(p));
            assert forall|j: int| 0 <= j < p.len() implies schedule_unique_fn()(#[trigger] p[j].1) by {
                assert(tables_unique(p[j].1));
                lemma_tables_unique_unfold(p[j].1);
                if let TomlView::Table(q) = p[j].1 {
                    lemma_unique_member(q, "recurring_schedule"@);
                }
            }
        }
        if let Some(TomlView::Array(ps)) = table_get(t, "blocklist_profiles"@) {
            lemma_tables_unique_unfold(TomlView::Array(ps));
            assert forall|i: int| 0 <= i < ps.len() implies (#[trigger] ps[i] matches TomlView::Table(q)
                ==> keys_unique(q)) by {
                assert(tables_unique(ps[i]));
                lemma_tables_unique_unfold(ps[i]);
            }
        }
    }
}

/// A parsed configuration, once migrated to a supported schema, migrates to
/// itself: again unchanged, at the current schema version, with no step
/// reported. (`parse_toml_document` gives trees whose tables hold each key
/// once.)
pub proof fn lemma_parsed_migration_fixed_point(x: TomlView)
    requires
        tables_unique(x),
        spec_migrate_detailed(x) is Ok,
        spec_migrate_detailed(x)->Ok_0.1 <= CURRENT_CONFIG_SCHEMA_VERSION,
    ensures
        spec_migrate_detailed(spec_migrate_detailed(x)->Ok_0.0) == Ok::<(TomlView, u32, Seq<StepView>), Seq<char>>(
            (spec_migrate_detailed(x)->Ok_0.0, CURRENT_CONFIG_SCHEMA_VERSION, Seq::empty()),
        ),
{
    lemma_unique_tables_ready(x);
    lemma_migration_fixed_point(x);
}

} // verus!
