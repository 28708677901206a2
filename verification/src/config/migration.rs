//! Migration of raw configuration documents to the current schema: the
//! schema-version steps, the passes that retire deprecated surfaces, and the
//! report of what was applied.
use crate::config::toml_tree::{
    entries_view, find_entry, insert_entry, key_index, lemma_array_view, lemma_key_index,
    clone_value, lemma_table_get_after_insert, lemma_table_get_after_remove, lemma_table_view, remove_entry,
    table_get, table_insert, table_remove, value_eq, TomlEntry,
    TomlValue, TomlView,
};
use crate::config::blocklists::{
    categories_view, flattened_profile_rules, normalize_blocklist_profiles, profiles_view,
    spec_collapsed_allowlist, spec_collapsed_sites, spec_normalized_categories, spec_profiles_allowlist,
    BlocklistCategoryConfig, BlocklistProfileConfig, ProfileView,
};
use crate::config::{canonical_profile_id_token, spec_profile_token, strings_view, CURRENT_CONFIG_SCHEMA_VERSION};
use crate::text::{concat, decimal, owned, str_eq, u64_to_string};
use vstd::prelude::*;

verus! {

/// Schema version of configuration files written before versions were recorded.
pub const LEGACY_CONFIG_SCHEMA_VERSION: u32 = 0;

/// The entries of a table view.
pub open spec fn as_table(v: TomlView) -> Option<Seq<(Seq<char>, TomlView)>> {
    match v {
        TomlView::Table(t) => Some(t),
        _ => None,
    }
}

/// The schema version a document declares: `0` when it declares none, and
/// nothing when the document is not a table or the version is not a `u32`.
pub open spec fn spec_schema_version(v: TomlView) -> Option<u32> {
    match as_table(v) {
        Some(t) => match table_get(t, "schema_version"@) {
            None => Some(LEGACY_CONFIG_SCHEMA_VERSION),
            Some(TomlView::Integer(i)) => if 0 <= i <= u32::MAX {
                Some(i as u32)
            } else {
                None
            },
            Some(_) => None,
        },
        None => None,
    }
}

/// Reads the declared schema version.
pub fn detect_config_schema_version(config_toml: &TomlValue) -> (r: Option<u32>)
    ensures
        r == spec_schema_version(config_toml@),
{
    match config_toml {
        TomlValue::Table(es) => {
            proof {
                lemma_table_view(*es);
                lemma_key_index(entries_view(es@), "schema_version"@);
            }
            match find_entry(es, "schema_version") {
                None => Some(LEGACY_CONFIG_SCHEMA_VERSION),
                Some(i) => match &es[i].value {
                    TomlValue::Integer(raw) => {
                        if 0 <= *raw && *raw <= u32::MAX as i64 {
                            Some(*raw as u32)
                        } else {
                            None
                        }
                    },
                    _ => None,
                },
            }
        },
        _ => None,
    }
}

/// The table with key `k` removed.
pub open spec fn spec_remove_key(v: TomlView, k: Seq<char>) -> TomlView {
    match as_table(v) {
        Some(t) => TomlView::Table(table_remove(t, k)),
        None => v,
    }
}

/// Removes a top-level key.
pub fn remove_table_key(v: TomlValue, key: &str) -> (r: TomlValue)
    ensures
        r@ == spec_remove_key(v@, key@),
{
    match v {
        TomlValue::Table(es) => {
            proof {
                lemma_table_view(es);
            }
            let (es, _) = remove_entry(es, key);
            proof {
                lemma_table_view(es);
            }
            TomlValue::Table(es)
        },
        other => other,
    }
}

/// Drops retired weekday profile rules.
pub fn remove_weekday_profile_rules(config_toml: TomlValue) -> (r: TomlValue)
    ensures
        r@ == spec_remove_key(config_toml@, "weekday_profile_rules"@),
{
    remove_table_key(config_toml, "weekday_profile_rules")
}

/// Drops retired automation trigger rules.
pub fn remove_automation_triggers(config_toml: TomlValue) -> (r: TomlValue)
    ensures
        r@ == spec_remove_key(config_toml@, "automation_triggers"@),
{
    remove_table_key(config_toml, "automation_triggers")
}

/// Drops retired session template persistence.
pub fn remove_session_templates(config_toml: TomlValue) -> (r: TomlValue)
    ensures
        r@ == spec_remove_key(spec_remove_key(config_toml@, "session_templates"@), "selected_session_template"@),
{
    let v = remove_table_key(config_toml, "session_templates");
    remove_table_key(v, "selected_session_template")
}

/// A table with `k` set to `value`.
pub open spec fn spec_set_key(v: TomlView, k: Seq<char>, value: TomlView) -> Option<TomlView> {
    match as_table(v) {
        Some(t) => Some(TomlView::Table(table_insert(t, k, value))),
        None => None,
    }
}

/// Sets a top-level key of a table document; `None` when the document is not a table.
pub fn set_table_key(v: TomlValue, key: &str, value: TomlValue) -> (r: Option<TomlValue>)
    ensures
        match r {
            Some(x) => spec_set_key(v@, key@, value@) == Some(x@),
            None => spec_set_key(v@, key@, value@) is None,
        },
{
    match v {
        TomlValue::Table(es) => {
            proof {
                lemma_table_view(es);
            }
            let es = insert_entry(es, key, value);
            proof {
                lemma_table_view(es);
            }
            Some(TomlValue::Table(es))
        },
        _ => None,
    }
}

/// The first schema step: records schema version 1.
pub fn migrate_config_toml_legacy_to_v1(config_toml: TomlValue) -> (r: Option<TomlValue>)
    ensures
        match r {
            Some(x) => spec_set_key(config_toml@, "schema_version"@, TomlView::Integer(1)) == Some(x@),
            None => spec_set_key(config_toml@, "schema_version"@, TomlView::Integer(1)) is None,
        },
{
    set_table_key(config_toml, "schema_version", TomlValue::Integer(1))
}

/// `selected_profile`-style field rewritten to its canonical profile token.
pub open spec fn spec_canonical_profile_field(t: Seq<(Seq<char>, TomlView)>, field: Seq<char>) -> Seq<(Seq<char>, TomlView)> {
    match table_get(t, field) {
        Some(TomlView::String(raw)) => match spec_profile_token(raw) {
            Some(mapped) => table_insert(t, field, TomlView::String(mapped)),
            None => t,
        },
        _ => t,
    }
}

/// Rewrites a profile value stored in a table field to its canonical token.
pub fn migrate_profile_value_in_table(es: Vec<TomlEntry>, field_key: &str) -> (r: Vec<TomlEntry>)
    ensures
        entries_view(r@) == spec_canonical_profile_field(entries_view(es@), field_key@),
{
    let ghost t = entries_view(es@);
    proof {
        lemma_key_index(t, field_key@);
    }
    let mapped = match find_entry(&es, field_key) {
        Some(i) => match &es[i].value {
            TomlValue::String(raw) => {
                proof {
                    lemma_table_view(es);
                }
                canonical_profile_id_token(raw.as_str())
            },
            _ => None,
        },
        None => None,
    };
    match mapped {
        Some(m) => insert_entry(es, field_key, TomlValue::String(owned(m))),
        None => es,
    }
}

/// Describes a schema step for reports.
pub open spec fn spec_step_summary(from: u32, to: u32) -> Seq<char> {
    if from == 0 && to == 1 {
        "Add explicit config schema version marker."@
    } else if from == 1 && to == 2 {
        "Rename legacy profile tokens and profile_automation preset keys to canonical values."@
    } else {
        "Migrate config schema from v"@ + decimal(from as nat) + " to v"@ + decimal(to as nat) + "."@
    }
}

/// The report summary of a schema step.
pub fn migration_step_summary(from_schema_version: u32, to_schema_version: u32) -> (r: String)
    ensures
        r@ == spec_step_summary(from_schema_version, to_schema_version),
{
    if from_schema_version == 0 && to_schema_version == 1 {
        owned("Add explicit config schema version marker.")
    } else if from_schema_version == 1 && to_schema_version == 2 {
        owned("Rename legacy profile tokens and profile_automation preset keys to canonical values.")
    } else {
        let mut r = owned("Migrate config schema from v");
        let from = u64_to_string(from_schema_version as u64);
        r.append(from.as_str());
        r.append(" to v");
        let to = u64_to_string(to_schema_version as u64);
        r.append(to.as_str());
        r.append(".");
        r
    }
}

/// `existing` with the entries of `incoming` merged in, existing values
/// winning: both must be tables, nested tables merge the same way, and a
/// key only `incoming` has is added.
pub open spec fn spec_merge(existing: TomlView, incoming: TomlView) -> TomlView
    decreases incoming, 0nat,
{
    match existing {
        TomlView::Table(et) => match incoming {
            TomlView::Table(it) => TomlView::Table(spec_merge_entries(et, it, it.len())),
            _ => existing,
        },
        _ => existing,
    }
}

/// The first `n` entries of `it` merged into `et`, in order.
pub open spec fn spec_merge_entries(
    et: Seq<(Seq<char>, TomlView)>,
    it: Seq<(Seq<char>, TomlView)>,
    n: nat,
) -> Seq<(Seq<char>, TomlView)>
    decreases it, n,
{
    if n == 0 || n > it.len() {
        et
    } else {
        let prev = spec_merge_entries(et, it, (n - 1) as nat);
        let k = it[n - 1].0;
        proof {
            assert(decreases_to!(it => it[n - 1]));
        }
        match table_get(prev, k) {
            Some(ev) => table_insert(prev, k, spec_merge(ev, it[n - 1].1)),
            None => table_insert(prev, k, it[n - 1].1),
        }
    }
}

/// Merges `incoming` into `existing` without overwriting existing values.
#[verifier::rlimit(40)]
pub fn merge_toml_value_prefer_existing(existing: TomlValue, incoming: TomlValue) -> (r: TomlValue)
    ensures
        r@ == spec_merge(existing@, incoming@),
    decreases incoming,
{
    let ghost inc = incoming;
    match existing {
        TomlValue::Table(et) => match incoming {
            TomlValue::Table(it) => {
                let ghost orig = it;
                proof {
                    lemma_table_view(et);
                    lemma_table_view(it);
                }
                let ghost ev0 = entries_view(et@);
                let ghost iv = entries_view(it@);
                let mut et = et;
                let mut rest = it;
                let mut k: usize = 0;
                let total = rest.len();
                assert(rest@ == orig@.subrange(0, orig@.len() as int));
                while rest.len() > 0
                    invariant
                        total == orig@.len(),
                        inc == incoming,
                        k + rest@.len() == orig@.len(),
                        rest@ == orig@.subrange(k as int, orig@.len() as int),
                        iv == entries_view(orig@),
                        inc == TomlValue::Table(orig),
                        entries_view(et@) == spec_merge_entries(ev0, iv, k as nat),
                    decreases rest@.len(),
                {
                    let ghost before_rest = rest@;
                    let e = rest.remove(0);
                    assert(e == orig@[k as int]);
                    let ghost prev = entries_view(et@);
                    let TomlEntry { key, value } = e;
                    proof {
                        vstd::std_specs::vec::axiom_vec_index_decreases(orig, k as int);
                        assert(decreases_to!(inc => inc->Table_0));
                        assert(inc->Table_0 == orig);
                        assert(decreases_to!(orig => orig[k as int]));
                        assert(decreases_to!(orig[k as int] => orig[k as int].value));
                        assert(orig[k as int].value == value);
                        assert(decreases_to!(inc => value));
                        lemma_key_index(prev, key@);
                        assert(iv[k as int] == (key@, value@));
                    }
                    match find_entry(&et, key.as_str()) {
                        Some(i) => {
                            let ghost before = et@;
                            let old = et.remove(i);
                            assert(old == before[i as int]);
                            let merged = merge_toml_value_prefer_existing(old.value, value);
                            let entry = TomlEntry { key: old.key, value: merged };
                            let ghost ne = entry;
                            et.insert(i, entry);
                            assert(et@ =~= before.update(i as int, ne));
                            assert(entries_view(et@) =~= table_insert(prev, key@, spec_merge(prev[i as int].1, value@)));
                        },
                        None => {
                            et = insert_entry(et, key.as_str(), value);
                        },
                    }
                    assert(rest@ =~= orig@.subrange(k + 1, orig@.len() as int));
                    k = k + 1;
                }
                proof {
                    lemma_table_view(et);
                }
                TomlValue::Table(et)
            },
            _ => {
                proof {
                    lemma_table_view(et);
                }
                TomlValue::Table(et)
            },
        },
        other => other,
    }
}

/// A key renamed: its value moves to `new`, merging into a value already there.
pub open spec fn spec_move_key(t: Seq<(Seq<char>, TomlView)>, old: Seq<char>, new: Seq<char>) -> Seq<(Seq<char>, TomlView)> {
    match table_get(t, old) {
        None => t,
        Some(v) => {
            let t1 = table_remove(t, old);
            match table_get(t1, new) {
                Some(e) => table_insert(t1, new, spec_merge(e, v)),
                None => table_insert(t1, new, v),
            }
        },
    }
}

/// Renames a table key, keeping an existing destination's values.
#[verifier::rlimit(40)]
pub fn migrate_table_key(es: Vec<TomlEntry>, old_key: &str, new_key: &str) -> (r: Vec<TomlEntry>)
    ensures
        entries_view(r@) == spec_move_key(entries_view(es@), old_key@, new_key@),
{
    let (es, removed) = remove_entry(es, old_key);
    match removed {
        None => es,
        Some(value) => {
            let ghost t1 = entries_view(es@);
            let ghost moved = value@;
            proof {
                lemma_key_index(t1, new_key@);
            }
            match find_entry(&es, new_key) {
                Some(i) => {
                    let mut es = es;
                    let ghost before = es@;
                    let old = es.remove(i);
                    assert(old == before[i as int]);
                    let merged = merge_toml_value_prefer_existing(old.value, value);
                    let entry = TomlEntry { key: old.key, value: merged };
                    let ghost ne = entry;
                    es.insert(i, entry);
                    assert(es@ =~= before.update(i as int, ne));
                    assert(entries_view(es@) =~= table_insert(t1, new_key@, spec_merge(t1[i as int].1, moved)));
                    es
                },
                None => insert_entry(es, new_key, value),
            }
        },
    }
}

/// The legacy preset keys of `[profile_automation]` renamed to canonical ones.
#[verifier::opaque]
pub open spec fn spec_move_preset_keys(pa: Seq<(Seq<char>, TomlView)>) -> Seq<(Seq<char>, TomlView)> {
    let a = spec_move_key(pa, "classic"@, "basic"@);
    let b = spec_move_key(a, "deep_work"@, "standard"@);
    let c = spec_move_key(b, "deep-work"@, "standard"@);
    spec_move_key(c, "custom"@, "advanced"@)
}

/// The table with the preset keys under `[profile_automation]` canonicalized.
pub open spec fn spec_preset_keys(t: Seq<(Seq<char>, TomlView)>) -> Seq<(Seq<char>, TomlView)> {
    match table_get(t, "profile_automation"@) {
        Some(TomlView::Table(pa)) => table_insert(t, "profile_automation"@, TomlView::Table(spec_move_preset_keys(pa))),
        _ => t,
    }
}

fn move_preset_keys(pa: Vec<TomlEntry>) -> (r: Vec<TomlEntry>)
    ensures
        entries_view(r@) == spec_move_preset_keys(entries_view(pa@)),
{
    reveal(spec_move_preset_keys);
    let a = migrate_table_key(pa, "classic", "basic");
    let b = migrate_table_key(a, "deep_work", "standard");
    let c = migrate_table_key(b, "deep-work", "standard");
    migrate_table_key(c, "custom", "advanced")
}

/// Canonicalizes legacy preset keys under `[profile_automation]`.
pub fn migrate_profile_automation_preset_keys(es: Vec<TomlEntry>) -> (r: Vec<TomlEntry>)
    ensures
        entries_view(r@) == spec_preset_keys(entries_view(es@)),
{
    let ghost t = entries_view(es@);
    proof {
        lemma_key_index(t, "profile_automation"@);
    }
    match find_entry(&es, "profile_automation") {
        Some(i) => {
            let mut es = es;
            let ghost before = es@;
            let entry = es.remove(i);
            assert(entry == before[i as int]);
            let TomlEntry { key, value } = entry;
            match value {
                TomlValue::Table(pa) => {
                    proof {
                        lemma_table_view(pa);
                    }
                    let pa = move_preset_keys(pa);
                    proof {
                        lemma_table_view(pa);
                    }
                    let ne = TomlEntry { key, value: TomlValue::Table(pa) };
                    let ghost g = ne;
                    es.insert(i, ne);
                    assert(es@ =~= before.update(i as int, g));
                    assert(entries_view(es@) =~= table_insert(t, "profile_automation"@, g.value@));
                    es
                },
                other => {
                    let ne = TomlEntry { key, value: other };
                    let ghost g = ne;
                    es.insert(i, ne);
                    assert(es@ =~= before);
                    es
                },
            }
        },
        None => es,
    }
}

/// Profile aliases canonicalized: `selected_profile` and the preset keys.
pub open spec fn spec_canonicalize(v: TomlView) -> TomlView {
    match as_table(v) {
        Some(t) => TomlView::Table(spec_preset_keys(spec_canonical_profile_field(t, "selected_profile"@))),
        None => v,
    }
}

/// Rewrites legacy profile aliases.
pub fn canonicalize_legacy_profile_aliases(config_toml: TomlValue) -> (r: TomlValue)
    ensures
        r@ == spec_canonicalize(config_toml@),
{
    match config_toml {
        TomlValue::Table(es) => {
            proof {
                lemma_table_view(es);
            }
            let es = migrate_profile_value_in_table(es, "selected_profile");
            let es = migrate_profile_automation_preset_keys(es);
            proof {
                lemma_table_view(es);
            }
            TomlValue::Table(es)
        },
        other => other,
    }
}

/// The second schema step: canonical profile tokens and preset keys, then
/// schema version 2.
pub open spec fn spec_v1_to_v2(v: TomlView) -> Option<TomlView> {
    match spec_canonicalize(v) {
        TomlView::Table(t) => if as_table(v) is Some {
            Some(TomlView::Table(table_insert(t, "schema_version"@, TomlView::Integer(2))))
        } else {
            None
        },
        _ => None,
    }
}

pub fn migrate_config_toml_v1_to_v2(config_toml: TomlValue) -> (r: Option<TomlValue>)
    ensures
        match r {
            Some(x) => spec_v1_to_v2(config_toml@) == Some(x@),
            None => spec_v1_to_v2(config_toml@) is None,
        },
{
    match config_toml {
        TomlValue::Table(es) => {
            proof {
                lemma_table_view(es);
            }
            let es = migrate_profile_value_in_table(es, "selected_profile");
            let es = migrate_profile_automation_preset_keys(es);
            let es = insert_entry(es, "schema_version", TomlValue::Integer(CURRENT_CONFIG_SCHEMA_VERSION as i64));
            proof {
                lemma_table_view(es);
            }
            Some(TomlValue::Table(es))
        },
        _ => None,
    }
}

/// One schema step from `from` to `from + 1`, when there is one.
pub open spec fn spec_schema_step(v: TomlView, from: u32) -> Option<TomlView> {
    if from == LEGACY_CONFIG_SCHEMA_VERSION {
        spec_set_key(v, "schema_version"@, TomlView::Integer(1))
    } else if from == 1 {
        spec_v1_to_v2(v)
    } else {
        None
    }
}

/// Applies one schema step.
pub fn migrate_config_toml_step(config_toml: TomlValue, from_schema_version: u32) -> (r: Option<TomlValue>)
    ensures
        match r {
            Some(x) => spec_schema_step(config_toml@, from_schema_version) == Some(x@),
            None => spec_schema_step(config_toml@, from_schema_version) is None,
        },
{
    if from_schema_version == LEGACY_CONFIG_SCHEMA_VERSION {
        migrate_config_toml_legacy_to_v1(config_toml)
    } else if from_schema_version == 1 {
        migrate_config_toml_v1_to_v2(config_toml)
    } else {
        None
    }
}

/// `[recurring_schedule]` of a table without its `exception_dates`.
pub open spec fn spec_strip_schedule(t: Seq<(Seq<char>, TomlView)>) -> Seq<(Seq<char>, TomlView)> {
    match table_get(t, "recurring_schedule"@) {
        Some(TomlView::Table(s)) => table_insert(
            t,
            "recurring_schedule"@,
            TomlView::Table(table_remove(s, "exception_dates"@)),
        ),
        _ => t,
    }
}

fn strip_schedule(es: Vec<TomlEntry>) -> (r: Vec<TomlEntry>)
    ensures
        entries_view(r@) == spec_strip_schedule(entries_view(es@)),
{
    let ghost t = entries_view(es@);
    proof {
        lemma_key_index(t, "recurring_schedule"@);
    }
    match find_entry(&es, "recurring_schedule") {
        Some(i) => {
            let mut es = es;
            let ghost before = es@;
            let entry = es.remove(i);
            assert(entry == before[i as int]);
            let TomlEntry { key, value } = entry;
            match value {
                TomlValue::Table(s) => {
                    proof {
                        lemma_table_view(s);
                    }
                    let (s, _) = remove_entry(s, "exception_dates");
                    proof {
                        lemma_table_view(s);
                    }
                    let ne = TomlEntry { key, value: TomlValue::Table(s) };
                    let ghost g = ne;
                    es.insert(i, ne);
                    assert(es@ =~= before.update(i as int, g));
                    assert(entries_view(es@) =~= table_insert(t, "recurring_schedule"@, g.value@));
                    es
                },
                other => {
                    let ne = TomlEntry { key, value: other };
                    es.insert(i, ne);
                    assert(es@ =~= before);
                    es
                },
            }
        },
        None => es,
    }
}

/// A preset entry whose schedule lost its `exception_dates`.
pub open spec fn spec_strip_preset(e: (Seq<char>, TomlView)) -> (Seq<char>, TomlView) {
    match e.1 {
        TomlView::Table(p) => (e.0, TomlView::Table(spec_strip_schedule(p))),
        _ => e,
    }
}

/// Each preset's schedule without `exception_dates`.
pub open spec fn spec_strip_presets(pa: Seq<(Seq<char>, TomlView)>) -> Seq<(Seq<char>, TomlView)> {
    pa.map_values(|e: (Seq<char>, TomlView)| spec_strip_preset(e))
}

fn strip_preset(e: TomlEntry) -> (r: TomlEntry)
    ensures
        (r.key@, r.value@) == spec_strip_preset((e.key@, e.value@)),
{
    let TomlEntry { key, value } = e;
    match value {
        TomlValue::Table(p) => {
            proof {
                lemma_table_view(p);
            }
            let p = strip_schedule(p);
            proof {
                lemma_table_view(p);
            }
            TomlEntry { key, value: TomlValue::Table(p) }
        },
        other => TomlEntry { key, value: other },
    }
}

fn strip_presets(pa: Vec<TomlEntry>) -> (r: Vec<TomlEntry>)
    ensures
        entries_view(r@) == spec_strip_presets(entries_view(pa@)),
{
    let ghost t = entries_view(pa@);
    let ghost orig = pa@;
    let mut rest = pa;
    let mut out: Vec<TomlEntry> = Vec::new();
    let mut k: usize = 0;
    let total = rest.len();
    while rest.len() > 0
        invariant
            total == orig.len(),
            k + rest@.len() == orig.len(),
            rest@ == orig.subrange(k as int, orig.len() as int),
            t == entries_view(orig),
            entries_view(out@) == spec_strip_presets(t).subrange(0, k as int),
        decreases rest@.len(),
    {
        let e = rest.remove(0);
        assert(e == orig[k as int]);
        assert(t[k as int] == (e.key@, e.value@));
        let ne = strip_preset(e);
        let ghost g = ne;
        let ghost prev = out@;
        out.push(ne);
        assert(out@ == prev.push(g));
        assert(entries_view(out@) =~= entries_view(prev).push((g.key@, g.value@)));
        assert(spec_strip_presets(t)[k as int] == spec_strip_preset(t[k as int]));
        assert(entries_view(out@) =~= spec_strip_presets(t).subrange(0, k + 1));
        assert(rest@ =~= orig.subrange(k + 1, orig.len() as int));
        k = k + 1;
    }
    assert(spec_strip_presets(t).subrange(0, k as int) =~= spec_strip_presets(t));
    out
}

/// Every schedule without `exception_dates`: the top-level one, then each preset's.
pub open spec fn spec_remove_exception_dates(v: TomlView) -> TomlView {
    match as_table(v) {
        Some(t) => {
            let t1 = spec_strip_schedule(t);
            match table_get(t1, "profile_automation"@) {
                Some(TomlView::Table(pa)) => TomlView::Table(
                    table_insert(t1, "profile_automation"@, TomlView::Table(spec_strip_presets(pa))),
                ),
                _ => TomlView::Table(t1),
            }
        },
        None => v,
    }
}

/// Removes retired schedule exception dates.
#[verifier::rlimit(40)]
pub fn remove_schedule_exception_dates(config_toml: TomlValue) -> (r: TomlValue)
    ensures
        r@ == spec_remove_exception_dates(config_toml@),
{
    match config_toml {
        TomlValue::Table(es) => {
            proof {
                lemma_table_view(es);
            }
            let es = strip_schedule(es);
            let ghost t1 = entries_view(es@);
            proof {
                lemma_key_index(t1, "profile_automation"@);
            }
            match find_entry(&es, "profile_automation") {
                Some(i) => {
                    let mut es = es;
                    let ghost before = es@;
                    let entry = es.remove(i);
                    assert(entry == before[i as int]);
                    let TomlEntry { key, value } = entry;
                    match value {
                        TomlValue::Table(pa) => {
                            proof {
                                lemma_table_view(pa);
                            }
                            let pa = strip_presets(pa);
                            proof {
                                lemma_table_view(pa);
                            }
                            let ne = TomlEntry { key, value: TomlValue::Table(pa) };
                            let ghost g = ne;
                            es.insert(i, ne);
                            assert(es@ =~= before.update(i as int, g));
                            assert(entries_view(es@) =~= table_insert(t1, "profile_automation"@, g.value@));
                            proof {
                                lemma_table_view(es);
                            }
                            TomlValue::Table(es)
                        },
                        other => {
                            let ne = TomlEntry { key, value: other };
                            es.insert(i, ne);
                            assert(es@ =~= before);
                            proof {
                                lemma_table_view(es);
                            }
                            TomlValue::Table(es)
                        },
                    }
                },
                None => {
                    proof {
                        lemma_table_view(es);
                    }
                    TomlValue::Table(es)
                },
            }
        },
        other => other,
    }
}

/// The texts among `items`, in order.
pub open spec fn spec_string_items(items: Seq<TomlView>) -> Seq<Seq<char>>
    decreases items.len(),
{
    if items.len() == 0 {
        Seq::empty()
    } else {
        let prev = spec_string_items(items.drop_last());
        match items.last() {
            TomlView::String(s) => prev.push(s),
            _ => prev,
        }
    }
}

/// The texts of an array value; nothing for a value that is absent or no array.
pub open spec fn spec_string_array(v: Option<TomlView>) -> Seq<Seq<char>> {
    match v {
        Some(TomlView::Array(items)) => spec_string_items(items),
        _ => Seq::empty(),
    }
}

/// An array of texts.
pub open spec fn spec_string_values(values: Seq<Seq<char>>) -> TomlView {
    TomlView::Array(values.map_values(|s: Seq<char>| TomlView::String(s)))
}

/// A category read from a TOML table: its `name` text (`General` when there
/// is none) and its rule lists; nothing for a value that is no table.
pub open spec fn spec_toml_category(c: TomlView) -> Option<ProfileView> {
    match c {
        TomlView::Table(t) => Some(
            ProfileView {
                name: match table_get(t, "name"@) {
                    Some(TomlView::String(s)) => s,
                    _ => "General"@,
                },
                sites: spec_string_array(table_get(t, "sites"@)),
                allowlist_sites: spec_string_array(table_get(t, "allowlist_sites"@)),
            },
        ),
        _ => None,
    }
}

/// The categories among `cats`, in order.
pub open spec fn spec_toml_categories(cats: Seq<TomlView>) -> Seq<ProfileView>
    decreases cats.len(),
{
    if cats.len() == 0 {
        Seq::empty()
    } else {
        let prev = spec_toml_categories(cats.drop_last());
        match spec_toml_category(cats.last()) {
            Some(c) => prev.push(c),
            None => prev,
        }
    }
}

/// A profile table with its categories flattened into its own rule lists;
/// `categories` and `selected_category` are dropped in any case.
#[verifier::opaque]
pub open spec fn spec_flatten_profile(p: TomlView) -> TomlView {
    match p {
        TomlView::Table(t) => {
            let legacy_sites = spec_string_array(table_get(t, "sites"@));
            let legacy_allowlist = spec_string_array(table_get(t, "allowlist_sites"@));
            let rest = table_remove(table_remove(t, "categories"@), "selected_category"@);
            match table_get(t, "categories"@) {
                Some(TomlView::Array(cs)) => if cs.len() == 0 {
                    TomlView::Table(rest)
                } else {
                    let normalized = spec_normalized_categories(spec_toml_categories(cs), legacy_sites, legacy_allowlist);
                    TomlView::Table(
                        table_insert(
                            table_insert(rest, "sites"@, spec_string_values(spec_collapsed_sites(Seq::empty(), normalized))),
                            "allowlist_sites"@,
                            spec_string_values(spec_collapsed_allowlist(normalized)),
                        ),
                    )
                },
                _ => TomlView::Table(rest),
            }
        },
        _ => p,
    }
}

/// A profile read from a TOML table: its `name` text (`Default` when there
/// is none) and its rule lists; nothing for a value that is no table.
pub open spec fn spec_toml_profile(p: TomlView) -> Option<ProfileView> {
    match p {
        TomlView::Table(t) => Some(
            ProfileView {
                name: match table_get(t, "name"@) {
                    Some(TomlView::String(s)) => s,
                    _ => "Default"@,
                },
                sites: spec_string_array(table_get(t, "sites"@)),
                allowlist_sites: spec_string_array(table_get(t, "allowlist_sites"@)),
            },
        ),
        _ => None,
    }
}

/// The profiles among `ps`, in order.
pub open spec fn spec_toml_profiles(ps: Seq<TomlView>) -> Seq<ProfileView>
    decreases ps.len(),
{
    if ps.len() == 0 {
        Seq::empty()
    } else {
        let prev = spec_toml_profiles(ps.drop_last());
        match spec_toml_profile(ps.last()) {
            Some(p) => prev.push(p),
            None => prev,
        }
    }
}

/// A profile table with a name and its two rule lists.
pub open spec fn spec_profile_table(name: Seq<char>, sites: Seq<Seq<char>>, allowlist: Seq<Seq<char>>) -> TomlView {
    TomlView::Table(
        table_insert(
            table_insert(
                table_insert(Seq::empty(), "name"@, TomlView::String(name)),
                "sites"@,
                spec_string_values(sites),
            ),
            "allowlist_sites"@,
            spec_string_values(allowlist),
        ),
    )
}

/// Two or more profiles collapsed into the one `Default` profile, as the
/// configuration keeps them; fewer are kept as they are.
pub open spec fn spec_collapse_profiles(ps: Seq<TomlView>) -> Seq<TomlView> {
    let pv = spec_toml_profiles(ps);
    if pv.len() < 2 {
        ps
    } else {
        seq![spec_profile_table("Default"@, spec_collapsed_sites(Seq::empty(), pv), spec_profiles_allowlist(pv))]
    }
}

/// Every profile of `blocklist_profiles` flattened, then the profiles collapsed.
pub open spec fn spec_migrate_categories(v: TomlView) -> TomlView {
    match as_table(v) {
        Some(t) => match table_get(t, "blocklist_profiles"@) {
            Some(TomlView::Array(ps)) => TomlView::Table(
                table_insert(
                    t,
                    "blocklist_profiles"@,
                    TomlView::Array(spec_collapse_profiles(ps.map_values(|p: TomlView| spec_flatten_profile(p)))),
                ),
            ),
            _ => v,
        },
        None => v,
    }
}

/// The value under `key`.
fn table_lookup<'a>(es: &'a Vec<TomlEntry>, key: &str) -> (r: Option<&'a TomlValue>)
    ensures
        match r {
            Some(v) => table_get(entries_view(es@), key@) == Some(v@),
            None => table_get(entries_view(es@), key@) is None,
        },
{
    proof {
        lemma_key_index(entries_view(es@), key@);
    }
    match find_entry(es, key) {
        Some(i) => Some(&es[i].value),
        None => None,
    }
}

/// The texts of an array value.
fn string_array(value: Option<&TomlValue>) -> (r: Vec<String>)
    ensures
        strings_view(r@) == spec_string_array(
            match value {
                Some(v) => Some(v@),
                None => None,
            },
        ),
{
    let mut out: Vec<String> = Vec::new();
    match value {
        Some(TomlValue::Array(items)) => {
            proof {
                lemma_array_view(*items);
            }
            let ghost iv = items@.map_values(|x: TomlValue| x@);
            let mut i: usize = 0;
            while i < items.len()
                invariant
                    i <= items.len(),
                    iv == items@.map_values(|x: TomlValue| x@),
                    strings_view(out@) == spec_string_items(iv.subrange(0, i as int)),
                decreases items.len() - i,
            {
                assert(iv.subrange(0, i + 1).drop_last() =~= iv.subrange(0, i as int));
                assert(iv.subrange(0, i + 1).last() == items@[i as int]@);
                match &items[i] {
                    TomlValue::String(s) => {
                        let ghost before = out@;
                        out.push(owned(s.as_str()));
                        assert(strings_view(out@) =~= strings_view(before).push(s@));
                    },
                    _ => {},
                }
                i = i + 1;
            }
            assert(iv.subrange(0, items.len() as int) =~= iv);
            out
        },
        _ => {
            assert(strings_view(out@) =~= Seq::<Seq<char>>::empty());
            out
        },
    }
}

/// An array of texts.
fn string_values(values: Vec<String>) -> (r: TomlValue)
    ensures
        r@ == spec_string_values(strings_view(values@)),
{
    let mut items: Vec<TomlValue> = Vec::new();
    let mut i: usize = 0;
    while i < values.len()
        invariant
            i <= values.len(),
            items@.len() == i,
            forall|k: int| 0 <= k < i ==> (#[trigger] items@[k])@ == TomlView::String(values@[k]@),
        decreases values.len() - i,
    {
        items.push(TomlValue::String(owned(values[i].as_str())));
        i = i + 1;
    }
    proof {
        lemma_array_view(items);
        assert(items@.map_values(|x: TomlValue| x@) =~= strings_view(values@).map_values(
            |s: Seq<char>| TomlView::String(s),
        ));
    }
    TomlValue::Array(items)
}

/// A category read from a TOML value.
#[verifier::rlimit(60)]
fn toml_category(c: &TomlValue) -> (r: Option<BlocklistCategoryConfig>)
    ensures
        match r {
            Some(x) => spec_toml_category(c@) == Some(x@),
            None => spec_toml_category(c@) is None,
        },
{
    match c {
        TomlValue::Table(t) => {
            proof {
                lemma_table_view(*t);
                reveal_strlit("General");
            }
            let name = match table_lookup(t, "name") {
                Some(TomlValue::String(s)) => owned(s.as_str()),
                _ => owned("General"),
            };
            let sites = string_array(table_lookup(t, "sites"));
            let allowlist_sites = string_array(table_lookup(t, "allowlist_sites"));
            Some(BlocklistCategoryConfig { name, sites, allowlist_sites })
        },
        _ => None,
    }
}

/// The categories among TOML values, read as category settings.
fn toml_categories(cats: &Vec<TomlValue>) -> (r: Vec<BlocklistCategoryConfig>)
    ensures
        categories_view(r@) == spec_toml_categories(cats@.map_values(|x: TomlValue| x@)),
{
    let ghost cv = cats@.map_values(|x: TomlValue| x@);
    let mut out: Vec<BlocklistCategoryConfig> = Vec::new();
    let mut i: usize = 0;
    while i < cats.len()
        invariant
            i <= cats.len(),
            cv == cats@.map_values(|x: TomlValue| x@),
            categories_view(out@) == spec_toml_categories(cv.subrange(0, i as int)),
        decreases cats.len() - i,
    {
        assert(cv.subrange(0, i + 1).drop_last() =~= cv.subrange(0, i as int));
        assert(cv.subrange(0, i + 1).last() == cats@[i as int]@);
        match toml_category(&cats[i]) {
            Some(c) => {
                let ghost before = out@;
                let ghost cc = c;
                out.push(c);
                assert(categories_view(out@) =~= categories_view(before).push(cc@));
            },
            None => {},
        }
        i = i + 1;
    }
    assert(cv.subrange(0, cats.len() as int) =~= cv);
    out
}

/// The rules of TOML categories and the profile's own legacy rules as
/// flattened profile rule lists.
pub fn flatten_blocklist_category_values(
    categories: &Vec<TomlValue>,
    legacy_sites: &Vec<String>,
    legacy_allowlist_sites: &Vec<String>,
) -> (r: (Vec<String>, Vec<String>))
    ensures
        strings_view(r.0@) == spec_collapsed_sites(
            Seq::empty(),
            spec_normalized_categories(
                spec_toml_categories(categories@.map_values(|x: TomlValue| x@)),
                strings_view(legacy_sites@),
                strings_view(legacy_allowlist_sites@),
            ),
        ),
        strings_view(r.1@) == spec_collapsed_allowlist(
            spec_normalized_categories(
                spec_toml_categories(categories@.map_values(|x: TomlValue| x@)),
                strings_view(legacy_sites@),
                strings_view(legacy_allowlist_sites@),
            ),
        ),
{
    let cats = toml_categories(categories);
    flattened_profile_rules(&cats, legacy_sites, legacy_allowlist_sites)
}

/// One profile table with its categories flattened.
#[verifier::rlimit(40)]
fn flatten_profile(p: TomlValue) -> (r: TomlValue)
    ensures
        r@ == spec_flatten_profile(p@),
{
    reveal(spec_flatten_profile);
    match p {
        TomlValue::Table(es) => {
            proof {
                lemma_table_view(es);
            }
            let ghost t = entries_view(es@);
            let legacy_sites = string_array(table_lookup(&es, "sites"));
            let legacy_allowlist_sites = string_array(table_lookup(&es, "allowlist_sites"));
            let (es, categories) = remove_entry(es, "categories");
            let (es, _) = remove_entry(es, "selected_category");
            let ghost rest = entries_view(es@);
            match categories {
                Some(TomlValue::Array(cs)) => {
                    proof {
                        lemma_array_view(cs);
                    }
                    if cs.len() == 0 {
                        proof {
                            lemma_table_view(es);
                        }
                        return TomlValue::Table(es);
                    }
                    let (sites, allowlist_sites) = flatten_blocklist_category_values(
                        &cs,
                        &legacy_sites,
                        &legacy_allowlist_sites,
                    );
                    let es = insert_entry(es, "sites", string_values(sites));
                    let es = insert_entry(es, "allowlist_sites", string_values(allowlist_sites));
                    proof {
                        lemma_table_view(es);
                    }
                    TomlValue::Table(es)
                },
                _ => {
                    proof {
                        lemma_table_view(es);
                    }
                    TomlValue::Table(es)
                },
            }
        },
        other => other,
    }
}

/// A profile read from a TOML value.
#[verifier::rlimit(60)]
fn toml_profile(p: &TomlValue) -> (r: Option<BlocklistProfileConfig>)
    ensures
        match r {
            Some(x) => spec_toml_profile(p@) == Some(x@),
            None => spec_toml_profile(p@) is None,
        },
{
    match p {
        TomlValue::Table(t) => {
            proof {
                lemma_table_view(*t);
                reveal_strlit("Default");
            }
            let name = match table_lookup(t, "name") {
                Some(TomlValue::String(s)) => owned(s.as_str()),
                _ => owned("Default"),
            };
            let sites = string_array(table_lookup(t, "sites"));
            let allowlist_sites = string_array(table_lookup(t, "allowlist_sites"));
            Some(BlocklistProfileConfig { name, sites, allowlist_sites })
        },
        _ => None,
    }
}

/// The profiles among TOML values, read as profile settings.
fn toml_profiles(ps: &Vec<TomlValue>) -> (r: Vec<BlocklistProfileConfig>)
    ensures
        profiles_view(r@) == spec_toml_profiles(ps@.map_values(|x: TomlValue| x@)),
{
    let ghost pv = ps@.map_values(|x: TomlValue| x@);
    let mut out: Vec<BlocklistProfileConfig> = Vec::new();
    let mut i: usize = 0;
    while i < ps.len()
        invariant
            i <= ps.len(),
            pv == ps@.map_values(|x: TomlValue| x@),
            profiles_view(out@) == spec_toml_profiles(pv.subrange(0, i as int)),
        decreases ps.len() - i,
    {
        assert(pv.subrange(0, i + 1).drop_last() =~= pv.subrange(0, i as int));
        assert(pv.subrange(0, i + 1).last() == ps@[i as int]@);
        match toml_profile(&ps[i]) {
            Some(p) => {
                let ghost before = out@;
                let ghost pp = p;
                out.push(p);
                assert(profiles_view(out@) =~= profiles_view(before).push(pp@));
            },
            None => {},
        }
        i = i + 1;
    }
    assert(pv.subrange(0, ps.len() as int) =~= pv);
    out
}

/// Collapses two or more profiles into the one `Default` profile.
fn collapse_profiles(ps: Vec<TomlValue>) -> (r: Vec<TomlValue>)
    ensures
        r@.map_values(|x: TomlValue| x@) == spec_collapse_profiles(ps@.map_values(|x: TomlValue| x@)),
{
    let profiles = toml_profiles(&ps);
    if profiles.len() < 2 {
        return ps;
    }
    let legacy: Vec<String> = Vec::new();
    assert(strings_view(legacy@) =~= Seq::<Seq<char>>::empty());
    let mut collapsed = normalize_blocklist_profiles(&profiles, &legacy);
    let p = collapsed.remove(0);
    let mut es: Vec<TomlEntry> = Vec::new();
    assert(entries_view(es@) =~= Seq::<(Seq<char>, TomlView)>::empty());
    let es = insert_entry(es, "name", TomlValue::String(p.name));
    let es = insert_entry(es, "sites", string_values(p.sites));
    let es = insert_entry(es, "allowlist_sites", string_values(p.allowlist_sites));
    proof {
        lemma_table_view(es);
        reveal_strlit("Default");
    }
    let mut r: Vec<TomlValue> = Vec::new();
    r.push(TomlValue::Table(es));
    assert(r@.map_values(|x: TomlValue| x@) =~= seq![r@[0]@]);
    r
}

/// Each profile flattened, in order.
fn flatten_profiles(ps: Vec<TomlValue>) -> (r: Vec<TomlValue>)
    ensures
        r@.map_values(|x: TomlValue| x@) == ps@.map_values(|x: TomlValue| x@).map_values(
            |p: TomlView| spec_flatten_profile(p),
        ),
{
    let ghost pv = ps@.map_values(|x: TomlValue| x@);
    let ghost orig = ps@;
    let mut rest = ps;
    let mut out: Vec<TomlValue> = Vec::new();
    let mut k: usize = 0;
    let total = rest.len();
    while rest.len() > 0
        invariant
            total == orig.len(),
            k + rest@.len() == orig.len(),
            rest@ == orig.subrange(k as int, orig.len() as int),
            pv == orig.map_values(|x: TomlValue| x@),
            out@.len() == k,
            forall|j: int| 0 <= j < k ==> (#[trigger] out@[j])@ == spec_flatten_profile(pv[j]),
        decreases rest@.len(),
    {
        let p = rest.remove(0);
        assert(p == orig[k as int]);
        let q = flatten_profile(p);
        out.push(q);
        assert(rest@ =~= orig.subrange(k + 1, orig.len() as int));
        k = k + 1;
    }
    assert(out@.map_values(|x: TomlValue| x@) =~= pv.map_values(|p: TomlView| spec_flatten_profile(p)));
    out
}

/// Flattens deprecated blocklist categories into each profile's own rule
/// lists, then collapses several profiles into the one the configuration
/// keeps.
pub fn migrate_blocklist_categories_to_profile_rules(config_toml: TomlValue) -> (r: TomlValue)
    ensures
        r@ == spec_migrate_categories(config_toml@),
{
    match config_toml {
        TomlValue::Table(es) => {
            proof {
                lemma_table_view(es);
            }
            let ghost t = entries_view(es@);
            proof {
                lemma_key_index(t, "blocklist_profiles"@);
            }
            match find_entry(&es, "blocklist_profiles") {
                Some(i) => {
                    let mut es = es;
                    let ghost before = es@;
                    let entry = es.remove(i);
                    assert(entry == before[i as int]);
                    let TomlEntry { key, value } = entry;
                    match value {
                        TomlValue::Array(ps) => {
                            proof {
                                lemma_array_view(ps);
                            }
                            let out = collapse_profiles(flatten_profiles(ps));
                            proof {
                                lemma_array_view(out);
                            }
                            let ne = TomlEntry { key, value: TomlValue::Array(out) };
                            let ghost g = ne;
                            es.insert(i, ne);
                            assert(es@ =~= before.update(i as int, g));
                            assert(entries_view(es@) =~= table_insert(t, "blocklist_profiles"@, g.value@));
                            proof {
                                lemma_table_view(es);
                            }
                            TomlValue::Table(es)
                        },
                        other => {
                            let ne = TomlEntry { key, value: other };
                            es.insert(i, ne);
                            assert(es@ =~= before);
                            proof {
                                lemma_table_view(es);
                            }
                            TomlValue::Table(es)
                        },
                    }
                },
                None => {
                    proof {
                        lemma_table_view(es);
                    }
                    TomlValue::Table(es)
                },
            }
        },
        other => other,
    }
}

/// One applied migration step: a schema step, or a cleanup pass that keeps
/// the version.
#[derive(Debug, Clone, PartialEq, Eq)]
pub struct ConfigMigrationStepReport {
    pub from_schema_version: u32,
    pub to_schema_version: u32,
    pub summary: String,
}

pub struct StepView {
    pub from: u32,
    pub to: u32,
    pub summary: Seq<char>,
}

impl View for ConfigMigrationStepReport {
    type V = StepView;

    open spec fn view(&self) -> StepView {
        StepView { from: self.from_schema_version, to: self.to_schema_version, summary: self.summary@ }
    }
}

pub open spec fn steps_view(steps: Seq<ConfigMigrationStepReport>) -> Seq<StepView> {
    steps.map_values(|s: ConfigMigrationStepReport| s@)
}

/// The schema steps from `from` up to the current version, with the reports
/// of each; the failing step when one has no migration.
pub open spec fn spec_schema_steps(v: TomlView, from: u32) -> Result<(TomlView, Seq<StepView>), (u32, u32)>
    decreases CURRENT_CONFIG_SCHEMA_VERSION - from,
{
    if from >= CURRENT_CONFIG_SCHEMA_VERSION {
        Ok((v, Seq::empty()))
    } else {
        match spec_schema_step(v, from) {
            None => Err((from, (from + 1) as u32)),
            Some(next) => match spec_schema_steps(next, (from + 1) as u32) {
                Ok((w, steps)) => Ok(
                    (
                        w,
                        seq![StepView { from, to: (from + 1) as u32, summary: spec_step_summary(from, (from + 1) as u32) }]
                            + steps,
                    ),
                ),
                Err(e) => Err(e),
            },
        }
    }
}

/// A cleanup pass's report, present exactly when the pass changed the document.
pub open spec fn pass_step(before: TomlView, after: TomlView, version: u32, summary: Seq<char>) -> Seq<StepView> {
    if after != before {
        seq![StepView { from: version, to: version, summary }]
    } else {
        Seq::empty()
    }
}

pub open spec fn canonicalize_summary() -> Seq<char> {
    "Canonicalize legacy profile aliases in config values."@
}

pub open spec fn weekday_rules_summary() -> Seq<char> {
    "Remove deprecated weekday profile rules; use profile schedules directly."@
}

pub open spec fn automation_triggers_summary() -> Seq<char> {
    "Remove deprecated automation triggers; use profile schedules directly."@
}

pub open spec fn exception_dates_summary() -> Seq<char> {
    "Remove deprecated schedule exception dates; schedules now use recurring windows only."@
}

pub open spec fn session_templates_summary() -> Seq<char> {
    "Remove retired session template persistence; use task, profile, schedule, and blocklist settings directly."@
}

pub open spec fn blocklist_categories_summary() -> Seq<char> {
    "Flatten deprecated blocklist category rules into profile-level site lists."@
}

pub open spec fn wakatime_summary() -> Seq<char> {
    "Remove retired WakaTime heartbeat config and runtime tuning sections."@
}

/// The WakaTime pass: both retired sections removed.
pub open spec fn spec_remove_wakatime(v: TomlView) -> TomlView {
    spec_remove_key(spec_remove_key(v, "wakatime"@), "wakatime_runtime"@)
}

/// Drops the retired WakaTime sections (`[wakatime]`, `[wakatime_runtime]`).
pub fn remove_retired_wakatime_sections(config_toml: TomlValue) -> (r: TomlValue)
    ensures
        r@ == spec_remove_wakatime(config_toml@),
{
    let v = remove_table_key(config_toml, "wakatime");
    remove_table_key(v, "wakatime_runtime")
}

/// The session-template pass: both retired keys removed.
pub open spec fn spec_remove_templates(v: TomlView) -> TomlView {
    spec_remove_key(spec_remove_key(v, "session_templates"@), "selected_session_template"@)
}

/// The cleanup passes in order, with a report for each that changed something.
pub open spec fn spec_cleanup(v: TomlView, version: u32) -> (TomlView, Seq<StepView>) {
    let v1 = spec_canonicalize(v);
    let v2 = spec_remove_key(v1, "weekday_profile_rules"@);
    let v3 = spec_remove_key(v2, "automation_triggers"@);
    let v4 = spec_remove_exception_dates(v3);
    let v5 = spec_remove_templates(v4);
    let v6 = spec_migrate_categories(v5);
    let v7 = spec_remove_wakatime(v6);
    (
        v7,
        pass_step(v, v1, version, canonicalize_summary()) + pass_step(v1, v2, version, weekday_rules_summary())
            + pass_step(v2, v3, version, automation_triggers_summary()) + pass_step(
            v3,
            v4,
            version,
            exception_dates_summary(),
        ) + pass_step(v4, v5, version, session_templates_summary()) + pass_step(
            v5,
            v6,
            version,
            blocklist_categories_summary(),
        ) + pass_step(v6, v7, version, wakatime_summary()),
    )
}

pub open spec fn missing_schema_message() -> Seq<char> {
    "Missing or invalid `schema_version` in config.toml."@
}

pub open spec fn unsupported_step_message(from: u32, to: u32) -> Seq<char> {
    "Unsupported migration step from schema v"@ + decimal(from as nat) + " to v"@ + decimal(to as nat) + "."@
}

/// The whole migration of a document: its declared version, the schema steps
/// up to the current version and the cleanup passes, or why it cannot be
/// migrated. A document newer than this build is kept as it is.
pub open spec fn spec_migrate_detailed(v: TomlView) -> Result<(TomlView, u32, Seq<StepView>), Seq<char>> {
    match spec_schema_version(v) {
        None => Err(missing_schema_message()),
        Some(sv) => if sv > CURRENT_CONFIG_SCHEMA_VERSION {
            Ok((v, sv, Seq::empty()))
        } else {
            match spec_schema_steps(v, sv) {
                Err((from, to)) => Err(unsupported_step_message(from, to)),
                Ok((w, steps)) => {
                    let (x, passes) = spec_cleanup(w, CURRENT_CONFIG_SCHEMA_VERSION);
                    Ok((x, sv, steps + passes))
                },
            }
        },
    }
}

/// The report of one step.
fn step_report(from: u32, to: u32, summary: &str) -> (r: ConfigMigrationStepReport)
    ensures
        r@ == (StepView { from, to, summary: summary@ }),
{
    ConfigMigrationStepReport { from_schema_version: from, to_schema_version: to, summary: owned(summary) }
}

/// The message for a schema step without a migration.
fn unsupported_step_error(from: u32, to: u32) -> (r: String)
    ensures
        r@ == unsupported_step_message(from, to),
{
    let mut r = owned("Unsupported migration step from schema v");
    let f = u64_to_string(from as u64);
    r.append(f.as_str());
    r.append(" to v");
    let t = u64_to_string(to as u64);
    r.append(t.as_str());
    r.append(".");
    r
}

/// From a table at a version up to the current one, every schema step exists.
proof fn lemma_schema_steps_succeed(v: TomlView, from: u32)
    requires
        as_table(v) is Some,
        from <= CURRENT_CONFIG_SCHEMA_VERSION,
    ensures
        spec_schema_steps(v, from) matches Ok((_, steps)) && steps.len() == CURRENT_CONFIG_SCHEMA_VERSION - from,
    decreases CURRENT_CONFIG_SCHEMA_VERSION - from,
{
    if from < CURRENT_CONFIG_SCHEMA_VERSION {
        let next = spec_schema_step(v, from);
        assert(next is Some && as_table(next.unwrap()) is Some);
        lemma_schema_steps_succeed(next.unwrap(), (from + 1) as u32);
    }
}

/// Migration refuses a document exactly when its schema version is missing
/// or invalid; a document at a known version gets one schema step for each
/// version up to the current one, and a newer document is kept as it is.
pub proof fn lemma_migration_fails_only_without_schema_version(v: TomlView)
    ensures
        spec_migrate_detailed(v) is Err <==> spec_schema_version(v) is None,
        forall|sv: u32|
            spec_schema_version(v) == Some(sv) && sv <= CURRENT_CONFIG_SCHEMA_VERSION ==> (spec_migrate_detailed(v) matches Ok(
                (_, version, steps),
            ) && version == sv && steps.len() >= CURRENT_CONFIG_SCHEMA_VERSION - sv),
        forall|sv: u32|
            spec_schema_version(v) == Some(sv) && sv > CURRENT_CONFIG_SCHEMA_VERSION ==> spec_migrate_detailed(v) == Ok::<
                (TomlView, u32, Seq<StepView>),
                Seq<char>,
            >((v, sv, Seq::empty())),
{
    if let Some(sv) = spec_schema_version(v) {
        if sv <= CURRENT_CONFIG_SCHEMA_VERSION {
            lemma_schema_steps_succeed(v, sv);
        }
    }
}

/// Runs the schema steps from `from` on.
fn run_schema_steps(config_toml: TomlValue, from: u32) -> (r: Result<(TomlValue, Vec<ConfigMigrationStepReport>), String>)
    ensures
        match r {
            Ok((x, steps)) => spec_schema_steps(config_toml@, from) == Ok::<(TomlView, Seq<StepView>), (u32, u32)>((x@, steps_view(steps@))),
            Err(e) => exists|f: u32, t: u32|
                spec_schema_steps(config_toml@, from) == Err::<(TomlView, Seq<StepView>), (u32, u32)>((f, t))
                    && e@ == unsupported_step_message(f, t),
        },
    decreases CURRENT_CONFIG_SCHEMA_VERSION - from,
{
    if from >= CURRENT_CONFIG_SCHEMA_VERSION {
        let steps: Vec<ConfigMigrationStepReport> = Vec::new();
        assert(steps_view(steps@) =~= Seq::<StepView>::empty());
        return Ok((config_toml, steps));
    }
    let to = from + 1;
    match migrate_config_toml_step(config_toml, from) {
        None => Err(unsupported_step_error(from, to)),
        Some(next) => match run_schema_steps(next, to) {
            Ok((x, rest)) => {
                let summary = migration_step_summary(from, to);
                let first = ConfigMigrationStepReport { from_schema_version: from, to_schema_version: to, summary };
                let ghost fv = first@;
                let mut steps: Vec<ConfigMigrationStepReport> = Vec::new();
                steps.push(first);
                let mut rest = rest;
                let ghost rv = steps_view(rest@);
                steps.append(&mut rest);
                assert(steps_view(steps@) =~= seq![fv] + rv);
                Ok((x, steps))
            },
            Err(e) => Err(e),
        },
    }
}

/// Reports a pass when `after` differs from `before`.
fn push_pass_step(
    steps: &mut Vec<ConfigMigrationStepReport>,
    before: &TomlValue,
    after: &TomlValue,
    version: u32,
    summary: &str,
)
    ensures
        steps_view(final(steps)@) == steps_view(old(steps)@) + pass_step(before@, after@, version, summary@),
{
    let ghost s0 = steps_view(steps@);
    if !value_eq(before, after) {
        let r = step_report(version, version, summary);
        let ghost rv = r@;
        steps.push(r);
        assert(steps_view(steps@) =~= s0 + seq![rv]);
    } else {
        assert(s0 + Seq::<StepView>::empty() =~= s0);
    }
}

/// Runs the cleanup passes, reporting each that changed the document.
fn run_cleanup(config_toml: TomlValue, version: u32) -> (r: (TomlValue, Vec<ConfigMigrationStepReport>))
    ensures
        (r.0@, steps_view(r.1@)) == spec_cleanup(config_toml@, version),
{
    let mut steps: Vec<ConfigMigrationStepReport> = Vec::new();
    assert(steps_view(steps@) =~= Seq::<StepView>::empty());
    let v0 = config_toml;
    let v1 = canonicalize_legacy_profile_aliases(clone_value(&v0));
    push_pass_step(&mut steps, &v0, &v1, version, "Canonicalize legacy profile aliases in config values.");
    let v2 = remove_weekday_profile_rules(clone_value(&v1));
    push_pass_step(
        &mut steps,
        &v1,
        &v2,
        version,
        "Remove deprecated weekday profile rules; use profile schedules directly.",
    );
    let v3 = remove_automation_triggers(clone_value(&v2));
    push_pass_step(
        &mut steps,
        &v2,
        &v3,
        version,
        "Remove deprecated automation triggers; use profile schedules directly.",
    );
    let v4 = remove_schedule_exception_dates(clone_value(&v3));
    push_pass_step(
        &mut steps,
        &v3,
        &v4,
        version,
        "Remove deprecated schedule exception dates; schedules now use recurring windows only.",
    );
    let v5 = remove_session_templates(clone_value(&v4));
    push_pass_step(
        &mut steps,
        &v4,
        &v5,
        version,
        "Remove retired session template persistence; use task, profile, schedule, and blocklist settings directly.",
    );
    let v6 = migrate_blocklist_categories_to_profile_rules(clone_value(&v5));
    push_pass_step(
        &mut steps,
        &v5,
        &v6,
        version,
        "Flatten deprecated blocklist category rules into profile-level site lists.",
    );
    let v7 = remove_retired_wakatime_sections(clone_value(&v6));
    push_pass_step(
        &mut steps,
        &v6,
        &v7,
        version,
        "Remove retired WakaTime heartbeat config and runtime tuning sections.",
    );
    (v7, steps)
}

/// Migrates a configuration document to the current schema and reports each
/// applied step.
pub fn migrate_config_toml_to_current_detailed(config_toml: TomlValue) -> (r: Result<(TomlValue, u32, Vec<ConfigMigrationStepReport>), String>)
    ensures
        match r {
            Ok((x, sv, steps)) => spec_migrate_detailed(config_toml@) == Ok::<(TomlView, u32, Seq<StepView>), Seq<char>>((x@, sv, steps_view(steps@))),
            Err(e) => spec_migrate_detailed(config_toml@) == Err::<(TomlView, u32, Seq<StepView>), Seq<char>>(e@),
        },
{
    let schema_version = match detect_config_schema_version(&config_toml) {
        Some(v) => v,
        None => return Err(owned("Missing or invalid `schema_version` in config.toml.")),
    };
    if schema_version > CURRENT_CONFIG_SCHEMA_VERSION {
        let steps: Vec<ConfigMigrationStepReport> = Vec::new();
        assert(steps_view(steps@) =~= Seq::<StepView>::empty());
        return Ok((config_toml, schema_version, steps));
    }
    match run_schema_steps(config_toml, schema_version) {
        Err(e) => Err(e),
        Ok((x, steps)) => {
            let (y, passes) = run_cleanup(x, CURRENT_CONFIG_SCHEMA_VERSION);
            let mut steps = steps;
            let mut passes = passes;
            let ghost sv = steps_view(steps@);
            let ghost pv = steps_view(passes@);
            steps.append(&mut passes);
            assert(steps_view(steps@) =~= sv + pv);
            Ok((y, schema_version, steps))
        },
    }
}

/// The migrated document, when there is one.
pub fn migrate_config_toml_to_current(config_toml: TomlValue) -> (r: Option<TomlValue>)
    ensures
        match r {
            Some(x) => spec_migrate_detailed(config_toml@) matches Ok((y, _, _)) && y == x@,
            None => spec_migrate_detailed(config_toml@) is Err,
        },
{
    match migrate_config_toml_to_current_detailed(config_toml) {
        Ok((x, _, _)) => Some(x),
        Err(_) => None,
    }
}

/// A key of another length than `schema_version`'s is another key.
proof fn lemma_not_schema_key(k: Seq<char>)
    requires
        k.len() != 14,
    ensures
        k != "schema_version"@,
{
    reveal_strlit("schema_version");
}

/// `after` is a table wherever `before` is one, with the same declared
/// schema version entry.
pub open spec fn keeps_schema_entry(before: TomlView, after: TomlView) -> bool {
    as_table(before) is Some ==> (as_table(after) is Some && table_get(as_table(after)->0, "schema_version"@)
        == table_get(as_table(before)->0, "schema_version"@))
}

proof fn lemma_remove_keeps_schema_entry(v: TomlView, k: Seq<char>)
    requires
        k.len() != 14,
    ensures
        keeps_schema_entry(v, spec_remove_key(v, k)),
{
    lemma_not_schema_key(k);
    if let Some(t) = as_table(v) {
        lemma_table_get_after_remove(t, k, "schema_version"@);
    }
}

proof fn lemma_insert_keeps_schema_entry(t: Seq<(Seq<char>, TomlView)>, k: Seq<char>, x: TomlView)
    requires
        k.len() != 14,
    ensures
        table_get(table_insert(t, k, x), "schema_version"@) == table_get(t, "schema_version"@),
{
    lemma_not_schema_key(k);
    lemma_table_get_after_insert(t, k, x, "schema_version"@);
}

proof fn lemma_canonicalize_keeps_schema_entry(v: TomlView)
    ensures
        keeps_schema_entry(v, spec_canonicalize(v)),
{
    reveal_strlit("selected_profile");
    reveal_strlit("profile_automation");
    if let Some(t) = as_table(v) {
        let c1 = spec_canonical_profile_field(t, "selected_profile"@);
        match table_get(t, "selected_profile"@) {
            Some(TomlView::String(raw)) => match spec_profile_token(raw) {
                Some(mapped) => lemma_insert_keeps_schema_entry(t, "selected_profile"@, TomlView::String(mapped)),
                None => {},
            },
            _ => {},
        }
        match table_get(c1, "profile_automation"@) {
            Some(TomlView::Table(pa)) => lemma_insert_keeps_schema_entry(
                c1,
                "profile_automation"@,
                TomlView::Table(spec_move_preset_keys(pa)),
            ),
            _ => {},
        }
    }
}

proof fn lemma_exception_dates_keep_schema_entry(v: TomlView)
    ensures
        keeps_schema_entry(v, spec_remove_exception_dates(v)),
{
    reveal_strlit("recurring_schedule");
    reveal_strlit("profile_automation");
    if let Some(t) = as_table(v) {
        let s1 = spec_strip_schedule(t);
        match table_get(t, "recurring_schedule"@) {
            Some(TomlView::Table(sc)) => lemma_insert_keeps_schema_entry(
                t,
                "recurring_schedule"@,
                TomlView::Table(table_remove(sc, "exception_dates"@)),
            ),
            _ => {},
        }
        match table_get(s1, "profile_automation"@) {
            Some(TomlView::Table(pa)) => lemma_insert_keeps_schema_entry(
                s1,
                "profile_automation"@,
                TomlView::Table(spec_strip_presets(pa)),
            ),
            _ => {},
        }
    }
}

proof fn lemma_categories_keep_schema_entry(v: TomlView)
    ensures
        keeps_schema_entry(v, spec_migrate_categories(v)),
{
    reveal_strlit("blocklist_profiles");
    if let Some(t) = as_table(v) {
        match table_get(t, "blocklist_profiles"@) {
            Some(TomlView::Array(ps)) => lemma_insert_keeps_schema_entry(
                t,
                "blocklist_profiles"@,
                TomlView::Array(spec_collapse_profiles(ps.map_values(|p: TomlView| spec_flatten_profile(p)))),
            ),
            _ => {},
        }
    }
}

proof fn lemma_pair_removal_keeps_schema_entry(v: TomlView, k1: Seq<char>, k2: Seq<char>)
    requires
        k1.len() != 14,
        k2.len() != 14,
    ensures
        keeps_schema_entry(v, spec_remove_key(spec_remove_key(v, k1), k2)),
{
    lemma_remove_keeps_schema_entry(v, k1);
    lemma_remove_keeps_schema_entry(spec_remove_key(v, k1), k2);
}

/// The cleanup passes keep a table document a table, with its declared
/// schema version.
proof fn lemma_cleanup_keeps_schema_entry(v: TomlView, version: u32)
    ensures
        keeps_schema_entry(v, spec_cleanup(v, version).0),
{
    reveal_strlit("weekday_profile_rules");
    reveal_strlit("automation_triggers");
    reveal_strlit("session_templates");
    reveal_strlit("selected_session_template");
    reveal_strlit("wakatime");
    reveal_strlit("wakatime_runtime");
    let v1 = spec_canonicalize(v);
    lemma_canonicalize_keeps_schema_entry(v);
    let v3 = spec_remove_key(spec_remove_key(v1, "weekday_profile_rules"@), "automation_triggers"@);
    lemma_pair_removal_keeps_schema_entry(v1, "weekday_profile_rules"@, "automation_triggers"@);
    let v4 = spec_remove_exception_dates(v3);
    lemma_exception_dates_keep_schema_entry(v3);
    let v5 = spec_remove_templates(v4);
    lemma_pair_removal_keeps_schema_entry(v4, "session_templates"@, "selected_session_template"@);
    let v6 = spec_migrate_categories(v5);
    lemma_categories_keep_schema_entry(v5);
    lemma_pair_removal_keeps_schema_entry(v6, "wakatime"@, "wakatime_runtime"@);
    assert(spec_cleanup(v, version).0 == spec_remove_wakatime(v6));
}

/// The schema steps bring a document of a supported version to a table that
/// declares the current schema version.
proof fn lemma_schema_steps_declare_current(v: TomlView, sv: u32)
    requires
        spec_schema_version(v) == Some(sv),
        sv <= CURRENT_CONFIG_SCHEMA_VERSION,
        spec_schema_steps(v, sv) is Ok,
    ensures
        as_table(spec_schema_steps(v, sv)->Ok_0.0) is Some,
        table_get(as_table(spec_schema_steps(v, sv)->Ok_0.0)->0, "schema_version"@) == Some(TomlView::Integer(2)),
{
    reveal_with_fuel(spec_schema_steps, 3);
    let t = as_table(v)->0;
    if sv == 0 {
        let t1 = table_insert(t, "schema_version"@, TomlView::Integer(1));
        lemma_table_get_after_insert(t, "schema_version"@, TomlView::Integer(1), "schema_version"@);
        let n1 = TomlView::Table(t1);
        let c = spec_canonicalize(n1)->Table_0;
        lemma_table_get_after_insert(c, "schema_version"@, TomlView::Integer(2), "schema_version"@);
    } else if sv == 1 {
        let c = spec_canonicalize(v)->Table_0;
        lemma_table_get_after_insert(c, "schema_version"@, TomlView::Integer(2), "schema_version"@);
    }
}

/// A document the migration brought to a supported schema declares the
/// current schema version: migrating it again detects that version and
/// takes no schema step, leaving only the cleanup passes to act on it.
pub proof fn lemma_migrated_config_declares_current_schema(x: TomlView)
    requires
        spec_migrate_detailed(x) is Ok,
        spec_migrate_detailed(x)->Ok_0.1 <= CURRENT_CONFIG_SCHEMA_VERSION,
    ensures
        spec_schema_version(spec_migrate_detailed(x)->Ok_0.0) == Some(CURRENT_CONFIG_SCHEMA_VERSION),
        spec_migrate_detailed(spec_migrate_detailed(x)->Ok_0.0) == Ok::<(TomlView, u32, Seq<StepView>), Seq<char>>(
            (
                spec_cleanup(spec_migrate_detailed(x)->Ok_0.0, CURRENT_CONFIG_SCHEMA_VERSION).0,
                CURRENT_CONFIG_SCHEMA_VERSION,
                spec_cleanup(spec_migrate_detailed(x)->Ok_0.0, CURRENT_CONFIG_SCHEMA_VERSION).1,
            ),
        ),
{
    let sv = spec_schema_version(x)->0;
    let w = spec_schema_steps(x, sv)->Ok_0.0;
    lemma_schema_steps_declare_current(x, sv);
    lemma_cleanup_keeps_schema_entry(w, CURRENT_CONFIG_SCHEMA_VERSION);
    let y = spec_cleanup(w, CURRENT_CONFIG_SCHEMA_VERSION).0;
    assert(spec_schema_version(y) == Some(2u32));
    let ys = spec_schema_steps(y, 2);
    assert(ys == Ok::<(TomlView, Seq<StepView>), (u32, u32)>((y, Seq::empty())));
    assert(Seq::<StepView>::empty() + spec_cleanup(y, 2).1 =~= spec_cleanup(y, 2).1);
}

} // verus!
