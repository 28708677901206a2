use focustime::config::migration::{
    migrate_config_toml_legacy_to_v1, migrate_config_toml_to_current,
    migrate_config_toml_to_current_detailed,
};
use focustime::config::toml_tree::{parse_toml_document, TomlValue};
use focustime::config::CURRENT_CONFIG_SCHEMA_VERSION;

fn parse(text: &str) -> TomlValue {
    parse_toml_document(text).unwrap()
}

fn get<'a>(value: &'a TomlValue, key: &str) -> Option<&'a TomlValue> {
    match value {
        TomlValue::Table(entries) => entries.iter().find(|e| e.key == key).map(|e| &e.value),
        _ => None,
    }
}

fn as_str(value: Option<&TomlValue>) -> Option<&str> {
    match value {
        Some(TomlValue::String(s)) => Some(s.as_str()),
        _ => None,
    }
}

fn as_integer(value: Option<&TomlValue>) -> Option<i64> {
    match value {
        Some(TomlValue::Integer(i)) => Some(*i),
        _ => None,
    }
}

fn as_bool(value: Option<&TomlValue>) -> Option<bool> {
    match value {
        Some(TomlValue::Boolean(b)) => Some(*b),
        _ => None,
    }
}

fn as_array(value: Option<&TomlValue>) -> Option<&Vec<TomlValue>> {
    match value {
        Some(TomlValue::Array(items)) => Some(items),
        _ => None,
    }
}

fn is_table(value: Option<&TomlValue>) -> bool {
    matches!(value, Some(TomlValue::Table(_)))
}

fn strings(values: &[&str]) -> Vec<TomlValue> {
    values.iter().map(|s| TomlValue::String(s.to_string())).collect()
}

fn mentions_key(value: &TomlValue, key: &str) -> bool {
    match value {
        TomlValue::Table(entries) => entries.iter().any(|e| e.key == key || mentions_key(&e.value, key)),
        TomlValue::Array(items) => items.iter().any(|v| mentions_key(v, key)),
        _ => false,
    }
}

#[test]
fn migrate_config_toml_v1_to_v2_maps_profile_ids_and_profile_automation_keys() {
    let v1 = parse(
        r#"
schema_version = 1
selected_profile = "deep-work"
selected_session_template = "Template"

[[session_templates]]
name = "Template"
task_label = "Task"
profile = "custom"
blocklist_profile = "Default"

[[weekday_profile_rules]]
day = "mon"
profile = "classic"
blocklist_profile = "Default"

[[automation_triggers]]
trigger = { type = "focus_completed" }
action = { type = "apply_defaults", profile = "deep_work", blocklist_profile = "Default" }

[profile_automation.classic]
strict_mode = false

[profile_automation.deep_work]
strict_mode = true

[profile_automation.custom]
strict_mode = false
"#,
    );
    let migrated = migrate_config_toml_to_current(v1).expect("v1 payload should migrate to v2");
    assert!(is_table(Some(&migrated)));

    assert_eq!(
        as_integer(get(&migrated, "schema_version")),
        Some(i64::from(CURRENT_CONFIG_SCHEMA_VERSION))
    );
    assert_eq!(as_str(get(&migrated, "selected_profile")), Some("standard"));

    let profile_automation = get(&migrated, "profile_automation").expect("profile_automation should be a table");
    assert!(is_table(Some(profile_automation)));
    assert!(get(profile_automation, "basic").is_some());
    assert!(get(profile_automation, "standard").is_some());
    assert!(get(profile_automation, "advanced").is_some());
    assert!(get(profile_automation, "classic").is_none());
    assert!(get(profile_automation, "deep_work").is_none());
    assert!(get(profile_automation, "custom").is_none());

    assert!(get(&migrated, "session_templates").is_none());
    assert!(get(&migrated, "selected_session_template").is_none());
    assert!(get(&migrated, "weekday_profile_rules").is_none());

    assert!(get(&migrated, "automation_triggers").is_none());
}

#[test]
fn migrate_config_toml_removes_session_template_persistence() {
    let original = parse(
        r#"
schema_version = 2
selected_session_template = "Morning"

[[session_templates]]
name = "Morning"
task_label = "Docs"
profile = "basic"
blocklist_profile = "Default"
"#,
    );

    let (migrated, _, steps) = migrate_config_toml_to_current_detailed(original).unwrap();
    assert!(is_table(Some(&migrated)));
    assert!(get(&migrated, "session_templates").is_none());
    assert!(get(&migrated, "selected_session_template").is_none());
    assert!(steps.iter().any(|step| {
        step.summary
            == "Remove retired session template persistence; use task, profile, schedule, and blocklist settings directly."
    }));
}

#[test]
fn migrate_deprecated_schedule_shims_removes_weekday_rules_and_automation_triggers() {
    let v2 = parse(
        r#"
schema_version = 2
weekday_profile_rules = []

[[automation_triggers]]
trigger = { type = "time", days = ["mon"], at = "00:00" }
action = { type = "apply_defaults", profile = "standard", blocklist_profile = "Default" }
"#,
    );
    let migrated = migrate_config_toml_to_current(v2).expect("v2 payload should migrate");
    assert!(is_table(Some(&migrated)));

    assert!(get(&migrated, "weekday_profile_rules").is_none());
    assert!(get(&migrated, "automation_triggers").is_none());
}

#[test]
fn migrate_config_toml_v1_to_v2_merges_legacy_profile_automation_into_existing_preset_key() {
    let v1 = parse(
        r#"
schema_version = 1

[profile_automation.standard]
strict_mode = true
[profile_automation.standard.notifications]
enabled = false

[profile_automation.deep_work]
strict_mode = false
[profile_automation.deep_work.notifications]
enabled = true
sound = true
[profile_automation.deep_work.auto_start]
focus_to_break = true
break_to_focus = true
"#,
    );

    let migrated = migrate_config_toml_to_current(v1).expect("v1 payload should migrate to v2");
    let profile_automation = get(&migrated, "profile_automation").expect("profile_automation should be a table");

    let standard = get(profile_automation, "standard").expect("standard profile automation should exist");
    let notifications = get(standard, "notifications").expect("notifications should exist");
    let auto_start = get(standard, "auto_start").expect("auto_start should exist");

    assert_eq!(as_bool(get(standard, "strict_mode")), Some(true));
    assert_eq!(as_bool(get(notifications, "enabled")), Some(false));
    assert_eq!(as_bool(get(notifications, "sound")), Some(true));
    assert_eq!(as_bool(get(auto_start, "focus_to_break")), Some(true));
    assert_eq!(as_bool(get(auto_start, "break_to_focus")), Some(true));
    assert!(get(profile_automation, "deep_work").is_none());
}

#[test]
fn migrate_config_toml_current_schema_canonicalizes_legacy_profile_aliases() {
    let v2_with_legacy_alias = parse(
        r#"
schema_version = 2
selected_profile = "deep_work"
"#,
    );

    let migrated = migrate_config_toml_to_current(v2_with_legacy_alias)
        .expect("current-schema payload should still canonicalize aliases");
    assert!(is_table(Some(&migrated)));
    assert_eq!(as_str(get(&migrated, "selected_profile")), Some("standard"));
}

#[test]
fn migrate_config_toml_collapses_profile_collisions_without_losing_blocks() {
    let original = parse(
        r#"
schema_version = 2
selected_blocklist_profile = "Work"

[[blocklist_profiles]]
name = "Work"
sites = ["a.com"]
allowlist_sites = ["b.com"]

[[blocklist_profiles]]
name = "Personal"
sites = ["b.com"]
allowlist_sites = []
"#,
    );

    let migrated = migrate_config_toml_to_current(original)
        .expect("current-schema payload should still collapse blocklist profiles");
    let profiles = as_array(get(&migrated, "blocklist_profiles")).unwrap();
    let profile = &profiles[0];

    assert_eq!(as_array(get(profile, "sites")).unwrap(), &strings(&["a.com", "b.com"]));
    assert_eq!(as_array(get(profile, "allowlist_sites")).unwrap(), &Vec::<TomlValue>::new());
}

#[test]
fn migrate_config_toml_preserves_same_profile_allowlist_overrides() {
    let original = parse(
        r#"
schema_version = 2
selected_blocklist_profile = "Work"

[[blocklist_profiles]]
name = "Work"
sites = ["a.com"]
allowlist_sites = ["b.com"]

[[blocklist_profiles]]
name = "Personal"
sites = ["b.com"]
allowlist_sites = ["b.com"]
"#,
    );

    let migrated = migrate_config_toml_to_current(original)
        .expect("current-schema payload should still collapse blocklist profiles");
    let profiles = as_array(get(&migrated, "blocklist_profiles")).unwrap();
    let profile = &profiles[0];

    assert_eq!(as_array(get(profile, "sites")).unwrap(), &strings(&["a.com", "b.com"]));
    assert_eq!(as_array(get(profile, "allowlist_sites")).unwrap(), &strings(&["b.com"]));
}

#[test]
fn migrate_config_toml_legacy_to_v1_sets_intermediate_schema_version_to_one() {
    let legacy = parse("focus_secs = 1500");
    let migrated = migrate_config_toml_legacy_to_v1(legacy).expect("legacy migration should work");
    assert!(is_table(Some(&migrated)));
    assert_eq!(as_integer(get(&migrated, "schema_version")), Some(1));
}

#[test]
fn config_migration_flattens_blocklist_categories_into_profile_rules() {
    let original = parse(
        r#"
schema_version = 2
selected_blocklist_profile = "Work"

[[blocklist_profiles]]
name = "Work"
sites = ["legacy.com"]
allowlist_sites = ["legacy-allow.com"]
selected_category = "Social"

[[blocklist_profiles.categories]]
name = "Social"
sites = ["youtube.com", "legacy.com"]
allowlist_sites = ["news.com"]

[[blocklist_profiles.categories]]
name = "General"
sites = ["docs.example.com"]
allowlist_sites = []
"#,
    );

    let (migrated, _, steps) = migrate_config_toml_to_current_detailed(original).unwrap();
    let profiles = as_array(get(&migrated, "blocklist_profiles")).unwrap();
    let profile = &profiles[0];

    assert!(get(profile, "categories").is_none());
    assert!(get(profile, "selected_category").is_none());
    assert_eq!(
        as_array(get(profile, "sites")).unwrap(),
        &strings(&["youtube.com", "legacy.com", "docs.example.com"])
    );
    assert_eq!(
        as_array(get(profile, "allowlist_sites")).unwrap(),
        &strings(&["news.com", "legacy-allow.com"])
    );
    assert!(steps.iter().any(|step| {
        step.summary == "Flatten deprecated blocklist category rules into profile-level site lists."
    }));
}

#[test]
fn config_migration_removes_schedule_exception_dates() {
    let original = parse(
        r#"
schema_version = 2

[recurring_schedule]
exception_dates = ["2026-12-25"]

[profile_automation.basic.recurring_schedule]
exception_dates = ["2026-12-25"]

[[session_templates]]
name = "Morning"
task_label = "Docs"
profile = "basic"
blocklist_profile = "Default"

[session_templates.schedule]
exception_dates = ["2026-12-25"]
"#,
    );

    let (migrated, _, steps) = migrate_config_toml_to_current_detailed(original).unwrap();
    assert!(
        !mentions_key(&migrated, "exception_dates"),
        "migrated config should not retain schedule exception date keys"
    );
    assert!(is_table(Some(&migrated)));
    assert!(get(&migrated, "session_templates").is_none());
    assert!(steps.iter().any(|step| {
        step.summary
            == "Remove deprecated schedule exception dates; schedules now use recurring windows only."
    }));
}

#[test]
fn config_migration_removes_retired_wakatime_sections() {
    let original = parse(
        r#"
schema_version = 2

[wakatime]
api_key = "waka_key"
project = "FocusTime"
language = "Rust"

[wakatime_runtime]
queue_path = "queued-heartbeats.json"
max_queue_len = 256
retry_initial_backoff_secs = 5
retry_max_backoff_secs = 300
"#,
    );

    let (migrated, _, steps) = migrate_config_toml_to_current_detailed(original).unwrap();
    assert!(is_table(Some(&migrated)));

    assert!(get(&migrated, "wakatime").is_none());
    assert!(get(&migrated, "wakatime_runtime").is_none());
    assert!(steps.iter().any(|step| {
        step.summary == "Remove retired WakaTime heartbeat config and runtime tuning sections."
    }));
}

#[test]
fn migrating_a_migrated_config_changes_nothing_more() {
    let text = r#"
selected_profile = "classic"
weekday_profile_rules = []

[profile_automation.classic]
enabled = true

[wakatime]
enabled = true
"#;
    let (once, detected, steps) = migrate_config_toml_to_current_detailed(parse(text)).unwrap();
    assert_eq!(detected, 0);
    assert!(!steps.is_empty());
    let (twice, detected_again, steps_again) =
        migrate_config_toml_to_current_detailed(parse(text)).and_then(|(m, _, _)| migrate_config_toml_to_current_detailed(m)).unwrap();
    assert_eq!(detected_again, CURRENT_CONFIG_SCHEMA_VERSION);
    assert!(steps_again.is_empty());
    assert_eq!(twice, once);
}
