use focustime::cli::status::{
    available_theme_preset_views, build_session_output, normalize_optional_task_label, profile_id,
    profile_view, resolve_profile_spec, LiveStatusOutput, ProfileSpec, SessionOutput,
};
use focustime::config::blocklists::{
    flatten_blocklist_categories, make_unique_profile_name, normalize_blocklist_categories,
    normalize_blocklist_profiles, BlocklistCategoryConfig, BlocklistProfileConfigDisk,
};
use focustime::config::settings::CustomProfileConfig;
use focustime::config::{AppConfig, BlocklistProfileConfig, ProfileId};

fn strings(values: &[&str]) -> Vec<String> {
    values.iter().map(|s| s.to_string()).collect()
}

fn category(name: &str, sites: &[&str], allowlist_sites: &[&str]) -> BlocklistCategoryConfig {
    BlocklistCategoryConfig { name: name.to_string(), sites: strings(sites), allowlist_sites: strings(allowlist_sites) }
}

fn profile(name: &str, sites: &[&str], allowlist_sites: &[&str]) -> BlocklistProfileConfig {
    BlocklistProfileConfig { name: name.to_string(), sites: strings(sites), allowlist_sites: strings(allowlist_sites) }
}

#[test]
fn normalize_merges_legacy_profile_lists_when_categories_exist() {
    let work = BlocklistProfileConfig::from_disk(BlocklistProfileConfigDisk {
        name: "Work".to_string(),
        sites: strings(&["legacy.com"]),
        allowlist_sites: strings(&["legacy-allow.com"]),
        categories: vec![category("Social", &["youtube.com"], &[])],
    });
    let cfg = AppConfig {
        selected_blocklist_profile: "Work".to_string(),
        blocklist_profiles: vec![work],
        ..AppConfig::default()
    };
    let cfg = cfg.normalize();

    let profile = &cfg.blocklist_profiles[0];
    assert!(profile.sites.contains(&"youtube.com".to_string()));
    assert!(profile.sites.contains(&"legacy.com".to_string()));
    assert!(profile.allowlist_sites.contains(&"legacy-allow.com".to_string()));
}

#[test]
fn unique_names_number_case_insensitive_duplicates() {
    let mut seen = Vec::new();
    assert_eq!(make_unique_profile_name("Social", &mut seen), "Social");
    assert_eq!(make_unique_profile_name("social", &mut seen), "social (2)");
    assert_eq!(make_unique_profile_name("SOCIAL", &mut seen), "SOCIAL (3)");
    assert_eq!(make_unique_profile_name("Social (2)", &mut seen), "Social (2) (2)");
    assert_eq!(seen, strings(&["social", "social (2)", "social (3)", "social (2) (2)"]));
}

#[test]
fn categories_keep_legacy_rules_in_the_first_general_category() {
    let normalized = normalize_blocklist_categories(
        &vec![
            category("  Social ", &["youtube.com"], &[]),
            category("general", &["docs.rs"], &[]),
            category("", &["news.com"], &["ok.com"]),
        ],
        &strings(&["legacy.com", "DOCS.rs"]),
        &strings(&["allow.com"]),
    );
    let names: Vec<&str> = normalized.iter().map(|c| c.name.as_str()).collect();
    assert_eq!(names, vec!["Social", "general", "General (2)"]);
    assert_eq!(normalized[1].sites, strings(&["docs.rs", "legacy.com"]));
    assert_eq!(normalized[1].allowlist_sites, strings(&["allow.com"]));
    assert_eq!(normalized[2].sites, strings(&["news.com"]));
}

#[test]
fn categories_without_general_get_one_for_legacy_rules() {
    let normalized = normalize_blocklist_categories(
        &vec![category("Social", &["youtube.com"], &[])],
        &strings(&["legacy.com", "Legacy.com"]),
        &Vec::new(),
    );
    assert_eq!(normalized.len(), 2);
    assert_eq!(normalized[1].name, "General");
    assert_eq!(normalized[1].sites, strings(&["legacy.com"]));

    let only_legacy = normalize_blocklist_categories(&Vec::new(), &strings(&["a.com"]), &Vec::new());
    assert_eq!(only_legacy, vec![category("General", &["a.com"], &[])]);
}

#[test]
fn flattening_categories_keeps_first_spelling_of_each_rule() {
    let (sites, allowlist_sites) = flatten_blocklist_categories(&vec![
        category("A", &["a.com", "B.com"], &["x.com"]),
        category("B", &["b.com", "c.com"], &["X.com", "y.com"]),
    ]);
    assert_eq!(sites, strings(&["a.com", "B.com", "c.com"]));
    assert_eq!(allowlist_sites, strings(&["x.com", "y.com"]));
}

#[test]
fn collapsing_profiles_loses_no_block() {
    let collapsed = normalize_blocklist_profiles(
        &vec![
            profile("Work", &["a.com"], &["b.com", "c.com"]),
            profile("Personal", &["b.com", "c.com"], &["c.com"]),
        ],
        &strings(&["legacy.com"]),
    );
    assert_eq!(collapsed.len(), 1);
    assert_eq!(collapsed[0].name, "Default");
    assert_eq!(collapsed[0].sites, strings(&["legacy.com", "a.com", "b.com", "c.com"]));
    assert_eq!(collapsed[0].allowlist_sites, strings(&["c.com"]));
}

#[test]
fn profile_views_report_the_lengths_each_profile_runs_with() {
    let custom = CustomProfileConfig { focus_secs: 0, short_break_secs: 120, long_break_secs: 0, long_break_interval: 0 };
    assert_eq!(
        resolve_profile_spec(ProfileId::DeepWork, &custom),
        ProfileSpec { focus_secs: 3000, short_break_secs: 600, long_break_secs: 1800, long_break_interval: 3 }
    );
    assert_eq!(
        resolve_profile_spec(ProfileId::Custom, &custom),
        ProfileSpec { focus_secs: 1500, short_break_secs: 120, long_break_secs: 900, long_break_interval: 4 }
    );
    let view = profile_view(ProfileId::Classic, &custom);
    assert_eq!(view.id, "basic");
    assert_eq!(view.label, "Basic");
    assert_eq!(view.focus_secs, 1500);
    assert_eq!(profile_id(ProfileId::Custom), "advanced");
    let themes: Vec<&str> = available_theme_preset_views().iter().map(|t| t.id).collect();
    assert_eq!(themes, vec!["classic", "high-contrast", "deuteranopia-friendly"]);
}

#[test]
fn task_labels_are_trimmed_and_blank_ones_dropped() {
    assert_eq!(normalize_optional_task_label(Some("  Docs ".to_string())), Some("Docs".to_string()));
    assert_eq!(normalize_optional_task_label(Some("   ".to_string())), None);
    assert_eq!(normalize_optional_task_label(None), None);
}

#[test]
fn session_output_counts_completed_and_elapsed_focus() {
    let custom = CustomProfileConfig::default();
    let mut live = LiveStatusOutput {
        state_source: "recovery",
        recovery_error: None,
        in_progress: true,
        phase: "focus",
        status: "running",
        remaining_secs: 1200,
        pomodoros_completed: 2,
        selected_profile: profile_view(ProfileId::Classic, &custom),
        selected_task_label: None,
        strict_mode_enforced: false,
    };
    assert_eq!(build_session_output(&live), SessionOutput { focused_minutes: 55, pomodoros_completed: 2 });
    live.phase = "short-break";
    assert_eq!(build_session_output(&live), SessionOutput { focused_minutes: 50, pomodoros_completed: 2 });
    live.in_progress = false;
    assert_eq!(build_session_output(&live), SessionOutput { focused_minutes: 0, pomodoros_completed: 0 });
}
