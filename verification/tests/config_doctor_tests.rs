use focustime::config::diagnostics::{
    backup_copy_error, backup_file_name, finish_config_doctor, serialize_migrated_error, write_migrated_error, finish_config_migration_assistant, run_config_doctor_step,
    run_config_migration_assistant_step, AssistantStep, ConfigDoctorReport, ConfigFileRead, DoctorStep,
};
use focustime::config::health::{
    collect_legacy_profile_rename_advice, config_health_error, config_health_warning,
    legacy_profile_token_migration_target, sort_config_health_findings, summarize_config_health,
    ConfigHealthSeverity, ConfigHealthStatus,
};
use focustime::config::toml_tree::{parse_toml_document, TomlValue};
use focustime::config::{AppConfig, BlocklistProfileConfig, NotificationConfig, ProfileId};

const CONFIG_PATH: &str = "/tmp/focustime/config.toml";

fn read(content: &str) -> ConfigFileRead {
    ConfigFileRead::Read { path: CONFIG_PATH.to_string(), content: content.to_string() }
}

fn done(step: DoctorStep) -> ConfigDoctorReport {
    match step {
        DoctorStep::Done(report) => report,
        DoctorStep::ReadSettings(_) => panic!("the doctor should have finished"),
    }
}

#[test]
fn config_doctor_reports_parse_errors() {
    let report = done(run_config_doctor_step(read("this is not valid toml !!!")));

    assert_eq!(report.action, "config-health");
    assert_eq!(report.status, ConfigHealthStatus::Error);
    assert!(report.findings.iter().any(|finding| finding.code == "config.toml_parse_error"));
}

#[test]
fn config_doctor_reports_schema_and_legacy_profile_findings() {
    let step = run_config_doctor_step(read(
        r#"
schema_version = 1
selected_profile = "deep_work"
"#,
    ));
    let progress = match step {
        DoctorStep::ReadSettings(progress) => progress,
        DoctorStep::Done(report) => panic!("unexpected early report: {report:?}"),
    };
    let settings = AppConfig { selected_profile: ProfileId::DeepWork, ..AppConfig::default() };
    let report = finish_config_doctor(progress, Ok(settings));

    assert_eq!(report.status, ConfigHealthStatus::Warning);
    assert!(!report.migration_steps.is_empty());
    assert!(report.findings.iter().any(|finding| finding.code == "config.schema_outdated"));
    assert!(report.findings.iter().any(|finding| finding.code == "config.legacy_profile_token"));
}

#[test]
fn config_doctor_stops_after_newer_schema_warning() {
    let report = done(run_config_doctor_step(read(
        r#"
schema_version = 99
selected_profile = "standard"
future_only = "ignored"
"#,
    )));

    assert_eq!(report.status, ConfigHealthStatus::Warning);
    assert!(report.findings.iter().any(|finding| finding.code == "config.schema_newer_than_supported"));
    assert!(report.findings.iter().all(|finding| finding.code != "config.deserialize_failed"));
}

#[test]
fn config_doctor_detects_legacy_automation_fields_before_normalization() {
    let step = run_config_doctor_step(read(
        r#"
[notifications]
enabled = true
sound = true
"#,
    ));
    let progress = match step {
        DoctorStep::ReadSettings(progress) => progress,
        DoctorStep::Done(report) => panic!("unexpected early report: {report:?}"),
    };
    let settings = AppConfig {
        notifications: NotificationConfig { enabled: true, sound: true },
        ..AppConfig::default()
    };
    let report = finish_config_doctor(progress, Ok(settings));

    assert!(
        report.findings.iter().any(|finding| {
            finding.code == "config.deprecated_field_in_use"
                && finding.message.contains("Deprecated top-level automation fields")
        }),
        "expected deprecation warning for top-level automation fields"
    );
}

#[test]
fn config_doctor_omits_retired_blocklist_category_warnings() {
    let step = run_config_doctor_step(read(
        r#"
schema_version = 2
selected_blocklist_profile = "Work"

[[blocklist_profiles]]
name = "Work"
selected_category = "Social"

[[blocklist_profiles.categories]]
name = "General"
sites = ["docs.rs"]
allowlist_sites = []

[[blocklist_profiles.categories]]
name = "Social"
sites = ["youtube.com"]
allowlist_sites = ["reddit.com"]
"#,
    ));
    let progress = match step {
        DoctorStep::ReadSettings(progress) => progress,
        DoctorStep::Done(report) => panic!("unexpected early report: {report:?}"),
    };
    let settings = AppConfig {
        selected_blocklist_profile: "Work".to_string(),
        blocklist_profiles: vec![BlocklistProfileConfig {
            name: "Work".to_string(),
            sites: vec!["docs.rs".to_string(), "youtube.com".to_string()],
            allowlist_sites: vec!["reddit.com".to_string()],
        }],
        ..AppConfig::default()
    };
    let report = finish_config_doctor(progress, Ok(settings));

    assert!(
        report.findings.iter().all(|finding| finding.code != "config.blocklist_category_migration"),
        "retired blocklist category paths should not produce doctor warnings: {:#?}",
        report.findings
    );
    assert!(report.migration_steps.iter().any(|step| {
        step.summary == "Flatten deprecated blocklist category rules into profile-level site lists."
    }));
}

#[test]
fn config_migration_assistant_preview_reports_changes_without_writing() {
    let original = r#"
schema_version = 1
selected_profile = "deep_work"
"#;

    let report = match run_config_migration_assistant_step(false, read(original)) {
        AssistantStep::Done(report) => report,
        AssistantStep::WriteMigrated(_) => panic!("a preview never writes"),
    };

    assert_eq!(report.action, "config-migration-guidance");
    assert!(!report.applied);
    assert!(report.changed);
    assert!(report.backup_path.is_none());
}

#[test]
fn config_migration_assistant_apply_writes_migrated_config_and_backup() {
    let original = r#"
schema_version = 1
selected_profile = "deep_work"
"#;

    let progress = match run_config_migration_assistant_step(true, read(original)) {
        AssistantStep::WriteMigrated(progress) => progress,
        AssistantStep::Done(report) => panic!("apply should write the migrated file: {report:?}"),
    };
    let entry = |key: &str| match &progress.migrated {
        TomlValue::Table(entries) => entries.iter().find(|e| e.key == key).map(|e| &e.value),
        _ => None,
    };
    assert_eq!(entry("schema_version"), Some(&TomlValue::Integer(2)));
    assert_eq!(entry("selected_profile"), Some(&TomlValue::String("standard".to_string())));

    let backup = "/tmp/focustime/config.toml.bak".to_string();
    let report = finish_config_migration_assistant(progress, Ok(backup.clone()));

    assert_eq!(report.action, "config-migration-apply");
    assert!(report.applied);
    assert!(report.changed);
    assert_eq!(report.backup_path, Some(backup));
}

#[test]
fn doctor_reports_each_unreadable_file_state() {
    let report = done(run_config_doctor_step(ConfigFileRead::PathUnavailable));
    assert_eq!(report.status, ConfigHealthStatus::Error);
    assert_eq!(report.config_path, None);
    assert_eq!(report.findings[0].code, "config.path_unavailable");

    let report = done(run_config_doctor_step(ConfigFileRead::Missing { path: CONFIG_PATH.to_string() }));
    assert_eq!(report.status, ConfigHealthStatus::Warning);
    assert_eq!(report.findings[0].message, format!("Config file `{CONFIG_PATH}` does not exist."));

    let report = done(run_config_doctor_step(ConfigFileRead::ReadFailed {
        path: CONFIG_PATH.to_string(),
        error: "permission denied".to_string(),
    }));
    assert_eq!(report.status, ConfigHealthStatus::Error);
    assert_eq!(report.findings[0].code, "config.read_failed");
    assert_eq!(report.findings[0].message, format!("Failed to read `{CONFIG_PATH}`: permission denied"));
}

#[test]
fn doctor_reports_missing_schema_version_as_migration_failure() {
    let report = done(run_config_doctor_step(read("schema_version = \"two\"")));
    assert_eq!(report.status, ConfigHealthStatus::Error);
    assert_eq!(report.findings[0].code, "config.migration_failed");
    assert_eq!(
        report.findings[0].message,
        "Config migration analysis failed: Missing or invalid `schema_version` in config.toml."
    );
    assert_eq!(report.detected_schema_version, None);
}

#[test]
fn doctor_reports_settings_that_do_not_deserialize() {
    let progress = match run_config_doctor_step(read("schema_version = 2")) {
        DoctorStep::ReadSettings(progress) => progress,
        DoctorStep::Done(report) => panic!("unexpected early report: {report:?}"),
    };
    let report = finish_config_doctor(progress, Err("invalid type".to_string()));
    assert_eq!(report.status, ConfigHealthStatus::Error);
    assert_eq!(report.detected_schema_version, Some(2));
    assert_eq!(
        report.findings.last().unwrap().message,
        "Config could not be deserialized after migration steps: invalid type"
    );
}

#[test]
fn doctor_of_a_current_default_config_is_healthy() {
    let progress = match run_config_doctor_step(read("schema_version = 2")) {
        DoctorStep::ReadSettings(progress) => progress,
        DoctorStep::Done(report) => panic!("unexpected early report: {report:?}"),
    };
    let report = finish_config_doctor(progress, Ok(AppConfig::default()));
    assert_eq!(report.status, ConfigHealthStatus::Healthy);
    assert!(report.findings.is_empty());
    assert!(report.migration_steps.is_empty());
}

#[test]
fn assistant_reports_already_current_config() {
    let report = match run_config_migration_assistant_step(true, read("schema_version = 2")) {
        AssistantStep::Done(report) => report,
        AssistantStep::WriteMigrated(_) => panic!("nothing to write"),
    };
    assert!(!report.changed);
    assert!(!report.applied);
    assert_eq!(report.findings.len(), 1);
    assert_eq!(report.findings[0].code, "config.already_current");
    assert_eq!(report.status, ConfigHealthStatus::Warning);
}

#[test]
fn assistant_reports_a_failed_write() {
    let progress = match run_config_migration_assistant_step(true, read("schema_version = 1")) {
        AssistantStep::WriteMigrated(progress) => progress,
        AssistantStep::Done(report) => panic!("apply should write: {report:?}"),
    };
    let report = finish_config_migration_assistant(progress, Err("disk full".to_string()));
    assert!(!report.applied);
    assert_eq!(report.backup_path, None);
    assert_eq!(report.status, ConfigHealthStatus::Error);
    assert!(report.findings.iter().any(|f| f.code == "config.apply_failed" && f.message == "disk full"));
}

#[test]
fn findings_sort_by_code_then_message_keeping_ties_in_order() {
    let mut findings = vec![
        config_health_warning("b.code", "second", "r1"),
        config_health_error("a.code", "zeta", "r2"),
        config_health_warning("b.code", "first", "r3"),
        config_health_warning("a.code", "alpha", "r4"),
        config_health_error("a.code", "alpha", "r5"),
    ];
    sort_config_health_findings(&mut findings);
    let order: Vec<(&str, &str, &str)> = findings
        .iter()
        .map(|f| (f.code.as_str(), f.message.as_str(), f.remediation.as_str()))
        .collect();
    assert_eq!(
        order,
        vec![
            ("a.code", "alpha", "r4"),
            ("a.code", "alpha", "r5"),
            ("a.code", "zeta", "r2"),
            ("b.code", "first", "r3"),
            ("b.code", "second", "r1"),
        ]
    );
}

#[test]
fn health_summary_takes_the_highest_severity() {
    assert_eq!(summarize_config_health(&Vec::new()), ConfigHealthStatus::Healthy);
    let warning = config_health_warning("w", "m", "r");
    assert_eq!(warning.severity, ConfigHealthSeverity::Warning);
    assert_eq!(summarize_config_health(&vec![warning.clone()]), ConfigHealthStatus::Warning);
    let error = config_health_error("e", "m", "r");
    assert_eq!(summarize_config_health(&vec![warning, error]), ConfigHealthStatus::Error);
}

#[test]
fn legacy_profile_tokens_map_to_canonical_ones() {
    assert_eq!(legacy_profile_token_migration_target(" Classic "), Some("basic"));
    assert_eq!(legacy_profile_token_migration_target("DEEPWORK"), Some("standard"));
    assert_eq!(legacy_profile_token_migration_target("deep-work"), Some("standard"));
    assert_eq!(legacy_profile_token_migration_target("custom"), Some("advanced"));
    assert_eq!(legacy_profile_token_migration_target("standard"), None);
}

#[test]
fn rename_advice_is_sorted_and_deduplicated() {
    let doc = parse_toml_document(
        r#"
selected_profile = "classic"

[profile_automation.deep_work]
strict_mode = true

[profile_automation.classic]
strict_mode = true
"#,
    )
    .unwrap();
    assert_eq!(
        collect_legacy_profile_rename_advice(&doc),
        vec![
            "[profile_automation.classic] should be renamed to [profile_automation.basic].".to_string(),
            "[profile_automation.deep_work] should be renamed to [profile_automation.standard].".to_string(),
            "selected_profile uses legacy value \"classic\"; migrate it to \"basic\".".to_string(),
        ]
    );
}

#[test]
fn doctor_report_renders_its_sections() {
    let report = done(run_config_doctor_step(ConfigFileRead::PathUnavailable));
    let lines = focustime::cli::render::config_doctor_lines(&report);
    assert_eq!(
        lines,
        vec![
            "Diagnostics workflow: config-health".to_string(),
            "Config health: error".to_string(),
            "Config path: unavailable".to_string(),
            "Detected schema version: unknown".to_string(),
            "Current schema version: 2".to_string(),
            "Migration steps: none".to_string(),
            "Findings:".to_string(),
            "  - [config.path_unavailable:error] Could not determine the config.toml path from the current environment.".to_string(),
            "    remediation: Set the platform config directory environment variables (for example APPDATA on Windows, XDG_CONFIG_HOME/HOME on Unix), then retry.".to_string(),
            "Canonical diagnostics: run `focustime --diagnostics` for setup, blocking preview, config health, and migration guidance.".to_string(),
        ]
    );
}

#[test]
fn migration_report_renders_steps_and_backup() {
    let progress = match run_config_migration_assistant_step(true, read("schema_version = 1")) {
        AssistantStep::WriteMigrated(progress) => progress,
        AssistantStep::Done(report) => panic!("apply should write: {report:?}"),
    };
    let report = finish_config_migration_assistant(progress, Ok("/tmp/c.toml.bak".to_string()));
    let lines = focustime::cli::render::config_migration_lines(&report);
    assert_eq!(lines[0], "Diagnostics workflow: config-migration-apply");
    assert_eq!(lines[1], "Config migration guidance: config-migration-apply");
    assert_eq!(lines[2], format!("Config path: {CONFIG_PATH}"));
    assert_eq!(lines[3], "Detected schema version: 1");
    assert_eq!(lines[4], "Target schema version: 2");
    assert_eq!(lines[5], "Migration changes detected: yes");
    assert_eq!(lines[6], "Migration applied: yes");
    assert_eq!(lines[7], "Migration status: ok");
    assert_eq!(lines[8], "Backup path: /tmp/c.toml.bak");
    assert_eq!(lines[9], "Migration steps:");
    assert_eq!(
        lines[10],
        "  - v1 -> v2: Rename legacy profile tokens and profile_automation preset keys to canonical values."
    );
    assert_eq!(lines[11], "Findings: none");
}

#[test]
fn config_backup_candidates_count_up_from_plain_bak() {
    assert_eq!(backup_file_name("config", 0), "config.toml.bak");
    assert_eq!(backup_file_name("config", 1), "config.toml.bak.1");
    assert_eq!(backup_file_name("config", 12), "config.toml.bak.12");
}

#[test]
fn migration_write_errors_name_the_file() {
    assert_eq!(
        backup_copy_error("/c/config.toml.bak", "denied"),
        "Failed to create config backup at `/c/config.toml.bak`: denied"
    );
    assert_eq!(
        serialize_migrated_error("bad value"),
        "Failed to serialize migrated config TOML: bad value"
    );
    assert_eq!(
        write_migrated_error("/c/config.toml", "disk full"),
        "Failed to write migrated config to `/c/config.toml`: disk full"
    );
}

#[test]
fn diagnostics_config_lines_join_both_sections_under_one_workflow() {
    let doctor = done(run_config_doctor_step(ConfigFileRead::PathUnavailable));
    let migration = match run_config_migration_assistant_step(false, ConfigFileRead::PathUnavailable) {
        AssistantStep::Done(report) => report,
        AssistantStep::WriteMigrated(_) => panic!("nothing to write without a path"),
    };
    let lines = focustime::cli::render::diagnostics_config_lines(&doctor, &migration);
    assert_eq!(lines[0], "Diagnostics workflow: diagnostics");
    assert_eq!(lines[1], "Config health: error");
    assert!(lines.contains(&"Config migration guidance: config-migration-guidance".to_string()));
    assert!(!lines.iter().any(|line| line.starts_with("Canonical diagnostics")));
}
