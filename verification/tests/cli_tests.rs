use focustime::cli::args::classify_key_value_arg;
use focustime::cli::parsing::{parse_args, parse_args_with_contract};
use focustime::cli::{
    runtime_error, usage_text, BlocklistSiteCommandKind, CliAction, CliCommand, CliError,
    CliErrorKind, CommandKind, HistoryDashboardCommandKind, OutputMode, ParsedToken,
    SiteEditValue, SiteListTarget, DEFAULT_WATCH_INTERVAL_SECS, EXIT_CODE_RUNTIME_ERROR,
    EXIT_CODE_USAGE_ERROR, USAGE_TEXT,
};
use focustime::config::{
    DailyGoalConfig, HistoryKpiCardId, ProfileId, RecurringFocusWindowConfig,
    RecurringScheduleConfig, ThemePreset,
};

fn parse(values: &[&str]) -> Result<CliAction, String> {
    parse_args(values.iter().map(|value| Some(value.to_string())).collect())
}

fn parse_with_contract(values: &[&str]) -> Result<CliAction, CliError> {
    parse_args_with_contract(values.iter().map(|value| Some(value.to_string())).collect())
}

#[test]
fn parse_without_arguments_runs_default_tui() {
    let parsed = parse(&[]).unwrap();
    assert_eq!(parsed, CliAction::RunTui);
}

#[test]
fn parse_start_runs_as_noninteractive_command() {
    let parsed = parse(&["--start"]).unwrap();
    assert_eq!(
        parsed,
        CliAction::RunCommand(CliCommand {
            kind: CommandKind::Start,
            output: OutputMode::Text
        })
    );
}

#[test]
fn parse_status_supports_json_mode() {
    let parsed = parse(&["--status", "--json"]).unwrap();
    assert_eq!(
        parsed,
        CliAction::RunCommand(CliCommand {
            kind: CommandKind::Status {
                watch_interval_secs: None,
            },
            output: OutputMode::Json
        })
    );
}

#[test]
fn parse_status_watch_without_interval_uses_default_cadence() {
    let parsed = parse(&["--status", "--watch"]).unwrap();
    assert_eq!(
        parsed,
        CliAction::RunCommand(CliCommand {
            kind: CommandKind::Status {
                watch_interval_secs: Some(DEFAULT_WATCH_INTERVAL_SECS),
            },
            output: OutputMode::Text
        })
    );
}

#[test]
fn parse_status_watch_with_equals_interval() {
    let parsed = parse(&["--status", "--watch=3"]).unwrap();
    assert_eq!(
        parsed,
        CliAction::RunCommand(CliCommand {
            kind: CommandKind::Status {
                watch_interval_secs: Some(3),
            },
            output: OutputMode::Text
        })
    );
}

#[test]
fn parse_status_watch_with_space_interval() {
    let parsed = parse(&["--status", "--watch", "2"]).unwrap();
    assert_eq!(
        parsed,
        CliAction::RunCommand(CliCommand {
            kind: CommandKind::Status {
                watch_interval_secs: Some(2),
            },
            output: OutputMode::Text
        })
    );
}

#[test]
fn parse_rejects_retired_daemon_lifecycle_options() {
    for flag in [
        "--daemon-start",
        "--daemon-status",
        "--daemon-stop",
        "--daemon-port=43123",
    ] {
        let error = parse_with_contract(&[flag, "--json"]).unwrap_err();
        assert_eq!(error.output, OutputMode::Json);
        assert!(error.message.contains(&format!("Unknown option `{flag}`")));
        assert!(error.hint.is_none());
    }
}

#[test]
fn usage_text_omits_retired_daemon_lifecycle_options() {
    let usage = usage_text();
    for retired in [
        "--daemon-start",
        "--daemon-status",
        "--daemon-stop",
        "--daemon-port",
    ] {
        assert!(!usage.contains(retired));
    }
}

#[test]
fn usage_text_omits_retired_config_diagnostics_commands() {
    let usage = usage_text();
    for retired in [
        "--config-doctor",
        "--config-migrate",
        "--config-migrate-apply",
    ] {
        assert!(!usage.contains(retired));
    }
    assert!(usage.contains("--diagnostics"));
}

#[test]
fn usage_text_keeps_supported_cli_automation_replacements() {
    let usage = usage_text();
    for supported in [
        "--start", "--pause", "--resume", "--stop", "--next", "--task",
    ] {
        assert!(usage.contains(supported));
    }
}

#[test]
fn usage_text_omits_break_glass_commands() {
    let usage = usage_text();
    assert!(!usage.contains("--break-glass-trigger"));
    assert!(!usage.contains("--break-glass-cancel"));
}

#[test]
fn parse_rejects_status_comparison_options_as_unknown_options() {
    let error = parse_with_contract(&[
        "--status",
        "--compare-by",
        "time-of-day",
        "--compare-task",
        "Docs",
        "--compare-profile",
        "classic",
        "--compare-time",
        "night",
        "--compare-limit",
        "3",
    ])
    .unwrap_err();

    assert_eq!(error.exit_code(), EXIT_CODE_USAGE_ERROR);
    assert!(error.message.contains("Unknown option `--compare-by`."));
    assert!(error.hint.is_none());
}

#[test]
fn parse_rejects_equals_status_comparison_options_as_unknown_options() {
    let error = parse_with_contract(&["--status", "--compare-time=night"]).unwrap_err();

    assert!(
        error
            .message
            .contains("Unknown option `--compare-time=night`.")
    );
    assert!(error.hint.is_none());
}

#[test]
fn parse_rejects_comparison_options_without_status_as_unknown_options() {
    let error = parse_with_contract(&["--compare-by", "task"]).unwrap_err();

    assert!(error.message.contains("Unknown option `--compare-by`."));
    assert!(error.hint.is_none());
}

#[test]
fn parse_pause_supports_json_mode() {
    let parsed = parse(&["--pause", "--json"]).unwrap();
    assert_eq!(
        parsed,
        CliAction::RunCommand(CliCommand {
            kind: CommandKind::Pause,
            output: OutputMode::Json
        })
    );
}

#[test]
fn parse_task_with_equals_sets_label() {
    let parsed = parse(&["--task=Docs"]).unwrap();
    assert_eq!(
        parsed,
        CliAction::RunCommand(CliCommand {
            kind: CommandKind::Task {
                label: "Docs".to_string()
            },
            output: OutputMode::Text
        })
    );
}

#[test]
fn parse_task_with_value_sets_label() {
    let parsed = parse(&["--task", "Docs"]).unwrap();
    assert_eq!(
        parsed,
        CliAction::RunCommand(CliCommand {
            kind: CommandKind::Task {
                label: "Docs".to_string()
            },
            output: OutputMode::Text
        })
    );
}

#[test]
fn parse_task_note_without_value_is_removed() {
    let error = parse_with_contract(&["--task-note"]).unwrap_err();

    assert_eq!(error.exit_code(), EXIT_CODE_USAGE_ERROR);
    assert!(error.message.contains("Unknown option `--task-note`."));
    assert_eq!(
        error.hint.as_deref(),
        Some(
            "Use `--task` to select the active task label; task labels are the supported session context."
        )
    );
}

#[test]
fn parse_task_goal_without_value_is_removed() {
    let error = parse_with_contract(&["--task-goal"]).unwrap_err();

    assert_eq!(error.exit_code(), EXIT_CODE_USAGE_ERROR);
    assert!(error.message.contains("Unknown option `--task-goal`."));
    assert_eq!(
        error.hint.as_deref(),
        Some("Use `--goal` for the daily goal; task labels remain available through `--task`.")
    );
}

#[test]
fn parse_task_goal_with_equals_value_is_removed() {
    let error = parse_with_contract(&["--task-goal=Docs:120,4"]).unwrap_err();

    assert_eq!(error.exit_code(), EXIT_CODE_USAGE_ERROR);
    assert!(
        error
            .message
            .contains("Unknown option `--task-goal=Docs:120,4`.")
    );
    assert_eq!(
        error.hint.as_deref(),
        Some("Use `--goal` for the daily goal; task labels remain available through `--task`.")
    );
}

#[test]
fn parse_task_note_with_value_is_removed() {
    let error = parse_with_contract(&["--task-note", "Capture blockers"]).unwrap_err();

    assert_eq!(error.exit_code(), EXIT_CODE_USAGE_ERROR);
    assert!(error.message.contains("Unknown option `--task-note`."));
}

#[test]
fn parse_profile_supports_json_mode() {
    let parsed = parse(&["--profile", "--json"]).unwrap();
    assert_eq!(
        parsed,
        CliAction::RunCommand(CliCommand {
            kind: CommandKind::Profile { profile: None },
            output: OutputMode::Json
        })
    );
}

#[test]
fn parse_profile_without_value_reads_current_profile() {
    let parsed = parse(&["--profile"]).unwrap();
    assert_eq!(
        parsed,
        CliAction::RunCommand(CliCommand {
            kind: CommandKind::Profile { profile: None },
            output: OutputMode::Text
        })
    );
}

#[test]
fn parse_profile_with_value_sets_profile() {
    let parsed = parse(&["--profile", "deep-work"]).unwrap();
    assert_eq!(
        parsed,
        CliAction::RunCommand(CliCommand {
            kind: CommandKind::Profile {
                profile: Some(ProfileId::DeepWork)
            },
            output: OutputMode::Text
        })
    );
}

#[test]
fn parse_profile_with_equals_sets_profile() {
    let parsed = parse(&["--profile=classic"]).unwrap();
    assert_eq!(
        parsed,
        CliAction::RunCommand(CliCommand {
            kind: CommandKind::Profile {
                profile: Some(ProfileId::Classic)
            },
            output: OutputMode::Text
        })
    );
}

#[test]
fn parse_theme_without_value_reads_current_theme() {
    let parsed = parse(&["--theme"]).unwrap();
    assert_eq!(
        parsed,
        CliAction::RunCommand(CliCommand {
            kind: CommandKind::Theme { preset: None },
            output: OutputMode::Text
        })
    );
}

#[test]
fn parse_theme_with_value_sets_theme() {
    let parsed = parse(&["--theme", "high-contrast"]).unwrap();
    assert_eq!(
        parsed,
        CliAction::RunCommand(CliCommand {
            kind: CommandKind::Theme {
                preset: Some(ThemePreset::HighContrast)
            },
            output: OutputMode::Text
        })
    );
}

#[test]
fn parse_theme_with_equals_sets_theme() {
    let parsed = parse(&["--theme=deuteranopia-friendly"]).unwrap();
    assert_eq!(
        parsed,
        CliAction::RunCommand(CliCommand {
            kind: CommandKind::Theme {
                preset: Some(ThemePreset::DeuteranopiaFriendly)
            },
            output: OutputMode::Text
        })
    );
}

#[test]
fn parse_goal_without_value_reads_current_goal() {
    let parsed = parse(&["--goal"]).unwrap();
    assert_eq!(
        parsed,
        CliAction::RunCommand(CliCommand {
            kind: CommandKind::Goal { goal: None },
            output: OutputMode::Text
        })
    );
}

#[test]
fn parse_goal_with_equals_sets_goal() {
    let parsed = parse(&["--goal=120,4"]).unwrap();
    assert_eq!(
        parsed,
        CliAction::RunCommand(CliCommand {
            kind: CommandKind::Goal {
                goal: Some(DailyGoalConfig {
                    minutes: 120,
                    pomodoros: 4
                })
            },
            output: OutputMode::Text
        })
    );
}

#[test]
fn parse_goal_with_value_sets_goal() {
    let parsed = parse(&["--goal", "45,2"]).unwrap();
    assert_eq!(
        parsed,
        CliAction::RunCommand(CliCommand {
            kind: CommandKind::Goal {
                goal: Some(DailyGoalConfig {
                    minutes: 45,
                    pomodoros: 2
                })
            },
            output: OutputMode::Text
        })
    );
}

#[test]
fn parse_rejects_weekly_goal_without_value() {
    let error = parse(&["--goal-weekly"]).unwrap_err();
    assert!(error.contains("Unknown option `--goal-weekly`"));
    assert!(error.contains("Weekly and monthly goal commands were removed."));
}

#[test]
fn parse_rejects_weekly_goal_with_equals_value() {
    let error = parse(&["--goal-weekly=420,14"]).unwrap_err();
    assert!(error.contains("Unknown option `--goal-weekly=420,14`"));
    assert!(error.contains("Weekly and monthly goal commands were removed."));
}

#[test]
fn parse_rejects_monthly_goal_with_value() {
    let error = parse(&["--goal-monthly", "1800,60"]).unwrap_err();
    assert!(error.contains("Unknown option `--goal-monthly`"));
    assert!(error.contains("Weekly and monthly goal commands were removed."));
}

#[test]
fn parse_strict_without_value_reads_current_state() {
    let parsed = parse(&["--strict"]).unwrap();
    assert_eq!(
        parsed,
        CliAction::RunCommand(CliCommand {
            kind: CommandKind::Strict { enabled: None },
            output: OutputMode::Text
        })
    );
}

#[test]
fn parse_strict_with_equals_sets_state() {
    let parsed = parse(&["--strict=on"]).unwrap();
    assert_eq!(
        parsed,
        CliAction::RunCommand(CliCommand {
            kind: CommandKind::Strict {
                enabled: Some(true)
            },
            output: OutputMode::Text
        })
    );
}

#[test]
fn parse_goal_carry_without_value_reads_current_state() {
    let parsed = parse(&["--goal-carry"]).unwrap();
    assert_eq!(
        parsed,
        CliAction::RunCommand(CliCommand {
            kind: CommandKind::GoalCarry { enabled: None },
            output: OutputMode::Text
        })
    );
}

#[test]
fn parse_rejects_goal_carry_weekly_with_equals_value() {
    let error = parse(&["--goal-carry-weekly=on"]).unwrap_err();
    assert!(error.contains("Unknown option `--goal-carry-weekly=on`"));
    assert!(error.contains("Weekly and monthly goal carry-over commands were removed."));
}

#[test]
fn parse_rejects_goal_carry_monthly_with_value() {
    let error = parse(&["--goal-carry-monthly", "off"]).unwrap_err();
    assert!(error.contains("Unknown option `--goal-carry-monthly`"));
    assert!(error.contains("Weekly and monthly goal carry-over commands were removed."));
}

#[test]
fn parse_schedule_reads_current_schedule() {
    let parsed = parse(&["--schedule"]).unwrap();
    assert_eq!(
        parsed,
        CliAction::RunCommand(CliCommand {
            kind: CommandKind::Schedule { schedule: None },
            output: OutputMode::Text
        })
    );
}

#[test]
fn parse_weekday_rules_is_retired() {
    let error = parse(&["--weekday-rules"]).unwrap_err();
    assert!(error.contains("Unknown option `--weekday-rules`"));
}

#[test]
fn parse_automation_triggers_is_retired() {
    let error = parse(&["--automation-triggers"]).unwrap_err();
    assert!(error.contains("Unknown option `--automation-triggers`"));
    assert!(error.contains("Standalone automation trigger commands were removed."));
}

#[test]
fn parse_break_glass_commands_are_removed_with_guidance() {
    for flag in ["--break-glass-trigger", "--break-glass-cancel"] {
        let error = parse_with_contract(&[flag]).unwrap_err();
        assert_eq!(error.exit_code(), EXIT_CODE_USAGE_ERROR);
        assert!(error.message.contains(&format!("Unknown option `{flag}`.")));
        assert_eq!(
            error.hint.as_deref(),
            Some(
                "Use normal timer controls (`--pause`, `--resume`, `--stop`, `--next`) or manage blocked sites with blocklist commands."
            )
        );
    }
}

#[test]
fn parse_schedule_set_accepts_json_payload() {
    let payload = r#"{"windows":[{"days":["mon","wed"],"start":"09:00","end":"11:00"}]}"#;
    let parsed = parse_args(vec![Some(String::from("--schedule-set")), Some(String::from(payload))]).unwrap();
    assert_eq!(
        parsed,
        CliAction::RunCommand(CliCommand {
            kind: CommandKind::Schedule {
                schedule: Some(RecurringScheduleConfig {
                    windows: vec![RecurringFocusWindowConfig {
                        days: vec!["mon".to_string(), "wed".to_string()],
                        start: "09:00".to_string(),
                        end: "11:00".to_string(),
                    }],
                }),
            },
            output: OutputMode::Text
        })
    );
}

#[test]
fn parse_schedule_set_rejects_one_time_windows_payload() {
    let payload = r#"{"windows":[],"one_time_windows":[{"date":"2026-05-02","start":"14:00","end":"15:30"}]}"#;
    let error = parse_args(vec![Some(String::from("--schedule-set")), Some(String::from(payload))])
        .expect_err("one-time schedule windows should be rejected");

    assert!(error.contains("one_time_windows"));
}

#[test]
fn parse_automation_triggers_set_is_retired() {
    let payload = r#"[{"trigger":{"type":"focus_completed"},"action":{"type":"start_focus"}}]"#;
    let error = parse_args(vec![
        Some(String::from("--automation-triggers-set")),
        Some(String::from(payload)),
    ])
    .unwrap_err();
    assert!(error.contains("Unknown option `--automation-triggers-set`"));
}

#[test]
fn parse_diagnostics_supports_json_mode() {
    let parsed = parse(&["--diagnostics", "--json"]).unwrap();
    assert_eq!(
        parsed,
        CliAction::RunCommand(CliCommand {
            kind: CommandKind::Diagnostics,
            output: OutputMode::Json
        })
    );
}

#[test]
fn parse_rejects_retired_config_diagnostics_commands_with_guidance() {
    for flag in [
        "--config-doctor",
        "--config-migrate",
        "--config-migrate-apply",
    ] {
        let error = parse_with_contract(&[flag, "--json"]).unwrap_err();
        assert_eq!(error.output, OutputMode::Json);
        assert!(error.message.contains(&format!("Unknown option `{flag}`")));
        assert!(
            error
                .message
                .contains("Dedicated config diagnostics commands were removed.")
        );
        assert_eq!(
            error.hint.as_deref(),
            Some(
                "Use `focustime --diagnostics` for setup checks, config health, and migration guidance."
            )
        );
    }
}

#[test]
fn parse_blocking_preview_reports_unknown_option() {
    let error = parse(&["--blocking-preview", "--json"]).unwrap_err();
    assert!(error.contains("Unknown option `--blocking-preview`"));
}

#[test]
fn parse_export_accepts_optional_directory() {
    let parsed = parse(&["--export", "reports"]).unwrap();
    assert_eq!(
        parsed,
        CliAction::RunCommand(CliCommand {
            kind: CommandKind::Export {
                dir: Some(String::from("reports"))
            },
            output: OutputMode::Text
        })
    );
}

#[test]
fn parse_backup_accepts_optional_directory() {
    let parsed = parse(&["--backup", "reports"]).unwrap();
    assert_eq!(
        parsed,
        CliAction::RunCommand(CliCommand {
            kind: CommandKind::Backup {
                dir: Some(String::from("reports"))
            },
            output: OutputMode::Text
        })
    );
}

#[test]
fn parse_backup_without_value_uses_default_directory() {
    let parsed = parse(&["--backup"]).unwrap();
    assert_eq!(
        parsed,
        CliAction::RunCommand(CliCommand {
            kind: CommandKind::Backup { dir: None },
            output: OutputMode::Text
        })
    );
}

#[test]
fn parse_backup_with_equals_accepts_directory() {
    let parsed = parse(&["--backup=reports"]).unwrap();
    assert_eq!(
        parsed,
        CliAction::RunCommand(CliCommand {
            kind: CommandKind::Backup {
                dir: Some(String::from("reports"))
            },
            output: OutputMode::Text
        })
    );
}

#[test]
fn parse_restore_accepts_optional_directory() {
    let parsed = parse(&["--restore", "reports"]).unwrap();
    assert_eq!(
        parsed,
        CliAction::RunCommand(CliCommand {
            kind: CommandKind::Restore {
                dir: Some(String::from("reports"))
            },
            output: OutputMode::Text
        })
    );
}

#[test]
fn parse_restore_without_value_uses_default_directory() {
    let parsed = parse(&["--restore"]).unwrap();
    assert_eq!(
        parsed,
        CliAction::RunCommand(CliCommand {
            kind: CommandKind::Restore { dir: None },
            output: OutputMode::Text
        })
    );
}

#[test]
fn parse_restore_with_equals_accepts_directory() {
    let parsed = parse(&["--restore=reports"]).unwrap();
    assert_eq!(
        parsed,
        CliAction::RunCommand(CliCommand {
            kind: CommandKind::Restore {
                dir: Some(String::from("reports"))
            },
            output: OutputMode::Text
        })
    );
}

#[test]
fn parse_calendar_sync_is_retired() {
    let error = parse_with_contract(&["--calendar-sync", "--json"]).unwrap_err();

    assert_eq!(error.exit_code(), EXIT_CODE_USAGE_ERROR);
    assert!(error.message.contains("Unknown option `--calendar-sync`."));
    assert!(error.hint.is_none());
}

#[test]
fn parse_export_with_equals_accepts_directory() {
    let parsed = parse(&["--export=reports"]).unwrap();
    assert_eq!(
        parsed,
        CliAction::RunCommand(CliCommand {
            kind: CommandKind::Export {
                dir: Some(String::from("reports"))
            },
            output: OutputMode::Text
        })
    );
}

#[test]
fn parse_feature_inventory_is_retired() {
    let error = parse_with_contract(&["--feature-inventory=reports", "--json"]).unwrap_err();

    assert_eq!(error.exit_code(), EXIT_CODE_USAGE_ERROR);
    assert_eq!(error.output, OutputMode::Json);
    assert!(
        error
            .message
            .contains("Unknown option `--feature-inventory=reports`.")
    );
    assert!(error.hint.is_none());
}

#[test]
fn parse_blocklist_profile_commands_are_retired() {
    for args in [
        &["--blocklist-profile"][..],
        &["--blocklist-profile", "Work"][..],
        &["--blocklist-profile-create", "Work"][..],
        &["--blocklist-profile-create=Work"][..],
        &["--blocklist-profile-rename", "Deep Work"][..],
        &["--blocklist-profile-rename=Deep Work"][..],
        &["--blocklist-profile-delete"][..],
    ] {
        let error = parse(args).unwrap_err();
        assert!(error.contains("Unknown option `--blocklist-profile"));
        assert!(error.contains("Blocklist profile commands were removed."));
    }
}

#[test]
fn parse_history_dashboard_without_value_reads_dashboard_state() {
    let parsed = parse(&["--history-dashboard"]).unwrap();
    assert_eq!(
        parsed,
        CliAction::RunCommand(CliCommand {
            kind: CommandKind::HistoryDashboard {
                command: HistoryDashboardCommandKind::Show
            },
            output: OutputMode::Text
        })
    );
}

#[test]
fn parse_rejects_retired_history_dashboard_customization_flags() {
    for values in [
        &["--history-dashboard-pin", "focus_score"][..],
        &["--history-dashboard-unpin=goal_streak"][..],
        &["--history-dashboard-order=focus_score,goal_streak"][..],
    ] {
        let error = parse(values).unwrap_err();
        assert!(error.contains("Unknown option `"));
        assert!(error.contains("--history-dashboard"));
    }
}

#[test]
fn usage_text_omits_retired_history_dashboard_customization_flags() {
    assert!(!USAGE_TEXT.contains("--history-dashboard-pin"));
    assert!(!USAGE_TEXT.contains("--history-dashboard-unpin"));
    assert!(!USAGE_TEXT.contains("--history-dashboard-order"));
    assert!(USAGE_TEXT.contains("--history-dashboard [--json]"));
}

#[test]
fn parse_rejects_removed_blocklist_category_flags() {
    for values in [
        &["--blocklist-category"][..],
        &["--blocklist-category=Social"][..],
        &["--blocklist-category-create", "Social"][..],
        &["--blocklist-category-create=Social"][..],
        &["--blocklist-category-rename", "Focus"][..],
        &["--blocklist-category-rename=Focus"][..],
        &["--blocklist-category-delete"][..],
    ] {
        let error = parse(values).unwrap_err();
        assert!(error.contains("Unknown option `--blocklist-category"));
    }
}

#[test]
fn usage_text_omits_removed_blocklist_category_flags() {
    assert!(!USAGE_TEXT.contains("--blocklist-category"));
    assert!(USAGE_TEXT.contains("--blocklist-sites [--json]"));
    assert!(!USAGE_TEXT.contains("--allowlist-sites"));
}

#[test]
fn parse_blocklist_site_add_with_equals() {
    let parsed = parse(&["--blocklist-site-add=github.com,news.ycombinator.com"]).unwrap();
    assert_eq!(
        parsed,
        CliAction::RunCommand(CliCommand {
            kind: CommandKind::BlocklistSites {
                target: SiteListTarget::Blocklist,
                command: BlocklistSiteCommandKind::Add {
                    input: "github.com,news.ycombinator.com".to_string()
                }
            },
            output: OutputMode::Text
        })
    );
}

#[test]
fn parse_allowlist_site_add_temporary_is_removed() {
    let error =
        parse_with_contract(&["--allowlist-site-add-temporary=reddit.com=30m"]).unwrap_err();

    assert!(
        error
            .message
            .contains("Temporary allowlist commands were removed.")
    );
    assert_eq!(
        error.hint.as_deref(),
        Some(
            "Use blocklist site commands for CLI site-rule management; keep persistent exceptions in `allowlist_sites` config when needed."
        )
    );
}

#[test]
fn parse_allowlist_site_management_commands_are_removed_with_guidance() {
    for args in [
        &["--allowlist-sites"][..],
        &["--allowlist-site-add", "reddit.com"][..],
        &["--allowlist-site-add=reddit.com"][..],
        &["--allowlist-site-edit", "old.com=new.com"][..],
        &["--allowlist-site-edit=old.com=new.com"][..],
        &["--allowlist-site-delete", "reddit.com"][..],
        &["--allowlist-site-delete=reddit.com"][..],
    ] {
        let error = parse_with_contract(args).unwrap_err();
        assert_eq!(error.exit_code(), EXIT_CODE_USAGE_ERROR);
        assert!(error.message.contains("Unknown option `--allowlist-"));
        assert!(
            error
                .message
                .contains("Allowlist site management commands were removed.")
        );
        assert_eq!(
            error.hint.as_deref(),
            Some(
                "Manage blocked hostnames with `--blocklist-sites`, `--blocklist-site-add`, `--blocklist-site-edit`, and `--blocklist-site-delete`; keep exceptions in `allowlist_sites` config when needed."
            )
        );
    }
}

#[test]
fn classify_key_value_arg_accepts_profile_equals_value() {
    let parsed = classify_key_value_arg("--profile=deep-work").unwrap();
    assert_eq!(
        parsed,
        Some(ParsedToken::Profile(Some(ProfileId::DeepWork)))
    );
}

#[test]
fn classify_key_value_arg_accepts_theme_equals_value() {
    let parsed = classify_key_value_arg("--theme=high_contrast").unwrap();
    assert_eq!(
        parsed,
        Some(ParsedToken::Theme(Some(ThemePreset::HighContrast)))
    );
}

#[test]
fn classify_key_value_arg_accepts_task_equals_value() {
    let parsed = classify_key_value_arg("--task=Docs").unwrap();
    assert_eq!(parsed, Some(ParsedToken::Task("Docs".to_string())));
}

#[test]
fn classify_key_value_arg_rejects_empty_task_equals_value() {
    let error = classify_key_value_arg("--task=").unwrap_err();
    assert!(error.contains("`--task=` requires a task label."));
}

#[test]
fn classify_key_value_arg_rejects_empty_profile_equals_value() {
    let error = classify_key_value_arg("--profile=").unwrap_err();
    assert!(error.contains("`--profile=` requires a profile value."));
}

#[test]
fn classify_key_value_arg_rejects_empty_theme_equals_value() {
    let error = classify_key_value_arg("--theme=").unwrap_err();
    assert!(error.contains("`--theme=` requires a theme value."));
}

#[test]
fn classify_key_value_arg_accepts_export_equals_value() {
    let parsed = classify_key_value_arg("--export=reports").unwrap();
    assert_eq!(
        parsed,
        Some(ParsedToken::Export(Some(String::from("reports"))))
    );
}

#[test]
fn classify_key_value_arg_accepts_backup_equals_value() {
    let parsed = classify_key_value_arg("--backup=reports").unwrap();
    assert_eq!(
        parsed,
        Some(ParsedToken::Backup(Some(String::from("reports"))))
    );
}

#[test]
fn classify_key_value_arg_accepts_restore_equals_value() {
    let parsed = classify_key_value_arg("--restore=reports").unwrap();
    assert_eq!(
        parsed,
        Some(ParsedToken::Restore(Some(String::from("reports"))))
    );
}

#[test]
fn classify_key_value_arg_accepts_goal_equals_value() {
    let parsed = classify_key_value_arg("--goal=90,3").unwrap();
    assert_eq!(
        parsed,
        Some(ParsedToken::Goal(Some(DailyGoalConfig {
            minutes: 90,
            pomodoros: 3
        })))
    );
}

#[test]
fn classify_key_value_arg_ignores_weekly_goal_equals_value() {
    assert_eq!(
        classify_key_value_arg("--goal-weekly=420,14").unwrap(),
        None
    );
}

#[test]
fn classify_key_value_arg_ignores_monthly_goal_equals_value() {
    assert_eq!(
        classify_key_value_arg("--goal-monthly=1800,60").unwrap(),
        None
    );
}

#[test]
fn classify_key_value_arg_accepts_strict_equals_value() {
    let parsed = classify_key_value_arg("--strict=off").unwrap();
    assert_eq!(parsed, Some(ParsedToken::Strict(Some(false))));
}

#[test]
fn classify_key_value_arg_accepts_goal_carry_equals_value() {
    let parsed = classify_key_value_arg("--goal-carry=on").unwrap();
    assert_eq!(parsed, Some(ParsedToken::GoalCarry(Some(true))));
}

#[test]
fn classify_key_value_arg_ignores_goal_carry_weekly_equals_value() {
    assert_eq!(
        classify_key_value_arg("--goal-carry-weekly=off").unwrap(),
        None
    );
}

#[test]
fn classify_key_value_arg_ignores_goal_carry_monthly_equals_value() {
    assert_eq!(
        classify_key_value_arg("--goal-carry-monthly=on").unwrap(),
        None
    );
}

#[test]
fn classify_key_value_arg_accepts_schedule_set_equals_value() {
    let payload =
        "--schedule-set={\"windows\":[{\"days\":[\"fri\"],\"start\":\"10:00\",\"end\":\"11:00\"}]}";
    let parsed = classify_key_value_arg(payload).unwrap();
    assert_eq!(
        parsed,
        Some(ParsedToken::ScheduleSet(RecurringScheduleConfig {
            windows: vec![RecurringFocusWindowConfig {
                days: vec!["fri".to_string()],
                start: "10:00".to_string(),
                end: "11:00".to_string(),
            }],
        }))
    );
}

#[test]
fn classify_key_value_arg_ignores_automation_triggers_set_equals_value() {
    let payload = "--automation-triggers-set=[{\"trigger\":{\"type\":\"schedule_window_start\"},\"action\":{\"type\":\"start_focus\"}}]";
    assert_eq!(classify_key_value_arg(payload).unwrap(), None);
}

#[test]
fn classify_key_value_arg_ignores_retired_history_dashboard_customization() {
    assert_eq!(
        classify_key_value_arg("--history-dashboard-pin=focus_score").unwrap(),
        None
    );
    assert_eq!(
        classify_key_value_arg("--history-dashboard-order=focus_score,goal_streak").unwrap(),
        None
    );
}

#[test]
fn classify_key_value_arg_rejects_empty_export_equals_value() {
    let error = classify_key_value_arg("--export=").unwrap_err();
    assert!(error.contains("`--export=` requires a target directory."));
}

#[test]
fn classify_key_value_arg_rejects_empty_backup_equals_value() {
    let error = classify_key_value_arg("--backup=").unwrap_err();
    assert!(error.contains("`--backup=` requires a target directory."));
}

#[test]
fn classify_key_value_arg_rejects_empty_restore_equals_value() {
    let error = classify_key_value_arg("--restore=").unwrap_err();
    assert!(error.contains("`--restore=` requires a source directory."));
}

#[test]
fn classify_key_value_arg_rejects_empty_goal_equals_value() {
    let error = classify_key_value_arg("--goal=").unwrap_err();
    assert!(error.contains("`--goal=` requires values"));
}

#[test]
fn classify_key_value_arg_ignores_empty_weekly_goal_equals_value() {
    assert_eq!(classify_key_value_arg("--goal-weekly=").unwrap(), None);
}

#[test]
fn classify_key_value_arg_ignores_empty_monthly_goal_equals_value() {
    assert_eq!(classify_key_value_arg("--goal-monthly=").unwrap(), None);
}

#[test]
fn classify_key_value_arg_rejects_empty_strict_equals_value() {
    let error = classify_key_value_arg("--strict=").unwrap_err();
    assert!(error.contains("`--strict=` requires `on` or `off`"));
}

#[test]
fn classify_key_value_arg_rejects_empty_goal_carry_equals_value() {
    let error = classify_key_value_arg("--goal-carry=").unwrap_err();
    assert!(error.contains("`--goal-carry=` requires `on` or `off`"));
}

#[test]
fn classify_key_value_arg_ignores_empty_goal_carry_weekly_equals_value() {
    assert_eq!(
        classify_key_value_arg("--goal-carry-weekly=").unwrap(),
        None
    );
}

#[test]
fn classify_key_value_arg_ignores_empty_goal_carry_monthly_equals_value() {
    assert_eq!(
        classify_key_value_arg("--goal-carry-monthly=").unwrap(),
        None
    );
}

#[test]
fn classify_key_value_arg_rejects_empty_schedule_set_equals_value() {
    let error = classify_key_value_arg("--schedule-set=").unwrap_err();
    assert!(error.contains("`--schedule-set=` requires a JSON payload."));
}

#[test]
fn parse_weekday_rules_set_equals_is_retired() {
    let error = parse(&["--weekday-rules-set=[]"]).unwrap_err();
    assert!(error.contains("Unknown option `--weekday-rules-set=[]`"));
}

#[test]
fn parse_automation_triggers_set_equals_is_retired() {
    let error = parse(&["--automation-triggers-set=[]"]).unwrap_err();
    assert!(error.contains("Unknown option `--automation-triggers-set=[]`"));
}

#[test]
fn parse_session_template_commands_are_retired() {
    for option in [
        "--session-template",
        "--session-template=Deep Flow",
        "--session-template-apply",
        "--session-template-apply=Deep Flow",
        "--session-template-create",
        "--session-template-create=Deep Flow",
        "--session-template-rename",
        "--session-template-rename=Deep Flow",
        "--session-template-delete",
        "--session-template-delete=Deep Flow",
    ] {
        let error = parse(&[option]).unwrap_err();
        assert!(error.contains("Session template commands were removed."));
    }
}

#[test]
fn parse_help_returns_show_help_action() {
    let parsed = parse(&["--help"]).unwrap();
    assert_eq!(parsed, CliAction::ShowHelp);
}

#[test]
fn parse_help_short_circuits_unknown_arguments() {
    let parsed = parse(&["--help", "--unknown"]).unwrap();
    assert_eq!(parsed, CliAction::ShowHelp);
}

#[test]
fn parse_rejects_task_without_value() {
    let error = parse(&["--task"]).unwrap_err();
    assert!(error.contains("`--task` requires a task label"));
}

#[test]
fn parse_rejects_task_with_blank_value() {
    let error = parse(&["--task", "   "]).unwrap_err();
    assert!(error.contains("`--task` requires a task label"));
}

#[test]
fn parse_rejects_task_note_with_blank_equals_value_as_removed_option() {
    let error = parse(&["--task-note="]).unwrap_err();
    assert!(error.contains("Unknown option `--task-note=`."));
}

#[test]
fn parse_rejects_theme_with_unknown_value() {
    let error = parse(&["--theme=solarized"]).unwrap_err();
    assert!(error.contains("Invalid theme preset"));
}

#[test]
fn parse_rejects_goal_without_two_numbers() {
    let error = parse(&["--goal=120"]).unwrap_err();
    assert!(error.contains("Invalid goal"));
}

#[test]
fn parse_rejects_weekly_goal_as_removed_even_with_invalid_shape() {
    let error = parse(&["--goal-weekly=120"]).unwrap_err();
    assert!(error.contains("Unknown option `--goal-weekly=120`"));
}

#[test]
fn parse_rejects_monthly_goal_as_removed_even_with_invalid_shape() {
    let error = parse(&["--goal-monthly=120"]).unwrap_err();
    assert!(error.contains("Unknown option `--goal-monthly=120`"));
}

#[test]
fn parse_rejects_strict_with_unknown_value() {
    let error = parse(&["--strict=enabled"]).unwrap_err();
    assert!(error.contains("Invalid strict mode"));
}

#[test]
fn parse_rejects_goal_carry_with_unknown_value() {
    let error = parse(&["--goal-carry=enabled"]).unwrap_err();
    assert!(error.contains("Invalid goal carry-over"));
}

#[test]
fn parse_rejects_schedule_set_without_payload() {
    let error = parse(&["--schedule-set"]).unwrap_err();
    assert!(error.contains("`--schedule-set` requires a JSON payload"));
}

#[test]
fn parse_rejects_weekday_rules_set_without_payload_as_retired() {
    let error = parse(&["--weekday-rules-set"]).unwrap_err();
    assert!(error.contains("Unknown option `--weekday-rules-set`"));
}

#[test]
fn parse_rejects_automation_triggers_set_without_payload_as_retired() {
    let error = parse(&["--automation-triggers-set"]).unwrap_err();
    assert!(error.contains("Unknown option `--automation-triggers-set`"));
}

#[test]
fn parse_rejects_blocklist_profile_create_without_value_as_retired() {
    let error = parse(&["--blocklist-profile-create"]).unwrap_err();
    assert!(error.contains("Unknown option `--blocklist-profile-create`"));
    assert!(error.contains("Blocklist profile commands were removed."));
}

#[test]
fn parse_rejects_blocklist_site_edit_without_old_new_separator() {
    let error = parse(&["--blocklist-site-edit=example.com"]).unwrap_err();
    assert!(error.contains("Invalid site edit"));
}

#[test]
fn parse_rejects_schedule_set_with_invalid_weekday() {
    let payload = r#"{"windows":[{"days":["nonday"],"start":"09:00","end":"10:00"}]}"#;
    let error =
        parse_args(vec![Some(String::from("--schedule-set")), Some(String::from(payload))]).unwrap_err();
    assert!(error.contains("unknown weekday"));
}

#[test]
fn parse_rejects_schedule_set_with_deprecated_exception_dates() {
    let payload = r#"{"windows":[{"days":["mon"],"start":"09:00","end":"10:00"}],"exception_dates":["2026-99-99"]}"#;
    let error =
        parse_args(vec![Some(String::from("--schedule-set")), Some(String::from(payload))]).unwrap_err();
    assert!(error.contains("exception_dates"));
}

#[test]
fn parse_rejects_schedule_set_with_deprecated_one_time_windows() {
    let payload = r#"{"windows":[],"one_time_windows":[]}"#;
    let error =
        parse_args(vec![Some(String::from("--schedule-set")), Some(String::from(payload))]).unwrap_err();
    assert!(error.contains("one_time_windows"));
}

#[test]
fn parse_rejects_multiple_primary_commands() {
    let error = parse(&["--status", "--export"]).unwrap_err();
    assert!(error.contains("Multiple primary commands"));
}

#[test]
fn parse_rejects_multiple_primary_commands_for_backup_and_restore() {
    let error = parse(&["--backup", "--restore"]).unwrap_err();
    assert!(error.contains("Multiple primary commands"));
}

#[test]
fn parse_rejects_multiple_primary_commands_for_backup_and_export() {
    let error = parse(&["--backup", "--export"]).unwrap_err();
    assert!(error.contains("Multiple primary commands"));
}

#[test]
fn parse_rejects_unknown_option() {
    let error = parse(&["--unknown"]).unwrap_err();
    assert!(error.contains("Unknown option"));
}

#[test]
fn parse_schedule_delay_is_retired() {
    let error = parse(&["--schedule-delay"]).unwrap_err();
    assert!(error.contains("Unknown option `--schedule-delay`"));
}

#[test]
fn parse_rejects_json_without_noninteractive_command() {
    let error = parse(&["--json"]).unwrap_err();
    assert!(error.contains("`--json` is only valid"));
}

#[test]
fn parse_start_supports_json_mode() {
    let parsed = parse(&["--start", "--json"]).unwrap();
    assert_eq!(
        parsed,
        CliAction::RunCommand(CliCommand {
            kind: CommandKind::Start,
            output: OutputMode::Json
        })
    );
}

#[test]
fn parse_rejects_watch_without_status() {
    let error = parse(&["--watch"]).unwrap_err();
    assert!(error.contains("`--watch` is only valid with `--status`"));
}

#[test]
fn parse_rejects_watch_with_non_status_command() {
    let error = parse(&["--export", "--watch"]).unwrap_err();
    assert!(error.contains("`--watch` is only valid with `--status`"));
}

#[test]
fn parse_rejects_removed_migrate_option() {
    let error = parse(&["--migrate"]).unwrap_err();
    assert!(error.contains("Unknown option `--migrate`"));
}

#[test]
fn parse_rejects_removed_dry_run_option() {
    let error = parse(&["--dry-run"]).unwrap_err();
    assert!(error.contains("Unknown option `--dry-run`"));
}

#[test]
fn parse_rejects_removed_usage_signals_option() {
    let error = parse(&["--usage-signals"]).unwrap_err();
    assert!(error.contains("Unknown option `--usage-signals`"));
}

#[test]
fn parse_rejects_removed_sync_backup_option() {
    let error = parse(&["--sync-backup"]).unwrap_err();
    assert!(error.contains("Unknown option `--sync-backup`"));
}

#[test]
fn parse_rejects_removed_sync_passphrase_option() {
    let error = parse(&["--sync-passphrase=secret"]).unwrap_err();
    assert!(error.contains("Unknown option `--sync-passphrase=secret`"));
}

#[test]
fn parse_rejects_backup_with_blank_positional_value() {
    let error = parse(&["--backup", "   "]).unwrap_err();
    assert!(error.contains("`--backup` requires a target directory."));
}

#[test]
fn parse_rejects_restore_with_blank_positional_value() {
    let error = parse(&["--restore", "   "]).unwrap_err();
    assert!(error.contains("`--restore` requires a source directory."));
}

#[test]
fn parse_rejects_export_with_blank_positional_value() {
    let error = parse(&["--export", "   "]).unwrap_err();
    assert!(error.contains("`--export` requires a target directory."));
}

#[test]
fn parse_rejects_watch_with_zero_seconds() {
    let error = parse(&["--status", "--watch=0"]).unwrap_err();
    assert!(error.contains("positive whole number of seconds"));
}

#[test]
fn parse_rejects_watch_with_non_numeric_seconds() {
    let error = parse(&["--status", "--watch=abc"]).unwrap_err();
    assert!(error.contains("positive whole number of seconds"));
}

#[test]
fn parse_rejects_duplicate_watch_flags() {
    let error = parse(&["--status", "--watch", "--watch=2"]).unwrap_err();
    assert!(error.contains("can only be specified once"));
}

#[test]
fn parse_with_contract_marks_json_usage_errors() {
    let error = parse_with_contract(&["--status", "--unknown", "--json"]).unwrap_err();
    assert_eq!(error.kind, CliErrorKind::Usage);
    assert_eq!(error.output, OutputMode::Json);
    assert_eq!(error.exit_code(), EXIT_CODE_USAGE_ERROR);
    assert_eq!(error.code, "cli.usage");
    assert!(error.message.contains("Unknown option"));
}

#[test]
fn parse_with_contract_treats_long_retired_sync_flags_as_plain_unknown_options() {
    let error = parse_with_contract(&["--sync-restore", "--json"]).unwrap_err();
    assert_eq!(error.kind, CliErrorKind::Usage);
    assert_eq!(error.output, OutputMode::Json);
    assert_eq!(error.exit_code(), EXIT_CODE_USAGE_ERROR);
    assert_eq!(error.code, "cli.usage");
    assert!(error.message.contains("Unknown option `--sync-restore`"));
    assert!(error.hint.is_none());
}

#[test]
fn parse_with_contract_treats_removed_usage_signals_as_plain_unknown_option() {
    let error = parse_with_contract(&["--usage-signals", "--json"]).unwrap_err();
    assert_eq!(error.kind, CliErrorKind::Usage);
    assert_eq!(error.output, OutputMode::Json);
    assert_eq!(error.exit_code(), EXIT_CODE_USAGE_ERROR);
    assert_eq!(error.code, "cli.usage");
    assert!(error.message.contains("Unknown option `--usage-signals`"));
    assert!(error.hint.is_none());
}

#[test]
fn parse_with_contract_scopes_replacement_hint_to_first_unknown_option() {
    let error = parse_with_contract(&["--unknown-flag", "--sync-restore", "--json"]).unwrap_err();
    assert_eq!(error.kind, CliErrorKind::Usage);
    assert_eq!(error.output, OutputMode::Json);
    assert_eq!(error.exit_code(), EXIT_CODE_USAGE_ERROR);
    assert_eq!(error.code, "cli.usage");
    assert!(error.message.contains("Unknown option `--unknown-flag`"));
    assert!(error.hint.is_none());
}

#[test]
fn parse_with_contract_detects_json_on_early_parse_failures() {
    let error = parse_with_contract(&["--schedule-set", "--json"]).unwrap_err();
    assert_eq!(error.kind, CliErrorKind::Usage);
    assert_eq!(error.output, OutputMode::Json);
    assert_eq!(error.exit_code(), EXIT_CODE_USAGE_ERROR);
    assert_eq!(error.code, "cli.usage");
    assert!(
        error
            .message
            .contains("`--schedule-set` requires a JSON payload")
    );
}

#[test]
fn parse_with_contract_marks_json_usage_errors_from_key_value_parsing() {
    let error = parse_with_contract(&["--goal=abc", "--json"]).unwrap_err();
    assert_eq!(error.kind, CliErrorKind::Usage);
    assert_eq!(error.output, OutputMode::Json);
    assert_eq!(error.exit_code(), EXIT_CODE_USAGE_ERROR);
    assert_eq!(error.code, "cli.usage");
    assert!(error.message.contains("Invalid goal"));
}

#[test]
fn parse_with_contract_marks_json_usage_errors_from_finalize_step() {
    let error = parse_with_contract(&["--watch", "--json"]).unwrap_err();
    assert_eq!(error.kind, CliErrorKind::Usage);
    assert_eq!(error.output, OutputMode::Json);
    assert_eq!(error.exit_code(), EXIT_CODE_USAGE_ERROR);
    assert_eq!(error.code, "cli.usage");
    assert!(
        error
            .message
            .contains("`--watch` is only valid with `--status`.")
    );
}

#[test]
fn runtime_error_preserves_user_message_code_and_hint() {
    let error = runtime_error(
        OutputMode::Json,
        focustime::error::UserMessage::with_hint(
            "app.timer.not_running",
            "Cannot pause: timer is not running.",
            "Start a focus session first with `focustime --start`.",
        ),
    );

    assert_eq!(error.kind, CliErrorKind::Runtime);
    assert_eq!(error.output, OutputMode::Json);
    assert_eq!(error.exit_code(), EXIT_CODE_RUNTIME_ERROR);
    assert_eq!(error.code, "app.timer.not_running");
    assert_eq!(error.message, "Cannot pause: timer is not running.");
    assert_eq!(
        error.hint.as_deref(),
        Some("Start a focus session first with `focustime --start`.")
    );
}

#[test]
fn parse_rejects_non_utf8_arguments() {
    let invalid: Option<String> = String::from_utf8(vec![0x66, 0x6f, 0x80]).ok();
    let error = parse_args(vec![invalid]).unwrap_err();
    assert!(error.contains("Arguments must be valid UTF-8."));
}
