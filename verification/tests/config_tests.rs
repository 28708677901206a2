use focustime::config::{
    AppConfig, AutoStartConfig, BlocklistProfileConfig, CustomProfileConfig, DailyGoalConfig,
    FeatureFlagsConfig, GoalCarryOverConfig, HistoryDashboardConfig, HistoryKpiCardId,
    IntegrationFeatureFlagsConfig, MonthlyGoalConfig, NotificationConfig, ProfileAutomationConfig,
    ProfileAutomationSettingsConfig, ProfileId, RecurringFocusWindowConfig,
    RecurringScheduleConfig, ScheduleRuntimeConfig, ShortcutConfig, StatsRetentionConfig,
    StatsRetentionPreset, ThemePreset, WeeklyGoalConfig,
};

#[test]
fn default_values_are_canonical_pomodoro() {
    let cfg = AppConfig::default();
    assert_eq!(cfg.focus_secs, 25 * 60);
    assert_eq!(cfg.short_break_secs, 5 * 60);
    assert_eq!(cfg.long_break_secs, 15 * 60);
    assert_eq!(cfg.long_break_interval, 4);
    assert_eq!(cfg.selected_profile, ProfileId::Custom);
    assert!(cfg.custom_profile.is_none());
    assert_eq!(cfg.selected_theme_preset, ThemePreset::Classic);
    assert!(cfg.blocked_sites.is_empty());
    assert_eq!(cfg.selected_blocklist_profile, "Default");
    assert!(cfg.blocklist_profiles.is_empty());
    assert_eq!(cfg.notifications, NotificationConfig::default());
    assert_eq!(cfg.auto_start, AutoStartConfig::default());
    assert_eq!(cfg.recurring_schedule, RecurringScheduleConfig::default());
    assert_eq!(cfg.schedule_runtime, ScheduleRuntimeConfig::default());
    assert!(cfg.profile_automation.is_none());
    assert!(!cfg.strict_mode);
    assert_eq!(cfg.daily_goal, DailyGoalConfig::default());
    assert_eq!(cfg.weekly_goal, WeeklyGoalConfig::default());
    assert_eq!(cfg.monthly_goal, MonthlyGoalConfig::default());
    assert_eq!(cfg.goal_carry_over, GoalCarryOverConfig::default());
    assert_eq!(cfg.stats_retention, StatsRetentionConfig::default());
    assert_eq!(cfg.history_dashboard, HistoryDashboardConfig::default());
    assert_eq!(cfg.feature_flags, FeatureFlagsConfig::default());
    assert_eq!(cfg.shortcuts, ShortcutConfig::default());
}

#[test]
fn stats_retention_defaults_to_balanced_windows() {
    let cfg = AppConfig::default();
    assert_eq!(cfg.stats_retention.preset, StatsRetentionPreset::Balanced);
    let windows = cfg.stats_retention.windows();
    assert_eq!(windows.keep_daily_days, None);
    assert_eq!(windows.keep_focus_sessions_days, Some(365));
    assert_eq!(windows.keep_session_interruptions_days, Some(180));
    assert_eq!(windows.keep_weekly_goal_snapshots_days, Some(365));
    assert_eq!(windows.keep_monthly_goal_snapshots_days, Some(365));
}

#[test]
fn stats_retention_windows_change_by_preset() {
    let keep_all = StatsRetentionConfig {
        preset: StatsRetentionPreset::KeepAll,
    }
    .windows();
    assert_eq!(keep_all.keep_daily_days, None);
    assert_eq!(keep_all.keep_focus_sessions_days, None);
    assert_eq!(keep_all.keep_session_interruptions_days, None);
    assert_eq!(keep_all.keep_weekly_goal_snapshots_days, None);
    assert_eq!(keep_all.keep_monthly_goal_snapshots_days, None);

    let aggressive = StatsRetentionConfig {
        preset: StatsRetentionPreset::Aggressive,
    }
    .windows();
    assert_eq!(aggressive.keep_daily_days, Some(365));
    assert_eq!(aggressive.keep_focus_sessions_days, Some(180));
    assert_eq!(aggressive.keep_session_interruptions_days, Some(90));
    assert_eq!(aggressive.keep_weekly_goal_snapshots_days, Some(180));
    assert_eq!(aggressive.keep_monthly_goal_snapshots_days, Some(180));
}

#[test]
fn normalize_history_dashboard_ignores_legacy_custom_card_order() {
    let cfg = AppConfig {
        history_dashboard: HistoryDashboardConfig {
            card_order: vec![
                HistoryKpiCardId::Unknown,
                HistoryKpiCardId::GoalStreak,
                HistoryKpiCardId::GoalStreak,
                HistoryKpiCardId::FocusScore,
            ],
            pinned_cards: vec![HistoryKpiCardId::GoalStreak],
        },
        ..AppConfig::default()
    }
    .normalize();

    assert_eq!(cfg.history_dashboard, HistoryDashboardConfig::default());
}

#[test]
fn normalize_history_dashboard_ignores_legacy_custom_pins() {
    let cfg = AppConfig {
        history_dashboard: HistoryDashboardConfig {
            card_order: vec![HistoryKpiCardId::FocusScore, HistoryKpiCardId::Retention],
            pinned_cards: vec![
                HistoryKpiCardId::Unknown,
                HistoryKpiCardId::Retention,
                HistoryKpiCardId::Retention,
                HistoryKpiCardId::LastInterruption,
            ],
        },
        ..AppConfig::default()
    }
    .normalize();

    assert_eq!(cfg.history_dashboard, HistoryDashboardConfig::default());
}

#[test]
fn shortcut_config_normalizes_invalid_tokens_to_defaults() {
    let cfg = AppConfig {
        shortcuts: ShortcutConfig {
            quit: "qq".to_string(),
            timer_toggle_pause: "    ".to_string(),
            site_add: "Add".to_string(),
            planner_select_recent: "".to_string(),
            navigate_up: "north".to_string(),
            confirm: "accept".to_string(),
            ..ShortcutConfig::default()
        },
        ..AppConfig::default()
    }
    .normalize();

    assert_eq!(cfg.shortcuts.quit, "q");
    assert_eq!(cfg.shortcuts.timer_toggle_pause, "space");
    assert_eq!(cfg.shortcuts.site_add, "a");
    assert_eq!(cfg.shortcuts.planner_select_recent, "r");
    assert_eq!(cfg.shortcuts.navigate_up, "up");
    assert_eq!(cfg.shortcuts.confirm, "enter");
}

#[test]
fn normalize_drops_recurring_windows_with_invalid_time_ranges() {
    let cfg = AppConfig {
        recurring_schedule: RecurringScheduleConfig {
            windows: vec![
                RecurringFocusWindowConfig {
                    days: vec!["mon".to_string()],
                    start: "09:00".to_string(),
                    end: "11:00".to_string(),
                },
                RecurringFocusWindowConfig {
                    days: vec!["tue".to_string()],
                    start: "18:00".to_string(),
                    end: "09:00".to_string(),
                },
            ],
        },
        ..AppConfig::default()
    }
    .normalize();

    assert_eq!(cfg.recurring_schedule.windows.len(), 1);
    assert_eq!(cfg.recurring_schedule.windows[0].start, "09:00");
    assert_eq!(cfg.recurring_schedule.windows[0].end, "11:00");
}

#[test]
fn normalize_clamps_schedule_runtime_time_step_to_safe_bounds() {
    let cfg = AppConfig {
        schedule_runtime: ScheduleRuntimeConfig {
            time_step_minutes: 0,
        },
        ..AppConfig::default()
    }
    .normalize();

    assert_eq!(
        cfg.schedule_runtime,
        ScheduleRuntimeConfig {
            time_step_minutes: 1,
        }
    );

    let cfg = AppConfig {
        schedule_runtime: ScheduleRuntimeConfig {
            time_step_minutes: 200,
        },
        ..AppConfig::default()
    }
    .normalize();

    assert_eq!(
        cfg.schedule_runtime,
        ScheduleRuntimeConfig {
            time_step_minutes: 60,
        }
    );
}

#[test]
fn effective_custom_profile_uses_explicit_profile_when_present() {
    let cfg = AppConfig {
        focus_secs: 25 * 60,
        short_break_secs: 5 * 60,
        long_break_secs: 15 * 60,
        long_break_interval: 4,
        blocked_sites: Vec::new(),
        blocklist_profiles: vec![BlocklistProfileConfig::default()],
        selected_blocklist_profile: "Default".to_string(),
        selected_profile: ProfileId::Custom,
        custom_profile: Some(CustomProfileConfig {
            focus_secs: 40 * 60,
            short_break_secs: 8 * 60,
            long_break_secs: 16 * 60,
            long_break_interval: 2,
        }),
        selected_theme_preset: ThemePreset::Classic,
        notifications: NotificationConfig::default(),
        auto_start: AutoStartConfig::default(),
        recurring_schedule: RecurringScheduleConfig::default(),
        schedule_runtime: ScheduleRuntimeConfig::default(),
        profile_automation: None,
        strict_mode: false,
        daily_goal: DailyGoalConfig::default(),
        weekly_goal: WeeklyGoalConfig::default(),
        monthly_goal: MonthlyGoalConfig::default(),
        goal_carry_over: GoalCarryOverConfig::default(),
        stats_retention: StatsRetentionConfig::default(),
        history_dashboard: HistoryDashboardConfig::default(),
        feature_flags: FeatureFlagsConfig::default(),
        shortcuts: ShortcutConfig::default(),
    };
    let custom = cfg.effective_custom_profile();
    assert_eq!(custom.focus_secs, 40 * 60);
    assert_eq!(custom.short_break_secs, 8 * 60);
    assert_eq!(custom.long_break_secs, 16 * 60);
    assert_eq!(custom.long_break_interval, 2);
}

#[test]
fn normalize_migrates_legacy_blocked_sites_into_default_profile() {
    let cfg = AppConfig {
        blocked_sites: vec!["reddit.com".to_string(), "youtube.com".to_string()],
        blocklist_profiles: Vec::new(),
        selected_blocklist_profile: String::new(),
        ..AppConfig::default()
    }
    .normalize();

    assert_eq!(cfg.blocklist_profiles.len(), 1);
    assert_eq!(cfg.blocklist_profiles[0].name, "Default");
    assert_eq!(
        cfg.blocklist_profiles[0].sites,
        vec!["reddit.com".to_string(), "youtube.com".to_string()]
    );
    assert_eq!(cfg.selected_blocklist_profile, "Default");
    assert_eq!(cfg.blocked_sites, cfg.blocklist_profiles[0].sites);
    assert!(cfg.blocklist_profiles[0].allowlist_sites.is_empty());
}

#[test]
fn normalize_keeps_legacy_blocked_sites_empty_for_profile_only_config() {
    let cfg = AppConfig {
        blocklist_profiles: vec![BlocklistProfileConfig {
            name: "Work".to_string(),
            sites: vec!["a.com".to_string(), "b.com".to_string()],
            allowlist_sites: vec!["b.com".to_string()],
        }],
        selected_blocklist_profile: "Work".to_string(),
        ..AppConfig::default()
    }
    .normalize();

    assert!(cfg.blocked_sites.is_empty());
}

#[test]
fn normalize_migrates_legacy_automation_into_per_profile_settings() {
    let legacy_schedule = RecurringScheduleConfig {
        windows: vec![RecurringFocusWindowConfig {
            days: vec!["mon".to_string(), "tue".to_string()],
            start: "09:00".to_string(),
            end: "10:30".to_string(),
        }],
    };
    let cfg = AppConfig {
        selected_profile: ProfileId::DeepWork,
        notifications: NotificationConfig {
            enabled: true,
            sound: true,
        },
        auto_start: AutoStartConfig {
            focus_to_break: true,
            break_to_focus: true,
        },
        recurring_schedule: legacy_schedule.clone(),
        profile_automation: None,
        strict_mode: true,
        ..AppConfig::default()
    }
    .normalize();

    let expected = ProfileAutomationConfig::from_legacy(
        NotificationConfig {
            enabled: true,
            sound: true,
        },
        AutoStartConfig {
            focus_to_break: true,
            break_to_focus: true,
        },
        true,
        legacy_schedule,
    );
    assert_eq!(cfg.profile_automation_for(ProfileId::Classic), expected);
    assert_eq!(cfg.profile_automation_for(ProfileId::DeepWork), expected);
    assert_eq!(cfg.profile_automation_for(ProfileId::Custom), expected);
    assert_eq!(cfg.notifications, expected.notifications);
    assert_eq!(cfg.auto_start, expected.auto_start);
    assert_eq!(cfg.strict_mode, expected.strict_mode);
    assert_eq!(cfg.recurring_schedule, expected.recurring_schedule);
}

#[test]
fn normalize_selected_profile_automation_keeps_top_level_legacy_fields() {
    let classic = ProfileAutomationConfig {
        notifications: NotificationConfig {
            enabled: true,
            sound: false,
        },
        auto_start: AutoStartConfig {
            focus_to_break: true,
            break_to_focus: false,
        },
        strict_mode: false,
        recurring_schedule: RecurringScheduleConfig::default(),
    };
    let deep_work = ProfileAutomationConfig {
        notifications: NotificationConfig {
            enabled: false,
            sound: false,
        },
        auto_start: AutoStartConfig {
            focus_to_break: false,
            break_to_focus: true,
        },
        strict_mode: true,
        recurring_schedule: RecurringScheduleConfig {
            windows: vec![RecurringFocusWindowConfig {
                days: vec!["fri".to_string()],
                start: "13:00".to_string(),
                end: "15:00".to_string(),
            }],
        },
    };

    let cfg = AppConfig {
        selected_profile: ProfileId::DeepWork,
        notifications: NotificationConfig::default(),
        auto_start: AutoStartConfig::default(),
        recurring_schedule: RecurringScheduleConfig::default(),
        strict_mode: false,
        profile_automation: Some(ProfileAutomationSettingsConfig {
            basic: Some(classic),
            standard: Some(deep_work.clone()),
            advanced: None,
        }),
        ..AppConfig::default()
    }
    .normalize();

    assert_eq!(cfg.notifications, NotificationConfig::default());
    assert_eq!(cfg.auto_start, AutoStartConfig::default());
    assert!(!cfg.strict_mode);
    assert_eq!(cfg.recurring_schedule, RecurringScheduleConfig::default());
}

#[test]
fn normalize_legacy_automation_fields_do_not_override_profile_automation() {
    let deep_work = ProfileAutomationConfig {
        notifications: NotificationConfig {
            enabled: true,
            sound: true,
        },
        auto_start: AutoStartConfig {
            focus_to_break: true,
            break_to_focus: true,
        },
        strict_mode: true,
        recurring_schedule: RecurringScheduleConfig {
            windows: vec![RecurringFocusWindowConfig {
                days: vec!["fri".to_string()],
                start: "13:00".to_string(),
                end: "15:00".to_string(),
            }],
        },
    };
    let cfg = AppConfig {
        selected_profile: ProfileId::DeepWork,
        notifications: NotificationConfig {
            enabled: false,
            sound: false,
        },
        auto_start: AutoStartConfig {
            focus_to_break: false,
            break_to_focus: false,
        },
        strict_mode: false,
        recurring_schedule: RecurringScheduleConfig::default(),
        profile_automation: Some(ProfileAutomationSettingsConfig {
            basic: None,
            standard: Some(deep_work.clone()),
            advanced: None,
        }),
        ..AppConfig::default()
    }
    .normalize();

    assert_eq!(
        cfg.notifications,
        NotificationConfig {
            enabled: false,
            sound: false,
        }
    );
    assert_eq!(
        cfg.auto_start,
        AutoStartConfig {
            focus_to_break: false,
            break_to_focus: false,
        }
    );
    assert!(!cfg.strict_mode);
    assert_eq!(cfg.recurring_schedule, RecurringScheduleConfig::default());
    assert_eq!(cfg.profile_automation_for(ProfileId::DeepWork), deep_work);
}

#[test]
fn normalize_merges_legacy_blocked_sites_when_profiles_exist() {
    let cfg = AppConfig {
        blocked_sites: vec!["legacy-only.com".to_string()],
        blocklist_profiles: vec![BlocklistProfileConfig {
            name: "Work".to_string(),
            sites: vec!["a.com".to_string(), "b.com".to_string()],
            allowlist_sites: vec!["b.com".to_string()],
        }],
        selected_blocklist_profile: "Work".to_string(),
        ..AppConfig::default()
    }
    .normalize();

    assert_eq!(cfg.selected_blocklist_profile, "Default");
    assert_eq!(cfg.blocked_sites, vec!["legacy-only.com".to_string()]);
    assert_eq!(cfg.blocklist_profiles.len(), 1);
    assert_eq!(
        cfg.blocklist_profiles[0].sites,
        vec![
            "legacy-only.com".to_string(),
            "a.com".to_string(),
            "b.com".to_string()
        ]
    );
    assert_eq!(
        cfg.blocklist_profiles[0].allowlist_sites,
        vec!["b.com".to_string()]
    );
}

#[test]
fn feature_flags_default_has_no_integrations() {
    let flags = FeatureFlagsConfig::default();
    assert!(flags.integrations.enabled.is_empty());
}

#[test]
fn feature_flags_normalization_deduplicates_and_trims_integration_names() {
    let normalized = FeatureFlagsConfig {
        integrations: IntegrationFeatureFlagsConfig {
            enabled: vec![
                "Calendar".to_string(),
                "  calendar ".to_string(),
                "custom".to_string(),
                "".to_string(),
            ],
        },
    }
    .normalized();

    assert_eq!(
        normalized.integrations.enabled,
        vec!["calendar".to_string(), "custom".to_string()]
    );
}

#[test]
fn integration_flags_match_trimmed_names_without_case() {
    let flags = IntegrationFeatureFlagsConfig { enabled: vec!["wakatime".to_string()] };
    assert!(flags.is_enabled("  WakaTime "));
    assert!(!flags.is_enabled("calendar"));
    assert!(!IntegrationFeatureFlagsConfig::default().is_enabled("wakatime"));
}

#[test]
fn normalizing_a_normalized_config_changes_nothing() {
    let mut cfg = AppConfig::default();
    cfg.focus_secs = 0;
    cfg.blocked_sites = vec!["News.com".to_string(), "news.com".to_string()];
    cfg.blocklist_profiles = vec![
        BlocklistProfileConfig {
            name: "Work".to_string(),
            sites: vec!["example.com".to_string(), "reddit.com".to_string()],
            allowlist_sites: vec!["reddit.com".to_string()],
        },
        BlocklistProfileConfig {
            name: "Home".to_string(),
            sites: vec!["Example.com".to_string()],
            allowlist_sites: vec![],
        },
    ];
    cfg.feature_flags.integrations.enabled = vec![" WakaTime ".to_string(), "wakatime".to_string(), "".to_string()];
    cfg.schedule_runtime.time_step_minutes = 500;
    cfg.recurring_schedule = RecurringScheduleConfig {
        windows: vec![RecurringFocusWindowConfig {
            days: vec!["Tue".to_string(), "mon".to_string()],
            start: "09:00".to_string(),
            end: "08:00".to_string(),
        }],
    };
    let once = cfg.normalized();
    let twice = once.clone().normalized();
    assert_eq!(once, twice);
    assert_eq!(once.feature_flags.integrations.enabled, vec!["wakatime".to_string()]);
    assert_eq!(once.schedule_runtime.time_step_minutes, 60);
    assert_eq!(once.blocklist_profiles.len(), 1);
}

#[test]
fn normalize_collapses_profiles_and_fixes_selection() {
    let cfg = AppConfig {
        blocklist_profiles: vec![
            BlocklistProfileConfig {
                name: "Work".to_string(),
                sites: vec!["a.com".to_string()],
                allowlist_sites: vec!["b.com".to_string()],
            },
            BlocklistProfileConfig {
                name: "Personal".to_string(),
                sites: vec!["b.com".to_string()],
                allowlist_sites: Vec::new(),
            },
        ],
        selected_blocklist_profile: "missing".to_string(),
        ..AppConfig::default()
    }
    .normalize();

    assert_eq!(cfg.blocklist_profiles.len(), 1);
    assert_eq!(cfg.blocklist_profiles[0].name, "Default");
    assert_eq!(
        cfg.blocklist_profiles[0].sites,
        vec!["a.com".to_string(), "b.com".to_string()]
    );
    assert_eq!(
        cfg.blocklist_profiles[0].allowlist_sites,
        Vec::<String>::new()
    );
    assert_eq!(cfg.selected_blocklist_profile, "Default");
    assert!(cfg.blocked_sites.is_empty());
}

#[test]
fn normalize_preserves_same_profile_allowlist_overrides() {
    let cfg = AppConfig {
        blocklist_profiles: vec![
            BlocklistProfileConfig {
                name: "Work".to_string(),
                sites: vec!["a.com".to_string()],
                allowlist_sites: vec!["b.com".to_string()],
            },
            BlocklistProfileConfig {
                name: "Personal".to_string(),
                sites: vec!["b.com".to_string()],
                allowlist_sites: vec!["b.com".to_string()],
            },
        ],
        selected_blocklist_profile: "Personal".to_string(),
        ..AppConfig::default()
    }
    .normalize();

    assert_eq!(
        cfg.blocklist_profiles[0].sites,
        vec!["a.com".to_string(), "b.com".to_string()]
    );
    assert_eq!(
        cfg.blocklist_profiles[0].allowlist_sites,
        vec!["b.com".to_string()]
    );
}
