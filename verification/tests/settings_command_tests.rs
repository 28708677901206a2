use focustime::cli::settings_commands::{
    apply_goal_carry_command, apply_goal_command, apply_profile_command, apply_schedule_command,
    apply_strict_command, apply_theme_command, format_duration, GoalCarryCommandOutput,
    GoalCommandOutput, StrictCommandOutput,
};
use focustime::cli::report::{HistoryDashboardCardOutput, HistoryDashboardCommandOutput};
use focustime::cli::settings_output::{
    history_dashboard_lines, goal_carry_command_lines, goal_command_lines, profile_output_lines, schedule_command_lines,
    strict_command_lines, theme_command_lines,
};
use focustime::config::{
    AppConfig, CustomProfileConfig, DailyGoalConfig, ProfileId, RecurringFocusWindowConfig,
    RecurringScheduleConfig, ThemePreset,
};

fn window(days: &[&str], start: &str, end: &str) -> RecurringFocusWindowConfig {
    RecurringFocusWindowConfig {
        days: days.iter().map(|d| d.to_string()).collect(),
        start: start.to_string(),
        end: end.to_string(),
    }
}

#[test]
fn format_duration_renders_minutes_and_seconds() {
    assert_eq!(format_duration(0), "0s");
    assert_eq!(format_duration(45), "45s");
    assert_eq!(format_duration(1500), "25m");
    assert_eq!(format_duration(90), "1m 30s");
    assert_eq!(format_duration(3661), "61m 1s");
}

#[test]
fn profile_command_without_selection_reports_without_change() {
    let mut config = AppConfig::default();
    let before = config.clone();
    let output = apply_profile_command(&mut config, None);
    assert_eq!(config, before);
    assert!(!output.updated);
    assert_eq!(output.selected.id, "advanced");
    assert_eq!(output.available.len(), 3);
    assert_eq!(output.available[0].id, "basic");
    assert_eq!(output.available[1].id, "standard");
    assert_eq!(output.available[1].focus_secs, 3000);
    assert_eq!(output.available[2].id, "advanced");
    assert_eq!(output.available_theme_presets.len(), 3);
}

#[test]
fn profile_command_selects_profile_and_renders_lines() {
    let mut config = AppConfig::default();
    let output = apply_profile_command(&mut config, Some(ProfileId::DeepWork));
    assert_eq!(config.selected_profile, ProfileId::DeepWork);
    assert!(output.updated);
    assert_eq!(output.selected.id, "standard");
    let lines = profile_output_lines(&output);
    assert_eq!(
        lines,
        vec![
            "Active profile updated.",
            "Selected profile: Standard (standard)",
            "Durations: focus 50m, short break 10m, long break 30m, cadence every 3 focus",
            "Selected theme preset: Classic (classic)",
            "Available profiles:",
            "  - Basic (basic): 25m/5m/15m every 4 focus",
            "  - Standard (standard): 50m/10m/30m every 3 focus",
            "  - Advanced (advanced): 25m/5m/15m every 4 focus",
            "Available theme presets:",
            "  - Classic (classic)",
            "  - High Contrast (high-contrast)",
            "  - Deuteranopia Friendly (deuteranopia-friendly)",
        ]
    );
}

#[test]
fn profile_command_reports_custom_lengths_with_defaults_for_zero() {
    let mut config = AppConfig::default();
    config.custom_profile = Some(CustomProfileConfig {
        focus_secs: 90,
        short_break_secs: 0,
        long_break_secs: 600,
        long_break_interval: 2,
    });
    let output = apply_profile_command(&mut config, None);
    assert_eq!(output.selected.focus_secs, 90);
    assert_eq!(output.selected.short_break_secs, 300);
    assert_eq!(output.selected.long_break_secs, 600);
    assert_eq!(output.selected.long_break_interval, 2);
    let lines = profile_output_lines(&output);
    assert_eq!(lines[0], "Selected profile: Advanced (advanced)");
    assert_eq!(
        lines[1],
        "Durations: focus 1m 30s, short break 5m, long break 10m, cadence every 2 focus"
    );
}

#[test]
fn theme_command_selects_preset_and_renders_lines() {
    let mut config = AppConfig::default();
    let output = apply_theme_command(&mut config, Some(ThemePreset::HighContrast));
    assert_eq!(config.selected_theme_preset, ThemePreset::HighContrast);
    assert!(output.updated);
    assert_eq!(
        theme_command_lines(&output),
        vec![
            "Theme preset updated.",
            "Selected theme preset: High Contrast (high-contrast)",
            "Available theme presets:",
            "  - Classic (classic)",
            "  - High Contrast (high-contrast)",
            "  - Deuteranopia Friendly (deuteranopia-friendly)",
        ]
    );
    let unchanged = apply_theme_command(&mut config, None);
    assert!(!unchanged.updated);
    assert_eq!(theme_command_lines(&unchanged)[0], "Selected theme preset: High Contrast (high-contrast)");
}

#[test]
fn goal_command_sets_goal_and_renders_lines() {
    let mut config = AppConfig::default();
    let output = apply_goal_command(
        &mut config,
        Some(DailyGoalConfig {
            minutes: 120,
            pomodoros: 4,
        }),
    );
    assert_eq!(
        output,
        GoalCommandOutput {
            updated: true,
            configured: true,
            minutes_target: 120,
            pomodoros_target: 4
        }
    );
    assert_eq!(config.daily_goal.minutes, 120);
    assert_eq!(
        goal_command_lines("Daily", &output),
        vec!["Daily goal updated.", "Daily goal: 120 min, 4 pomodoros"]
    );
}

#[test]
fn goal_command_reports_off_when_no_target() {
    let mut config = AppConfig::default();
    let output = apply_goal_command(&mut config, None);
    assert!(!output.updated);
    assert!(!output.configured);
    assert_eq!(goal_command_lines("Daily", &output), vec!["Daily goal: off"]);
}

#[test]
fn goal_carry_command_switches_and_renders_lines() {
    let mut config = AppConfig::default();
    let output = apply_goal_carry_command(&mut config, Some(true));
    assert_eq!(
        output,
        GoalCarryCommandOutput {
            updated: true,
            carry_over: true
        }
    );
    assert!(config.goal_carry_over.daily);
    assert!(!config.goal_carry_over.weekly);
    assert_eq!(
        goal_carry_command_lines("Daily", &output),
        vec!["Daily goal carry-over updated.", "Daily goal carry-over: on"]
    );
    let read = apply_goal_carry_command(&mut config, None);
    assert_eq!(goal_carry_command_lines("Daily", &read), vec!["Daily goal carry-over: on"]);
}

#[test]
fn strict_command_changes_only_the_selected_profile() {
    let mut config = AppConfig::default();
    config.selected_profile = ProfileId::Classic;
    let output = apply_strict_command(&mut config, Some(true));
    assert_eq!(
        output,
        StrictCommandOutput {
            updated: true,
            strict_mode: true
        }
    );
    assert!(config.profile_automation_for(ProfileId::Classic).strict_mode);
    assert!(!config.profile_automation_for(ProfileId::DeepWork).strict_mode);
    assert_eq!(
        strict_command_lines(&output),
        vec!["Strict mode updated.", "Strict mode: on"]
    );
    let read = apply_strict_command(&mut config, None);
    assert_eq!(strict_command_lines(&read), vec!["Strict mode: on"]);
}

#[test]
fn schedule_command_normalizes_and_reports_conflicts() {
    let mut config = AppConfig::default();
    let schedule = RecurringScheduleConfig {
        windows: vec![
            window(&["Mon", "wed"], "09:00", "11:00"),
            window(&["mon"], "10:30", "12:00"),
        ],
    };
    let output = apply_schedule_command(&mut config, Some(schedule));
    assert!(output.updated);
    assert_eq!(output.schedule.windows[0].days, vec!["mon".to_string(), "wed".to_string()]);
    assert_eq!(output.inspection.conflict_count, 1);
    assert_eq!(
        schedule_command_lines(&output),
        vec![
            "Schedule updated.",
            "Recurring windows:",
            "  - [mon,wed] 09:00-11:00",
            "  - [mon] 10:30-12:00",
            "Schedule conflicts: 1 detected",
            "  - MON: recurring #1 overlaps recurring #2 at 10:30-11:00",
        ]
    );
    assert_eq!(
        config.profile_automation_for(config.selected_profile).recurring_schedule,
        output.schedule
    );
}

#[test]
fn schedule_command_reports_empty_schedule() {
    let mut config = AppConfig::default();
    let output = apply_schedule_command(&mut config, None);
    assert!(!output.updated);
    assert_eq!(
        schedule_command_lines(&output),
        vec!["Recurring windows: none", "Schedule conflicts: none"]
    );
}

#[test]
fn history_dashboard_lines_list_layout_and_cards() {
    let output = HistoryDashboardCommandOutput {
        action: "history-dashboard",
        cards: vec![
            HistoryDashboardCardOutput { id: "session_summary", label: "Session Summary" },
            HistoryDashboardCardOutput { id: "focus_score", label: "Focus Score" },
        ],
    };
    assert_eq!(
        history_dashboard_lines(&output),
        vec![
            "Default KPI layout: session_summary, focus_score",
            "Cards:",
            "  Session Summary (session_summary)",
            "  Focus Score (focus_score)",
        ]
    );
    let empty = HistoryDashboardCommandOutput { action: "history-dashboard", cards: vec![] };
    assert_eq!(history_dashboard_lines(&empty), vec!["Default KPI layout: ", "Cards: none"]);
}
