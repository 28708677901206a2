use chrono::{Datelike, Local};
use focustime::cli::report::{apply_history_dashboard_command, build_schedule_inspection_output};
use focustime::cli::HistoryDashboardCommandKind;
use focustime::config::{
    AppConfig, HistoryDashboardConfig, HistoryKpiCardId, RecurringFocusWindowConfig,
    RecurringScheduleConfig,
};
use focustime::schedule::{
    compile_windows, format_schedule_conflict, inspect_schedule_conflicts_from_config,
    ScheduleConflict, Weekday,
};

fn weekday_of(day: chrono::Weekday) -> Weekday {
    match day.num_days_from_monday() {
        0 => Weekday::Mon,
        1 => Weekday::Tue,
        2 => Weekday::Wed,
        3 => Weekday::Thu,
        4 => Weekday::Fri,
        5 => Weekday::Sat,
        _ => Weekday::Sun,
    }
}

#[test]
fn schedule_inspection_output_reports_detected_conflicts() {
    let schedule = RecurringScheduleConfig {
        windows: vec![
            RecurringFocusWindowConfig {
                days: vec!["mon".to_string()],
                start: "09:00".to_string(),
                end: "11:00".to_string(),
            },
            RecurringFocusWindowConfig {
                days: vec!["mon".to_string()],
                start: "10:30".to_string(),
                end: "12:00".to_string(),
            },
        ],
    };

    let output = build_schedule_inspection_output(&schedule);

    assert_eq!(output.conflict_count, 1);
    assert_eq!(output.conflicts.len(), 1);
    assert!(output.conflicts[0].contains("recurring #1 overlaps recurring #2"));
}

#[test]
fn schedule_inspection_output_reports_no_conflicts() {
    let schedule = RecurringScheduleConfig {
        windows: vec![RecurringFocusWindowConfig {
            days: vec!["mon".to_string()],
            start: "09:00".to_string(),
            end: "10:00".to_string(),
        }],
    };

    let output = build_schedule_inspection_output(&schedule);

    assert_eq!(output.conflict_count, 0);
    assert!(output.conflicts.is_empty());
}

#[test]
fn apply_history_dashboard_show_uses_stable_default_layout() {
    let mut config = AppConfig {
        history_dashboard: HistoryDashboardConfig {
            card_order: vec![
                HistoryKpiCardId::GoalStreak,
                HistoryKpiCardId::FocusScore,
                HistoryKpiCardId::SessionSummary,
                HistoryKpiCardId::FocusRisk,
                HistoryKpiCardId::WeeklyAllocation,
                HistoryKpiCardId::LastInterruption,
                HistoryKpiCardId::StatsGrowth,
                HistoryKpiCardId::Retention,
                HistoryKpiCardId::ComparisonFilters,
            ],
            pinned_cards: vec![HistoryKpiCardId::GoalStreak],
        },
        ..AppConfig::default()
    }
    .normalized();

    let payload =
        apply_history_dashboard_command(&mut config, HistoryDashboardCommandKind::Show).unwrap();

    assert_eq!(payload.action, "history-dashboard");
    assert_eq!(
        config.history_dashboard,
        HistoryDashboardConfig::default()
    );
    assert_eq!(
        payload.cards.iter().map(|card| card.id).collect::<Vec<_>>(),
        HistoryKpiCardId::supported_dashboard_cards()
            .iter()
            .map(|card| card.id())
            .collect::<Vec<_>>()
    );
}

#[test]
fn compile_windows_ignores_invalid_entries() {
    let windows = vec![
        RecurringFocusWindowConfig {
            days: vec!["mon".to_string()],
            start: "09:00".to_string(),
            end: "10:00".to_string(),
        },
        RecurringFocusWindowConfig {
            days: vec!["???".to_string()],
            start: "09:00".to_string(),
            end: "10:00".to_string(),
        },
        RecurringFocusWindowConfig {
            days: vec!["tue".to_string()],
            start: "22:00".to_string(),
            end: "08:00".to_string(),
        },
    ];

    let compiled = compile_windows(&windows);

    assert_eq!(compiled.len(), 1);
}

#[test]
fn inspect_schedule_conflicts_detects_recurring_overlap_on_shared_weekday() {
    let date = Local::now().date_naive();
    let schedule = RecurringScheduleConfig {
        windows: vec![
            RecurringFocusWindowConfig {
                days: vec![date.weekday().to_string()],
                start: "09:00".to_string(),
                end: "11:00".to_string(),
            },
            RecurringFocusWindowConfig {
                days: vec![date.weekday().to_string()],
                start: "10:30".to_string(),
                end: "12:00".to_string(),
            },
        ],
    };

    let conflicts = inspect_schedule_conflicts_from_config(&schedule);

    assert_eq!(conflicts.len(), 1);
    assert_eq!(conflicts[0].weekday, weekday_of(date.weekday()));
    assert_eq!(conflicts[0].overlap_start_minutes, 10 * 60 + 30);
    assert_eq!(conflicts[0].overlap_end_minutes, 11 * 60);
}

#[test]
fn format_schedule_conflict_includes_weekday_and_overlap_window() {
    let conflict = ScheduleConflict {
        first_window_index: 0,
        second_window_index: 1,
        weekday: Weekday::Mon,
        overlap_start_minutes: 14 * 60,
        overlap_end_minutes: 15 * 60,
    };

    assert_eq!(
        format_schedule_conflict(&conflict),
        "MON: recurring #1 overlaps recurring #2 at 14:00-15:00"
    );
}
