use chrono::{DateTime, Datelike, Duration, Local, LocalResult, NaiveDate, TimeZone, Timelike};
use focustime::config::RecurringFocusWindowConfig;
use focustime::occurrence::{
    active_occurrence, next_occurrence_after, occurrence_key, CivilDate, pick_active_occurrence,
    pick_next_occurrence, select_active_occurrence, select_next_occurrence, LocalNow,
    WindowOccurrence,
};
use focustime::schedule::{compile_windows, Weekday};

fn local_datetime(date: NaiveDate, hour: u32, minute: u32) -> DateTime<Local> {
    match Local.with_ymd_and_hms(date.year(), date.month(), date.day(), hour, minute, 0) {
        LocalResult::Single(dt) => dt,
        LocalResult::Ambiguous(earliest, _) => earliest,
        LocalResult::None => panic!("local datetime should be representable in tests"),
    }
}

fn local_now(dt: DateTime<Local>) -> LocalNow {
    LocalNow {
        instant: dt.timestamp(),
        hour: dt.hour(),
        minute: dt.minute(),
        date: CivilDate { year: dt.year(), month: dt.month(), day: dt.day() },
    }
}

fn window(date: NaiveDate, start: &str, end: &str) -> RecurringFocusWindowConfig {
    RecurringFocusWindowConfig {
        days: vec![date.weekday().to_string()],
        start: start.to_string(),
        end: end.to_string(),
    }
}

#[test]
fn active_occurrence_returns_window_when_inside_range() {
    let date = Local::now().date_naive();
    let now = local_datetime(date, 10, 15);
    let windows = compile_windows(&vec![window(date, "10:00", "11:00")]);

    let active = active_occurrence(&local_now(now), &windows).expect("window should be active");

    assert_eq!(active.start, local_datetime(date, 10, 0).timestamp());
    assert_eq!(active.end, local_datetime(date, 11, 0).timestamp());
}

#[test]
fn next_occurrence_after_skips_current_or_past_start_times() {
    let date = Local::now().date_naive();
    let now = local_datetime(date, 10, 15);
    let windows = compile_windows(&vec![window(date, "09:00", "09:30"), window(date, "11:00", "12:00")]);

    let next = next_occurrence_after(&local_now(now), &windows).expect("next window should exist");

    assert_eq!(next.start, local_datetime(date, 11, 0).timestamp());
    assert_eq!(next.end, local_datetime(date, 12, 0).timestamp());
}

#[test]
fn active_occurrence_prefers_most_recent_overlap_start() {
    let date = Local::now().date_naive();
    let now = local_datetime(date, 10, 45);
    let windows = compile_windows(&vec![window(date, "10:00", "11:30"), window(date, "10:30", "12:00")]);

    let active = active_occurrence(&local_now(now), &windows).expect("window should be active");

    assert_eq!(active.window_index, 1);
    assert_eq!(active.start, local_datetime(date, 10, 30).timestamp());
    assert_eq!(active.end, local_datetime(date, 12, 0).timestamp());
}

#[test]
fn active_occurrence_tie_on_start_prefers_first_window_index() {
    let date = Local::now().date_naive();
    let now = local_datetime(date, 10, 15);
    let windows = compile_windows(&vec![window(date, "10:00", "11:00"), window(date, "10:00", "10:30")]);

    let active = active_occurrence(&local_now(now), &windows).expect("window should be active");

    assert_eq!(active.window_index, 0);
    assert_eq!(active.start, local_datetime(date, 10, 0).timestamp());
    assert_eq!(active.end, local_datetime(date, 11, 0).timestamp());
}

#[test]
fn next_occurrence_after_tie_on_start_prefers_first_window_index() {
    let date = Local::now().date_naive();
    let now = local_datetime(date, 9, 45);
    let windows = compile_windows(&vec![window(date, "10:00", "11:00"), window(date, "10:00", "10:30")]);

    let next = next_occurrence_after(&local_now(now), &windows).expect("next window should exist for tied start");

    assert_eq!(next.window_index, 0);
    assert_eq!(next.start, local_datetime(date, 10, 0).timestamp());
    assert_eq!(next.end, local_datetime(date, 11, 0).timestamp());
}

#[test]
fn next_occurrence_after_returns_next_weekly_window() {
    let date = Local::now().date_naive();
    let now = local_datetime(date, 12, 15);
    let next_week = date + Duration::days(7);
    let windows = compile_windows(&vec![window(date, "11:00", "12:00")]);

    let next = next_occurrence_after(&local_now(now), &windows).expect("next weekly window should be selected");

    assert_eq!(next.start, local_datetime(next_week, 11, 0).timestamp());
    assert_eq!(next.end, local_datetime(next_week, 12, 0).timestamp());
}

#[test]
fn active_occurrence_is_none_outside_every_window() {
    let date = Local::now().date_naive();
    let now = local_datetime(date, 12, 0);
    let windows = compile_windows(&vec![window(date, "10:00", "12:00")]);
    assert_eq!(active_occurrence(&local_now(now), &windows), None);
}

#[test]
fn select_active_occurrence_uses_resolved_instants() {
    let windows = compile_windows(&vec![
        RecurringFocusWindowConfig { days: vec!["mon".to_string()], start: "09:00".to_string(), end: "10:00".to_string() },
        RecurringFocusWindowConfig { days: vec!["mon".to_string()], start: "09:30".to_string(), end: "11:00".to_string() },
        RecurringFocusWindowConfig { days: vec!["tue".to_string()], start: "09:00".to_string(), end: "11:00".to_string() },
    ]);
    let resolved = vec![Some((900, 1000)), Some((930, 1100)), Some((900, 1100))];
    assert_eq!(
        select_active_occurrence(950, 9 * 60 + 50, Weekday::Mon, &windows, &resolved),
        Some(WindowOccurrence { window_index: 1, start: 930, end: 1100 })
    );
    let skipped = vec![Some((900, 1000)), None, Some((900, 1100))];
    assert_eq!(
        select_active_occurrence(950, 9 * 60 + 50, Weekday::Mon, &windows, &skipped),
        Some(WindowOccurrence { window_index: 0, start: 900, end: 1000 })
    );
    assert_eq!(select_active_occurrence(950, 9 * 60 + 50, Weekday::Wed, &windows, &resolved), None);
}

#[test]
fn select_next_occurrence_takes_earliest_later_start() {
    let windows = compile_windows(&vec![
        RecurringFocusWindowConfig { days: vec!["mon".to_string()], start: "09:00".to_string(), end: "10:00".to_string() },
        RecurringFocusWindowConfig { days: vec!["tue".to_string()], start: "08:00".to_string(), end: "09:00".to_string() },
    ]);
    let weekdays = vec![Weekday::Mon, Weekday::Tue];
    let resolved = vec![vec![Some((100, 200)), Some((50, 60))], vec![Some((1000, 1100)), Some((900, 960))]];
    assert_eq!(
        select_next_occurrence(150, &weekdays, &windows, &resolved),
        Some(WindowOccurrence { window_index: 1, start: 900, end: 960 })
    );
    assert_eq!(
        select_next_occurrence(50, &weekdays, &windows, &resolved),
        Some(WindowOccurrence { window_index: 0, start: 100, end: 200 })
    );
    assert_eq!(select_next_occurrence(5000, &weekdays, &windows, &resolved), None);
}

#[test]
fn picking_between_two_occurrences_follows_start_then_index() {
    let a = WindowOccurrence { window_index: 0, start: 100, end: 200 };
    let b = WindowOccurrence { window_index: 1, start: 150, end: 250 };
    let c = WindowOccurrence { window_index: 2, start: 100, end: 300 };
    assert_eq!(pick_active_occurrence(Some(a), Some(b)), Some(b));
    assert_eq!(pick_active_occurrence(Some(c), Some(a)), Some(a));
    assert_eq!(pick_active_occurrence(None, Some(b)), Some(b));
    assert_eq!(pick_next_occurrence(Some(a), Some(b)), Some(a));
    assert_eq!(pick_next_occurrence(Some(c), Some(a)), Some(a));
    assert_eq!(pick_next_occurrence(Some(c), None), Some(c));
    assert_eq!(pick_next_occurrence(None, None), None);
}

#[test]
fn occurrence_key_names_window_and_start() {
    assert_eq!(occurrence_key(&WindowOccurrence { window_index: 3, start: 1_700_000_000, end: 0 }), "r-3-1700000000");
    assert_eq!(occurrence_key(&WindowOccurrence { window_index: 0, start: -5, end: 0 }), "r-0--5");
}

#[test]
fn active_occurrence_is_none_for_a_date_that_does_not_exist() {
    let now = LocalNow { instant: 0, hour: 10, minute: 15, date: CivilDate { year: 2024, month: 2, day: 30 } };
    let windows = compile_windows(&vec![RecurringFocusWindowConfig {
        days: vec!["mon".to_string(), "tue".to_string(), "wed".to_string(), "thu".to_string(), "fri".to_string(), "sat".to_string(), "sun".to_string()],
        start: "10:00".to_string(),
        end: "11:00".to_string(),
    }]);
    assert_eq!(active_occurrence(&now, &windows), None);
}
