use focustime::cli::dispatch::{
    watch_wait_step, WatchWait, WATCH_INTERRUPT_POLL_INTERVAL_MS,
    command_usage_records_via_app, command_usage_surface_id, next_watch_deadline,
};
use focustime::cli::CommandKind;

#[test]
fn command_usage_surface_id_maps_expected_surfaces() {
    assert_eq!(command_usage_surface_id(&CommandKind::Start), Some("start"));
    assert_eq!(
        command_usage_surface_id(&CommandKind::Task {
            label: "docs".to_string()
        }),
        Some("task")
    );
    assert_eq!(
        command_usage_surface_id(&CommandKind::Status {
            watch_interval_secs: None,
        }),
        Some("status")
    );
    assert_eq!(
        command_usage_surface_id(&CommandKind::Export { dir: None }),
        Some("export")
    );
}

#[test]
fn command_usage_records_via_app_matches_expected_commands() {
    assert!(command_usage_records_via_app(&CommandKind::Start));
    assert!(command_usage_records_via_app(&CommandKind::Diagnostics));
    assert!(!command_usage_records_via_app(&CommandKind::Backup {
        dir: None
    }));
    assert!(!command_usage_records_via_app(&CommandKind::Status {
        watch_interval_secs: None,
    }));
}

#[test]
fn next_watch_deadline_advances_when_on_schedule() {
    let base = 10_000;
    let interval = 2_000;
    let now = base + 500;

    let deadline = next_watch_deadline(base, interval, now);

    assert_eq!(deadline, base + interval);
}

#[test]
fn next_watch_deadline_skips_missed_intervals() {
    let base = 10_000;
    let interval = 1_000;
    let now = base + 3_300;

    let deadline = next_watch_deadline(base, interval, now);

    assert_eq!(deadline, base + 4_000);
}

#[test]
fn wait_for_next_watch_tick_returns_interrupt_state_immediately() {
    let now = 50_000;
    let interrupted = watch_wait_step(true, now, now + 1_000);

    assert_eq!(interrupted, WatchWait::Interrupted);
}

#[test]
fn wait_for_next_watch_tick_returns_false_after_deadline() {
    let now = 50_000;
    let step = watch_wait_step(false, now, now);

    assert_eq!(step, WatchWait::Due);
}

#[test]
fn watch_wait_sleeps_at_most_one_poll_interval() {
    assert_eq!(watch_wait_step(false, 0, 5_000), WatchWait::Sleep(WATCH_INTERRUPT_POLL_INTERVAL_MS));
    assert_eq!(watch_wait_step(false, 4_950, 5_000), WatchWait::Sleep(50));
}

#[test]
fn direct_usage_surface_skips_commands_recorded_by_the_application() {
    assert_eq!(focustime::cli::dispatch::direct_usage_surface(&CommandKind::Start), None);
    assert_eq!(focustime::cli::dispatch::direct_usage_surface(&CommandKind::Diagnostics), None);
    assert_eq!(
        focustime::cli::dispatch::direct_usage_surface(&CommandKind::Export { dir: None }),
        Some("export")
    );
}

#[test]
fn watch_interval_must_be_positive() {
    assert_eq!(
        focustime::cli::dispatch::validate_watch_interval(0),
        Err("`--watch` interval must be greater than 0 seconds.".to_string())
    );
    assert_eq!(focustime::cli::dispatch::validate_watch_interval(5), Ok(()));
}
