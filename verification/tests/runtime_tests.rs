use focustime::config::NotificationConfig;
use focustime::notifications::{notify_windows_with_fallback, PhaseNotifier};
use focustime::timer::{RuntimeClock, TimerElapsed, TimerPhase};

#[test]
fn runtime_clock_accumulates_subsecond_ticks() {
    let mut clock = RuntimeClock::new(100);

    assert_eq!(clock.advance_by(true, 400), None);
    assert_eq!(
        clock.advance_by(true, 600),
        Some(TimerElapsed {
            elapsed_secs: 1,
            is_catchup: false,
        })
    );
}

#[test]
fn runtime_clock_marks_multi_second_catchup() {
    let mut clock = RuntimeClock::new(100);

    assert_eq!(
        clock.advance_by(true, 2500),
        Some(TimerElapsed {
            elapsed_secs: 2,
            is_catchup: true,
        })
    );
    assert_eq!(clock.tick_accumulator_ms, 500);
}

#[test]
fn runtime_clock_clears_accumulator_when_timer_is_not_running() {
    let mut clock = RuntimeClock::new(100);

    assert_eq!(clock.advance_by(true, 900), None);
    assert_eq!(clock.advance_by(false, 500), None);
    assert_eq!(
        clock.advance_by(true, 500),
        None,
        "stale partial time must not leak into a newly started timer"
    );
}

#[test]
fn windows_notification_fallback_runs_when_toast_fails() {
    let mut toast_inputs = Vec::new();
    let mut fallback_inputs = Vec::new();

    notify_windows_with_fallback(
        "focustime",
        "Focus complete. Next up: Short Break.",
        |title, body| {
            toast_inputs.push((title.to_string(), body.to_string()));
            false
        },
        |title, body| {
            fallback_inputs.push((title.to_string(), body.to_string()));
        },
    );

    assert_eq!(
        toast_inputs,
        vec![(
            "focustime".to_string(),
            "Focus complete. Next up: Short Break.".to_string(),
        )]
    );
    assert_eq!(
        fallback_inputs,
        vec![(
            "focustime".to_string(),
            "Focus complete. Next up: Short Break.".to_string(),
        )]
    );
}

#[test]
fn windows_notification_does_not_fallback_when_toast_succeeds() {
    let cases = [
        ("focustime", "Focus complete. Next up: Short Break."),
        ("alert", "Long Break complete. Next up: Focus."),
    ];

    for (title, body) in cases {
        let mut toast_inputs = Vec::new();
        let mut fallback_calls = 0;

        notify_windows_with_fallback(
            title,
            body,
            |toast_title, toast_body| {
                toast_inputs.push((toast_title.to_string(), toast_body.to_string()));
                true
            },
            |_fallback_title, _fallback_body| {
                fallback_calls += 1;
            },
        );

        assert_eq!(toast_inputs, vec![(title.to_string(), body.to_string())]);
        assert_eq!(fallback_calls, 0);
    }
}

#[test]
fn notifier_returns_none_when_disabled() {
    let notifier = PhaseNotifier::new(NotificationConfig {
        enabled: false,
        sound: true,
    });
    let message = notifier.phase_completion(TimerPhase::Focus, TimerPhase::ShortBreak);
    assert!(message.is_none());
}

#[test]
fn notifier_builds_transition_message() {
    let notifier = PhaseNotifier::new(NotificationConfig::default());
    let message = notifier
        .phase_completion(TimerPhase::LongBreak, TimerPhase::Focus)
        .map(|notification| notification.message);
    assert_eq!(
        message.as_deref(),
        Some("Long Break complete. Next up: Focus.")
    );
}

#[test]
fn applescript_literal_escapes_backslashes_and_quotes() {
    assert_eq!(
        focustime::notifications::escape_applescript_literal(r#"Focus "deep" \ work"#),
        r#"Focus \"deep\" \\ work"#
    );
    assert_eq!(focustime::notifications::escape_applescript_literal("plain"), "plain");
}
