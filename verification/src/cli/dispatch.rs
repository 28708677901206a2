//! Decisions around running a command: the usage surface it is recorded
//! under, and the cadence of `--status --watch`.
use crate::cli::{BlocklistSiteCommandKind, CommandKind};
use crate::text::owned;
use vstd::prelude::*;

verus! {

/// The usage surface a command is recorded under.
pub open spec fn spec_usage_surface(command: CommandKind) -> Option<Seq<char>> {
    match command {
        CommandKind::Start => Some("start"@),
        CommandKind::Pause => Some("pause"@),
        CommandKind::Resume => Some("resume"@),
        CommandKind::Stop => Some("stop"@),
        CommandKind::Next => Some("next"@),
        CommandKind::Task { .. } => Some("task"@),
        CommandKind::Profile { .. } => Some("profile"@),
        CommandKind::Theme { .. } => Some("theme"@),
        CommandKind::Goal { .. } => Some("goal"@),
        CommandKind::GoalCarry { .. } => Some("goal-carry"@),
        CommandKind::Strict { .. } => Some("strict"@),
        CommandKind::Schedule { .. } => Some("schedule"@),
        CommandKind::Diagnostics => Some("diagnostics"@),
        CommandKind::Status { .. } => Some("status"@),
        CommandKind::Backup { .. } => Some("backup"@),
        CommandKind::Restore { .. } => Some("restore"@),
        CommandKind::Export { .. } => Some("export"@),
        CommandKind::BlocklistSites { .. } => Some("blocklist-sites"@),
        CommandKind::HistoryDashboard { .. } => Some("history-dashboard"@),
    }
}

pub open spec fn opt_static_view(o: Option<&'static str>) -> Option<Seq<char>> {
    match o {
        Some(s) => Some(s@),
        None => None,
    }
}

/// The usage surface a command is recorded under.
pub fn command_usage_surface_id(command: &CommandKind) -> (r: Option<&'static str>)
    ensures
        opt_static_view(r) == spec_usage_surface(*command),
{
    match command {
        CommandKind::Start => Some("start"),
        CommandKind::Pause => Some("pause"),
        CommandKind::Resume => Some("resume"),
        CommandKind::Stop => Some("stop"),
        CommandKind::Next => Some("next"),
        CommandKind::Task { .. } => Some("task"),
        CommandKind::Profile { .. } => Some("profile"),
        CommandKind::Theme { .. } => Some("theme"),
        CommandKind::Goal { .. } => Some("goal"),
        CommandKind::GoalCarry { .. } => Some("goal-carry"),
        CommandKind::Strict { .. } => Some("strict"),
        CommandKind::Schedule { .. } => Some("schedule"),
        CommandKind::Diagnostics => Some("diagnostics"),
        CommandKind::Status { .. } => Some("status"),
        CommandKind::Backup { .. } => Some("backup"),
        CommandKind::Restore { .. } => Some("restore"),
        CommandKind::Export { .. } => Some("export"),
        CommandKind::BlocklistSites { .. } => Some("blocklist-sites"),
        CommandKind::HistoryDashboard { .. } => Some("history-dashboard"),
    }
}

/// Commands whose usage the timer application records itself while it runs them.
pub open spec fn spec_records_via_app(command: CommandKind) -> bool {
    match command {
        CommandKind::Start | CommandKind::Pause | CommandKind::Resume | CommandKind::Stop
        | CommandKind::Next | CommandKind::Task { .. } | CommandKind::Diagnostics => true,
        _ => false,
    }
}

/// Whether the application records the command's usage.
pub fn command_usage_records_via_app(command: &CommandKind) -> (r: bool)
    ensures
        r == spec_records_via_app(*command),
{
    match command {
        CommandKind::Start | CommandKind::Pause | CommandKind::Resume | CommandKind::Stop
        | CommandKind::Next | CommandKind::Task { .. } | CommandKind::Diagnostics => true,
        _ => false,
    }
}

/// The usage surface to record directly, outside the application: the
/// command's surface when the application does not record it.
pub fn direct_usage_surface(command: &CommandKind) -> (r: Option<&'static str>)
    ensures
        opt_static_view(r) == (if spec_records_via_app(*command) {
            None
        } else {
            spec_usage_surface(*command)
        }),
{
    if command_usage_records_via_app(command) {
        None
    } else {
        command_usage_surface_id(command)
    }
}

/// The next watch deadline in milliseconds: the first multiple of `interval`
/// after `previous` that lies strictly after `now`.
pub fn next_watch_deadline(previous_deadline_ms: u64, interval_ms: u64, now_ms: u64) -> (r: u64)
    requires
        interval_ms > 0,
        previous_deadline_ms as int + interval_ms <= u64::MAX,
        now_ms as int + interval_ms <= u64::MAX,
    ensures
        r > now_ms,
        r > previous_deadline_ms,
        (r - previous_deadline_ms) % (interval_ms as int) == 0,
        r == previous_deadline_ms + interval_ms || r - interval_ms <= now_ms,
        exists|k: int|
            k >= 1 && #[trigger] (k * interval_ms) == r - previous_deadline_ms && (k == 1 || previous_deadline_ms + (k
                - 1) * interval_ms <= now_ms),
{
    let mut deadline = previous_deadline_ms + interval_ms;
    proof {
        assert((deadline - previous_deadline_ms) % (interval_ms as int) == 0) by (nonlinear_arith)
            requires deadline - previous_deadline_ms == interval_ms, interval_ms > 0;
    }
    while deadline <= now_ms
        invariant
            interval_ms > 0,
            now_ms as int + interval_ms <= u64::MAX,
            deadline > previous_deadline_ms,
            (deadline - previous_deadline_ms) % (interval_ms as int) == 0,
            deadline == previous_deadline_ms + interval_ms || deadline - interval_ms <= now_ms,
        decreases now_ms + interval_ms - deadline,
    {
        let ghost before = deadline;
        deadline = deadline + interval_ms;
        proof {
            let a = before - previous_deadline_ms;
            assert((a + interval_ms) % (interval_ms as int) == 0) by (nonlinear_arith)
                requires a % (interval_ms as int) == 0, interval_ms > 0, a >= 0;
        }
    }
    proof {
        let k = (deadline - previous_deadline_ms) / (interval_ms as int);
        let a = deadline - previous_deadline_ms;
        assert(k * interval_ms == a && k >= 1) by (nonlinear_arith)
            requires a % (interval_ms as int) == 0, interval_ms > 0, a > 0, k == a / (interval_ms as int);
        assert((k - 1) * interval_ms == a - interval_ms) by (nonlinear_arith)
            requires k * interval_ms == a;
        if a == interval_ms {
            assert(k == 1) by (nonlinear_arith)
                requires k * interval_ms == a, a == interval_ms, interval_ms > 0;
        }
        assert(k == 1 || previous_deadline_ms + (k - 1) * interval_ms <= now_ms);
        assert(k >= 1 && (k * interval_ms) == deadline - previous_deadline_ms && (k == 1 || previous_deadline_ms + (k
            - 1) * interval_ms <= now_ms));
    }
    deadline
}

/// What one poll of the watch wait does.
#[derive(Debug, Clone, Copy, PartialEq, Eq, Structural)]
pub enum WatchWait {
    /// An interrupt was requested: stop watching.
    Interrupted,
    /// The deadline has passed: refresh the status.
    Due,
    /// Sleep this many milliseconds, then poll again.
    Sleep(u64),
}

/// Poll interval of the watch wait while an interrupt may arrive.
pub const WATCH_INTERRUPT_POLL_INTERVAL_MS: u64 = 200;

/// One poll of the wait for the next watch tick.
pub fn watch_wait_step(interrupted: bool, now_ms: u64, deadline_ms: u64) -> (r: WatchWait)
    ensures
        interrupted ==> r == WatchWait::Interrupted,
        !interrupted && now_ms >= deadline_ms ==> r == WatchWait::Due,
        !interrupted && now_ms < deadline_ms ==> r == WatchWait::Sleep(
            if deadline_ms - now_ms < WATCH_INTERRUPT_POLL_INTERVAL_MS {
                (deadline_ms - now_ms) as u64
            } else {
                WATCH_INTERRUPT_POLL_INTERVAL_MS
            },
        ),
{
    if interrupted {
        return WatchWait::Interrupted;
    }
    if now_ms >= deadline_ms {
        return WatchWait::Due;
    }
    let remaining = deadline_ms - now_ms;
    WatchWait::Sleep(
        if remaining < WATCH_INTERRUPT_POLL_INTERVAL_MS {
            remaining
        } else {
            WATCH_INTERRUPT_POLL_INTERVAL_MS
        },
    )
}

/// A watch interval must be at least one second.
pub fn validate_watch_interval(interval_secs: u64) -> (r: Result<(), String>)
    ensures
        interval_secs == 0 ==> (r matches Err(e) && e@ == "`--watch` interval must be greater than 0 seconds."@),
        interval_secs > 0 ==> r is Ok,
{
    if interval_secs == 0 {
        return Err(owned("`--watch` interval must be greater than 0 seconds."));
    }
    Ok(())
}

} // verus!
