//! Phase-completion notifications: whether one is due, its text, and the
//! fallback rule for platforms whose toast may fail.
use crate::config::NotificationConfig;
use crate::text::{concat, push_char};
use crate::timer::TimerPhase;
use vstd::prelude::*;

verus! {

/// Title of every desktop notification.
pub const NOTIFICATION_TITLE: &'static str = "focustime";

/// Decides the notifications sent when a timer phase completes.
pub struct PhaseNotifier {
    settings: NotificationConfig,
}

/// A notification that is due: its title, body, and whether a sound goes with it.
#[derive(Debug, Clone, PartialEq, Eq)]
pub struct PhaseNotification {
    pub title: &'static str,
    pub message: String,
    pub play_sound: bool,
}

/// `"<completed> complete. Next up: <next>."`
pub open spec fn spec_transition_message(completed: TimerPhase, next: TimerPhase) -> Seq<char> {
    completed.spec_label() + " complete. Next up: "@ + next.spec_label() + "."@
}

/// The text announcing that `completed` ended and `next` begins.
pub fn transition_message(completed: TimerPhase, next: TimerPhase) -> (r: String)
    ensures
        r@ == spec_transition_message(completed, next),
{
    let mut r = concat(completed.label(), " complete. Next up: ");
    r.append(next.label());
    r.append(".");
    r
}

impl PhaseNotifier {
    pub closed spec fn spec_settings(self) -> NotificationConfig {
        self.settings
    }

    /// A notifier with the given settings.
    pub fn new(settings: NotificationConfig) -> (r: PhaseNotifier)
        ensures
            r.spec_settings() == settings,
    {
        PhaseNotifier { settings }
    }

    /// The notification for a completed phase: none while notifications
    /// are off, else the transition message, with a sound when enabled.
    pub fn phase_completion(&self, completed: TimerPhase, next: TimerPhase) -> (r: Option<PhaseNotification>)
        ensures
            !self.spec_settings().enabled ==> r is None,
            self.spec_settings().enabled ==> (r matches Some(n) && n.title@ == NOTIFICATION_TITLE@
                && n.message@ == spec_transition_message(completed, next) && n.play_sound
                == self.spec_settings().sound),
    {
        if !self.settings.enabled {
            return None;
        }
        Some(
            PhaseNotification {
                title: NOTIFICATION_TITLE,
                message: transition_message(completed, next),
                play_sound: self.settings.sound,
            },
        )
    }
}

/// Shows a toast and, only when it could not be shown, sends the fallback.
/// Returns whether the fallback was sent.
pub fn notify_windows_with_fallback<T: FnMut(&str, &str) -> bool, F: FnMut(&str, &str)>(
    title: &str,
    body: &str,
    mut show_toast: T,
    mut send_fallback: F,
) -> (r: bool)
    requires
        call_requires(show_toast, (title, body)),
        forall|t: &str, b: &str| call_requires(send_fallback, (t, b)),
    ensures
        exists|shown: bool| call_ensures(show_toast, (title, body), shown) && r == !shown,
{
    let shown = show_toast(title, body);
    if !shown {
        send_fallback(title, body);
        true
    } else {
        false
    }
}

/// `value` with `\` and `"` escaped for an AppleScript string literal.
pub open spec fn spec_escape_applescript(value: Seq<char>) -> Seq<char>
    decreases value.len(),
{
    if value.len() == 0 {
        Seq::empty()
    } else {
        let c = value.last();
        spec_escape_applescript(value.drop_last()) + if c == '\\' {
            seq!['\\', '\\']
        } else if c == '"' {
            seq!['\\', '"']
        } else {
            seq![c]
        }
    }
}

/// Escapes `\` and `"` for an AppleScript string literal.
pub fn escape_applescript_literal(value: &str) -> (r: String)
    ensures
        r@ == spec_escape_applescript(value@),
{
    let n = value.unicode_len();
    let mut r = String::new();
    let mut i: usize = 0;
    while i < n
        invariant
            n == value@.len(),
            i <= n,
            r@ == spec_escape_applescript(value@.subrange(0, i as int)),
        decreases n - i,
    {
        let c = value.get_char(i);
        assert(value@.subrange(0, i + 1).drop_last() =~= value@.subrange(0, i as int));
        if c == '\\' {
            push_char(&mut r, '\\');
            push_char(&mut r, '\\');
        } else if c == '"' {
            push_char(&mut r, '\\');
            push_char(&mut r, '"');
        } else {
            push_char(&mut r, c);
        }
        assert(r@ =~= spec_escape_applescript(value@.subrange(0, i + 1)));
        i = i + 1;
    }
    assert(value@.subrange(0, n as int) =~= value@);
    r
}

} // verus!
