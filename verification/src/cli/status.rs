//! Pieces of the status report: the timer profile a configuration selects,
//! theme presets as shown to users, and the progress of the current session.
use crate::config::settings::{spec_normalized_custom_profile, CustomProfileConfig};
use crate::config::{
    ProfileId, ThemePreset, DEFAULT_FOCUS_SECS, DEFAULT_LONG_BREAK_INTERVAL, DEFAULT_LONG_BREAK_SECS,
    DEFAULT_SHORT_BREAK_SECS,
};
use crate::text::{owned, trim, trim_str};
use vstd::prelude::*;

verus! {

/// The phase lengths of a timer profile.
#[derive(Debug, Clone, Copy, PartialEq, Eq, Structural)]
pub struct ProfileSpec {
    pub focus_secs: u64,
    pub short_break_secs: u64,
    pub long_break_secs: u64,
    pub long_break_interval: u32,
}

/// A timer profile as reported: its id, label and phase lengths.
#[derive(Debug, Clone, Copy, PartialEq, Eq)]
pub struct ProfileView {
    pub id: &'static str,
    pub label: &'static str,
    pub focus_secs: u64,
    pub short_break_secs: u64,
    pub long_break_secs: u64,
    pub long_break_interval: u32,
}

/// A theme preset as reported: its id and label.
#[derive(Debug, Clone, Copy, PartialEq, Eq)]
pub struct ThemePresetView {
    pub id: &'static str,
    pub label: &'static str,
}

/// The phase lengths each profile runs with: the classic 25/5/15 rhythm,
/// the deep-work 50/10/30 rhythm with a long break every third focus, or the
/// custom lengths with zero ones replaced by their defaults.
pub open spec fn spec_profile_spec(profile: ProfileId, custom: CustomProfileConfig) -> ProfileSpec {
    match profile {
        ProfileId::Classic => ProfileSpec {
            focus_secs: DEFAULT_FOCUS_SECS,
            short_break_secs: DEFAULT_SHORT_BREAK_SECS,
            long_break_secs: DEFAULT_LONG_BREAK_SECS,
            long_break_interval: DEFAULT_LONG_BREAK_INTERVAL,
        },
        ProfileId::DeepWork => ProfileSpec {
            focus_secs: 3000,
            short_break_secs: 600,
            long_break_secs: 1800,
            long_break_interval: 3,
        },
        ProfileId::Custom => {
            let c = spec_normalized_custom_profile(custom);
            ProfileSpec {
                focus_secs: c.focus_secs,
                short_break_secs: c.short_break_secs,
                long_break_secs: c.long_break_secs,
                long_break_interval: c.long_break_interval,
            }
        },
    }
}

/// The phase lengths a profile runs with.
pub fn resolve_profile_spec(profile: ProfileId, custom: &CustomProfileConfig) -> (r: ProfileSpec)
    ensures
        r == spec_profile_spec(profile, *custom),
{
    match profile {
        ProfileId::Classic => ProfileSpec {
            focus_secs: DEFAULT_FOCUS_SECS,
            short_break_secs: DEFAULT_SHORT_BREAK_SECS,
            long_break_secs: DEFAULT_LONG_BREAK_SECS,
            long_break_interval: DEFAULT_LONG_BREAK_INTERVAL,
        },
        ProfileId::DeepWork => ProfileSpec {
            focus_secs: 50 * 60,
            short_break_secs: 10 * 60,
            long_break_secs: 30 * 60,
            long_break_interval: 3,
        },
        ProfileId::Custom => {
            let custom = custom.normalized();
            ProfileSpec {
                focus_secs: custom.focus_secs,
                short_break_secs: custom.short_break_secs,
                long_break_secs: custom.long_break_secs,
                long_break_interval: custom.long_break_interval,
            }
        },
    }
}

/// The canonical token of a profile.
pub open spec fn spec_profile_id(profile: ProfileId) -> Seq<char> {
    match profile {
        ProfileId::Classic => "basic"@,
        ProfileId::DeepWork => "standard"@,
        ProfileId::Custom => "advanced"@,
    }
}

/// The canonical token of a profile.
pub fn profile_id(profile: ProfileId) -> (r: &'static str)
    ensures
        r@ == spec_profile_id(profile),
{
    match profile {
        ProfileId::Classic => "basic",
        ProfileId::DeepWork => "standard",
        ProfileId::Custom => "advanced",
    }
}

/// The display label of a profile.
pub open spec fn spec_profile_label(profile: ProfileId) -> Seq<char> {
    match profile {
        ProfileId::Classic => "Basic"@,
        ProfileId::DeepWork => "Standard"@,
        ProfileId::Custom => "Advanced"@,
    }
}

/// `v` reports `profile` with the lengths it runs with under `custom`.
pub open spec fn is_profile_view(v: ProfileView, profile: ProfileId, custom: CustomProfileConfig) -> bool {
    &&& v.id@ == spec_profile_id(profile)
    &&& v.label@ == spec_profile_label(profile)
    &&& v.focus_secs == spec_profile_spec(profile, custom).focus_secs
    &&& v.short_break_secs == spec_profile_spec(profile, custom).short_break_secs
    &&& v.long_break_secs == spec_profile_spec(profile, custom).long_break_secs
    &&& v.long_break_interval == spec_profile_spec(profile, custom).long_break_interval
}

/// The display label of a theme preset.
pub open spec fn spec_preset_label(preset: ThemePreset) -> Seq<char> {
    match preset {
        ThemePreset::Classic => "Classic"@,
        ThemePreset::HighContrast => "High Contrast"@,
        ThemePreset::DeuteranopiaFriendly => "Deuteranopia Friendly"@,
    }
}

/// `t` reports `preset`.
pub open spec fn is_preset_view(t: ThemePresetView, preset: ThemePreset) -> bool {
    t.id@ == preset.spec_id() && t.label@ == spec_preset_label(preset)
}

/// Every theme preset in menu order.
pub open spec fn is_preset_menu(ts: Seq<ThemePresetView>) -> bool {
    &&& ts.len() == 3
    &&& is_preset_view(ts[0], ThemePreset::Classic)
    &&& is_preset_view(ts[1], ThemePreset::HighContrast)
    &&& is_preset_view(ts[2], ThemePreset::DeuteranopiaFriendly)
}

/// A profile as reported, with the lengths it runs with.
pub fn profile_view(profile: ProfileId, custom: &CustomProfileConfig) -> (r: ProfileView)
    ensures
        is_profile_view(r, profile, *custom),
{
    let spec = resolve_profile_spec(profile, custom);
    ProfileView {
        id: profile_id(profile),
        label: profile.label(),
        focus_secs: spec.focus_secs,
        short_break_secs: spec.short_break_secs,
        long_break_secs: spec.long_break_secs,
        long_break_interval: spec.long_break_interval,
    }
}

/// A theme preset as reported.
pub fn theme_preset_view(preset: ThemePreset) -> (r: ThemePresetView)
    ensures
        is_preset_view(r, preset),
{
    ThemePresetView { id: preset.id(), label: preset.label() }
}

/// Every theme preset as reported, in menu order.
pub fn available_theme_preset_views() -> (r: Vec<ThemePresetView>)
    ensures
        is_preset_menu(r@),
{
    let mut r: Vec<ThemePresetView> = Vec::new();
    r.push(theme_preset_view(ThemePreset::Classic));
    r.push(theme_preset_view(ThemePreset::HighContrast));
    r.push(theme_preset_view(ThemePreset::DeuteranopiaFriendly));
    r
}

/// A task label trimmed; a blank one is no label.
pub fn normalize_optional_task_label(task_label: Option<String>) -> (r: Option<String>)
    ensures
        match task_label {
            Some(v) => if trim(v@).len() == 0 {
                r is None
            } else {
                r matches Some(s) && s@ == trim(v@)
            },
            None => r is None,
        },
{
    match task_label {
        Some(value) => {
            let trimmed = trim_str(value.as_str());
            if trimmed.unicode_len() == 0 {
                None
            } else {
                Some(owned(trimmed))
            }
        },
        None => None,
    }
}

/// The live timer state shown by the status report.
#[derive(Debug, Clone, PartialEq, Eq)]
pub struct LiveStatusOutput {
    pub state_source: &'static str,
    pub recovery_error: Option<String>,
    pub in_progress: bool,
    pub phase: &'static str,
    pub status: &'static str,
    pub remaining_secs: u64,
    pub pomodoros_completed: u32,
    pub selected_profile: ProfileView,
    pub selected_task_label: Option<String>,
    pub strict_mode_enforced: bool,
}

/// Focus time and pomodoros of the session in progress.
#[derive(Debug, Clone, Copy, PartialEq, Eq, Structural)]
pub struct SessionOutput {
    pub focused_minutes: u64,
    pub pomodoros_completed: u32,
}

/// `a * b`, or `u64::MAX` when the product does not fit.
pub open spec fn saturating_mul(a: int, b: int) -> int {
    if a * b > u64::MAX {
        u64::MAX as int
    } else {
        a * b
    }
}

/// `a + b`, or `u64::MAX` when the sum does not fit.
pub open spec fn saturating_add(a: int, b: int) -> int {
    if a + b > u64::MAX {
        u64::MAX as int
    } else {
        a + b
    }
}

/// Seconds focused in the session: the completed pomodoros at full focus
/// length, plus the elapsed part of a focus phase that is running or paused.
pub open spec fn spec_focused_seconds(live: LiveStatusOutput) -> int {
    let completed = saturating_mul(live.pomodoros_completed as int, live.selected_profile.focus_secs as int);
    if live.phase@ == "focus"@ && (live.status@ == "running"@ || live.status@ == "paused"@) {
        let elapsed = if live.selected_profile.focus_secs >= live.remaining_secs {
            live.selected_profile.focus_secs - live.remaining_secs
        } else {
            0
        };
        saturating_add(completed, elapsed)
    } else {
        completed
    }
}

/// Pausing does not change focused time: two live states that differ only
/// in that one focus phase is running and the other paused give the same
/// focused seconds.
pub proof fn lemma_pausing_keeps_focused_time(running: LiveStatusOutput, paused: LiveStatusOutput)
    requires
        running.phase@ == "focus"@,
        paused.phase@ == "focus"@,
        running.status@ == "running"@,
        paused.status@ == "paused"@,
        running.remaining_secs == paused.remaining_secs,
        running.pomodoros_completed == paused.pomodoros_completed,
        running.selected_profile.focus_secs == paused.selected_profile.focus_secs,
    ensures
        spec_focused_seconds(running) == spec_focused_seconds(paused),
{
}

/// In a focus phase that is running or paused, the session has focused for
/// its completed pomodoros at full focus length plus the part of the
/// current focus phase already gone, when that fits in `u64`.
pub proof fn lemma_focused_time_counts_the_current_focus(live: LiveStatusOutput)
    requires
        live.phase@ == "focus"@,
        live.status@ == "running"@ || live.status@ == "paused"@,
        live.remaining_secs <= live.selected_profile.focus_secs,
        (live.pomodoros_completed as int + 1) * (live.selected_profile.focus_secs as int) <= u64::MAX,
    ensures
        spec_focused_seconds(live) == live.pomodoros_completed as int * live.selected_profile.focus_secs as int
            + live.selected_profile.focus_secs as int - live.remaining_secs as int,
{
    let p = live.pomodoros_completed as int;
    let f = live.selected_profile.focus_secs as int;
    assert((p + 1) * f == p * f + f) by (nonlinear_arith);
    assert(p * f >= 0) by (nonlinear_arith)
        requires
            p >= 0,
            f >= 0,
    ;
}

/// The session's progress: nothing when no session is in progress.
pub fn build_session_output(live: &LiveStatusOutput) -> (r: SessionOutput)
    ensures
        !live.in_progress ==> r == (SessionOutput { focused_minutes: 0, pomodoros_completed: 0 }),
        live.in_progress ==> r == (SessionOutput {
            focused_minutes: (spec_focused_seconds(*live) / 60) as u64,
            pomodoros_completed: live.pomodoros_completed,
        }),
{
    if !live.in_progress {
        return SessionOutput { focused_minutes: 0, pomodoros_completed: 0 };
    }
    proof {
        reveal_strlit("focus");
        reveal_strlit("running");
        reveal_strlit("paused");
    }
    let mut focused_seconds = match (live.pomodoros_completed as u64).checked_mul(live.selected_profile.focus_secs) {
        Some(product) => product,
        None => u64::MAX,
    };
    if crate::text::str_eq(live.phase, "focus") && (crate::text::str_eq(live.status, "running")
        || crate::text::str_eq(live.status, "paused")) {
        focused_seconds = focused_seconds.saturating_add(
            live.selected_profile.focus_secs.saturating_sub(live.remaining_secs),
        );
    }
    SessionOutput { focused_minutes: focused_seconds / 60, pomodoros_completed: live.pomodoros_completed }
}

} // verus!
