//! The commands that read or change one setting: what each does to the
//! configuration, what it reports, and the lines it prints. Loading and
//! saving the configuration is the caller's; a command that changed
//! something says so in its report.
use crate::cli::report::{build_schedule_inspection_output, spec_schedule_conflicts, ScheduleInspectionOutput};
use crate::cli::status::{
    available_theme_preset_views, is_preset_menu, is_preset_view, is_profile_view, profile_view, theme_preset_view,
    ProfileView, ThemePresetView,
};
use crate::config::settings::{
    spec_default_automation, spec_for_profile, spec_normalized_custom_profile, spec_slot, AppConfig, CustomProfileConfig,
};
use crate::config::{
    lemma_windows_normalization_idempotent, spec_normalized_windows, DailyGoalConfig, ProfileId,
    RecurringScheduleConfig, ThemePreset, WindowView,
};
use crate::schedule::{spec_format_conflict, ScheduleConflict};
use crate::text::{concat, decimal, owned, u64_to_string};
use vstd::prelude::*;

verus! {

/// Seconds as minutes and seconds: `45s`, `25m` or `1m 30s`.
pub open spec fn spec_duration_text(secs: u64) -> Seq<char> {
    let minutes = secs / 60;
    let seconds = secs % 60;
    if minutes == 0 {
        decimal(seconds as nat) + "s"@
    } else if seconds == 0 {
        decimal(minutes as nat) + "m"@
    } else {
        decimal(minutes as nat) + "m "@ + decimal(seconds as nat) + "s"@
    }
}

/// Renders a duration in minutes and seconds.
pub fn format_duration(secs: u64) -> (r: String)
    ensures
        r@ == spec_duration_text(secs),
{
    let minutes = secs / 60;
    let seconds = secs % 60;
    if minutes == 0 {
        let s = u64_to_string(seconds);
        concat(s.as_str(), "s")
    } else if seconds == 0 {
        let m = u64_to_string(minutes);
        concat(m.as_str(), "m")
    } else {
        let m = u64_to_string(minutes);
        let mut r = concat(m.as_str(), "m ");
        let s = u64_to_string(seconds);
        r.append(s.as_str());
        r.append("s");
        r
    }
}

/// The custom profile's lengths: the configured ones, else the legacy
/// top-level ones, with zero lengths replaced by their defaults.
pub open spec fn spec_effective_custom(c: AppConfig) -> CustomProfileConfig {
    spec_normalized_custom_profile(
        match c.custom_profile {
            Some(p) => p,
            None => CustomProfileConfig {
                focus_secs: c.focus_secs,
                short_break_secs: c.short_break_secs,
                long_break_secs: c.long_break_secs,
                long_break_interval: c.long_break_interval,
            },
        },
    )
}

/// What the profile command reports.
#[derive(Debug, Clone, PartialEq, Eq)]
pub struct ProfileOutput {
    pub updated: bool,
    pub selected: ProfileView,
    pub available: Vec<ProfileView>,
    pub selected_theme_preset: ThemePresetView,
    pub available_theme_presets: Vec<ThemePresetView>,
}

/// Selects a timer profile when one is given, and reports the selection
/// with every profile's lengths.
pub fn apply_profile_command(config: &mut AppConfig, profile: Option<ProfileId>) -> (r: ProfileOutput)
    ensures
        *final(config) == (match profile {
            Some(p) => AppConfig { selected_profile: p, ..*old(config) },
            None => *old(config),
        }),
        r.updated == profile is Some,
        is_profile_view(r.selected, final(config).selected_profile, spec_effective_custom(*final(config))),
        r.available@.len() == 3,
        is_profile_view(r.available@[0], ProfileId::Classic, spec_effective_custom(*final(config))),
        is_profile_view(r.available@[1], ProfileId::DeepWork, spec_effective_custom(*final(config))),
        is_profile_view(r.available@[2], ProfileId::Custom, spec_effective_custom(*final(config))),
        is_preset_view(r.selected_theme_preset, final(config).selected_theme_preset),
        is_preset_menu(r.available_theme_presets@),
{
    let updated = match profile {
        Some(p) => {
            config.selected_profile = p;
            true
        },
        None => false,
    };
    let custom = config.effective_custom_profile();
    let selected = profile_view(config.selected_profile, &custom);
    let mut available: Vec<ProfileView> = Vec::new();
    available.push(profile_view(ProfileId::Classic, &custom));
    available.push(profile_view(ProfileId::DeepWork, &custom));
    available.push(profile_view(ProfileId::Custom, &custom));
    ProfileOutput {
        updated,
        selected,
        available,
        selected_theme_preset: theme_preset_view(config.selected_theme_preset),
        available_theme_presets: available_theme_preset_views(),
    }
}

/// What the theme command reports.
#[derive(Debug, Clone, PartialEq, Eq)]
pub struct ThemeCommandOutput {
    pub updated: bool,
    pub selected_theme_preset: ThemePresetView,
    pub available_theme_presets: Vec<ThemePresetView>,
}

/// Selects a theme preset when one is given.
pub fn apply_theme_command(config: &mut AppConfig, preset: Option<ThemePreset>) -> (r: ThemeCommandOutput)
    ensures
        *final(config) == (match preset {
            Some(p) => AppConfig { selected_theme_preset: p, ..*old(config) },
            None => *old(config),
        }),
        r.updated == preset is Some,
        is_preset_view(r.selected_theme_preset, final(config).selected_theme_preset),
        is_preset_menu(r.available_theme_presets@),
{
    let updated = match preset {
        Some(p) => {
            config.selected_theme_preset = p;
            true
        },
        None => false,
    };
    ThemeCommandOutput {
        updated,
        selected_theme_preset: theme_preset_view(config.selected_theme_preset),
        available_theme_presets: available_theme_preset_views(),
    }
}

/// What the daily goal command reports.
#[derive(Debug, Clone, Copy, PartialEq, Eq, Structural)]
pub struct GoalCommandOutput {
    pub updated: bool,
    pub configured: bool,
    pub minutes_target: u64,
    pub pomodoros_target: u32,
}

/// Sets the daily goal when one is given.
pub fn apply_goal_command(config: &mut AppConfig, goal: Option<DailyGoalConfig>) -> (r: GoalCommandOutput)
    ensures
        *final(config) == (match goal {
            Some(g) => AppConfig { daily_goal: g, ..*old(config) },
            None => *old(config),
        }),
        r == (GoalCommandOutput {
            updated: goal is Some,
            configured: final(config).daily_goal.minutes > 0 || final(config).daily_goal.pomodoros > 0,
            minutes_target: final(config).daily_goal.minutes,
            pomodoros_target: final(config).daily_goal.pomodoros,
        }),
{
    let updated = match goal {
        Some(g) => {
            config.daily_goal = g;
            true
        },
        None => false,
    };
    GoalCommandOutput {
        updated,
        configured: config.daily_goal.minutes > 0 || config.daily_goal.pomodoros > 0,
        minutes_target: config.daily_goal.minutes,
        pomodoros_target: config.daily_goal.pomodoros,
    }
}

/// What the daily goal carry-over command reports.
#[derive(Debug, Clone, Copy, PartialEq, Eq, Structural)]
pub struct GoalCarryCommandOutput {
    pub updated: bool,
    pub carry_over: bool,
}

/// Switches the daily carry-over when asked.
pub fn apply_goal_carry_command(config: &mut AppConfig, enabled: Option<bool>) -> (r: GoalCarryCommandOutput)
    ensures
        *final(config) == (match enabled {
            Some(e) => AppConfig {
                goal_carry_over: crate::config::GoalCarryOverConfig { daily: e, ..old(config).goal_carry_over },
                ..*old(config)
            },
            None => *old(config),
        }),
        r == (GoalCarryCommandOutput { updated: enabled is Some, carry_over: final(config).goal_carry_over.daily }),
{
    let updated = match enabled {
        Some(e) => {
            config.goal_carry_over.daily = e;
            true
        },
        None => false,
    };
    GoalCarryCommandOutput { updated, carry_over: config.goal_carry_over.daily }
}

/// What the strict mode command reports.
#[derive(Debug, Clone, Copy, PartialEq, Eq, Structural)]
pub struct StrictCommandOutput {
    pub updated: bool,
    pub strict_mode: bool,
}

/// The strict mode the selected profile's automation runs with.
pub open spec fn spec_selected_strict(c: AppConfig) -> bool {
    match c.profile_automation {
        Some(s) => spec_for_profile(spec_slot(s, c.selected_profile), spec_default_automation()).strict_mode,
        None => spec_default_automation().strict_mode,
    }
}

/// Switches strict mode for the selected profile when asked.
pub fn apply_strict_command(config: &mut AppConfig, enabled: Option<bool>) -> (r: StrictCommandOutput)
    ensures
        enabled is None ==> *final(config) == *old(config),
        enabled matches Some(e) ==> final(config).profile_automation is Some && spec_selected_strict(*final(config)) == e
            && *final(config) == (AppConfig { profile_automation: final(config).profile_automation, ..*old(config) }),
        r == (StrictCommandOutput { updated: enabled is Some, strict_mode: spec_selected_strict(*final(config)) }),
{
    let updated = match enabled {
        Some(e) => {
            let mut automation = config.profile_automation_for(config.selected_profile);
            automation.strict_mode = e;
            let selected = config.selected_profile;
            config.set_profile_automation_for(selected, automation);
            true
        },
        None => false,
    };
    let strict_mode = config.profile_automation_for(config.selected_profile).strict_mode;
    StrictCommandOutput { updated, strict_mode }
}

/// What the schedule command reports.
#[derive(Debug, Clone, PartialEq, Eq)]
pub struct ScheduleCommandOutput {
    pub updated: bool,
    pub schedule: RecurringScheduleConfig,
    pub inspection: ScheduleInspectionOutput,
}

/// The recurring schedule of the selected profile's automation.
pub open spec fn spec_selected_schedule(c: AppConfig) -> Seq<WindowView> {
    match c.profile_automation {
        Some(s) => spec_for_profile(spec_slot(s, c.selected_profile), spec_default_automation()).schedule,
        None => spec_default_automation().schedule,
    }
}

/// Sets the selected profile's schedule, normalized, when one is given, and
/// reports the schedule with its conflicts.
pub fn apply_schedule_command(config: &mut AppConfig, schedule: Option<RecurringScheduleConfig>) -> (r: ScheduleCommandOutput)
    ensures
        schedule is None ==> *final(config) == *old(config),
        schedule matches Some(s) ==> final(config).profile_automation is Some && spec_selected_schedule(*final(config))
            == spec_normalized_windows(s@)
            && *final(config) == (AppConfig { profile_automation: final(config).profile_automation, ..*old(config) }),
        r.updated == schedule is Some,
        r.schedule@ == spec_selected_schedule(*final(config)),
        r.inspection.conflict_count == r.inspection.conflicts@.len(),
        r.inspection.conflicts@.map_values(|t: String| t@) == spec_schedule_conflicts(r.schedule@).map_values(
            |c: ScheduleConflict| spec_format_conflict(c),
        ),
{
    let updated = match schedule {
        Some(s) => {
            let mut automation = config.profile_automation_for(config.selected_profile);
            automation.recurring_schedule = s.normalized();
            let selected = config.selected_profile;
            config.set_profile_automation_for(selected, automation);
            proof {
                lemma_windows_normalization_idempotent(s@);
            }
            true
        },
        None => false,
    };
    let selected = config.profile_automation_for(config.selected_profile);
    let inspection = build_schedule_inspection_output(&selected.recurring_schedule);
    ScheduleCommandOutput { updated, schedule: selected.recurring_schedule, inspection }
}

} // verus!
