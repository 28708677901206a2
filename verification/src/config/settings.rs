//! The whole application configuration, its defaults, and the
//! normalization every loaded configuration goes through.
use crate::cli::clone_schedule;
use crate::config::blocklists::{
    default_blocklist_profile_name, default_profile_name, normalize_blocklist_profiles,
    normalize_selected_blocklist_profile, profiles_view, spec_profiles_allowlist,
    spec_collapsed_sites, BlocklistProfileConfig, ProfileView,
};
use crate::config::shortcuts::{shortcut_defaults, spec_normalize_shortcuts, ShortcutConfig};
use crate::config::wakatime::{WakatimeMetadataConfig, WakatimeRuntimeConfig};
use crate::config::{
    nonzero_or_default_u32, nonzero_or_default_u64, spec_all_cards, spec_normalized_windows,
    strings_view, AutoStartConfig, DailyGoalConfig, GoalCarryOverConfig, HistoryDashboardConfig,
    MonthlyGoalConfig, NotificationConfig, ProfileId, RecurringScheduleConfig,
    ScheduleRuntimeConfig, ThemePreset, WeeklyGoalConfig, WindowView,
    DEFAULT_BREAK_GLASS_DURATION_SECS, DEFAULT_FOCUS_SECS, DEFAULT_LONG_BREAK_INTERVAL,
    DEFAULT_LONG_BREAK_SECS, DEFAULT_SHORT_BREAK_SECS,
};
use crate::text::{contains_char, lemma_lower_trim_normal, lower, owned, trim, trim_str, trimmed_lower, eq_ignore_case};
use vstd::prelude::*;

verus! {

/// How site blocking is enforced.
#[derive(Debug, Clone, Copy, PartialEq, Eq, Structural, Default)]
pub enum BlockingBackendPolicyConfig {
    HostsOnly,
    #[default]
    HostsThenCommand,
    CommandThenHosts,
    CommandOnly,
}

/// Shell commands of the command-based blocking backend.
#[derive(Debug, Clone, PartialEq, Eq, Default)]
pub struct CommandBlockingBackendConfig {
    pub block_command: String,
    pub unblock_command: String,
    pub diagnostics_command: String,
}

/// Blocking backend selection.
#[derive(Debug, Clone, PartialEq, Eq, Default)]
pub struct BlockingBackendConfig {
    pub policy: BlockingBackendPolicyConfig,
    pub command: CommandBlockingBackendConfig,
}

impl CommandBlockingBackendConfig {
    /// Each command trimmed.
    pub fn normalized(&self) -> (r: CommandBlockingBackendConfig)
        ensures
            r.block_command@ == trim(self.block_command@),
            r.unblock_command@ == trim(self.unblock_command@),
            r.diagnostics_command@ == trim(self.diagnostics_command@),
    {
        CommandBlockingBackendConfig {
            block_command: owned(trim_str(self.block_command.as_str())),
            unblock_command: owned(trim_str(self.unblock_command.as_str())),
            diagnostics_command: owned(trim_str(self.diagnostics_command.as_str())),
        }
    }

    fn empty() -> (r: CommandBlockingBackendConfig)
        ensures
            r.block_command@.len() == 0,
            r.unblock_command@.len() == 0,
            r.diagnostics_command@.len() == 0,
    {
        CommandBlockingBackendConfig {
            block_command: String::new(),
            unblock_command: String::new(),
            diagnostics_command: String::new(),
        }
    }
}

impl BlockingBackendConfig {
    /// The policy kept, the commands trimmed.
    pub fn normalized(&self) -> (r: BlockingBackendConfig)
        ensures
            r.policy == self.policy,
            r.command.block_command@ == trim(self.command.block_command@),
            r.command.unblock_command@ == trim(self.command.unblock_command@),
            r.command.diagnostics_command@ == trim(self.command.diagnostics_command@),
    {
        BlockingBackendConfig { policy: self.policy, command: self.command.normalized() }
    }
}

/// Timer lengths of the editable custom profile.
#[derive(Debug, Clone, Copy, PartialEq, Eq, Structural)]
pub struct CustomProfileConfig {
    pub focus_secs: u64,
    pub short_break_secs: u64,
    pub long_break_secs: u64,
    pub long_break_interval: u32,
}

pub open spec fn nonzero_or(value: int, default: int) -> int {
    if value == 0 {
        default
    } else {
        value
    }
}

pub open spec fn spec_normalized_custom_profile(p: CustomProfileConfig) -> CustomProfileConfig {
    CustomProfileConfig {
        focus_secs: nonzero_or(p.focus_secs as int, DEFAULT_FOCUS_SECS as int) as u64,
        short_break_secs: nonzero_or(p.short_break_secs as int, DEFAULT_SHORT_BREAK_SECS as int) as u64,
        long_break_secs: nonzero_or(p.long_break_secs as int, DEFAULT_LONG_BREAK_SECS as int) as u64,
        long_break_interval: nonzero_or(p.long_break_interval as int, DEFAULT_LONG_BREAK_INTERVAL as int) as u32,
    }
}

impl CustomProfileConfig {
    /// Each zero length replaced by its default.
    pub fn normalized(&self) -> (r: CustomProfileConfig)
        ensures
            r == spec_normalized_custom_profile(*self),
    {
        CustomProfileConfig {
            focus_secs: nonzero_or_default_u64(self.focus_secs, DEFAULT_FOCUS_SECS),
            short_break_secs: nonzero_or_default_u64(self.short_break_secs, DEFAULT_SHORT_BREAK_SECS),
            long_break_secs: nonzero_or_default_u64(self.long_break_secs, DEFAULT_LONG_BREAK_SECS),
            long_break_interval: nonzero_or_default_u32(
                self.long_break_interval,
                DEFAULT_LONG_BREAK_INTERVAL,
            ),
        }
    }
}

impl Default for CustomProfileConfig {
    /// 25-minute focus, 5-minute short break, 15-minute long break every fourth focus.
    fn default() -> (r: CustomProfileConfig)
        ensures
            r.focus_secs == DEFAULT_FOCUS_SECS,
            r.short_break_secs == DEFAULT_SHORT_BREAK_SECS,
            r.long_break_secs == DEFAULT_LONG_BREAK_SECS,
            r.long_break_interval == DEFAULT_LONG_BREAK_INTERVAL,
    {
        CustomProfileConfig {
            focus_secs: DEFAULT_FOCUS_SECS,
            short_break_secs: DEFAULT_SHORT_BREAK_SECS,
            long_break_secs: DEFAULT_LONG_BREAK_SECS,
            long_break_interval: DEFAULT_LONG_BREAK_INTERVAL,
        }
    }
}

/// How much statistics history is kept.
#[derive(Debug, Clone, Copy, PartialEq, Eq, Structural, Default)]
pub enum StatsRetentionPreset {
    KeepAll,
    Aggressive,
    #[default]
    Balanced,
}

impl StatsRetentionPreset {
    pub open spec fn spec_id(self) -> Seq<char> {
        match self {
            StatsRetentionPreset::KeepAll => "keep_all"@,
            StatsRetentionPreset::Balanced => "balanced"@,
            StatsRetentionPreset::Aggressive => "aggressive"@,
        }
    }

    /// The preset's configuration identifier.
    pub fn id(self) -> (r: &'static str)
        ensures
            r@ == self.spec_id(),
    {
        match self {
            StatsRetentionPreset::KeepAll => "keep_all",
            StatsRetentionPreset::Balanced => "balanced",
            StatsRetentionPreset::Aggressive => "aggressive",
        }
    }
}

/// The retention preset.
#[derive(Debug, Clone, Copy, PartialEq, Eq, Structural, Default)]
pub struct StatsRetentionConfig {
    pub preset: StatsRetentionPreset,
}

/// Days of each kind of history to keep; `None` keeps everything.
#[derive(Debug, Clone, Copy, PartialEq, Eq, Structural)]
pub struct StatsRetentionWindows {
    pub keep_daily_days: Option<u16>,
    pub keep_focus_sessions_days: Option<u16>,
    pub keep_session_interruptions_days: Option<u16>,
    pub keep_break_glass_overrides_days: Option<u16>,
    pub keep_weekly_goal_snapshots_days: Option<u16>,
    pub keep_monthly_goal_snapshots_days: Option<u16>,
}

pub open spec fn spec_retention_windows(preset: StatsRetentionPreset) -> StatsRetentionWindows {
    match preset {
        StatsRetentionPreset::KeepAll => StatsRetentionWindows {
            keep_daily_days: None,
            keep_focus_sessions_days: None,
            keep_session_interruptions_days: None,
            keep_break_glass_overrides_days: None,
            keep_weekly_goal_snapshots_days: None,
            keep_monthly_goal_snapshots_days: None,
        },
        StatsRetentionPreset::Balanced => StatsRetentionWindows {
            keep_daily_days: None,
            keep_focus_sessions_days: Some(365),
            keep_session_interruptions_days: Some(180),
            keep_break_glass_overrides_days: Some(180),
            keep_weekly_goal_snapshots_days: Some(365),
            keep_monthly_goal_snapshots_days: Some(365),
        },
        StatsRetentionPreset::Aggressive => StatsRetentionWindows {
            keep_daily_days: Some(365),
            keep_focus_sessions_days: Some(180),
            keep_session_interruptions_days: Some(90),
            keep_break_glass_overrides_days: Some(90),
            keep_weekly_goal_snapshots_days: Some(180),
            keep_monthly_goal_snapshots_days: Some(180),
        },
    }
}

impl StatsRetentionConfig {
    /// The retention windows of the preset.
    pub fn windows(self) -> (r: StatsRetentionWindows)
        ensures
            r == spec_retention_windows(self.preset),
    {
        match self.preset {
            StatsRetentionPreset::KeepAll => StatsRetentionWindows {
                keep_daily_days: None,
                keep_focus_sessions_days: None,
                keep_session_interruptions_days: None,
                keep_break_glass_overrides_days: None,
                keep_weekly_goal_snapshots_days: None,
                keep_monthly_goal_snapshots_days: None,
            },
            StatsRetentionPreset::Balanced => StatsRetentionWindows {
                keep_daily_days: None,
                keep_focus_sessions_days: Some(365),
                keep_session_interruptions_days: Some(180),
                keep_break_glass_overrides_days: Some(180),
                keep_weekly_goal_snapshots_days: Some(365),
                keep_monthly_goal_snapshots_days: Some(365),
            },
            StatsRetentionPreset::Aggressive => StatsRetentionWindows {
                keep_daily_days: Some(365),
                keep_focus_sessions_days: Some(180),
                keep_session_interruptions_days: Some(90),
                keep_break_glass_overrides_days: Some(90),
                keep_weekly_goal_snapshots_days: Some(180),
                keep_monthly_goal_snapshots_days: Some(180),
            },
        }
    }
}

/// Integrations switched on by name.
#[derive(Debug, Clone, PartialEq, Eq, Default)]
pub struct IntegrationFeatureFlagsConfig {
    pub enabled: Vec<String>,
}

/// Feature flags that gate compatibility-sensitive behavior.
#[derive(Debug, Clone, PartialEq, Eq, Default)]
pub struct FeatureFlagsConfig {
    pub integrations: IntegrationFeatureFlagsConfig,
}

/// Names trimmed and lower-cased, blank ones dropped, repeats removed (first kept).
pub open spec fn spec_normalized_names(names: Seq<Seq<char>>) -> Seq<Seq<char>>
    decreases names.len(),
{
    if names.len() == 0 {
        Seq::empty()
    } else {
        let prev = spec_normalized_names(names.drop_last());
        let k = lower(trim(names.last()));
        if k.len() == 0 || prev.contains(k) {
            prev
        } else {
            prev.push(k)
        }
    }
}

/// The normalized names are their own keys, none blank, none repeated.
proof fn lemma_normalized_names_shape(names: Seq<Seq<char>>)
    ensures
        ({
            let out = spec_normalized_names(names);
            &&& forall|i: int| 0 <= i < out.len() ==> lower(trim(#[trigger] out[i])) == out[i] && out[i].len() > 0
            &&& forall|i: int, j: int| 0 <= i < j < out.len() ==> #[trigger] out[i] != #[trigger] out[j]
        }),
    decreases names.len(),
{
    if names.len() > 0 {
        lemma_normalized_names_shape(names.drop_last());
        lemma_lower_trim_normal(names.last());
        let prev = spec_normalized_names(names.drop_last());
        let k = lower(trim(names.last()));
        if !(k.len() == 0 || prev.contains(k)) {
            let out = prev.push(k);
            assert forall|i: int| 0 <= i < out.len() implies lower(trim(#[trigger] out[i])) == out[i] && out[i].len() > 0 by {
                if i < prev.len() {
                    assert(out[i] == prev[i]);
                }
            }
            assert forall|i: int, j: int| 0 <= i < j < out.len() implies #[trigger] out[i] != #[trigger] out[j] by {
                if j < prev.len() {
                    assert(out[i] == prev[i] && out[j] == prev[j]);
                } else {
                    assert(out[j] == k);
                    assert(out[i] == prev[i]);
                    if prev[i] == k {
                        assert(prev.contains(k));
                    }
                }
            }
        }
    }
}

/// Each prefix of normalized names normalizes to itself.
proof fn lemma_normalized_prefix_fixed(out: Seq<Seq<char>>, k: int)
    requires
        0 <= k <= out.len(),
        forall|i: int| 0 <= i < out.len() ==> lower(trim(#[trigger] out[i])) == out[i] && out[i].len() > 0,
        forall|i: int, j: int| 0 <= i < j < out.len() ==> #[trigger] out[i] != #[trigger] out[j],
    ensures
        spec_normalized_names(out.subrange(0, k)) == out.subrange(0, k),
    decreases k,
{
    if k > 0 {
        lemma_normalized_prefix_fixed(out, k - 1);
        let next = out.subrange(0, k);
        let prev = out.subrange(0, k - 1);
        assert(next.drop_last() =~= prev);
        assert(next.last() == out[k - 1]);
        assert(lower(trim(out[k - 1])) == out[k - 1]);
        assert(!prev.contains(out[k - 1])) by {
            if prev.contains(out[k - 1]) {
                let i = choose|i: int| 0 <= i < k - 1 && prev[i] == out[k - 1];
                assert(out[i] == out[k - 1]);
            }
        }
        assert(prev.push(out[k - 1]) =~= next);
    } else {
        assert(out.subrange(0, 0) =~= Seq::<Seq<char>>::empty());
    }
}

/// Normalizing integration names twice is normalizing them once.
pub proof fn lemma_normalized_names_idempotent(names: Seq<Seq<char>>)
    ensures
        spec_normalized_names(spec_normalized_names(names)) == spec_normalized_names(names),
{
    let out = spec_normalized_names(names);
    lemma_normalized_names_shape(names);
    lemma_normalized_prefix_fixed(out, out.len() as int);
    assert(out.subrange(0, out.len() as int) =~= out);
}

impl IntegrationFeatureFlagsConfig {
    /// Integration names trimmed, lower-cased and without blanks or repeats.
    pub fn normalized(&self) -> (r: IntegrationFeatureFlagsConfig)
        ensures
            strings_view(r.enabled@) == spec_normalized_names(strings_view(self.enabled@)),
    {
        IntegrationFeatureFlagsConfig { enabled: normalized_names(&self.enabled) }
    }

    /// Whether an integration is enabled, comparing names trimmed and without regard to case.
    pub fn is_enabled(&self, integration: &str) -> (r: bool)
        ensures
            r == (exists|i: int| 0 <= i < self.enabled@.len() && lower(#[trigger] self.enabled@[i]@) == lower(lower(trim(integration@)))),
    {
        let wanted = trimmed_lower(integration);
        let mut i: usize = 0;
        while i < self.enabled.len()
            invariant
                i <= self.enabled.len(),
                wanted@ == lower(trim(integration@)),
                forall|k: int| 0 <= k < i ==> lower(self.enabled@[k]@) != lower(wanted@),
            decreases self.enabled.len() - i,
        {
            if eq_ignore_case(self.enabled[i].as_str(), wanted.as_str()) {
                return true;
            }
            i = i + 1;
        }
        false
    }
}

/// Integration names trimmed, lower-cased and without blanks or repeats.
pub fn normalized_names(names: &Vec<String>) -> (r: Vec<String>)
    ensures
        strings_view(r@) == spec_normalized_names(strings_view(names@)),
{
    let mut out: Vec<String> = Vec::new();
    let mut i: usize = 0;
    while i < names.len()
        invariant
            i <= names.len(),
            strings_view(out@) == spec_normalized_names(strings_view(names@).subrange(0, i as int)),
        decreases names.len() - i,
    {
        let key = trimmed_lower(names[i].as_str());
        assert(strings_view(names@).subrange(0, i + 1).drop_last() =~= strings_view(names@).subrange(
            0,
            i as int,
        ));
        if key.unicode_len() != 0 && !crate::config::contains_string(&out, key.as_str()) {
            out.push(key);
            assert(strings_view(out@) =~= spec_normalized_names(
                strings_view(names@).subrange(0, i as int),
            ).push(lower(trim(names@[i as int]@))));
        }
        i = i + 1;
    }
    assert(strings_view(names@).subrange(0, names.len() as int) =~= strings_view(names@));
    out
}

impl FeatureFlagsConfig {
    /// The integration flags normalized.
    pub fn normalized(&self) -> (r: FeatureFlagsConfig)
        ensures
            strings_view(r.integrations.enabled@) == spec_normalized_names(
                strings_view(self.integrations.enabled@),
            ),
    {
        FeatureFlagsConfig { integrations: self.integrations.normalized() }
    }
}

/// Per-profile automation: notifications, auto-start, strict mode and schedule.
#[derive(Debug, Clone, PartialEq, Eq)]
pub struct ProfileAutomationConfig {
    pub notifications: NotificationConfig,
    pub auto_start: AutoStartConfig,
    pub strict_mode: bool,
    pub recurring_schedule: RecurringScheduleConfig,
}

pub struct AutomationView {
    pub notifications: NotificationConfig,
    pub auto_start: AutoStartConfig,
    pub strict_mode: bool,
    pub schedule: Seq<WindowView>,
}

impl View for ProfileAutomationConfig {
    type V = AutomationView;

    open spec fn view(&self) -> AutomationView {
        AutomationView {
            notifications: self.notifications,
            auto_start: self.auto_start,
            strict_mode: self.strict_mode,
            schedule: self.recurring_schedule@,
        }
    }
}

pub open spec fn spec_normalized_automation(a: AutomationView) -> AutomationView {
    AutomationView {
        notifications: a.notifications,
        auto_start: a.auto_start,
        strict_mode: a.strict_mode,
        schedule: spec_normalized_windows(a.schedule),
    }
}

/// Notifications on without sound, no auto-start, no strict mode, no schedule.
pub open spec fn spec_default_automation() -> AutomationView {
    AutomationView {
        notifications: NotificationConfig { enabled: true, sound: false },
        auto_start: AutoStartConfig { focus_to_break: false, break_to_focus: false },
        strict_mode: false,
        schedule: Seq::empty(),
    }
}

impl ProfileAutomationConfig {
    /// The schedule normalized; the rest kept.
    pub fn normalized(&self) -> (r: ProfileAutomationConfig)
        ensures
            r@ == spec_normalized_automation(self@),
    {
        ProfileAutomationConfig {
            notifications: self.notifications,
            auto_start: self.auto_start,
            strict_mode: self.strict_mode,
            recurring_schedule: self.recurring_schedule.normalized(),
        }
    }

    /// Automation built from the legacy top-level settings, normalized.
    pub fn from_legacy(
        notifications: NotificationConfig,
        auto_start: AutoStartConfig,
        strict_mode: bool,
        recurring_schedule: RecurringScheduleConfig,
    ) -> (r: ProfileAutomationConfig)
        ensures
            r@ == spec_normalized_automation(
                AutomationView { notifications, auto_start, strict_mode, schedule: recurring_schedule@ },
            ),
    {
        ProfileAutomationConfig { notifications, auto_start, strict_mode, recurring_schedule }.normalized()
    }

    /// A copy.
    pub fn duplicate(&self) -> (r: ProfileAutomationConfig)
        ensures
            r@ == self@,
    {
        ProfileAutomationConfig {
            notifications: self.notifications,
            auto_start: self.auto_start,
            strict_mode: self.strict_mode,
            recurring_schedule: clone_schedule(&self.recurring_schedule),
        }
    }
}

impl Default for ProfileAutomationConfig {
    /// Notifications on without sound, no auto-start, no strict mode, no schedule.
    fn default() -> (r: ProfileAutomationConfig)
        ensures
            r@ == spec_default_automation(),
    {
        let r = ProfileAutomationConfig {
            notifications: NotificationConfig::default(),
            auto_start: AutoStartConfig { focus_to_break: false, break_to_focus: false },
            strict_mode: false,
            recurring_schedule: RecurringScheduleConfig { windows: Vec::new() },
        };
        assert(r.recurring_schedule@ =~= Seq::<WindowView>::empty());
        r
    }
}

/// Automation for each timer profile; a missing one falls back to shared settings.
#[derive(Debug, Clone, PartialEq, Eq, Default)]
pub struct ProfileAutomationSettingsConfig {
    pub basic: Option<ProfileAutomationConfig>,
    pub standard: Option<ProfileAutomationConfig>,
    pub advanced: Option<ProfileAutomationConfig>,
}

pub open spec fn opt_automation_view(o: Option<ProfileAutomationConfig>) -> Option<AutomationView> {
    match o {
        Some(a) => Some(a@),
        None => None,
    }
}

/// The slot of a timer profile: `basic` for Classic, `standard` for Deep Work,
/// `advanced` for Custom.
pub open spec fn spec_slot(s: ProfileAutomationSettingsConfig, profile: ProfileId) -> Option<AutomationView> {
    match profile {
        ProfileId::Classic => opt_automation_view(s.basic),
        ProfileId::DeepWork => opt_automation_view(s.standard),
        ProfileId::Custom => opt_automation_view(s.advanced),
    }
}

/// A profile's automation: its own slot, else the fallback, normalized.
pub open spec fn spec_for_profile(slot: Option<AutomationView>, fallback: AutomationView) -> AutomationView {
    spec_normalized_automation(
        match slot {
            Some(a) => a,
            None => fallback,
        },
    )
}

fn clone_opt_automation(o: &Option<ProfileAutomationConfig>) -> (r: Option<ProfileAutomationConfig>)
    ensures
        opt_automation_view(r) == opt_automation_view(*o),
{
    match o {
        Some(a) => Some(a.duplicate()),
        None => None,
    }
}

impl ProfileAutomationSettingsConfig {
    /// Every profile uses `shared`, normalized.
    pub fn with_shared_defaults(shared: ProfileAutomationConfig) -> (r: ProfileAutomationSettingsConfig)
        ensures
            opt_automation_view(r.basic) == Some(spec_normalized_automation(shared@)),
            opt_automation_view(r.standard) == Some(spec_normalized_automation(shared@)),
            opt_automation_view(r.advanced) == Some(spec_normalized_automation(shared@)),
    {
        let shared = shared.normalized();
        ProfileAutomationSettingsConfig {
            basic: Some(shared.duplicate()),
            standard: Some(shared.duplicate()),
            advanced: Some(shared),
        }
    }

    /// The automation of `profile`: its own slot, or `fallback`, normalized.
    pub fn for_profile(&self, profile: ProfileId, fallback: &ProfileAutomationConfig) -> (r: ProfileAutomationConfig)
        ensures
            r@ == spec_for_profile(spec_slot(*self, profile), fallback@),
    {
        let configured = match profile {
            ProfileId::Classic => clone_opt_automation(&self.basic),
            ProfileId::DeepWork => clone_opt_automation(&self.standard),
            ProfileId::Custom => clone_opt_automation(&self.advanced),
        };
        match configured {
            Some(a) => a.normalized(),
            None => fallback.normalized(),
        }
    }

    /// Every slot filled: its own automation or `fallback`, normalized.
    pub fn normalized_with_fallback(&self, fallback: &ProfileAutomationConfig) -> (r: ProfileAutomationSettingsConfig)
        ensures
            opt_automation_view(r.basic) == Some(spec_normalized_automation(spec_for_profile(spec_slot(*self, ProfileId::Classic), fallback@))),
            opt_automation_view(r.standard) == Some(spec_normalized_automation(spec_for_profile(spec_slot(*self, ProfileId::DeepWork), fallback@))),
            opt_automation_view(r.advanced) == Some(spec_normalized_automation(spec_for_profile(spec_slot(*self, ProfileId::Custom), fallback@))),
    {
        ProfileAutomationSettingsConfig {
            basic: Some(self.for_profile(ProfileId::Classic, fallback).normalized()),
            standard: Some(self.for_profile(ProfileId::DeepWork, fallback).normalized()),
            advanced: Some(self.for_profile(ProfileId::Custom, fallback).normalized()),
        }
    }

    /// Sets one profile's automation, normalized; the other slots are kept.
    pub fn set_for_profile(&mut self, profile: ProfileId, config: ProfileAutomationConfig)
        ensures
            spec_slot(*final(self), profile) == Some(spec_normalized_automation(config@)),
            forall|other: ProfileId| other != profile ==> spec_slot(*final(self), other) == spec_slot(*old(self), other),
    {
        let value = Some(config.normalized());
        match profile {
            ProfileId::Classic => self.basic = value,
            ProfileId::DeepWork => self.standard = value,
            ProfileId::Custom => self.advanced = value,
        }
    }
}

/// The persisted application configuration.
///
/// `focus_secs`, `short_break_secs`, `long_break_secs`, `blocked_sites`,
/// `notifications`, `auto_start`, `recurring_schedule`, `strict_mode` and
/// `history_dashboard` are legacy fields still read for compatibility.
#[derive(Debug, Clone, PartialEq, Eq)]
pub struct AppConfig {
    pub focus_secs: u64,
    pub short_break_secs: u64,
    pub long_break_secs: u64,
    pub long_break_interval: u32,
    pub blocked_sites: Vec<String>,
    pub blocklist_profiles: Vec<BlocklistProfileConfig>,
    pub selected_blocklist_profile: String,
    pub selected_profile: ProfileId,
    pub custom_profile: Option<CustomProfileConfig>,
    pub selected_theme_preset: ThemePreset,
    pub notifications: NotificationConfig,
    pub auto_start: AutoStartConfig,
    pub recurring_schedule: RecurringScheduleConfig,
    pub schedule_runtime: ScheduleRuntimeConfig,
    pub profile_automation: Option<ProfileAutomationSettingsConfig>,
    pub strict_mode: bool,
    pub daily_goal: DailyGoalConfig,
    pub weekly_goal: WeeklyGoalConfig,
    pub monthly_goal: MonthlyGoalConfig,
    pub goal_carry_over: GoalCarryOverConfig,
    pub stats_retention: StatsRetentionConfig,
    pub history_dashboard: HistoryDashboardConfig,
    pub feature_flags: FeatureFlagsConfig,
    pub shortcuts: ShortcutConfig,
}

/// The default configuration: the classic 25/5/15 rhythm, the `Default`
/// blocklist profile, no automation overrides and every other section at its default.
pub open spec fn spec_is_default_config(c: AppConfig) -> bool {
    &&& c.focus_secs == DEFAULT_FOCUS_SECS
    &&& c.short_break_secs == DEFAULT_SHORT_BREAK_SECS
    &&& c.long_break_secs == DEFAULT_LONG_BREAK_SECS
    &&& c.long_break_interval == DEFAULT_LONG_BREAK_INTERVAL
    &&& c.blocked_sites@.len() == 0
    &&& c.blocklist_profiles@.len() == 0
    &&& c.selected_blocklist_profile@ == default_profile_name()
    &&& c.selected_profile == ProfileId::Custom
    &&& c.custom_profile is None
    &&& c.selected_theme_preset == ThemePreset::Classic
    &&& c.notifications == (NotificationConfig { enabled: true, sound: false })
    &&& c.auto_start == (AutoStartConfig { focus_to_break: false, break_to_focus: false })
    &&& c.recurring_schedule@.len() == 0
    &&& c.schedule_runtime.time_step_minutes == 15
    &&& c.profile_automation is None
    &&& !c.strict_mode
    &&& c.daily_goal == (DailyGoalConfig { minutes: 0, pomodoros: 0 })
    &&& c.weekly_goal == (WeeklyGoalConfig { minutes: 0, pomodoros: 0 })
    &&& c.monthly_goal == (MonthlyGoalConfig { minutes: 0, pomodoros: 0 })
    &&& c.goal_carry_over == (GoalCarryOverConfig { daily: false, weekly: false, monthly: false })
    &&& c.stats_retention.preset == StatsRetentionPreset::Balanced
    &&& c.history_dashboard.card_order@ == spec_all_cards()
    &&& c.history_dashboard.pinned_cards@ == spec_all_cards()
    &&& c.feature_flags.integrations.enabled@.len() == 0
    &&& c.shortcuts@ == shortcut_defaults()
}

impl Default for AppConfig {
    fn default() -> (r: AppConfig)
        ensures
            spec_is_default_config(r),
    {
        AppConfig {
            focus_secs: DEFAULT_FOCUS_SECS,
            short_break_secs: DEFAULT_SHORT_BREAK_SECS,
            long_break_secs: DEFAULT_LONG_BREAK_SECS,
            long_break_interval: DEFAULT_LONG_BREAK_INTERVAL,
            blocked_sites: Vec::new(),
            blocklist_profiles: Vec::new(),
            selected_blocklist_profile: default_blocklist_profile_name(),
            selected_profile: ProfileId::Custom,
            custom_profile: None,
            selected_theme_preset: ThemePreset::Classic,
            notifications: NotificationConfig::default(),
            auto_start: AutoStartConfig { focus_to_break: false, break_to_focus: false },
            recurring_schedule: RecurringScheduleConfig { windows: Vec::new() },
            schedule_runtime: ScheduleRuntimeConfig::default(),
            profile_automation: None,
            strict_mode: false,
            daily_goal: DailyGoalConfig { minutes: 0, pomodoros: 0 },
            weekly_goal: WeeklyGoalConfig { minutes: 0, pomodoros: 0 },
            monthly_goal: MonthlyGoalConfig { minutes: 0, pomodoros: 0 },
            goal_carry_over: GoalCarryOverConfig { daily: false, weekly: false, monthly: false },
            stats_retention: StatsRetentionConfig { preset: StatsRetentionPreset::Balanced },
            history_dashboard: HistoryDashboardConfig::default(),
            feature_flags: FeatureFlagsConfig {
                integrations: IntegrationFeatureFlagsConfig { enabled: Vec::new() },
            },
            shortcuts: ShortcutConfig::default(),
        }
    }
}

/// The automation a profile slot starts from during normalization: its own
/// setting, or, when the configuration has none, the legacy top-level settings.
pub open spec fn spec_automation_source(c: AppConfig, profile: ProfileId) -> Option<AutomationView> {
    match c.profile_automation {
        Some(s) => spec_slot(s, profile),
        None => Some(spec_normalized_automation(spec_legacy_automation(c))),
    }
}

/// The legacy top-level automation fields, with the schedule normalized.
pub open spec fn spec_legacy_automation(c: AppConfig) -> AutomationView {
    spec_normalized_automation(
        AutomationView {
            notifications: c.notifications,
            auto_start: c.auto_start,
            strict_mode: c.strict_mode,
            schedule: spec_normalized_windows(c.recurring_schedule@),
        },
    )
}

/// What normalization gives each profile's automation slot.
pub open spec fn spec_normalized_slot(c: AppConfig, profile: ProfileId) -> Option<AutomationView> {
    Some(spec_normalized_automation(spec_for_profile(spec_automation_source(c, profile), spec_default_automation())))
}

pub open spec fn spec_opt_custom_profile(p: Option<CustomProfileConfig>) -> Option<CustomProfileConfig> {
    match p {
        Some(p) => Some(spec_normalized_custom_profile(p)),
        None => None,
    }
}

/// `r` is what normalizing `c` gives (`AppConfig::normalize`): each field
/// as that method's contract states it.
pub open spec fn spec_normalized_from(c: AppConfig, r: AppConfig) -> bool {
    &&& r.focus_secs == nonzero_or(c.focus_secs as int, DEFAULT_FOCUS_SECS as int)
    &&& r.short_break_secs == nonzero_or(c.short_break_secs as int, DEFAULT_SHORT_BREAK_SECS as int)
    &&& r.long_break_secs == nonzero_or(c.long_break_secs as int, DEFAULT_LONG_BREAK_SECS as int)
    &&& r.long_break_interval == nonzero_or(c.long_break_interval as int, DEFAULT_LONG_BREAK_INTERVAL as int)
    &&& strings_view(r.feature_flags.integrations.enabled@) == spec_normalized_names(
        strings_view(c.feature_flags.integrations.enabled@),
    )
    &&& r.custom_profile == spec_opt_custom_profile(c.custom_profile)
    &&& r.recurring_schedule@ == spec_normalized_windows(c.recurring_schedule@)
    &&& r.profile_automation is Some
    &&& forall|p: ProfileId| #[trigger] spec_slot(r.profile_automation.unwrap(), p) == spec_normalized_slot(c, p)
    &&& r.blocklist_profiles@.len() == 1
    &&& r.blocklist_profiles@[0]@.name == default_profile_name()
    &&& r.blocklist_profiles@[0]@.sites == spec_collapsed_sites(
        strings_view(c.blocked_sites@),
        profiles_view(c.blocklist_profiles@),
    )
    &&& r.blocklist_profiles@[0]@.allowlist_sites == spec_profiles_allowlist(profiles_view(c.blocklist_profiles@))
    &&& r.selected_blocklist_profile@ == default_profile_name()
    &&& r.schedule_runtime.time_step_minutes == crate::config::wakatime::clamp(
        c.schedule_runtime.time_step_minutes as int,
        1,
        60,
    )
    &&& r.history_dashboard.card_order@ == spec_all_cards()
    &&& r.history_dashboard.pinned_cards@ == spec_all_cards()
    &&& r.shortcuts@ == spec_normalize_shortcuts(c.shortcuts@)
    &&& r.blocked_sites == c.blocked_sites
    &&& r.selected_profile == c.selected_profile
    &&& r.selected_theme_preset == c.selected_theme_preset
    &&& r.notifications == c.notifications
    &&& r.auto_start == c.auto_start
    &&& r.strict_mode == c.strict_mode
    &&& r.daily_goal == c.daily_goal
    &&& r.weekly_goal == c.weekly_goal
    &&& r.monthly_goal == c.monthly_goal
    &&& r.goal_carry_over == c.goal_carry_over
    &&& r.stats_retention == c.stats_retention
}

/// Two configurations hold the same settings: every field agrees, strings
/// and lists of strings by their characters.
pub open spec fn spec_same_settings(a: AppConfig, b: AppConfig) -> bool {
    &&& a.focus_secs == b.focus_secs
    &&& a.short_break_secs == b.short_break_secs
    &&& a.long_break_secs == b.long_break_secs
    &&& a.long_break_interval == b.long_break_interval
    &&& strings_view(a.blocked_sites@) == strings_view(b.blocked_sites@)
    &&& profiles_view(a.blocklist_profiles@) == profiles_view(b.blocklist_profiles@)
    &&& a.selected_blocklist_profile@ == b.selected_blocklist_profile@
    &&& a.selected_profile == b.selected_profile
    &&& a.custom_profile == b.custom_profile
    &&& a.selected_theme_preset == b.selected_theme_preset
    &&& a.notifications == b.notifications
    &&& a.auto_start == b.auto_start
    &&& a.recurring_schedule@ == b.recurring_schedule@
    &&& a.schedule_runtime == b.schedule_runtime
    &&& (a.profile_automation is Some <==> b.profile_automation is Some)
    &&& (a.profile_automation is Some ==> forall|p: ProfileId| #[trigger] spec_slot(a.profile_automation.unwrap(), p)
        == spec_slot(b.profile_automation.unwrap(), p))
    &&& a.strict_mode == b.strict_mode
    &&& a.daily_goal == b.daily_goal
    &&& a.weekly_goal == b.weekly_goal
    &&& a.monthly_goal == b.monthly_goal
    &&& a.goal_carry_over == b.goal_carry_over
    &&& a.stats_retention == b.stats_retention
    &&& a.history_dashboard.card_order@ == b.history_dashboard.card_order@
    &&& a.history_dashboard.pinned_cards@ == b.history_dashboard.pinned_cards@
    &&& strings_view(a.feature_flags.integrations.enabled@) == strings_view(b.feature_flags.integrations.enabled@)
    &&& a.shortcuts@ == b.shortcuts@
}

/// Normalizing a normalized configuration changes none of its settings, so
/// a configuration that was loaded (and so normalized) is already in the form
/// loading it again would give.
#[verifier::rlimit(80)]
pub proof fn lemma_normalization_idempotent(c: AppConfig, n: AppConfig, m: AppConfig)
    requires
        spec_normalized_from(c, n),
        spec_normalized_from(n, m),
    ensures
        spec_same_settings(n, m),
{
    lemma_normalized_names_idempotent(strings_view(c.feature_flags.integrations.enabled@));
    crate::config::lemma_windows_normalization_idempotent(c.recurring_schedule@);
    crate::config::shortcuts::lemma_shortcuts_normalized_idempotent(c.shortcuts@);
    let legacy = strings_view(c.blocked_sites@);
    let profiles = profiles_view(c.blocklist_profiles@);
    crate::config::blocklists::lemma_collapse_idempotent(legacy, profiles);
    let one = seq![
        ProfileView {
            name: default_profile_name(),
            sites: spec_collapsed_sites(legacy, profiles),
            allowlist_sites: spec_profiles_allowlist(profiles),
        },
    ];
    assert(profiles_view(n.blocklist_profiles@) =~= one);
    assert(profiles_view(m.blocklist_profiles@) =~= one);
    assert forall|p: ProfileId| #[trigger] spec_slot(n.profile_automation.unwrap(), p) == spec_slot(
        m.profile_automation.unwrap(),
        p,
    ) by {
        let base = match spec_automation_source(c, p) {
            Some(a) => a,
            None => spec_default_automation(),
        };
        crate::config::lemma_windows_normalization_idempotent(base.schedule);
        assert(spec_slot(n.profile_automation.unwrap(), p) == spec_normalized_slot(c, p));
        assert(spec_slot(m.profile_automation.unwrap(), p) == spec_normalized_slot(n, p));
        assert(spec_automation_source(n, p) == spec_slot(n.profile_automation.unwrap(), p));
    }
}

impl AppConfig {
    /// Normalizes every section: zero lengths take their defaults, integration
    /// names are trimmed, schedules drop invalid windows, every profile gets
    /// its automation (from the legacy fields when none is configured), all
    /// blocklist profiles collapse into `Default`, and shortcuts take canonical form.
    pub fn normalize(self) -> (r: AppConfig)
        ensures
            spec_normalized_from(self, r),
    {
        let fallback = ProfileAutomationConfig::default();
        let recurring_schedule = self.recurring_schedule.normalized();
        let legacy_automation = ProfileAutomationConfig::from_legacy(
            self.notifications,
            self.auto_start,
            self.strict_mode,
            clone_schedule(&recurring_schedule),
        );
        let source = match &self.profile_automation {
            Some(settings) => ProfileAutomationSettingsConfig {
                basic: clone_opt_automation(&settings.basic),
                standard: clone_opt_automation(&settings.standard),
                advanced: clone_opt_automation(&settings.advanced),
            },
            None => ProfileAutomationSettingsConfig::with_shared_defaults(legacy_automation),
        };
        let profile_automation = source.normalized_with_fallback(&fallback);
        let blocklist_profiles = normalize_blocklist_profiles(&self.blocklist_profiles, &self.blocked_sites);
        let selected_blocklist_profile = normalize_selected_blocklist_profile(
            self.selected_blocklist_profile.as_str(),
            &blocklist_profiles,
        );
        let custom_profile = match self.custom_profile {
            Some(p) => Some(p.normalized()),
            None => None,
        };
        let r = AppConfig {
            focus_secs: nonzero_or_default_u64(self.focus_secs, DEFAULT_FOCUS_SECS),
            short_break_secs: nonzero_or_default_u64(self.short_break_secs, DEFAULT_SHORT_BREAK_SECS),
            long_break_secs: nonzero_or_default_u64(self.long_break_secs, DEFAULT_LONG_BREAK_SECS),
            long_break_interval: nonzero_or_default_u32(self.long_break_interval, DEFAULT_LONG_BREAK_INTERVAL),
            blocked_sites: self.blocked_sites,
            blocklist_profiles,
            selected_blocklist_profile,
            selected_profile: self.selected_profile,
            custom_profile,
            selected_theme_preset: self.selected_theme_preset,
            notifications: self.notifications,
            auto_start: self.auto_start,
            recurring_schedule,
            schedule_runtime: self.schedule_runtime.normalized(),
            profile_automation: Some(profile_automation),
            strict_mode: self.strict_mode,
            daily_goal: self.daily_goal,
            weekly_goal: self.weekly_goal,
            monthly_goal: self.monthly_goal,
            goal_carry_over: self.goal_carry_over,
            stats_retention: self.stats_retention,
            history_dashboard: self.history_dashboard.normalized(),
            feature_flags: self.feature_flags.normalized(),
            shortcuts: self.shortcuts.normalized(),
        };
        assert forall|p: ProfileId| #[trigger] spec_slot(r.profile_automation.unwrap(), p) == spec_normalized_slot(self, p) by {
            match p {
                ProfileId::Classic => {},
                ProfileId::DeepWork => {},
                ProfileId::Custom => {},
            }
        }
        r
    }

    /// The same as [`AppConfig::normalize`].
    pub fn normalized(self) -> (r: AppConfig)
        ensures
            spec_normalized_from(self, r),
    {
        self.normalize()
    }

    /// The custom profile, or one built from the legacy length fields, normalized.
    pub fn effective_custom_profile(&self) -> (r: CustomProfileConfig)
        ensures
            r == spec_normalized_custom_profile(
                match self.custom_profile {
                    Some(p) => p,
                    None => CustomProfileConfig {
                        focus_secs: self.focus_secs,
                        short_break_secs: self.short_break_secs,
                        long_break_secs: self.long_break_secs,
                        long_break_interval: self.long_break_interval,
                    },
                },
            ),
    {
        let profile = match self.custom_profile {
            Some(p) => p,
            None => CustomProfileConfig {
                focus_secs: self.focus_secs,
                short_break_secs: self.short_break_secs,
                long_break_secs: self.long_break_secs,
                long_break_interval: self.long_break_interval,
            },
        };
        profile.normalized()
    }

    /// The automation of `profile`: its configured slot or the defaults, normalized.
    pub fn profile_automation_for(&self, profile: ProfileId) -> (r: ProfileAutomationConfig)
        ensures
            r@ == (match self.profile_automation {
                Some(s) => spec_for_profile(spec_slot(s, profile), spec_default_automation()),
                None => spec_default_automation(),
            }),
    {
        let fallback = ProfileAutomationConfig::default();
        match &self.profile_automation {
            Some(settings) => settings.for_profile(profile, &fallback),
            None => fallback,
        }
    }

    /// Sets the automation of `profile`; every slot is then filled and normalized.
    pub fn set_profile_automation_for(&mut self, profile: ProfileId, automation: ProfileAutomationConfig)
        ensures
            final(self).profile_automation is Some,
            spec_slot(final(self).profile_automation.unwrap(), profile) == Some(
                spec_normalized_automation(spec_for_profile(Some(spec_normalized_automation(automation@)), spec_default_automation())),
            ),
            *final(self) == (AppConfig { profile_automation: final(self).profile_automation, ..*old(self) }),
    {
        let fallback = ProfileAutomationConfig::default();
        let current = match &self.profile_automation {
            Some(s) => ProfileAutomationSettingsConfig {
                basic: clone_opt_automation(&s.basic),
                standard: clone_opt_automation(&s.standard),
                advanced: clone_opt_automation(&s.advanced),
            },
            None => ProfileAutomationSettingsConfig::with_shared_defaults(fallback.duplicate()),
        };
        let mut settings = current.normalized_with_fallback(&fallback);
        settings.set_for_profile(profile, automation);
        self.profile_automation = Some(settings.normalized_with_fallback(&fallback));
    }
}

} // verus!
