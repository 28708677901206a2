//! Configuration values and their normalization rules.
pub mod blocklists;
pub mod diagnostics;
pub mod health;
pub mod migration;
pub mod migration_lemmas;
pub mod paths;
pub mod settings;
pub mod shortcuts;
pub mod toml_tree;
pub mod wakatime;

use crate::text::{
    all_digits, digits_value, first_index, lemma_lower_trim_normal, lemma_trim_idempotent, lower, owned, parse_unsigned, parse_unsigned_str, split_once, split_once_char, str_eq, trim,
    trim_str, trimmed_lower,
};
use vstd::prelude::*;

pub use self::blocklists::BlocklistProfileConfig;
pub use self::settings::{
    AppConfig, BlockingBackendConfig, BlockingBackendPolicyConfig, CommandBlockingBackendConfig,
    CustomProfileConfig, FeatureFlagsConfig, IntegrationFeatureFlagsConfig,
    ProfileAutomationConfig, ProfileAutomationSettingsConfig, StatsRetentionConfig,
    StatsRetentionPreset, StatsRetentionWindows,
};
pub use self::shortcuts::ShortcutConfig;
pub use self::wakatime::{WakatimeMetadataConfig, WakatimeRuntimeConfig};

verus! {

pub const CURRENT_CONFIG_SCHEMA_VERSION: u32 = 2;

pub const SCHEDULE_TIME_STEP_MIN_MINUTES: u16 = 1;

pub const SCHEDULE_TIME_STEP_MAX_MINUTES: u16 = 60;

/// Default focus length in seconds.
pub const DEFAULT_FOCUS_SECS: u64 = 1500;

/// Default short-break length in seconds.
pub const DEFAULT_SHORT_BREAK_SECS: u64 = 300;

/// Default long-break length in seconds.
pub const DEFAULT_LONG_BREAK_SECS: u64 = 900;

/// Default number of focus sessions before a long break.
pub const DEFAULT_LONG_BREAK_INTERVAL: u32 = 4;

/// Default break-glass override length in seconds.
pub const DEFAULT_BREAK_GLASS_DURATION_SECS: u64 = 300;

/// Timer profile presets.
#[derive(Debug, Clone, Copy, PartialEq, Eq, Structural, Default)]
pub enum ProfileId {
    Classic,
    DeepWork,
    #[default]
    Custom,
}

/// UI theme presets.
#[derive(Debug, Clone, Copy, PartialEq, Eq, Structural, Default)]
pub enum ThemePreset {
    #[default]
    Classic,
    HighContrast,
    DeuteranopiaFriendly,
}

/// The canonical profile token of a configured profile name, if it names one.
pub open spec fn spec_profile_token(value: Seq<char>) -> Option<Seq<char>> {
    let key = lower(trim(value));
    if key == "basic"@ || key == "classic"@ {
        Some("basic"@)
    } else if key == "standard"@ || key == "deep-work"@ || key == "deep_work"@ || key
        == "deepwork"@ {
        Some("standard"@)
    } else if key == "advanced"@ || key == "custom"@ {
        Some("advanced"@)
    } else {
        None
    }
}

/// A canonical profile token is its own token.
pub proof fn lemma_profile_token_canonical(raw: Seq<char>)
    ensures
        spec_profile_token(raw) matches Some(m) ==> spec_profile_token(m) == Some(m),
{
    reveal_strlit("basic");
    reveal_strlit("standard");
    reveal_strlit("advanced");
    reveal_strlit("classic");
    reveal_strlit("deep-work");
    reveal_strlit("deep_work");
    reveal_strlit("deepwork");
    reveal_strlit("custom");
    crate::text::lemma_lower_trim_lowercase("basic"@);
    crate::text::lemma_lower_trim_lowercase("standard"@);
    crate::text::lemma_lower_trim_lowercase("advanced"@);
}

pub open spec fn spec_profile_for_token(token: Seq<char>) -> ProfileId {
    if token == "basic"@ {
        ProfileId::Classic
    } else if token == "standard"@ {
        ProfileId::DeepWork
    } else {
        ProfileId::Custom
    }
}

/// A configured profile name read leniently: unknown names select `Custom`.
pub open spec fn spec_profile_from_config(value: Seq<char>) -> ProfileId {
    match spec_profile_token(value) {
        Some(token) => spec_profile_for_token(token),
        None => ProfileId::Custom,
    }
}

/// The theme that a configured theme name selects; unknown names select `Classic`.
pub open spec fn spec_theme_from_config(value: Seq<char>) -> ThemePreset {
    match spec_theme_token(value) {
        Some(theme) => theme,
        None => ThemePreset::Classic,
    }
}

/// The theme that a name spells, if any.
pub open spec fn spec_theme_token(value: Seq<char>) -> Option<ThemePreset> {
    let key = lower(trim(value));
    if key == "classic"@ {
        Some(ThemePreset::Classic)
    } else if key == "high-contrast"@ || key == "high_contrast"@ || key == "highcontrast"@ {
        Some(ThemePreset::HighContrast)
    } else if key == "deuteranopia-friendly"@ || key == "deuteranopia_friendly"@ || key
        == "deuteranopiafriendly"@ || key == "colorblind-friendly"@ || key
        == "colorblind_friendly"@ || key == "colorblindfriendly"@ {
        Some(ThemePreset::DeuteranopiaFriendly)
    } else {
        None
    }
}

/// Canonical token of a profile name (`basic`, `standard`, `advanced`).
pub fn canonical_profile_id_token(value: &str) -> (r: Option<&'static str>)
    ensures
        r is Some == spec_profile_token(value@) is Some,
        r matches Some(t) ==> spec_profile_token(value@) == Some(t@),
{
    let key = trimmed_lower(value);
    let k = key.as_str();
    if str_eq(k, "basic") || str_eq(k, "classic") {
        Some("basic")
    } else if str_eq(k, "standard") || str_eq(k, "deep-work") || str_eq(k, "deep_work") || str_eq(
        k,
        "deepwork",
    ) {
        Some("standard")
    } else if str_eq(k, "advanced") || str_eq(k, "custom") {
        Some("advanced")
    } else {
        None
    }
}

/// Profile of a canonical token; anything else maps to `Custom`.
pub fn profile_id_for_token(token: &str) -> (r: ProfileId)
    ensures
        r == spec_profile_for_token(token@),
{
    if str_eq(token, "basic") {
        ProfileId::Classic
    } else if str_eq(token, "standard") {
        ProfileId::DeepWork
    } else {
        ProfileId::Custom
    }
}

impl ProfileId {
    /// Reads a configured profile name; unknown names fall back to `Custom`.
    pub fn from_config_value(value: &str) -> (r: ProfileId)
        ensures
            r == spec_profile_from_config(value@),
    {
        match canonical_profile_id_token(value) {
            Some(token) => profile_id_for_token(token),
            None => ProfileId::Custom,
        }
    }

    /// Display label of the profile.
    pub fn label(self) -> (r: &'static str)
        ensures
            r@ == (match self {
                ProfileId::Classic => "Basic"@,
                ProfileId::DeepWork => "Standard"@,
                ProfileId::Custom => "Advanced"@,
            }),
    {
        match self {
            ProfileId::Classic => "Basic",
            ProfileId::DeepWork => "Standard",
            ProfileId::Custom => "Advanced",
        }
    }
}

impl ThemePreset {
    /// Reads a configured theme name; unknown names fall back to `Classic`.
    pub fn from_config_value(value: &str) -> (r: ThemePreset)
        ensures
            r == spec_theme_from_config(value@),
    {
        match theme_token(value) {
            Some(theme) => theme,
            None => ThemePreset::Classic,
        }
    }

    pub open spec fn spec_id(self) -> Seq<char> {
        match self {
            ThemePreset::Classic => "classic"@,
            ThemePreset::HighContrast => "high-contrast"@,
            ThemePreset::DeuteranopiaFriendly => "deuteranopia-friendly"@,
        }
    }

    /// Stable identifier of the theme.
    pub fn id(self) -> (r: &'static str)
        ensures
            r@ == self.spec_id(),
    {
        match self {
            ThemePreset::Classic => "classic",
            ThemePreset::HighContrast => "high-contrast",
            ThemePreset::DeuteranopiaFriendly => "deuteranopia-friendly",
        }
    }

    /// Display label of the theme.
    pub fn label(self) -> (r: &'static str)
        ensures
            r@ == (match self {
                ThemePreset::Classic => "Classic"@,
                ThemePreset::HighContrast => "High Contrast"@,
                ThemePreset::DeuteranopiaFriendly => "Deuteranopia Friendly"@,
            }),
    {
        match self {
            ThemePreset::Classic => "Classic",
            ThemePreset::HighContrast => "High Contrast",
            ThemePreset::DeuteranopiaFriendly => "Deuteranopia Friendly",
        }
    }

    pub open spec fn spec_next(self) -> ThemePreset {
        match self {
            ThemePreset::Classic => ThemePreset::HighContrast,
            ThemePreset::HighContrast => ThemePreset::DeuteranopiaFriendly,
            ThemePreset::DeuteranopiaFriendly => ThemePreset::Classic,
        }
    }

    pub open spec fn spec_previous(self) -> ThemePreset {
        match self {
            ThemePreset::Classic => ThemePreset::DeuteranopiaFriendly,
            ThemePreset::HighContrast => ThemePreset::Classic,
            ThemePreset::DeuteranopiaFriendly => ThemePreset::HighContrast,
        }
    }

    /// The theme after this one in the cycle.
    pub fn next(self) -> (r: ThemePreset)
        ensures
            r == self.spec_next(),
    {
        match self {
            ThemePreset::Classic => ThemePreset::HighContrast,
            ThemePreset::HighContrast => ThemePreset::DeuteranopiaFriendly,
            ThemePreset::DeuteranopiaFriendly => ThemePreset::Classic,
        }
    }

    /// The theme before this one in the cycle.
    pub fn previous(self) -> (r: ThemePreset)
        ensures
            r == self.spec_previous(),
    {
        match self {
            ThemePreset::Classic => ThemePreset::DeuteranopiaFriendly,
            ThemePreset::HighContrast => ThemePreset::Classic,
            ThemePreset::DeuteranopiaFriendly => ThemePreset::HighContrast,
        }
    }
}

/// Stepping to the next theme and back returns the starting theme, and so
/// does stepping back and then forward.
pub proof fn lemma_theme_cycle_round_trip(theme: ThemePreset)
    ensures
        theme.spec_next().spec_previous() == theme,
        theme.spec_previous().spec_next() == theme,
        theme.spec_next().spec_next().spec_next() == theme,
{
}

/// The theme a name spells, if any.
pub fn theme_token(value: &str) -> (r: Option<ThemePreset>)
    ensures
        r == spec_theme_token(value@),
{
    let key = trimmed_lower(value);
    let k = key.as_str();
    if str_eq(k, "classic") {
        Some(ThemePreset::Classic)
    } else if str_eq(k, "high-contrast") || str_eq(k, "high_contrast") || str_eq(k, "highcontrast") {
        Some(ThemePreset::HighContrast)
    } else if str_eq(k, "deuteranopia-friendly") || str_eq(k, "deuteranopia_friendly") || str_eq(
        k,
        "deuteranopiafriendly",
    ) || str_eq(k, "colorblind-friendly") || str_eq(k, "colorblind_friendly") || str_eq(
        k,
        "colorblindfriendly",
    ) {
        Some(ThemePreset::DeuteranopiaFriendly)
    } else {
        None
    }
}

/// The KPI cards of the history dashboard.
#[derive(Debug, Clone, Copy, PartialEq, Eq, Structural, PartialOrd, Ord)]
pub enum HistoryKpiCardId {
    SessionSummary,
    FocusScore,
    GoalStreak,
    FocusRisk,
    WeeklyAllocation,
    LastInterruption,
    StatsGrowth,
    Retention,
    ComparisonFilters,
    Unknown,
}

/// The card a configured card name selects; unknown names give `Unknown`.
pub open spec fn spec_card_from_config(value: Seq<char>) -> HistoryKpiCardId {
    let k = lower(trim(value));
    if k == "session_summary"@ || k == "session-summary"@ || k == "sessionsummary"@ {
        HistoryKpiCardId::SessionSummary
    } else if k == "focus_score"@ || k == "focus-score"@ || k == "focusscore"@ {
        HistoryKpiCardId::FocusScore
    } else if k == "goal_streak"@ || k == "goal-streak"@ || k == "goalstreak"@ {
        HistoryKpiCardId::GoalStreak
    } else if k == "focus_risk"@ || k == "focus-risk"@ || k == "focusrisk"@ {
        HistoryKpiCardId::FocusRisk
    } else if k == "weekly_allocation"@ || k == "weekly-allocation"@ || k == "weeklyallocation"@ {
        HistoryKpiCardId::WeeklyAllocation
    } else if k == "last_interruption"@ || k == "last-interruption"@ || k == "lastinterruption"@ {
        HistoryKpiCardId::LastInterruption
    } else if k == "stats_growth"@ || k == "stats-growth"@ || k == "statsgrowth"@ {
        HistoryKpiCardId::StatsGrowth
    } else if k == "retention"@ {
        HistoryKpiCardId::Retention
    } else if k == "comparison_filters"@ || k == "comparison-filters"@ || k
        == "comparisonfilters"@ {
        HistoryKpiCardId::ComparisonFilters
    } else {
        HistoryKpiCardId::Unknown
    }
}

/// The nine supported cards in their default order.
pub open spec fn spec_all_cards() -> Seq<HistoryKpiCardId> {
    seq![
        HistoryKpiCardId::SessionSummary,
        HistoryKpiCardId::FocusScore,
        HistoryKpiCardId::GoalStreak,
        HistoryKpiCardId::FocusRisk,
        HistoryKpiCardId::WeeklyAllocation,
        HistoryKpiCardId::LastInterruption,
        HistoryKpiCardId::StatsGrowth,
        HistoryKpiCardId::Retention,
        HistoryKpiCardId::ComparisonFilters,
    ]
}

impl HistoryKpiCardId {
    pub open spec fn spec_id(self) -> Seq<char> {
        match self {
            HistoryKpiCardId::SessionSummary => "session_summary"@,
            HistoryKpiCardId::FocusScore => "focus_score"@,
            HistoryKpiCardId::GoalStreak => "goal_streak"@,
            HistoryKpiCardId::FocusRisk => "focus_risk"@,
            HistoryKpiCardId::WeeklyAllocation => "weekly_allocation"@,
            HistoryKpiCardId::LastInterruption => "last_interruption"@,
            HistoryKpiCardId::StatsGrowth => "stats_growth"@,
            HistoryKpiCardId::Retention => "retention"@,
            HistoryKpiCardId::ComparisonFilters => "comparison_filters"@,
            HistoryKpiCardId::Unknown => "unknown"@,
        }
    }

    /// Stable identifier of the card.
    pub fn id(self) -> (r: &'static str)
        ensures
            r@ == self.spec_id(),
    {
        match self {
            HistoryKpiCardId::SessionSummary => "session_summary",
            HistoryKpiCardId::FocusScore => "focus_score",
            HistoryKpiCardId::GoalStreak => "goal_streak",
            HistoryKpiCardId::FocusRisk => "focus_risk",
            HistoryKpiCardId::WeeklyAllocation => "weekly_allocation",
            HistoryKpiCardId::LastInterruption => "last_interruption",
            HistoryKpiCardId::StatsGrowth => "stats_growth",
            HistoryKpiCardId::Retention => "retention",
            HistoryKpiCardId::ComparisonFilters => "comparison_filters",
            HistoryKpiCardId::Unknown => "unknown",
        }
    }

    /// Display label of the card.
    pub fn label(self) -> (r: &'static str)
        ensures
            r@ == (match self {
                HistoryKpiCardId::SessionSummary => "Session Summary"@,
                HistoryKpiCardId::FocusScore => "Focus Score"@,
                HistoryKpiCardId::GoalStreak => "Goal Streak"@,
                HistoryKpiCardId::FocusRisk => "Focus Risk"@,
                HistoryKpiCardId::WeeklyAllocation => "Weekly Allocation"@,
                HistoryKpiCardId::LastInterruption => "Last Interruption"@,
                HistoryKpiCardId::StatsGrowth => "Stats Growth"@,
                HistoryKpiCardId::Retention => "Retention"@,
                HistoryKpiCardId::ComparisonFilters => "Comparison Filters"@,
                HistoryKpiCardId::Unknown => "Unknown"@,
            }),
    {
        match self {
            HistoryKpiCardId::SessionSummary => "Session Summary",
            HistoryKpiCardId::FocusScore => "Focus Score",
            HistoryKpiCardId::GoalStreak => "Goal Streak",
            HistoryKpiCardId::FocusRisk => "Focus Risk",
            HistoryKpiCardId::WeeklyAllocation => "Weekly Allocation",
            HistoryKpiCardId::LastInterruption => "Last Interruption",
            HistoryKpiCardId::StatsGrowth => "Stats Growth",
            HistoryKpiCardId::Retention => "Retention",
            HistoryKpiCardId::ComparisonFilters => "Comparison Filters",
            HistoryKpiCardId::Unknown => "Unknown",
        }
    }

    /// The cards the dashboard shows, in their default order.
    pub fn supported_dashboard_cards() -> (r: Vec<HistoryKpiCardId>)
        ensures
            r@ == spec_all_cards(),
    {
        HistoryKpiCardId::all()
    }

    /// The nine supported cards in their default order.
    pub fn all() -> (r: Vec<HistoryKpiCardId>)
        ensures
            r@ == spec_all_cards(),
    {
        let r = vec![
            HistoryKpiCardId::SessionSummary,
            HistoryKpiCardId::FocusScore,
            HistoryKpiCardId::GoalStreak,
            HistoryKpiCardId::FocusRisk,
            HistoryKpiCardId::WeeklyAllocation,
            HistoryKpiCardId::LastInterruption,
            HistoryKpiCardId::StatsGrowth,
            HistoryKpiCardId::Retention,
            HistoryKpiCardId::ComparisonFilters,
        ];
        assert(r@ =~= spec_all_cards());
        r
    }

    /// Reads a configured card name; unknown names give `Unknown`.
    pub fn from_config_value(value: &str) -> (r: HistoryKpiCardId)
        ensures
            r == spec_card_from_config(value@),
    {
        let key = trimmed_lower(value);
        let k = key.as_str();
        if str_eq(k, "session_summary") || str_eq(k, "session-summary") || str_eq(
            k,
            "sessionsummary",
        ) {
            HistoryKpiCardId::SessionSummary
        } else if str_eq(k, "focus_score") || str_eq(k, "focus-score") || str_eq(k, "focusscore") {
            HistoryKpiCardId::FocusScore
        } else if str_eq(k, "goal_streak") || str_eq(k, "goal-streak") || str_eq(k, "goalstreak") {
            HistoryKpiCardId::GoalStreak
        } else if str_eq(k, "focus_risk") || str_eq(k, "focus-risk") || str_eq(k, "focusrisk") {
            HistoryKpiCardId::FocusRisk
        } else if str_eq(k, "weekly_allocation") || str_eq(k, "weekly-allocation") || str_eq(
            k,
            "weeklyallocation",
        ) {
            HistoryKpiCardId::WeeklyAllocation
        } else if str_eq(k, "last_interruption") || str_eq(k, "last-interruption") || str_eq(
            k,
            "lastinterruption",
        ) {
            HistoryKpiCardId::LastInterruption
        } else if str_eq(k, "stats_growth") || str_eq(k, "stats-growth") || str_eq(
            k,
            "statsgrowth",
        ) {
            HistoryKpiCardId::StatsGrowth
        } else if str_eq(k, "retention") {
            HistoryKpiCardId::Retention
        } else if str_eq(k, "comparison_filters") || str_eq(k, "comparison-filters") || str_eq(
            k,
            "comparisonfilters",
        ) {
            HistoryKpiCardId::ComparisonFilters
        } else {
            HistoryKpiCardId::Unknown
        }
    }
}

/// Deprecated dashboard customization; only the default layout is used.
#[derive(Debug, Clone, PartialEq, Eq)]
pub struct HistoryDashboardConfig {
    pub card_order: Vec<HistoryKpiCardId>,
    pub pinned_cards: Vec<HistoryKpiCardId>,
}

impl Default for HistoryDashboardConfig {
    /// All cards in default order, all pinned.
    fn default() -> (r: HistoryDashboardConfig)
        ensures
            r.card_order@ == spec_all_cards(),
            r.pinned_cards@ == spec_all_cards(),
    {
        HistoryDashboardConfig { card_order: HistoryKpiCardId::all(), pinned_cards: HistoryKpiCardId::all() }
    }
}

impl HistoryDashboardConfig {
    /// Customizations are ignored: the result is always the default layout.
    pub fn normalized(&self) -> (r: HistoryDashboardConfig)
        ensures
            r.card_order@ == spec_all_cards(),
            r.pinned_cards@ == spec_all_cards(),
    {
        HistoryDashboardConfig::default()
    }
}

/// Daily goal: focused minutes and completed pomodoros; `0` disables a target.
#[derive(Debug, Clone, Copy, PartialEq, Eq, Default)]
pub struct DailyGoalConfig {
    pub minutes: u64,
    pub pomodoros: u32,
}

/// Weekly goal: focused minutes and completed pomodoros; `0` disables a target.
#[derive(Debug, Clone, Copy, PartialEq, Eq, Default)]
pub struct WeeklyGoalConfig {
    pub minutes: u64,
    pub pomodoros: u32,
}

/// Monthly goal: focused minutes and completed pomodoros; `0` disables a target.
#[derive(Debug, Clone, Copy, PartialEq, Eq, Default)]
pub struct MonthlyGoalConfig {
    pub minutes: u64,
    pub pomodoros: u32,
}

/// Carry-over of unmet targets into the next period.
#[derive(Debug, Clone, Copy, PartialEq, Eq, Default)]
pub struct GoalCarryOverConfig {
    pub daily: bool,
    pub weekly: bool,
    pub monthly: bool,
}

/// Desktop notification settings.
#[derive(Debug, Clone, Copy, PartialEq, Eq)]
pub struct NotificationConfig {
    pub enabled: bool,
    pub sound: bool,
}

impl Default for NotificationConfig {
    /// Notifications on, sound off.
    fn default() -> (r: NotificationConfig)
        ensures
            r.enabled && !r.sound,
    {
        NotificationConfig { enabled: true, sound: false }
    }
}

/// Automatic phase transitions.
#[derive(Debug, Clone, Copy, PartialEq, Eq, Default)]
pub struct AutoStartConfig {
    pub focus_to_break: bool,
    pub break_to_focus: bool,
}

/// One recurring focus window: weekdays and an `HH:MM` start and end.
#[derive(Debug, Clone, PartialEq, Eq)]
pub struct RecurringFocusWindowConfig {
    pub days: Vec<String>,
    pub start: String,
    pub end: String,
}

/// A recurring focus window as sequences of characters.
pub struct WindowView {
    pub days: Seq<Seq<char>>,
    pub start: Seq<char>,
    pub end: Seq<char>,
}

pub open spec fn strings_view(v: Seq<String>) -> Seq<Seq<char>> {
    v.map_values(|s: String| s@)
}

impl View for RecurringFocusWindowConfig {
    type V = WindowView;

    open spec fn view(&self) -> WindowView {
        WindowView { days: strings_view(self.days@), start: self.start@, end: self.end@ }
    }
}

/// The recurring schedule: a list of focus windows.
#[derive(Debug, Clone, PartialEq, Eq, Default)]
pub struct RecurringScheduleConfig {
    pub windows: Vec<RecurringFocusWindowConfig>,
}

pub open spec fn windows_view(v: Seq<RecurringFocusWindowConfig>) -> Seq<WindowView> {
    v.map_values(|w: RecurringFocusWindowConfig| w@)
}

impl View for RecurringScheduleConfig {
    type V = Seq<WindowView>;

    open spec fn view(&self) -> Seq<WindowView> {
        windows_view(self.windows@)
    }
}

/// Minutes after midnight of an `HH:MM` time with `HH <= 23` and `MM <= 59`.
///
/// Both halves must be exactly two characters; a half that parses as a
/// number holds only ASCII, so counting characters agrees with counting bytes.
pub open spec fn spec_time_minutes(value: Seq<char>) -> Option<int> {
    match split_once(value, ':') {
        Some((h, m)) => {
            if h.len() == 2 && m.len() == 2 {
                match (parse_unsigned(h, 65535), parse_unsigned(m, 65535)) {
                    (Some(hour), Some(minute)) => {
                        if hour <= 23 && minute <= 59 {
                            Some(hour * 60 + minute)
                        } else {
                            None
                        }
                    },
                    _ => None,
                }
            } else {
                None
            }
        },
        None => None,
    }
}

/// Minutes after midnight of an `HH:MM` time.
pub fn parse_schedule_time_minutes(value: &str) -> (r: Option<u16>)
    ensures
        r matches Some(m) ==> spec_time_minutes(value@) == Some(m as int),
        r is None ==> spec_time_minutes(value@) is None,
        r matches Some(m) ==> m < 1440,
{
    let (hours, minutes) = match split_once_char(value, ':') {
        Some(pair) => pair,
        None => return None,
    };
    if hours.unicode_len() != 2 || minutes.unicode_len() != 2 {
        return None;
    }
    let hour = match parse_unsigned_str(hours, 65535) {
        Some(v) => v,
        None => return None,
    };
    let minute = match parse_unsigned_str(minutes, 65535) {
        Some(v) => v,
        None => return None,
    };
    if hour > 23 || minute > 59 {
        return None;
    }
    Some((hour * 60 + minute) as u16)
}

pub open spec fn default_window_days() -> Seq<Seq<char>> {
    seq!["mon"@, "tue"@, "wed"@, "thu"@, "fri"@]
}

/// Monday to Friday.
pub fn default_schedule_window_days() -> (r: Vec<String>)
    ensures
        strings_view(r@) == default_window_days(),
{
    let mut r: Vec<String> = Vec::new();
    r.push(owned("mon"));
    r.push(owned("tue"));
    r.push(owned("wed"));
    r.push(owned("thu"));
    r.push(owned("fri"));
    assert(strings_view(r@) =~= default_window_days());
    r
}

/// Default window start, `09:00`.
pub fn default_schedule_window_start() -> (r: String)
    ensures
        r@ == "09:00"@,
{
    owned("09:00")
}

/// Default window end, `10:00`.
pub fn default_schedule_window_end() -> (r: String)
    ensures
        r@ == "10:00"@,
{
    owned("10:00")
}

/// Whether `key` occurs among `seen`.
pub fn contains_string(seen: &Vec<String>, key: &str) -> (r: bool)
    ensures
        r == strings_view(seen@).contains(key@),
{
    let mut i: usize = 0;
    while i < seen.len()
        invariant
            i <= seen.len(),
            forall|k: int| 0 <= k < i ==> seen@[k]@ != key@,
        decreases seen.len() - i,
    {
        if str_eq(seen[i].as_str(), key) {
            assert(strings_view(seen@)[i as int] == key@);
            return true;
        }
        i = i + 1;
    }
    assert forall|k: int| 0 <= k < strings_view(seen@).len() implies strings_view(seen@)[k]
        != key@ by {
        assert(seen@[k]@ != key@);
    }
    false
}

/// Weekday tokens trimmed, lower-cased, blank ones dropped and repeats removed
/// (first occurrence kept); Monday to Friday when nothing is left.
pub open spec fn spec_normalized_days(days: Seq<Seq<char>>) -> Seq<Seq<char>> {
    let kept = unique_keys(days.map_values(|d: Seq<char>| lower(trim(d))));
    if kept.len() == 0 {
        default_window_days()
    } else {
        kept
    }
}

/// Keys in order, each non-empty key kept at its first occurrence only.
pub open spec fn unique_keys(keys: Seq<Seq<char>>) -> Seq<Seq<char>>
    decreases keys.len(),
{
    if keys.len() == 0 {
        Seq::empty()
    } else {
        let prev = unique_keys(keys.drop_last());
        let k = keys.last();
        if k.len() == 0 || prev.contains(k) {
            prev
        } else {
            prev.push(k)
        }
    }
}

/// Normalizes a window's weekday tokens.
pub fn normalize_schedule_days(days: &Vec<String>) -> (r: Vec<String>)
    ensures
        strings_view(r@) == spec_normalized_days(strings_view(days@)),
{
    let ghost keys = strings_view(days@).map_values(|d: Seq<char>| lower(trim(d)));
    let mut normalized: Vec<String> = Vec::new();
    let mut i: usize = 0;
    while i < days.len()
        invariant
            i <= days.len(),
            keys == strings_view(days@).map_values(|d: Seq<char>| lower(trim(d))),
            strings_view(normalized@) == unique_keys(keys.subrange(0, i as int)),
        decreases days.len() - i,
    {
        let token = trimmed_lower(days[i].as_str());
        assert(keys.subrange(0, i + 1).drop_last() =~= keys.subrange(0, i as int));
        assert(keys[i as int] == token@);
        if token.unicode_len() != 0 && !contains_string(&normalized, token.as_str()) {
            normalized.push(token);
            assert(strings_view(normalized@) =~= unique_keys(keys.subrange(0, i as int)).push(
                keys[i as int],
            ));
        }
        i = i + 1;
    }
    assert(keys.subrange(0, days.len() as int) =~= keys);
    if normalized.len() == 0 {
        return default_schedule_window_days();
    }
    normalized
}

/// `value` trimmed when it is a valid `HH:MM` time, the default otherwise.
pub open spec fn spec_time_or_default(value: Seq<char>, default: Seq<char>) -> Seq<char> {
    if spec_time_minutes(trim(value)) is Some {
        trim(value)
    } else {
        default
    }
}

/// The normalized form of a recurring window.
pub open spec fn spec_normalized_window(w: WindowView) -> WindowView {
    WindowView {
        days: spec_normalized_days(w.days),
        start: spec_time_or_default(w.start, "09:00"@),
        end: spec_time_or_default(w.end, "10:00"@),
    }
}

impl RecurringFocusWindowConfig {
    /// Days normalized, and each time kept when valid or reset to its default.
    pub fn normalized(&self) -> (r: RecurringFocusWindowConfig)
        ensures
            r@ == spec_normalized_window(self@),
    {
        let days = normalize_schedule_days(&self.days);
        let start_candidate = trim_str(self.start.as_str());
        let start = if parse_schedule_time_minutes(start_candidate).is_some() {
            owned(start_candidate)
        } else {
            default_schedule_window_start()
        };
        let end_candidate = trim_str(self.end.as_str());
        let end = if parse_schedule_time_minutes(end_candidate).is_some() {
            owned(end_candidate)
        } else {
            default_schedule_window_end()
        };
        RecurringFocusWindowConfig { days, start, end }
    }

}

impl Default for RecurringFocusWindowConfig {
    /// Monday to Friday, `09:00` to `10:00`.
    fn default() -> (r: RecurringFocusWindowConfig)
        ensures
            r@.days == default_window_days(),
            r@.start == "09:00"@,
            r@.end == "10:00"@,
    {
        RecurringFocusWindowConfig {
            days: default_schedule_window_days(),
            start: default_schedule_window_start(),
            end: default_schedule_window_end(),
        }
    }
}

/// Whether a window's start comes strictly before its end.
pub open spec fn spec_window_is_ordered(w: WindowView) -> bool {
    match (spec_time_minutes(w.start), spec_time_minutes(w.end)) {
        (Some(s), Some(e)) => s < e,
        _ => false,
    }
}

/// Normalized windows, keeping those whose start precedes their end.
pub open spec fn spec_normalized_windows(ws: Seq<WindowView>) -> Seq<WindowView>
    decreases ws.len(),
{
    if ws.len() == 0 {
        Seq::empty()
    } else {
        let prev = spec_normalized_windows(ws.drop_last());
        let w = spec_normalized_window(ws.last());
        if spec_window_is_ordered(w) {
            prev.push(w)
        } else {
            prev
        }
    }
}

impl RecurringScheduleConfig {
    /// Normalizes every window and drops those whose start is not before their end.
    pub fn normalized(&self) -> (r: RecurringScheduleConfig)
        ensures
            r@ == spec_normalized_windows(self@),
    {
        let mut windows: Vec<RecurringFocusWindowConfig> = Vec::new();
        let mut i: usize = 0;
        while i < self.windows.len()
            invariant
                i <= self.windows.len(),
                windows_view(windows@) == spec_normalized_windows(
                    windows_view(self.windows@).subrange(0, i as int),
                ),
            decreases self.windows.len() - i,
        {
            let w = self.windows[i].normalized();
            let ghost all = windows_view(self.windows@);
            assert(all.subrange(0, i + 1).drop_last() =~= all.subrange(0, i as int));
            assert(all.subrange(0, i + 1).last() == self.windows@[i as int]@);
            let start = parse_schedule_time_minutes(w.start.as_str());
            let end = parse_schedule_time_minutes(w.end.as_str());
            let keep = match (start, end) {
                (Some(s), Some(e)) => s < e,
                _ => false,
            };
            if keep {
                windows.push(w);
                assert(windows_view(windows@) =~= spec_normalized_windows(
                    all.subrange(0, i as int),
                ).push(w@));
            }
            i = i + 1;
        }
        assert(windows_view(self.windows@).subrange(0, self.windows.len() as int)
            =~= windows_view(self.windows@));
        RecurringScheduleConfig { windows }
    }
}

/// Schedule editing step in minutes.
#[derive(Debug, Clone, Copy, PartialEq, Eq)]
pub struct ScheduleRuntimeConfig {
    pub time_step_minutes: u16,
}

impl Default for ScheduleRuntimeConfig {
    /// A fifteen-minute step.
    fn default() -> (r: ScheduleRuntimeConfig)
        ensures
            r.time_step_minutes == 15,
    {
        ScheduleRuntimeConfig { time_step_minutes: 15 }
    }
}

impl ScheduleRuntimeConfig {

    /// The step clamped into `1..=60` minutes.
    pub fn normalized(&self) -> (r: ScheduleRuntimeConfig)
        ensures
            r.time_step_minutes == (if self.time_step_minutes < 1 {
                1
            } else if self.time_step_minutes > 60 {
                60
            } else {
                self.time_step_minutes
            }),
    {
        let step = if self.time_step_minutes < SCHEDULE_TIME_STEP_MIN_MINUTES {
            SCHEDULE_TIME_STEP_MIN_MINUTES
        } else if self.time_step_minutes > SCHEDULE_TIME_STEP_MAX_MINUTES {
            SCHEDULE_TIME_STEP_MAX_MINUTES
        } else {
            self.time_step_minutes
        };
        ScheduleRuntimeConfig { time_step_minutes: step }
    }
}

/// Keys kept by `unique_keys`: non-empty, distinct, each one of the given keys.
proof fn lemma_unique_keys_props(keys: Seq<Seq<char>>)
    ensures
        forall|i: int| 0 <= i < unique_keys(keys).len() ==> (#[trigger] unique_keys(keys)[i]).len() > 0,
        forall|i: int, j: int|
            0 <= i < j < unique_keys(keys).len() ==> #[trigger] unique_keys(keys)[i] != #[trigger] unique_keys(keys)[j],
        forall|i: int| 0 <= i < unique_keys(keys).len() ==> keys.contains(#[trigger] unique_keys(keys)[i]),
    decreases keys.len(),
{
    if keys.len() > 0 {
        let p = keys.drop_last();
        lemma_unique_keys_props(p);
        let u = unique_keys(keys);
        let up = unique_keys(p);
        assert forall|i: int| 0 <= i < u.len() implies keys.contains(#[trigger] u[i]) by {
            if i < up.len() {
                assert(u[i] == up[i]);
                let k = choose|k: int| 0 <= k < p.len() && p[k] == up[i];
                assert(keys[k] == p[k]);
            } else {
                assert(keys[keys.len() - 1] == keys.last());
            }
        }
        assert forall|i: int, j: int| 0 <= i < j < u.len() implies #[trigger] u[i] != #[trigger] u[j] by {
            if j == up.len() {
                assert(u[i] == up[i]);
                assert(up.contains(up[i]));
            } else {
                assert(u[i] == up[i] && u[j] == up[j]);
            }
        }
        assert forall|i: int| 0 <= i < u.len() implies (#[trigger] u[i]).len() > 0 by {
            if i < up.len() {
                assert(u[i] == up[i]);
            }
        }
    }
}

/// Distinct non-empty keys are kept as they are.
proof fn lemma_unique_keys_identity(s: Seq<Seq<char>>)
    requires
        forall|i: int| 0 <= i < s.len() ==> (#[trigger] s[i]).len() > 0,
        forall|i: int, j: int| 0 <= i < j < s.len() ==> #[trigger] s[i] != #[trigger] s[j],
    ensures
        unique_keys(s) == s,
    decreases s.len(),
{
    if s.len() > 0 {
        let p = s.drop_last();
        assert forall|i: int, j: int| 0 <= i < j < p.len() implies #[trigger] p[i] != #[trigger] p[j] by {
            assert(p[i] == s[i] && p[j] == s[j]);
        }
        assert forall|i: int| 0 <= i < p.len() implies (#[trigger] p[i]).len() > 0 by {
            assert(p[i] == s[i]);
        }
        lemma_unique_keys_identity(p);
        if p.contains(s.last()) {
            let k = choose|k: int| 0 <= k < p.len() && p[k] == s.last();
            assert(s[k] == p[k]);
            assert(s[s.len() - 1] == s.last());
        }
        assert(s.len() > 0 ==> s[s.len() - 1].len() > 0);
        assert(p.push(s.last()) =~= s);
    }
}

/// Normalizing weekday tokens twice is normalizing them once.
pub proof fn lemma_normalized_days_idempotent(days: Seq<Seq<char>>)
    ensures
        spec_normalized_days(spec_normalized_days(days)) == spec_normalized_days(days),
{
    let n = spec_normalized_days(days);
    let key = |d: Seq<char>| lower(trim(d));
    let keys = days.map_values(key);
    lemma_unique_keys_props(keys);
    let kept = unique_keys(keys);
    if kept.len() == 0 {
        reveal_strlit("mon");
        reveal_strlit("tue");
        reveal_strlit("wed");
        reveal_strlit("thu");
        reveal_strlit("fri");
    }
    assert forall|i: int| 0 <= i < n.len() implies #[trigger] key(n[i]) == n[i] by {
        if kept.len() == 0 {
            lemma_lower_trim_normal(n[i]);
            assert(n[i].len() == 3);
            assert(trim(n[i]) =~= n[i]) by {
                assert(!crate::text::is_space(n[i][0]));
                assert(!crate::text::is_space(n[i][2]));
                assert(crate::text::trim_start(n[i]) == n[i]);
                assert(crate::text::trim_end(n[i]) == n[i]);
            }
            assert(lower(n[i]) =~= n[i]);
        } else {
            assert(keys.contains(n[i]));
            let k = choose|k: int| 0 <= k < keys.len() && keys[k] == n[i];
            lemma_lower_trim_normal(days[k]);
        }
    }
    assert(n.map_values(key) =~= n);
    assert(forall|i: int| 0 <= i < n.len() ==> (#[trigger] n[i]).len() > 0) by {
        if kept.len() == 0 {
            reveal_strlit("mon");
            reveal_strlit("tue");
            reveal_strlit("wed");
            reveal_strlit("thu");
            reveal_strlit("fri");
        }
    }
    assert(forall|i: int, j: int| 0 <= i < j < n.len() ==> #[trigger] n[i] != #[trigger] n[j]) by {
        if kept.len() == 0 {
            reveal_strlit("mon");
            reveal_strlit("tue");
            reveal_strlit("wed");
            reveal_strlit("thu");
            reveal_strlit("fri");
            assert forall|i: int, j: int| 0 <= i < j < n.len() implies #[trigger] n[i] != #[trigger] n[j] by {
                assert(n[i][0] != n[j][0] || n[i][1] != n[j][1]);
            }
        }
    }
    lemma_unique_keys_identity(n);
}

/// `09:00` and `10:00` are valid times.
proof fn lemma_default_times_valid()
    ensures
        spec_time_minutes("09:00"@) == Some(540int),
        spec_time_minutes("10:00"@) == Some(600int),
        trim("09:00"@) == "09:00"@,
        trim("10:00"@) == "10:00"@,
{
    reveal_strlit("09:00");
    reveal_strlit("10:00");
    let a = "09:00"@;
    let b = "10:00"@;
    assert(a[2] == ':' && a[0] != ':' && a[1] != ':');
    assert(first_index(a, ':') == Some(2int));
    assert(a.subrange(0, 2) =~= seq!['0', '9']);
    assert(a.subrange(3, 5) =~= seq!['0', '0']);
    assert(b[2] == ':' && b[0] != ':' && b[1] != ':');
    assert(first_index(b, ':') == Some(2int));
    assert(b.subrange(0, 2) =~= seq!['1', '0']);
    assert(b.subrange(3, 5) =~= seq!['0', '0']);
    assert(seq!['0', '9'].drop_last() =~= seq!['0']);
    assert(seq!['0', '0'].drop_last() =~= seq!['0']);
    assert(seq!['1', '0'].drop_last() =~= seq!['1']);
    assert(seq!['0'].drop_last() =~= Seq::<char>::empty());
    assert(seq!['1'].drop_last() =~= Seq::<char>::empty());
    assert(digits_value(Seq::<char>::empty()) == 0);
    assert(digits_value(seq!['0']) == 0);
    assert(digits_value(seq!['1']) == 1);
    assert(seq!['0', '9'].last() == '9');
    assert(seq!['1', '0'].last() == '0');
    assert(('9' as u32) - ('0' as u32) == 9);
    assert(digits_value(seq!['0', '9']) == 9);
    assert(digits_value(seq!['0', '0']) == 0);
    assert(digits_value(seq!['1', '0']) == 10);
    assert(all_digits(seq!['0', '9']));
    assert(all_digits(seq!['0', '0']));
    assert(all_digits(seq!['1', '0']));
    assert(parse_unsigned(seq!['0', '9'], 65535) == Some(9int));
    assert(parse_unsigned(seq!['0', '0'], 65535) == Some(0int));
    assert(parse_unsigned(seq!['1', '0'], 65535) == Some(10int));
    assert(crate::text::trim_start(a) == a);
    assert(crate::text::trim_end(a) == a);
    assert(crate::text::trim_start(b) == b);
    assert(crate::text::trim_end(b) == b);
}

/// A time kept or defaulted once is kept the second time.
proof fn lemma_time_or_default_idempotent(v: Seq<char>, default: Seq<char>)
    requires
        spec_time_minutes(default) is Some,
        trim(default) == default,
    ensures
        spec_time_or_default(spec_time_or_default(v, default), default) == spec_time_or_default(v, default),
{
    lemma_trim_idempotent(v);
}

/// Normalizing a window twice is normalizing it once.
proof fn lemma_window_normalization_idempotent(w: WindowView)
    ensures
        spec_normalized_window(spec_normalized_window(w)) == spec_normalized_window(w),
{
    lemma_default_times_valid();
    lemma_normalized_days_idempotent(w.days);
    lemma_time_or_default_idempotent(w.start, "09:00"@);
    lemma_time_or_default_idempotent(w.end, "10:00"@);
}

/// Normalizing a schedule twice gives what normalizing it once gives: the
/// kept windows are normalized already and stay ordered.
pub proof fn lemma_windows_normalization_idempotent(ws: Seq<WindowView>)
    ensures
        spec_normalized_windows(spec_normalized_windows(ws)) == spec_normalized_windows(ws),
    decreases ws.len(),
{
    if ws.len() > 0 {
        let p = ws.drop_last();
        lemma_windows_normalization_idempotent(p);
        let w = spec_normalized_window(ws.last());
        lemma_window_normalization_idempotent(ws.last());
        if spec_window_is_ordered(w) {
            let once = spec_normalized_windows(p).push(w);
            assert(once.drop_last() =~= spec_normalized_windows(p));
            assert(once.last() == w);
        }
    }
}

/// Normalizing a schedule step twice gives what normalizing once gives.
pub proof fn lemma_schedule_step_normalization_idempotent(step: u16)
    ensures
        ({
            let once = if step < 1 {
                1
            } else if step > 60 {
                60
            } else {
                step
            };
            let twice = if once < 1 {
                1
            } else if once > 60 {
                60
            } else {
                once
            };
            once == twice && 1 <= once <= 60
        }),
{
}

/// Returns `value` unless it is zero, in which case `default` is returned.
pub fn nonzero_or_default_u64(value: u64, default: u64) -> (r: u64)
    ensures
        r == (if value == 0 {
            default
        } else {
            value
        }),
{
    if value == 0 {
        default
    } else {
        value
    }
}

/// Returns `value` unless it is zero, in which case `default` is returned.
pub fn nonzero_or_default_u32(value: u32, default: u32) -> (r: u32)
    ensures
        r == (if value == 0 {
            default
        } else {
            value
        }),
{
    if value == 0 {
        default
    } else {
        value
    }
}

/// `value` trimmed, or `default` when nothing is left.
pub open spec fn spec_nonempty_or_default(value: Seq<char>, default: Seq<char>) -> Seq<char> {
    if trim(value).len() == 0 {
        default
    } else {
        trim(value)
    }
}

/// `value` trimmed, or `default` when nothing is left.
pub fn normalize_nonempty_or_default_string(value: &str, default: &str) -> (r: String)
    ensures
        r@ == spec_nonempty_or_default(value@, default@),
{
    let trimmed = trim_str(value);
    if trimmed.unicode_len() == 0 {
        owned(default)
    } else {
        owned(trimmed)
    }
}

/// A copy of a list of strings.
pub fn clone_strings(v: &Vec<String>) -> (r: Vec<String>)
    ensures
        strings_view(r@) == strings_view(v@),
{
    let mut r: Vec<String> = Vec::new();
    let mut i: usize = 0;
    while i < v.len()
        invariant
            i <= v.len(),
            strings_view(r@) == strings_view(v@).subrange(0, i as int),
        decreases v.len() - i,
    {
        let ghost before = r@;
        let item: String = v[i].clone();
        assert(item@ == v@[i as int]@);
        r.push(item);
        assert(r@ == before.push(item));
        assert(strings_view(r@) =~= strings_view(before).push(item@));
        assert(strings_view(v@).subrange(0, i + 1) =~= strings_view(v@).subrange(0, i as int).push(item@));
        i = i + 1;
    }
    assert(strings_view(v@).subrange(0, v.len() as int) =~= strings_view(v@));
    r
}

} // verus!
