//! The command-line grammar: argument tokens, the commands they select, and
//! the error contract of a rejected command line.
pub mod args;
pub mod data;
pub mod dispatch;
pub mod parsing;
pub mod payload;
pub mod render;
pub mod report;
pub mod settings_commands;
pub mod settings_output;
pub mod status;
pub mod values;

use crate::config::{
    clone_strings, strings_view, windows_view, DailyGoalConfig, ProfileId, RecurringFocusWindowConfig,
    RecurringScheduleConfig, ThemePreset, WindowView,
};
use crate::error::UserMessage;
use crate::text::owned;
use vstd::prelude::*;

verus! {

/// Usage summary printed by `--help` and appended to every usage error.
pub const USAGE_TEXT: &'static str = "Usage: focustime [COMMAND] [--json]

Without a command, focustime opens the interactive timer.

Timer commands:
  --start [--json]                  Start a focus session
  --pause [--json]                  Pause the running timer
  --resume [--json]                 Resume a paused timer
  --stop [--json]                   Stop and reset the timer
  --next [--json]                   Skip to the next phase
  --task LABEL [--json]             Select the active task label (also --task=LABEL)
  --status [--watch [SECONDS]] [--json]
                                    Show timer, goal and blocking status

Settings:
  --profile [NAME] [--json]         Show or set the timer profile (basic, standard, advanced)
  --theme [NAME] [--json]           Show or set the theme (classic, high-contrast, deuteranopia-friendly)
  --goal [MINUTES,POMODOROS] [--json]
                                    Show or set the daily goal
  --goal-carry [on|off] [--json]    Show or set daily goal carry-over
  --strict [on|off] [--json]        Show or set strict mode
  --schedule [--json]               Show the recurring focus schedule
  --schedule-set JSON [--json]      Replace the recurring focus schedule

Blocking:
  --blocklist-sites [--json]        List blocked hostnames
  --blocklist-site-add HOSTNAMES [--json]
  --blocklist-site-edit OLD=NEW [--json]
  --blocklist-site-delete HOSTNAME [--json]

Data:
  --history-dashboard [--json]      Show the history KPI dashboard
  --backup [DIR] [--json]           Write a portable backup
  --restore [DIR] [--json]          Restore a portable backup
  --export [DIR] [--json]           Export stats history
  --diagnostics [--json]            Setup checks, config health and migration guidance

  -h, --help                        Show this help";

/// Poll interval of `--status --watch` when no interval is given.
pub const DEFAULT_WATCH_INTERVAL_SECS: u64 = 5;

/// Process exit code of a runtime failure.
pub const EXIT_CODE_RUNTIME_ERROR: i32 = 1;

/// Process exit code of a rejected command line.
pub const EXIT_CODE_USAGE_ERROR: i32 = 2;

/// How command results are rendered.
#[derive(Debug, Clone, Copy, PartialEq, Eq, Structural)]
pub enum OutputMode {
    Text,
    Json,
}

/// An `OLD=NEW` hostname edit.
#[derive(Debug, Clone, PartialEq, Eq)]
pub struct SiteEditValue {
    pub previous: String,
    pub next: String,
}

/// Which site list a site command manages.
#[derive(Debug, Clone, Copy, PartialEq, Eq)]
pub enum SiteListTarget {
    Blocklist,
    Allowlist,
}

/// A site-list command.
#[derive(Debug, Clone, PartialEq, Eq)]
pub enum BlocklistSiteCommandKind {
    List,
    Add { input: String },
    Edit { value: SiteEditValue },
    Delete { site: String },
}

/// A history-dashboard command.
#[derive(Debug, Clone, Copy, PartialEq, Eq)]
pub enum HistoryDashboardCommandKind {
    Show,
}

/// A non-interactive command selected on the command line.
#[derive(Debug, Clone, PartialEq, Eq)]
pub enum CommandKind {
    Start,
    Pause,
    Resume,
    Stop,
    Next,
    Task { label: String },
    Profile { profile: Option<ProfileId> },
    Theme { preset: Option<ThemePreset> },
    Goal { goal: Option<DailyGoalConfig> },
    GoalCarry { enabled: Option<bool> },
    Strict { enabled: Option<bool> },
    Schedule { schedule: Option<RecurringScheduleConfig> },
    Diagnostics,
    Status { watch_interval_secs: Option<u64> },
    Backup { dir: Option<String> },
    Restore { dir: Option<String> },
    Export { dir: Option<String> },
    HistoryDashboard { command: HistoryDashboardCommandKind },
    BlocklistSites { target: SiteListTarget, command: BlocklistSiteCommandKind },
}

/// A command together with its output mode.
#[derive(Debug, Clone, PartialEq, Eq)]
pub struct CliCommand {
    pub kind: CommandKind,
    pub output: OutputMode,
}

/// What the process does after reading its arguments.
#[derive(Debug, Clone, PartialEq, Eq)]
pub enum CliAction {
    ShowHelp,
    RunTui,
    RunCommand(CliCommand),
}

/// One classified command-line argument.
#[derive(Debug, Clone, PartialEq, Eq)]
pub enum ParsedToken {
    Help,
    Json,
    Start,
    Pause,
    Resume,
    Stop,
    Next,
    Status,
    Task(String),
    Profile(Option<ProfileId>),
    Theme(Option<ThemePreset>),
    Goal(Option<DailyGoalConfig>),
    GoalCarry(Option<bool>),
    Strict(Option<bool>),
    Schedule,
    ScheduleSet(RecurringScheduleConfig),
    Watch(Option<u64>),
    Diagnostics,
    Backup(Option<String>),
    Restore(Option<String>),
    Export(Option<String>),
    HistoryDashboard,
    BlocklistSites,
    BlocklistSiteAdd(String),
    BlocklistSiteEdit(SiteEditValue),
    BlocklistSiteDelete(String),
    UnknownOption(String),
    Positional(String),
}

/// Kind of a command-line failure.
#[derive(Debug, Clone, Copy, PartialEq, Eq)]
pub enum CliErrorKind {
    Usage,
    Runtime,
}

/// A command-line failure as it is reported to the user.
#[derive(Debug, Clone, PartialEq, Eq)]
pub struct CliError {
    pub kind: CliErrorKind,
    pub output: OutputMode,
    pub code: String,
    pub message: String,
    pub hint: Option<String>,
}

/// A site command with its strings as character sequences.
pub enum SiteCommandView {
    List,
    Add(Seq<char>),
    Edit(Seq<char>, Seq<char>),
    Delete(Seq<char>),
}

/// A command with its strings as character sequences.
pub enum CommandView {
    Start,
    Pause,
    Resume,
    Stop,
    Next,
    Task(Seq<char>),
    Profile(Option<ProfileId>),
    Theme(Option<ThemePreset>),
    Goal(Option<DailyGoalConfig>),
    GoalCarry(Option<bool>),
    Strict(Option<bool>),
    Schedule(Option<Seq<WindowView>>),
    Diagnostics,
    Status(Option<u64>),
    Backup(Option<Seq<char>>),
    Restore(Option<Seq<char>>),
    Export(Option<Seq<char>>),
    HistoryDashboard(HistoryDashboardCommandKind),
    Sites(SiteListTarget, SiteCommandView),
}

/// A process action with its strings as character sequences.
pub enum ActionView {
    ShowHelp,
    RunTui,
    RunCommand(CommandView, OutputMode),
}

/// A classified argument with its strings as character sequences.
pub enum TokenView {
    Help,
    Json,
    Start,
    Pause,
    Resume,
    Stop,
    Next,
    Status,
    Task(Seq<char>),
    Profile(Option<ProfileId>),
    Theme(Option<ThemePreset>),
    Goal(Option<DailyGoalConfig>),
    GoalCarry(Option<bool>),
    Strict(Option<bool>),
    Schedule,
    ScheduleSet(Seq<WindowView>),
    Watch(Option<u64>),
    Diagnostics,
    Backup(Option<Seq<char>>),
    Restore(Option<Seq<char>>),
    Export(Option<Seq<char>>),
    HistoryDashboard,
    BlocklistSites,
    BlocklistSiteAdd(Seq<char>),
    BlocklistSiteEdit(Seq<char>, Seq<char>),
    BlocklistSiteDelete(Seq<char>),
    UnknownOption(Seq<char>),
    Positional(Seq<char>),
}

pub open spec fn opt_str_view(o: Option<String>) -> Option<Seq<char>> {
    match o {
        Some(s) => Some(s@),
        None => None,
    }
}

pub open spec fn opt_schedule_view(o: Option<RecurringScheduleConfig>) -> Option<Seq<WindowView>> {
    match o {
        Some(s) => Some(s@),
        None => None,
    }
}

impl View for BlocklistSiteCommandKind {
    type V = SiteCommandView;

    open spec fn view(&self) -> SiteCommandView {
        match self {
            BlocklistSiteCommandKind::List => SiteCommandView::List,
            BlocklistSiteCommandKind::Add { input } => SiteCommandView::Add(input@),
            BlocklistSiteCommandKind::Edit { value } => SiteCommandView::Edit(
                value.previous@,
                value.next@,
            ),
            BlocklistSiteCommandKind::Delete { site } => SiteCommandView::Delete(site@),
        }
    }
}

impl View for CommandKind {
    type V = CommandView;

    open spec fn view(&self) -> CommandView {
        match self {
            CommandKind::Start => CommandView::Start,
            CommandKind::Pause => CommandView::Pause,
            CommandKind::Resume => CommandView::Resume,
            CommandKind::Stop => CommandView::Stop,
            CommandKind::Next => CommandView::Next,
            CommandKind::Task { label } => CommandView::Task(label@),
            CommandKind::Profile { profile } => CommandView::Profile(*profile),
            CommandKind::Theme { preset } => CommandView::Theme(*preset),
            CommandKind::Goal { goal } => CommandView::Goal(*goal),
            CommandKind::GoalCarry { enabled } => CommandView::GoalCarry(*enabled),
            CommandKind::Strict { enabled } => CommandView::Strict(*enabled),
            CommandKind::Schedule { schedule } => CommandView::Schedule(
                opt_schedule_view(*schedule),
            ),
            CommandKind::Diagnostics => CommandView::Diagnostics,
            CommandKind::Status { watch_interval_secs } => CommandView::Status(
                *watch_interval_secs,
            ),
            CommandKind::Backup { dir } => CommandView::Backup(opt_str_view(*dir)),
            CommandKind::Restore { dir } => CommandView::Restore(opt_str_view(*dir)),
            CommandKind::Export { dir } => CommandView::Export(opt_str_view(*dir)),
            CommandKind::HistoryDashboard { command } => CommandView::HistoryDashboard(*command),
            CommandKind::BlocklistSites { target, command } => CommandView::Sites(
                *target,
                command@,
            ),
        }
    }
}

impl View for CliAction {
    type V = ActionView;

    open spec fn view(&self) -> ActionView {
        match self {
            CliAction::ShowHelp => ActionView::ShowHelp,
            CliAction::RunTui => ActionView::RunTui,
            CliAction::RunCommand(command) => ActionView::RunCommand(
                command.kind@,
                command.output,
            ),
        }
    }
}

impl View for ParsedToken {
    type V = TokenView;

    open spec fn view(&self) -> TokenView {
        match self {
            ParsedToken::Help => TokenView::Help,
            ParsedToken::Json => TokenView::Json,
            ParsedToken::Start => TokenView::Start,
            ParsedToken::Pause => TokenView::Pause,
            ParsedToken::Resume => TokenView::Resume,
            ParsedToken::Stop => TokenView::Stop,
            ParsedToken::Next => TokenView::Next,
            ParsedToken::Status => TokenView::Status,
            ParsedToken::Task(label) => TokenView::Task(label@),
            ParsedToken::Profile(p) => TokenView::Profile(*p),
            ParsedToken::Theme(t) => TokenView::Theme(*t),
            ParsedToken::Goal(g) => TokenView::Goal(*g),
            ParsedToken::GoalCarry(e) => TokenView::GoalCarry(*e),
            ParsedToken::Strict(e) => TokenView::Strict(*e),
            ParsedToken::Schedule => TokenView::Schedule,
            ParsedToken::ScheduleSet(s) => TokenView::ScheduleSet(s@),
            ParsedToken::Watch(w) => TokenView::Watch(*w),
            ParsedToken::Diagnostics => TokenView::Diagnostics,
            ParsedToken::Backup(d) => TokenView::Backup(opt_str_view(*d)),
            ParsedToken::Restore(d) => TokenView::Restore(opt_str_view(*d)),
            ParsedToken::Export(d) => TokenView::Export(opt_str_view(*d)),
            ParsedToken::HistoryDashboard => TokenView::HistoryDashboard,
            ParsedToken::BlocklistSites => TokenView::BlocklistSites,
            ParsedToken::BlocklistSiteAdd(s) => TokenView::BlocklistSiteAdd(s@),
            ParsedToken::BlocklistSiteEdit(v) => TokenView::BlocklistSiteEdit(
                v.previous@,
                v.next@,
            ),
            ParsedToken::BlocklistSiteDelete(s) => TokenView::BlocklistSiteDelete(s@),
            ParsedToken::UnknownOption(s) => TokenView::UnknownOption(s@),
            ParsedToken::Positional(s) => TokenView::Positional(s@),
        }
    }
}

pub open spec fn opt_token_view(o: Option<ParsedToken>) -> Option<TokenView> {
    match o {
        Some(t) => Some(t@),
        None => None,
    }
}

pub open spec fn tokens_view(ts: Seq<ParsedToken>) -> Seq<TokenView> {
    ts.map_values(|t: ParsedToken| t@)
}


/// A copy of a recurring schedule.
pub fn clone_schedule(s: &RecurringScheduleConfig) -> (r: RecurringScheduleConfig)
    ensures
        r@ == s@,
{
    let mut windows: Vec<RecurringFocusWindowConfig> = Vec::new();
    let mut i: usize = 0;
    while i < s.windows.len()
        invariant
            i <= s.windows.len(),
            windows_view(windows@) == windows_view(s.windows@).subrange(0, i as int),
        decreases s.windows.len() - i,
    {
        let w = &s.windows[i];
        let copy = RecurringFocusWindowConfig {
            days: clone_strings(&w.days),
            start: w.start.clone(),
            end: w.end.clone(),
        };
        let ghost before = windows@;
        assert(copy@ == w@);
        windows.push(copy);
        assert(windows@ == before.push(copy));
        assert(windows_view(windows@) =~= windows_view(before).push(copy@));
        assert(windows_view(s.windows@).subrange(0, i + 1) =~= windows_view(s.windows@).subrange(0, i as int).push(copy@));
        i = i + 1;
    }
    assert(windows_view(s.windows@).subrange(0, s.windows.len() as int) =~= windows_view(
        s.windows@,
    ));
    RecurringScheduleConfig { windows }
}

impl CliError {
    /// Exit code of this failure: usage errors and runtime errors differ.
    pub fn exit_code(&self) -> (r: i32)
        ensures
            r == (match self.kind {
                CliErrorKind::Usage => EXIT_CODE_USAGE_ERROR,
                CliErrorKind::Runtime => EXIT_CODE_RUNTIME_ERROR,
            }),
    {
        match self.kind {
            CliErrorKind::Usage => EXIT_CODE_USAGE_ERROR,
            CliErrorKind::Runtime => EXIT_CODE_RUNTIME_ERROR,
        }
    }
}

/// The usage summary.
pub fn usage_text() -> (r: String)
    ensures
        r@ == USAGE_TEXT@,
{
    owned(USAGE_TEXT)
}

/// A runtime failure of a command, keeping the message's code and hint.
pub fn runtime_error(output: OutputMode, error: UserMessage) -> (r: CliError)
    ensures
        r.kind == CliErrorKind::Runtime,
        r.output == output,
        r.code@ == error.code@,
        r.message == error.message,
        r.hint == error.hint,
{
    CliError {
        kind: CliErrorKind::Runtime,
        output,
        code: owned(error.code),
        message: error.message,
        hint: error.hint,
    }
}

} // verus!
