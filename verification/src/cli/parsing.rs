//! From classified tokens to the action the process takes.
use crate::cli::args::{classify_args, spec_classify_args, tokens_result_view};
use crate::cli::values::{invalid_usage, spec_invalid_usage};
use crate::cli::{
    clone_schedule, opt_schedule_view, opt_str_view, tokens_view, ActionView,
    BlocklistSiteCommandKind, CliAction, CliCommand, CliError, CliErrorKind, CommandKind,
    CommandView, HistoryDashboardCommandKind, OutputMode, ParsedToken, SiteCommandView,
    SiteEditValue, SiteListTarget, TokenView, DEFAULT_WATCH_INTERVAL_SECS,
};
use crate::config::strings_view;
use crate::text::{concat, concat3, owned, split_once, split_once_char, str_eq};
use vstd::prelude::*;

verus! {

/// Guidance for an option that was removed: what happened and what to use instead.
#[derive(Clone, Copy, Debug, PartialEq, Eq)]
pub struct RemovedOptionGuidance {
    pub summary: &'static str,
    pub replacement: &'static str,
}

/// The option name of an argument: the part before the first `=`.
pub open spec fn flag_of(option: Seq<char>) -> Seq<char> {
    match split_once(option, '=') {
        Some((flag, _)) => flag,
        None => option,
    }
}

pub open spec fn daily_goal_replacement() -> Seq<char> {
    "Use `--goal` for the daily goal; task labels remain available through `--task`."@
}

pub open spec fn allowlist_replacement() -> Seq<char> {
    "Manage blocked hostnames with `--blocklist-sites`, `--blocklist-site-add`, `--blocklist-site-edit`, and `--blocklist-site-delete`; keep exceptions in `allowlist_sites` config when needed."@
}

/// Summary and replacement advice for a removed option flag, if it is one.
pub open spec fn spec_guidance_for_flag(f: Seq<char>) -> Option<(Seq<char>, Seq<char>)> {
    if f == "--migrate"@ || f == "--dry-run"@ {
        Some(("This migration-window flag was removed."@, "Use `--config-migrate` to preview config migrations or `--config-migrate-apply` to write migrated config with a backup."@))
    } else if f == "--automation-triggers"@ || f == "--automation-triggers-set"@ {
        Some(("Standalone automation trigger commands were removed."@, "Use `--schedule`/`--schedule-set` for schedule-driven focus starts and `--task`/`--profile` for session defaults."@))
    } else if f == "--task-note"@ {
        Some(("Task note commands were removed."@, "Use `--task` to select the active task label; task labels are the supported session context."@))
    } else if f == "--task-goal"@ {
        Some(("Task goal commands were removed."@, daily_goal_replacement()))
    } else if f == "--goal-weekly"@ || f == "--goal-monthly"@ {
        Some(("Weekly and monthly goal commands were removed."@, "Use `--goal` for the daily goal."@))
    } else if f == "--goal-carry-weekly"@ || f == "--goal-carry-monthly"@ {
        Some(("Weekly and monthly goal carry-over commands were removed."@, "Use `--goal-carry` for daily carry-over."@))
    } else if f == "--break-glass-trigger"@ || f == "--break-glass-cancel"@ {
        Some(("Break-glass commands were removed."@, "Use normal timer controls (`--pause`, `--resume`, `--stop`, `--next`) or manage blocked sites with blocklist commands."@))
    } else if f == "--config-doctor"@ || f == "--config-migrate"@ || f == "--config-migrate-apply"@ {
        Some(("Dedicated config diagnostics commands were removed."@, "Use `focustime --diagnostics` for setup checks, config health, and migration guidance."@))
    } else if f == "--blocklist-profile"@ || f == "--blocklist-profile-create"@ || f == "--blocklist-profile-rename"@ || f == "--blocklist-profile-delete"@ {
        Some(("Blocklist profile commands were removed."@, "Manage blocked hostnames with `--blocklist-sites`, `--blocklist-site-add`, `--blocklist-site-edit`, and `--blocklist-site-delete`."@))
    } else if f == "--session-template"@ || f == "--session-template-apply"@ || f == "--session-template-create"@ || f == "--session-template-rename"@ || f == "--session-template-delete"@ {
        Some(("Session template commands were removed."@, "Use `--task`, `--profile`, and blocklist site commands directly."@))
    } else if f == "--allowlist-site-add-temporary"@ {
        Some(("Temporary allowlist commands were removed."@, "Use blocklist site commands for CLI site-rule management; keep persistent exceptions in `allowlist_sites` config when needed."@))
    } else if f == "--allowlist-sites"@ || f == "--allowlist-site-add"@ || f == "--allowlist-site-edit"@ || f == "--allowlist-site-delete"@ {
        Some(("Allowlist site management commands were removed."@, allowlist_replacement()))
    } else {
        None
    }
}

pub open spec fn guidance_view(g: Option<RemovedOptionGuidance>) -> Option<(Seq<char>, Seq<char>)> {
    match g {
        Some(g) => Some((g.summary@, g.replacement@)),
        None => None,
    }
}

fn guidance(summary: &'static str, replacement: &'static str) -> (r: Option<RemovedOptionGuidance>)
    ensures
        guidance_view(r) == Some((summary@, replacement@)),
{
    Some(RemovedOptionGuidance { summary, replacement })
}

/// Guidance for a removed option (with or without `=VALUE`), if it is one.
pub fn removed_option_replacement_guidance(option: &str) -> (r: Option<RemovedOptionGuidance>)
    ensures
        guidance_view(r) == spec_guidance_for_flag(flag_of(option@)),
{
    let f = match split_once_char(option, '=') {
        Some((flag, _)) => flag,
        None => option,
    };
    if str_eq(f, "--migrate") || str_eq(f, "--dry-run") {
        guidance("This migration-window flag was removed.", "Use `--config-migrate` to preview config migrations or `--config-migrate-apply` to write migrated config with a backup.")
    } else if str_eq(f, "--automation-triggers") || str_eq(f, "--automation-triggers-set") {
        guidance("Standalone automation trigger commands were removed.", "Use `--schedule`/`--schedule-set` for schedule-driven focus starts and `--task`/`--profile` for session defaults.")
    } else if str_eq(f, "--task-note") {
        guidance("Task note commands were removed.", "Use `--task` to select the active task label; task labels are the supported session context.")
    } else if str_eq(f, "--task-goal") {
        guidance("Task goal commands were removed.", "Use `--goal` for the daily goal; task labels remain available through `--task`.")
    } else if str_eq(f, "--goal-weekly") || str_eq(f, "--goal-monthly") {
        guidance("Weekly and monthly goal commands were removed.", "Use `--goal` for the daily goal.")
    } else if str_eq(f, "--goal-carry-weekly") || str_eq(f, "--goal-carry-monthly") {
        guidance("Weekly and monthly goal carry-over commands were removed.", "Use `--goal-carry` for daily carry-over.")
    } else if str_eq(f, "--break-glass-trigger") || str_eq(f, "--break-glass-cancel") {
        guidance("Break-glass commands were removed.", "Use normal timer controls (`--pause`, `--resume`, `--stop`, `--next`) or manage blocked sites with blocklist commands.")
    } else if str_eq(f, "--config-doctor") || str_eq(f, "--config-migrate") || str_eq(f, "--config-migrate-apply") {
        guidance("Dedicated config diagnostics commands were removed.", "Use `focustime --diagnostics` for setup checks, config health, and migration guidance.")
    } else if str_eq(f, "--blocklist-profile") || str_eq(f, "--blocklist-profile-create") || str_eq(f, "--blocklist-profile-rename") || str_eq(f, "--blocklist-profile-delete") {
        guidance("Blocklist profile commands were removed.", "Manage blocked hostnames with `--blocklist-sites`, `--blocklist-site-add`, `--blocklist-site-edit`, and `--blocklist-site-delete`.")
    } else if str_eq(f, "--session-template") || str_eq(f, "--session-template-apply") || str_eq(f, "--session-template-create") || str_eq(f, "--session-template-rename") || str_eq(f, "--session-template-delete") {
        guidance("Session template commands were removed.", "Use `--task`, `--profile`, and blocklist site commands directly.")
    } else if str_eq(f, "--allowlist-site-add-temporary") {
        guidance("Temporary allowlist commands were removed.", "Use blocklist site commands for CLI site-rule management; keep persistent exceptions in `allowlist_sites` config when needed.")
    } else if str_eq(f, "--allowlist-sites") || str_eq(f, "--allowlist-site-add") || str_eq(f, "--allowlist-site-edit") || str_eq(f, "--allowlist-site-delete") {
        guidance("Allowlist site management commands were removed.", "Manage blocked hostnames with `--blocklist-sites`, `--blocklist-site-add`, `--blocklist-site-edit`, and `--blocklist-site-delete`; keep exceptions in `allowlist_sites` config when needed.")
    } else {
        None
    }
}

/// The message for an unknown option, with the removal summary when it was removed.
pub open spec fn spec_unknown_option_message(option: Seq<char>) -> Seq<char> {
    match spec_guidance_for_flag(flag_of(option)) {
        Some((summary, _)) => "Unknown option `"@ + option + "`. "@ + summary,
        None => "Unknown option `"@ + option + "`."@,
    }
}

fn unknown_option_message(option: &str) -> (r: String)
    ensures
        r@ == spec_unknown_option_message(option@),
{
    match removed_option_replacement_guidance(option) {
        Some(g) => {
            let mut m = concat3("Unknown option `", option, "`. ");
            m.append(g.summary);
            m
        },
        None => concat3("Unknown option `", option, "`."),
    }
}

/// Guidance for the first unknown option, when no positional argument comes first.
pub open spec fn spec_first_guidance(ts: Seq<TokenView>) -> Option<(Seq<char>, Seq<char>)>
    decreases ts.len(),
{
    if ts.len() == 0 {
        None
    } else {
        match ts[0] {
            TokenView::UnknownOption(o) => spec_guidance_for_flag(flag_of(o)),
            TokenView::Positional(_) => None,
            _ => spec_first_guidance(ts.drop_first()),
        }
    }
}

/// Guidance for the first unknown option among the tokens.
pub fn first_removed_option_guidance(tokens: &Vec<ParsedToken>) -> (r: Option<
    RemovedOptionGuidance,
>)
    ensures
        guidance_view(r) == spec_first_guidance(tokens_view(tokens@)),
{
    let ghost all = tokens_view(tokens@);
    let mut i: usize = 0;
    assert(all.subrange(0, all.len() as int) =~= all);
    while i < tokens.len()
        invariant
            i <= tokens.len(),
            all == tokens_view(tokens@),
            spec_first_guidance(all) == spec_first_guidance(all.subrange(i as int, all.len() as int)),
        decreases tokens.len() - i,
    {
        let ghost rest = all.subrange(i as int, all.len() as int);
        assert(rest[0] == tokens@[i as int]@);
        assert(rest.drop_first() =~= all.subrange(i + 1, all.len() as int));
        match &tokens[i] {
            ParsedToken::UnknownOption(option) => {
                return removed_option_replacement_guidance(option.as_str());
            },
            ParsedToken::Positional(_) => {
                return None;
            },
            _ => {},
        }
        i = i + 1;
    }
    assert(all.subrange(i as int, all.len() as int) =~= Seq::<TokenView>::empty());
    None
}

pub open spec fn spec_has_help(ts: Seq<TokenView>) -> bool {
    exists|i: int| 0 <= i < ts.len() && ts[i] is Help
}

/// Scans the tokens for `--json` and for arguments that are not accepted:
/// whether `--json` occurs, or the error of the first rejected argument.
pub open spec fn spec_global_scan(ts: Seq<TokenView>) -> Result<bool, Seq<char>>
    decreases ts.len(),
{
    if ts.len() == 0 {
        Ok(false)
    } else {
        match ts[0] {
            TokenView::UnknownOption(o) => Err(spec_invalid_usage(spec_unknown_option_message(o))),
            TokenView::Positional(v) => Err(
                spec_invalid_usage("Unexpected positional argument `"@ + v + "`."@),
            ),
            TokenView::Json => match spec_global_scan(ts.drop_first()) {
                Ok(_) => Ok(true),
                Err(e) => Err(e),
            },
            _ => spec_global_scan(ts.drop_first()),
        }
    }
}

/// An argument the command line does not accept: an unknown option or a
/// positional argument.
pub open spec fn is_rejected(t: TokenView) -> bool {
    t is UnknownOption || t is Positional
}

/// The error of a rejected argument.
pub open spec fn rejection(t: TokenView) -> Seq<char> {
    match t {
        TokenView::UnknownOption(o) => spec_invalid_usage(spec_unknown_option_message(o)),
        TokenView::Positional(v) => spec_invalid_usage("Unexpected positional argument `"@ + v + "`."@),
        _ => Seq::empty(),
    }
}

proof fn lemma_global_scan(ts: Seq<TokenView>)
    ensures
        (forall|i: int| 0 <= i < ts.len() ==> !is_rejected(#[trigger] ts[i])) ==> spec_global_scan(ts) == Ok::<
            bool,
            Seq<char>,
        >(exists|i: int| 0 <= i < ts.len() && #[trigger] ts[i] is Json),
        forall|f: int|
            0 <= f < ts.len() && is_rejected(#[trigger] ts[f]) && (forall|j: int| 0 <= j < f ==> !is_rejected(
                #[trigger] ts[j],
            )) ==> spec_global_scan(ts) == Err::<bool, Seq<char>>(rejection(ts[f])),
    decreases ts.len(),
{
    if ts.len() > 0 {
        let rest = ts.drop_first();
        lemma_global_scan(rest);
        if forall|i: int| 0 <= i < ts.len() ==> !is_rejected(#[trigger] ts[i]) {
            assert forall|i: int| 0 <= i < rest.len() implies !is_rejected(#[trigger] rest[i]) by {
                assert(rest[i] == ts[i + 1]);
            }
            let any = exists|i: int| 0 <= i < ts.len() && #[trigger] ts[i] is Json;
            let any_rest = exists|i: int| 0 <= i < rest.len() && #[trigger] rest[i] is Json;
            if any_rest {
                let i = choose|i: int| 0 <= i < rest.len() && #[trigger] rest[i] is Json;
                assert(ts[i + 1] is Json);
            }
            if any && !(ts[0] is Json) {
                let i = choose|i: int| 0 <= i < ts.len() && #[trigger] ts[i] is Json;
                assert(rest[i - 1] is Json);
            }
            assert(!is_rejected(ts[0]));
        }
        assert forall|f: int|
            0 <= f < ts.len() && is_rejected(#[trigger] ts[f]) && (forall|j: int| 0 <= j < f ==> !is_rejected(
                #[trigger] ts[j],
            )) implies spec_global_scan(ts) == Err::<bool, Seq<char>>(rejection(ts[f])) by {
            if f > 0 {
                assert(!is_rejected(ts[0]));
                assert(rest[f - 1] == ts[f]);
                assert forall|j: int| 0 <= j < f - 1 implies !is_rejected(#[trigger] rest[j]) by {
                    assert(rest[j] == ts[j + 1]);
                }
            }
        }
    }
}

/// Without `--help`, the command line's arguments are all accepted when none
/// is an unknown option or a positional argument, and then the output mode
/// is JSON exactly when `--json` is among them; otherwise the error is that
/// of the first such argument.
pub proof fn lemma_global_tokens_law(ts: Seq<TokenView>)
    requires
        !spec_has_help(ts),
    ensures
        (forall|i: int| 0 <= i < ts.len() ==> !is_rejected(#[trigger] ts[i])) ==> spec_global_tokens(ts) == Ok::<
            (bool, OutputMode),
            Seq<char>,
        >(
            (
                false,
                if exists|i: int| 0 <= i < ts.len() && #[trigger] ts[i] is Json {
                    OutputMode::Json
                } else {
                    OutputMode::Text
                },
            ),
        ),
        forall|f: int|
            0 <= f < ts.len() && is_rejected(#[trigger] ts[f]) && (forall|j: int| 0 <= j < f ==> !is_rejected(
                #[trigger] ts[j],
            )) ==> spec_global_tokens(ts) == Err::<(bool, OutputMode), Seq<char>>(rejection(ts[f])),
{
    lemma_global_scan(ts);
}

/// Help requested, and the output mode.
pub open spec fn spec_global_tokens(ts: Seq<TokenView>) -> Result<(bool, OutputMode), Seq<char>> {
    if spec_has_help(ts) {
        Ok((true, OutputMode::Text))
    } else {
        match spec_global_scan(ts) {
            Ok(json) => Ok((false, if json { OutputMode::Json } else { OutputMode::Text })),
            Err(e) => Err(e),
        }
    }
}

pub open spec fn prepend_json(seen: bool, r: Result<bool, Seq<char>>) -> Result<bool, Seq<char>> {
    match r {
        Ok(j) => Ok(j || seen),
        Err(e) => Err(e),
    }
}

/// Reads `--help`, `--json` and rejects unknown options and positional arguments.
pub fn parse_global_tokens(tokens: &Vec<ParsedToken>) -> (r: Result<(bool, OutputMode), String>)
    ensures
        match r {
            Ok(v) => spec_global_tokens(tokens_view(tokens@)) == Ok::<(bool, OutputMode), Seq<char>>(v),
            Err(e) => spec_global_tokens(tokens_view(tokens@)) == Err::<(bool, OutputMode), Seq<char>>(e@),
        },
{
    let ghost all = tokens_view(tokens@);
    let mut k: usize = 0;
    while k < tokens.len()
        invariant
            k <= tokens.len(),
            all == tokens_view(tokens@),
            forall|j: int| 0 <= j < k ==> !(all[j] is Help),
        decreases tokens.len() - k,
    {
        if let ParsedToken::Help = tokens[k] {
            assert(all[k as int] is Help);
            return Ok((true, OutputMode::Text));
        }
        k = k + 1;
    }
    assert(!spec_has_help(all));
    let mut json = false;
    let mut i: usize = 0;
    assert(all.subrange(0, all.len() as int) =~= all);
    while i < tokens.len()
        invariant
            i <= tokens.len(),
            all == tokens_view(tokens@),
            !spec_has_help(all),
            spec_global_scan(all) == prepend_json(json, spec_global_scan(all.subrange(i as int, all.len() as int))),
        decreases tokens.len() - i,
    {
        let ghost rest = all.subrange(i as int, all.len() as int);
        assert(rest[0] == tokens@[i as int]@);
        assert(rest.drop_first() =~= all.subrange(i + 1, all.len() as int));
        match &tokens[i] {
            ParsedToken::Json => {
                json = true;
            },
            ParsedToken::UnknownOption(option) => {
                let m = unknown_option_message(option.as_str());
                return Err(invalid_usage(m.as_str()));
            },
            ParsedToken::Positional(value) => {
                let m = concat3("Unexpected positional argument `", value.as_str(), "`.");
                return Err(invalid_usage(m.as_str()));
            },
            _ => {},
        }
        i = i + 1;
    }
    assert(all.subrange(i as int, all.len() as int) =~= Seq::<TokenView>::empty());
    Ok((false, if json { OutputMode::Json } else { OutputMode::Text }))
}

/// The command that a token selects, if it selects one.
pub open spec fn spec_primary_of(t: TokenView) -> Option<CommandView> {
    match t {
        TokenView::Start => Some(CommandView::Start),
        TokenView::Pause => Some(CommandView::Pause),
        TokenView::Resume => Some(CommandView::Resume),
        TokenView::Stop => Some(CommandView::Stop),
        TokenView::Next => Some(CommandView::Next),
        TokenView::Status => Some(CommandView::Status(None)),
        TokenView::Task(l) => Some(CommandView::Task(l)),
        TokenView::Profile(p) => Some(CommandView::Profile(p)),
        TokenView::Theme(p) => Some(CommandView::Theme(p)),
        TokenView::Goal(g) => Some(CommandView::Goal(g)),
        TokenView::GoalCarry(e) => Some(CommandView::GoalCarry(e)),
        TokenView::Strict(e) => Some(CommandView::Strict(e)),
        TokenView::Schedule => Some(CommandView::Schedule(None)),
        TokenView::ScheduleSet(s) => Some(CommandView::Schedule(Some(s))),
        TokenView::Diagnostics => Some(CommandView::Diagnostics),
        TokenView::Backup(d) => Some(CommandView::Backup(d)),
        TokenView::Restore(d) => Some(CommandView::Restore(d)),
        TokenView::Export(d) => Some(CommandView::Export(d)),
        TokenView::HistoryDashboard => Some(CommandView::HistoryDashboard(HistoryDashboardCommandKind::Show)),
        TokenView::BlocklistSites => Some(
            CommandView::Sites(SiteListTarget::Blocklist, SiteCommandView::List),
        ),
        TokenView::BlocklistSiteAdd(i) => Some(
            CommandView::Sites(SiteListTarget::Blocklist, SiteCommandView::Add(i)),
        ),
        TokenView::BlocklistSiteEdit(p, n) => Some(
            CommandView::Sites(SiteListTarget::Blocklist, SiteCommandView::Edit(p, n)),
        ),
        TokenView::BlocklistSiteDelete(s) => Some(
            CommandView::Sites(SiteListTarget::Blocklist, SiteCommandView::Delete(s)),
        ),
        _ => None,
    }
}

pub open spec fn opt_command_view(o: Option<CommandKind>) -> Option<CommandView> {
    match o {
        Some(c) => Some(c@),
        None => None,
    }
}

fn clone_opt_string(o: &Option<String>) -> (r: Option<String>)
    ensures
        opt_str_view(r) == opt_str_view(*o),
{
    match o {
        Some(s) => Some(s.clone()),
        None => None,
    }
}

/// The command that a token selects, if it selects one.
pub fn primary_command_for_token(token: &ParsedToken) -> (r: Option<CommandKind>)
    ensures
        opt_command_view(r) == spec_primary_of(token@),
{
    match token {
        ParsedToken::Start => Some(CommandKind::Start),
        ParsedToken::Pause => Some(CommandKind::Pause),
        ParsedToken::Resume => Some(CommandKind::Resume),
        ParsedToken::Stop => Some(CommandKind::Stop),
        ParsedToken::Next => Some(CommandKind::Next),
        ParsedToken::Status => Some(CommandKind::Status { watch_interval_secs: None }),
        ParsedToken::Task(label) => Some(CommandKind::Task { label: label.clone() }),
        ParsedToken::Profile(p) => Some(CommandKind::Profile { profile: *p }),
        ParsedToken::Theme(p) => Some(CommandKind::Theme { preset: *p }),
        ParsedToken::Goal(g) => Some(CommandKind::Goal { goal: *g }),
        ParsedToken::GoalCarry(e) => Some(CommandKind::GoalCarry { enabled: *e }),
        ParsedToken::Strict(e) => Some(CommandKind::Strict { enabled: *e }),
        ParsedToken::Schedule => Some(CommandKind::Schedule { schedule: None }),
        ParsedToken::ScheduleSet(s) => Some(
            CommandKind::Schedule { schedule: Some(clone_schedule(s)) },
        ),
        ParsedToken::Diagnostics => Some(CommandKind::Diagnostics),
        ParsedToken::Backup(d) => Some(CommandKind::Backup { dir: clone_opt_string(d) }),
        ParsedToken::Restore(d) => Some(CommandKind::Restore { dir: clone_opt_string(d) }),
        ParsedToken::Export(d) => Some(CommandKind::Export { dir: clone_opt_string(d) }),
        ParsedToken::HistoryDashboard => Some(
            CommandKind::HistoryDashboard { command: HistoryDashboardCommandKind::Show },
        ),
        ParsedToken::BlocklistSites => Some(
            CommandKind::BlocklistSites {
                target: SiteListTarget::Blocklist,
                command: BlocklistSiteCommandKind::List,
            },
        ),
        ParsedToken::BlocklistSiteAdd(input) => Some(
            CommandKind::BlocklistSites {
                target: SiteListTarget::Blocklist,
                command: BlocklistSiteCommandKind::Add { input: input.clone() },
            },
        ),
        ParsedToken::BlocklistSiteEdit(value) => Some(
            CommandKind::BlocklistSites {
                target: SiteListTarget::Blocklist,
                command: BlocklistSiteCommandKind::Edit {
                    value: SiteEditValue {
                        previous: value.previous.clone(),
                        next: value.next.clone(),
                    },
                },
            },
        ),
        ParsedToken::BlocklistSiteDelete(site) => Some(
            CommandKind::BlocklistSites {
                target: SiteListTarget::Blocklist,
                command: BlocklistSiteCommandKind::Delete { site: site.clone() },
            },
        ),
        _ => None,
    }
}

/// The option that selects a command.
pub open spec fn spec_primary_name(c: CommandView) -> Seq<char> {
    match c {
        CommandView::Start => "--start"@,
        CommandView::Pause => "--pause"@,
        CommandView::Resume => "--resume"@,
        CommandView::Stop => "--stop"@,
        CommandView::Next => "--next"@,
        CommandView::Task(_) => "--task"@,
        CommandView::Profile(_) => "--profile"@,
        CommandView::Theme(_) => "--theme"@,
        CommandView::Goal(_) => "--goal"@,
        CommandView::GoalCarry(_) => "--goal-carry"@,
        CommandView::Strict(_) => "--strict"@,
        CommandView::Schedule(None) => "--schedule"@,
        CommandView::Schedule(Some(_)) => "--schedule-set"@,
        CommandView::Diagnostics => "--diagnostics"@,
        CommandView::Status(_) => "--status"@,
        CommandView::Backup(_) => "--backup"@,
        CommandView::Restore(_) => "--restore"@,
        CommandView::Export(_) => "--export"@,
        CommandView::HistoryDashboard(_) => "--history-dashboard"@,
        CommandView::Sites(SiteListTarget::Blocklist, SiteCommandView::List) => "--blocklist-sites"@,
        CommandView::Sites(SiteListTarget::Blocklist, SiteCommandView::Add(_)) => "--blocklist-site-add"@,
        CommandView::Sites(SiteListTarget::Blocklist, SiteCommandView::Edit(_, _)) => "--blocklist-site-edit"@,
        CommandView::Sites(SiteListTarget::Blocklist, SiteCommandView::Delete(_)) => "--blocklist-site-delete"@,
        CommandView::Sites(SiteListTarget::Allowlist, SiteCommandView::List) => "--allowlist-sites"@,
        CommandView::Sites(SiteListTarget::Allowlist, SiteCommandView::Add(_)) => "--allowlist-site-add"@,
        CommandView::Sites(SiteListTarget::Allowlist, SiteCommandView::Edit(_, _)) => "--allowlist-site-edit"@,
        CommandView::Sites(SiteListTarget::Allowlist, SiteCommandView::Delete(_)) => "--allowlist-site-delete"@,
    }
}

/// The option that selects a command.
pub fn primary_name(command: &CommandKind) -> (r: &'static str)
    ensures
        r@ == spec_primary_name(command@),
{
    match command {
        CommandKind::Start => "--start",
        CommandKind::Pause => "--pause",
        CommandKind::Resume => "--resume",
        CommandKind::Stop => "--stop",
        CommandKind::Next => "--next",
        CommandKind::Task { .. } => "--task",
        CommandKind::Profile { .. } => "--profile",
        CommandKind::Theme { .. } => "--theme",
        CommandKind::Goal { .. } => "--goal",
        CommandKind::GoalCarry { .. } => "--goal-carry",
        CommandKind::Strict { .. } => "--strict",
        CommandKind::Schedule { schedule: None } => "--schedule",
        CommandKind::Schedule { schedule: Some(_) } => "--schedule-set",
        CommandKind::Diagnostics => "--diagnostics",
        CommandKind::Status { .. } => "--status",
        CommandKind::Backup { .. } => "--backup",
        CommandKind::Restore { .. } => "--restore",
        CommandKind::Export { .. } => "--export",
        CommandKind::HistoryDashboard { .. } => "--history-dashboard",
        CommandKind::BlocklistSites { target, command } => match (target, command) {
            (SiteListTarget::Blocklist, BlocklistSiteCommandKind::List) => "--blocklist-sites",
            (SiteListTarget::Blocklist, BlocklistSiteCommandKind::Add { .. }) => "--blocklist-site-add",
            (SiteListTarget::Blocklist, BlocklistSiteCommandKind::Edit { .. }) => "--blocklist-site-edit",
            (SiteListTarget::Blocklist, BlocklistSiteCommandKind::Delete { .. }) => "--blocklist-site-delete",
            (SiteListTarget::Allowlist, BlocklistSiteCommandKind::List) => "--allowlist-sites",
            (SiteListTarget::Allowlist, BlocklistSiteCommandKind::Add { .. }) => "--allowlist-site-add",
            (SiteListTarget::Allowlist, BlocklistSiteCommandKind::Edit { .. }) => "--allowlist-site-edit",
            (SiteListTarget::Allowlist, BlocklistSiteCommandKind::Delete { .. }) => "--allowlist-site-delete",
        },
    }
}

pub open spec fn multiple_primary_message(first: CommandView, second: CommandView) -> Seq<char> {
    spec_invalid_usage(
        "Multiple primary commands are not supported (`"@ + spec_primary_name(first) + "` and `"@
            + spec_primary_name(second) + "`)."@,
    )
}

/// The command the tokens select, given the one already selected; two commands are an error.
pub open spec fn spec_primary_scan(ts: Seq<TokenView>, current: Option<CommandView>) -> Result<
    Option<CommandView>,
    Seq<char>,
>
    decreases ts.len(),
{
    if ts.len() == 0 {
        Ok(current)
    } else {
        match spec_primary_of(ts[0]) {
            None => spec_primary_scan(ts.drop_first(), current),
            Some(p) => match current {
                Some(c) => Err(multiple_primary_message(c, p)),
                None => spec_primary_scan(ts.drop_first(), Some(p)),
            },
        }
    }
}

/// The commands the tokens select, in order.
pub open spec fn primary_commands(ts: Seq<TokenView>) -> Seq<CommandView>
    decreases ts.len(),
{
    if ts.len() == 0 {
        Seq::empty()
    } else {
        match spec_primary_of(ts[0]) {
            Some(p) => seq![p] + primary_commands(ts.drop_first()),
            None => primary_commands(ts.drop_first()),
        }
    }
}

proof fn lemma_primary_scan(ts: Seq<TokenView>, current: Option<CommandView>)
    ensures
        ({
            let ps = primary_commands(ts);
            match current {
                None => {
                    &&& ps.len() == 0 ==> spec_primary_scan(ts, current) == Ok::<Option<CommandView>, Seq<char>>(None)
                    &&& ps.len() == 1 ==> spec_primary_scan(ts, current) == Ok::<Option<CommandView>, Seq<char>>(
                        Some(ps[0]),
                    )
                    &&& ps.len() >= 2 ==> spec_primary_scan(ts, current) == Err::<Option<CommandView>, Seq<char>>(
                        multiple_primary_message(ps[0], ps[1]),
                    )
                },
                Some(c) => {
                    &&& ps.len() == 0 ==> spec_primary_scan(ts, current) == Ok::<Option<CommandView>, Seq<char>>(
                        Some(c),
                    )
                    &&& ps.len() >= 1 ==> spec_primary_scan(ts, current) == Err::<Option<CommandView>, Seq<char>>(
                        multiple_primary_message(c, ps[0]),
                    )
                },
            }
        }),
    decreases ts.len(),
{
    if ts.len() > 0 {
        let rest = ts.drop_first();
        match spec_primary_of(ts[0]) {
            Some(p) => {
                lemma_primary_scan(rest, Some(p));
                let pr = primary_commands(rest);
                assert((seq![p] + pr)[0] == p);
                if pr.len() > 0 {
                    assert((seq![p] + pr)[1] == pr[0]);
                }
            },
            None => {
                lemma_primary_scan(rest, current);
            },
        }
    }
}

/// Of the tokens that select a command, none gives no command, one gives
/// that command, and two or more are refused with the first two named.
pub proof fn lemma_primary_command_law(ts: Seq<TokenView>)
    ensures
        primary_commands(ts).len() == 0 ==> spec_primary_scan(ts, None) == Ok::<Option<CommandView>, Seq<char>>(None),
        primary_commands(ts).len() == 1 ==> spec_primary_scan(ts, None) == Ok::<Option<CommandView>, Seq<char>>(
            Some(primary_commands(ts)[0]),
        ),
        primary_commands(ts).len() >= 2 ==> spec_primary_scan(ts, None) == Err::<Option<CommandView>, Seq<char>>(
            multiple_primary_message(primary_commands(ts)[0], primary_commands(ts)[1]),
        ),
{
    lemma_primary_scan(ts, None);
}

/// The one command the tokens select, if any.
pub fn parse_primary_command(tokens: &Vec<ParsedToken>) -> (r: Result<Option<CommandKind>, String>)
    ensures
        match r {
            Ok(p) => spec_primary_scan(tokens_view(tokens@), None) == Ok::<Option<CommandView>, Seq<char>>(opt_command_view(p)),
            Err(e) => spec_primary_scan(tokens_view(tokens@), None) == Err::<Option<CommandView>, Seq<char>>(e@),
        },
{
    let ghost all = tokens_view(tokens@);
    let mut primary: Option<CommandKind> = None;
    let mut i: usize = 0;
    assert(all.subrange(0, all.len() as int) =~= all);
    while i < tokens.len()
        invariant
            i <= tokens.len(),
            all == tokens_view(tokens@),
            spec_primary_scan(all, None) == spec_primary_scan(all.subrange(i as int, all.len() as int), opt_command_view(primary)),
        decreases tokens.len() - i,
    {
        let ghost rest = all.subrange(i as int, all.len() as int);
        assert(rest[0] == tokens@[i as int]@);
        assert(rest.drop_first() =~= all.subrange(i + 1, all.len() as int));
        match primary_command_for_token(&tokens[i]) {
            None => {},
            Some(next) => {
                match &primary {
                    Some(existing) => {
                        let mut m = concat3(
                            "Multiple primary commands are not supported (`",
                            primary_name(existing),
                            "` and `",
                        );
                        m.append(primary_name(&next));
                        m.append("`).");
                        return Err(invalid_usage(m.as_str()));
                    },
                    None => {
                        primary = Some(next);
                    },
                }
            },
        }
        i = i + 1;
    }
    assert(all.subrange(i as int, all.len() as int) =~= Seq::<TokenView>::empty());
    Ok(primary)
}

/// The `--watch` interval, given the one already read; a second `--watch` is an error.
pub open spec fn spec_watch_scan(ts: Seq<TokenView>, current: Option<u64>) -> Result<
    Option<u64>,
    Seq<char>,
>
    decreases ts.len(),
{
    if ts.len() == 0 {
        Ok(current)
    } else {
        match ts[0] {
            TokenView::Watch(v) => match current {
                Some(_) => Err(spec_invalid_usage("`--watch` can only be specified once."@)),
                None => spec_watch_scan(
                    ts.drop_first(),
                    Some(
                        match v {
                            Some(s) => s,
                            None => DEFAULT_WATCH_INTERVAL_SECS,
                        },
                    ),
                ),
            },
            _ => spec_watch_scan(ts.drop_first(), current),
        }
    }
}

/// The `--watch` interval, defaulted when `--watch` has no value.
pub fn parse_watch_interval_option(tokens: &Vec<ParsedToken>) -> (r: Result<Option<u64>, String>)
    ensures
        match r {
            Ok(w) => spec_watch_scan(tokens_view(tokens@), None) == Ok::<Option<u64>, Seq<char>>(w),
            Err(e) => spec_watch_scan(tokens_view(tokens@), None) == Err::<Option<u64>, Seq<char>>(e@),
        },
{
    let ghost all = tokens_view(tokens@);
    let mut interval: Option<u64> = None;
    let mut i: usize = 0;
    assert(all.subrange(0, all.len() as int) =~= all);
    while i < tokens.len()
        invariant
            i <= tokens.len(),
            all == tokens_view(tokens@),
            spec_watch_scan(all, None) == spec_watch_scan(all.subrange(i as int, all.len() as int), interval),
        decreases tokens.len() - i,
    {
        let ghost rest = all.subrange(i as int, all.len() as int);
        assert(rest[0] == tokens@[i as int]@);
        assert(rest.drop_first() =~= all.subrange(i + 1, all.len() as int));
        if let ParsedToken::Watch(value) = &tokens[i] {
            if interval.is_some() {
                return Err(invalid_usage("`--watch` can only be specified once."));
            }
            interval = Some(
                match value {
                    Some(s) => *s,
                    None => DEFAULT_WATCH_INTERVAL_SECS,
                },
            );
        }
        i = i + 1;
    }
    assert(all.subrange(i as int, all.len() as int) =~= Seq::<TokenView>::empty());
    Ok(interval)
}

/// The action for the parsed pieces of a command line.
pub open spec fn spec_finalize(
    show_help: bool,
    output: OutputMode,
    primary: Option<CommandView>,
    watch: Option<u64>,
) -> Result<ActionView, Seq<char>> {
    if show_help {
        Ok(ActionView::ShowHelp)
    } else if watch is Some && !(primary matches Some(CommandView::Status(_))) {
        Err(spec_invalid_usage("`--watch` is only valid with `--status`."@))
    } else {
        match primary {
            None => if output == OutputMode::Json {
                Err(spec_invalid_usage("`--json` is only valid with non-interactive commands."@))
            } else {
                Ok(ActionView::RunTui)
            },
            Some(CommandView::Status(_)) => Ok(ActionView::RunCommand(CommandView::Status(watch), output)),
            Some(c) => Ok(ActionView::RunCommand(c, output)),
        }
    }
}

/// Combines help, output mode, the selected command and the watch interval.
pub fn finalize_cli_action(
    show_help: bool,
    output: OutputMode,
    primary: Option<CommandKind>,
    watch_interval_secs: Option<u64>,
) -> (r: Result<CliAction, String>)
    ensures
        match r {
            Ok(a) => spec_finalize(show_help, output, opt_command_view(primary), watch_interval_secs) == Ok::<ActionView, Seq<char>>(a@),
            Err(e) => spec_finalize(show_help, output, opt_command_view(primary), watch_interval_secs) == Err::<ActionView, Seq<char>>(e@),
        },
{
    if show_help {
        return Ok(CliAction::ShowHelp);
    }
    let is_status = match &primary {
        Some(CommandKind::Status { .. }) => true,
        _ => false,
    };
    if watch_interval_secs.is_some() && !is_status {
        return Err(invalid_usage("`--watch` is only valid with `--status`."));
    }
    match primary {
        None => {
            if output == OutputMode::Json {
                return Err(invalid_usage("`--json` is only valid with non-interactive commands."));
            }
            Ok(CliAction::RunTui)
        },
        Some(CommandKind::Status { .. }) => Ok(
            CliAction::RunCommand(
                CliCommand { kind: CommandKind::Status { watch_interval_secs }, output },
            ),
        ),
        Some(kind) => Ok(CliAction::RunCommand(CliCommand { kind, output })),
    }
}

/// The arguments as text, or `None` when one of them is not valid UTF-8.
pub open spec fn spec_utf8_args(args: Seq<Option<String>>) -> Option<Seq<Seq<char>>> {
    if forall|i: int| 0 <= i < args.len() ==> (#[trigger] args[i]) is Some {
        Some(args.map_values(|a: Option<String>| a.unwrap()@))
    } else {
        None
    }
}

/// The action a command line selects, or its usage error.
pub open spec fn spec_parse_args(args: Seq<Option<String>>) -> Result<ActionView, Seq<char>> {
    match spec_utf8_args(args) {
        None => Err(spec_invalid_usage("Arguments must be valid UTF-8."@)),
        Some(strs) => match spec_classify_args(strs) {
            Err(e) => Err(e),
            Ok(ts) => match spec_global_tokens(ts) {
                Err(e) => Err(e),
                Ok((help, output)) => match spec_primary_scan(ts, None) {
                    Err(e) => Err(e),
                    Ok(primary) => match spec_watch_scan(ts, None) {
                        Err(e) => Err(e),
                        Ok(watch) => spec_finalize(help, output, primary, watch),
                    },
                },
            },
        },
    }
}

fn utf8_args(args: &Vec<Option<String>>) -> (r: Option<Vec<String>>)
    ensures
        match r {
            Some(v) => spec_utf8_args(args@) == Some(strings_view(v@)),
            None => spec_utf8_args(args@) is None,
        },
{
    let mut out: Vec<String> = Vec::new();
    let mut i: usize = 0;
    while i < args.len()
        invariant
            i <= args.len(),
            out@.len() == i,
            forall|k: int| 0 <= k < i ==> (#[trigger] args@[k]) is Some,
            forall|k: int| 0 <= k < i ==> (#[trigger] out@[k])@ == args@[k].unwrap()@,
        decreases args.len() - i,
    {
        match &args[i] {
            Some(s) => {
                out.push(s.clone());
            },
            None => {
                return None;
            },
        }
        i = i + 1;
    }
    assert(strings_view(out@) =~= args@.map_values(|a: Option<String>| a.unwrap()@));
    Some(out)
}

/// Reads the command line: the action to take, or a usage error with the usage summary.
pub fn parse_args(args: Vec<Option<String>>) -> (r: Result<CliAction, String>)
    ensures
        match r {
            Ok(a) => spec_parse_args(args@) == Ok::<ActionView, Seq<char>>(a@),
            Err(e) => spec_parse_args(args@) == Err::<ActionView, Seq<char>>(e@),
        },
{
    let strs = match utf8_args(&args) {
        Some(v) => v,
        None => return Err(invalid_usage("Arguments must be valid UTF-8.")),
    };
    let tokens = classify_args(&strs)?;
    let (show_help, output) = parse_global_tokens(&tokens)?;
    let primary = parse_primary_command(&tokens)?;
    let watch_interval_secs = parse_watch_interval_option(&tokens)?;
    finalize_cli_action(show_help, output, primary, watch_interval_secs)
}

/// `--json` among the arguments that are valid UTF-8.
pub open spec fn spec_output_mode_of(args: Seq<Option<String>>) -> OutputMode {
    if exists|i: int| 0 <= i < args.len() && ((#[trigger] args[i]) matches Some(s) && s@ == "--json"@) {
        OutputMode::Json
    } else {
        OutputMode::Text
    }
}

/// The output mode a command line asks for, read before any parsing.
pub fn infer_output_mode_from_args(args: &Vec<Option<String>>) -> (r: OutputMode)
    ensures
        r == spec_output_mode_of(args@),
{
    let mut i: usize = 0;
    while i < args.len()
        invariant
            i <= args.len(),
            forall|k: int| 0 <= k < i ==> !((#[trigger] args@[k]) matches Some(s) && s@ == "--json"@),
        decreases args.len() - i,
    {
        if let Some(s) = &args[i] {
            if str_eq(s.as_str(), "--json") {
                assert(args@[i as int] matches Some(t) && t@ == "--json"@);
                return OutputMode::Json;
            }
        }
        i = i + 1;
    }
    OutputMode::Text
}

/// The replacement advice for a rejected command line: that of the first
/// unknown option, when the arguments classify.
pub open spec fn spec_usage_hint(args: Seq<Option<String>>) -> Option<Seq<char>> {
    match spec_utf8_args(args) {
        None => None,
        Some(strs) => match spec_classify_args(strs) {
            Err(_) => None,
            Ok(ts) => match spec_first_guidance(ts) {
                Some((_, replacement)) => Some(replacement),
                None => None,
            },
        },
    }
}

fn usage_hint(args: &Vec<Option<String>>) -> (r: Option<String>)
    ensures
        opt_str_view(r) == spec_usage_hint(args@),
{
    let strs = match utf8_args(args) {
        Some(v) => v,
        None => return None,
    };
    let tokens = match classify_args(&strs) {
        Ok(t) => t,
        Err(_) => return None,
    };
    match first_removed_option_guidance(&tokens) {
        Some(g) => Some(owned(g.replacement)),
        None => None,
    }
}

/// Reads the command line; a rejected one becomes a usage error that carries
/// the output mode, the `cli.usage` code and, for a removed option, a hint.
pub fn parse_args_with_contract(args: Vec<Option<String>>) -> (r: Result<CliAction, CliError>)
    ensures
        match r {
            Ok(a) => spec_parse_args(args@) == Ok::<ActionView, Seq<char>>(a@),
            Err(e) => {
                &&& spec_parse_args(args@) == Err::<ActionView, Seq<char>>(e.message@)
                &&& e.kind == CliErrorKind::Usage
                &&& e.output == spec_output_mode_of(args@)
                &&& e.code@ == "cli.usage"@
                &&& opt_str_view(e.hint) == spec_usage_hint(args@)
            },
        },
{
    let output = infer_output_mode_from_args(&args);
    let hint = usage_hint(&args);
    match parse_args(args) {
        Ok(action) => Ok(action),
        Err(message) => Err(
            CliError { kind: CliErrorKind::Usage, output, code: owned("cli.usage"), message, hint },
        ),
    }
}

} // verus!
