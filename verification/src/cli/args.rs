//! Classification of raw arguments into tokens.
use crate::cli::payload::{parse_schedule_value, spec_parse_schedule_value};
use crate::cli::values::{
    invalid_usage, parse_goal_carry_value, parse_goal_value, parse_profile_id,
    parse_site_edit_value, parse_strict_value, parse_theme_preset, parse_watch_interval_secs,
    require_nonempty_key_value, spec_invalid_usage, spec_parse_goal_carry_value,
    spec_parse_goal_value, spec_parse_profile_id, spec_parse_site_edit_value,
    spec_parse_strict_value, spec_parse_theme_preset, spec_parse_watch_interval_secs,
    spec_require_nonempty,
};
use crate::cli::{opt_token_view, tokens_view, ParsedToken, TokenView};
use crate::config::strings_view;
use crate::text::{has_prefix, is_blank, is_blank_str, owned, starts_with, str_eq, strip_prefix};
use vstd::prelude::*;

verus! {

/// Outcome of classifying one argument: the token and how many arguments it used.
pub open spec fn step_view(r: Result<(ParsedToken, usize), String>) -> Result<
    (TokenView, nat),
    Seq<char>,
> {
    match r {
        Ok((t, n)) => Ok((t@, n as nat)),
        Err(e) => Err(e@),
    }
}

/// Outcome of a key-value classifier.
pub open spec fn kv_view(r: Result<Option<ParsedToken>, String>) -> Result<
    Option<TokenView>,
    Seq<char>,
> {
    match r {
        Ok(t) => Ok(opt_token_view(t)),
        Err(e) => Err(e@),
    }
}

/// The token of an argument that is a flag on its own.
pub open spec fn spec_simple_flag(a: Seq<char>) -> Option<TokenView> {
    if a == "-h"@ || a == "--help"@ {
        Some(TokenView::Help)
    } else if a == "--json"@ {
        Some(TokenView::Json)
    } else if a == "--start"@ {
        Some(TokenView::Start)
    } else if a == "--pause"@ {
        Some(TokenView::Pause)
    } else if a == "--resume"@ {
        Some(TokenView::Resume)
    } else if a == "--stop"@ {
        Some(TokenView::Stop)
    } else if a == "--next"@ {
        Some(TokenView::Next)
    } else if a == "--status"@ {
        Some(TokenView::Status)
    } else if a == "--schedule"@ {
        Some(TokenView::Schedule)
    } else if a == "--diagnostics"@ {
        Some(TokenView::Diagnostics)
    } else if a == "--history-dashboard"@ {
        Some(TokenView::HistoryDashboard)
    } else if a == "--blocklist-sites"@ {
        Some(TokenView::BlocklistSites)
    } else {
        None
    }
}

/// Classifies single-argument flags that take no value.
pub fn classify_simple_flag(arg: &str) -> (r: Option<ParsedToken>)
    ensures
        opt_token_view(r) == spec_simple_flag(arg@),
{
    if str_eq(arg, "-h") || str_eq(arg, "--help") {
        Some(ParsedToken::Help)
    } else if str_eq(arg, "--json") {
        Some(ParsedToken::Json)
    } else if str_eq(arg, "--start") {
        Some(ParsedToken::Start)
    } else if str_eq(arg, "--pause") {
        Some(ParsedToken::Pause)
    } else if str_eq(arg, "--resume") {
        Some(ParsedToken::Resume)
    } else if str_eq(arg, "--stop") {
        Some(ParsedToken::Stop)
    } else if str_eq(arg, "--next") {
        Some(ParsedToken::Next)
    } else if str_eq(arg, "--status") {
        Some(ParsedToken::Status)
    } else if str_eq(arg, "--schedule") {
        Some(ParsedToken::Schedule)
    } else if str_eq(arg, "--diagnostics") {
        Some(ParsedToken::Diagnostics)
    } else if str_eq(arg, "--history-dashboard") {
        Some(ParsedToken::HistoryDashboard)
    } else if str_eq(arg, "--blocklist-sites") {
        Some(ParsedToken::BlocklistSites)
    } else {
        None
    }
}

/// The argument after `args[i]`, when there is one that does not start with `-`.
pub open spec fn spec_next_value(args: Seq<Seq<char>>, i: int) -> Option<Seq<char>> {
    if i + 1 < args.len() && !has_prefix(args[i + 1], "-"@) {
        Some(args[i + 1])
    } else {
        None
    }
}

fn next_value(args: &Vec<String>, index: usize) -> (r: Option<&String>)
    requires
        index < args.len(),
    ensures
        match r {
            Some(s) => spec_next_value(strings_view(args@), index as int) == Some(s@),
            None => spec_next_value(strings_view(args@), index as int) is None,
        },
{
    if index + 1 < args.len() && !starts_with(args[index + 1].as_str(), "-") {
        Some(&args[index + 1])
    } else {
        None
    }
}

/// A value option whose value may be omitted: `with` of the value, or `without`.
pub open spec fn spec_optional_value(
    next: Option<Seq<char>>,
    with: Result<TokenView, Seq<char>>,
    without: TokenView,
) -> Result<(TokenView, nat), Seq<char>> {
    match next {
        Some(_) => match with {
            Ok(t) => Ok((t, 2)),
            Err(e) => Err(e),
        },
        None => Ok((without, 1)),
    }
}

/// A value option whose value is required.
pub open spec fn spec_required_value(
    next: Option<Seq<char>>,
    with: Result<TokenView, Seq<char>>,
    missing: Seq<char>,
) -> Result<(TokenView, nat), Seq<char>> {
    match next {
        Some(_) => match with {
            Ok(t) => Ok((t, 2)),
            Err(e) => Err(e),
        },
        None => Err(spec_invalid_usage(missing)),
    }
}

pub open spec fn task_message() -> Seq<char> {
    "`--task` requires a task label. Use `--task=LABEL` or `--task LABEL`."@
}

pub open spec fn spec_task_value(v: Seq<char>) -> Result<TokenView, Seq<char>> {
    if is_blank(v) {
        Err(spec_invalid_usage(task_message()))
    } else {
        Ok(TokenView::Task(v))
    }
}

pub open spec fn spec_profile_value(v: Seq<char>) -> Result<TokenView, Seq<char>> {
    match spec_parse_profile_id(v) {
        Ok(p) => Ok(TokenView::Profile(Some(p))),
        Err(e) => Err(e),
    }
}

pub open spec fn spec_theme_value(v: Seq<char>) -> Result<TokenView, Seq<char>> {
    match spec_parse_theme_preset(v) {
        Ok(p) => Ok(TokenView::Theme(Some(p))),
        Err(e) => Err(e),
    }
}

pub open spec fn spec_goal_value(v: Seq<char>) -> Result<TokenView, Seq<char>> {
    match spec_parse_goal_value(v) {
        Ok(g) => Ok(TokenView::Goal(Some(g))),
        Err(e) => Err(e),
    }
}

pub open spec fn spec_goal_carry_value(v: Seq<char>) -> Result<TokenView, Seq<char>> {
    match spec_parse_goal_carry_value(v) {
        Ok(b) => Ok(TokenView::GoalCarry(Some(b))),
        Err(e) => Err(e),
    }
}

pub open spec fn spec_strict_value(v: Seq<char>) -> Result<TokenView, Seq<char>> {
    match spec_parse_strict_value(v) {
        Ok(b) => Ok(TokenView::Strict(Some(b))),
        Err(e) => Err(e),
    }
}

pub open spec fn spec_schedule_set_value(v: Seq<char>) -> Result<TokenView, Seq<char>> {
    match spec_parse_schedule_value(v) {
        Ok(s) => Ok(TokenView::ScheduleSet(s)),
        Err(e) => Err(e),
    }
}

pub open spec fn spec_watch_value(v: Seq<char>) -> Result<TokenView, Seq<char>> {
    match spec_parse_watch_interval_secs(v) {
        Ok(s) => Ok(TokenView::Watch(Some(s))),
        Err(e) => Err(e),
    }
}

/// Which directory option: backup, restore or export.
pub enum DirOption {
    Backup,
    Restore,
    Export,
}

pub open spec fn dir_token(which: DirOption, v: Option<Seq<char>>) -> TokenView {
    match which {
        DirOption::Backup => TokenView::Backup(v),
        DirOption::Restore => TokenView::Restore(v),
        DirOption::Export => TokenView::Export(v),
    }
}

pub open spec fn spec_dir_value(which: DirOption, v: Seq<char>, message: Seq<char>) -> Result<
    TokenView,
    Seq<char>,
> {
    match spec_require_nonempty(v, message) {
        Ok(d) => Ok(dir_token(which, Some(d))),
        Err(e) => Err(e),
    }
}

pub open spec fn spec_site_add_value(v: Seq<char>) -> Result<TokenView, Seq<char>> {
    match spec_require_nonempty(v, "`--blocklist-site-add` requires hostnames input."@) {
        Ok(d) => Ok(TokenView::BlocklistSiteAdd(d)),
        Err(e) => Err(e),
    }
}

pub open spec fn spec_site_edit_value(v: Seq<char>) -> Result<TokenView, Seq<char>> {
    match spec_parse_site_edit_value(v) {
        Ok((p, n)) => Ok(TokenView::BlocklistSiteEdit(p, n)),
        Err(e) => Err(e),
    }
}

pub open spec fn spec_site_delete_value(v: Seq<char>) -> Result<TokenView, Seq<char>> {
    match spec_require_nonempty(v, "`--blocklist-site-delete` requires a hostname."@) {
        Ok(d) => Ok(TokenView::BlocklistSiteDelete(d)),
        Err(e) => Err(e),
    }
}

pub open spec fn or_none(next: Option<Seq<char>>) -> Seq<char> {
    match next {
        Some(v) => v,
        None => Seq::empty(),
    }
}

/// The token of an option that reads the argument after it, if `args[i]` is one.
pub open spec fn spec_value_arg(args: Seq<Seq<char>>, i: int) -> Option<
    Result<(TokenView, nat), Seq<char>>,
> {
    let a = args[i];
    let next = spec_next_value(args, i);
    let v = or_none(next);
    if a == "--task"@ {
        Some(spec_required_value(next, spec_task_value(v), task_message()))
    } else if a == "--profile"@ {
        Some(spec_optional_value(next, spec_profile_value(v), TokenView::Profile(None)))
    } else if a == "--theme"@ {
        Some(spec_optional_value(next, spec_theme_value(v), TokenView::Theme(None)))
    } else if a == "--goal"@ {
        Some(spec_optional_value(next, spec_goal_value(v), TokenView::Goal(None)))
    } else if a == "--goal-carry"@ {
        Some(spec_optional_value(next, spec_goal_carry_value(v), TokenView::GoalCarry(None)))
    } else if a == "--strict"@ {
        Some(spec_optional_value(next, spec_strict_value(v), TokenView::Strict(None)))
    } else if a == "--schedule-set"@ {
        Some(
            spec_required_value(
                next,
                spec_schedule_set_value(v),
                "`--schedule-set` requires a JSON payload. Use `--schedule-set='{\"windows\":[...]}'`."@,
            ),
        )
    } else if a == "--watch"@ {
        Some(spec_optional_value(next, spec_watch_value(v), TokenView::Watch(None)))
    } else if a == "--backup"@ {
        Some(
            spec_optional_value(
                next,
                spec_dir_value(DirOption::Backup, v, "`--backup` requires a target directory."@),
                TokenView::Backup(None),
            ),
        )
    } else if a == "--restore"@ {
        Some(
            spec_optional_value(
                next,
                spec_dir_value(DirOption::Restore, v, "`--restore` requires a source directory."@),
                TokenView::Restore(None),
            ),
        )
    } else if a == "--export"@ {
        Some(
            spec_optional_value(
                next,
                spec_dir_value(DirOption::Export, v, "`--export` requires a target directory."@),
                TokenView::Export(None),
            ),
        )
    } else if a == "--blocklist-site-add"@ {
        Some(
            spec_required_value(
                next,
                spec_site_add_value(v),
                "`--blocklist-site-add` requires hostnames input. Use `--blocklist-site-add=HOSTNAMES` or `--blocklist-site-add HOSTNAMES`."@,
            ),
        )
    } else if a == "--blocklist-site-edit"@ {
        Some(
            spec_required_value(
                next,
                spec_site_edit_value(v),
                "`--blocklist-site-edit` requires `OLD=NEW`. Use `--blocklist-site-edit=OLD=NEW` or `--blocklist-site-edit OLD=NEW`."@,
            ),
        )
    } else if a == "--blocklist-site-delete"@ {
        Some(
            spec_required_value(
                next,
                spec_site_delete_value(v),
                "`--blocklist-site-delete` requires a hostname. Use `--blocklist-site-delete=HOSTNAME` or `--blocklist-site-delete HOSTNAME`."@,
            ),
        )
    } else {
        None
    }
}

fn classify_task_arg(args: &Vec<String>, index: usize) -> (r: Result<(ParsedToken, usize), String>)
    requires
        index < args.len(),
    ensures
        ({
            let next = spec_next_value(strings_view(args@), index as int);
            step_view(r) == spec_required_value(next, spec_task_value(or_none(next)), task_message())
        }),
{
    if let Some(next) = next_value(args, index) {
        if is_blank_str(next.as_str()) {
            return Err(invalid_usage("`--task` requires a task label. Use `--task=LABEL` or `--task LABEL`."));
        }
        return Ok((ParsedToken::Task(next.clone()), 2));
    }
    Err(invalid_usage("`--task` requires a task label. Use `--task=LABEL` or `--task LABEL`."))
}

fn classify_profile_arg(args: &Vec<String>, index: usize) -> (r: Result<(ParsedToken, usize), String>)
    requires
        index < args.len(),
    ensures
        ({
            let next = spec_next_value(strings_view(args@), index as int);
            step_view(r) == spec_optional_value(next, spec_profile_value(or_none(next)), TokenView::Profile(None))
        }),
{
    if let Some(next) = next_value(args, index) {
        let selected = parse_profile_id(next.as_str())?;
        return Ok((ParsedToken::Profile(Some(selected)), 2));
    }
    Ok((ParsedToken::Profile(None), 1))
}

fn classify_theme_arg(args: &Vec<String>, index: usize) -> (r: Result<(ParsedToken, usize), String>)
    requires
        index < args.len(),
    ensures
        ({
            let next = spec_next_value(strings_view(args@), index as int);
            step_view(r) == spec_optional_value(next, spec_theme_value(or_none(next)), TokenView::Theme(None))
        }),
{
    if let Some(next) = next_value(args, index) {
        let selected = parse_theme_preset(next.as_str())?;
        return Ok((ParsedToken::Theme(Some(selected)), 2));
    }
    Ok((ParsedToken::Theme(None), 1))
}

fn classify_goal_arg(args: &Vec<String>, index: usize) -> (r: Result<(ParsedToken, usize), String>)
    requires
        index < args.len(),
    ensures
        ({
            let next = spec_next_value(strings_view(args@), index as int);
            step_view(r) == spec_optional_value(next, spec_goal_value(or_none(next)), TokenView::Goal(None))
        }),
{
    if let Some(next) = next_value(args, index) {
        let goal = parse_goal_value(next.as_str())?;
        return Ok((ParsedToken::Goal(Some(goal)), 2));
    }
    Ok((ParsedToken::Goal(None), 1))
}

fn classify_goal_carry_arg(args: &Vec<String>, index: usize) -> (r: Result<(ParsedToken, usize), String>)
    requires
        index < args.len(),
    ensures
        ({
            let next = spec_next_value(strings_view(args@), index as int);
            step_view(r) == spec_optional_value(next, spec_goal_carry_value(or_none(next)), TokenView::GoalCarry(None))
        }),
{
    if let Some(next) = next_value(args, index) {
        let enabled = parse_goal_carry_value(next.as_str())?;
        return Ok((ParsedToken::GoalCarry(Some(enabled)), 2));
    }
    Ok((ParsedToken::GoalCarry(None), 1))
}

fn classify_strict_arg(args: &Vec<String>, index: usize) -> (r: Result<(ParsedToken, usize), String>)
    requires
        index < args.len(),
    ensures
        ({
            let next = spec_next_value(strings_view(args@), index as int);
            step_view(r) == spec_optional_value(next, spec_strict_value(or_none(next)), TokenView::Strict(None))
        }),
{
    if let Some(next) = next_value(args, index) {
        let enabled = parse_strict_value(next.as_str())?;
        return Ok((ParsedToken::Strict(Some(enabled)), 2));
    }
    Ok((ParsedToken::Strict(None), 1))
}

fn classify_schedule_set_arg(args: &Vec<String>, index: usize) -> (r: Result<(ParsedToken, usize), String>)
    requires
        index < args.len(),
    ensures
        ({
            let next = spec_next_value(strings_view(args@), index as int);
            step_view(r) == spec_required_value(
                next,
                spec_schedule_set_value(or_none(next)),
                "`--schedule-set` requires a JSON payload. Use `--schedule-set='{\"windows\":[...]}'`."@,
            )
        }),
{
    if let Some(next) = next_value(args, index) {
        let schedule = parse_schedule_value(next.as_str())?;
        return Ok((ParsedToken::ScheduleSet(schedule), 2));
    }
    Err(invalid_usage("`--schedule-set` requires a JSON payload. Use `--schedule-set='{\"windows\":[...]}'`."))
}

fn classify_watch_arg(args: &Vec<String>, index: usize) -> (r: Result<(ParsedToken, usize), String>)
    requires
        index < args.len(),
    ensures
        ({
            let next = spec_next_value(strings_view(args@), index as int);
            step_view(r) == spec_optional_value(next, spec_watch_value(or_none(next)), TokenView::Watch(None))
        }),
{
    if let Some(next) = next_value(args, index) {
        let secs = parse_watch_interval_secs(next.as_str())?;
        return Ok((ParsedToken::Watch(Some(secs)), 2));
    }
    Ok((ParsedToken::Watch(None), 1))
}

fn make_dir_token(which: &DirOption, value: Option<String>) -> (r: ParsedToken)
    ensures
        r@ == dir_token(*which, match value {
            Some(v) => Some(v@),
            None => None,
        }),
{
    match which {
        DirOption::Backup => ParsedToken::Backup(value),
        DirOption::Restore => ParsedToken::Restore(value),
        DirOption::Export => ParsedToken::Export(value),
    }
}

/// `--backup`, `--restore` and `--export`, whose directory may be omitted.
fn classify_optional_artifact_path_arg(
    args: &Vec<String>,
    index: usize,
    which: DirOption,
    empty_value_message: &str,
) -> (r: Result<(ParsedToken, usize), String>)
    requires
        index < args.len(),
    ensures
        ({
            let next = spec_next_value(strings_view(args@), index as int);
            step_view(r) == spec_optional_value(
                next,
                spec_dir_value(which, or_none(next), empty_value_message@),
                dir_token(which, None),
            )
        }),
{
    if let Some(next) = next_value(args, index) {
        let value = require_nonempty_key_value(next.as_str(), empty_value_message)?;
        return Ok((make_dir_token(&which, Some(owned(value))), 2));
    }
    Ok((make_dir_token(&which, None), 1))
}

fn classify_blocklist_site_add_arg(args: &Vec<String>, index: usize) -> (r: Result<(ParsedToken, usize), String>)
    requires
        index < args.len(),
    ensures
        ({
            let next = spec_next_value(strings_view(args@), index as int);
            step_view(r) == spec_required_value(
                next,
                spec_site_add_value(or_none(next)),
                "`--blocklist-site-add` requires hostnames input. Use `--blocklist-site-add=HOSTNAMES` or `--blocklist-site-add HOSTNAMES`."@,
            )
        }),
{
    if let Some(next) = next_value(args, index) {
        let value = require_nonempty_key_value(next.as_str(), "`--blocklist-site-add` requires hostnames input.")?;
        return Ok((ParsedToken::BlocklistSiteAdd(owned(value)), 2));
    }
    Err(invalid_usage("`--blocklist-site-add` requires hostnames input. Use `--blocklist-site-add=HOSTNAMES` or `--blocklist-site-add HOSTNAMES`."))
}

fn classify_blocklist_site_edit_arg(args: &Vec<String>, index: usize) -> (r: Result<(ParsedToken, usize), String>)
    requires
        index < args.len(),
    ensures
        ({
            let next = spec_next_value(strings_view(args@), index as int);
            step_view(r) == spec_required_value(
                next,
                spec_site_edit_value(or_none(next)),
                "`--blocklist-site-edit` requires `OLD=NEW`. Use `--blocklist-site-edit=OLD=NEW` or `--blocklist-site-edit OLD=NEW`."@,
            )
        }),
{
    if let Some(next) = next_value(args, index) {
        let value = parse_site_edit_value(next.as_str())?;
        return Ok((ParsedToken::BlocklistSiteEdit(value), 2));
    }
    Err(invalid_usage("`--blocklist-site-edit` requires `OLD=NEW`. Use `--blocklist-site-edit=OLD=NEW` or `--blocklist-site-edit OLD=NEW`."))
}

fn classify_blocklist_site_delete_arg(args: &Vec<String>, index: usize) -> (r: Result<(ParsedToken, usize), String>)
    requires
        index < args.len(),
    ensures
        ({
            let next = spec_next_value(strings_view(args@), index as int);
            step_view(r) == spec_required_value(
                next,
                spec_site_delete_value(or_none(next)),
                "`--blocklist-site-delete` requires a hostname. Use `--blocklist-site-delete=HOSTNAME` or `--blocklist-site-delete HOSTNAME`."@,
            )
        }),
{
    if let Some(next) = next_value(args, index) {
        let value = require_nonempty_key_value(next.as_str(), "`--blocklist-site-delete` requires a hostname.")?;
        return Ok((ParsedToken::BlocklistSiteDelete(owned(value)), 2));
    }
    Err(invalid_usage("`--blocklist-site-delete` requires a hostname. Use `--blocklist-site-delete=HOSTNAME` or `--blocklist-site-delete HOSTNAME`."))
}

/// Classifies options that read the argument after them.
pub fn classify_value_arg(args: &Vec<String>, index: usize) -> (r: Option<
    Result<(ParsedToken, usize), String>,
>)
    requires
        index < args.len(),
    ensures
        match r {
            Some(s) => spec_value_arg(strings_view(args@), index as int) == Some(step_view(s)),
            None => spec_value_arg(strings_view(args@), index as int) is None,
        },
{
    let arg = args[index].as_str();
    assert(arg@ == strings_view(args@)[index as int]);
    if str_eq(arg, "--task") {
        Some(classify_task_arg(args, index))
    } else if str_eq(arg, "--profile") {
        Some(classify_profile_arg(args, index))
    } else if str_eq(arg, "--theme") {
        Some(classify_theme_arg(args, index))
    } else if str_eq(arg, "--goal") {
        Some(classify_goal_arg(args, index))
    } else if str_eq(arg, "--goal-carry") {
        Some(classify_goal_carry_arg(args, index))
    } else if str_eq(arg, "--strict") {
        Some(classify_strict_arg(args, index))
    } else if str_eq(arg, "--schedule-set") {
        Some(classify_schedule_set_arg(args, index))
    } else if str_eq(arg, "--watch") {
        Some(classify_watch_arg(args, index))
    } else if str_eq(arg, "--backup") {
        Some(classify_optional_artifact_path_arg(args, index, DirOption::Backup, "`--backup` requires a target directory."))
    } else if str_eq(arg, "--restore") {
        Some(classify_optional_artifact_path_arg(args, index, DirOption::Restore, "`--restore` requires a source directory."))
    } else if str_eq(arg, "--export") {
        Some(classify_optional_artifact_path_arg(args, index, DirOption::Export, "`--export` requires a target directory."))
    } else if str_eq(arg, "--blocklist-site-add") {
        Some(classify_blocklist_site_add_arg(args, index))
    } else if str_eq(arg, "--blocklist-site-edit") {
        Some(classify_blocklist_site_edit_arg(args, index))
    } else if str_eq(arg, "--blocklist-site-delete") {
        Some(classify_blocklist_site_delete_arg(args, index))
    } else {
        None
    }
}

/// The rest of `a` after `p`, when `a` starts with `p`.
pub open spec fn strip(a: Seq<char>, p: Seq<char>) -> Option<Seq<char>> {
    if has_prefix(a, p) {
        Some(a.subrange(p.len() as int, a.len() as int))
    } else {
        None
    }
}

/// A token result lifted into a key-value result.
pub open spec fn lift(r: Result<TokenView, Seq<char>>) -> Result<Option<TokenView>, Seq<char>> {
    match r {
        Ok(t) => Ok(Some(t)),
        Err(e) => Err(e),
    }
}

/// The first classifier result that is not "no match".
pub open spec fn or_else(
    first: Result<Option<TokenView>, Seq<char>>,
    second: Result<Option<TokenView>, Seq<char>>,
) -> Result<Option<TokenView>, Seq<char>> {
    if first matches Ok(None) {
        second
    } else {
        first
    }
}

/// `--task=VALUE`.
pub open spec fn spec_kv_task(a: Seq<char>) -> Result<Option<TokenView>, Seq<char>> {
    match strip(a, "--task="@) {
        None => Ok(None),
        Some(raw) => match spec_require_nonempty(raw, "`--task=` requires a task label."@) {
            Err(e) => Err(e),
            Ok(v) => lift(Ok(TokenView::Task(v))),
        },
    }
}

fn parse_task_key_value_arg(arg: &str) -> (r: Result<Option<ParsedToken>, String>)
    ensures
        kv_view(r) == spec_kv_task(arg@),
{
    if let Some(value) = strip_prefix(arg, "--task=") {
        let value = require_nonempty_key_value(value, "`--task=` requires a task label.")?;
        return Ok(Some(ParsedToken::Task(owned(value))));
    }
    Ok(None)
}

/// `--profile=VALUE`.
pub open spec fn spec_kv_profile(a: Seq<char>) -> Result<Option<TokenView>, Seq<char>> {
    match strip(a, "--profile="@) {
        None => Ok(None),
        Some(raw) => match spec_require_nonempty(raw, "`--profile=` requires a profile value."@) {
            Err(e) => Err(e),
            Ok(v) => lift(spec_profile_value(v)),
        },
    }
}

fn parse_profile_key_value_arg(arg: &str) -> (r: Result<Option<ParsedToken>, String>)
    ensures
        kv_view(r) == spec_kv_profile(arg@),
{
    if let Some(value) = strip_prefix(arg, "--profile=") {
        let value = require_nonempty_key_value(value, "`--profile=` requires a profile value.")?;
        return Ok(Some(ParsedToken::Profile(Some(parse_profile_id(value)?))));
    }
    Ok(None)
}

/// `--theme=VALUE`.
pub open spec fn spec_kv_theme(a: Seq<char>) -> Result<Option<TokenView>, Seq<char>> {
    match strip(a, "--theme="@) {
        None => Ok(None),
        Some(raw) => match spec_require_nonempty(raw, "`--theme=` requires a theme value."@) {
            Err(e) => Err(e),
            Ok(v) => lift(spec_theme_value(v)),
        },
    }
}

fn parse_theme_key_value_arg(arg: &str) -> (r: Result<Option<ParsedToken>, String>)
    ensures
        kv_view(r) == spec_kv_theme(arg@),
{
    if let Some(value) = strip_prefix(arg, "--theme=") {
        let value = require_nonempty_key_value(value, "`--theme=` requires a theme value.")?;
        return Ok(Some(ParsedToken::Theme(Some(parse_theme_preset(value)?))));
    }
    Ok(None)
}

/// `--goal=VALUE`.
pub open spec fn spec_kv_goal(a: Seq<char>) -> Result<Option<TokenView>, Seq<char>> {
    match strip(a, "--goal="@) {
        None => Ok(None),
        Some(raw) => match spec_require_nonempty(raw, "`--goal=` requires values in `MINUTES,POMODOROS` format."@) {
            Err(e) => Err(e),
            Ok(v) => lift(spec_goal_value(v)),
        },
    }
}

fn parse_goal_key_value_arg(arg: &str) -> (r: Result<Option<ParsedToken>, String>)
    ensures
        kv_view(r) == spec_kv_goal(arg@),
{
    if let Some(value) = strip_prefix(arg, "--goal=") {
        let value = require_nonempty_key_value(value, "`--goal=` requires values in `MINUTES,POMODOROS` format.")?;
        return Ok(Some(ParsedToken::Goal(Some(parse_goal_value(value)?))));
    }
    Ok(None)
}

/// `--goal-carry=VALUE`.
pub open spec fn spec_kv_goal_carry(a: Seq<char>) -> Result<Option<TokenView>, Seq<char>> {
    match strip(a, "--goal-carry="@) {
        None => Ok(None),
        Some(raw) => match spec_require_nonempty(raw, "`--goal-carry=` requires `on` or `off`."@) {
            Err(e) => Err(e),
            Ok(v) => lift(spec_goal_carry_value(v)),
        },
    }
}

fn parse_goal_carry_key_value_arg(arg: &str) -> (r: Result<Option<ParsedToken>, String>)
    ensures
        kv_view(r) == spec_kv_goal_carry(arg@),
{
    if let Some(value) = strip_prefix(arg, "--goal-carry=") {
        let value = require_nonempty_key_value(value, "`--goal-carry=` requires `on` or `off`.")?;
        return Ok(Some(ParsedToken::GoalCarry(Some(parse_goal_carry_value(value)?))));
    }
    Ok(None)
}

/// `--strict=VALUE`.
pub open spec fn spec_kv_strict(a: Seq<char>) -> Result<Option<TokenView>, Seq<char>> {
    match strip(a, "--strict="@) {
        None => Ok(None),
        Some(raw) => match spec_require_nonempty(raw, "`--strict=` requires `on` or `off`."@) {
            Err(e) => Err(e),
            Ok(v) => lift(spec_strict_value(v)),
        },
    }
}

fn parse_strict_key_value_arg(arg: &str) -> (r: Result<Option<ParsedToken>, String>)
    ensures
        kv_view(r) == spec_kv_strict(arg@),
{
    if let Some(value) = strip_prefix(arg, "--strict=") {
        let value = require_nonempty_key_value(value, "`--strict=` requires `on` or `off`.")?;
        return Ok(Some(ParsedToken::Strict(Some(parse_strict_value(value)?))));
    }
    Ok(None)
}

/// `--schedule-set=VALUE`.
pub open spec fn spec_kv_schedule_set(a: Seq<char>) -> Result<Option<TokenView>, Seq<char>> {
    match strip(a, "--schedule-set="@) {
        None => Ok(None),
        Some(raw) => match spec_require_nonempty(raw, "`--schedule-set=` requires a JSON payload."@) {
            Err(e) => Err(e),
            Ok(v) => lift(spec_schedule_set_value(v)),
        },
    }
}

fn parse_schedule_set_key_value_arg(arg: &str) -> (r: Result<Option<ParsedToken>, String>)
    ensures
        kv_view(r) == spec_kv_schedule_set(arg@),
{
    if let Some(value) = strip_prefix(arg, "--schedule-set=") {
        let value = require_nonempty_key_value(value, "`--schedule-set=` requires a JSON payload.")?;
        return Ok(Some(ParsedToken::ScheduleSet(parse_schedule_value(value)?)));
    }
    Ok(None)
}

/// `--watch=VALUE`.
pub open spec fn spec_kv_watch(a: Seq<char>) -> Result<Option<TokenView>, Seq<char>> {
    match strip(a, "--watch="@) {
        None => Ok(None),
        Some(raw) => match spec_require_nonempty(raw, "`--watch=` requires a positive whole number of seconds."@) {
            Err(e) => Err(e),
            Ok(v) => lift(spec_watch_value(v)),
        },
    }
}

fn parse_watch_key_value_arg(arg: &str) -> (r: Result<Option<ParsedToken>, String>)
    ensures
        kv_view(r) == spec_kv_watch(arg@),
{
    if let Some(value) = strip_prefix(arg, "--watch=") {
        let value = require_nonempty_key_value(value, "`--watch=` requires a positive whole number of seconds.")?;
        return Ok(Some(ParsedToken::Watch(Some(parse_watch_interval_secs(value)?))));
    }
    Ok(None)
}

/// `--backup=VALUE`.
pub open spec fn spec_kv_backup(a: Seq<char>) -> Result<Option<TokenView>, Seq<char>> {
    match strip(a, "--backup="@) {
        None => Ok(None),
        Some(raw) => match spec_require_nonempty(raw, "`--backup=` requires a target directory."@) {
            Err(e) => Err(e),
            Ok(v) => lift(Ok(TokenView::Backup(Some(v)))),
        },
    }
}

fn parse_backup_key_value_arg(arg: &str) -> (r: Result<Option<ParsedToken>, String>)
    ensures
        kv_view(r) == spec_kv_backup(arg@),
{
    if let Some(value) = strip_prefix(arg, "--backup=") {
        let value = require_nonempty_key_value(value, "`--backup=` requires a target directory.")?;
        return Ok(Some(ParsedToken::Backup(Some(owned(value)))));
    }
    Ok(None)
}

/// `--restore=VALUE`.
pub open spec fn spec_kv_restore(a: Seq<char>) -> Result<Option<TokenView>, Seq<char>> {
    match strip(a, "--restore="@) {
        None => Ok(None),
        Some(raw) => match spec_require_nonempty(raw, "`--restore=` requires a source directory."@) {
            Err(e) => Err(e),
            Ok(v) => lift(Ok(TokenView::Restore(Some(v)))),
        },
    }
}

fn parse_restore_key_value_arg(arg: &str) -> (r: Result<Option<ParsedToken>, String>)
    ensures
        kv_view(r) == spec_kv_restore(arg@),
{
    if let Some(value) = strip_prefix(arg, "--restore=") {
        let value = require_nonempty_key_value(value, "`--restore=` requires a source directory.")?;
        return Ok(Some(ParsedToken::Restore(Some(owned(value)))));
    }
    Ok(None)
}

/// `--export=VALUE`.
pub open spec fn spec_kv_export(a: Seq<char>) -> Result<Option<TokenView>, Seq<char>> {
    match strip(a, "--export="@) {
        None => Ok(None),
        Some(raw) => match spec_require_nonempty(raw, "`--export=` requires a target directory."@) {
            Err(e) => Err(e),
            Ok(v) => lift(Ok(TokenView::Export(Some(v)))),
        },
    }
}

fn parse_export_key_value_arg(arg: &str) -> (r: Result<Option<ParsedToken>, String>)
    ensures
        kv_view(r) == spec_kv_export(arg@),
{
    if let Some(value) = strip_prefix(arg, "--export=") {
        let value = require_nonempty_key_value(value, "`--export=` requires a target directory.")?;
        return Ok(Some(ParsedToken::Export(Some(owned(value)))));
    }
    Ok(None)
}

/// `--blocklist-site-add=VALUE`.
pub open spec fn spec_kv_blocklist_site_add(a: Seq<char>) -> Result<Option<TokenView>, Seq<char>> {
    match strip(a, "--blocklist-site-add="@) {
        None => Ok(None),
        Some(raw) => match spec_require_nonempty(raw, "`--blocklist-site-add=` requires hostnames input."@) {
            Err(e) => Err(e),
            Ok(v) => lift(Ok(TokenView::BlocklistSiteAdd(v))),
        },
    }
}

fn parse_blocklist_site_add_key_value_arg(arg: &str) -> (r: Result<Option<ParsedToken>, String>)
    ensures
        kv_view(r) == spec_kv_blocklist_site_add(arg@),
{
    if let Some(value) = strip_prefix(arg, "--blocklist-site-add=") {
        let value = require_nonempty_key_value(value, "`--blocklist-site-add=` requires hostnames input.")?;
        return Ok(Some(ParsedToken::BlocklistSiteAdd(owned(value))));
    }
    Ok(None)
}

/// `--blocklist-site-edit=VALUE`.
pub open spec fn spec_kv_blocklist_site_edit(a: Seq<char>) -> Result<Option<TokenView>, Seq<char>> {
    match strip(a, "--blocklist-site-edit="@) {
        None => Ok(None),
        Some(v) => lift(spec_site_edit_value(v)),
    }
}

fn parse_blocklist_site_edit_key_value_arg(arg: &str) -> (r: Result<Option<ParsedToken>, String>)
    ensures
        kv_view(r) == spec_kv_blocklist_site_edit(arg@),
{
    if let Some(value) = strip_prefix(arg, "--blocklist-site-edit=") {
        return Ok(Some(ParsedToken::BlocklistSiteEdit(parse_site_edit_value(value)?)));
    }
    Ok(None)
}

/// `--blocklist-site-delete=VALUE`.
pub open spec fn spec_kv_blocklist_site_delete(a: Seq<char>) -> Result<Option<TokenView>, Seq<char>> {
    match strip(a, "--blocklist-site-delete="@) {
        None => Ok(None),
        Some(raw) => match spec_require_nonempty(raw, "`--blocklist-site-delete=` requires a hostname."@) {
            Err(e) => Err(e),
            Ok(v) => lift(Ok(TokenView::BlocklistSiteDelete(v))),
        },
    }
}

fn parse_blocklist_site_delete_key_value_arg(arg: &str) -> (r: Result<Option<ParsedToken>, String>)
    ensures
        kv_view(r) == spec_kv_blocklist_site_delete(arg@),
{
    if let Some(value) = strip_prefix(arg, "--blocklist-site-delete=") {
        let value = require_nonempty_key_value(value, "`--blocklist-site-delete=` requires a hostname.")?;
        return Ok(Some(ParsedToken::BlocklistSiteDelete(owned(value))));
    }
    Ok(None)
}

/// The token of a `--option=VALUE` argument, if `a` is one of the accepted options.
pub open spec fn spec_key_value(a: Seq<char>) -> Result<Option<TokenView>, Seq<char>> {
    or_else(spec_kv_task(a), or_else(spec_kv_profile(a), or_else(spec_kv_theme(a), or_else(spec_kv_goal(a), or_else(spec_kv_goal_carry(a), or_else(spec_kv_strict(a), or_else(spec_kv_schedule_set(a), or_else(spec_kv_watch(a), or_else(spec_kv_backup(a), or_else(spec_kv_restore(a), or_else(spec_kv_export(a), or_else(spec_kv_blocklist_site_add(a), or_else(spec_kv_blocklist_site_edit(a), or_else(spec_kv_blocklist_site_delete(a), Ok(None)))))))))))))))
}

/// Classifies `--option=VALUE` arguments.
pub fn classify_key_value_arg(arg: &str) -> (r: Result<Option<ParsedToken>, String>)
    ensures
        kv_view(r) == spec_key_value(arg@),
{
    let r = parse_task_key_value_arg(arg)?;
    if r.is_some() {
        return Ok(r);
    }
    let r = parse_profile_key_value_arg(arg)?;
    if r.is_some() {
        return Ok(r);
    }
    let r = parse_theme_key_value_arg(arg)?;
    if r.is_some() {
        return Ok(r);
    }
    let r = parse_goal_key_value_arg(arg)?;
    if r.is_some() {
        return Ok(r);
    }
    let r = parse_goal_carry_key_value_arg(arg)?;
    if r.is_some() {
        return Ok(r);
    }
    let r = parse_strict_key_value_arg(arg)?;
    if r.is_some() {
        return Ok(r);
    }
    let r = parse_schedule_set_key_value_arg(arg)?;
    if r.is_some() {
        return Ok(r);
    }
    let r = parse_watch_key_value_arg(arg)?;
    if r.is_some() {
        return Ok(r);
    }
    let r = parse_backup_key_value_arg(arg)?;
    if r.is_some() {
        return Ok(r);
    }
    let r = parse_restore_key_value_arg(arg)?;
    if r.is_some() {
        return Ok(r);
    }
    let r = parse_export_key_value_arg(arg)?;
    if r.is_some() {
        return Ok(r);
    }
    let r = parse_blocklist_site_add_key_value_arg(arg)?;
    if r.is_some() {
        return Ok(r);
    }
    let r = parse_blocklist_site_edit_key_value_arg(arg)?;
    if r.is_some() {
        return Ok(r);
    }
    let r = parse_blocklist_site_delete_key_value_arg(arg)?;
    if r.is_some() {
        return Ok(r);
    }
    Ok(None)
}

/// The token of `args[i]` and how many arguments it uses.
pub open spec fn spec_classify_arg(args: Seq<Seq<char>>, i: int) -> Result<(TokenView, nat), Seq<char>> {
    let a = args[i];
    match spec_simple_flag(a) {
        Some(t) => Ok((t, 1)),
        None => match spec_value_arg(args, i) {
            Some(r) => r,
            None => match spec_key_value(a) {
                Err(e) => Err(e),
                Ok(Some(t)) => Ok((t, 1)),
                Ok(None) => if has_prefix(a, "-"@) {
                    Ok((TokenView::UnknownOption(a), 1))
                } else {
                    Ok((TokenView::Positional(a), 1))
                },
            },
        },
    }
}

/// A value option uses its own argument alone, or the next one too when
/// that one is there and does not start with `-`: a dash-led argument is
/// never taken as a value.
pub proof fn lemma_value_arg_never_takes_dash(args: Seq<Seq<char>>, i: int)
    requires
        0 <= i < args.len(),
    ensures
        spec_value_arg(args, i) matches Some(Ok((t, n))) ==> (n == 1 || (n == 2 && i + 1 < args.len() && !has_prefix(
            args[i + 1],
            "-"@,
        ))),
        (i + 1 >= args.len() || has_prefix(args[i + 1], "-"@)) ==> !(spec_value_arg(args, i) matches Some(Ok((t, n)))
            && n == 2),
{
}

/// The options that take a value, inline after `=` or as the next argument.
pub open spec fn is_value_option(a: Seq<char>) -> bool {
    a == "--task"@ || a == "--profile"@ || a == "--theme"@ || a == "--goal"@ || a == "--goal-carry"@ || a
        == "--strict"@ || a == "--schedule-set"@ || a == "--watch"@ || a == "--backup"@ || a == "--restore"@ || a
        == "--export"@ || a == "--blocklist-site-add"@ || a == "--blocklist-site-edit"@ || a
        == "--blocklist-site-delete"@
}

/// Any argument, once classified, uses itself alone, or itself and the next
/// argument; it takes the next one only when it is a value option and that
/// argument is there and does not start with `-`. The value-option reading
/// applies exactly to the value options.
pub proof fn lemma_classify_arg_consumption(args: Seq<Seq<char>>, i: int)
    requires
        0 <= i < args.len(),
    ensures
        spec_classify_arg(args, i) matches Ok((t, n)) ==> (n == 1 || (n == 2 && i + 1 < args.len() && !has_prefix(
            args[i + 1],
            "-"@,
        ) && is_value_option(args[i]))),
        spec_value_arg(args, i) is None <==> !is_value_option(args[i]),
{
    lemma_value_arg_never_takes_dash(args, i);
}

/// Every accepted classification uses one argument, or two when a value follows.
pub proof fn lemma_classify_arg_width(args: Seq<Seq<char>>, i: int)
    requires
        0 <= i < args.len(),
    ensures
        spec_classify_arg(args, i) matches Ok((t, n)) ==> (n == 1 || (n == 2 && i + 1 < args.len())),
{
}

/// Classifies one argument.
pub fn classify_arg(args: &Vec<String>, index: usize) -> (r: Result<(ParsedToken, usize), String>)
    requires
        index < args.len(),
    ensures
        step_view(r) == spec_classify_arg(strings_view(args@), index as int),
{
    let arg = args[index].as_str();
    assert(arg@ == strings_view(args@)[index as int]);
    if let Some(token) = classify_simple_flag(arg) {
        return Ok((token, 1));
    }
    if let Some(result) = classify_value_arg(args, index) {
        return result;
    }
    if let Some(token) = classify_key_value_arg(arg)? {
        return Ok((token, 1));
    }
    if starts_with(arg, "-") {
        return Ok((ParsedToken::UnknownOption(owned(arg)), 1));
    }
    Ok((ParsedToken::Positional(owned(arg)), 1))
}

/// The tokens of `args[i..]`, or the first classification error.
pub open spec fn spec_classify_from(args: Seq<Seq<char>>, i: int) -> Result<Seq<TokenView>, Seq<char>>
    decreases args.len() - i,
{
    if i < 0 || i >= args.len() {
        Ok(Seq::empty())
    } else {
        match spec_classify_arg(args, i) {
            Err(e) => Err(e),
            Ok((t, n)) => if n >= 1 {
                match spec_classify_from(args, i + n) {
                    Err(e) => Err(e),
                    Ok(rest) => Ok(seq![t] + rest),
                }
            } else {
                Ok(seq![t])
            },
        }
    }
}

/// The tokens of all arguments, or the first classification error.
pub open spec fn spec_classify_args(args: Seq<Seq<char>>) -> Result<Seq<TokenView>, Seq<char>> {
    spec_classify_from(args, 0)
}

pub open spec fn tokens_result_view(r: Result<Vec<ParsedToken>, String>) -> Result<Seq<TokenView>, Seq<char>> {
    match r {
        Ok(ts) => Ok(tokens_view(ts@)),
        Err(e) => Err(e@),
    }
}

/// Classifies every argument in order.
pub fn classify_args(args: &Vec<String>) -> (r: Result<Vec<ParsedToken>, String>)
    ensures
        tokens_result_view(r) == spec_classify_args(strings_view(args@)),
{
    let ghost all = strings_view(args@);
    let mut tokens: Vec<ParsedToken> = Vec::new();
    let mut index: usize = 0;
    assert(tokens_view(tokens@) =~= Seq::<TokenView>::empty());
    while index < args.len()
        invariant
            index <= args.len(),
            all == strings_view(args@),
            spec_classify_from(all, 0) == match spec_classify_from(all, index as int) {
                Err(e) => Err(e),
                Ok(rest) => Ok(tokens_view(tokens@) + rest),
            },
        decreases args.len() - index,
    {
        proof {
            lemma_classify_arg_width(all, index as int);
        }
        let (token, consumed) = classify_arg(args, index)?;
        let ghost before = tokens@;
        proof {
            if let Ok(rest) = spec_classify_from(all, index + consumed) {
                assert(tokens_view(before) + (seq![token@] + rest) =~= tokens_view(before.push(token)) + rest);
            }
        }
        tokens.push(token);
        index = index + consumed;
    }
    assert(tokens_view(tokens@) + Seq::<TokenView>::empty() =~= tokens_view(tokens@));
    Ok(tokens)
}

} // verus!
