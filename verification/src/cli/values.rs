//! Parsers of the values that command-line options carry.
use crate::cli::{SiteEditValue, USAGE_TEXT};
use crate::config::{
    parse_schedule_time_minutes, spec_all_cards, spec_card_from_config, spec_profile_for_token,
    spec_profile_token, spec_theme_token, spec_time_minutes, strings_view, theme_token,
    canonical_profile_id_token, profile_id_for_token, windows_view, DailyGoalConfig,
    HistoryKpiCardId, ProfileId, RecurringFocusWindowConfig, RecurringScheduleConfig,
    ThemePreset, WindowView,
};
use crate::text::{
    concat, concat3, concat5, decimal, is_blank, is_blank_str, lower, owned, parse_unsigned,
    parse_unsigned_str, split_all, split_all_char, split_once, split_once_char, str_eq, trim,
    trim_str, trimmed_lower, u64_to_string,
};
use vstd::prelude::*;

verus! {

/// A usage error: the message, a blank line and the usage summary.
pub open spec fn spec_invalid_usage(message: Seq<char>) -> Seq<char> {
    message + "\n\n"@ + USAGE_TEXT@
}

/// A usage error: the message, a blank line and the usage summary.
pub fn invalid_usage(message: &str) -> (r: String)
    ensures
        r@ == spec_invalid_usage(message@),
{
    concat3(message, "\n\n", USAGE_TEXT)
}

/// `value` itself, unless it is blank.
pub open spec fn spec_require_nonempty(value: Seq<char>, message: Seq<char>) -> Result<
    Seq<char>,
    Seq<char>,
> {
    if is_blank(value) {
        Err(spec_invalid_usage(message))
    } else {
        Ok(value)
    }
}

/// Rejects a blank option value with `message`; other values pass unchanged.
pub fn require_nonempty_key_value<'a>(value: &'a str, message: &str) -> (r: Result<&'a str, String>)
    ensures
        r is Ok <==> spec_require_nonempty(value@, message@) is Ok,
        r matches Ok(v) ==> v@ == value@,
        r matches Err(e) ==> spec_require_nonempty(value@, message@) == Err::<Seq<char>, Seq<char>>(
            e@,
        ),
{
    if is_blank_str(value) {
        return Err(invalid_usage(message));
    }
    Ok(value)
}

pub open spec fn spec_parse_profile_id(value: Seq<char>) -> Result<ProfileId, Seq<char>> {
    match spec_profile_token(value) {
        Some(token) => Ok(spec_profile_for_token(token)),
        None => Err(
            spec_invalid_usage(
                "Invalid profile `"@ + value + "`. Use `basic`, `standard`, or `advanced`."@,
            ),
        ),
    }
}

/// A timer profile name (`basic`, `standard`, `advanced` and their aliases).
pub fn parse_profile_id(value: &str) -> (r: Result<ProfileId, String>)
    ensures
        r matches Ok(p) ==> spec_parse_profile_id(value@) == Ok::<ProfileId, Seq<char>>(p),
        r matches Err(e) ==> spec_parse_profile_id(value@) == Err::<ProfileId, Seq<char>>(e@),
{
    match canonical_profile_id_token(value) {
        Some(token) => Ok(profile_id_for_token(token)),
        None => Err(
            invalid_usage(
                concat3(
                    "Invalid profile `",
                    value,
                    "`. Use `basic`, `standard`, or `advanced`.",
                ).as_str(),
            ),
        ),
    }
}

pub open spec fn spec_parse_theme_preset(value: Seq<char>) -> Result<ThemePreset, Seq<char>> {
    match spec_theme_token(value) {
        Some(theme) => Ok(theme),
        None => Err(
            spec_invalid_usage(
                "Invalid theme preset `"@ + value
                    + "`. Use `classic`, `high-contrast`, or `deuteranopia-friendly`."@,
            ),
        ),
    }
}

/// A theme name (`classic`, `high-contrast`, `deuteranopia-friendly` and aliases).
pub fn parse_theme_preset(value: &str) -> (r: Result<ThemePreset, String>)
    ensures
        r matches Ok(t) ==> spec_parse_theme_preset(value@) == Ok::<ThemePreset, Seq<char>>(t),
        r matches Err(e) ==> spec_parse_theme_preset(value@) == Err::<ThemePreset, Seq<char>>(
            e@,
        ),
{
    match theme_token(value) {
        Some(theme) => Ok(theme),
        None => Err(
            invalid_usage(
                concat3(
                    "Invalid theme preset `",
                    value,
                    "`. Use `classic`, `high-contrast`, or `deuteranopia-friendly`.",
                ).as_str(),
            ),
        ),
    }
}

/// `MINUTES,POMODOROS`: minutes up to `u64::MAX`, pomodoros up to `u32::MAX`.
pub open spec fn spec_parse_goal_components(value: Seq<char>, flag: Seq<char>) -> Result<
    (u64, u32),
    Seq<char>,
> {
    match split_once(trim(value), ',') {
        None => Err(
            spec_invalid_usage(
                "Invalid goal `"@ + value + "`. Use `"@ + flag + "=MINUTES,POMODOROS` (for example `"@
                    + flag + "=120,4`)."@,
            ),
        ),
        Some((m, p)) => match parse_unsigned(trim(m), u64::MAX as int) {
            None => Err(
                spec_invalid_usage(
                    "Invalid goal minutes in `"@ + value + "` for `"@ + flag
                        + "`. Use a non-negative integer."@,
                ),
            ),
            Some(minutes) => match parse_unsigned(trim(p), u32::MAX as int) {
                None => Err(
                    spec_invalid_usage(
                        "Invalid goal pomodoros in `"@ + value + "` for `"@ + flag
                            + "`. Use a non-negative integer."@,
                    ),
                ),
                Some(pomodoros) => Ok((minutes as u64, pomodoros as u32)),
            },
        },
    }
}

/// Parses `MINUTES,POMODOROS` for the option `flag`.
pub fn parse_goal_components(value: &str, flag: &str) -> (r: Result<(u64, u32), String>)
    ensures
        r matches Ok(g) ==> spec_parse_goal_components(value@, flag@) == Ok::<
            (u64, u32),
            Seq<char>,
        >(g),
        r matches Err(e) ==> spec_parse_goal_components(value@, flag@) == Err::<
            (u64, u32),
            Seq<char>,
        >(e@),
{
    let trimmed = trim_str(value);
    let (minutes_raw, pomodoros_raw) = match split_once_char(trimmed, ',') {
        Some(pair) => pair,
        None => {
            let mut m = concat3("Invalid goal `", value, "`. Use `");
            m.append(flag);
            m.append("=MINUTES,POMODOROS` (for example `");
            m.append(flag);
            m.append("=120,4`).");
            return Err(invalid_usage(m.as_str()));
        },
    };
    let minutes = match parse_unsigned_str(trim_str(minutes_raw), u64::MAX) {
        Some(v) => v,
        None => {
            let m = concat5(
                "Invalid goal minutes in `",
                value,
                "` for `",
                flag,
                "`. Use a non-negative integer.",
            );
            return Err(invalid_usage(m.as_str()));
        },
    };
    let pomodoros = match parse_unsigned_str(trim_str(pomodoros_raw), 4294967295) {
        Some(v) => v,
        None => {
            let m = concat5(
                "Invalid goal pomodoros in `",
                value,
                "` for `",
                flag,
                "`. Use a non-negative integer.",
            );
            return Err(invalid_usage(m.as_str()));
        },
    };
    Ok((minutes, pomodoros as u32))
}

pub open spec fn spec_parse_goal_value(value: Seq<char>) -> Result<DailyGoalConfig, Seq<char>> {
    match spec_parse_goal_components(value, "--goal"@) {
        Ok((minutes, pomodoros)) => Ok(DailyGoalConfig { minutes, pomodoros }),
        Err(e) => Err(e),
    }
}

/// The daily goal of `--goal`.
pub fn parse_goal_value(value: &str) -> (r: Result<DailyGoalConfig, String>)
    ensures
        r matches Ok(g) ==> spec_parse_goal_value(value@) == Ok::<DailyGoalConfig, Seq<char>>(g),
        r matches Err(e) ==> spec_parse_goal_value(value@) == Err::<DailyGoalConfig, Seq<char>>(
            e@,
        ),
{
    let (minutes, pomodoros) = parse_goal_components(value, "--goal")?;
    Ok(DailyGoalConfig { minutes, pomodoros })
}

/// `on` or `off`, case-insensitively and ignoring surrounding white space.
pub open spec fn spec_on_off(value: Seq<char>) -> Option<bool> {
    let k = lower(trim(value));
    if k == "on"@ {
        Some(true)
    } else if k == "off"@ {
        Some(false)
    } else {
        None
    }
}

fn on_off(value: &str) -> (r: Option<bool>)
    ensures
        r == spec_on_off(value@),
{
    let key = trimmed_lower(value);
    if str_eq(key.as_str(), "on") {
        Some(true)
    } else if str_eq(key.as_str(), "off") {
        Some(false)
    } else {
        None
    }
}

pub open spec fn spec_parse_strict_value(value: Seq<char>) -> Result<bool, Seq<char>> {
    match spec_on_off(value) {
        Some(b) => Ok(b),
        None => Err(
            spec_invalid_usage(
                "Invalid strict mode `"@ + value + "`. Use `--strict=on` or `--strict=off`."@,
            ),
        ),
    }
}

/// The strict-mode switch of `--strict`.
pub fn parse_strict_value(value: &str) -> (r: Result<bool, String>)
    ensures
        r matches Ok(b) ==> spec_parse_strict_value(value@) == Ok::<bool, Seq<char>>(b),
        r matches Err(e) ==> spec_parse_strict_value(value@) == Err::<bool, Seq<char>>(e@),
{
    match on_off(value) {
        Some(b) => Ok(b),
        None => Err(
            invalid_usage(
                concat3(
                    "Invalid strict mode `",
                    value,
                    "`. Use `--strict=on` or `--strict=off`.",
                ).as_str(),
            ),
        ),
    }
}

pub open spec fn spec_parse_goal_carry_value(value: Seq<char>) -> Result<bool, Seq<char>> {
    match spec_on_off(value) {
        Some(b) => Ok(b),
        None => Err(
            spec_invalid_usage("Invalid goal carry-over `"@ + value + "`. Use `on` or `off`."@),
        ),
    }
}

/// The carry-over switch of `--goal-carry`.
pub fn parse_goal_carry_value(value: &str) -> (r: Result<bool, String>)
    ensures
        r matches Ok(b) ==> spec_parse_goal_carry_value(value@) == Ok::<bool, Seq<char>>(b),
        r matches Err(e) ==> spec_parse_goal_carry_value(value@) == Err::<bool, Seq<char>>(e@),
{
    match on_off(value) {
        Some(b) => Ok(b),
        None => Err(
            invalid_usage(
                concat3("Invalid goal carry-over `", value, "`. Use `on` or `off`.").as_str(),
            ),
        ),
    }
}

/// `OLD=NEW`, split at the first `=`, both halves trimmed and non-empty.
pub open spec fn spec_parse_site_edit_value(value: Seq<char>) -> Result<
    (Seq<char>, Seq<char>),
    Seq<char>,
> {
    match split_once(trim(value), '=') {
        None => Err(
            spec_invalid_usage(
                "Invalid site edit `"@ + value
                    + "`. Use `OLD=NEW` (for example `--blocklist-site-edit=old.com=new.com`)."@,
            ),
        ),
        Some((p, n)) => {
            if trim(p).len() == 0 || trim(n).len() == 0 {
                Err(
                    spec_invalid_usage(
                        "Site edit values must include both `OLD` and `NEW` hostnames."@,
                    ),
                )
            } else {
                Ok((trim(p), trim(n)))
            }
        },
    }
}

/// The `OLD=NEW` value of a site edit.
pub fn parse_site_edit_value(value: &str) -> (r: Result<SiteEditValue, String>)
    ensures
        r matches Ok(v) ==> spec_parse_site_edit_value(value@) == Ok::<
            (Seq<char>, Seq<char>),
            Seq<char>,
        >((v.previous@, v.next@)),
        r matches Err(e) ==> spec_parse_site_edit_value(value@) == Err::<
            (Seq<char>, Seq<char>),
            Seq<char>,
        >(e@),
{
    let trimmed = trim_str(value);
    let (previous, next) = match split_once_char(trimmed, '=') {
        Some(pair) => pair,
        None => {
            return Err(
                invalid_usage(
                    concat3(
                        "Invalid site edit `",
                        value,
                        "`. Use `OLD=NEW` (for example `--blocklist-site-edit=old.com=new.com`).",
                    ).as_str(),
                ),
            );
        },
    };
    let previous = trim_str(previous);
    let next = trim_str(next);
    if previous.unicode_len() == 0 || next.unicode_len() == 0 {
        return Err(invalid_usage("Site edit values must include both `OLD` and `NEW` hostnames."));
    }
    Ok(SiteEditValue { previous: owned(previous), next: owned(next) })
}

pub open spec fn watch_message() -> Seq<char> {
    "`--watch` requires a positive whole number of seconds."@
}

pub open spec fn spec_parse_watch_interval_secs(value: Seq<char>) -> Result<u64, Seq<char>> {
    match parse_unsigned(trim(value), u64::MAX as int) {
        Some(secs) => if secs == 0 {
            Err(spec_invalid_usage(watch_message()))
        } else {
            Ok(secs as u64)
        },
        None => Err(spec_invalid_usage(watch_message())),
    }
}

/// The positive seconds of `--watch`.
pub fn parse_watch_interval_secs(value: &str) -> (r: Result<u64, String>)
    ensures
        r matches Ok(s) ==> spec_parse_watch_interval_secs(value@) == Ok::<u64, Seq<char>>(s),
        r matches Err(e) ==> spec_parse_watch_interval_secs(value@) == Err::<u64, Seq<char>>(e@),
{
    let secs = match parse_unsigned_str(trim_str(value), u64::MAX) {
        Some(v) => v,
        None => return Err(invalid_usage("`--watch` requires a positive whole number of seconds.")),
    };
    if secs == 0 {
        return Err(invalid_usage("`--watch` requires a positive whole number of seconds."));
    }
    Ok(secs)
}

/// Weekday names that schedules accept.
pub open spec fn spec_is_schedule_weekday(value: Seq<char>) -> bool {
    let k = lower(trim(value));
    ||| k == "mon"@
    ||| k == "monday"@
    ||| k == "tue"@
    ||| k == "tues"@
    ||| k == "tuesday"@
    ||| k == "wed"@
    ||| k == "wednesday"@
    ||| k == "thu"@
    ||| k == "thurs"@
    ||| k == "thursday"@
    ||| k == "fri"@
    ||| k == "friday"@
    ||| k == "sat"@
    ||| k == "saturday"@
    ||| k == "sun"@
    ||| k == "sunday"@
}

/// Whether a schedule weekday token is recognized.
pub fn is_valid_schedule_weekday(value: &str) -> (r: bool)
    ensures
        r == spec_is_schedule_weekday(value@),
{
    let key = trimmed_lower(value);
    let k = key.as_str();
    str_eq(k, "mon") || str_eq(k, "monday") || str_eq(k, "tue") || str_eq(k, "tues") || str_eq(
        k,
        "tuesday",
    ) || str_eq(k, "wed") || str_eq(k, "wednesday") || str_eq(k, "thu") || str_eq(k, "thurs")
        || str_eq(k, "thursday") || str_eq(k, "fri") || str_eq(k, "friday") || str_eq(k, "sat")
        || str_eq(k, "saturday") || str_eq(k, "sun") || str_eq(k, "sunday")
}

/// Minutes after midnight of a trimmed `HH:MM` value.
pub fn parse_schedule_minutes(value: &str) -> (r: Option<u16>)
    ensures
        r matches Some(m) ==> spec_time_minutes(trim(value@)) == Some(m as int),
        r is None ==> spec_time_minutes(trim(value@)) is None,
{
    parse_schedule_time_minutes(trim_str(value))
}

pub open spec fn window_prefix(index: nat) -> Seq<char> {
    "Invalid schedule window at index "@ + decimal(index)
}

/// The first weekday of `days` that is not recognized.
pub open spec fn spec_first_bad_day(days: Seq<Seq<char>>) -> Option<Seq<char>>
    decreases days.len(),
{
    if days.len() == 0 {
        None
    } else if !spec_is_schedule_weekday(days[0]) {
        Some(days[0])
    } else {
        spec_first_bad_day(days.drop_first())
    }
}

/// Why a recurring window at `index` is rejected, if it is.
pub open spec fn spec_window_error(w: WindowView, index: nat) -> Option<Seq<char>> {
    if w.days.len() == 0 {
        Some(
            spec_invalid_usage(
                window_prefix(index) + ": `days` must include at least one weekday."@,
            ),
        )
    } else if spec_first_bad_day(w.days) is Some {
        Some(
            spec_invalid_usage(
                window_prefix(index) + ": unknown weekday `"@ + spec_first_bad_day(w.days).unwrap()
                    + "`."@,
            ),
        )
    } else if spec_time_minutes(trim(w.start)) is None {
        Some(
            spec_invalid_usage(
                window_prefix(index) + ": start `"@ + w.start
                    + "` must be HH:MM in 24-hour format."@,
            ),
        )
    } else if spec_time_minutes(trim(w.end)) is None {
        Some(
            spec_invalid_usage(
                window_prefix(index) + ": end `"@ + w.end + "` must be HH:MM in 24-hour format."@,
            ),
        )
    } else if spec_time_minutes(trim(w.start)).unwrap() >= spec_time_minutes(
        trim(w.end),
    ).unwrap() {
        Some(spec_invalid_usage(window_prefix(index) + ": start must be earlier than end."@))
    } else {
        None
    }
}

fn first_bad_day(days: &Vec<String>) -> (r: Option<String>)
    ensures
        r matches Some(d) ==> spec_first_bad_day(strings_view(days@)) == Some(d@),
        r is None ==> spec_first_bad_day(strings_view(days@)) is None,
{
    let ghost all = strings_view(days@);
    let mut i: usize = 0;
    assert(all.subrange(0, all.len() as int) =~= all);
    while i < days.len()
        invariant
            i <= days.len(),
            all == strings_view(days@),
            spec_first_bad_day(all) == spec_first_bad_day(all.subrange(i as int, all.len() as int)),
        decreases days.len() - i,
    {
        let ghost rest = all.subrange(i as int, all.len() as int);
        assert(rest[0] == days@[i as int]@);
        assert(rest.drop_first() =~= all.subrange(i + 1, all.len() as int));
        if !is_valid_schedule_weekday(days[i].as_str()) {
            return Some(days[i].clone());
        }
        i = i + 1;
    }
    assert(all.subrange(i as int, all.len() as int) =~= Seq::<Seq<char>>::empty());
    None
}

fn window_error_message(index: usize, detail: &str) -> (r: String)
    ensures
        r@ == spec_invalid_usage(window_prefix(index as nat) + detail@),
{
    let mut m = owned("Invalid schedule window at index ");
    let n = u64_to_string(index as u64);
    m.append(n.as_str());
    m.append(detail);
    invalid_usage(m.as_str())
}

/// Checks one recurring window of a `--schedule-set` payload.
pub fn validate_schedule_window(window: &RecurringFocusWindowConfig, index: usize) -> (r: Result<
    (),
    String,
>)
    ensures
        r is Ok <==> spec_window_error(window@, index as nat) is None,
        r matches Err(e) ==> spec_window_error(window@, index as nat) == Some(e@),
{
    if window.days.len() == 0 {
        assert(strings_view(window.days@).len() == 0);
        return Err(window_error_message(index, ": `days` must include at least one weekday."));
    }
    match first_bad_day(&window.days) {
        Some(day) => {
            let detail = concat3(": unknown weekday `", day.as_str(), "`.");
            return Err(window_error_message(index, detail.as_str()));
        },
        None => {},
    }
    let start = match parse_schedule_minutes(window.start.as_str()) {
        Some(m) => m,
        None => {
            let detail = concat3(
                ": start `",
                window.start.as_str(),
                "` must be HH:MM in 24-hour format.",
            );
            return Err(window_error_message(index, detail.as_str()));
        },
    };
    let end = match parse_schedule_minutes(window.end.as_str()) {
        Some(m) => m,
        None => {
            let detail = concat3(
                ": end `",
                window.end.as_str(),
                "` must be HH:MM in 24-hour format.",
            );
            return Err(window_error_message(index, detail.as_str()));
        },
    };
    if start >= end {
        return Err(window_error_message(index, ": start must be earlier than end."));
    }
    Ok(())
}

/// The first error among the windows from `index` on.
pub open spec fn spec_schedule_error_from(ws: Seq<WindowView>, index: nat) -> Option<Seq<char>>
    decreases ws.len() - index,
{
    if index >= ws.len() {
        None
    } else {
        match spec_window_error(ws[index as int], index) {
            Some(e) => Some(e),
            None => spec_schedule_error_from(ws, index + 1),
        }
    }
}

/// Checks every window of a schedule, reporting the first rejected one.
pub fn validate_schedule_value(schedule: &RecurringScheduleConfig) -> (r: Result<(), String>)
    ensures
        r is Ok <==> spec_schedule_error_from(schedule@, 0) is None,
        r matches Err(e) ==> spec_schedule_error_from(schedule@, 0) == Some(e@),
{
    let mut i: usize = 0;
    while i < schedule.windows.len()
        invariant
            i <= schedule.windows.len(),
            spec_schedule_error_from(schedule@, 0) == spec_schedule_error_from(
                schedule@,
                i as nat,
            ),
        decreases schedule.windows.len() - i,
    {
        assert(schedule@[i as int] == schedule.windows@[i as int]@);
        validate_schedule_window(&schedule.windows[i], i)?;
        i = i + 1;
    }
    Ok(())
}

pub open spec fn spec_parse_card(value: Seq<char>) -> Result<HistoryKpiCardId, Seq<char>> {
    let card = spec_card_from_config(value);
    if card == HistoryKpiCardId::Unknown {
        Err(spec_invalid_usage("Invalid history dashboard card `"@ + value + "`."@))
    } else {
        Ok(card)
    }
}

/// A history dashboard card identifier.
pub fn parse_history_kpi_card_id(value: &str) -> (r: Result<HistoryKpiCardId, String>)
    ensures
        r matches Ok(c) ==> spec_parse_card(value@) == Ok::<HistoryKpiCardId, Seq<char>>(c),
        r matches Err(e) ==> spec_parse_card(value@) == Err::<HistoryKpiCardId, Seq<char>>(e@),
{
    let card = HistoryKpiCardId::from_config_value(value);
    match card {
        HistoryKpiCardId::Unknown => Err(
            invalid_usage(concat3("Invalid history dashboard card `", value, "`.").as_str()),
        ),
        _ => Ok(card),
    }
}

/// Cards of a comma-separated list in order, stopping at the first unknown or repeated one.
pub open spec fn spec_order_prefix(items: Seq<Seq<char>>) -> Result<
    Seq<HistoryKpiCardId>,
    Seq<char>,
>
    decreases items.len(),
{
    if items.len() == 0 {
        Ok(Seq::empty())
    } else {
        match spec_order_prefix(items.drop_last()) {
            Err(e) => Err(e),
            Ok(prev) => match spec_parse_card(items.last()) {
                Err(e) => Err(e),
                Ok(card) => if prev.contains(card) {
                    Err(
                        spec_invalid_usage(
                            "Duplicate history dashboard card `"@ + card.spec_id() + "`."@,
                        ),
                    )
                } else {
                    Ok(prev.push(card))
                },
            },
        }
    }
}

/// A complete ordering of the dashboard cards: every card exactly once.
pub open spec fn spec_parse_order(value: Seq<char>) -> Result<Seq<HistoryKpiCardId>, Seq<char>> {
    match spec_order_prefix(split_all(value, ',')) {
        Err(e) => Err(e),
        Ok(cards) => if cards.len() == spec_all_cards().len() {
            Ok(cards)
        } else {
            Err(
                spec_invalid_usage(
                    "History dashboard order must include every KPI card exactly once."@,
                ),
            )
        },
    }
}

/// Once a prefix of the list is rejected, the whole list is rejected with the same error.
proof fn lemma_order_prefix_error_persists(items: Seq<Seq<char>>, k: int)
    requires
        0 <= k <= items.len(),
        spec_order_prefix(items.subrange(0, k)) is Err,
    ensures
        spec_order_prefix(items) == spec_order_prefix(items.subrange(0, k)),
    decreases items.len() - k,
{
    if k == items.len() {
        assert(items.subrange(0, k) =~= items);
    } else {
        assert(items.subrange(0, k + 1).drop_last() =~= items.subrange(0, k));
        lemma_order_prefix_error_persists(items, k + 1);
    }
}

fn contains_card(cards: &Vec<HistoryKpiCardId>, card: HistoryKpiCardId) -> (r: bool)
    ensures
        r == cards@.contains(card),
{
    let mut i: usize = 0;
    while i < cards.len()
        invariant
            i <= cards.len(),
            forall|k: int| 0 <= k < i ==> cards@[k] != card,
        decreases cards.len() - i,
    {
        if cards[i] == card {
            return true;
        }
        i = i + 1;
    }
    false
}

/// A comma-separated ordering of all dashboard cards.
pub fn parse_history_dashboard_order_value(value: &str) -> (r: Result<
    Vec<HistoryKpiCardId>,
    String,
>)
    ensures
        r matches Ok(c) ==> spec_parse_order(value@) == Ok::<Seq<HistoryKpiCardId>, Seq<char>>(
            c@,
        ),
        r matches Err(e) ==> spec_parse_order(value@) == Err::<Seq<HistoryKpiCardId>, Seq<char>>(
            e@,
        ),
{
    let items = split_all_char(value, ',');
    let ghost all = items@.map_values(|p: String| p@);
    let mut cards: Vec<HistoryKpiCardId> = Vec::new();
    let mut i: usize = 0;
    while i < items.len()
        invariant
            i <= items.len(),
            all == items@.map_values(|p: String| p@),
            all == split_all(value@, ','),
            spec_order_prefix(all.subrange(0, i as int)) == Ok::<
                Seq<HistoryKpiCardId>,
                Seq<char>,
            >(cards@),
        decreases items.len() - i,
    {
        assert(all.subrange(0, i + 1).drop_last() =~= all.subrange(0, i as int));
        assert(all.subrange(0, i + 1).last() == items@[i as int]@);
        let card = match parse_history_kpi_card_id(items[i].as_str()) {
            Ok(c) => c,
            Err(e) => {
                proof {
                    lemma_order_prefix_error_persists(all, i + 1);
                }
                return Err(e);
            },
        };
        if contains_card(&cards, card) {
            let m = concat3("Duplicate history dashboard card `", card.id(), "`.");
            proof {
                lemma_order_prefix_error_persists(all, i + 1);
            }
            return Err(invalid_usage(m.as_str()));
        }
        cards.push(card);
        i = i + 1;
    }
    assert(all.subrange(0, items.len() as int) =~= all);
    if cards.len() != 9 {
        return Err(invalid_usage("History dashboard order must include every KPI card exactly once."));
    }
    Ok(cards)
}

} // verus!
