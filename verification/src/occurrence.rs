//! When recurring focus windows happen in local time: the window that is
//! active now, and the next one to start. The calendar and the local time
//! zone are `chrono`'s; which window is chosen from what they report is
//! decided and proved here.
use chrono::{Datelike, TimeZone};
use crate::schedule::{compiled_view, within_day, CompiledView, RecurringWindow, Weekday};
use crate::text::{concat, u64_to_string};
use vstd::prelude::*;

verus! {

/// A calendar date as plain numbers: year, month (1 to 12), day (1 to 31).
#[derive(Debug, Clone, Copy, PartialEq, Eq, Structural)]
pub struct CivilDate {
    pub year: i32,
    pub month: u32,
    pub day: u32,
}

/// A leap year of the proleptic Gregorian calendar.
pub open spec fn is_leap_year(y: int) -> bool {
    (y % 4 == 0 && y % 100 != 0) || y % 400 == 0
}

/// The number of days of month `m` of year `y`.
pub open spec fn days_in_month(y: int, m: int) -> int {
    if m == 2 {
        if is_leap_year(y) {
            29
        } else {
            28
        }
    } else if m == 4 || m == 6 || m == 9 || m == 11 {
        30
    } else {
        31
    }
}

/// A date `chrono` represents: a year from -262143 to 262142, a month from
/// 1 to 12 and a day of that month.
pub open spec fn is_calendar_date(y: int, m: int, d: int) -> bool {
    -262143 <= y <= 262142 && 1 <= m <= 12 && 1 <= d <= days_in_month(y, m)
}

/// The number of days from 1970-01-01 to a date of the proleptic Gregorian
/// calendar (negative before it), counted in 400-year eras of 146097 days
/// with the year taken to start on 1 March.
pub open spec fn day_number(y: int, m: int, d: int) -> int {
    let y1 = if m <= 2 {
        y - 1
    } else {
        y
    };
    let era = y1 / 400;
    let yoe = y1 - era * 400;
    let mp = if m > 2 {
        m - 3
    } else {
        m + 9
    };
    let doy = (153 * mp + 2) / 5 + d - 1;
    let doe = yoe * 365 + yoe / 4 - yoe / 100 + doy;
    era * 146097 + doe - 719468
}

/// The weekday of day number `n`; day 0, 1970-01-01, was a Thursday.
pub open spec fn weekday_of_day(n: int) -> Weekday {
    let r = n % 7;
    if r == 0 {
        Weekday::Thu
    } else if r == 1 {
        Weekday::Fri
    } else if r == 2 {
        Weekday::Sat
    } else if r == 3 {
        Weekday::Sun
    } else if r == 4 {
        Weekday::Mon
    } else if r == 5 {
        Weekday::Tue
    } else {
        Weekday::Wed
    }
}

/// The weekday of a date; none for numbers that name no date `chrono`
/// represents.
pub open spec fn calendar_weekday(year: i32, month: u32, day: u32) -> Option<Weekday> {
    if is_calendar_date(year as int, month as int, day as int) {
        Some(weekday_of_day(day_number(year as int, month as int, day as int)))
    } else {
        None
    }
}

/// A date `chrono` represents whose day number is `n`.
pub open spec fn date_numbered(n: int, y: int, m: int, d: int) -> bool {
    is_calendar_date(y, m, d) && day_number(y, m, d) == n
}

/// The date `days` days after a date; none for numbers that name no date,
/// or when the result is past the last date `chrono` represents.
pub open spec fn calendar_days_later(year: i32, month: u32, day: u32, days: u64) -> Option<(i32, u32, u32)> {
    let n = day_number(year as int, month as int, day as int) + days;
    if is_calendar_date(year as int, month as int, day as int) && exists|y: int, m: int, d: int|
        #[trigger] date_numbered(n, y, m, d) {
        let (y, m, d) = choose|y: int, m: int, d: int| #[trigger] date_numbered(n, y, m, d);
        Some((y as i32, m as u32, d as u32))
    } else {
        None
    }
}

/// The weekday of a date (`NaiveDate::from_ymd_opt`, then
/// `Datelike::weekday`, one variant for each of `chrono::Weekday`'s): the
/// contract claims `chrono` represents exactly the dates
/// `is_calendar_date` admits, and counts weekdays as `calendar_weekday`
/// does.
#[verifier::external_body]
fn date_weekday(date: CivilDate) -> (r: Option<Weekday>)
    ensures
        r == calendar_weekday(date.year, date.month, date.day),
{
    match chrono::NaiveDate::from_ymd_opt(date.year, date.month, date.day) {
        Some(d) => Some(match d.weekday() {
            chrono::Weekday::Mon => Weekday::Mon,
            chrono::Weekday::Tue => Weekday::Tue,
            chrono::Weekday::Wed => Weekday::Wed,
            chrono::Weekday::Thu => Weekday::Thu,
            chrono::Weekday::Fri => Weekday::Fri,
            chrono::Weekday::Sat => Weekday::Sat,
            chrono::Weekday::Sun => Weekday::Sun,
        }),
        None => None,
    }
}

/// The date `days` days later (`NaiveDate::from_ymd_opt`, then
/// `NaiveDate::checked_add_days`, back to its numbers): the contract claims
/// `chrono` adds days as `calendar_days_later` counts them, and gives none
/// past the dates it represents.
#[verifier::external_body]
fn date_plus_days(date: CivilDate, days: u64) -> (r: Option<CivilDate>)
    ensures
        match r {
            Some(c) => calendar_days_later(date.year, date.month, date.day, days) == Some((c.year, c.month, c.day)),
            None => calendar_days_later(date.year, date.month, date.day, days) is None,
        },
{
    match chrono::NaiveDate::from_ymd_opt(date.year, date.month, date.day) {
        Some(d) => match d.checked_add_days(chrono::Days::new(days)) {
            Some(n) => Some(CivilDate { year: n.year(), month: n.month(), day: n.day() }),
            None => None,
        },
        None => None,
    }
}

/// A reading of the local clock: the date, hour and minute it was asked
/// for, and the instant (whole seconds since the Unix epoch) at which the
/// local clock shows them.
#[derive(Debug, Clone, Copy, PartialEq, Eq, Structural)]
pub struct ClockReading {
    pub date: CivilDate,
    pub hour: u32,
    pub minute: u32,
    pub instant: i64,
}

/// Reads the local clock at `hour:minute:00` on `date`
/// (`Local.with_ymd_and_hms`, then `DateTime::timestamp`): the earlier
/// instant when the clock shows that time twice, none when it skips it or
/// the date does not exist. The contract claims only that a reading carries
/// the date and time it was asked for; the instant depends on the machine's
/// time zone and nothing is stated of it.
#[verifier::external_body]
fn local_instant_on(date: CivilDate, hour: u32, minute: u32) -> (r: Option<ClockReading>)
    requires
        hour < 24,
        minute < 60,
    ensures
        r matches Some(c) ==> c.date == date && c.hour == hour && c.minute == minute,
{
    let instant = match chrono::Local.with_ymd_and_hms(date.year, date.month, date.day, hour, minute, 0) {
        chrono::LocalResult::Single(dt) => dt.timestamp(),
        chrono::LocalResult::Ambiguous(earliest, _) => earliest.timestamp(),
        chrono::LocalResult::None => return None,
    };
    Some(ClockReading { date, hour, minute, instant })
}

/// The local clock reading a lookup starts from: the instant in whole
/// seconds since the Unix epoch, the hour and minute the clock shows, and
/// the local date.
#[derive(Debug, Clone, Copy)]
pub struct LocalNow {
    pub instant: i64,
    pub hour: u32,
    pub minute: u32,
    pub date: CivilDate,
}

/// One occurrence of a recurring window: its position among the windows
/// and its local start and end instants, in seconds since the Unix epoch.
#[derive(Debug, Clone, Copy, PartialEq, Eq, Structural)]
pub struct WindowOccurrence {
    pub window_index: usize,
    pub start: i64,
    pub end: i64,
}

/// The start of a resolved occurrence.
pub open spec fn start_of(se: Option<(i64, i64)>) -> i64 {
    match se {
        Some(p) => p.0,
        None => 0,
    }
}

/// Window `i` is active at instant `now`, minute `minutes` of a `weekday`:
/// it runs that weekday, its times enclose the minute, and the day's local
/// start and end (`resolved[i]`) enclose the instant.
pub open spec fn active_candidate(
    now: i64,
    minutes: int,
    weekday: Weekday,
    ws: Seq<CompiledView>,
    resolved: Seq<Option<(i64, i64)>>,
    i: int,
) -> bool {
    &&& 0 <= i < ws.len()
    &&& ws[i].days.contains(weekday)
    &&& ws[i].start <= minutes < ws[i].end
    &&& resolved[i] matches Some(se) && se.0 <= now < se.1
}

/// `o` is the active occurrence: of the active windows, the one that
/// started last, and of those that started together, the first.
pub open spec fn is_active_choice(
    now: i64,
    minutes: int,
    weekday: Weekday,
    ws: Seq<CompiledView>,
    resolved: Seq<Option<(i64, i64)>>,
    o: WindowOccurrence,
) -> bool {
    &&& active_candidate(now, minutes, weekday, ws, resolved, o.window_index as int)
    &&& resolved[o.window_index as int] == Some((o.start, o.end))
    &&& forall|j: int| #[trigger] active_candidate(now, minutes, weekday, ws, resolved, j) ==> (start_of(resolved[j]) < o.start
        || (start_of(resolved[j]) == o.start && o.window_index <= j))
}

/// Chooses the active occurrence from each window's local start and end
/// today (`active_occurrence`, after the clock was read).
pub fn select_active_occurrence(
    now: i64,
    minutes: u16,
    weekday: Weekday,
    windows: &Vec<RecurringWindow>,
    resolved: &Vec<Option<(i64, i64)>>,
) -> (r: Option<WindowOccurrence>)
    requires
        resolved@.len() == windows@.len(),
    ensures
        r is None <==> forall|i: int| !#[trigger] active_candidate(now, minutes as int, weekday, compiled_view(windows@), resolved@, i),
        r matches Some(o) ==> is_active_choice(now, minutes as int, weekday, compiled_view(windows@), resolved@, o),
{
    let ghost ws = compiled_view(windows@);
    let mut selected: Option<WindowOccurrence> = None;
    let mut i: usize = 0;
    while i < windows.len()
        invariant
            i <= windows.len(),
            resolved@.len() == windows@.len(),
            ws == compiled_view(windows@),
            selected is None ==> forall|k: int| 0 <= k < i ==> !#[trigger] active_candidate(now, minutes as int, weekday, ws, resolved@, k),
            selected matches Some(o) ==> {
                &&& o.window_index < i
                &&& active_candidate(now, minutes as int, weekday, ws, resolved@, o.window_index as int)
                &&& resolved@[o.window_index as int] == Some((o.start, o.end))
                &&& forall|j: int| 0 <= j < i && #[trigger] active_candidate(now, minutes as int, weekday, ws, resolved@, j) ==> (start_of(resolved@[j]) < o.start
                    || (start_of(resolved@[j]) == o.start && o.window_index <= j))
            },
        decreases windows.len() - i,
    {
        let w = &windows[i];
        assert(ws[i as int] == w@);
        let runs = crate::schedule::contains_day(&w.days, weekday);
        if runs && w.start_minutes <= minutes && minutes < w.end_minutes {
            if let Some((s, e)) = resolved[i] {
                if s <= now && now < e {
                    let replace = match selected {
                        None => true,
                        Some(o) => s > o.start,
                    };
                    if replace {
                        selected = Some(WindowOccurrence { window_index: i, start: s, end: e });
                    }
                }
            }
        }
        assert(selected is None ==> !active_candidate(now, minutes as int, weekday, ws, resolved@, i as int));
        i = i + 1;
    }
    selected
}

/// Day `d`'s occurrence of window `i` starts after `now`: the window runs on
/// that day's weekday and the day's local start and end (`resolved[d][i]`)
/// exist, the start later than the instant.
pub open spec fn next_candidate(
    now: i64,
    weekdays: Seq<Weekday>,
    ws: Seq<CompiledView>,
    resolved: Seq<Seq<Option<(i64, i64)>>>,
    d: int,
    i: int,
) -> bool {
    &&& 0 <= d < weekdays.len()
    &&& 0 <= i < ws.len()
    &&& ws[i].days.contains(weekdays[d])
    &&& resolved[d][i] matches Some(se) && se.0 > now
}

/// `o` is the next occurrence: of the occurrences that start later, the
/// earliest; of those that start together, the first window's, on the
/// first day.
pub open spec fn is_next_choice(
    now: i64,
    weekdays: Seq<Weekday>,
    ws: Seq<CompiledView>,
    resolved: Seq<Seq<Option<(i64, i64)>>>,
    o: WindowOccurrence,
) -> bool {
    exists|d: int|
        {
            &&& #[trigger] next_candidate(now, weekdays, ws, resolved, d, o.window_index as int)
            &&& resolved[d][o.window_index as int] == Some((o.start, o.end))
            &&& forall|e: int, j: int| #[trigger] next_candidate(now, weekdays, ws, resolved, e, j) ==> (
            start_of(resolved[e][j]) > o.start || (start_of(resolved[e][j]) == o.start && (o.window_index < j
                || (o.window_index == j && d <= e))))
        }
}

/// Each day's resolved starts and ends.
pub open spec fn rows_view(rows: Seq<Vec<Option<(i64, i64)>>>) -> Seq<Seq<Option<(i64, i64)>>> {
    rows.map_values(|v: Vec<Option<(i64, i64)>>| v@)
}

/// Chooses the next occurrence from each day's local starts and ends, day
/// by day from today (`next_occurrence_after`, after the calendar was read).
#[verifier::rlimit(40)]
pub fn select_next_occurrence(
    now: i64,
    weekdays: &Vec<Weekday>,
    windows: &Vec<RecurringWindow>,
    resolved: &Vec<Vec<Option<(i64, i64)>>>,
) -> (r: Option<WindowOccurrence>)
    requires
        resolved@.len() == weekdays@.len(),
        forall|d: int| 0 <= d < resolved@.len() ==> (#[trigger] resolved@[d])@.len() == windows@.len(),
    ensures
        r is None <==> forall|d: int, i: int| !#[trigger] next_candidate(now, weekdays@, compiled_view(windows@), rows_view(resolved@), d, i),
        r matches Some(o) ==> is_next_choice(now, weekdays@, compiled_view(windows@), rows_view(resolved@), o),
{
    let ghost ws = compiled_view(windows@);
    let ghost rs = rows_view(resolved@);
    let mut selected: Option<WindowOccurrence> = None;
    let ghost mut day: int = 0;
    let mut d: usize = 0;
    while d < weekdays.len()
        invariant
            d <= weekdays.len(),
            resolved@.len() == weekdays@.len(),
            forall|e: int| 0 <= e < resolved@.len() ==> (#[trigger] resolved@[e])@.len() == windows@.len(),
            ws == compiled_view(windows@),
            rs == rows_view(resolved@),
            selected is None ==> forall|e: int, j: int| 0 <= e < d ==> !#[trigger] next_candidate(now, weekdays@, ws, rs, e, j),
            selected matches Some(o) ==> {
                &&& 0 <= day < d
                &&& next_candidate(now, weekdays@, ws, rs, day, o.window_index as int)
                &&& rs[day][o.window_index as int] == Some((o.start, o.end))
                &&& forall|e: int, j: int| 0 <= e < d && #[trigger] next_candidate(now, weekdays@, ws, rs, e, j) ==> (
                start_of(rs[e][j]) > o.start || (start_of(rs[e][j]) == o.start && (o.window_index < j || (o.window_index
                    == j && day <= e))))
            },
        decreases weekdays.len() - d,
    {
        let weekday = weekdays[d];
        let row = &resolved[d];
        assert(rs[d as int] == row@);
        let mut i: usize = 0;
        while i < windows.len()
            invariant
                d < weekdays.len(),
                i <= windows.len(),
                row@.len() == windows@.len(),
                rs[d as int] == row@,
                weekday == weekdays@[d as int],
                resolved@.len() == weekdays@.len(),
                ws == compiled_view(windows@),
                rs == rows_view(resolved@),
                selected is None ==> (forall|e: int, j: int| 0 <= e < d ==> !#[trigger] next_candidate(now, weekdays@, ws, rs, e, j))
                    && (forall|j: int| 0 <= j < i ==> !#[trigger] next_candidate(now, weekdays@, ws, rs, d as int, j)),
                selected matches Some(o) ==> {
                    &&& 0 <= day <= d
                    &&& next_candidate(now, weekdays@, ws, rs, day, o.window_index as int)
                    &&& rs[day][o.window_index as int] == Some((o.start, o.end))
                    &&& forall|e: int, j: int| (0 <= e < d || (e == d && 0 <= j < i)) && #[trigger] next_candidate(now, weekdays@, ws, rs, e, j)
                        ==> (start_of(rs[e][j]) > o.start || (start_of(rs[e][j]) == o.start && (o.window_index < j || (
                    o.window_index == j && day <= e))))
                },
            decreases windows.len() - i,
        {
            let w = &windows[i];
            assert(ws[i as int] == w@);
            if crate::schedule::contains_day(&w.days, weekday) {
                if let Some((s, e)) = row[i] {
                    if s > now {
                        let replace = match selected {
                            None => true,
                            Some(o) => s < o.start || (s == o.start && i < o.window_index),
                        };
                        if replace {
                            selected = Some(WindowOccurrence { window_index: i, start: s, end: e });
                            proof {
                                day = d as int;
                            }
                        }
                    }
                }
            }
            assert(selected is None ==> !next_candidate(now, weekdays@, ws, rs, d as int, i as int));
            i = i + 1;
        }
        d = d + 1;
    }
    selected
}

/// Reading `c` was taken on `date` at the time `minutes` after midnight.
pub open spec fn reads_clock_at(c: ClockReading, date: CivilDate, minutes: u16) -> bool {
    c.date == date && c.hour == minutes / 60 && c.minute == minutes % 60
}

/// `readings` holds, for each window, the readings of its local start and
/// end on `date`: taken only for a window that runs on `weekday`, at its
/// start time and its end time.
pub open spec fn readings_on(
    date: CivilDate,
    weekday: Weekday,
    ws: Seq<CompiledView>,
    readings: Seq<Option<(ClockReading, ClockReading)>>,
) -> bool {
    &&& readings.len() == ws.len()
    &&& forall|i: int|
        0 <= i < readings.len() ==> (#[trigger] readings[i] matches Some(p) ==> ws[i].days.contains(weekday)
            && reads_clock_at(p.0, date, ws[i].start) && reads_clock_at(p.1, date, ws[i].end))
}

/// No reading for any window.
pub open spec fn no_readings(ws: Seq<CompiledView>, readings: Seq<Option<(ClockReading, ClockReading)>>) -> bool {
    readings.len() == ws.len() && forall|i: int| 0 <= i < readings.len() ==> (#[trigger] readings[i]) is None
}

/// The instants of the readings.
pub open spec fn instants_of(readings: Seq<Option<(ClockReading, ClockReading)>>) -> Seq<Option<(i64, i64)>> {
    readings.map_values(
        |p: Option<(ClockReading, ClockReading)>|
            match p {
                Some(q) => Some((q.0.instant, q.1.instant)),
                None => None,
            },
    )
}

/// Reads the local start and end on `date` of each window that runs on
/// `weekday`; none for the other windows, nor where the local clock skips
/// the time.
fn resolve_windows_on(date: CivilDate, weekday: Weekday, windows: &Vec<RecurringWindow>) -> (r: Vec<
    Option<(ClockReading, ClockReading)>,
>)
    requires
        forall|i: int| 0 <= i < windows@.len() ==> within_day(#[trigger] compiled_view(windows@)[i]),
    ensures
        readings_on(date, weekday, compiled_view(windows@), r@),
{
    let ghost ws = compiled_view(windows@);
    let mut r: Vec<Option<(ClockReading, ClockReading)>> = Vec::new();
    let mut i: usize = 0;
    while i < windows.len()
        invariant
            i <= windows.len(),
            r@.len() == i,
            ws == compiled_view(windows@),
            forall|i: int| 0 <= i < windows@.len() ==> within_day(#[trigger] compiled_view(windows@)[i]),
            forall|k: int|
                0 <= k < i ==> (#[trigger] r@[k] matches Some(p) ==> ws[k].days.contains(weekday) && reads_clock_at(
                    p.0,
                    date,
                    ws[k].start,
                ) && reads_clock_at(p.1, date, ws[k].end)),
        decreases windows.len() - i,
    {
        let w = &windows[i];
        assert(ws[i as int] == w@);
        let mut entry: Option<(ClockReading, ClockReading)> = None;
        if crate::schedule::contains_day(&w.days, weekday) {
            let start = local_instant_on(date, (w.start_minutes / 60) as u32, (w.start_minutes % 60) as u32);
            let end = local_instant_on(date, (w.end_minutes / 60) as u32, (w.end_minutes % 60) as u32);
            if let (Some(s), Some(e)) = (start, end) {
                entry = Some((s, e));
            }
        }
        r.push(entry);
        i = i + 1;
    }
    r
}

/// No reading for any of `n` windows.
fn without_readings(windows: &Vec<RecurringWindow>) -> (r: Vec<Option<(ClockReading, ClockReading)>>)
    ensures
        no_readings(compiled_view(windows@), r@),
{
    let mut r: Vec<Option<(ClockReading, ClockReading)>> = Vec::new();
    let mut i: usize = 0;
    while i < windows.len()
        invariant
            i <= windows.len(),
            r@.len() == i,
            forall|k: int| 0 <= k < i ==> (#[trigger] r@[k]) is None,
        decreases windows.len() - i,
    {
        r.push(None);
        i = i + 1;
    }
    r
}

/// The instants of the readings.
fn instants(readings: &Vec<Option<(ClockReading, ClockReading)>>) -> (r: Vec<Option<(i64, i64)>>)
    ensures
        r@ == instants_of(readings@),
{
    let mut r: Vec<Option<(i64, i64)>> = Vec::new();
    let mut i: usize = 0;
    while i < readings.len()
        invariant
            i <= readings.len(),
            r@ == instants_of(readings@.subrange(0, i as int)),
        decreases readings.len() - i,
    {
        let entry = match readings[i] {
            Some((s, e)) => Some((s.instant, e.instant)),
            None => None,
        };
        r.push(entry);
        assert(instants_of(readings@.subrange(0, i + 1)) =~= instants_of(readings@.subrange(0, i as int)).push(entry));
        i = i + 1;
    }
    assert(readings@.subrange(0, readings.len() as int) =~= readings@);
    r
}

/// `r` is what choosing the active occurrence gives when the day is a
/// `weekday` and the windows' local starts and ends today are `resolved`.
pub open spec fn is_active_selection(
    now: i64,
    minutes: int,
    weekday: Weekday,
    ws: Seq<CompiledView>,
    resolved: Seq<Option<(i64, i64)>>,
    r: Option<WindowOccurrence>,
) -> bool {
    &&& resolved.len() == ws.len()
    &&& (r is None <==> forall|i: int| !#[trigger] active_candidate(now, minutes, weekday, ws, resolved, i))
    &&& (r matches Some(o) ==> is_active_choice(now, minutes, weekday, ws, resolved, o))
}

/// `r` is what choosing the next occurrence gives when the days searched
/// are `weekdays` and the windows' local starts and ends on them are `rows`.
pub open spec fn is_next_selection(
    now: i64,
    weekdays: Seq<Weekday>,
    ws: Seq<CompiledView>,
    rows: Seq<Seq<Option<(i64, i64)>>>,
    r: Option<WindowOccurrence>,
) -> bool {
    &&& rows.len() == weekdays.len()
    &&& forall|d: int| 0 <= d < rows.len() ==> (#[trigger] rows[d]).len() == ws.len()
    &&& (r is None <==> forall|d: int, i: int| !#[trigger] next_candidate(now, weekdays, ws, rows, d, i))
    &&& (r matches Some(o) ==> is_next_choice(now, weekdays, ws, rows, o))
}

/// The clock's minute of the day.
pub open spec fn clock_minutes(now: LocalNow) -> int {
    now.hour * 60 + now.minute
}

/// The window active at `now`: of the windows that run on `now.date`'s
/// weekday and whose local start and end that day enclose `now`, the one
/// that started last, the first of those that started together. The weekday is the calendar's; the windows' start
/// and end times are read off the local clock on `now.date`, and what
/// instants it gives depends on the machine's time zone, so the result is
/// [`select_active_occurrence`]'s choice for some such readings.
pub fn active_occurrence(now: &LocalNow, windows: &Vec<RecurringWindow>) -> (r: Option<WindowOccurrence>)
    requires
        now.hour < 24,
        now.minute < 60,
        forall|i: int| 0 <= i < windows@.len() ==> within_day(#[trigger] compiled_view(windows@)[i]),
    ensures
        r matches Some(o) ==> {
            &&& o.window_index < windows@.len()
            &&& windows@[o.window_index as int].start_minutes <= clock_minutes(*now)
            &&& clock_minutes(*now) < windows@[o.window_index as int].end_minutes
            &&& o.start <= now.instant < o.end
        },
        (forall|i: int| 0 <= i < windows@.len() ==> !((#[trigger] windows@[i]).start_minutes <= clock_minutes(*now)
            < windows@[i].end_minutes)) ==> r is None,
        match calendar_weekday(now.date.year, now.date.month, now.date.day) {
            Some(weekday) => exists|readings: Seq<Option<(ClockReading, ClockReading)>>|
                readings_on(now.date, weekday, compiled_view(windows@), readings) && #[trigger] is_active_selection(
                    now.instant,
                    clock_minutes(*now),
                    weekday,
                    compiled_view(windows@),
                    instants_of(readings),
                    r,
                ),
            None => r is None,
        },
{
    let minutes = (now.hour * 60 + now.minute) as u16;
    let weekday = match date_weekday(now.date) {
        Some(w) => w,
        None => return None,
    };
    let readings = resolve_windows_on(now.date, weekday, windows);
    let resolved = instants(&readings);
    let r = select_active_occurrence(now.instant, minutes, weekday, windows, &resolved);
    proof {
        if let Some(o) = r {
            assert(compiled_view(windows@)[o.window_index as int] == windows@[o.window_index as int]@);
        }
        if forall|i: int| 0 <= i < windows@.len() ==> !((#[trigger] windows@[i]).start_minutes <= clock_minutes(*now)
            < windows@[i].end_minutes) {
            assert forall|i: int| !#[trigger] active_candidate(now.instant, minutes as int, weekday, compiled_view(windows@), resolved@, i) by {
                if 0 <= i < windows@.len() {
                    assert(compiled_view(windows@)[i] == windows@[i]@);
                }
            }
        }
        assert(minutes as int == clock_minutes(*now));
        assert(is_active_selection(
            now.instant,
            clock_minutes(*now),
            weekday,
            compiled_view(windows@),
            instants_of(readings@),
            r,
        ));
    }
    r
}

/// The days `next_occurrence_after` looks at: today and the seven after.
pub const SEARCH_DAYS: u64 = 7;

/// Day `d` after `date` was searched with `weekday` and `readings`: the
/// calendar's date `d` days later, its weekday, and readings of the windows'
/// starts and ends on that date; no readings where the calendar has no such
/// date.
pub open spec fn day_searched(
    date: CivilDate,
    d: int,
    weekday: Weekday,
    ws: Seq<CompiledView>,
    readings: Seq<Option<(ClockReading, ClockReading)>>,
) -> bool {
    match calendar_days_later(date.year, date.month, date.day, d as u64) {
        Some(later) => match calendar_weekday(later.0, later.1, later.2) {
            Some(w) => weekday == w && readings_on(CivilDate { year: later.0, month: later.1, day: later.2 }, w, ws, readings),
            None => no_readings(ws, readings),
        },
        None => no_readings(ws, readings),
    }
}

/// The instants of each day's readings.
pub open spec fn rows_of(days: Seq<Seq<Option<(ClockReading, ClockReading)>>>) -> Seq<Seq<Option<(i64, i64)>>> {
    days.map_values(|r: Seq<Option<(ClockReading, ClockReading)>>| instants_of(r))
}

/// Today and the next [`SEARCH_DAYS`] days after `date`, in order, were
/// searched with `weekdays` and `days`.
pub open spec fn days_searched(
    date: CivilDate,
    weekdays: Seq<Weekday>,
    ws: Seq<CompiledView>,
    days: Seq<Seq<Option<(ClockReading, ClockReading)>>>,
) -> bool {
    &&& weekdays.len() == SEARCH_DAYS + 1
    &&& days.len() == weekdays.len()
    &&& forall|d: int| 0 <= d < days.len() ==> #[trigger] day_searched(date, d, weekdays[d], ws, days[d])
}

/// The next window to start after `now`: looking at today and the next
/// seven days, of the occurrences that start later than `now`, the
/// earliest, the first window's of those that start together. Each day is the calendar's date that many days
/// after `now.date`, with its weekday; the windows' start and end times are
/// read off the local clock on that date, and what instants it gives
/// depends on the machine's time zone, so the result is
/// [`select_next_occurrence`]'s choice for some such readings.
pub fn next_occurrence_after(now: &LocalNow, windows: &Vec<RecurringWindow>) -> (r: Option<WindowOccurrence>)
    requires
        forall|i: int| 0 <= i < windows@.len() ==> within_day(#[trigger] compiled_view(windows@)[i]),
    ensures
        r matches Some(o) ==> o.window_index < windows@.len() && o.start > now.instant,
        windows@.len() == 0 ==> r is None,
        exists|weekdays: Seq<Weekday>, days: Seq<Seq<Option<(ClockReading, ClockReading)>>>|
            days_searched(now.date, weekdays, compiled_view(windows@), days) && #[trigger] is_next_selection(
                now.instant,
                weekdays,
                compiled_view(windows@),
                rows_of(days),
                r,
            ),
{
    let ghost ws = compiled_view(windows@);
    let mut weekdays: Vec<Weekday> = Vec::new();
    let mut resolved: Vec<Vec<Option<(i64, i64)>>> = Vec::new();
    let ghost mut days: Seq<Seq<Option<(ClockReading, ClockReading)>>> = Seq::empty();
    let mut offset: u64 = 0;
    while offset <= SEARCH_DAYS
        invariant
            offset <= SEARCH_DAYS + 1,
            ws == compiled_view(windows@),
            weekdays@.len() == offset,
            days.len() == offset,
            rows_view(resolved@) == rows_of(days),
            forall|d: int| 0 <= d < days.len() ==> (#[trigger] days[d]).len() == windows@.len(),
            forall|d: int| 0 <= d < days.len() ==> #[trigger] day_searched(now.date, d, weekdays@[d], ws, days[d]),
            forall|i: int| 0 <= i < windows@.len() ==> within_day(#[trigger] compiled_view(windows@)[i]),
        decreases SEARCH_DAYS + 1 - offset,
    {
        let (weekday, readings) = match date_plus_days(now.date, offset) {
            Some(date) => match date_weekday(date) {
                Some(w) => (w, resolve_windows_on(date, w, windows)),
                None => (Weekday::Mon, without_readings(windows)),
            },
            None => (Weekday::Mon, without_readings(windows)),
        };
        let row = instants(&readings);
        assert(day_searched(now.date, offset as int, weekday, ws, readings@));
        let ghost before = days;
        let ghost old_resolved = resolved@;
        proof {
            days = days.push(readings@);
        }
        weekdays.push(weekday);
        resolved.push(row);
        assert(rows_view(resolved@) =~= rows_view(old_resolved).push(row@));
        assert(rows_of(days) =~= rows_of(before).push(instants_of(readings@)));
        assert(rows_view(resolved@) =~= rows_of(days));
        assert forall|d: int| 0 <= d < days.len() implies #[trigger] day_searched(now.date, d, weekdays@[d], ws, days[d]) by {
            if d < before.len() {
                assert(days[d] == before[d]);
            }
        }
        assert forall|d: int| 0 <= d < days.len() implies (#[trigger] days[d]).len() == windows@.len() by {
            if d < before.len() {
                assert(days[d] == before[d]);
            }
        }
        offset = offset + 1;
    }
    assert forall|d: int| 0 <= d < resolved@.len() implies (#[trigger] resolved@[d])@.len() == windows@.len() by {
        assert(rows_view(resolved@)[d] == resolved@[d]@);
        assert(rows_of(days)[d] == instants_of(days[d]));
    }
    let r = select_next_occurrence(now.instant, &weekdays, windows, &resolved);
    proof {
        if let Some(o) = r {
            let rs = rows_view(resolved@);
            let d = choose|d: int| #[trigger] next_candidate(now.instant, weekdays@, compiled_view(windows@), rs, d, o.window_index as int)
                && rs[d][o.window_index as int] == Some((o.start, o.end));
            assert(next_candidate(now.instant, weekdays@, compiled_view(windows@), rs, d, o.window_index as int));
        }
        assert forall|d: int| 0 <= d < rows_view(resolved@).len() implies (#[trigger] rows_view(resolved@)[d]).len()
            == compiled_view(windows@).len() by {
            assert(rows_view(resolved@)[d] == resolved@[d]@);
        }
        assert(is_next_selection(now.instant, weekdays@, compiled_view(windows@), rows_of(days), r));
    }
    r
}

/// Of two active occurrences, the one that started later; the first
/// window's when they started together.
pub open spec fn spec_pick_active(first: Option<WindowOccurrence>, second: Option<WindowOccurrence>) -> Option<
    WindowOccurrence,
> {
    match (first, second) {
        (Some(a), Some(b)) => if a.start > b.start || (a.start == b.start && a.window_index < b.window_index) {
            Some(a)
        } else {
            Some(b)
        },
        (Some(a), None) => Some(a),
        (None, b) => b,
    }
}

/// Picks the occurrence that is active.
pub fn pick_active_occurrence(first: Option<WindowOccurrence>, second: Option<WindowOccurrence>) -> (r: Option<
    WindowOccurrence,
>)
    ensures
        r == spec_pick_active(first, second),
{
    match (first, second) {
        (Some(a), Some(b)) => if a.start > b.start || (a.start == b.start && a.window_index < b.window_index) {
            Some(a)
        } else {
            Some(b)
        },
        (Some(a), None) => Some(a),
        (None, b) => b,
    }
}

/// Of two upcoming occurrences, the one that starts first; the first
/// window's when they start together.
pub open spec fn spec_pick_next(first: Option<WindowOccurrence>, second: Option<WindowOccurrence>) -> Option<
    WindowOccurrence,
> {
    match (first, second) {
        (Some(a), Some(b)) => if a.start < b.start || (a.start == b.start && a.window_index < b.window_index) {
            Some(a)
        } else {
            Some(b)
        },
        (Some(a), None) => Some(a),
        (None, b) => b,
    }
}

/// Picks the occurrence that comes next.
pub fn pick_next_occurrence(first: Option<WindowOccurrence>, second: Option<WindowOccurrence>) -> (r: Option<
    WindowOccurrence,
>)
    ensures
        r == spec_pick_next(first, second),
{
    match (first, second) {
        (Some(a), Some(b)) => if a.start < b.start || (a.start == b.start && a.window_index < b.window_index) {
            Some(a)
        } else {
            Some(b)
        },
        (Some(a), None) => Some(a),
        (None, b) => b,
    }
}

/// An instant in decimal, with a minus sign before a negative one.
pub open spec fn signed_decimal(n: i64) -> Seq<char> {
    if n < 0 {
        "-"@ + crate::text::decimal((0 - n) as nat)
    } else {
        crate::text::decimal(n as nat)
    }
}

/// The key that tells occurrences apart: `r-{window}-{start}`.
pub open spec fn spec_occurrence_key(o: WindowOccurrence) -> Seq<char> {
    "r-"@ + crate::text::decimal(o.window_index as nat) + "-"@ + signed_decimal(o.start)
}

/// The key that tells occurrences apart.
pub fn occurrence_key(o: &WindowOccurrence) -> (r: String)
    ensures
        r@ == spec_occurrence_key(*o),
{
    let mut r = concat("r-", u64_to_string(o.window_index as u64).as_str());
    r.append("-");
    if o.start < 0 {
        let magnitude: u64 = (0i128 - (o.start as i128)) as u64;
        r.append("-");
        r.append(u64_to_string(magnitude).as_str());
    } else {
        r.append(u64_to_string(o.start as u64).as_str());
    }
    r
}

} // verus!
