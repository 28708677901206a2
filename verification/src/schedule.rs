//! Recurring focus windows: compiling configured windows into weekday and
//! minute ranges, and finding windows that overlap.
use crate::config::{
    parse_schedule_time_minutes, spec_time_minutes, windows_view, RecurringFocusWindowConfig,
    RecurringScheduleConfig, WindowView, strings_view,
};
use crate::text::{concat, lower, str_eq, trim, trim_str, trimmed_lower, u64_to_string, u64_to_string2};
use vstd::prelude::*;

verus! {

/// A day of the week.
#[derive(Debug, Clone, Copy, PartialEq, Eq, Structural)]
pub enum Weekday {
    Mon,
    Tue,
    Wed,
    Thu,
    Fri,
    Sat,
    Sun,
}

impl Weekday {
    pub open spec fn spec_index(self) -> int {
        match self {
            Weekday::Mon => 0,
            Weekday::Tue => 1,
            Weekday::Wed => 2,
            Weekday::Thu => 3,
            Weekday::Fri => 4,
            Weekday::Sat => 5,
            Weekday::Sun => 6,
        }
    }

    /// Days since Monday: Monday is 0, Sunday 6.
    pub fn num_days_from_monday(self) -> (r: u32)
        ensures
            r == self.spec_index(),
    {
        match self {
            Weekday::Mon => 0,
            Weekday::Tue => 1,
            Weekday::Wed => 2,
            Weekday::Thu => 3,
            Weekday::Fri => 4,
            Weekday::Sat => 5,
            Weekday::Sun => 6,
        }
    }
}

/// The days of the week from Monday on.
pub open spec fn all_weekdays() -> Seq<Weekday> {
    seq![Weekday::Mon, Weekday::Tue, Weekday::Wed, Weekday::Thu, Weekday::Fri, Weekday::Sat, Weekday::Sun]
}

/// The weekday a token names: a three-letter or full English name (and
/// `tues`, `thurs`), trimmed, in any case.
pub open spec fn spec_parse_weekday(raw: Seq<char>) -> Option<Weekday> {
    let k = lower(trim(raw));
    if k == "mon"@ || k == "monday"@ {
        Some(Weekday::Mon)
    } else if k == "tue"@ || k == "tues"@ || k == "tuesday"@ {
        Some(Weekday::Tue)
    } else if k == "wed"@ || k == "wednesday"@ {
        Some(Weekday::Wed)
    } else if k == "thu"@ || k == "thurs"@ || k == "thursday"@ {
        Some(Weekday::Thu)
    } else if k == "fri"@ || k == "friday"@ {
        Some(Weekday::Fri)
    } else if k == "sat"@ || k == "saturday"@ {
        Some(Weekday::Sat)
    } else if k == "sun"@ || k == "sunday"@ {
        Some(Weekday::Sun)
    } else {
        None
    }
}

/// The full English name of a weekday, in lower case.
pub open spec fn weekday_full_name(d: Weekday) -> Seq<char> {
    match d {
        Weekday::Mon => "monday"@,
        Weekday::Tue => "tuesday"@,
        Weekday::Wed => "wednesday"@,
        Weekday::Thu => "thursday"@,
        Weekday::Fri => "friday"@,
        Weekday::Sat => "saturday"@,
        Weekday::Sun => "sunday"@,
    }
}

/// The three-letter abbreviation of a weekday, in lower case.
pub open spec fn weekday_abbreviation(d: Weekday) -> Seq<char> {
    match d {
        Weekday::Mon => "mon"@,
        Weekday::Tue => "tue"@,
        Weekday::Wed => "wed"@,
        Weekday::Thu => "thu"@,
        Weekday::Fri => "fri"@,
        Weekday::Sat => "sat"@,
        Weekday::Sun => "sun"@,
    }
}

/// A weekday's full English name and its three-letter abbreviation (and
/// `tues`, `thurs`) all name that day, whatever their case and surrounding
/// white space: a token that reads as any of them gives the day, and so
/// they always agree.
pub proof fn lemma_weekday_names_name_their_day(raw: Seq<char>, d: Weekday)
    requires
        lower(trim(raw)) == weekday_full_name(d) || lower(trim(raw)) == weekday_abbreviation(d) || (d
            == Weekday::Tue && lower(trim(raw)) == "tues"@) || (d == Weekday::Thu && lower(trim(raw)) == "thurs"@),
    ensures
        spec_parse_weekday(raw) == Some(d),
        spec_parse_weekday(weekday_full_name(d)) == spec_parse_weekday(weekday_abbreviation(d)),
{
    reveal_strlit("mon");
    reveal_strlit("monday");
    reveal_strlit("tue");
    reveal_strlit("tues");
    reveal_strlit("tuesday");
    reveal_strlit("wed");
    reveal_strlit("wednesday");
    reveal_strlit("thu");
    reveal_strlit("thurs");
    reveal_strlit("thursday");
    reveal_strlit("fri");
    reveal_strlit("friday");
    reveal_strlit("sat");
    reveal_strlit("saturday");
    reveal_strlit("sun");
    reveal_strlit("sunday");
    crate::text::lemma_lower_trim_lowercase(weekday_full_name(d));
    crate::text::lemma_lower_trim_lowercase(weekday_abbreviation(d));
    assert("tues"@.len() == 4 && "thurs"@.len() == 5);
    match d {
        Weekday::Mon => assert(spec_parse_weekday(raw) == Some(d)),
        Weekday::Tue => assert(spec_parse_weekday(raw) == Some(d)),
        Weekday::Wed => assert(spec_parse_weekday(raw) == Some(d)),
        Weekday::Thu => assert(spec_parse_weekday(raw) == Some(d)),
        Weekday::Fri => assert(spec_parse_weekday(raw) == Some(d)),
        Weekday::Sat => assert(spec_parse_weekday(raw) == Some(d)),
        Weekday::Sun => assert(spec_parse_weekday(raw) == Some(d)),
    }
}

/// Reads a weekday token.
pub fn parse_weekday(raw: &str) -> (r: Option<Weekday>)
    ensures
        r == spec_parse_weekday(raw@),
{
    let key = trimmed_lower(raw);
    let k = key.as_str();
    if str_eq(k, "mon") || str_eq(k, "monday") {
        Some(Weekday::Mon)
    } else if str_eq(k, "tue") || str_eq(k, "tues") || str_eq(k, "tuesday") {
        Some(Weekday::Tue)
    } else if str_eq(k, "wed") || str_eq(k, "wednesday") {
        Some(Weekday::Wed)
    } else if str_eq(k, "thu") || str_eq(k, "thurs") || str_eq(k, "thursday") {
        Some(Weekday::Thu)
    } else if str_eq(k, "fri") || str_eq(k, "friday") {
        Some(Weekday::Fri)
    } else if str_eq(k, "sat") || str_eq(k, "saturday") {
        Some(Weekday::Sat)
    } else if str_eq(k, "sun") || str_eq(k, "sunday") {
        Some(Weekday::Sun)
    } else {
        None
    }
}

/// The weekdays the tokens name, in order, each once; unknown tokens are skipped.
pub open spec fn spec_parse_weekdays(raws: Seq<Seq<char>>) -> Seq<Weekday>
    decreases raws.len(),
{
    if raws.len() == 0 {
        Seq::empty()
    } else {
        let prev = spec_parse_weekdays(raws.drop_last());
        match spec_parse_weekday(raws.last()) {
            Some(d) => if prev.contains(d) {
                prev
            } else {
                prev.push(d)
            },
            None => prev,
        }
    }
}

pub(crate) fn contains_day(days: &Vec<Weekday>, day: Weekday) -> (r: bool)
    ensures
        r == days@.contains(day),
{
    let mut i: usize = 0;
    while i < days.len()
        invariant
            i <= days.len(),
            forall|k: int| 0 <= k < i ==> days@[k] != day,
        decreases days.len() - i,
    {
        if days[i] == day {
            return true;
        }
        i = i + 1;
    }
    false
}

/// Reads weekday tokens.
pub fn parse_weekdays(raw_days: &Vec<String>) -> (r: Vec<Weekday>)
    ensures
        r@ == spec_parse_weekdays(strings_view(raw_days@)),
{
    let ghost raws = strings_view(raw_days@);
    let mut weekdays: Vec<Weekday> = Vec::new();
    let mut i: usize = 0;
    while i < raw_days.len()
        invariant
            i <= raw_days.len(),
            raws == strings_view(raw_days@),
            weekdays@ == spec_parse_weekdays(raws.subrange(0, i as int)),
        decreases raw_days.len() - i,
    {
        assert(raws.subrange(0, i + 1).drop_last() =~= raws.subrange(0, i as int));
        assert(raws.subrange(0, i + 1).last() == raw_days@[i as int]@);
        if let Some(day) = parse_weekday(raw_days[i].as_str()) {
            if !contains_day(&weekdays, day) {
                weekdays.push(day);
            }
        }
        i = i + 1;
    }
    assert(raws.subrange(0, raw_days.len() as int) =~= raws);
    weekdays
}

/// Minutes after midnight of a trimmed `HH:MM` time.
pub fn parse_time_minutes(raw: &str) -> (r: Option<u16>)
    ensures
        r matches Some(m) ==> spec_time_minutes(trim(raw@)) == Some(m as int),
        r is None ==> spec_time_minutes(trim(raw@)) is None,
{
    parse_schedule_time_minutes(trim_str(raw))
}

/// A compiled recurring window: weekdays and a minute range.
#[derive(Debug, Clone, PartialEq, Eq)]
pub struct RecurringWindow {
    pub days: Vec<Weekday>,
    pub start_minutes: u16,
    pub end_minutes: u16,
}

pub struct CompiledView {
    pub days: Seq<Weekday>,
    pub start: u16,
    pub end: u16,
}

impl View for RecurringWindow {
    type V = CompiledView;

    open spec fn view(&self) -> CompiledView {
        CompiledView { days: self.days@, start: self.start_minutes, end: self.end_minutes }
    }
}

pub open spec fn compiled_view(v: Seq<RecurringWindow>) -> Seq<CompiledView> {
    v.map_values(|w: RecurringWindow| w@)
}

/// A configured window compiled: it needs a known weekday and valid times
/// with the start before the end.
pub open spec fn spec_compile_window(w: WindowView) -> Option<CompiledView> {
    let days = spec_parse_weekdays(w.days);
    if days.len() == 0 {
        None
    } else {
        match (spec_time_minutes(trim(w.start)), spec_time_minutes(trim(w.end))) {
            (Some(s), Some(e)) => if s < e {
                Some(CompiledView { days, start: s as u16, end: e as u16 })
            } else {
                None
            },
            _ => None,
        }
    }
}

/// The windows that compile, in order.
pub open spec fn spec_compile_windows(ws: Seq<WindowView>) -> Seq<CompiledView>
    decreases ws.len(),
{
    if ws.len() == 0 {
        Seq::empty()
    } else {
        let prev = spec_compile_windows(ws.drop_last());
        match spec_compile_window(ws.last()) {
            Some(c) => prev.push(c),
            None => prev,
        }
    }
}

impl RecurringWindow {
    /// Compiles one configured window, if it is usable.
    pub fn from_config(config: &RecurringFocusWindowConfig) -> (r: Option<RecurringWindow>)
        ensures
            match r {
                Some(w) => spec_compile_window(config@) == Some(w@),
                None => spec_compile_window(config@) is None,
            },
    {
        let days = parse_weekdays(&config.days);
        if days.len() == 0 {
            return None;
        }
        let start_minutes = parse_time_minutes(config.start.as_str())?;
        let end_minutes = parse_time_minutes(config.end.as_str())?;
        if start_minutes >= end_minutes {
            return None;
        }
        Some(RecurringWindow { days, start_minutes, end_minutes })
    }
}

/// Compiles the configured windows, skipping unusable ones.
pub fn compile_windows(config_windows: &Vec<RecurringFocusWindowConfig>) -> (r: Vec<RecurringWindow>)
    ensures
        compiled_view(r@) == spec_compile_windows(windows_view(config_windows@)),
{
    let ghost all = windows_view(config_windows@);
    let mut out: Vec<RecurringWindow> = Vec::new();
    let mut i: usize = 0;
    while i < config_windows.len()
        invariant
            i <= config_windows.len(),
            all == windows_view(config_windows@),
            compiled_view(out@) == spec_compile_windows(all.subrange(0, i as int)),
        decreases config_windows.len() - i,
    {
        assert(all.subrange(0, i + 1).drop_last() =~= all.subrange(0, i as int));
        assert(all.subrange(0, i + 1).last() == config_windows@[i as int]@);
        match RecurringWindow::from_config(&config_windows[i]) {
            Some(w) => {
                out.push(w);
                assert(compiled_view(out@) =~= spec_compile_windows(all.subrange(0, i as int)).push(
                    out@[out@.len() - 1]@,
                ));
            },
            None => {},
        }
        i = i + 1;
    }
    assert(all.subrange(0, config_windows.len() as int) =~= all);
    out
}

/// A compiled window lies within one day: its minutes are below 24 hours.
pub open spec fn within_day(w: CompiledView) -> bool {
    w.start < 1440 && w.end < 1440
}

/// Every window that compiles lies within one day.
pub proof fn lemma_compiled_within_day(ws: Seq<WindowView>)
    ensures
        forall|i: int| 0 <= i < spec_compile_windows(ws).len() ==> within_day(#[trigger] spec_compile_windows(ws)[i]),
    decreases ws.len(),
{
    if ws.len() > 0 {
        lemma_compiled_within_day(ws.drop_last());
        let w = ws.last();
        lemma_time_minutes_bound(trim(w.start));
        lemma_time_minutes_bound(trim(w.end));
        let prev = spec_compile_windows(ws.drop_last());
        match spec_compile_window(w) {
            Some(c) => {
                assert(within_day(c));
                assert forall|i: int| 0 <= i < prev.push(c).len() implies within_day(#[trigger] prev.push(c)[i]) by {
                    if i < prev.len() {
                        assert(prev.push(c)[i] == prev[i]);
                    }
                }
            },
            None => {},
        }
    }
}

proof fn lemma_time_minutes_bound(v: Seq<char>)
    ensures
        spec_time_minutes(v) matches Some(m) ==> 0 <= m < 1440,
{
}

/// Two windows on the same weekday overlapping in time.
#[derive(Debug, Clone, Copy, PartialEq, Eq, Structural)]
pub struct ScheduleConflict {
    pub first_window_index: usize,
    pub second_window_index: usize,
    pub weekday: Weekday,
    pub overlap_start_minutes: u16,
    pub overlap_end_minutes: u16,
}

/// The shared part of two minute ranges, when it is not empty.
pub open spec fn spec_overlap(a_start: u16, a_end: u16, b_start: u16, b_end: u16) -> Option<(u16, u16)> {
    let s = if a_start >= b_start { a_start } else { b_start };
    let e = if a_end <= b_end { a_end } else { b_end };
    if s < e {
        Some((s, e))
    } else {
        None
    }
}

/// The shared part of two minute ranges.
pub fn overlap_minutes(a_start: u16, a_end: u16, b_start: u16, b_end: u16) -> (r: Option<(u16, u16)>)
    ensures
        r == spec_overlap(a_start, a_end, b_start, b_end),
{
    let s = if a_start >= b_start {
        a_start
    } else {
        b_start
    };
    let e = if a_end <= b_end {
        a_end
    } else {
        b_end
    };
    if s < e {
        Some((s, e))
    } else {
        None
    }
}

/// The weekdays of `days` taken in the order of `order` that also lie in `other`.
pub open spec fn spec_common_days(order: Seq<Weekday>, days: Seq<Weekday>, other: Seq<Weekday>) -> Seq<Weekday>
    decreases order.len(),
{
    if order.len() == 0 {
        Seq::empty()
    } else {
        let prev = spec_common_days(order.drop_last(), days, other);
        if days.contains(order.last()) && other.contains(order.last()) {
            prev.push(order.last())
        } else {
            prev
        }
    }
}

/// The weekdays two windows share, Monday first.
pub open spec fn spec_shared_weekdays(a: Seq<Weekday>, b: Seq<Weekday>) -> Seq<Weekday> {
    spec_common_days(all_weekdays(), a, b)
}

/// The weekdays two windows share, Monday first.
pub fn shared_weekdays(first: &RecurringWindow, second: &RecurringWindow) -> (r: Vec<Weekday>)
    ensures
        r@ == spec_shared_weekdays(first.days@, second.days@),
{
    let order: Vec<Weekday> = vec![
        Weekday::Mon,
        Weekday::Tue,
        Weekday::Wed,
        Weekday::Thu,
        Weekday::Fri,
        Weekday::Sat,
        Weekday::Sun,
    ];
    assert(order@ =~= all_weekdays());
    let mut shared: Vec<Weekday> = Vec::new();
    let mut i: usize = 0;
    while i < order.len()
        invariant
            i <= order.len(),
            order@ == all_weekdays(),
            shared@ == spec_common_days(order@.subrange(0, i as int), first.days@, second.days@),
        decreases order.len() - i,
    {
        let day = order[i];
        assert(order@.subrange(0, i + 1).drop_last() =~= order@.subrange(0, i as int));
        if contains_day(&first.days, day) && contains_day(&second.days, day) {
            shared.push(day);
        }
        i = i + 1;
    }
    assert(order@.subrange(0, 7) =~= order@);
    shared
}

/// One conflict per shared weekday of windows `i` and `j`, when their times overlap.
pub open spec fn spec_pair_conflicts(ws: Seq<CompiledView>, i: int, j: int) -> Seq<ScheduleConflict> {
    match spec_overlap(ws[i].start, ws[i].end, ws[j].start, ws[j].end) {
        Some((s, e)) => spec_shared_weekdays(ws[i].days, ws[j].days).map_values(
            |d: Weekday|
                ScheduleConflict {
                    first_window_index: i as usize,
                    second_window_index: j as usize,
                    weekday: d,
                    overlap_start_minutes: s,
                    overlap_end_minutes: e,
                },
        ),
        None => Seq::empty(),
    }
}

/// Conflicts of window `i` with windows `j`, `j + 1`, ... in order.
pub open spec fn spec_row_conflicts(ws: Seq<CompiledView>, i: int, j: int) -> Seq<ScheduleConflict>
    decreases ws.len() - j,
{
    if j >= ws.len() || j < 0 {
        Seq::empty()
    } else {
        spec_pair_conflicts(ws, i, j) + spec_row_conflicts(ws, i, j + 1)
    }
}

/// Conflicts of windows `i`, `i + 1`, ... with the windows after them.
pub open spec fn spec_conflicts_from(ws: Seq<CompiledView>, i: int) -> Seq<ScheduleConflict>
    decreases ws.len() - i,
{
    if i >= ws.len() || i < 0 {
        Seq::empty()
    } else {
        spec_row_conflicts(ws, i, i + 1) + spec_conflicts_from(ws, i + 1)
    }
}

/// Every overlapping pair of windows on every weekday they share, first
/// window first.
pub fn find_recurring_conflicts(windows: &Vec<RecurringWindow>) -> (r: Vec<ScheduleConflict>)
    ensures
        r@ == spec_conflicts_from(compiled_view(windows@), 0),
{
    let ghost ws = compiled_view(windows@);
    let mut conflicts: Vec<ScheduleConflict> = Vec::new();
    let mut i: usize = 0;
    assert(conflicts@ + spec_conflicts_from(ws, 0) =~= spec_conflicts_from(ws, 0));
    while i < windows.len()
        invariant
            i <= windows.len(),
            ws == compiled_view(windows@),
            conflicts@ + spec_conflicts_from(ws, i as int) == spec_conflicts_from(ws, 0),
        decreases windows.len() - i,
    {
        let mut j: usize = i + 1;
        assert(conflicts@ + (spec_row_conflicts(ws, i as int, j as int) + spec_conflicts_from(
            ws,
            i + 1,
        )) == spec_conflicts_from(ws, 0));
        while j < windows.len()
            invariant
                i < windows.len(),
                i + 1 <= j <= windows.len(),
                ws == compiled_view(windows@),
                conflicts@ + (spec_row_conflicts(ws, i as int, j as int) + spec_conflicts_from(
                    ws,
                    i + 1,
                )) == spec_conflicts_from(ws, 0),
            decreases windows.len() - j,
        {
            let first = &windows[i];
            let second = &windows[j];
            let ghost before = conflicts@;
            let ghost pair = spec_pair_conflicts(ws, i as int, j as int);
            match overlap_minutes(
                first.start_minutes,
                first.end_minutes,
                second.start_minutes,
                second.end_minutes,
            ) {
                Some((overlap_start, overlap_end)) => {
                    let days = shared_weekdays(first, second);
                    let mut k: usize = 0;
                    while k < days.len()
                        invariant
                            k <= days.len(),
                            days@ == spec_shared_weekdays(ws[i as int].days, ws[j as int].days),
                            spec_overlap(ws[i as int].start, ws[i as int].end, ws[j as int].start, ws[j as int].end) == Some((overlap_start, overlap_end)),
                            pair == spec_pair_conflicts(ws, i as int, j as int),
                            conflicts@ == before + pair.subrange(0, k as int),
                        decreases days.len() - k,
                    {
                        conflicts.push(
                            ScheduleConflict {
                                first_window_index: i,
                                second_window_index: j,
                                weekday: days[k],
                                overlap_start_minutes: overlap_start,
                                overlap_end_minutes: overlap_end,
                            },
                        );
                        assert(pair.subrange(0, k + 1) =~= pair.subrange(0, k as int).push(pair[k as int]));
                        k = k + 1;
                    }
                    assert(pair.subrange(0, k as int) =~= pair);
                },
                None => {
                    assert(pair =~= Seq::<ScheduleConflict>::empty());
                    assert(conflicts@ =~= before + pair);
                },
            }
            assert(conflicts@ + (spec_row_conflicts(ws, i as int, j + 1) + spec_conflicts_from(
                ws,
                i + 1,
            )) =~= before + (spec_row_conflicts(ws, i as int, j as int) + spec_conflicts_from(
                ws,
                i + 1,
            )));
            j = j + 1;
        }
        assert(spec_row_conflicts(ws, i as int, j as int) =~= Seq::<ScheduleConflict>::empty());
        assert(conflicts@ + spec_conflicts_from(ws, i + 1) =~= conflicts@ + (spec_row_conflicts(
            ws,
            i as int,
            j as int,
        ) + spec_conflicts_from(ws, i + 1)));
        i = i + 1;
    }
    assert(conflicts@ + spec_conflicts_from(ws, i as int) =~= conflicts@);
    conflicts
}

/// The order conflicts are reported in: by weekday, then overlap start and
/// end, then the two window positions.
pub open spec fn conflict_le(a: ScheduleConflict, b: ScheduleConflict) -> bool {
    let (ad, bd) = (a.weekday.spec_index(), b.weekday.spec_index());
    if ad != bd {
        ad < bd
    } else if a.overlap_start_minutes != b.overlap_start_minutes {
        a.overlap_start_minutes < b.overlap_start_minutes
    } else if a.overlap_end_minutes != b.overlap_end_minutes {
        a.overlap_end_minutes < b.overlap_end_minutes
    } else if a.first_window_index != b.first_window_index {
        a.first_window_index < b.first_window_index
    } else {
        a.second_window_index <= b.second_window_index
    }
}

proof fn lemma_weekday_index_injective(a: Weekday, b: Weekday)
    ensures
        a.spec_index() == b.spec_index() ==> a == b,
{
}

proof fn lemma_conflict_le_connected(a: ScheduleConflict, b: ScheduleConflict)
    ensures
        conflict_le(a, b) || conflict_le(b, a),
{
}

proof fn lemma_conflict_le_transitive(a: ScheduleConflict, b: ScheduleConflict, c: ScheduleConflict)
    requires
        conflict_le(a, b),
        conflict_le(b, c),
    ensures
        conflict_le(a, c),
{
}

/// The report order is a total order on conflicts.
pub proof fn lemma_conflict_order_total()
    ensures
        vstd::relations::total_ordering(|a: ScheduleConflict, b: ScheduleConflict| conflict_le(a, b)),
{
    let le = |a: ScheduleConflict, b: ScheduleConflict| conflict_le(a, b);
    assert forall|a: ScheduleConflict, b: ScheduleConflict| #[trigger] le(a, b) && #[trigger] le(b, a) implies a == b by {
        lemma_weekday_index_injective(a.weekday, b.weekday);
    }
}

fn conflict_le_exec(a: &ScheduleConflict, b: &ScheduleConflict) -> (r: bool)
    ensures
        r == conflict_le(*a, *b),
{
    let ad = a.weekday.num_days_from_monday();
    let bd = b.weekday.num_days_from_monday();
    if ad != bd {
        ad < bd
    } else if a.overlap_start_minutes != b.overlap_start_minutes {
        a.overlap_start_minutes < b.overlap_start_minutes
    } else if a.overlap_end_minutes != b.overlap_end_minutes {
        a.overlap_end_minutes < b.overlap_end_minutes
    } else if a.first_window_index != b.first_window_index {
        a.first_window_index < b.first_window_index
    } else {
        a.second_window_index <= b.second_window_index
    }
}

/// Conflicts in report order.
fn sort_conflicts(v: Vec<ScheduleConflict>) -> (r: Vec<ScheduleConflict>)
    ensures
        r@ == v@.sort_by(|a: ScheduleConflict, b: ScheduleConflict| conflict_le(a, b)),
{
    let ghost le = |a: ScheduleConflict, b: ScheduleConflict| conflict_le(a, b);
    proof {
        lemma_conflict_order_total();
    }
    let mut sorted: Vec<ScheduleConflict> = Vec::new();
    let mut i: usize = 0;
    assert(v@.subrange(0, 0) =~= Seq::<ScheduleConflict>::empty());
    while i < v.len()
        invariant
            i <= v.len(),
            le == (|a: ScheduleConflict, b: ScheduleConflict| conflict_le(a, b)),
            vstd::relations::total_ordering(le),
            vstd::relations::sorted_by(sorted@, le),
            sorted@.to_multiset() == v@.subrange(0, i as int).to_multiset(),
        decreases v.len() - i,
    {
        let x = v[i];
        let mut p: usize = 0;
        while p < sorted.len() && conflict_le_exec(&sorted[p], &x)
            invariant
                p <= sorted.len(),
                forall|k: int| 0 <= k < p ==> conflict_le(#[trigger] sorted@[k], x),
            decreases sorted.len() - p,
        {
            p = p + 1;
        }
        let ghost old_sorted = sorted@;
        proof {
            assert forall|k: int| 0 <= k < p implies conflict_le(#[trigger] old_sorted[k], x) by {
                assert(conflict_le(sorted@[k], x));
            }
            assert forall|k: int| p <= k < old_sorted.len() implies conflict_le(x, #[trigger] old_sorted[k]) by {
                assert(!conflict_le(old_sorted[p as int], x));
                lemma_conflict_le_connected(x, old_sorted[p as int]);
                if k > p {
                    assert(le(old_sorted[p as int], old_sorted[k]));
                    lemma_conflict_le_transitive(x, old_sorted[p as int], old_sorted[k]);
                }
            }
        }
        sorted.insert(p, x);
        proof {
            assert(sorted@ == old_sorted.insert(p as int, x));
            assert forall|a: int, b: int| 0 <= a < b < sorted@.len() implies #[trigger] le(sorted@[a], sorted@[b]) by {
                if a < p && b < p {
                    assert(le(old_sorted[a], old_sorted[b]));
                } else if a < p && b == p {
                    assert(conflict_le(old_sorted[a], x));
                } else if a < p && b > p {
                    assert(conflict_le(old_sorted[a], x));
                    assert(conflict_le(x, old_sorted[b - 1]));
                    lemma_conflict_le_transitive(old_sorted[a], x, old_sorted[b - 1]);
                } else if a == p {
                    assert(conflict_le(x, old_sorted[b - 1]));
                } else {
                    assert(le(old_sorted[a - 1], old_sorted[b - 1]));
                }
            }
            assert(v@.subrange(0, i + 1) =~= v@.subrange(0, i as int).push(x));
            vstd::seq_lib::to_multiset_insert(old_sorted, p as int, x);
            vstd::seq_lib::to_multiset_build(v@.subrange(0, i as int), x);
        }
        i = i + 1;
    }
    proof {
        assert(v@.subrange(0, v.len() as int) =~= v@);
        v@.lemma_sort_by_ensures(le);
        vstd::seq_lib::lemma_sorted_unique(sorted@, v@.sort_by(le), le);
    }
    sorted
}

/// The conflicts among compiled windows, in report order.
pub fn inspect_schedule_conflicts(recurring_windows: &Vec<RecurringWindow>) -> (r: Vec<ScheduleConflict>)
    ensures
        r@ == spec_conflicts_from(compiled_view(recurring_windows@), 0).sort_by(
            |a: ScheduleConflict, b: ScheduleConflict| conflict_le(a, b),
        ),
{
    let conflicts = find_recurring_conflicts(recurring_windows);
    sort_conflicts(conflicts)
}

/// The conflicts of a configured schedule, in report order.
pub fn inspect_schedule_conflicts_from_config(schedule: &RecurringScheduleConfig) -> (r: Vec<ScheduleConflict>)
    ensures
        r@ == spec_conflicts_from(spec_compile_windows(schedule@), 0).sort_by(
            |a: ScheduleConflict, b: ScheduleConflict| conflict_le(a, b),
        ),
{
    let windows = compile_windows(&schedule.windows);
    inspect_schedule_conflicts(&windows)
}

/// `c` records windows `i < j` that share its weekday and whose times
/// overlap exactly in its range.
pub open spec fn is_conflict_of(ws: Seq<CompiledView>, c: ScheduleConflict) -> bool {
    let i = c.first_window_index as int;
    let j = c.second_window_index as int;
    &&& 0 <= i < j < ws.len()
    &&& ws[i].days.contains(c.weekday)
    &&& ws[j].days.contains(c.weekday)
    &&& spec_overlap(ws[i].start, ws[i].end, ws[j].start, ws[j].end) == Some(
        (c.overlap_start_minutes, c.overlap_end_minutes),
    )
}

proof fn lemma_common_days_contains(order: Seq<Weekday>, a: Seq<Weekday>, b: Seq<Weekday>, d: Weekday)
    ensures
        spec_common_days(order, a, b).contains(d) <==> (order.contains(d) && a.contains(d) && b.contains(d)),
    decreases order.len(),
{
    if order.len() > 0 {
        let p = order.drop_last();
        lemma_common_days_contains(p, a, b, d);
        let prev = spec_common_days(p, a, b);
        if order.contains(d) && d != order.last() {
            let k = choose|k: int| 0 <= k < order.len() && order[k] == d;
            assert(p[k] == d);
        }
        if p.contains(d) {
            let k = choose|k: int| 0 <= k < p.len() && p[k] == d;
            assert(order[k] == d);
        }
        if a.contains(order.last()) && b.contains(order.last()) {
            if prev.push(order.last()).contains(d) && d != order.last() {
                let k = choose|k: int| 0 <= k < prev.push(order.last()).len() && prev.push(order.last())[k] == d;
                assert(prev[k] == d);
            }
            if prev.contains(d) {
                let k = choose|k: int| 0 <= k < prev.len() && prev[k] == d;
                assert(prev.push(order.last())[k] == d);
            }
            assert(prev.push(order.last())[prev.len() as int] == order.last());
        }
        assert(order[order.len() - 1] == order.last());
    }
}

proof fn lemma_pair_conflicts_contains(ws: Seq<CompiledView>, i: int, j: int, c: ScheduleConflict)
    requires
        0 <= i < j < ws.len(),
        ws.len() <= usize::MAX,
    ensures
        spec_pair_conflicts(ws, i, j).contains(c) <==> (c.first_window_index == i && c.second_window_index == j
            && is_conflict_of(ws, c)),
{
    let shared = spec_shared_weekdays(ws[i].days, ws[j].days);
    lemma_common_days_contains(all_weekdays(), ws[i].days, ws[j].days, c.weekday);
    assert(all_weekdays().contains(c.weekday)) by {
        match c.weekday {
            Weekday::Mon => assert(all_weekdays()[0] == c.weekday),
            Weekday::Tue => assert(all_weekdays()[1] == c.weekday),
            Weekday::Wed => assert(all_weekdays()[2] == c.weekday),
            Weekday::Thu => assert(all_weekdays()[3] == c.weekday),
            Weekday::Fri => assert(all_weekdays()[4] == c.weekday),
            Weekday::Sat => assert(all_weekdays()[5] == c.weekday),
            Weekday::Sun => assert(all_weekdays()[6] == c.weekday),
        }
    }
    match spec_overlap(ws[i].start, ws[i].end, ws[j].start, ws[j].end) {
        Some((s, e)) => {
            let pc = spec_pair_conflicts(ws, i, j);
            if pc.contains(c) {
                let k = choose|k: int| 0 <= k < pc.len() && pc[k] == c;
                assert(shared.contains(shared[k]));
            }
            if c.first_window_index == i && c.second_window_index == j && is_conflict_of(ws, c) {
                assert(shared.contains(c.weekday));
                let k = choose|k: int| 0 <= k < shared.len() && shared[k] == c.weekday;
                assert(pc[k] == c);
            }
        },
        None => {},
    }
}

proof fn lemma_row_conflicts_contains(ws: Seq<CompiledView>, i: int, j: int, c: ScheduleConflict)
    requires
        0 <= i < j,
        ws.len() <= usize::MAX,
    ensures
        spec_row_conflicts(ws, i, j).contains(c) <==> (c.first_window_index == i && c.second_window_index >= j
            && is_conflict_of(ws, c)),
    decreases ws.len() - j,
{
    if j < ws.len() {
        lemma_row_conflicts_contains(ws, i, j + 1, c);
        lemma_pair_conflicts_contains(ws, i, j, c);
        let a = spec_pair_conflicts(ws, i, j);
        let b = spec_row_conflicts(ws, i, j + 1);
        vstd::seq_lib::lemma_seq_concat_contains_all_elements(a, b, c);
        if (a + b).contains(c) {
            let k = choose|k: int| 0 <= k < (a + b).len() && (a + b)[k] == c;
            if k < a.len() {
                assert(a[k] == c);
            } else {
                assert(b[k - a.len()] == c);
            }
        }
    }
}

proof fn lemma_conflicts_from_contains(ws: Seq<CompiledView>, i: int, c: ScheduleConflict)
    requires
        0 <= i,
        ws.len() <= usize::MAX,
    ensures
        spec_conflicts_from(ws, i).contains(c) <==> (c.first_window_index >= i && is_conflict_of(ws, c)),
    decreases ws.len() - i,
{
    if i < ws.len() {
        lemma_conflicts_from_contains(ws, i + 1, c);
        lemma_row_conflicts_contains(ws, i, i + 1, c);
        let a = spec_row_conflicts(ws, i, i + 1);
        let b = spec_conflicts_from(ws, i + 1);
        vstd::seq_lib::lemma_seq_concat_contains_all_elements(a, b, c);
        if (a + b).contains(c) {
            let k = choose|k: int| 0 <= k < (a + b).len() && (a + b)[k] == c;
            if k < a.len() {
                assert(a[k] == c);
            } else {
                assert(b[k - a.len()] == c);
            }
        }
    }
}

/// A conflict is reported for exactly those pairs of windows that share a
/// weekday and overlap in time, once per shared weekday, with the shared
/// minute range.
pub proof fn lemma_reported_conflicts_are_exactly_overlaps(ws: Seq<CompiledView>, c: ScheduleConflict)
    requires
        ws.len() <= usize::MAX,
    ensures
        spec_conflicts_from(ws, 0).sort_by(|a: ScheduleConflict, b: ScheduleConflict| conflict_le(a, b)).contains(c)
            <==> is_conflict_of(ws, c),
{
    let le = |a: ScheduleConflict, b: ScheduleConflict| conflict_le(a, b);
    lemma_conflict_order_total();
    let all = spec_conflicts_from(ws, 0);
    all.lemma_sort_by_ensures(le);
    lemma_conflicts_from_contains(ws, 0, c);
    vstd::seq_lib::to_multiset_contains(all, c);
    vstd::seq_lib::to_multiset_contains(all.sort_by(le), c);
}

/// Two windows conflict only when they share a minute: every reported
/// conflict is of windows `i < j` that both run on its weekday, its range
/// runs from the later of their starts to the earlier of their ends, and
/// that range is not empty. Back-to-back windows, where one ends as the
/// other starts, never conflict.
pub proof fn lemma_conflicts_share_a_minute(ws: Seq<CompiledView>, c: ScheduleConflict)
    requires
        ws.len() <= usize::MAX,
    ensures
        spec_conflicts_from(ws, 0).sort_by(|a: ScheduleConflict, b: ScheduleConflict| conflict_le(a, b)).contains(c)
            <==> ({
            let i = c.first_window_index as int;
            let j = c.second_window_index as int;
            &&& 0 <= i < j < ws.len()
            &&& ws[i].days.contains(c.weekday)
            &&& ws[j].days.contains(c.weekday)
            &&& c.overlap_start_minutes as int == (if ws[i].start >= ws[j].start {
                ws[i].start
            } else {
                ws[j].start
            }) as int
            &&& c.overlap_end_minutes as int == (if ws[i].end <= ws[j].end {
                ws[i].end
            } else {
                ws[j].end
            }) as int
            &&& c.overlap_start_minutes < c.overlap_end_minutes
        }),
{
    lemma_reported_conflicts_are_exactly_overlaps(ws, c);
}

/// Back-to-back windows never conflict: when one window ends no later than
/// the other starts, no conflict between them is reported, on any day.
pub proof fn lemma_back_to_back_windows_do_not_conflict(ws: Seq<CompiledView>, c: ScheduleConflict)
    requires
        ws.len() <= usize::MAX,
        0 <= c.first_window_index < c.second_window_index < ws.len(),
        ws[c.first_window_index as int].end <= ws[c.second_window_index as int].start
            || ws[c.second_window_index as int].end <= ws[c.first_window_index as int].start,
        forall|k: int| 0 <= k < ws.len() ==> (#[trigger] ws[k]).start < ws[k].end,
    ensures
        !spec_conflicts_from(ws, 0).sort_by(|a: ScheduleConflict, b: ScheduleConflict| conflict_le(a, b)).contains(
            c,
        ),
{
    lemma_conflicts_share_a_minute(ws, c);
    let i = c.first_window_index as int;
    let j = c.second_window_index as int;
    assert(ws[i].start < ws[i].end);
    assert(ws[j].start < ws[j].end);
}

/// The upper-case three-letter label of a weekday.
pub open spec fn spec_day_label(d: Weekday) -> Seq<char> {
    match d {
        Weekday::Mon => "MON"@,
        Weekday::Tue => "TUE"@,
        Weekday::Wed => "WED"@,
        Weekday::Thu => "THU"@,
        Weekday::Fri => "FRI"@,
        Weekday::Sat => "SAT"@,
        Weekday::Sun => "SUN"@,
    }
}

/// The three-letter token of a weekday.
pub fn day_token(day: Weekday) -> (r: &'static str)
    ensures
        r@ == match day {
            Weekday::Mon => "mon"@,
            Weekday::Tue => "tue"@,
            Weekday::Wed => "wed"@,
            Weekday::Thu => "thu"@,
            Weekday::Fri => "fri"@,
            Weekday::Sat => "sat"@,
            Weekday::Sun => "sun"@,
        },
{
    match day {
        Weekday::Mon => "mon",
        Weekday::Tue => "tue",
        Weekday::Wed => "wed",
        Weekday::Thu => "thu",
        Weekday::Fri => "fri",
        Weekday::Sat => "sat",
        Weekday::Sun => "sun",
    }
}

fn day_label(day: Weekday) -> (r: &'static str)
    ensures
        r@ == spec_day_label(day),
{
    match day {
        Weekday::Mon => "MON",
        Weekday::Tue => "TUE",
        Weekday::Wed => "WED",
        Weekday::Thu => "THU",
        Weekday::Fri => "FRI",
        Weekday::Sat => "SAT",
        Weekday::Sun => "SUN",
    }
}

/// `HH:MM` of a minute count, each part at least two digits.
pub open spec fn spec_format_minutes(total: u16) -> Seq<char> {
    crate::text::decimal2((total / 60) as nat) + ":"@ + crate::text::decimal2((total % 60) as nat)
}

/// Renders minutes after midnight as `HH:MM`.
pub fn format_minutes(total_minutes: u16) -> (r: String)
    ensures
        r@ == spec_format_minutes(total_minutes),
{
    let hours = u64_to_string2((total_minutes / 60) as u64);
    let minutes = u64_to_string2((total_minutes % 60) as u64);
    let mut r = concat(hours.as_str(), ":");
    r.append(minutes.as_str());
    r
}

/// `"MON: recurring #1 overlaps recurring #2 at 10:30-11:00"`, positions counted from one.
pub open spec fn spec_format_conflict(c: ScheduleConflict) -> Seq<char> {
    spec_day_label(c.weekday) + ": recurring #"@ + crate::text::decimal((c.first_window_index + 1) as nat)
        + " overlaps recurring #"@ + crate::text::decimal((c.second_window_index + 1) as nat) + " at "@
        + spec_format_minutes(c.overlap_start_minutes) + "-"@ + spec_format_minutes(c.overlap_end_minutes)
}

/// Describes a conflict for people.
pub fn format_schedule_conflict(conflict: &ScheduleConflict) -> (r: String)
    requires
        conflict.first_window_index < u64::MAX,
        conflict.second_window_index < u64::MAX,
    ensures
        r@ == spec_format_conflict(*conflict),
{
    let mut r = concat(day_label(conflict.weekday), ": recurring #");
    let first = u64_to_string((conflict.first_window_index as u64) + 1);
    r.append(first.as_str());
    r.append(" overlaps recurring #");
    let second = u64_to_string((conflict.second_window_index as u64) + 1);
    r.append(second.as_str());
    r.append(" at ");
    let start = format_minutes(conflict.overlap_start_minutes);
    r.append(start.as_str());
    r.append("-");
    let end = format_minutes(conflict.overlap_end_minutes);
    r.append(end.as_str());
    r
}

} // verus!
