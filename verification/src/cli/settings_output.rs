//! The text form of the one-setting commands' reports: the lines printed for
//! each, built here and printed by the caller.
use crate::cli::render::{lines_view, push_line};
use crate::cli::settings_commands::{
    format_duration, spec_duration_text, GoalCarryCommandOutput, GoalCommandOutput, ProfileOutput,
    ScheduleCommandOutput, StrictCommandOutput, ThemeCommandOutput,
};
use crate::cli::report::{HistoryDashboardCardOutput, HistoryDashboardCommandOutput};
use crate::cli::status::{ProfileView, ThemePresetView};
use crate::config::{strings_view, RecurringFocusWindowConfig, WindowView};
use crate::text::{decimal, join_strings, joined, owned, u64_to_string};
use vstd::prelude::*;

verus! {

/// `on` or `off`.
pub open spec fn on_off(b: bool) -> Seq<char> {
    if b {
        "on"@
    } else {
        "off"@
    }
}

fn on_off_text(b: bool) -> (r: &'static str)
    ensures
        r@ == on_off(b),
{
    proof {
        reveal_strlit("on");
        reveal_strlit("off");
    }
    if b {
        "on"
    } else {
        "off"
    }
}

/// The line naming a theme preset: `Label (id)`.
pub open spec fn preset_name(t: ThemePresetView) -> Seq<char> {
    t.label@ + " ("@ + t.id@ + ")"@
}

/// One entry of the available theme presets.
pub open spec fn preset_entry_line(t: ThemePresetView) -> Seq<char> {
    "  - "@ + preset_name(t)
}

/// One entry of the available profiles: its lengths and cadence.
pub open spec fn profile_entry_line(p: ProfileView) -> Seq<char> {
    "  - "@ + p.label@ + " ("@ + p.id@ + "): "@ + spec_duration_text(p.focus_secs) + "/"@ + spec_duration_text(
        p.short_break_secs,
    ) + "/"@ + spec_duration_text(p.long_break_secs) + " every "@ + decimal(p.long_break_interval as nat)
        + " focus"@
}

/// The durations line of the selected profile.
pub open spec fn durations_line(p: ProfileView) -> Seq<char> {
    "Durations: focus "@ + spec_duration_text(p.focus_secs) + ", short break "@ + spec_duration_text(
        p.short_break_secs,
    ) + ", long break "@ + spec_duration_text(p.long_break_secs) + ", cadence every "@ + decimal(
        p.long_break_interval as nat,
    ) + " focus"@
}

/// `line` when `b` holds, else nothing.
pub open spec fn line_if(b: bool, line: Seq<char>) -> Seq<Seq<char>> {
    if b {
        seq![line]
    } else {
        Seq::empty()
    }
}

/// The selected theme preset and the available ones.
pub open spec fn spec_presets_lines(selected: ThemePresetView, available: Seq<ThemePresetView>) -> Seq<Seq<char>> {
    seq!["Selected theme preset: "@ + preset_name(selected)] + seq!["Available theme presets:"@]
        + available.map_values(|t: ThemePresetView| preset_entry_line(t))
}

/// The lines printed for the profile command.
pub open spec fn spec_profile_lines(o: ProfileOutput) -> Seq<Seq<char>> {
    line_if(o.updated, "Active profile updated."@) + seq![
        "Selected profile: "@ + o.selected.label@ + " ("@ + o.selected.id@ + ")"@,
        durations_line(o.selected),
        "Selected theme preset: "@ + preset_name(o.selected_theme_preset),
        "Available profiles:"@,
    ] + o.available@.map_values(|p: ProfileView| profile_entry_line(p)) + seq!["Available theme presets:"@]
        + o.available_theme_presets@.map_values(|t: ThemePresetView| preset_entry_line(t))
}

/// The lines printed for the theme command.
pub open spec fn spec_theme_lines(o: ThemeCommandOutput) -> Seq<Seq<char>> {
    line_if(o.updated, "Theme preset updated."@) + spec_presets_lines(
        o.selected_theme_preset,
        o.available_theme_presets@,
    )
}

/// The lines printed for a goal command, under the goal's label.
pub open spec fn spec_goal_lines(label: Seq<char>, o: GoalCommandOutput) -> Seq<Seq<char>> {
    line_if(o.updated, label + " goal updated."@) + seq![
        if o.configured {
            label + " goal: "@ + decimal(o.minutes_target as nat) + " min, "@ + decimal(o.pomodoros_target as nat)
                + " pomodoros"@
        } else {
            label + " goal: off"@
        },
    ]
}

/// The lines printed for a goal carry-over command, under the goal's label.
pub open spec fn spec_goal_carry_lines(label: Seq<char>, o: GoalCarryCommandOutput) -> Seq<Seq<char>> {
    line_if(o.updated, label + " goal carry-over updated."@) + seq![
        label + " goal carry-over: "@ + on_off(o.carry_over),
    ]
}

/// The lines printed for the strict mode command.
pub open spec fn spec_strict_lines(o: StrictCommandOutput) -> Seq<Seq<char>> {
    line_if(o.updated, "Strict mode updated."@) + seq!["Strict mode: "@ + on_off(o.strict_mode)]
}

/// One recurring window: `  - [mon,tue] 09:00-12:00`.
pub open spec fn window_line(w: WindowView) -> Seq<char> {
    "  - ["@ + joined(w.days, ","@) + "] "@ + w.start + "-"@ + w.end
}

/// The lines printed for the schedule command.
pub open spec fn spec_schedule_lines(o: ScheduleCommandOutput) -> Seq<Seq<char>> {
    line_if(o.updated, "Schedule updated."@) + (if o.schedule@.len() == 0 {
        seq!["Recurring windows: none"@]
    } else {
        seq!["Recurring windows:"@] + o.schedule@.map_values(|w: WindowView| window_line(w))
    }) + (if o.inspection.conflicts@.len() == 0 {
        seq!["Schedule conflicts: none"@]
    } else {
        seq!["Schedule conflicts: "@ + decimal(o.inspection.conflict_count as nat) + " detected"@]
            + o.inspection.conflicts@.map_values(|c: String| "  - "@ + c@)
    })
}

/// Appends `line` when `b` holds.
fn push_line_if(lines: &mut Vec<String>, b: bool, line: &str)
    ensures
        lines_view(final(lines)@) == lines_view(old(lines)@) + line_if(b, line@),
{
    proof {
        reveal_strlit("");
        assert(line@ + ""@ =~= line@);
    }
    if b {
        push_line(lines, line, "");
        assert(lines_view(lines@) =~= lines_view(old(lines)@) + line_if(b, line@));
    } else {
        assert(lines_view(lines@) =~= lines_view(old(lines)@) + line_if(b, line@));
    }
}

/// Appends the available theme presets, one line each.
fn push_preset_entries(lines: &mut Vec<String>, presets: &Vec<ThemePresetView>)
    ensures
        lines_view(final(lines)@) == lines_view(old(lines)@) + presets@.map_values(
            |t: ThemePresetView| preset_entry_line(t),
        ),
{
    let ghost l0 = lines_view(lines@);
    let mut i: usize = 0;
    while i < presets.len()
        invariant
            i <= presets.len(),
            lines_view(lines@) == l0 + presets@.subrange(0, i as int).map_values(
                |t: ThemePresetView| preset_entry_line(t),
            ),
        decreases presets.len() - i,
    {
        let t = presets[i];
        let mut line = owned("  - ");
        line.append(t.label);
        line.append(" (");
        line.append(t.id);
        line.append(")");
        assert(line@ =~= preset_entry_line(presets@[i as int]));
        let ghost before = lines_view(lines@);
        let ghost lv = line@;
        lines.push(line);
        assert(lines_view(lines@) =~= before.push(lv));
        assert(presets@.subrange(0, i + 1).map_values(|t: ThemePresetView| preset_entry_line(t)) =~= presets@.subrange(
            0,
            i as int,
        ).map_values(|t: ThemePresetView| preset_entry_line(t)).push(preset_entry_line(presets@[i as int])));
        i = i + 1;
    }
    assert(presets@.subrange(0, presets.len() as int) =~= presets@);
}

/// Appends the selected theme preset and the available ones.
fn push_presets(lines: &mut Vec<String>, selected: ThemePresetView, available: &Vec<ThemePresetView>)
    ensures
        lines_view(final(lines)@) == lines_view(old(lines)@) + spec_presets_lines(selected, available@),
{
    let ghost l0 = lines_view(lines@);
    let name = preset_name_text(selected);
    push_line(lines, "Selected theme preset: ", name.as_str());
    push_line(lines, "Available theme presets:", "");
    push_preset_entries(lines, available);
    proof {
        reveal_strlit("");
        assert("Available theme presets:"@ + ""@ =~= "Available theme presets:"@);
    }
    assert(lines_view(lines@) =~= l0 + spec_presets_lines(selected, available@));
}

fn preset_name_text(t: ThemePresetView) -> (r: String)
    ensures
        r@ == preset_name(t),
{
    let mut r = owned(t.label);
    r.append(" (");
    r.append(t.id);
    r.append(")");
    r
}

fn profile_entry_text(p: &ProfileView) -> (r: String)
    ensures
        r@ == profile_entry_line(*p),
{
    let mut r = owned("  - ");
    r.append(p.label);
    r.append(" (");
    r.append(p.id);
    r.append("): ");
    let f = format_duration(p.focus_secs);
    r.append(f.as_str());
    r.append("/");
    let s = format_duration(p.short_break_secs);
    r.append(s.as_str());
    r.append("/");
    let l = format_duration(p.long_break_secs);
    r.append(l.as_str());
    r.append(" every ");
    let n = u64_to_string(p.long_break_interval as u64);
    r.append(n.as_str());
    r.append(" focus");
    r
}

fn durations_text(p: &ProfileView) -> (r: String)
    ensures
        r@ == durations_line(*p),
{
    let mut r = owned("Durations: focus ");
    let f = format_duration(p.focus_secs);
    r.append(f.as_str());
    r.append(", short break ");
    let s = format_duration(p.short_break_secs);
    r.append(s.as_str());
    r.append(", long break ");
    let l = format_duration(p.long_break_secs);
    r.append(l.as_str());
    r.append(", cadence every ");
    let n = u64_to_string(p.long_break_interval as u64);
    r.append(n.as_str());
    r.append(" focus");
    r
}

/// The lines printed for the profile command.
pub fn profile_output_lines(o: &ProfileOutput) -> (r: Vec<String>)
    ensures
        lines_view(r@) == spec_profile_lines(*o),
{
    let mut lines: Vec<String> = Vec::new();
    assert(lines_view(lines@) =~= Seq::<Seq<char>>::empty());
    push_line_if(&mut lines, o.updated, "Active profile updated.");
    let ghost l1 = lines_view(lines@);
    let mut sel = owned(o.selected.label);
    sel.append(" (");
    sel.append(o.selected.id);
    sel.append(")");
    push_line(&mut lines, "Selected profile: ", sel.as_str());
    assert("Selected profile: "@ + sel@ =~= "Selected profile: "@ + o.selected.label@ + " ("@ + o.selected.id@ + ")"@);
    let d = durations_text(&o.selected);
    push_line(&mut lines, d.as_str(), "");
    let name = preset_name_text(o.selected_theme_preset);
    push_line(&mut lines, "Selected theme preset: ", name.as_str());
    assert("Selected theme preset: "@ + name@ =~= "Selected theme preset: "@ + preset_name(o.selected_theme_preset));
    push_line(&mut lines, "Available profiles:", "");
    proof {
        reveal_strlit("");
        assert(d@ + ""@ =~= d@);
        assert("Available profiles:"@ + ""@ =~= "Available profiles:"@);
    }
    let ghost l2 = lines_view(lines@);
    assert(l2 =~= line_if(o.updated, "Active profile updated."@) + seq![
        "Selected profile: "@ + o.selected.label@ + " ("@ + o.selected.id@ + ")"@,
        durations_line(o.selected),
        "Selected theme preset: "@ + preset_name(o.selected_theme_preset),
        "Available profiles:"@,
    ]);
    let ghost pv = o.available@;
    let mut i: usize = 0;
    while i < o.available.len()
        invariant
            i <= o.available.len(),
            pv == o.available@,
            lines_view(lines@) == l2 + pv.subrange(0, i as int).map_values(|p: ProfileView| profile_entry_line(p)),
        decreases o.available.len() - i,
    {
        let line = profile_entry_text(&o.available[i]);
        let ghost before = lines_view(lines@);
        let ghost lv = line@;
        lines.push(line);
        assert(lines_view(lines@) =~= before.push(lv));
        assert(pv.subrange(0, i + 1).map_values(|p: ProfileView| profile_entry_line(p)) =~= pv.subrange(
            0,
            i as int,
        ).map_values(|p: ProfileView| profile_entry_line(p)).push(profile_entry_line(pv[i as int])));
        i = i + 1;
    }
    assert(pv.subrange(0, pv.len() as int) =~= pv);
    push_line(&mut lines, "Available theme presets:", "");
    assert("Available theme presets:"@ + ""@ =~= "Available theme presets:"@);
    push_preset_entries(&mut lines, &o.available_theme_presets);
    assert(lines_view(lines@) =~= spec_profile_lines(*o));
    lines
}

/// The lines printed for the theme command.
pub fn theme_command_lines(o: &ThemeCommandOutput) -> (r: Vec<String>)
    ensures
        lines_view(r@) == spec_theme_lines(*o),
{
    let mut lines: Vec<String> = Vec::new();
    assert(lines_view(lines@) =~= Seq::<Seq<char>>::empty());
    push_line_if(&mut lines, o.updated, "Theme preset updated.");
    push_presets(&mut lines, o.selected_theme_preset, &o.available_theme_presets);
    assert(lines_view(lines@) =~= spec_theme_lines(*o));
    lines
}

/// The lines printed for a goal command.
pub fn goal_command_lines(label: &str, o: &GoalCommandOutput) -> (r: Vec<String>)
    ensures
        lines_view(r@) == spec_goal_lines(label@, *o),
{
    let mut lines: Vec<String> = Vec::new();
    assert(lines_view(lines@) =~= Seq::<Seq<char>>::empty());
    let updated = crate::text::concat(label, " goal updated.");
    push_line_if(&mut lines, o.updated, updated.as_str());
    let mut line = crate::text::concat(label, " goal: ");
    if o.configured {
        let m = u64_to_string(o.minutes_target);
        line.append(m.as_str());
        line.append(" min, ");
        let p = u64_to_string(o.pomodoros_target as u64);
        line.append(p.as_str());
        line.append(" pomodoros");
    } else {
        line.append("off");
    }
    proof {
        reveal_strlit(" goal: ");
        reveal_strlit("off");
        reveal_strlit(" goal: off");
    }
    assert(line@ =~= (if o.configured {
        label@ + " goal: "@ + decimal(o.minutes_target as nat) + " min, "@ + decimal(o.pomodoros_target as nat)
            + " pomodoros"@
    } else {
        label@ + " goal: off"@
    }));
    push_line(&mut lines, line.as_str(), "");
    proof {
        reveal_strlit("");
        assert(line@ + ""@ =~= line@);
    }
    assert(lines_view(lines@) =~= spec_goal_lines(label@, *o));
    lines
}

/// The lines printed for a goal carry-over command.
pub fn goal_carry_command_lines(label: &str, o: &GoalCarryCommandOutput) -> (r: Vec<String>)
    ensures
        lines_view(r@) == spec_goal_carry_lines(label@, *o),
{
    let mut lines: Vec<String> = Vec::new();
    assert(lines_view(lines@) =~= Seq::<Seq<char>>::empty());
    let updated = crate::text::concat(label, " goal carry-over updated.");
    push_line_if(&mut lines, o.updated, updated.as_str());
    let head = crate::text::concat(label, " goal carry-over: ");
    push_line(&mut lines, head.as_str(), on_off_text(o.carry_over));
    assert(lines_view(lines@) =~= spec_goal_carry_lines(label@, *o));
    lines
}

/// The lines printed for the strict mode command.
pub fn strict_command_lines(o: &StrictCommandOutput) -> (r: Vec<String>)
    ensures
        lines_view(r@) == spec_strict_lines(*o),
{
    let mut lines: Vec<String> = Vec::new();
    assert(lines_view(lines@) =~= Seq::<Seq<char>>::empty());
    push_line_if(&mut lines, o.updated, "Strict mode updated.");
    push_line(&mut lines, "Strict mode: ", on_off_text(o.strict_mode));
    assert(lines_view(lines@) =~= spec_strict_lines(*o));
    lines
}

fn window_text(w: &RecurringFocusWindowConfig) -> (r: String)
    ensures
        r@ == window_line(w@),
{
    let mut r = owned("  - [");
    let days = join_strings(&w.days, ",");
    r.append(days.as_str());
    r.append("] ");
    r.append(w.start.as_str());
    r.append("-");
    r.append(w.end.as_str());
    r
}

/// The lines printed for the schedule command.
pub fn schedule_command_lines(o: &ScheduleCommandOutput) -> (r: Vec<String>)
    ensures
        lines_view(r@) == spec_schedule_lines(*o),
{
    proof {
        reveal_strlit("");
    }
    let mut lines: Vec<String> = Vec::new();
    assert(lines_view(lines@) =~= Seq::<Seq<char>>::empty());
    push_line_if(&mut lines, o.updated, "Schedule updated.");
    let ghost l1 = lines_view(lines@);
    let ghost wv = o.schedule@;
    let windows = &o.schedule.windows;
    if windows.len() == 0 {
        push_line(&mut lines, "Recurring windows: none", "");
        assert("Recurring windows: none"@ + ""@ =~= "Recurring windows: none"@);
    } else {
        push_line(&mut lines, "Recurring windows:", "");
        assert("Recurring windows:"@ + ""@ =~= "Recurring windows:"@);
        let ghost l15 = lines_view(lines@);
        let mut i: usize = 0;
        while i < windows.len()
            invariant
                i <= windows.len(),
                *windows == o.schedule.windows,
                wv == o.schedule@,
                lines_view(lines@) == l15 + wv.subrange(0, i as int).map_values(|w: WindowView| window_line(w)),
            decreases windows.len() - i,
        {
            let line = window_text(&windows[i]);
            assert(wv[i as int] == windows@[i as int]@);
            let ghost before = lines_view(lines@);
            let ghost lv = line@;
            lines.push(line);
            assert(lines_view(lines@) =~= before.push(lv));
            assert(wv.subrange(0, i + 1).map_values(|w: WindowView| window_line(w)) =~= wv.subrange(
                0,
                i as int,
            ).map_values(|w: WindowView| window_line(w)).push(window_line(wv[i as int])));
            i = i + 1;
        }
        assert(wv.subrange(0, windows.len() as int) =~= wv);
    }
    let ghost l2 = lines_view(lines@);
    let conflicts = &o.inspection.conflicts;
    if conflicts.len() == 0 {
        push_line(&mut lines, "Schedule conflicts: none", "");
        assert("Schedule conflicts: none"@ + ""@ =~= "Schedule conflicts: none"@);
    } else {
        let count = u64_to_string(o.inspection.conflict_count as u64);
        let mut head = owned("Schedule conflicts: ");
        head.append(count.as_str());
        head.append(" detected");
        push_line(&mut lines, head.as_str(), "");
        assert(head@ + ""@ =~= head@);
        let ghost l25 = lines_view(lines@);
        let ghost cv = conflicts@;
        let mut i: usize = 0;
        while i < conflicts.len()
            invariant
                i <= conflicts.len(),
                cv == conflicts@,
                lines_view(lines@) == l25 + cv.subrange(0, i as int).map_values(|c: String| "  - "@ + c@),
            decreases conflicts.len() - i,
        {
            push_line(&mut lines, "  - ", conflicts[i].as_str());
            assert(cv.subrange(0, i + 1).map_values(|c: String| "  - "@ + c@) =~= cv.subrange(0, i as int).map_values(
                |c: String| "  - "@ + c@,
            ).push("  - "@ + cv[i as int]@));
            i = i + 1;
        }
        assert(cv.subrange(0, conflicts.len() as int) =~= cv);
    }
    assert(lines_view(lines@) =~= spec_schedule_lines(*o));
    lines
}

/// The lines printed for the history dashboard command: the layout's ids
/// joined with commas, then one line per card.
pub open spec fn spec_dashboard_lines(cards: Seq<HistoryDashboardCardOutput>) -> Seq<Seq<char>> {
    seq!["Default KPI layout: "@ + joined(cards.map_values(|c: HistoryDashboardCardOutput| c.id@), ", "@)] + (if cards.len()
        == 0 {
        seq!["Cards: none"@]
    } else {
        seq!["Cards:"@] + cards.map_values(
            |c: HistoryDashboardCardOutput| "  "@ + c.label@ + " ("@ + c.id@ + ")"@,
        )
    })
}

/// The lines printed for the history dashboard command.
pub fn history_dashboard_lines(o: &HistoryDashboardCommandOutput) -> (r: Vec<String>)
    ensures
        lines_view(r@) == spec_dashboard_lines(o.cards@),
{
    proof {
        reveal_strlit("");
    }
    let cards = &o.cards;
    let ghost cv = cards@;
    let mut ids: Vec<String> = Vec::new();
    let mut i: usize = 0;
    while i < cards.len()
        invariant
            i <= cards.len(),
            cv == cards@,
            ids@.map_values(|s: String| s@) == cv.subrange(0, i as int).map_values(
                |c: HistoryDashboardCardOutput| c.id@,
            ),
        decreases cards.len() - i,
    {
        let ghost before = ids@.map_values(|s: String| s@);
        let id = owned(cards[i].id);
        let ghost idv = id@;
        ids.push(id);
        assert(ids@.map_values(|s: String| s@) =~= before.push(idv));
        assert(cv.subrange(0, i + 1).map_values(|c: HistoryDashboardCardOutput| c.id@) =~= cv.subrange(
            0,
            i as int,
        ).map_values(|c: HistoryDashboardCardOutput| c.id@).push(cv[i as int].id@));
        i = i + 1;
    }
    assert(cv.subrange(0, cards.len() as int) =~= cv);
    let layout = join_strings(&ids, ", ");
    let mut lines: Vec<String> = Vec::new();
    assert(lines_view(lines@) =~= Seq::<Seq<char>>::empty());
    push_line(&mut lines, "Default KPI layout: ", layout.as_str());
    if cards.len() == 0 {
        push_line(&mut lines, "Cards: none", "");
        assert("Cards: none"@ + ""@ =~= "Cards: none"@);
    } else {
        push_line(&mut lines, "Cards:", "");
        assert("Cards:"@ + ""@ =~= "Cards:"@);
        let ghost l1 = lines_view(lines@);
        let mut j: usize = 0;
        while j < cards.len()
            invariant
                j <= cards.len(),
                cv == cards@,
                lines_view(lines@) == l1 + cv.subrange(0, j as int).map_values(
                    |c: HistoryDashboardCardOutput| "  "@ + c.label@ + " ("@ + c.id@ + ")"@,
                ),
            decreases cards.len() - j,
        {
            let card = cards[j];
            let mut line = owned("  ");
            line.append(card.label);
            line.append(" (");
            line.append(card.id);
            line.append(")");
            let ghost before = lines_view(lines@);
            let ghost lv = line@;
            lines.push(line);
            assert(lines_view(lines@) =~= before.push(lv));
            assert(cv.subrange(0, j + 1).map_values(
                |c: HistoryDashboardCardOutput| "  "@ + c.label@ + " ("@ + c.id@ + ")"@,
            ) =~= cv.subrange(0, j as int).map_values(
                |c: HistoryDashboardCardOutput| "  "@ + c.label@ + " ("@ + c.id@ + ")"@,
            ).push("  "@ + cv[j as int].label@ + " ("@ + cv[j as int].id@ + ")"@));
            j = j + 1;
        }
        assert(cv.subrange(0, cards.len() as int) =~= cv);
    }
    assert(lines_view(lines@) =~= spec_dashboard_lines(o.cards@));
    lines
}

} // verus!
