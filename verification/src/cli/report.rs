//! Payloads that commands report: the schedule inspection and the history
//! dashboard layout.
use crate::config::{spec_all_cards, AppConfig, HistoryKpiCardId, RecurringScheduleConfig};
use crate::cli::HistoryDashboardCommandKind;
use crate::schedule::{
    conflict_le, format_schedule_conflict, inspect_schedule_conflicts_from_config,
    lemma_reported_conflicts_are_exactly_overlaps, spec_compile_windows, spec_conflicts_from,
    spec_format_conflict, ScheduleConflict,
};
use vstd::prelude::*;

verus! {

/// Overlapping schedule windows, described for people.
#[derive(Debug, Clone, PartialEq, Eq)]
pub struct ScheduleInspectionOutput {
    pub conflict_count: usize,
    pub conflicts: Vec<String>,
}

/// The conflicts of a schedule, in report order.
pub open spec fn spec_schedule_conflicts(schedule: Seq<crate::config::WindowView>) -> Seq<ScheduleConflict> {
    spec_conflicts_from(spec_compile_windows(schedule), 0).sort_by(
        |a: ScheduleConflict, b: ScheduleConflict| conflict_le(a, b),
    )
}

/// Describes every conflict of a schedule.
pub fn build_schedule_inspection_output(schedule: &RecurringScheduleConfig) -> (r: ScheduleInspectionOutput)
    ensures
        r.conflict_count == r.conflicts@.len(),
        r.conflicts@.map_values(|s: String| s@) == spec_schedule_conflicts(schedule@).map_values(
            |c: ScheduleConflict| spec_format_conflict(c),
        ),
{
    let found = inspect_schedule_conflicts_from_config(schedule);
    let ghost compiled = spec_compile_windows(schedule@);
    let mut conflicts: Vec<String> = Vec::new();
    let mut i: usize = 0;
    while i < found.len()
        invariant
            i <= found.len(),
            found@ == spec_schedule_conflicts(schedule@),
            compiled == spec_compile_windows(schedule@),
            conflicts@.len() == i,
            forall|k: int| 0 <= k < i ==> (#[trigger] conflicts@[k])@ == spec_format_conflict(found@[k]),
        decreases found.len() - i,
    {
        proof {
            lemma_compiled_len(schedule@);
            assert(schedule@.len() == schedule.windows.len());
            assert(found@.contains(found@[i as int]));
            lemma_reported_conflicts_are_exactly_overlaps(compiled, found@[i as int]);
        }
        let text = format_schedule_conflict(&found[i]);
        conflicts.push(text);
        i = i + 1;
    }
    assert(conflicts@.map_values(|s: String| s@) =~= found@.map_values(
        |c: ScheduleConflict| spec_format_conflict(c),
    ));
    ScheduleInspectionOutput { conflict_count: conflicts.len(), conflicts }
}

proof fn lemma_compiled_len(ws: Seq<crate::config::WindowView>)
    ensures
        spec_compile_windows(ws).len() <= ws.len(),
    decreases ws.len(),
{
    if ws.len() > 0 {
        lemma_compiled_len(ws.drop_last());
    }
}

/// One dashboard card: identifier and label.
#[derive(Debug, Clone, Copy, PartialEq, Eq)]
pub struct HistoryDashboardCardOutput {
    pub id: &'static str,
    pub label: &'static str,
}

/// The dashboard layout a history-dashboard command reports.
#[derive(Debug, Clone, PartialEq, Eq)]
pub struct HistoryDashboardCommandOutput {
    pub action: &'static str,
    pub cards: Vec<HistoryDashboardCardOutput>,
}

/// The cards of the configured layout, in order.
pub fn build_history_dashboard_command_output(config: &AppConfig) -> (r: HistoryDashboardCommandOutput)
    ensures
        r.action@ == "history-dashboard"@,
        r.cards@.len() == config.history_dashboard.card_order@.len(),
        forall|k: int| 0 <= k < r.cards@.len() ==> (#[trigger] r.cards@[k]).id@
            == config.history_dashboard.card_order@[k].spec_id(),
{
    let order = &config.history_dashboard.card_order;
    let mut cards: Vec<HistoryDashboardCardOutput> = Vec::new();
    let mut i: usize = 0;
    while i < order.len()
        invariant
            i <= order.len(),
            cards@.len() == i,
            forall|k: int| 0 <= k < i ==> (#[trigger] cards@[k]).id@ == order@[k].spec_id(),
        decreases order.len() - i,
    {
        let card = order[i];
        cards.push(HistoryDashboardCardOutput { id: card.id(), label: card.label() });
        i = i + 1;
    }
    HistoryDashboardCommandOutput { action: "history-dashboard", cards }
}

/// Shows the dashboard: the layout is reset to the default one first.
pub fn apply_history_dashboard_command(
    config: &mut AppConfig,
    _command: HistoryDashboardCommandKind,
) -> (r: Result<HistoryDashboardCommandOutput, String>)
    ensures
        final(config).history_dashboard.card_order@ == spec_all_cards(),
        final(config).history_dashboard.pinned_cards@ == spec_all_cards(),
        *final(config) == (AppConfig { history_dashboard: final(config).history_dashboard, ..*old(config) }),
        r matches Ok(out) && out.action@ == "history-dashboard"@ && out.cards@.len() == spec_all_cards().len()
            && forall|k: int| 0 <= k < out.cards@.len() ==> (#[trigger] out.cards@[k]).id@ == spec_all_cards()[k].spec_id(),
{
    config.history_dashboard = config.history_dashboard.normalized();
    Ok(build_history_dashboard_command_output(config))
}

} // verus!
