//! The text form of the configuration doctor and migration reports: the
//! lines printed for each, built here and printed by the caller.
use crate::config::diagnostics::{opt_text, ConfigDoctorReport, ConfigMigrationReport};
use crate::config::health::{findings_view, ConfigHealthSeverity, ConfigHealthStatus, FindingView};
use crate::config::migration::{steps_view, StepView};
use crate::text::{decimal, owned, u64_to_string};
use vstd::prelude::*;

verus! {

/// The report id of a health status.
pub open spec fn spec_status_id(status: ConfigHealthStatus) -> Seq<char> {
    match status {
        ConfigHealthStatus::Healthy => "ok"@,
        ConfigHealthStatus::Warning => "warning"@,
        ConfigHealthStatus::Error => "error"@,
    }
}

/// The report id of a health status.
pub fn config_health_status_id(status: ConfigHealthStatus) -> (r: &'static str)
    ensures
        r@ == spec_status_id(status),
{
    match status {
        ConfigHealthStatus::Healthy => "ok",
        ConfigHealthStatus::Warning => "warning",
        ConfigHealthStatus::Error => "error",
    }
}

/// The report id of a severity.
pub open spec fn spec_severity_id(severity: ConfigHealthSeverity) -> Seq<char> {
    match severity {
        ConfigHealthSeverity::Warning => "warning"@,
        ConfigHealthSeverity::Error => "error"@,
    }
}

/// The report id of a severity.
pub fn config_health_severity_id(severity: ConfigHealthSeverity) -> (r: &'static str)
    ensures
        r@ == spec_severity_id(severity),
{
    match severity {
        ConfigHealthSeverity::Warning => "warning",
        ConfigHealthSeverity::Error => "error",
    }
}

/// The line of one migration step.
pub open spec fn step_line(s: StepView) -> Seq<char> {
    "  - v"@ + decimal(s.from as nat) + " -> v"@ + decimal(s.to as nat) + ": "@ + s.summary
}

/// The lines of the migration steps.
pub open spec fn spec_steps_lines(steps: Seq<StepView>) -> Seq<Seq<char>> {
    if steps.len() == 0 {
        seq!["Migration steps: none"@]
    } else {
        seq!["Migration steps:"@] + steps.map_values(|s: StepView| step_line(s))
    }
}

/// The two lines of one finding.
pub open spec fn finding_lines(f: FindingView) -> Seq<Seq<char>> {
    seq![
        "  - ["@ + f.code + ":"@ + spec_severity_id(f.severity) + "] "@ + f.message,
        "    remediation: "@ + f.remediation,
    ]
}

/// The lines of each finding in turn.
pub open spec fn all_finding_lines(findings: Seq<FindingView>) -> Seq<Seq<char>>
    decreases findings.len(),
{
    if findings.len() == 0 {
        Seq::empty()
    } else {
        all_finding_lines(findings.drop_last()) + finding_lines(findings.last())
    }
}

/// The lines of the findings.
pub open spec fn spec_findings_lines(findings: Seq<FindingView>) -> Seq<Seq<char>> {
    if findings.len() == 0 {
        seq!["Findings: none"@]
    } else {
        seq!["Findings:"@] + all_finding_lines(findings)
    }
}

/// An optional path, or `fallback`.
pub open spec fn path_or(path: Option<Seq<char>>, fallback: Seq<char>) -> Seq<char> {
    match path {
        Some(p) => p,
        None => fallback,
    }
}

/// An optional version, or `unknown`.
pub open spec fn version_text(v: Option<u32>) -> Seq<char> {
    match v {
        Some(n) => decimal(n as nat),
        None => "unknown"@,
    }
}

pub open spec fn yes_no(b: bool) -> Seq<char> {
    if b {
        "yes"@
    } else {
        "no"@
    }
}

pub open spec fn diagnostics_hint() -> Seq<char> {
    "Canonical diagnostics: run `focustime --diagnostics` for setup, blocking preview, config health, and migration guidance."@
}

/// The lines of the doctor's config health section.
pub open spec fn spec_health_section(r: ConfigDoctorReport) -> Seq<Seq<char>> {
    seq![
        "Config health: "@ + spec_status_id(r.status),
        "Config path: "@ + path_or(opt_text(r.config_path), "unavailable"@),
        "Detected schema version: "@ + version_text(r.detected_schema_version),
        "Current schema version: "@ + decimal(r.current_schema_version as nat),
    ] + spec_steps_lines(steps_view(r.migration_steps@)) + spec_findings_lines(findings_view(r.findings@))
}

/// The lines printed for a doctor report.
pub open spec fn spec_doctor_lines(r: ConfigDoctorReport) -> Seq<Seq<char>> {
    seq!["Diagnostics workflow: "@ + r.action@] + spec_health_section(r) + seq![diagnostics_hint()]
}

/// The lines of the migration guidance section.
pub open spec fn spec_migration_section(r: ConfigMigrationReport) -> Seq<Seq<char>> {
    seq![
        "Config migration guidance: "@ + r.action@,
        "Config path: "@ + path_or(opt_text(r.config_path), "unavailable"@),
        "Detected schema version: "@ + version_text(r.detected_schema_version),
        "Target schema version: "@ + decimal(r.target_schema_version as nat),
        "Migration changes detected: "@ + yes_no(r.changed),
        "Migration applied: "@ + yes_no(r.applied),
        "Migration status: "@ + spec_status_id(r.status),
        "Backup path: "@ + path_or(opt_text(r.backup_path), "none"@),
    ] + spec_steps_lines(steps_view(r.steps@)) + spec_findings_lines(findings_view(r.findings@))
}

/// The lines printed for a migration report.
pub open spec fn spec_migration_lines(r: ConfigMigrationReport) -> Seq<Seq<char>> {
    seq!["Diagnostics workflow: "@ + r.action@] + spec_migration_section(r) + seq![diagnostics_hint()]
}

pub open spec fn lines_view(v: Seq<String>) -> Seq<Seq<char>> {
    v.map_values(|s: String| s@)
}

/// Appends a line made of `head` and `tail`.
pub(crate) fn push_line(lines: &mut Vec<String>, head: &str, tail: &str)
    ensures
        lines_view(final(lines)@) == lines_view(old(lines)@).push(head@ + tail@),
{
    let mut line = owned(head);
    line.append(tail);
    let ghost before = lines_view(lines@);
    let ghost lv = line@;
    lines.push(line);
    assert(lines_view(lines@) =~= before.push(lv));
}

/// Appends the steps' lines.
fn push_steps_lines(lines: &mut Vec<String>, steps: &Vec<crate::config::migration::ConfigMigrationStepReport>)
    ensures
        lines_view(final(lines)@) == lines_view(old(lines)@) + spec_steps_lines(steps_view(steps@)),
{
    let ghost l0 = lines_view(lines@);
    let ghost sv = steps_view(steps@);
    if steps.len() == 0 {
        push_line(lines, "Migration steps: none", "");
        proof {
            reveal_strlit("");
            assert("Migration steps: none"@ + ""@ =~= "Migration steps: none"@);
            assert(lines_view(lines@) =~= l0 + seq!["Migration steps: none"@]);
        }
        return;
    }
    push_line(lines, "Migration steps:", "");
    proof {
        reveal_strlit("");
        assert("Migration steps:"@ + ""@ =~= "Migration steps:"@);
    }
    let ghost l1 = lines_view(lines@);
    let mut i: usize = 0;
    while i < steps.len()
        invariant
            i <= steps.len(),
            sv == steps_view(steps@),
            l1 == l0 + seq!["Migration steps:"@],
            lines_view(lines@) == l1 + sv.subrange(0, i as int).map_values(|s: StepView| step_line(s)),
        decreases steps.len() - i,
    {
        let step = &steps[i];
        let mut line = owned("  - v");
        let from = u64_to_string(step.from_schema_version as u64);
        line.append(from.as_str());
        line.append(" -> v");
        let to = u64_to_string(step.to_schema_version as u64);
        line.append(to.as_str());
        line.append(": ");
        line.append(step.summary.as_str());
        assert(line@ =~= step_line(sv[i as int]));
        let ghost before = lines_view(lines@);
        let ghost lv = line@;
        lines.push(line);
        assert(lines_view(lines@) =~= before.push(lv));
        assert(sv.subrange(0, i + 1).map_values(|s: StepView| step_line(s)) =~= sv.subrange(0, i as int).map_values(
            |s: StepView| step_line(s),
        ).push(step_line(sv[i as int])));
        i = i + 1;
    }
    assert(sv.subrange(0, steps.len() as int) =~= sv);
}

/// Appends the findings' lines.
fn push_findings_lines(lines: &mut Vec<String>, findings: &Vec<crate::config::health::ConfigHealthFinding>)
    ensures
        lines_view(final(lines)@) == lines_view(old(lines)@) + spec_findings_lines(findings_view(findings@)),
{
    let ghost l0 = lines_view(lines@);
    let ghost fv = findings_view(findings@);
    proof {
        reveal_strlit("");
    }
    if findings.len() == 0 {
        push_line(lines, "Findings: none", "");
        assert("Findings: none"@ + ""@ =~= "Findings: none"@);
        assert(lines_view(lines@) =~= l0 + seq!["Findings: none"@]);
        return;
    }
    push_line(lines, "Findings:", "");
    assert("Findings:"@ + ""@ =~= "Findings:"@);
    let ghost l1 = lines_view(lines@);
    let mut i: usize = 0;
    assert(all_finding_lines(fv.subrange(0, 0)) =~= Seq::<Seq<char>>::empty());
    while i < findings.len()
        invariant
            i <= findings.len(),
            fv == findings_view(findings@),
            l1 == l0 + seq!["Findings:"@],
            lines_view(lines@) == l1 + all_finding_lines(fv.subrange(0, i as int)),
        decreases findings.len() - i,
    {
        let f = &findings[i];
        let mut first = owned("  - [");
        first.append(f.code.as_str());
        first.append(":");
        first.append(config_health_severity_id(f.severity));
        first.append("] ");
        first.append(f.message.as_str());
        let mut second = owned("    remediation: ");
        second.append(f.remediation.as_str());
        assert(seq![first@, second@] =~= finding_lines(fv[i as int]));
        let ghost before = lines_view(lines@);
        let ghost a = first@;
        let ghost b = second@;
        lines.push(first);
        lines.push(second);
        assert(lines_view(lines@) =~= before + seq![a, b]);
        assert(fv.subrange(0, i + 1).drop_last() =~= fv.subrange(0, i as int));
        i = i + 1;
    }
    assert(fv.subrange(0, findings.len() as int) =~= fv);
}

fn optional_path_text(path: &Option<String>, fallback: &'static str) -> (r: String)
    ensures
        r@ == path_or(opt_text(*path), fallback@),
{
    match path {
        Some(p) => owned(p.as_str()),
        None => owned(fallback),
    }
}

fn version_string(v: Option<u32>) -> (r: String)
    ensures
        r@ == version_text(v),
{
    match v {
        Some(n) => u64_to_string(n as u64),
        None => owned("unknown"),
    }
}

fn yes_no_text(b: bool) -> (r: &'static str)
    ensures
        r@ == yes_no(b),
{
    if b {
        "yes"
    } else {
        "no"
    }
}

/// Appends the doctor's config health section.
fn push_health_section(lines: &mut Vec<String>, report: &ConfigDoctorReport)
    ensures
        lines_view(final(lines)@) == lines_view(old(lines)@) + spec_health_section(*report),
{
    let ghost l0 = lines_view(lines@);
    push_line(lines, "Config health: ", config_health_status_id(report.status));
    let path = optional_path_text(&report.config_path, "unavailable");
    push_line(lines, "Config path: ", path.as_str());
    let detected = version_string(report.detected_schema_version);
    push_line(lines, "Detected schema version: ", detected.as_str());
    let current = u64_to_string(report.current_schema_version as u64);
    push_line(lines, "Current schema version: ", current.as_str());
    push_steps_lines(lines, &report.migration_steps);
    push_findings_lines(lines, &report.findings);
    assert(lines_view(lines@) =~= l0 + spec_health_section(*report));
}

/// Appends the migration guidance section.
fn push_migration_section(lines: &mut Vec<String>, report: &ConfigMigrationReport)
    ensures
        lines_view(final(lines)@) == lines_view(old(lines)@) + spec_migration_section(*report),
{
    let ghost l0 = lines_view(lines@);
    push_line(lines, "Config migration guidance: ", report.action.as_str());
    let path = optional_path_text(&report.config_path, "unavailable");
    push_line(lines, "Config path: ", path.as_str());
    let detected = version_string(report.detected_schema_version);
    push_line(lines, "Detected schema version: ", detected.as_str());
    let target = u64_to_string(report.target_schema_version as u64);
    push_line(lines, "Target schema version: ", target.as_str());
    push_line(lines, "Migration changes detected: ", yes_no_text(report.changed));
    push_line(lines, "Migration applied: ", yes_no_text(report.applied));
    push_line(lines, "Migration status: ", config_health_status_id(report.status));
    let backup = optional_path_text(&report.backup_path, "none");
    push_line(lines, "Backup path: ", backup.as_str());
    push_steps_lines(lines, &report.steps);
    push_findings_lines(lines, &report.findings);
    assert(lines_view(lines@) =~= l0 + spec_migration_section(*report));
}

fn push_diagnostics_hint(lines: &mut Vec<String>)
    ensures
        lines_view(final(lines)@) == lines_view(old(lines)@).push(diagnostics_hint()),
{
    push_line(
        lines,
        "Canonical diagnostics: run `focustime --diagnostics` for setup, blocking preview, config health, and migration guidance.",
        "",
    );
    proof {
        reveal_strlit("");
    }
    assert(diagnostics_hint() + ""@ =~= diagnostics_hint());
}

/// The lines printed for a doctor report.
pub fn config_doctor_lines(report: &ConfigDoctorReport) -> (r: Vec<String>)
    ensures
        lines_view(r@) == spec_doctor_lines(*report),
{
    let mut lines: Vec<String> = Vec::new();
    assert(lines_view(lines@) =~= Seq::<Seq<char>>::empty());
    push_line(&mut lines, "Diagnostics workflow: ", report.action.as_str());
    push_health_section(&mut lines, report);
    push_diagnostics_hint(&mut lines);
    assert(lines_view(lines@) =~= spec_doctor_lines(*report));
    lines
}

/// The lines printed for a migration report.
pub fn config_migration_lines(report: &ConfigMigrationReport) -> (r: Vec<String>)
    ensures
        lines_view(r@) == spec_migration_lines(*report),
{
    let mut lines: Vec<String> = Vec::new();
    assert(lines_view(lines@) =~= Seq::<Seq<char>>::empty());
    push_line(&mut lines, "Diagnostics workflow: ", report.action.as_str());
    push_migration_section(&mut lines, report);
    push_diagnostics_hint(&mut lines);
    assert(lines_view(lines@) =~= spec_migration_lines(*report));
    lines
}

/// The configuration part of the diagnostics command's lines: the workflow
/// line, then the config health section and the migration guidance section.
pub open spec fn spec_diagnostics_config_lines(doctor: ConfigDoctorReport, migration: ConfigMigrationReport) -> Seq<
    Seq<char>,
> {
    seq!["Diagnostics workflow: diagnostics"@] + spec_health_section(doctor) + spec_migration_section(migration)
}

/// The configuration part of the diagnostics command's lines: the workflow
/// line, the config health section and the migration guidance section.
pub fn diagnostics_config_lines(doctor: &ConfigDoctorReport, migration: &ConfigMigrationReport) -> (r: Vec<String>)
    ensures
        lines_view(r@) == spec_diagnostics_config_lines(*doctor, *migration),
{
    let mut lines: Vec<String> = Vec::new();
    assert(lines_view(lines@) =~= Seq::<Seq<char>>::empty());
    push_line(&mut lines, "Diagnostics workflow: ", "diagnostics");
    push_health_section(&mut lines, doctor);
    push_migration_section(&mut lines, migration);
    proof {
        reveal_strlit("diagnostics");
        reveal_strlit("Diagnostics workflow: ");
        reveal_strlit("Diagnostics workflow: diagnostics");
    }
    assert("Diagnostics workflow: "@ + "diagnostics"@ =~= "Diagnostics workflow: diagnostics"@);
    assert(lines_view(lines@) =~= spec_diagnostics_config_lines(*doctor, *migration));
    lines
}

} // verus!
