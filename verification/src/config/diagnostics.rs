//! The configuration doctor and the migration assistant, as steps: each
//! takes what the file system gave (the file's path and text, or why there
//! is none) and the outcome of the work it asked for (reading the migrated
//! document into settings, writing the migrated file with a backup), and
//! gives the report or the next piece of work.
use crate::config::health::{
    config_health_error, config_health_warning, collect_legacy_profile_rename_advice,
    detect_legacy_config_deprecation_warnings, findings_view, sort_config_health_findings,
    spec_deprecation_warnings, spec_health_status, spec_rename_advice, spec_sorted_findings, finding_le,
    lemma_sorted_findings_in_order,
    summarize_config_health, ConfigHealthFinding, ConfigHealthSeverity, ConfigHealthStatus, FindingView,
};
use crate::config::migration::{
    migrate_config_toml_to_current_detailed, spec_migrate_detailed, steps_view, ConfigMigrationStepReport,
    StepView,
};
use crate::config::settings::AppConfig;
use crate::config::toml_tree::{clone_value, parse_toml_document, toml_document, value_eq, TomlValue, TomlView};
use crate::config::CURRENT_CONFIG_SCHEMA_VERSION;
use crate::text::{concat, decimal, owned, u64_to_string};
use vstd::prelude::*;

verus! {

/// What the file system gave for the configuration file.
pub enum ConfigFileRead {
    /// No configuration path could be determined.
    PathUnavailable,
    /// The file at `path` does not exist.
    Missing { path: String },
    /// The file at `path` could not be read.
    ReadFailed { path: String, error: String },
    /// The text of the file at `path`.
    Read { path: String, content: String },
}

/// What the doctor found.
#[derive(Debug, Clone, PartialEq, Eq)]
pub struct ConfigDoctorReport {
    pub action: String,
    pub config_path: Option<String>,
    pub detected_schema_version: Option<u32>,
    pub current_schema_version: u32,
    pub status: ConfigHealthStatus,
    pub migration_steps: Vec<ConfigMigrationStepReport>,
    pub findings: Vec<ConfigHealthFinding>,
}

pub struct DoctorView {
    pub action: Seq<char>,
    pub config_path: Option<Seq<char>>,
    pub detected_schema_version: Option<u32>,
    pub current_schema_version: u32,
    pub status: ConfigHealthStatus,
    pub migration_steps: Seq<StepView>,
    pub findings: Seq<FindingView>,
}

pub open spec fn opt_text(o: Option<String>) -> Option<Seq<char>> {
    match o {
        Some(s) => Some(s@),
        None => None,
    }
}

impl View for ConfigDoctorReport {
    type V = DoctorView;

    open spec fn view(&self) -> DoctorView {
        DoctorView {
            action: self.action@,
            config_path: opt_text(self.config_path),
            detected_schema_version: self.detected_schema_version,
            current_schema_version: self.current_schema_version,
            status: self.status,
            migration_steps: steps_view(self.migration_steps@),
            findings: findings_view(self.findings@),
        }
    }
}

/// The doctor's state while the migrated document is read into settings.
pub struct DoctorProgress {
    pub config_path: String,
    pub detected_schema_version: u32,
    pub migration_steps: Vec<ConfigMigrationStepReport>,
    pub findings: Vec<ConfigHealthFinding>,
    /// The migrated document to read into settings.
    pub migrated: TomlValue,
}

/// The doctor's next step: its report, or settings to read first.
pub enum DoctorStep {
    Done(ConfigDoctorReport),
    ReadSettings(DoctorProgress),
}

pub open spec fn finding(code: Seq<char>, severity: ConfigHealthSeverity, message: Seq<char>, remediation: Seq<char>) -> FindingView {
    FindingView { code, severity, message, remediation }
}

pub open spec fn doctor_action() -> Seq<char> {
    "config-health"@
}

/// A doctor report with its status taken from its findings.
pub open spec fn doctor_view(
    path: Option<Seq<char>>,
    detected: Option<u32>,
    steps: Seq<StepView>,
    findings: Seq<FindingView>,
) -> DoctorView {
    DoctorView {
        action: doctor_action(),
        config_path: path,
        detected_schema_version: detected,
        current_schema_version: CURRENT_CONFIG_SCHEMA_VERSION,
        status: spec_health_status(findings),
        migration_steps: steps,
        findings,
    }
}

pub open spec fn path_unavailable_finding() -> FindingView {
    finding(
        "config.path_unavailable"@,
        ConfigHealthSeverity::Error,
        "Could not determine the config.toml path from the current environment."@,
        "Set the platform config directory environment variables (for example APPDATA on Windows, XDG_CONFIG_HOME/HOME on Unix), then retry."@,
    )
}

pub open spec fn missing_message(path: Seq<char>) -> Seq<char> {
    "Config file `"@ + path + "` does not exist."@
}

pub open spec fn read_failed_message(path: Seq<char>, error: Seq<char>) -> Seq<char> {
    "Failed to read `"@ + path + "`: "@ + error
}

pub open spec fn parse_error_message(error: Seq<char>) -> Seq<char> {
    "config.toml is not valid TOML: "@ + error
}

pub open spec fn newer_schema_message(version: u32) -> Seq<char> {
    "Config schema version "@ + decimal(version as nat) + " is newer than this build's supported schema version "@
        + decimal(CURRENT_CONFIG_SCHEMA_VERSION as nat) + "."@
}

pub open spec fn outdated_schema_message(version: u32) -> Seq<char> {
    "Config schema version "@ + decimal(version as nat) + " is older than current schema version "@ + decimal(
        CURRENT_CONFIG_SCHEMA_VERSION as nat,
    ) + "."@
}

/// The doctor's findings for a document, up to reading it into settings:
/// an outdated schema, then one finding per rename advice.
pub open spec fn doctor_document_findings(version: u32, advice: Seq<Seq<char>>) -> Seq<FindingView> {
    (if version < CURRENT_CONFIG_SCHEMA_VERSION {
        seq![
            finding(
                "config.schema_outdated"@,
                ConfigHealthSeverity::Warning,
                outdated_schema_message(version),
                "Run `focustime --diagnostics` to review migration guidance, then update config.toml to the current schema."@,
            ),
        ]
    } else {
        Seq::empty()
    }) + advice.map_values(
        |a: Seq<char>|
            finding(
                "config.legacy_profile_token"@,
                ConfigHealthSeverity::Warning,
                a,
                "Run `focustime --diagnostics` to review canonical profile-key migration guidance."@,
            ),
    )
}

/// What the doctor does with a parsed document, or the parse error.
pub open spec fn spec_doctor_after_parse(path: Seq<char>, parsed: Result<TomlView, Seq<char>>) -> Result<DoctorView, (u32, Seq<StepView>, Seq<FindingView>, TomlView)> {
    match parsed {
        Err(e) => Ok(
            doctor_view(
                Some(path),
                None,
                Seq::empty(),
                seq![
                    finding(
                        "config.toml_parse_error"@,
                        ConfigHealthSeverity::Error,
                        parse_error_message(e),
                        "Fix the TOML syntax error and rerun the doctor."@,
                    ),
                ],
            ),
        ),
        Ok(v) => match spec_migrate_detailed(v) {
            Err(e) => Ok(
                doctor_view(
                    Some(path),
                    None,
                    Seq::empty(),
                    seq![
                        finding(
                            "config.migration_failed"@,
                            ConfigHealthSeverity::Error,
                            "Config migration analysis failed: "@ + e,
                            "Ensure schema_version is valid and the file is structurally correct TOML."@,
                        ),
                    ],
                ),
            ),
            Ok((migrated, version, steps)) => if version > CURRENT_CONFIG_SCHEMA_VERSION {
                Ok(
                    doctor_view(
                        Some(path),
                        Some(version),
                        steps,
                        seq![
                            finding(
                                "config.schema_newer_than_supported"@,
                                ConfigHealthSeverity::Warning,
                                newer_schema_message(version),
                                "Use a focustime build that supports this schema before writing config changes."@,
                            ),
                        ],
                    ),
                )
            } else {
                Err((version, steps, doctor_document_findings(version, spec_rename_advice(v)), migrated))
            },
        },
    }
}

/// The doctor's report once the migrated document was read into settings,
/// or failed to be.
pub open spec fn spec_doctor_finish(
    path: Seq<char>,
    version: u32,
    steps: Seq<StepView>,
    findings: Seq<FindingView>,
    settings: Result<AppConfig, Seq<char>>,
) -> DoctorView {
    match settings {
        Err(e) => doctor_view(
            Some(path),
            Some(version),
            steps,
            findings.push(
                finding(
                    "config.deserialize_failed"@,
                    ConfigHealthSeverity::Error,
                    "Config could not be deserialized after migration steps: "@ + e,
                    "Fix incompatible field types/structures in config.toml, then rerun the doctor."@,
                ),
            ),
        ),
        Ok(c) => doctor_view(
            Some(path),
            Some(version),
            steps,
            spec_sorted_findings(
                findings + spec_deprecation_warnings(c).map_values(
                    |w: Seq<char>|
                        finding(
                            "config.deprecated_field_in_use"@,
                            ConfigHealthSeverity::Warning,
                            w,
                            "Update config.toml to canonical fields and rerun the doctor."@,
                        ),
                ),
            ),
        ),
    }
}

/// Every doctor report names the health action and the current schema
/// version, and its status follows its findings: an error exactly when some
/// finding is an error, healthy exactly when there are no findings.
pub proof fn lemma_doctor_report_summary(
    path: Option<Seq<char>>,
    detected: Option<u32>,
    steps: Seq<StepView>,
    findings: Seq<FindingView>,
)
    ensures
        doctor_view(path, detected, steps, findings).action == "config-health"@,
        doctor_view(path, detected, steps, findings).current_schema_version == 2,
        doctor_view(path, detected, steps, findings).findings == findings,
        (doctor_view(path, detected, steps, findings).status == ConfigHealthStatus::Error) <==> (exists|i: int|
            0 <= i < findings.len() && (#[trigger] findings[i]).severity == ConfigHealthSeverity::Error),
        (doctor_view(path, detected, steps, findings).status == ConfigHealthStatus::Healthy) <==> findings.len()
            == 0,
{
}

/// A report that ends before the settings are read holds exactly one
/// finding.
pub proof fn lemma_doctor_early_report_single_finding(path: Seq<char>, parsed: Result<TomlView, Seq<char>>)
    ensures
        spec_doctor_after_parse(path, parsed) matches Ok(rep) ==> rep.findings.len() == 1,
{
}

/// Once the migrated document was read into settings, the report's findings
/// are in display order (by code, then message). When the read fails the
/// decode finding is appended after the others, unsorted.
pub proof fn lemma_doctor_finish_in_order(
    path: Seq<char>,
    version: u32,
    steps: Seq<StepView>,
    findings: Seq<FindingView>,
    settings: Result<AppConfig, Seq<char>>,
)
    ensures
        settings is Ok ==> forall|i: int, j: int|
            0 <= i < j < spec_doctor_finish(path, version, steps, findings, settings).findings.len()
                ==> finding_le(
                #[trigger] spec_doctor_finish(path, version, steps, findings, settings).findings[i],
                #[trigger] spec_doctor_finish(path, version, steps, findings, settings).findings[j],
            ),
{
    if let Ok(c) = settings {
        lemma_sorted_findings_in_order(
            findings + spec_deprecation_warnings(c).map_values(
                |w: Seq<char>|
                    finding(
                        "config.deprecated_field_in_use"@,
                        ConfigHealthSeverity::Warning,
                        w,
                        "Update config.toml to canonical fields and rerun the doctor."@,
                    ),
            ),
        );
    }
}

/// A report from its parts, its status summarized from its findings.
fn doctor_report(
    config_path: Option<String>,
    detected_schema_version: Option<u32>,
    migration_steps: Vec<ConfigMigrationStepReport>,
    findings: Vec<ConfigHealthFinding>,
) -> (r: ConfigDoctorReport)
    ensures
        r@ == doctor_view(
            opt_text(config_path),
            detected_schema_version,
            steps_view(migration_steps@),
            findings_view(findings@),
        ),
{
    let status = summarize_config_health(&findings);
    ConfigDoctorReport {
        action: owned("config-health"),
        config_path,
        detected_schema_version,
        current_schema_version: CURRENT_CONFIG_SCHEMA_VERSION,
        status,
        migration_steps,
        findings,
    }
}

/// A list holding one finding.
fn single_finding(f: ConfigHealthFinding) -> (r: Vec<ConfigHealthFinding>)
    ensures
        findings_view(r@) == seq![f@],
{
    let ghost fv = f@;
    let mut r: Vec<ConfigHealthFinding> = Vec::new();
    r.push(f);
    assert(findings_view(r@) =~= seq![fv]);
    r
}

fn no_steps() -> (r: Vec<ConfigMigrationStepReport>)
    ensures
        steps_view(r@) == Seq::<StepView>::empty(),
{
    let r: Vec<ConfigMigrationStepReport> = Vec::new();
    assert(steps_view(r@) =~= Seq::<StepView>::empty());
    r
}

/// Renders a schema version message: `head`, the version, `middle`, the
/// current version, and a period.
fn schema_message(head: &str, version: u32, middle: &str) -> (r: String)
    ensures
        r@ == head@ + decimal(version as nat) + middle@ + decimal(CURRENT_CONFIG_SCHEMA_VERSION as nat) + "."@,
{
    let mut m = owned(head);
    let v = u64_to_string(version as u64);
    m.append(v.as_str());
    m.append(middle);
    let c = u64_to_string(CURRENT_CONFIG_SCHEMA_VERSION as u64);
    m.append(c.as_str());
    m.append(".");
    m
}

/// The doctor's report for a file it could not read, or its next step for
/// one it read: the parse of the file's text comes next.
pub fn run_config_doctor_step(read: ConfigFileRead) -> (r: DoctorStep)
    ensures
        match read {
            ConfigFileRead::PathUnavailable => r matches DoctorStep::Done(rep) && rep@ == doctor_view(
                None,
                None,
                Seq::empty(),
                seq![path_unavailable_finding()],
            ),
            ConfigFileRead::Missing { path } => r matches DoctorStep::Done(rep) && rep@ == doctor_view(
                Some(path@),
                None,
                Seq::empty(),
                seq![
                    finding(
                        "config.file_missing"@,
                        ConfigHealthSeverity::Warning,
                        missing_message(path@),
                        "Run focustime once (or create config.toml), then rerun the doctor."@,
                    ),
                ],
            ),
            ConfigFileRead::ReadFailed { path, error } => r matches DoctorStep::Done(rep) && rep@ == doctor_view(
                Some(path@),
                None,
                Seq::empty(),
                seq![
                    finding(
                        "config.read_failed"@,
                        ConfigHealthSeverity::Error,
                        read_failed_message(path@, error@),
                        "Check filesystem permissions and path accessibility, then rerun the doctor."@,
                    ),
                ],
            ),
            ConfigFileRead::Read { path, content } => doctor_step_matches(
                r,
                spec_doctor_after_parse(path@, toml_document(content@)),
                path@,
            ),
        },
{
    match read {
        ConfigFileRead::PathUnavailable => {
            let f = config_health_error(
                "config.path_unavailable",
                "Could not determine the config.toml path from the current environment.",
                "Set the platform config directory environment variables (for example APPDATA on Windows, XDG_CONFIG_HOME/HOME on Unix), then retry.",
            );
            DoctorStep::Done(doctor_report(None, None, no_steps(), single_finding(f)))
        },
        ConfigFileRead::Missing { path } => {
            let m = concat3_owned("Config file `", path.as_str(), "` does not exist.");
            let f = config_health_warning(
                "config.file_missing",
                m.as_str(),
                "Run focustime once (or create config.toml), then rerun the doctor.",
            );
            DoctorStep::Done(doctor_report(Some(path), None, no_steps(), single_finding(f)))
        },
        ConfigFileRead::ReadFailed { path, error } => {
            let m = read_failed_text(path.as_str(), error.as_str());
            let f = config_health_error(
                "config.read_failed",
                m.as_str(),
                "Check filesystem permissions and path accessibility, then rerun the doctor.",
            );
            DoctorStep::Done(doctor_report(Some(path), None, no_steps(), single_finding(f)))
        },
        ConfigFileRead::Read { path, content } => {
            let parsed = parse_toml_document(content.as_str());
            doctor_after_parse(path, parsed)
        },
    }
}

fn concat3_owned(a: &str, b: &str, c: &str) -> (r: String)
    ensures
        r@ == a@ + b@ + c@,
{
    let mut m = owned(a);
    m.append(b);
    m.append(c);
    m
}

fn read_failed_text(path: &str, error: &str) -> (r: String)
    ensures
        r@ == read_failed_message(path@, error@),
{
    let mut m = owned("Failed to read `");
    m.append(path);
    m.append("`: ");
    m.append(error);
    m
}

/// The result of a parse as views.
pub open spec fn parsed_view(parsed: Result<TomlValue, String>) -> Result<TomlView, Seq<char>> {
    match parsed {
        Ok(v) => Ok(v@),
        Err(e) => Err(e@),
    }
}

/// The step a doctor took is the one `expected` describes.
pub open spec fn doctor_step_matches(
    step: DoctorStep,
    expected: Result<DoctorView, (u32, Seq<StepView>, Seq<FindingView>, TomlView)>,
    path: Seq<char>,
) -> bool {
    match step {
        DoctorStep::Done(rep) => expected == Ok::<DoctorView, (u32, Seq<StepView>, Seq<FindingView>, TomlView)>(rep@),
        DoctorStep::ReadSettings(p) => p.config_path@ == path && expected == Err::<
            DoctorView,
            (u32, Seq<StepView>, Seq<FindingView>, TomlView),
        >(
            (
                p.detected_schema_version,
                steps_view(p.migration_steps@),
                findings_view(p.findings@),
                p.migrated@,
            ),
        ),
    }
}

/// One finding per advice text, with the given code and remediation.
fn advice_findings(advice: Vec<String>, remediation: &str, findings: &mut Vec<ConfigHealthFinding>)
    ensures
        findings_view(final(findings)@) == findings_view(old(findings)@) + advice@.map_values(|s: String| s@).map_values(
            |a: Seq<char>|
                finding("config.legacy_profile_token"@, ConfigHealthSeverity::Warning, a, remediation@),
        ),
{
    let ghost f0 = findings_view(findings@);
    let ghost av = advice@.map_values(|s: String| s@);
    let ghost mk = |a: Seq<char>| finding("config.legacy_profile_token"@, ConfigHealthSeverity::Warning, a, remediation@);
    let mut i: usize = 0;
    while i < advice.len()
        invariant
            i <= advice.len(),
            av == advice@.map_values(|s: String| s@),
            mk == (|a: Seq<char>| finding("config.legacy_profile_token"@, ConfigHealthSeverity::Warning, a, remediation@)),
            findings_view(findings@) == f0 + av.subrange(0, i as int).map_values(mk),
        decreases advice.len() - i,
    {
        let f = config_health_warning("config.legacy_profile_token", advice[i].as_str(), remediation);
        let ghost before = findings_view(findings@);
        let ghost fv = f@;
        findings.push(f);
        assert(findings_view(findings@) =~= before.push(fv));
        assert(av.subrange(0, i + 1).map_values(mk) =~= av.subrange(0, i as int).map_values(mk).push(mk(av[i as int])));
        i = i + 1;
    }
    assert(av.subrange(0, advice.len() as int) =~= av);
}

/// What the doctor does with a parsed document: its report, or the
/// migrated document to read into settings first.
pub fn doctor_after_parse(path: String, parsed: Result<TomlValue, String>) -> (r: DoctorStep)
    ensures
        doctor_step_matches(r, spec_doctor_after_parse(path@, parsed_view(parsed)), path@),
{
    let original = match parsed {
        Err(e) => {
            let m = concat("config.toml is not valid TOML: ", e.as_str());
            let f = config_health_error(
                "config.toml_parse_error",
                m.as_str(),
                "Fix the TOML syntax error and rerun the doctor.",
            );
            return DoctorStep::Done(doctor_report(Some(path), None, no_steps(), single_finding(f)));
        },
        Ok(v) => v,
    };
    let ghost ov = original@;
    let advice = collect_legacy_profile_rename_advice(&original);
    match migrate_config_toml_to_current_detailed(original) {
        Err(e) => {
            let m = concat("Config migration analysis failed: ", e.as_str());
            let f = config_health_error(
                "config.migration_failed",
                m.as_str(),
                "Ensure schema_version is valid and the file is structurally correct TOML.",
            );
            DoctorStep::Done(doctor_report(Some(path), None, no_steps(), single_finding(f)))
        },
        Ok((migrated, schema_version, steps)) => {
            if schema_version > CURRENT_CONFIG_SCHEMA_VERSION {
                let m = schema_message(
                    "Config schema version ",
                    schema_version,
                    " is newer than this build's supported schema version ",
                );
                let f = config_health_warning(
                    "config.schema_newer_than_supported",
                    m.as_str(),
                    "Use a focustime build that supports this schema before writing config changes.",
                );
                let mut findings = single_finding(f);
                let ghost fv = findings_view(findings@);
                sort_config_health_findings(&mut findings);
                proof {
                    assert(fv.drop_last() =~= Seq::<FindingView>::empty());
                    assert(spec_sorted_findings(Seq::<FindingView>::empty()) =~= Seq::<FindingView>::empty());
                    assert(spec_sorted_findings(fv) =~= fv);
                }
                return DoctorStep::Done(doctor_report(Some(path), Some(schema_version), steps, findings));
            }
            let mut findings: Vec<ConfigHealthFinding> = Vec::new();
            if schema_version < CURRENT_CONFIG_SCHEMA_VERSION {
                let m = schema_message(
                    "Config schema version ",
                    schema_version,
                    " is older than current schema version ",
                );
                let f = config_health_warning(
                    "config.schema_outdated",
                    m.as_str(),
                    "Run `focustime --diagnostics` to review migration guidance, then update config.toml to the current schema.",
                );
                findings.push(f);
            }
            let ghost f0 = findings_view(findings@);
            advice_findings(
                advice,
                "Run `focustime --diagnostics` to review canonical profile-key migration guidance.",
                &mut findings,
            );
            assert(findings_view(findings@) =~= doctor_document_findings(schema_version, spec_rename_advice(ov)));
            DoctorStep::ReadSettings(
                DoctorProgress {
                    config_path: path,
                    detected_schema_version: schema_version,
                    migration_steps: steps,
                    findings,
                    migrated,
                },
            )
        },
    }
}

/// The doctor's report once the migrated document was read into settings,
/// or failed to be.
pub fn finish_config_doctor(progress: DoctorProgress, settings: Result<AppConfig, String>) -> (r: ConfigDoctorReport)
    ensures
        r@ == spec_doctor_finish(
            progress.config_path@,
            progress.detected_schema_version,
            steps_view(progress.migration_steps@),
            findings_view(progress.findings@),
            match settings {
                Ok(c) => Ok(c),
                Err(e) => Err(e@),
            },
        ),
{
    let DoctorProgress { config_path, detected_schema_version, migration_steps, findings, migrated: _ } = progress;
    let mut findings = findings;
    let ghost f0 = findings_view(findings@);
    match settings {
        Err(e) => {
            let m = concat("Config could not be deserialized after migration steps: ", e.as_str());
            let f = config_health_error(
                "config.deserialize_failed",
                m.as_str(),
                "Fix incompatible field types/structures in config.toml, then rerun the doctor.",
            );
            let ghost fv = f@;
            findings.push(f);
            assert(findings_view(findings@) =~= f0.push(fv));
            doctor_report(Some(config_path), Some(detected_schema_version), migration_steps, findings)
        },
        Ok(config) => {
            let warnings = detect_legacy_config_deprecation_warnings(&config);
            let ghost wv = warnings@.map_values(|s: String| s@);
            let ghost mk = |w: Seq<char>|
                finding(
                    "config.deprecated_field_in_use"@,
                    ConfigHealthSeverity::Warning,
                    w,
                    "Update config.toml to canonical fields and rerun the doctor."@,
                );
            let mut i: usize = 0;
            while i < warnings.len()
                invariant
                    i <= warnings.len(),
                    wv == warnings@.map_values(|s: String| s@),
                    mk == (|w: Seq<char>|
                        finding(
                            "config.deprecated_field_in_use"@,
                            ConfigHealthSeverity::Warning,
                            w,
                            "Update config.toml to canonical fields and rerun the doctor."@,
                        )),
                    findings_view(findings@) == f0 + wv.subrange(0, i as int).map_values(mk),
                decreases warnings.len() - i,
            {
                let f = config_health_warning(
                    "config.deprecated_field_in_use",
                    warnings[i].as_str(),
                    "Update config.toml to canonical fields and rerun the doctor.",
                );
                let ghost before = findings_view(findings@);
                let ghost fv = f@;
                findings.push(f);
                assert(findings_view(findings@) =~= before.push(fv));
                assert(wv.subrange(0, i + 1).map_values(mk) =~= wv.subrange(0, i as int).map_values(mk).push(
                    mk(wv[i as int]),
                ));
                i = i + 1;
            }
            assert(wv.subrange(0, warnings.len() as int) =~= wv);
            sort_config_health_findings(&mut findings);
            doctor_report(Some(config_path), Some(detected_schema_version), migration_steps, findings)
        },
    }
}

/// What the migration assistant found, and did.
#[derive(Debug, Clone, PartialEq, Eq)]
pub struct ConfigMigrationReport {
    pub action: String,
    pub applied: bool,
    pub config_path: Option<String>,
    pub backup_path: Option<String>,
    pub detected_schema_version: Option<u32>,
    pub target_schema_version: u32,
    pub changed: bool,
    pub status: ConfigHealthStatus,
    pub steps: Vec<ConfigMigrationStepReport>,
    pub findings: Vec<ConfigHealthFinding>,
}

pub struct AssistantView {
    pub action: Seq<char>,
    pub applied: bool,
    pub config_path: Option<Seq<char>>,
    pub backup_path: Option<Seq<char>>,
    pub detected_schema_version: Option<u32>,
    pub target_schema_version: u32,
    pub changed: bool,
    pub status: ConfigHealthStatus,
    pub steps: Seq<StepView>,
    pub findings: Seq<FindingView>,
}

impl View for ConfigMigrationReport {
    type V = AssistantView;

    open spec fn view(&self) -> AssistantView {
        AssistantView {
            action: self.action@,
            applied: self.applied,
            config_path: opt_text(self.config_path),
            backup_path: opt_text(self.backup_path),
            detected_schema_version: self.detected_schema_version,
            target_schema_version: self.target_schema_version,
            changed: self.changed,
            status: self.status,
            steps: steps_view(self.steps@),
            findings: findings_view(self.findings@),
        }
    }
}

/// The assistant's state while the migrated file is written.
pub struct AssistantProgress {
    pub config_path: String,
    pub detected_schema_version: u32,
    pub steps: Vec<ConfigMigrationStepReport>,
    pub findings: Vec<ConfigHealthFinding>,
    /// The migrated document to write, after a backup of the file.
    pub migrated: TomlValue,
}

/// The assistant's next step: its report, or the migrated file to write first.
pub enum AssistantStep {
    Done(ConfigMigrationReport),
    WriteMigrated(AssistantProgress),
}

pub open spec fn assistant_action(apply: bool) -> Seq<char> {
    if apply {
        "config-migration-apply"@
    } else {
        "config-migration-guidance"@
    }
}

/// An assistant report with its status taken from its findings.
pub open spec fn assistant_view(
    apply: bool,
    applied: bool,
    path: Option<Seq<char>>,
    backup: Option<Seq<char>>,
    detected: Option<u32>,
    changed: bool,
    steps: Seq<StepView>,
    findings: Seq<FindingView>,
) -> AssistantView {
    AssistantView {
        action: assistant_action(apply),
        applied,
        config_path: path,
        backup_path: backup,
        detected_schema_version: detected,
        target_schema_version: CURRENT_CONFIG_SCHEMA_VERSION,
        changed,
        status: spec_health_status(findings),
        steps,
        findings,
    }
}

/// A report of the assistant before any migration was analyzed.
pub open spec fn assistant_early(apply: bool, path: Option<Seq<char>>, findings: Seq<FindingView>) -> AssistantView {
    assistant_view(apply, false, path, None, None, false, Seq::empty(), findings)
}

/// The assistant's findings for an analyzed document: one per rename
/// advice, then a newer schema, or nothing to migrate.
pub open spec fn assistant_document_findings(
    advice: Seq<Seq<char>>,
    version: u32,
    changed: bool,
) -> Seq<FindingView> {
    advice.map_values(
        |a: Seq<char>|
            finding(
                "config.legacy_profile_token"@,
                ConfigHealthSeverity::Warning,
                a,
                "Use canonical profile tokens (`basic`, `standard`, `advanced`)."@,
            ),
    ) + if version > CURRENT_CONFIG_SCHEMA_VERSION {
        seq![
            finding(
                "config.schema_newer_than_supported"@,
                ConfigHealthSeverity::Warning,
                newer_schema_message(version),
                "Use a focustime build that supports this schema before applying migration."@,
            ),
        ]
    } else if !changed {
        seq![
            finding(
                "config.already_current"@,
                ConfigHealthSeverity::Warning,
                "Config already matches the current migration schema and canonical key mapping."@,
                "No migration apply step is required."@,
            ),
        ]
    } else {
        Seq::empty()
    }
}

/// What the assistant does with a parsed document: its report, or the
/// migrated document to write (with the version, steps and findings so far).
pub open spec fn spec_assistant_after_parse(
    apply: bool,
    path: Seq<char>,
    parsed: Result<TomlView, Seq<char>>,
) -> Result<AssistantView, (u32, Seq<StepView>, Seq<FindingView>, TomlView)> {
    match parsed {
        Err(e) => Ok(
            assistant_early(
                apply,
                Some(path),
                seq![
                    finding(
                        "config.toml_parse_error"@,
                        ConfigHealthSeverity::Error,
                        parse_error_message(e),
                        "Fix the TOML syntax error and rerun diagnostics."@,
                    ),
                ],
            ),
        ),
        Ok(v) => {
            let advice = spec_rename_advice(v).map_values(
                |a: Seq<char>|
                    finding(
                        "config.legacy_profile_token"@,
                        ConfigHealthSeverity::Warning,
                        a,
                        "Use canonical profile tokens (`basic`, `standard`, `advanced`)."@,
                    ),
            );
            match spec_migrate_detailed(v) {
                Err(e) => Ok(
                    assistant_early(
                        apply,
                        Some(path),
                        advice.push(
                            finding(
                                "config.migration_failed"@,
                                ConfigHealthSeverity::Error,
                                "Migration analysis failed: "@ + e,
                                "Ensure schema_version is valid and the file is structurally correct TOML."@,
                            ),
                        ),
                    ),
                ),
                Ok((migrated, version, steps)) => {
                    let changed = migrated != v;
                    let findings = assistant_document_findings(spec_rename_advice(v), version, changed);
                    if apply && changed && version <= CURRENT_CONFIG_SCHEMA_VERSION {
                        Err((version, steps, findings, migrated))
                    } else {
                        Ok(
                            assistant_view(
                                apply,
                                false,
                                Some(path),
                                None,
                                Some(version),
                                changed,
                                steps,
                                spec_sorted_findings(findings),
                            ),
                        )
                    }
                },
            }
        },
    }
}

/// The step the assistant took is the one `expected` describes.
pub open spec fn assistant_step_matches(
    step: AssistantStep,
    expected: Result<AssistantView, (u32, Seq<StepView>, Seq<FindingView>, TomlView)>,
    path: Seq<char>,
) -> bool {
    match step {
        AssistantStep::Done(rep) => expected == Ok::<AssistantView, (u32, Seq<StepView>, Seq<FindingView>, TomlView)>(rep@),
        AssistantStep::WriteMigrated(p) => p.config_path@ == path && expected == Err::<
            AssistantView,
            (u32, Seq<StepView>, Seq<FindingView>, TomlView),
        >((p.detected_schema_version, steps_view(p.steps@), findings_view(p.findings@), p.migrated@)),
    }
}

/// An assistant report from its parts.
fn assistant_report(
    apply: bool,
    applied: bool,
    config_path: Option<String>,
    backup_path: Option<String>,
    detected_schema_version: Option<u32>,
    changed: bool,
    steps: Vec<ConfigMigrationStepReport>,
    findings: Vec<ConfigHealthFinding>,
) -> (r: ConfigMigrationReport)
    ensures
        r@ == assistant_view(
            apply,
            applied,
            opt_text(config_path),
            opt_text(backup_path),
            detected_schema_version,
            changed,
            steps_view(steps@),
            findings_view(findings@),
        ),
{
    let status = summarize_config_health(&findings);
    let action = if apply {
        owned("config-migration-apply")
    } else {
        owned("config-migration-guidance")
    };
    ConfigMigrationReport {
        action,
        applied,
        config_path,
        backup_path,
        detected_schema_version,
        target_schema_version: CURRENT_CONFIG_SCHEMA_VERSION,
        changed,
        status,
        steps,
        findings,
    }
}

/// The assistant's report for a file it could not read, or its next step for
/// one it read: the parse of the file's text comes next.
pub fn run_config_migration_assistant_step(apply: bool, read: ConfigFileRead) -> (r: AssistantStep)
    ensures
        match read {
            ConfigFileRead::PathUnavailable => r matches AssistantStep::Done(rep) && rep@ == assistant_early(
                apply,
                None,
                seq![path_unavailable_finding()],
            ),
            ConfigFileRead::Missing { path } => r matches AssistantStep::Done(rep) && rep@ == assistant_early(
                apply,
                Some(path@),
                seq![
                    finding(
                        "config.file_missing"@,
                        ConfigHealthSeverity::Warning,
                        missing_message(path@),
                        "Run focustime once (or create config.toml), then rerun diagnostics."@,
                    ),
                ],
            ),
            ConfigFileRead::ReadFailed { path, error } => r matches AssistantStep::Done(rep) && rep@ == assistant_early(
                apply,
                Some(path@),
                seq![
                    finding(
                        "config.read_failed"@,
                        ConfigHealthSeverity::Error,
                        read_failed_message(path@, error@),
                        "Check filesystem permissions and path accessibility, then rerun diagnostics."@,
                    ),
                ],
            ),
            ConfigFileRead::Read { path, content } => assistant_step_matches(
                r,
                spec_assistant_after_parse(apply, path@, toml_document(content@)),
                path@,
            ),
        },
{
    match read {
        ConfigFileRead::PathUnavailable => {
            let f = config_health_error(
                "config.path_unavailable",
                "Could not determine the config.toml path from the current environment.",
                "Set the platform config directory environment variables (for example APPDATA on Windows, XDG_CONFIG_HOME/HOME on Unix), then retry.",
            );
            AssistantStep::Done(assistant_report(apply, false, None, None, None, false, no_steps(), single_finding(f)))
        },
        ConfigFileRead::Missing { path } => {
            let m = concat3_owned("Config file `", path.as_str(), "` does not exist.");
            let f = config_health_warning(
                "config.file_missing",
                m.as_str(),
                "Run focustime once (or create config.toml), then rerun diagnostics.",
            );
            AssistantStep::Done(assistant_report(apply, false, Some(path), None, None, false, no_steps(), single_finding(f)))
        },
        ConfigFileRead::ReadFailed { path, error } => {
            let m = read_failed_text(path.as_str(), error.as_str());
            let f = config_health_error(
                "config.read_failed",
                m.as_str(),
                "Check filesystem permissions and path accessibility, then rerun diagnostics.",
            );
            AssistantStep::Done(assistant_report(apply, false, Some(path), None, None, false, no_steps(), single_finding(f)))
        },
        ConfigFileRead::Read { path, content } => {
            let parsed = parse_toml_document(content.as_str());
            assistant_after_parse(apply, path, parsed)
        },
    }
}

/// What the assistant does with a parsed document: its report, or the
/// migrated file to write first.
pub fn assistant_after_parse(apply: bool, path: String, parsed: Result<TomlValue, String>) -> (r: AssistantStep)
    ensures
        assistant_step_matches(r, spec_assistant_after_parse(apply, path@, parsed_view(parsed)), path@),
{
    let original = match parsed {
        Err(e) => {
            let m = concat("config.toml is not valid TOML: ", e.as_str());
            let f = config_health_error(
                "config.toml_parse_error",
                m.as_str(),
                "Fix the TOML syntax error and rerun diagnostics.",
            );
            return AssistantStep::Done(
                assistant_report(apply, false, Some(path), None, None, false, no_steps(), single_finding(f)),
            );
        },
        Ok(v) => v,
    };
    let ghost ov = original@;
    let mut findings: Vec<ConfigHealthFinding> = Vec::new();
    assert(findings_view(findings@) =~= Seq::<FindingView>::empty());
    let advice = collect_legacy_profile_rename_advice(&original);
    advice_findings(advice, "Use canonical profile tokens (`basic`, `standard`, `advanced`).", &mut findings);
    let ghost fa = findings_view(findings@);
    assert(fa =~= spec_rename_advice(ov).map_values(
        |a: Seq<char>|
            finding(
                "config.legacy_profile_token"@,
                ConfigHealthSeverity::Warning,
                a,
                "Use canonical profile tokens (`basic`, `standard`, `advanced`)."@,
            ),
    ));
    let kept = clone_value(&original);
    match migrate_config_toml_to_current_detailed(original) {
        Err(e) => {
            let m = concat("Migration analysis failed: ", e.as_str());
            let f = config_health_error(
                "config.migration_failed",
                m.as_str(),
                "Ensure schema_version is valid and the file is structurally correct TOML.",
            );
            let ghost fv = f@;
            findings.push(f);
            assert(findings_view(findings@) =~= fa.push(fv));
            AssistantStep::Done(assistant_report(apply, false, Some(path), None, None, false, no_steps(), findings))
        },
        Ok((migrated, schema_version, steps)) => {
            let changed = !value_eq(&kept, &migrated);
            if schema_version > CURRENT_CONFIG_SCHEMA_VERSION {
                let m = schema_message(
                    "Config schema version ",
                    schema_version,
                    " is newer than this build's supported schema version ",
                );
                let f = config_health_warning(
                    "config.schema_newer_than_supported",
                    m.as_str(),
                    "Use a focustime build that supports this schema before applying migration.",
                );
                let ghost fv = f@;
                findings.push(f);
                assert(findings_view(findings@) =~= fa.push(fv));
            } else if !changed {
                let f = config_health_warning(
                    "config.already_current",
                    "Config already matches the current migration schema and canonical key mapping.",
                    "No migration apply step is required.",
                );
                let ghost fv = f@;
                findings.push(f);
                assert(findings_view(findings@) =~= fa.push(fv));
            } else {
                assert(findings_view(findings@) =~= fa + Seq::<FindingView>::empty());
            }
            assert(findings_view(findings@) =~= assistant_document_findings(spec_rename_advice(ov), schema_version, changed));
            if apply && changed && schema_version <= CURRENT_CONFIG_SCHEMA_VERSION {
                return AssistantStep::WriteMigrated(
                    AssistantProgress {
                        config_path: path,
                        detected_schema_version: schema_version,
                        steps,
                        findings,
                        migrated,
                    },
                );
            }
            sort_config_health_findings(&mut findings);
            AssistantStep::Done(
                assistant_report(apply, false, Some(path), None, Some(schema_version), changed, steps, findings),
            )
        },
    }
}

/// The assistant's report once the migrated file was written, with the
/// backup's path, or failed to be.
pub open spec fn spec_assistant_finish(
    path: Seq<char>,
    version: u32,
    steps: Seq<StepView>,
    findings: Seq<FindingView>,
    written: Result<Seq<char>, Seq<char>>,
) -> AssistantView {
    match written {
        Ok(backup) => assistant_view(
            true,
            true,
            Some(path),
            Some(backup),
            Some(version),
            true,
            steps,
            spec_sorted_findings(findings),
        ),
        Err(e) => assistant_view(
            true,
            false,
            Some(path),
            None,
            Some(version),
            true,
            steps,
            spec_sorted_findings(
                findings.push(
                    finding(
                        "config.apply_failed"@,
                        ConfigHealthSeverity::Error,
                        e,
                        "Fix the file system error, restore from backup if needed, and retry migration apply."@,
                    ),
                ),
            ),
        ),
    }
}

/// The assistant's report for a parsed document (or its parse error) and
/// the outcome of the write it asks for, where it asks for one.
pub open spec fn spec_assistant_outcome(
    apply: bool,
    path: Seq<char>,
    parsed: Result<TomlView, Seq<char>>,
    written: Result<Seq<char>, Seq<char>>,
) -> AssistantView {
    match spec_assistant_after_parse(apply, path, parsed) {
        Ok(rep) => rep,
        Err((version, steps, findings, _)) => spec_assistant_finish(path, version, steps, findings, written),
    }
}

/// The assistant names the action it was asked for, and reports a migration
/// as applied only when applying was asked for, the document changed, its
/// schema was not newer than supported, and the migrated file was written
/// after a backup, whose path the report then gives. A report that was not
/// applied names no backup.
pub proof fn lemma_assistant_applies_only_after_write(
    apply: bool,
    path: Seq<char>,
    parsed: Result<TomlView, Seq<char>>,
    written: Result<Seq<char>, Seq<char>>,
)
    ensures
        spec_assistant_outcome(apply, path, parsed, written).action == assistant_action(apply),
        spec_assistant_outcome(apply, path, parsed, written).target_schema_version == 2,
        spec_assistant_outcome(apply, path, parsed, written).applied ==> {
            &&& apply
            &&& spec_assistant_outcome(apply, path, parsed, written).changed
            &&& parsed matches Ok(v) && spec_migrate_detailed(v) matches Ok((m, version, _)) && m != v
                && version <= 2 && spec_assistant_outcome(apply, path, parsed, written).detected_schema_version
                == Some(version)
            &&& written matches Ok(backup) && spec_assistant_outcome(apply, path, parsed, written).backup_path
                == Some(backup)
        },
        !spec_assistant_outcome(apply, path, parsed, written).applied ==> spec_assistant_outcome(
            apply,
            path,
            parsed,
            written,
        ).backup_path is None,
{
}

/// The assistant's report once the migrated file was written, with the
/// backup's path, or failed to be.
pub fn finish_config_migration_assistant(progress: AssistantProgress, written: Result<String, String>) -> (r: ConfigMigrationReport)
    ensures
        r@ == spec_assistant_finish(
            progress.config_path@,
            progress.detected_schema_version,
            steps_view(progress.steps@),
            findings_view(progress.findings@),
            match written {
                Ok(backup) => Ok(backup@),
                Err(e) => Err(e@),
            },
        ),
{
    let AssistantProgress { config_path, detected_schema_version, steps, findings, migrated: _ } = progress;
    let mut findings = findings;
    let ghost f0 = findings_view(findings@);
    match written {
        Ok(backup) => {
            sort_config_health_findings(&mut findings);
            assistant_report(true, true, Some(config_path), Some(backup), Some(detected_schema_version), true, steps, findings)
        },
        Err(e) => {
            let f = config_health_error(
                "config.apply_failed",
                e.as_str(),
                "Fix the file system error, restore from backup if needed, and retry migration apply.",
            );
            let ghost fv = f@;
            findings.push(f);
            assert(findings_view(findings@) =~= f0.push(fv));
            sort_config_health_findings(&mut findings);
            assistant_report(true, false, Some(config_path), None, Some(detected_schema_version), true, steps, findings)
        },
    }
}

/// The file name of the `index`-th candidate for a configuration backup:
/// the extension becomes `toml.bak`, then `toml.bak.1`, `toml.bak.2`, ...
pub open spec fn spec_backup_file_name(stem: Seq<char>, index: nat) -> Seq<char> {
    if index == 0 {
        stem + ".toml.bak"@
    } else {
        stem + ".toml.bak."@ + decimal(index)
    }
}

/// The file name of a configuration backup candidate: the caller tries the
/// candidates from index zero up and takes the first that does not exist.
pub fn backup_file_name(stem: &str, index: u64) -> (r: String)
    ensures
        r@ == spec_backup_file_name(stem@, index as nat),
{
    if index == 0 {
        concat(stem, ".toml.bak")
    } else {
        let mut r = concat(stem, ".toml.bak.");
        let n = u64_to_string(index);
        r.append(n.as_str());
        r
    }
}

/// The error when the backup copy cannot be made.
pub fn backup_copy_error(backup_path: &str, error: &str) -> (r: String)
    ensures
        r@ == "Failed to create config backup at `"@ + backup_path@ + "`: "@ + error@,
{
    let mut r = concat("Failed to create config backup at `", backup_path);
    r.append("`: ");
    r.append(error);
    r
}

/// The error when the migrated document cannot be rendered as TOML.
pub fn serialize_migrated_error(error: &str) -> (r: String)
    ensures
        r@ == "Failed to serialize migrated config TOML: "@ + error@,
{
    concat("Failed to serialize migrated config TOML: ", error)
}

/// The error when the migrated file cannot be written.
pub fn write_migrated_error(path: &str, error: &str) -> (r: String)
    ensures
        r@ == "Failed to write migrated config to `"@ + path@ + "`: "@ + error@,
{
    let mut r = concat("Failed to write migrated config to `", path);
    r.append("`: ");
    r.append(error);
    r
}

} // verus!
