//! The data commands (export, backup, restore): their messages, and the
//! restore workflow as a state machine. The caller does the file work that
//! each step asks for and hands back how it went; the machine decides what
//! comes next, and it rolls a half-done restore back before it reports the
//! error.
use crate::cli::render::{lines_view, push_line};
use crate::text::{concat, owned, u64_to_string};
use vstd::prelude::*;

verus! {

/// The file names of the application data.
pub const CONFIG_FILE_NAME: &'static str = "config.toml";

pub const STATS_FILE_NAME: &'static str = "stats.toml";

/// Which data command a directory or file is handled for.
#[derive(Debug, Clone, Copy, PartialEq, Eq, Structural)]
pub enum ArtifactWorkflow {
    Export,
    Backup,
    Restore,
}

impl ArtifactWorkflow {
    pub open spec fn spec_name(self) -> Seq<char> {
        match self {
            ArtifactWorkflow::Export => "Export"@,
            ArtifactWorkflow::Backup => "Backup"@,
            ArtifactWorkflow::Restore => "Restore"@,
        }
    }

    /// The command's name in messages.
    pub fn name(self) -> (r: &'static str)
        ensures
            r@ == self.spec_name(),
    {
        match self {
            ArtifactWorkflow::Export => "Export",
            ArtifactWorkflow::Backup => "Backup",
            ArtifactWorkflow::Restore => "Restore",
        }
    }

    pub open spec fn spec_role(self) -> Seq<char> {
        match self {
            ArtifactWorkflow::Restore => "source"@,
            _ => "target"@,
        }
    }

    /// What the directory is to the command: a `target` it writes or a
    /// `source` it reads.
    pub fn role(self) -> (r: &'static str)
        ensures
            r@ == self.spec_role(),
    {
        match self {
            ArtifactWorkflow::Restore => "source",
            _ => "target",
        }
    }

    /// Whether the command creates its directory: the ones that write do,
    /// restore reads from a directory that must already be there.
    pub fn creates_directory(self) -> (r: bool)
        ensures
            r == !(self is Restore),
    {
        match self {
            ArtifactWorkflow::Restore => false,
            _ => true,
        }
    }
}

pub open spec fn str_opt_view(o: Option<&str>) -> Option<Seq<char>> {
    match o {
        Some(s) => Some(s@),
        None => None,
    }
}

/// The error when no directory was given and the current one is unknown.
pub open spec fn spec_current_dir_error(w: ArtifactWorkflow, error: Seq<char>) -> Seq<char> {
    w.spec_name() + " failed: could not determine current directory: "@ + error
}

/// The error when no directory was given and the current one is unknown.
pub fn current_dir_error(w: ArtifactWorkflow, error: &str) -> (r: String)
    ensures
        r@ == spec_current_dir_error(w, error@),
{
    let mut r = concat(w.name(), " failed: could not determine current directory: ");
    r.append(error);
    r
}

/// The error when the command's directory cannot be created.
pub open spec fn spec_create_dir_error(w: ArtifactWorkflow, dir: Seq<char>, error: Seq<char>) -> Seq<char> {
    w.spec_name() + " failed: could not create "@ + w.spec_role() + " directory `"@ + dir + "`: "@ + error
}

/// The error when the command's directory cannot be created.
pub fn create_dir_error(w: ArtifactWorkflow, dir: &str, error: &str) -> (r: String)
    ensures
        r@ == spec_create_dir_error(w, dir@, error@),
{
    let mut r = concat(w.name(), " failed: could not create ");
    r.append(w.role());
    r.append(" directory `");
    r.append(dir);
    r.append("`: ");
    r.append(error);
    r
}

/// What a check of a data file found, and the error it gives: none for a
/// regular file; a missing file is named with the directory it was looked
/// for in (`.` for a path without one); anything else is not a regular file.
pub open spec fn spec_source_file_check(
    w: ArtifactWorkflow,
    path: Seq<char>,
    file_name: Seq<char>,
    parent: Option<Seq<char>>,
    exists: bool,
    is_file: bool,
) -> Result<(), Seq<char>> {
    if !exists {
        Err(
            w.spec_name() + " failed: missing `"@ + file_name + "` in `"@ + (match parent {
                Some(p) => p,
                None => "."@,
            }) + "`."@,
        )
    } else if !is_file {
        Err(w.spec_name() + " failed: `"@ + path + "` is not a regular file."@)
    } else {
        Ok(())
    }
}

/// Checks that a data file to back up or restore is there and is a regular
/// file; the caller looks at the file and passes what it found.
pub fn check_source_file(
    w: ArtifactWorkflow,
    path: &str,
    file_name: &str,
    parent: Option<&str>,
    exists: bool,
    is_file: bool,
) -> (r: Result<(), String>)
    ensures
        match (r, spec_source_file_check(w, path@, file_name@, str_opt_view(parent), exists, is_file)) {
            (Ok(()), Ok(())) => true,
            (Err(e), Err(m)) => e@ == m,
            _ => false,
        },
{
    if !exists {
        let mut r = concat(w.name(), " failed: missing `");
        r.append(file_name);
        r.append("` in `");
        match parent {
            Some(p) => r.append(p),
            None => r.append("."),
        }
        r.append("`.");
        proof {
            reveal_strlit(".");
        }
        return Err(r);
    }
    if !is_file {
        let mut r = concat(w.name(), " failed: `");
        r.append(path);
        r.append("` is not a regular file.");
        return Err(r);
    }
    Ok(())
}

/// The name of a temporary file beside a restored one:
/// `.{name}.{pid}.{marker}.tmp`, with a fixed name for a path without one.
pub open spec fn spec_temp_restore_name(target_name: Option<Seq<char>>, pid: u32, marker: Seq<char>) -> Seq<char> {
    "."@ + (match target_name {
        Some(n) => n,
        None => "focustime-restore"@,
    }) + "."@ + crate::text::decimal(pid as nat) + "."@ + marker + ".tmp"@
}

/// The name of a temporary file beside a restored one;
/// the caller puts it in the restored file's directory.
pub fn temp_restore_name(target_name: Option<&str>, pid: u32, marker: &str) -> (r: String)
    ensures
        r@ == spec_temp_restore_name(str_opt_view(target_name), pid, marker@),
{
    let mut r = owned(".");
    match target_name {
        Some(n) => r.append(n),
        None => r.append("focustime-restore"),
    }
    r.append(".");
    let p = u64_to_string(pid as u64);
    r.append(p.as_str());
    r.append(".");
    r.append(marker);
    r.append(".tmp");
    r
}

/// The paths a restore works with: the two files in the backup directory,
/// the staged copies beside the live files, and the live files.
#[derive(Debug, Clone, PartialEq, Eq)]
pub struct RestorePaths {
    pub source_config: String,
    pub source_stats: String,
    pub staged_config: String,
    pub staged_stats: String,
    pub config: String,
    pub stats: String,
}

/// The step of a restore whose outcome is awaited.
#[derive(Debug, Clone, Copy, PartialEq, Eq, Structural)]
pub enum RestoreStage {
    StageConfig,
    StageStats,
    SnapshotConfig,
    SnapshotStats,
    ReplaceConfig,
    ReplaceStats,
    RollBackConfig,
    RollBackStats,
    RemoveStaged,
    RemoveConfigSnapshot,
    RemoveStatsSnapshot,
    Finished,
}

/// Where a restore stands: the step whose outcome is awaited, the copies of
/// the live files taken for a rollback, and the error being reported.
#[derive(Debug, Clone, PartialEq, Eq)]
pub struct RestoreProgress {
    pub stage: RestoreStage,
    pub config_snapshot: Option<String>,
    pub stats_snapshot: Option<String>,
    pub error: Option<String>,
}

/// The file work a restore asks for next.
#[derive(Debug, Clone, PartialEq, Eq)]
pub enum RestoreAction {
    /// Copy `from` to `to`, creating `to`'s directory.
    Copy { from: String, to: String, context: &'static str },
    /// Copy `path` to a temporary file beside it when it exists, and report
    /// the copy's path; an existing path that is not a regular file fails.
    Snapshot { path: String, context: &'static str },
    /// Move `from` over `to`; on failure remove `from`.
    Replace { from: String, to: String, context: &'static str },
    /// Put the snapshot back over `destination`, or remove `destination`
    /// when there was none; how it goes is not reported.
    RollBack { snapshot: Option<String>, destination: String, context: &'static str },
    /// Remove the file if it exists; how it goes is not reported.
    Remove { path: String },
    /// The restore is over, with the error that stopped it, if any.
    Finish(Option<String>),
}

/// How the last file work went.
#[derive(Debug, Clone, PartialEq, Eq)]
pub enum RestoreOutcome {
    Done,
    Snapshotted(Option<String>),
    Failed(String),
}

/// The restore action as sequences of characters.
pub enum ActionView {
    Copy { from: Seq<char>, to: Seq<char>, context: Seq<char> },
    Snapshot { path: Seq<char>, context: Seq<char> },
    Replace { from: Seq<char>, to: Seq<char>, context: Seq<char> },
    RollBack { snapshot: Option<Seq<char>>, destination: Seq<char>, context: Seq<char> },
    Remove { path: Seq<char> },
    Finish(Option<Seq<char>>),
}

pub open spec fn opt_view(o: Option<String>) -> Option<Seq<char>> {
    match o {
        Some(s) => Some(s@),
        None => None,
    }
}

impl View for RestoreAction {
    type V = ActionView;

    open spec fn view(&self) -> ActionView {
        match self {
            RestoreAction::Copy { from, to, context } => ActionView::Copy { from: from@, to: to@, context: context@ },
            RestoreAction::Snapshot { path, context } => ActionView::Snapshot { path: path@, context: context@ },
            RestoreAction::Replace { from, to, context } => ActionView::Replace {
                from: from@,
                to: to@,
                context: context@,
            },
            RestoreAction::RollBack { snapshot, destination, context } => ActionView::RollBack {
                snapshot: opt_view(*snapshot),
                destination: destination@,
                context: context@,
            },
            RestoreAction::Remove { path } => ActionView::Remove { path: path@ },
            RestoreAction::Finish(e) => ActionView::Finish(opt_view(*e)),
        }
    }
}

/// A restore's state as sequences of characters.
pub struct ProgressView {
    pub stage: RestoreStage,
    pub config_snapshot: Option<Seq<char>>,
    pub stats_snapshot: Option<Seq<char>>,
    pub error: Option<Seq<char>>,
}

impl View for RestoreProgress {
    type V = ProgressView;

    open spec fn view(&self) -> ProgressView {
        ProgressView {
            stage: self.stage,
            config_snapshot: opt_view(self.config_snapshot),
            stats_snapshot: opt_view(self.stats_snapshot),
            error: opt_view(self.error),
        }
    }
}

/// How the last file work went, as sequences of characters.
pub enum OutcomeView {
    Done,
    Snapshotted(Option<Seq<char>>),
    Failed(Seq<char>),
}

impl View for RestoreOutcome {
    type V = OutcomeView;

    open spec fn view(&self) -> OutcomeView {
        match self {
            RestoreOutcome::Done => OutcomeView::Done,
            RestoreOutcome::Snapshotted(s) => OutcomeView::Snapshotted(opt_view(*s)),
            RestoreOutcome::Failed(e) => OutcomeView::Failed(e@),
        }
    }
}

/// The restore's paths as sequences of characters.
pub struct PathsView {
    pub source_config: Seq<char>,
    pub source_stats: Seq<char>,
    pub staged_config: Seq<char>,
    pub staged_stats: Seq<char>,
    pub config: Seq<char>,
    pub stats: Seq<char>,
}

impl View for RestorePaths {
    type V = PathsView;

    open spec fn view(&self) -> PathsView {
        PathsView {
            source_config: self.source_config@,
            source_stats: self.source_stats@,
            staged_config: self.staged_config@,
            staged_stats: self.staged_stats@,
            config: self.config@,
            stats: self.stats@,
        }
    }
}

pub open spec fn at(stage: RestoreStage, c: Option<Seq<char>>, s: Option<Seq<char>>, e: Option<Seq<char>>) -> ProgressView {
    ProgressView { stage, config_snapshot: c, stats_snapshot: s, error: e }
}

/// The first step of a restore: stage the backed-up configuration beside
/// the live one.
pub open spec fn spec_restore_start(p: PathsView) -> (ProgressView, ActionView) {
    (
        at(RestoreStage::StageConfig, None, None, None),
        ActionView::Copy { from: p.source_config, to: p.staged_config, context: "stage restore config.toml"@ },
    )
}

/// After the live stats file was restored: remove the snapshots taken,
/// configuration first, then report success.
pub open spec fn spec_cleanup_from(stage: RestoreStage, g: ProgressView) -> (ProgressView, ActionView) {
    if stage == RestoreStage::ReplaceStats && g.config_snapshot is Some {
        (
            at(RestoreStage::RemoveConfigSnapshot, g.config_snapshot, g.stats_snapshot, None),
            ActionView::Remove { path: g.config_snapshot->0 },
        )
    } else if stage != RestoreStage::RemoveStatsSnapshot && g.stats_snapshot is Some {
        (
            at(RestoreStage::RemoveStatsSnapshot, g.config_snapshot, g.stats_snapshot, None),
            ActionView::Remove { path: g.stats_snapshot->0 },
        )
    } else {
        (at(RestoreStage::Finished, g.config_snapshot, g.stats_snapshot, None), ActionView::Finish(None))
    }
}

/// The next step of a restore, from the step whose outcome came back.
///
/// Staging both files, snapshotting both live files and replacing the live
/// configuration each end the restore with their error when they fail. When
/// replacing the live stats file fails, the live configuration is put back
/// from its snapshot (or removed when there was none), then the stats file,
/// then the staged stats copy is removed, and the error is reported. The
/// outcome of a rollback or a removal does not change what comes next.
pub open spec fn spec_restore_next(p: PathsView, g: ProgressView, o: OutcomeView) -> (ProgressView, ActionView) {
    let c = g.config_snapshot;
    let s = g.stats_snapshot;
    match g.stage {
        RestoreStage::StageConfig => match o {
            OutcomeView::Failed(e) => (at(RestoreStage::Finished, c, s, Some(e)), ActionView::Finish(Some(e))),
            _ => (
                at(RestoreStage::StageStats, c, s, None),
                ActionView::Copy { from: p.source_stats, to: p.staged_stats, context: "stage restore stats.toml"@ },
            ),
        },
        RestoreStage::StageStats => match o {
            OutcomeView::Failed(e) => (at(RestoreStage::Finished, c, s, Some(e)), ActionView::Finish(Some(e))),
            _ => (
                at(RestoreStage::SnapshotConfig, c, s, None),
                ActionView::Snapshot { path: p.config, context: "snapshot existing config.toml for rollback"@ },
            ),
        },
        RestoreStage::SnapshotConfig => match o {
            OutcomeView::Failed(e) => (at(RestoreStage::Finished, c, s, Some(e)), ActionView::Finish(Some(e))),
            _ => {
                let taken = match o {
                    OutcomeView::Snapshotted(t) => t,
                    _ => None,
                };
                (
                    at(RestoreStage::SnapshotStats, taken, s, None),
                    ActionView::Snapshot { path: p.stats, context: "snapshot existing stats.toml for rollback"@ },
                )
            },
        },
        RestoreStage::SnapshotStats => match o {
            OutcomeView::Failed(e) => (at(RestoreStage::Finished, c, s, Some(e)), ActionView::Finish(Some(e))),
            _ => {
                let taken = match o {
                    OutcomeView::Snapshotted(t) => t,
                    _ => None,
                };
                (
                    at(RestoreStage::ReplaceConfig, c, taken, None),
                    ActionView::Replace { from: p.staged_config, to: p.config, context: "restore config.toml"@ },
                )
            },
        },
        RestoreStage::ReplaceConfig => match o {
            OutcomeView::Failed(e) => (at(RestoreStage::Finished, c, s, Some(e)), ActionView::Finish(Some(e))),
            _ => (
                at(RestoreStage::ReplaceStats, c, s, None),
                ActionView::Replace { from: p.staged_stats, to: p.stats, context: "restore stats.toml"@ },
            ),
        },
        RestoreStage::ReplaceStats => match o {
            OutcomeView::Failed(e) => (
                at(RestoreStage::RollBackConfig, c, s, Some(e)),
                ActionView::RollBack { snapshot: c, destination: p.config, context: "roll back restored config.toml"@ },
            ),
            _ => spec_cleanup_from(RestoreStage::ReplaceStats, g),
        },
        RestoreStage::RollBackConfig => (
            at(RestoreStage::RollBackStats, c, s, g.error),
            ActionView::RollBack { snapshot: s, destination: p.stats, context: "roll back restored stats.toml"@ },
        ),
        RestoreStage::RollBackStats => (
            at(RestoreStage::RemoveStaged, c, s, g.error),
            ActionView::Remove { path: p.staged_stats },
        ),
        RestoreStage::RemoveStaged => (
            at(RestoreStage::Finished, c, s, g.error),
            ActionView::Finish(g.error),
        ),
        RestoreStage::RemoveConfigSnapshot => spec_cleanup_from(RestoreStage::RemoveConfigSnapshot, g),
        RestoreStage::RemoveStatsSnapshot => spec_cleanup_from(RestoreStage::RemoveStatsSnapshot, g),
        RestoreStage::Finished => (
            g,
            ActionView::Finish(g.error),
        ),
    }
}

fn clone_opt(o: &Option<String>) -> (r: Option<String>)
    ensures
        opt_view(r) == opt_view(*o),
{
    match o {
        Some(s) => Some(s.clone()),
        None => None,
    }
}

fn progress(stage: RestoreStage, c: &Option<String>, s: &Option<String>, e: Option<String>) -> (r: RestoreProgress)
    ensures
        r@ == at(stage, opt_view(*c), opt_view(*s), opt_view(e)),
{
    RestoreProgress { stage, config_snapshot: clone_opt(c), stats_snapshot: clone_opt(s), error: e }
}

/// Starts a restore.
pub fn restore_start(paths: &RestorePaths) -> (r: (RestoreProgress, RestoreAction))
    ensures
        (r.0@, r.1@) == spec_restore_start(paths@),
{
    (
        progress(RestoreStage::StageConfig, &None, &None, None),
        RestoreAction::Copy {
            from: paths.source_config.clone(),
            to: paths.staged_config.clone(),
            context: "stage restore config.toml",
        },
    )
}

fn cleanup_from(stage: RestoreStage, g: &RestoreProgress) -> (r: (RestoreProgress, RestoreAction))
    ensures
        (r.0@, r.1@) == spec_cleanup_from(stage, g@),
{
    if stage == RestoreStage::ReplaceStats && g.config_snapshot.is_some() {
        let path = clone_opt(&g.config_snapshot).unwrap();
        (
            progress(RestoreStage::RemoveConfigSnapshot, &g.config_snapshot, &g.stats_snapshot, None),
            RestoreAction::Remove { path },
        )
    } else if stage != RestoreStage::RemoveStatsSnapshot && g.stats_snapshot.is_some() {
        let path = clone_opt(&g.stats_snapshot).unwrap();
        (
            progress(RestoreStage::RemoveStatsSnapshot, &g.config_snapshot, &g.stats_snapshot, None),
            RestoreAction::Remove { path },
        )
    } else {
        (
            progress(RestoreStage::Finished, &g.config_snapshot, &g.stats_snapshot, None),
            RestoreAction::Finish(None),
        )
    }
}

fn finish_with(e: &Option<String>) -> (r: RestoreAction)
    ensures
        r@ == ActionView::Finish(opt_view(*e)),
{
    RestoreAction::Finish(clone_opt(e))
}

/// The next step of a restore, given how the last one went.
#[verifier::rlimit(40)]
pub fn restore_next(paths: &RestorePaths, g: &RestoreProgress, outcome: &RestoreOutcome) -> (r: (
    RestoreProgress,
    RestoreAction,
))
    ensures
        (r.0@, r.1@) == spec_restore_next(paths@, g@, outcome@),
{
    let c = &g.config_snapshot;
    let s = &g.stats_snapshot;
    if let RestoreOutcome::Failed(e) = outcome {
        match g.stage {
            RestoreStage::StageConfig | RestoreStage::StageStats | RestoreStage::SnapshotConfig
            | RestoreStage::SnapshotStats | RestoreStage::ReplaceConfig => {
                return (
                    progress(RestoreStage::Finished, c, s, Some(e.clone())),
                    RestoreAction::Finish(Some(e.clone())),
                );
            },
            RestoreStage::ReplaceStats => {
                return (
                    progress(RestoreStage::RollBackConfig, c, s, Some(e.clone())),
                    RestoreAction::RollBack {
                        snapshot: clone_opt(c),
                        destination: paths.config.clone(),
                        context: "roll back restored config.toml",
                    },
                );
            },
            _ => {},
        }
    }
    match g.stage {
        RestoreStage::StageConfig => (
            progress(RestoreStage::StageStats, c, s, None),
            RestoreAction::Copy {
                from: paths.source_stats.clone(),
                to: paths.staged_stats.clone(),
                context: "stage restore stats.toml",
            },
        ),
        RestoreStage::StageStats => (
            progress(RestoreStage::SnapshotConfig, c, s, None),
            RestoreAction::Snapshot { path: paths.config.clone(), context: "snapshot existing config.toml for rollback" },
        ),
        RestoreStage::SnapshotConfig => {
            let taken = match outcome {
                RestoreOutcome::Snapshotted(t) => clone_opt(t),
                _ => None,
            };
            (
                progress(RestoreStage::SnapshotStats, &taken, s, None),
                RestoreAction::Snapshot { path: paths.stats.clone(), context: "snapshot existing stats.toml for rollback" },
            )
        },
        RestoreStage::SnapshotStats => {
            let taken = match outcome {
                RestoreOutcome::Snapshotted(t) => clone_opt(t),
                _ => None,
            };
            (
                progress(RestoreStage::ReplaceConfig, c, &taken, None),
                RestoreAction::Replace {
                    from: paths.staged_config.clone(),
                    to: paths.config.clone(),
                    context: "restore config.toml",
                },
            )
        },
        RestoreStage::ReplaceConfig => (
            progress(RestoreStage::ReplaceStats, c, s, None),
            RestoreAction::Replace {
                from: paths.staged_stats.clone(),
                to: paths.stats.clone(),
                context: "restore stats.toml",
            },
        ),
        RestoreStage::ReplaceStats => cleanup_from(RestoreStage::ReplaceStats, g),
        RestoreStage::RollBackConfig => (
            progress(RestoreStage::RollBackStats, c, s, clone_opt(&g.error)),
            RestoreAction::RollBack {
                snapshot: clone_opt(s),
                destination: paths.stats.clone(),
                context: "roll back restored stats.toml",
            },
        ),
        RestoreStage::RollBackStats => (
            progress(RestoreStage::RemoveStaged, c, s, clone_opt(&g.error)),
            RestoreAction::Remove { path: paths.staged_stats.clone() },
        ),
        RestoreStage::RemoveStaged => (
            progress(RestoreStage::Finished, c, s, clone_opt(&g.error)),
            finish_with(&g.error),
        ),
        RestoreStage::RemoveConfigSnapshot => cleanup_from(RestoreStage::RemoveConfigSnapshot, g),
        RestoreStage::RemoveStatsSnapshot => cleanup_from(RestoreStage::RemoveStatsSnapshot, g),
        RestoreStage::Finished => (
            progress(RestoreStage::Finished, c, s, clone_opt(&g.error)),
            finish_with(&g.error),
        ),
    }
}

/// The actions a restore asks for when the outcomes come back in turn,
/// starting from `g`.
pub open spec fn spec_restore_run(p: PathsView, g: ProgressView, outcomes: Seq<OutcomeView>) -> Seq<ActionView>
    decreases outcomes.len(),
{
    if outcomes.len() == 0 {
        Seq::empty()
    } else {
        let (next, action) = spec_restore_next(p, g, outcomes[0]);
        seq![action] + spec_restore_run(p, next, outcomes.drop_first())
    }
}

/// The removal of a snapshot, when one was taken.
pub open spec fn remove_if_taken(snapshot: Option<Seq<char>>) -> Seq<ActionView> {
    match snapshot {
        Some(path) => seq![ActionView::Remove { path }],
        None => Seq::empty(),
    }
}

/// A restore in which every file operation succeeds stages both files,
/// snapshots both live files, replaces the configuration and then the stats
/// file, removes the snapshots that were taken, and reports success.
pub proof fn lemma_restore_success_run(p: PathsView, config_snapshot: Option<Seq<char>>, stats_snapshot: Option<Seq<char>>)
    ensures
        ({
            let taken = if config_snapshot is Some { 1int } else { 0int };
            let n = 5 + taken + (if stats_snapshot is Some { 1int } else { 0int }) + 1;
            let outcomes = seq![
                OutcomeView::Done,
                OutcomeView::Done,
                OutcomeView::Snapshotted(config_snapshot),
                OutcomeView::Snapshotted(stats_snapshot),
                OutcomeView::Done,
            ] + Seq::new((n - 5) as nat, |i: int| OutcomeView::Done);
            seq![spec_restore_start(p).1] + spec_restore_run(p, spec_restore_start(p).0, outcomes) == seq![
                ActionView::Copy { from: p.source_config, to: p.staged_config, context: "stage restore config.toml"@ },
                ActionView::Copy { from: p.source_stats, to: p.staged_stats, context: "stage restore stats.toml"@ },
                ActionView::Snapshot { path: p.config, context: "snapshot existing config.toml for rollback"@ },
                ActionView::Snapshot { path: p.stats, context: "snapshot existing stats.toml for rollback"@ },
                ActionView::Replace { from: p.staged_config, to: p.config, context: "restore config.toml"@ },
                ActionView::Replace { from: p.staged_stats, to: p.stats, context: "restore stats.toml"@ },
            ] + remove_if_taken(config_snapshot) + remove_if_taken(stats_snapshot) + seq![ActionView::Finish(None)]
        }),
{
    let taken = if config_snapshot is Some { 1int } else { 0int };
    let n = 5 + taken + (if stats_snapshot is Some { 1int } else { 0int }) + 1;
    let tail = Seq::new((n - 5) as nat, |i: int| OutcomeView::Done);
    let outcomes = seq![
        OutcomeView::Done,
        OutcomeView::Done,
        OutcomeView::Snapshotted(config_snapshot),
        OutcomeView::Snapshotted(stats_snapshot),
        OutcomeView::Done,
    ] + tail;
    assert(outcomes[0] == OutcomeView::Done);
    assert(outcomes[1] == OutcomeView::Done);
    assert(outcomes[2] == OutcomeView::Snapshotted(config_snapshot));
    assert(outcomes[3] == OutcomeView::Snapshotted(stats_snapshot));
    assert(outcomes[4] == OutcomeView::Done);
    let g0 = spec_restore_start(p).0;
    let g1 = spec_restore_next(p, g0, outcomes[0]).0;
    let g2 = spec_restore_next(p, g1, outcomes[1]).0;
    let g3 = spec_restore_next(p, g2, outcomes[2]).0;
    let g4 = spec_restore_next(p, g3, outcomes[3]).0;
    let g5 = spec_restore_next(p, g4, outcomes[4]).0;
    assert(g0 == at(RestoreStage::StageConfig, None, None, None));
    assert(g1 == at(RestoreStage::StageStats, None, None, None));
    assert(g2 == at(RestoreStage::SnapshotConfig, None, None, None));
    assert(g3 == at(RestoreStage::SnapshotStats, config_snapshot, None, None));
    assert(g4 == at(RestoreStage::ReplaceConfig, config_snapshot, stats_snapshot, None));
    assert(g5 == at(RestoreStage::ReplaceStats, config_snapshot, stats_snapshot, None));
    let rest = outcomes.drop_first().drop_first().drop_first().drop_first().drop_first();
    assert(rest =~= tail);
    let cleanup = remove_if_taken(config_snapshot) + remove_if_taken(stats_snapshot) + seq![ActionView::Finish(None)];
    assert(spec_restore_run(p, g5, tail) == cleanup) by {
        lemma_cleanup_run(p, config_snapshot, stats_snapshot);
    }
    reveal_with_fuel(spec_restore_run, 6);
    assert(outcomes.drop_first().drop_first().drop_first().drop_first() =~= seq![OutcomeView::Done] + tail);
    assert(outcomes.drop_first().drop_first().drop_first() =~= seq![
        OutcomeView::Snapshotted(stats_snapshot),
        OutcomeView::Done,
    ] + tail);
    assert(outcomes.drop_first().drop_first() =~= seq![
        OutcomeView::Snapshotted(config_snapshot),
        OutcomeView::Snapshotted(stats_snapshot),
        OutcomeView::Done,
    ] + tail);
    assert(outcomes.drop_first() =~= seq![
        OutcomeView::Done,
        OutcomeView::Snapshotted(config_snapshot),
        OutcomeView::Snapshotted(stats_snapshot),
        OutcomeView::Done,
    ] + tail);
    assert(seq![spec_restore_start(p).1] + spec_restore_run(p, g0, outcomes) =~= seq![
        ActionView::Copy { from: p.source_config, to: p.staged_config, context: "stage restore config.toml"@ },
        ActionView::Copy { from: p.source_stats, to: p.staged_stats, context: "stage restore stats.toml"@ },
        ActionView::Snapshot { path: p.config, context: "snapshot existing config.toml for rollback"@ },
        ActionView::Snapshot { path: p.stats, context: "snapshot existing stats.toml for rollback"@ },
        ActionView::Replace { from: p.staged_config, to: p.config, context: "restore config.toml"@ },
        ActionView::Replace { from: p.staged_stats, to: p.stats, context: "restore stats.toml"@ },
    ] + cleanup);
}

proof fn lemma_cleanup_run(p: PathsView, c: Option<Seq<char>>, s: Option<Seq<char>>)
    ensures
        ({
            let n = (if c is Some { 1int } else { 0int }) + (if s is Some { 1int } else { 0int }) + 1;
            spec_restore_run(p, at(RestoreStage::ReplaceStats, c, s, None), Seq::new(n as nat, |i: int| OutcomeView::Done))
                == remove_if_taken(c) + remove_if_taken(s) + seq![ActionView::Finish(None)]
        }),
{
    let n = (if c is Some { 1int } else { 0int }) + (if s is Some { 1int } else { 0int }) + 1;
    let all = Seq::new(n as nat, |i: int| OutcomeView::Done);
    reveal_with_fuel(spec_restore_run, 4);
    let g = at(RestoreStage::ReplaceStats, c, s, None);
    if c is Some {
        let g1 = at(RestoreStage::RemoveConfigSnapshot, c, s, None);
        assert(spec_restore_next(p, g, all[0]).0 == g1);
        if s is Some {
            let g2 = at(RestoreStage::RemoveStatsSnapshot, c, s, None);
            assert(spec_restore_next(p, g1, all[1]).0 == g2);
            assert(all.drop_first().drop_first().drop_first() =~= Seq::<OutcomeView>::empty());
            assert(spec_restore_run(p, g, all) =~= remove_if_taken(c) + remove_if_taken(s) + seq![
                ActionView::Finish(None),
            ]);
        } else {
            assert(all.drop_first().drop_first() =~= Seq::<OutcomeView>::empty());
            assert(spec_restore_run(p, g, all) =~= remove_if_taken(c) + remove_if_taken(s) + seq![
                ActionView::Finish(None),
            ]);
        }
    } else {
        if s is Some {
            assert(all.drop_first().drop_first() =~= Seq::<OutcomeView>::empty());
            assert(spec_restore_run(p, g, all) =~= remove_if_taken(c) + remove_if_taken(s) + seq![
                ActionView::Finish(None),
            ]);
        } else {
            assert(all.drop_first() =~= Seq::<OutcomeView>::empty());
            assert(spec_restore_run(p, g, all) =~= remove_if_taken(c) + remove_if_taken(s) + seq![
                ActionView::Finish(None),
            ]);
        }
    }
}

/// When the stats file cannot be replaced, whatever the rollbacks and the
/// removal report, the restore puts the configuration back, then the stats
/// file, removes the staged stats copy and reports the replacement's error.
pub proof fn lemma_restore_rolls_back_before_failing(
    p: PathsView,
    config_snapshot: Option<Seq<char>>,
    stats_snapshot: Option<Seq<char>>,
    error: Seq<char>,
    o1: OutcomeView,
    o2: OutcomeView,
    o3: OutcomeView,
)
    ensures
        spec_restore_run(
            p,
            at(RestoreStage::ReplaceStats, config_snapshot, stats_snapshot, None),
            seq![OutcomeView::Failed(error), o1, o2, o3],
        ) == seq![
            ActionView::RollBack {
                snapshot: config_snapshot,
                destination: p.config,
                context: "roll back restored config.toml"@,
            },
            ActionView::RollBack {
                snapshot: stats_snapshot,
                destination: p.stats,
                context: "roll back restored stats.toml"@,
            },
            ActionView::Remove { path: p.staged_stats },
            ActionView::Finish(Some(error)),
        ],
{
    let outcomes = seq![OutcomeView::Failed(error), o1, o2, o3];
    reveal_with_fuel(spec_restore_run, 5);
    assert(outcomes.drop_first() =~= seq![o1, o2, o3]);
    assert(outcomes.drop_first().drop_first() =~= seq![o2, o3]);
    assert(outcomes.drop_first().drop_first().drop_first() =~= seq![o3]);
    assert(outcomes.drop_first().drop_first().drop_first().drop_first() =~= Seq::<OutcomeView>::empty());
    let g = at(RestoreStage::ReplaceStats, config_snapshot, stats_snapshot, None);
    assert(spec_restore_run(p, g, outcomes) =~= seq![
        ActionView::RollBack {
            snapshot: config_snapshot,
            destination: p.config,
            context: "roll back restored config.toml"@,
        },
        ActionView::RollBack {
            snapshot: stats_snapshot,
            destination: p.stats,
            context: "roll back restored stats.toml"@,
        },
        ActionView::Remove { path: p.staged_stats },
        ActionView::Finish(Some(error)),
    ]);
}

/// A failure before the live stats file is touched ends the restore with
/// that failure's error, asking for no further file work; and a finished
/// restore stays finished with the same result.
pub proof fn lemma_restore_early_failure_and_finish(p: PathsView, g: ProgressView, o: OutcomeView, error: Seq<char>)
    ensures
        (g.stage == RestoreStage::StageConfig || g.stage == RestoreStage::StageStats || g.stage
            == RestoreStage::SnapshotConfig || g.stage == RestoreStage::SnapshotStats || g.stage
            == RestoreStage::ReplaceConfig) ==> spec_restore_next(p, g, OutcomeView::Failed(error)).1
            == ActionView::Finish(Some(error)) && spec_restore_next(p, g, OutcomeView::Failed(error)).0.stage
            == RestoreStage::Finished,
        g.stage == RestoreStage::Finished ==> spec_restore_next(p, g, o).0 == g && spec_restore_next(p, g, o).1
            == ActionView::Finish(g.error),
{
}

/// The lines printed after a data command: what was done where, then each
/// file with its label.
pub open spec fn spec_artifact_lines(
    head: Seq<char>,
    dir: Seq<char>,
    first_label: Seq<char>,
    first: Seq<char>,
    second_label: Seq<char>,
    second: Seq<char>,
) -> Seq<Seq<char>> {
    seq![head + dir, first_label + ": "@ + first, second_label + ": "@ + second]
}

fn artifact_lines(head: &str, dir: &str, first_label: &str, first: &str, second_label: &str, second: &str) -> (r: Vec<
    String,
>)
    ensures
        lines_view(r@) == spec_artifact_lines(head@, dir@, first_label@, first@, second_label@, second@),
{
    let mut lines: Vec<String> = Vec::new();
    assert(lines_view(lines@) =~= Seq::<Seq<char>>::empty());
    push_line(&mut lines, head, dir);
    let l1 = concat(first_label, ": ");
    push_line(&mut lines, l1.as_str(), first);
    let l2 = concat(second_label, ": ");
    push_line(&mut lines, l2.as_str(), second);
    assert(lines_view(lines@) =~= spec_artifact_lines(head@, dir@, first_label@, first@, second_label@, second@));
    lines
}

/// The lines printed after an export.
pub fn export_output_lines(export_dir: &str, json_path: &str, csv_path: &str) -> (r: Vec<String>)
    ensures
        lines_view(r@) == spec_artifact_lines("Exported stats to "@, export_dir@, "JSON"@, json_path@, "CSV"@, csv_path@),
{
    artifact_lines("Exported stats to ", export_dir, "JSON", json_path, "CSV", csv_path)
}

/// The lines printed after a backup.
pub fn backup_output_lines(backup_dir: &str, config_path: &str, stats_path: &str) -> (r: Vec<String>)
    ensures
        lines_view(r@) == spec_artifact_lines(
            "Backed up app data to "@,
            backup_dir@,
            "Config"@,
            config_path@,
            "Stats"@,
            stats_path@,
        ),
{
    artifact_lines("Backed up app data to ", backup_dir, "Config", config_path, "Stats", stats_path)
}

/// The lines printed after a restore.
pub fn restore_output_lines(restore_dir: &str, config_path: &str, stats_path: &str) -> (r: Vec<String>)
    ensures
        lines_view(r@) == spec_artifact_lines(
            "Restored app data from "@,
            restore_dir@,
            "Config"@,
            config_path@,
            "Stats"@,
            stats_path@,
        ),
{
    artifact_lines("Restored app data from ", restore_dir, "Config", config_path, "Stats", stats_path)
}

} // verus!
