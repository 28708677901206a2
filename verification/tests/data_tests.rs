use focustime::cli::data::{
    backup_output_lines, check_source_file, create_dir_error, current_dir_error,
    export_output_lines, restore_next, restore_output_lines, restore_start, temp_restore_name,
    ArtifactWorkflow, RestoreAction, RestoreOutcome, RestorePaths, RestoreStage,
};

fn paths() -> RestorePaths {
    RestorePaths {
        source_config: "/b/config.toml".to_string(),
        source_stats: "/b/stats.toml".to_string(),
        staged_config: "/d/.config.toml.7.staged.tmp".to_string(),
        staged_stats: "/d/.stats.toml.7.staged.tmp".to_string(),
        config: "/d/config.toml".to_string(),
        stats: "/d/stats.toml".to_string(),
    }
}

fn run(outcomes: Vec<RestoreOutcome>) -> Vec<RestoreAction> {
    let p = paths();
    let (mut progress, first) = restore_start(&p);
    let mut actions = vec![first];
    for outcome in outcomes {
        let (next, action) = restore_next(&p, &progress, &outcome);
        progress = next;
        actions.push(action);
    }
    actions
}

#[test]
fn artifact_workflows_create_only_written_directories() {
    assert!(ArtifactWorkflow::Export.creates_directory());
    assert!(ArtifactWorkflow::Backup.creates_directory());
    assert!(!ArtifactWorkflow::Restore.creates_directory());
    assert_eq!(ArtifactWorkflow::Restore.role(), "source");
    assert_eq!(ArtifactWorkflow::Backup.role(), "target");
}

#[test]
fn artifact_directory_errors_name_the_workflow() {
    assert_eq!(
        current_dir_error(ArtifactWorkflow::Export, "denied"),
        "Export failed: could not determine current directory: denied"
    );
    assert_eq!(
        create_dir_error(ArtifactWorkflow::Backup, "/tmp/occupied", "File exists"),
        "Backup failed: could not create target directory `/tmp/occupied`: File exists"
    );
}

#[test]
fn source_file_check_reports_missing_and_irregular_files() {
    assert_eq!(
        check_source_file(ArtifactWorkflow::Restore, "/b/config.toml", "config.toml", Some("/b"), false, false),
        Err("Restore failed: missing `config.toml` in `/b`.".to_string())
    );
    assert_eq!(
        check_source_file(ArtifactWorkflow::Backup, "stats.toml", "stats.toml", None, false, false),
        Err("Backup failed: missing `stats.toml` in `.`.".to_string())
    );
    assert_eq!(
        check_source_file(ArtifactWorkflow::Backup, "/d/stats.toml", "stats.toml", Some("/d"), true, false),
        Err("Backup failed: `/d/stats.toml` is not a regular file.".to_string())
    );
    assert_eq!(
        check_source_file(ArtifactWorkflow::Backup, "/d/stats.toml", "stats.toml", Some("/d"), true, true),
        Ok(())
    );
}

#[test]
fn temp_restore_name_marks_pid_and_purpose() {
    assert_eq!(temp_restore_name(Some("config.toml"), 42, "staged"), ".config.toml.42.staged.tmp");
    assert_eq!(temp_restore_name(None, 7, "original"), ".focustime-restore.7.original.tmp");
}

#[test]
fn restore_success_runs_every_step_and_removes_snapshots() {
    let actions = run(vec![
        RestoreOutcome::Done,
        RestoreOutcome::Done,
        RestoreOutcome::Snapshotted(Some("/d/.config.toml.7.original.tmp".to_string())),
        RestoreOutcome::Snapshotted(None),
        RestoreOutcome::Done,
        RestoreOutcome::Done,
        RestoreOutcome::Done,
    ]);
    assert_eq!(
        actions,
        vec![
            RestoreAction::Copy {
                from: "/b/config.toml".to_string(),
                to: "/d/.config.toml.7.staged.tmp".to_string(),
                context: "stage restore config.toml"
            },
            RestoreAction::Copy {
                from: "/b/stats.toml".to_string(),
                to: "/d/.stats.toml.7.staged.tmp".to_string(),
                context: "stage restore stats.toml"
            },
            RestoreAction::Snapshot {
                path: "/d/config.toml".to_string(),
                context: "snapshot existing config.toml for rollback"
            },
            RestoreAction::Snapshot {
                path: "/d/stats.toml".to_string(),
                context: "snapshot existing stats.toml for rollback"
            },
            RestoreAction::Replace {
                from: "/d/.config.toml.7.staged.tmp".to_string(),
                to: "/d/config.toml".to_string(),
                context: "restore config.toml"
            },
            RestoreAction::Replace {
                from: "/d/.stats.toml.7.staged.tmp".to_string(),
                to: "/d/stats.toml".to_string(),
                context: "restore stats.toml"
            },
            RestoreAction::Remove {
                path: "/d/.config.toml.7.original.tmp".to_string()
            },
            RestoreAction::Finish(None),
        ]
    );
}

#[test]
fn restore_rolls_back_both_files_when_stats_replacement_fails() {
    let actions = run(vec![
        RestoreOutcome::Done,
        RestoreOutcome::Done,
        RestoreOutcome::Snapshotted(Some("/d/.config.toml.7.original.tmp".to_string())),
        RestoreOutcome::Snapshotted(None),
        RestoreOutcome::Done,
        RestoreOutcome::Failed("rename failed".to_string()),
        RestoreOutcome::Failed("ignored".to_string()),
        RestoreOutcome::Done,
        RestoreOutcome::Done,
    ]);
    assert_eq!(
        actions[6..].to_vec(),
        vec![
            RestoreAction::RollBack {
                snapshot: Some("/d/.config.toml.7.original.tmp".to_string()),
                destination: "/d/config.toml".to_string(),
                context: "roll back restored config.toml"
            },
            RestoreAction::RollBack {
                snapshot: None,
                destination: "/d/stats.toml".to_string(),
                context: "roll back restored stats.toml"
            },
            RestoreAction::Remove {
                path: "/d/.stats.toml.7.staged.tmp".to_string()
            },
            RestoreAction::Finish(Some("rename failed".to_string())),
        ]
    );
}

#[test]
fn restore_stops_at_first_failure_before_replacing_stats() {
    let actions = run(vec![RestoreOutcome::Done, RestoreOutcome::Failed("copy failed".to_string())]);
    assert_eq!(actions.len(), 3);
    assert_eq!(actions[2], RestoreAction::Finish(Some("copy failed".to_string())));
    let p = paths();
    let (progress, _) = restore_start(&p);
    let (finished, action) = restore_next(&p, &progress, &RestoreOutcome::Failed("x".to_string()));
    assert_eq!(finished.stage, RestoreStage::Finished);
    assert_eq!(action, RestoreAction::Finish(Some("x".to_string())));
    let (again, action) = restore_next(&p, &finished, &RestoreOutcome::Done);
    assert_eq!(again, finished);
    assert_eq!(action, RestoreAction::Finish(Some("x".to_string())));
}

#[test]
fn data_command_lines_name_each_file() {
    assert_eq!(
        backup_output_lines("/b", "/b/config.toml", "/b/stats.toml"),
        vec!["Backed up app data to /b", "Config: /b/config.toml", "Stats: /b/stats.toml"]
    );
    assert_eq!(
        restore_output_lines("/b", "/d/config.toml", "/d/stats.toml"),
        vec!["Restored app data from /b", "Config: /d/config.toml", "Stats: /d/stats.toml"]
    );
    assert_eq!(
        export_output_lines("/r", "/r/stats.json", "/r/stats.csv"),
        vec!["Exported stats to /r", "JSON: /r/stats.json", "CSV: /r/stats.csv"]
    );
}
