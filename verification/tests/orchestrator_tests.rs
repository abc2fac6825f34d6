use git_s3_snapshot::config::Config;
use git_s3_snapshot::error::{SnapshotError, SubprocessStep};
use git_s3_snapshot::key::{artifact_name, key_with_prefix};
use git_s3_snapshot::orchestrator::{cleanup_owed, is_finished, next_action, step, Action, Event, Stage};
use git_s3_snapshot::report::render_success_line;

/// Drives the machine through a run whose stages all take the given
/// outcomes, returning the terminal stage and every action offered.
fn drive(events: &[Event]) -> (Stage, Vec<Action>) {
    let mut stage = Stage::Init;
    let mut offered: Vec<Action> = Vec::new();
    let mut i = 0;
    while !is_finished(&stage) {
        if let Some(a) = next_action(&stage) {
            offered.push(a);
        }
        stage = step(stage, events[i]);
        i += 1;
    }
    (stage, offered)
}

#[test]
fn snapshot_without_prefix_lands_at_the_bare_name() {
    let config = Config::resolve(
        String::from("backups"),
        String::from(""),
        Some(String::from("/srv/repo")),
        String::from("."),
    );
    assert!(config.validate().is_ok());
    let (stage, offered) = drive(&[Event::InitDone, Event::StepDone, Event::StepDone, Event::StepDone]);
    assert_eq!(stage, Stage::Report);
    assert_eq!(
        offered,
        vec![
            Action::PrepareRun,
            Action::CloneRepository,
            Action::ArchiveWorkingCopy,
            Action::UploadArchive,
        ]
    );
    let key = key_with_prefix(&config.prefix, artifact_name());
    assert_eq!(key, "snaphot.tar.gz");
    let line = render_success_line(&config.bucket, &key);
    assert!(line.contains("s3://backups/snaphot.tar.gz"));
    assert_eq!(line, "Success. Snapshot is published in s3://backups/snaphot.tar.gz");
    assert!(cleanup_owed(&stage));
}

#[test]
fn snapshot_with_prefix_lands_under_it() {
    let config = Config::resolve(
        String::from("backups"),
        String::from("daily"),
        Some(String::from("/srv/repo")),
        String::from("."),
    );
    assert!(config.validate().is_ok());
    let (stage, _) = drive(&[Event::InitDone, Event::StepDone, Event::StepDone, Event::StepDone]);
    assert_eq!(stage, Stage::Report);
    let key = key_with_prefix(&config.prefix, artifact_name());
    assert_eq!(key, "daily/snaphot.tar.gz");
    let line = render_success_line(&config.bucket, &key);
    assert!(line.contains("s3://backups/daily/snaphot.tar.gz"));
}

#[test]
fn empty_bucket_fails_before_any_upload() {
    let config =
        Config::resolve(String::from(""), String::from(""), None, String::from("."));
    assert_eq!(config.validate(), Err(SnapshotError::Configuration));
    let (stage, offered) = drive(&[Event::ConfigRejected]);
    assert_eq!(stage, Stage::Failed(SnapshotError::Configuration));
    assert!(!offered.contains(&Action::UploadArchive));
    assert!(!cleanup_owed(&stage));
    assert_eq!(next_action(&stage), None);
}

#[test]
fn failed_upload_still_owes_workspace_removal() {
    let (stage, offered) =
        drive(&[Event::InitDone, Event::StepDone, Event::StepDone, Event::StepFailed]);
    assert_eq!(stage, Stage::Failed(SnapshotError::Upload));
    assert!(offered.contains(&Action::UploadArchive));
    assert!(cleanup_owed(&stage));
    assert_eq!(
        SnapshotError::Upload.message(),
        "upload error: the storage client could not publish the archive"
    );
}

#[test]
fn failed_materialization_stops_the_run() {
    let (stage, offered) = drive(&[Event::InitDone, Event::StepFailed]);
    assert_eq!(stage, Stage::Failed(SnapshotError::Subprocess(SubprocessStep::Materialize)));
    assert!(!offered.contains(&Action::ArchiveWorkingCopy));
    assert!(!offered.contains(&Action::UploadArchive));
    assert!(cleanup_owed(&stage));
}

#[test]
fn failed_archiving_stops_the_run() {
    let (stage, offered) = drive(&[Event::InitDone, Event::StepDone, Event::StepFailed]);
    assert_eq!(stage, Stage::Failed(SnapshotError::Subprocess(SubprocessStep::Archive)));
    assert!(offered.contains(&Action::ArchiveWorkingCopy));
    assert!(!offered.contains(&Action::UploadArchive));
    assert!(cleanup_owed(&stage));
}

#[test]
fn initialization_failures_carry_their_error() {
    let (stage, _) = drive(&[Event::CredentialsUnavailable]);
    assert_eq!(stage, Stage::Failed(SnapshotError::CredentialResolution));
    assert!(!cleanup_owed(&stage));
    let (stage, _) = drive(&[Event::WorkspaceUnavailable]);
    assert_eq!(stage, Stage::Failed(SnapshotError::Workspace));
    assert!(!cleanup_owed(&stage));
}
