use git_s3_snapshot::config::Config;
use git_s3_snapshot::error::{SnapshotError, SubprocessStep};

#[test]
fn resolve_keeps_a_supplied_root() {
    let c = Config::resolve(
        String::from("backups"),
        String::from("daily"),
        Some(String::from("/srv/repo")),
        String::from("/home/op"),
    );
    assert_eq!(c.bucket, "backups");
    assert_eq!(c.prefix, "daily");
    assert_eq!(c.root, "/srv/repo");
}

#[test]
fn resolve_defaults_the_root_to_the_working_directory() {
    let c = Config::resolve(
        String::from("backups"),
        String::from(""),
        None,
        String::from("/home/op"),
    );
    assert_eq!(c.root, "/home/op");
}

#[test]
fn validate_accepts_a_nonempty_bucket() {
    let c = Config::resolve(String::from("backups"), String::from(""), None, String::from("."));
    assert!(c.validate().is_ok());
}

#[test]
fn validate_rejects_an_empty_bucket() {
    let c = Config::resolve(String::from(""), String::from("daily"), None, String::from("."));
    assert_eq!(c.validate(), Err(SnapshotError::Configuration));
}

#[test]
fn each_error_names_its_failing_step() {
    assert_eq!(
        SnapshotError::Configuration.message(),
        "configuration error: the bucket name must not be empty"
    );
    assert_eq!(
        SnapshotError::CredentialResolution.message(),
        "credential error: ambient cloud credentials could not be resolved"
    );
    assert_eq!(
        SnapshotError::Workspace.message(),
        "workspace error: the scoped temporary directory could not be created"
    );
    assert_eq!(
        SnapshotError::Subprocess(SubprocessStep::Materialize).message(),
        "materialize error: the clone operation did not produce a working copy"
    );
    assert_eq!(
        SnapshotError::Subprocess(SubprocessStep::Archive).message(),
        "archive error: the archiving operation did not produce an archive"
    );
    assert_eq!(
        SnapshotError::Upload.message(),
        "upload error: the storage client could not publish the archive"
    );
}
