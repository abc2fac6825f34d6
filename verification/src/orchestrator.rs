//! The orchestrator: a state machine of five sequential stages,
//! `Init -> Materialize -> Archive -> Publish -> Report`, with a
//! terminal `Failed` stage reachable on the first error. Each stage
//! calls for one piece of external work; the outcome of that work is
//! reported back as an event and decides the next stage. The caller
//! performs the work and drives the machine; the machine decides.

use vstd::prelude::*;
use crate::error::{SnapshotError, SubprocessStep};

verus! {

/// The orchestrator's stage. The five pipeline stages run strictly in
/// order; `Report` and `Failed` are terminal.
#[derive(Clone, Copy, PartialEq, Eq, Debug)]
pub enum Stage {
    /// Check configuration, resolve credentials, create the workspace.
    Init,
    /// Produce the history-free working copy inside the workspace.
    Materialize,
    /// Pack the working copy into one compressed archive file.
    Archive,
    /// Stream the archive to the object store.
    Publish,
    /// The snapshot was published; report its location.
    Report,
    /// The run ended with its first error.
    Failed(SnapshotError),
}

/// The outcome of one stage's external work, reported back to the
/// orchestrator.
#[derive(Clone, Copy, PartialEq, Eq, Debug)]
pub enum Event {
    /// Configuration, credentials and the temporary workspace are ready.
    InitDone,
    /// The configuration was rejected: the bucket name is empty.
    ConfigRejected,
    /// Ambient cloud credentials could not be resolved.
    CredentialsUnavailable,
    /// The scoped temporary workspace could not be created.
    WorkspaceUnavailable,
    /// The stage's external operation completed.
    StepDone,
    /// The stage's external operation failed.
    StepFailed,
}

/// The piece of external work one stage calls for.
#[derive(Clone, Copy, PartialEq, Eq, Debug)]
pub enum Action {
    /// Check the configuration, resolve credentials, create the
    /// scoped temporary workspace.
    PrepareRun,
    /// Clone the repository's current tracked tree into the workspace,
    /// history-truncated, and strip version-control metadata.
    CloneRepository,
    /// Pack the working copy into one compressed archive file.
    ArchiveWorkingCopy,
    /// Stream the archive file to the object store.
    UploadArchive,
    /// Remove the scoped temporary workspace and all its contents.
    RemoveWorkspace,
}

/// Whether a stage is terminal: the run is over and no further stage
/// follows.
pub open spec fn is_terminal(s: Stage) -> bool {
    s is Report || s is Failed
}

/// Which events can be reported against which stage: the four
/// initialization outcomes against `Init`, success or failure of the
/// stage's one external operation against each middle stage, and
/// nothing against a terminal stage.
pub open spec fn event_fits(s: Stage, e: Event) -> bool {
    match s {
        Stage::Init => e is InitDone || e is ConfigRejected || e is CredentialsUnavailable
            || e is WorkspaceUnavailable,
        Stage::Materialize | Stage::Archive | Stage::Publish => e is StepDone || e is StepFailed,
        Stage::Report | Stage::Failed(_) => false,
    }
}

/// The stage that follows a stage once its event is in: success moves
/// one stage forward in the fixed order, and the first failure moves to
/// `Failed` carrying the error of the step that failed. An event that
/// does not fit the stage leaves it unchanged.
pub open spec fn step_spec(s: Stage, e: Event) -> Stage {
    match s {
        Stage::Init => match e {
            Event::InitDone => Stage::Materialize,
            Event::ConfigRejected => Stage::Failed(SnapshotError::Configuration),
            Event::CredentialsUnavailable => Stage::Failed(SnapshotError::CredentialResolution),
            Event::WorkspaceUnavailable => Stage::Failed(SnapshotError::Workspace),
            _ => s,
        },
        Stage::Materialize => match e {
            Event::StepDone => Stage::Archive,
            Event::StepFailed => Stage::Failed(
                SnapshotError::Subprocess(SubprocessStep::Materialize),
            ),
            _ => s,
        },
        Stage::Archive => match e {
            Event::StepDone => Stage::Publish,
            Event::StepFailed => Stage::Failed(SnapshotError::Subprocess(SubprocessStep::Archive)),
            _ => s,
        },
        Stage::Publish => match e {
            Event::StepDone => Stage::Report,
            Event::StepFailed => Stage::Failed(SnapshotError::Upload),
            _ => s,
        },
        Stage::Report => s,
        Stage::Failed(_) => s,
    }
}

/// Advances the orchestrator by one stage. The stages run strictly in
/// order; the first failure is carried into the terminal `Failed`
/// stage, and the remaining pipeline stages are never entered.
pub fn step(s: Stage, e: Event) -> (next: Stage)
    requires
        event_fits(s, e),
    ensures
        next == step_spec(s, e),
{
    match s {
        Stage::Init => match e {
            Event::InitDone => Stage::Materialize,
            Event::ConfigRejected => Stage::Failed(SnapshotError::Configuration),
            Event::CredentialsUnavailable => Stage::Failed(SnapshotError::CredentialResolution),
            Event::WorkspaceUnavailable => Stage::Failed(SnapshotError::Workspace),
            _ => s,
        },
        Stage::Materialize => match e {
            Event::StepDone => Stage::Archive,
            Event::StepFailed => Stage::Failed(
                SnapshotError::Subprocess(SubprocessStep::Materialize),
            ),
            _ => s,
        },
        Stage::Archive => match e {
            Event::StepDone => Stage::Publish,
            Event::StepFailed => Stage::Failed(SnapshotError::Subprocess(SubprocessStep::Archive)),
            _ => s,
        },
        Stage::Publish => match e {
            Event::StepDone => Stage::Report,
            Event::StepFailed => Stage::Failed(SnapshotError::Upload),
            _ => s,
        },
        Stage::Report => s,
        Stage::Failed(_) => s,
    }
}

/// The external work that a non-terminal stage calls for. For a
/// terminal stage — where the run is over and only the workspace
/// removal remains — it is the removal itself.
pub open spec fn stage_action(s: Stage) -> Action {
    match s {
        Stage::Init => Action::PrepareRun,
        Stage::Materialize => Action::CloneRepository,
        Stage::Archive => Action::ArchiveWorkingCopy,
        Stage::Publish => Action::UploadArchive,
        Stage::Report | Stage::Failed(_) => Action::RemoveWorkspace,
    }
}

/// The external work the driver must perform next: the current stage's
/// operation, or nothing once a terminal stage is reached.
pub fn next_action(s: &Stage) -> (a: Option<Action>)
    ensures
        is_terminal(*s) ==> a is None,
        !is_terminal(*s) ==> a == Some(stage_action(*s)),
{
    match s {
        Stage::Init => Some(Action::PrepareRun),
        Stage::Materialize => Some(Action::CloneRepository),
        Stage::Archive => Some(Action::ArchiveWorkingCopy),
        Stage::Publish => Some(Action::UploadArchive),
        Stage::Report => None,
        Stage::Failed(_) => None,
    }
}

/// Whether the run is over at this stage.
pub fn is_finished(s: &Stage) -> (b: bool)
    ensures
        b == is_terminal(*s),
{
    match s {
        Stage::Report => true,
        Stage::Failed(_) => true,
        _ => false,
    }
}

/// Whether the scoped temporary workspace exists at the given stage.
/// `Init` runs before the workspace is created, and a configuration,
/// credential or workspace failure happens before or at the point of
/// creation; every other stage is reached only after it was created.
pub open spec fn workspace_created(s: Stage) -> bool {
    match s {
        Stage::Init => false,
        Stage::Materialize | Stage::Archive | Stage::Publish | Stage::Report => true,
        Stage::Failed(e) => match e {
            SnapshotError::Configuration => false,
            SnapshotError::CredentialResolution => false,
            SnapshotError::Workspace => false,
            SnapshotError::Subprocess(_) => true,
            SnapshotError::Upload => true,
        },
    }
}

/// Whether the driver, on exiting at this stage, still owes the removal
/// of the scoped temporary workspace.
pub fn cleanup_owed(s: &Stage) -> (b: bool)
    ensures
        b == workspace_created(*s),
{
    match s {
        Stage::Init => false,
        Stage::Materialize | Stage::Archive | Stage::Publish | Stage::Report => true,
        Stage::Failed(e) => match e {
            SnapshotError::Configuration => false,
            SnapshotError::CredentialResolution => false,
            SnapshotError::Workspace => false,
            SnapshotError::Subprocess(_) => true,
            SnapshotError::Upload => true,
        },
    }
}

/// The stage a run reaches from `s` once the given events are in, in
/// order; a terminal stage consumes no further events.
pub open spec fn run_from(s: Stage, events: Seq<Event>) -> Stage
    decreases events.len(),
{
    if is_terminal(s) || events.len() == 0 {
        s
    } else {
        run_from(step_spec(s, events[0]), events.drop_first())
    }
}

/// The external work a run performs, in order: the action of each
/// stage visited, and, once a terminal stage is reached with the
/// workspace created, its removal as the final action.
pub open spec fn plan_from(s: Stage, events: Seq<Event>) -> Seq<Action>
    decreases events.len(),
{
    if is_terminal(s) {
        if workspace_created(s) {
            seq![Action::RemoveWorkspace]
        } else {
            Seq::empty()
        }
    } else if events.len() == 0 {
        Seq::empty()
    } else {
        seq![stage_action(s)] + plan_from(step_spec(s, events[0]), events.drop_first())
    }
}

/// The one resource-lifetime guarantee: every run that ends after the
/// workspace was created — success and failure alike — plans the
/// removal of the workspace as its final action.
pub proof fn lemma_cleanup_on_every_path(s: Stage, events: Seq<Event>)
    requires
        is_terminal(run_from(s, events)),
        workspace_created(run_from(s, events)),
    ensures
        plan_from(s, events).len() > 0,
        plan_from(s, events).last() == Action::RemoveWorkspace,
    decreases events.len(),
{
    if is_terminal(s) {
    } else if events.len() == 0 {
    } else {
        let next = step_spec(s, events[0]);
        let rest = events.drop_first();
        lemma_cleanup_on_every_path(next, rest);
        let head = seq![stage_action(s)];
        let tail = plan_from(next, rest);
        assert(plan_from(s, events) == head + tail);
        assert((head + tail).last() == tail.last());
    }
}

/// With a rejected configuration — an empty bucket name — the run
/// fails at initialization: the terminal stage carries the
/// configuration error, and no upload is ever planned, so no network
/// call is attempted.
pub proof fn lemma_rejected_config_blocks_upload(events: Seq<Event>)
    requires
        events.len() > 0,
        events[0] == Event::ConfigRejected,
    ensures
        run_from(Stage::Init, events) == Stage::Failed(SnapshotError::Configuration),
        !plan_from(Stage::Init, events).contains(Action::UploadArchive),
{
    let failed = Stage::Failed(SnapshotError::Configuration);
    assert(step_spec(Stage::Init, events[0]) == failed);
    assert(run_from(failed, events.drop_first()) == failed);
    let plan = plan_from(Stage::Init, events);
    assert(plan_from(failed, events.drop_first()) =~= Seq::<Action>::empty());
    assert(plan =~= seq![Action::PrepareRun]);
    assert forall|i: int| 0 <= i < plan.len() implies plan[i] != Action::UploadArchive by {
        assert(plan[i] == Action::PrepareRun);
    }
}

/// A failed materialization is detected and stops the run: the
/// terminal stage carries the subprocess error of the materialize
/// step, and neither the archiving nor the upload is ever planned.
pub proof fn lemma_materialize_failure_stops_run(events: Seq<Event>)
    requires
        events.len() >= 2,
        events[0] == Event::InitDone,
        events[1] == Event::StepFailed,
    ensures
        run_from(Stage::Init, events) == Stage::Failed(
            SnapshotError::Subprocess(SubprocessStep::Materialize),
        ),
        !plan_from(Stage::Init, events).contains(Action::ArchiveWorkingCopy),
        !plan_from(Stage::Init, events).contains(Action::UploadArchive),
{
    let failed = Stage::Failed(SnapshotError::Subprocess(SubprocessStep::Materialize));
    let rest1 = events.drop_first();
    let rest2 = rest1.drop_first();
    assert(rest1[0] == events[1]);
    assert(step_spec(Stage::Init, events[0]) == Stage::Materialize);
    assert(step_spec(Stage::Materialize, rest1[0]) == failed);
    assert(run_from(failed, rest2) == failed);
    assert(run_from(Stage::Materialize, rest1) == run_from(failed, rest2));
    assert(run_from(Stage::Init, events) == run_from(Stage::Materialize, rest1));
    let plan = plan_from(Stage::Init, events);
    assert(plan_from(failed, rest2) =~= seq![Action::RemoveWorkspace]);
    assert(plan_from(Stage::Materialize, rest1) =~= seq![
        Action::CloneRepository,
        Action::RemoveWorkspace,
    ]);
    assert(plan =~= seq![Action::PrepareRun, Action::CloneRepository, Action::RemoveWorkspace]);
    assert forall|i: int| 0 <= i < plan.len() implies plan[i] != Action::ArchiveWorkingCopy
        && plan[i] != Action::UploadArchive by {
        assert(i == 0 || i == 1 || i == 2);
    }
}

/// The working copy is never uploaded directly: in every run's plan,
/// an upload is preceded by the archiving of the working copy, so only
/// the archive artifact is ever transmitted.
pub proof fn lemma_upload_only_after_archive(events: Seq<Event>)
    ensures
        forall|j: int|
            0 <= j < plan_from(Stage::Init, events).len() && plan_from(Stage::Init, events)[j]
                == Action::UploadArchive ==> exists|i: int|
                0 <= i < j && plan_from(Stage::Init, events)[i] == Action::ArchiveWorkingCopy,
{
    lemma_upload_preceded_by_archive(Stage::Init, events);
}

proof fn lemma_upload_preceded_by_archive(s: Stage, events: Seq<Event>)
    requires
        s is Init || s is Materialize || s is Archive,
    ensures
        forall|j: int|
            0 <= j < plan_from(s, events).len() && plan_from(s, events)[j]
                == Action::UploadArchive ==> exists|i: int|
                0 <= i < j && plan_from(s, events)[i] == Action::ArchiveWorkingCopy,
    decreases events.len(),
{
    let plan = plan_from(s, events);
    if events.len() == 0 {
    } else {
        let next = step_spec(s, events[0]);
        let rest = events.drop_first();
        let tail = plan_from(next, rest);
        assert(plan == seq![stage_action(s)] + tail);
        if s is Archive {
            assert forall|j: int|
                0 <= j < plan.len() && plan[j] == Action::UploadArchive implies exists|i: int|
                0 <= i < j && plan[i] == Action::ArchiveWorkingCopy by {
                assert(plan[0] == Action::ArchiveWorkingCopy);
                assert(0 <= 0 < j && plan[0] == Action::ArchiveWorkingCopy);
            }
        } else if next is Failed {
            assert(forall|k: int| 0 <= k < tail.len() ==> tail[k] == Action::RemoveWorkspace);
            assert forall|j: int|
                0 <= j < plan.len() && plan[j] == Action::UploadArchive implies exists|i: int|
                0 <= i < j && plan[i] == Action::ArchiveWorkingCopy by {
                assert(plan[0] == stage_action(s));
                assert(j >= 1);
                assert(plan[j] == tail[j - 1]);
                assert(false);
            }
        } else {
            lemma_upload_preceded_by_archive(next, rest);
            assert forall|j: int|
                0 <= j < plan.len() && plan[j] == Action::UploadArchive implies exists|i: int|
                0 <= i < j && plan[i] == Action::ArchiveWorkingCopy by {
                assert(plan[0] == stage_action(s));
                assert(j >= 1);
                assert(tail[j - 1] == Action::UploadArchive);
                let i0 = choose|i: int| 0 <= i < j - 1 && tail[i] == Action::ArchiveWorkingCopy;
                assert(plan[i0 + 1] == Action::ArchiveWorkingCopy);
                assert(0 <= i0 + 1 < j);
            }
        }
    }
}

/// A run whose four stages all succeed ends in `Report`, having
/// planned exactly the pipeline in order — prepare, clone, archive,
/// upload — and the removal of the workspace at the end.
pub proof fn lemma_successful_run(events: Seq<Event>)
    requires
        events.len() >= 4,
        events[0] == Event::InitDone,
        events[1] == Event::StepDone,
        events[2] == Event::StepDone,
        events[3] == Event::StepDone,
    ensures
        run_from(Stage::Init, events) == Stage::Report,
        plan_from(Stage::Init, events) =~= seq![
            Action::PrepareRun,
            Action::CloneRepository,
            Action::ArchiveWorkingCopy,
            Action::UploadArchive,
            Action::RemoveWorkspace,
        ],
{
    let e1 = events.drop_first();
    let e2 = e1.drop_first();
    let e3 = e2.drop_first();
    let e4 = e3.drop_first();
    assert(events[0] == Event::InitDone);
    assert(e1[0] == Event::StepDone);
    assert(e2[0] == Event::StepDone);
    assert(e3[0] == Event::StepDone);
    assert(run_from(Stage::Report, e4) == Stage::Report);
    assert(run_from(Stage::Publish, e3) == run_from(Stage::Report, e4));
    assert(run_from(Stage::Archive, e2) == run_from(Stage::Publish, e3));
    assert(run_from(Stage::Materialize, e1) == run_from(Stage::Archive, e2));
    assert(run_from(Stage::Init, events) == run_from(Stage::Materialize, e1));
    assert(plan_from(Stage::Report, e4) =~= seq![Action::RemoveWorkspace]);
    assert(plan_from(Stage::Publish, e3) =~= seq![Action::UploadArchive, Action::RemoveWorkspace]);
    assert(plan_from(Stage::Archive, e2) =~= seq![
        Action::ArchiveWorkingCopy,
        Action::UploadArchive,
        Action::RemoveWorkspace,
    ]);
    assert(plan_from(Stage::Materialize, e1) =~= seq![
        Action::CloneRepository,
        Action::ArchiveWorkingCopy,
        Action::UploadArchive,
        Action::RemoveWorkspace,
    ]);
}

} // verus!
