//! The release state machine: how a release starts, which step comes next,
//! how a finished step is recorded, and how an interrupted release is taken
//! up again.
//!
//! The machine decides and records. The work of a step (editing manifests,
//! committing, publishing) is done by the caller, who asks for the next step,
//! performs it, hands in its result, and saves the state after every change.

use vstd::prelude::*;
use vstd::string::*;
use crate::error::{CliError, ReleaseError, StateError, WorkspaceError};
use crate::state::{
    entered,
    marks,
    GitState,
    PublishState,
    ReleaseConfig,
    ReleasePhase,
    ReleaseState,
    VersionState,
};
use crate::graph::WorkspaceInfo;
use crate::text::texts;
use crate::version::{Version, VersionBump};

verus! {

/// What the validation of a workspace found.
#[derive(Debug)]
pub struct ValidationReport {
    /// Whether the workspace can be released.
    pub success: bool,
    /// What rules a release out.
    pub critical_errors: Vec<String>,
    /// What should be looked at.
    pub warnings: Vec<String>,
}

/// A phase at which a resumed release can be told to begin again.
#[derive(Debug, Clone, Copy, PartialEq, Eq, Structural)]
pub enum ResumePhase {
    /// Begin again at validation.
    Validation,
    /// Begin again at the version update.
    VersionUpdate,
    /// Begin again at the version-control phase.
    GitOperations,
    /// Begin again at publishing.
    Publishing,
}

impl ResumePhase {
    /// The release phase that is meant.
    pub open spec fn phase(self) -> ReleasePhase {
        match self {
            ResumePhase::Validation => ReleasePhase::Validation,
            ResumePhase::VersionUpdate => ReleasePhase::VersionUpdate,
            ResumePhase::GitOperations => ReleasePhase::GitOperations,
            ResumePhase::Publishing => ReleasePhase::Publishing,
        }
    }

    /// Computes [`ResumePhase::phase`].
    pub fn to_phase(self) -> (r: ReleasePhase)
        ensures
            r == self.phase(),
    {
        match self {
            ResumePhase::Validation => ReleasePhase::Validation,
            ResumePhase::VersionUpdate => ReleasePhase::VersionUpdate,
            ResumePhase::GitOperations => ReleasePhase::GitOperations,
            ResumePhase::Publishing => ReleasePhase::Publishing,
        }
    }
}

/// The next thing to do in a release.
#[derive(Debug, Clone, Copy, PartialEq, Eq, Structural)]
pub enum ReleaseStep {
    /// Enter the phase that is named.
    Advance(ReleasePhase),
    /// Write the new version to the manifests.
    UpdateVersions,
    /// Commit, tag and, where asked, push.
    CommitAndTag,
    /// Compute the publish order.
    PlanPublish,
    /// Publish the packages that have no outcome yet.
    PublishPackages,
    /// Undo what the release did.
    Rollback,
    /// Nothing is left to do but to put the record away.
    Finish,
}

/// The result of a step that the caller performed.
#[derive(Debug)]
pub enum StepResult {
    /// The manifests were rewritten.
    VersionsUpdated(VersionState),
    /// Commit and tag were made.
    Committed(GitState),
    /// The publish order was computed.
    PublishPlanned { tier_count: usize, package_count: usize },
    /// The publish run ended with this bookkeeping.
    PackagesPublished(PublishState),
}

/// The step that is due in `state`. Work whose result the state already
/// holds is not due again.
pub open spec fn step_of(state: ReleaseState) -> ReleaseStep {
    match state.current_phase {
        ReleasePhase::Validation => ReleaseStep::Advance(ReleasePhase::VersionUpdate),
        ReleasePhase::VersionUpdate => if state.version_state is Some {
            ReleaseStep::Advance(ReleasePhase::GitOperations)
        } else {
            ReleaseStep::UpdateVersions
        },
        ReleasePhase::GitOperations => if state.git_state is Some {
            ReleaseStep::Advance(ReleasePhase::Publishing)
        } else {
            ReleaseStep::CommitAndTag
        },
        ReleasePhase::Publishing => match state.publish_state {
            None => ReleaseStep::PlanPublish,
            Some(publish_state) => if publish_state.pending() {
                ReleaseStep::PublishPackages
            } else {
                ReleaseStep::Advance(ReleasePhase::Cleanup)
            },
        },
        ReleasePhase::Cleanup => ReleaseStep::Advance(ReleasePhase::Completed),
        ReleasePhase::Completed => ReleaseStep::Finish,
        ReleasePhase::RollingBack => ReleaseStep::Rollback,
        ReleasePhase::RolledBack => ReleaseStep::Finish,
    }
}

/// Computes [`step_of`].
pub fn next_step(state: &ReleaseState) -> (step: ReleaseStep)
    ensures
        step == step_of(*state),
{
    match state.current_phase {
        ReleasePhase::Validation => ReleaseStep::Advance(ReleasePhase::VersionUpdate),
        ReleasePhase::VersionUpdate => {
            if state.version_state.is_some() {
                ReleaseStep::Advance(ReleasePhase::GitOperations)
            } else {
                ReleaseStep::UpdateVersions
            }
        },
        ReleasePhase::GitOperations => {
            if state.git_state.is_some() {
                ReleaseStep::Advance(ReleasePhase::Publishing)
            } else {
                ReleaseStep::CommitAndTag
            }
        },
        ReleasePhase::Publishing => match &state.publish_state {
            None => ReleaseStep::PlanPublish,
            Some(publish_state) => {
                if publish_state.has_pending() {
                    ReleaseStep::PublishPackages
                } else {
                    ReleaseStep::Advance(ReleasePhase::Cleanup)
                }
            },
        },
        ReleasePhase::Cleanup => ReleaseStep::Advance(ReleasePhase::Completed),
        ReleasePhase::Completed => ReleaseStep::Finish,
        ReleasePhase::RollingBack => ReleaseStep::Rollback,
        ReleasePhase::RolledBack => ReleaseStep::Finish,
    }
}

/// The name of package `i` occurs among the packages before it.
pub open spec fn name_repeats(names: Seq<Seq<char>>, i: int) -> bool {
    exists|j: int| 0 <= j < i && #[trigger] names[j] == names[i]
}

/// One issue for each of the first `count` packages whose name occurs
/// before it, in workspace order.
pub open spec fn repeat_issues(names: Seq<Seq<char>>, count: nat) -> Seq<Seq<char>>
    decreases count,
{
    if count == 0 {
        Seq::empty()
    } else {
        let before = repeat_issues(names, (count - 1) as nat);
        if name_repeats(names, count - 1) {
            before.push("Package name '"@ + names[count - 1] + "' occurs twice"@)
        } else {
            before
        }
    }
}

/// What rules out a release of a workspace: that it has no packages, or
/// that two of them bear one name.
pub open spec fn workspace_issues(names: Seq<Seq<char>>) -> Seq<Seq<char>> {
    if names.len() == 0 {
        seq!["Workspace has no packages"@]
    } else {
        repeat_issues(names, names.len())
    }
}

/// Validates a workspace for a release. The validation succeeds exactly
/// when the workspace has packages and no two of them bear one name; each
/// failing is listed among the critical errors.
pub fn validate_workspace(workspace: &WorkspaceInfo) -> (report: ValidationReport)
    ensures
        texts(report.critical_errors@) == workspace_issues(workspace.names()),
        report.warnings@.len() == 0,
        report.success == (report.critical_errors@.len() == 0),
        report.success <==> workspace.names().len() > 0 && forall|i: int|
            0 <= i < workspace.names().len() ==> !name_repeats(workspace.names(), i),
{
    let ghost names = workspace.names();
    let count = workspace.packages.len();
    let mut critical_errors: Vec<String> = Vec::new();
    if count == 0 {
        critical_errors.push(String::from_str("Workspace has no packages"));
        assert(texts(critical_errors@) =~= workspace_issues(names));
        return ValidationReport { success: false, critical_errors, warnings: Vec::new() };
    }
    let mut i: usize = 0;
    while i < count
        invariant
            i <= count,
            count == workspace.packages@.len(),
            names == workspace.names(),
            texts(critical_errors@) == repeat_issues(names, i as nat),
            (critical_errors@.len() == 0) == (forall|k: int| 0 <= k < i ==> !name_repeats(names, k)),
        decreases count - i,
    {
        let mut repeated = false;
        let mut j: usize = 0;
        while j < i
            invariant
                j <= i,
                i < count,
                count == workspace.packages@.len(),
                names == workspace.names(),
                repeated == (exists|m: int| 0 <= m < j && #[trigger] names[m] == names[i as int]),
            decreases i - j,
        {
            if workspace.packages[j].name == workspace.packages[i].name {
                assert(names[j as int] == names[i as int]);
                repeated = true;
            }
            j = j + 1;
        }
        if repeated {
            let issue = String::from_str("Package name '").concat(
                workspace.packages[i].name.as_str(),
            ).concat("' occurs twice");
            let ghost before = critical_errors@;
            critical_errors.push(issue);
            assert(texts(critical_errors@) =~= texts(before).push(
                "Package name '"@ + names[i as int] + "' occurs twice"@,
            ));
            assert(name_repeats(names, i as int));
        }
        i = i + 1;
    }
    let success = critical_errors.len() == 0;
    ValidationReport { success, critical_errors, warnings: Vec::new() }
}

/// The verdict on a validated workspace: a release goes on only where the
/// validation succeeded.
pub fn validation_verdict(report: &ValidationReport) -> (r: Result<(), ReleaseError>)
    ensures
        report.success ==> r is Ok,
        !report.success ==> (r matches Err(
            ReleaseError::Workspace(WorkspaceError::InvalidStructure { reason }),
        ) && reason@ == "Workspace validation failed"@),
{
    if report.success {
        Ok(())
    } else {
        Err(
            ReleaseError::Workspace(
                WorkspaceError::InvalidStructure {
                    reason: String::from_str("Workspace validation failed"),
                },
            ),
        )
    }
}

/// The bump that a command works with. An exact version cannot be asked
/// for yet: it is refused, with a reason that names the command.
pub fn supported_bump(bump: VersionBump, preview: bool) -> (r: Result<VersionBump, CliError>)
    ensures
        bump != VersionBump::Exact ==> r == Ok::<VersionBump, CliError>(bump),
        bump == VersionBump::Exact ==> (r matches Err(CliError::InvalidArguments { reason })
            && reason@ == (if preview {
            "Exact version preview not yet implemented"@
        } else {
            "Exact version bump not yet implemented"@
        })),
{
    match bump {
        VersionBump::Exact => {
            let reason = if preview {
                String::from_str("Exact version preview not yet implemented")
            } else {
                String::from_str("Exact version bump not yet implemented")
            };
            Err(CliError::InvalidArguments { reason })
        },
        _ => Ok(bump),
    }
}

/// Refuses to start a release while another one is active.
pub fn refuse_if_active(active: bool) -> (r: Result<(), ReleaseError>)
    ensures
        !active ==> r is Ok,
        active ==> (r matches Err(ReleaseError::State(StateError::SaveFailed { reason })) && reason@
            == "Another release is in progress. Use 'resume' or 'cleanup' first"@),
{
    if active {
        Err(
            ReleaseError::State(
                StateError::SaveFailed {
                    reason: String::from_str(
                        "Another release is in progress. Use 'resume' or 'cleanup' first",
                    ),
                },
            ),
        )
    } else {
        Ok(())
    }
}

/// Starts a release.
///
/// Fails where another release is active, and where the workspace was
/// validated and found unfit. Otherwise the release stands at its initial
/// phase with the checkpoint `release_started`.
pub fn start(
    active: bool,
    validation: Option<&ValidationReport>,
    release_id: String,
    target_version: Version,
    version_bump: VersionBump,
    config: ReleaseConfig,
    now: u64,
) -> (r: Result<ReleaseState, ReleaseError>)
    ensures
        active ==> (r matches Err(ReleaseError::State(StateError::SaveFailed { reason })) && reason@
            == "Another release is in progress. Use 'resume' or 'cleanup' first"@),
        !active && validation is Some && !validation.unwrap().success ==> (r matches Err(
            ReleaseError::Workspace(WorkspaceError::InvalidStructure { reason }),
        ) && reason@ == "Workspace validation failed"@),
        !active && (validation is None || validation.unwrap().success) ==> (r matches Ok(state)
            && state.release_id == release_id && state.target_version == target_version
            && state.version_bump == version_bump && state.config == config && state.current_phase
            == ReleasePhase::Validation && state.started_at == now && state.updated_at == now
            && state.errors@.len() == 0 && state.version_state is None && state.git_state is None
            && state.publish_state is None && state.checkpoints@.len() == 1 && marks(
            state.checkpoints@[0],
            "release_started"@,
            ReleasePhase::Validation,
            now,
            false,
        ) && state.wf() && state.resumable()),
{
    match refuse_if_active(active) {
        Err(refusal) => {
            return Err(refusal);
        },
        Ok(_) => {},
    }
    match validation {
        Some(report) => {
            match validation_verdict(report) {
                Err(refusal) => {
                    return Err(refusal);
                },
                Ok(_) => {},
            }
        },
        None => {},
    }
    let mut state = ReleaseState::new(release_id, target_version, version_bump, config, now);
    state.add_checkpoint(String::from_str("release_started"), false, now);
    assert(!state.critical());
    Ok(state)
}

/// Moves the release on to `phase`, which must be the phase that follows the
/// current one. Any other move is refused and leaves the state as it is.
pub fn advance(state: &mut ReleaseState, phase: ReleasePhase, now: u64) -> (r: Result<(), StateError>)
    requires
        old(state).wf(),
    ensures
        final(state).wf(),
        r is Ok == (old(state).current_phase.successor() == Some(phase)),
        r is Ok ==> final(state).current_phase == phase && final(state).updated_at == now
            && final(state).same_release(*old(state)) && final(state).extends_log(*old(state), 1)
            && entered(final(state).latest(), phase, now),
        r is Err ==> *final(state) == *old(state) && (r matches Err(StateError::SaveFailed { reason })
            && reason@ == "Phase transition not allowed"@),
{
    let allowed = match state.current_phase.next() {
        Some(following) => following == phase,
        None => false,
    };
    if allowed {
        state.set_phase(phase, now);
        Ok(())
    } else {
        Err(StateError::SaveFailed { reason: String::from_str("Phase transition not allowed") })
    }
}

/// Whether `result` is the result of the step that is due in `state`. The
/// bookkeeping of a publish run must continue the bookkeeping that the state
/// holds: what was published stays published.
pub open spec fn fits(state: ReleaseState, result: StepResult) -> bool {
    match result {
        StepResult::VersionsUpdated(_) => step_of(state) == ReleaseStep::UpdateVersions,
        StepResult::Committed(_) => step_of(state) == ReleaseStep::CommitAndTag,
        StepResult::PublishPlanned { .. } => step_of(state) == ReleaseStep::PlanPublish,
        StepResult::PackagesPublished(publish_state) => step_of(state)
            == ReleaseStep::PublishPackages && publish_state.continues(state.publish_state.unwrap()),
    }
}

/// The label of the checkpoint that a result leaves, where it leaves one.
pub open spec fn checkpoint_label(result: StepResult) -> Option<Seq<char>> {
    match result {
        StepResult::VersionsUpdated(_) => Some("version_updated"@),
        StepResult::Committed(_) => Some("git_operations_complete"@),
        StepResult::PublishPlanned { .. } => None,
        StepResult::PackagesPublished(_) => Some("publishing_complete"@),
    }
}

/// Whether a result completes the work of its phase: a publish run does so
/// once no package is left without outcome, every other result always.
pub open spec fn completes(result: StepResult) -> bool {
    match result {
        StepResult::PackagesPublished(publish_state) => !publish_state.pending(),
        _ => true,
    }
}

/// What the state holds after `result` was recorded, the logs left aside.
pub open spec fn holds_result(before: ReleaseState, after: ReleaseState, result: StepResult) -> bool {
    &&& after.release_id == before.release_id
    &&& after.target_version == before.target_version
    &&& after.version_bump == before.version_bump
    &&& after.config == before.config
    &&& after.started_at == before.started_at
    &&& after.current_phase == before.current_phase
    &&& after.errors == before.errors
    &&& match result {
        StepResult::VersionsUpdated(version_state) => after.version_state == Some(version_state)
            && after.git_state == before.git_state && after.publish_state == before.publish_state,
        StepResult::Committed(git_state) => after.git_state == Some(git_state) && after.version_state
            == before.version_state && after.publish_state == before.publish_state,
        StepResult::PublishPlanned { tier_count, package_count } => after.version_state
            == before.version_state && after.git_state == before.git_state && after.publish_state is Some
            && after.publish_state.unwrap().tier_count == tier_count
            && after.publish_state.unwrap().status@.len() == package_count && forall|p: int|
            0 <= p < package_count ==> (#[trigger] after.publish_state.unwrap().status@[p]) is Pending,
        StepResult::PackagesPublished(publish_state) => after.publish_state == Some(publish_state)
            && after.version_state == before.version_state && after.git_state == before.git_state,
    }
}

/// Records the result of a step. A result that is not the result of the
/// step that is due is set aside, and the state stays as it is. A step that
/// completes the work of its phase leaves a checkpoint that says so.
pub fn complete_step(state: &mut ReleaseState, result: StepResult, now: u64) -> (recorded: bool)
    requires
        old(state).wf(),
    ensures
        final(state).wf(),
        recorded == fits(*old(state), result),
        !recorded ==> *final(state) == *old(state),
        recorded ==> holds_result(*old(state), *final(state), result) && final(state).updated_at
            == now,
        recorded ==> match checkpoint_label(result) {
            Some(label) => final(state).extends_log(*old(state), 1) && marks(
                final(state).latest(),
                label,
                old(state).current_phase,
                now,
                completes(result),
            ),
            None => final(state).checkpoints == old(state).checkpoints,
        },
{
    let due = next_step(state);
    let ghost before = state.checkpoints@;
    match result {
        StepResult::VersionsUpdated(version_state) => {
            if due != ReleaseStep::UpdateVersions {
                return false;
            }
            state.set_version_state(version_state, now);
            state.add_checkpoint(String::from_str("version_updated"), true, now);
        },
        StepResult::Committed(git_state) => {
            if due != ReleaseStep::CommitAndTag {
                return false;
            }
            state.set_git_state(git_state, now);
            state.add_checkpoint(String::from_str("git_operations_complete"), true, now);
        },
        StepResult::PublishPlanned { tier_count, package_count } => {
            if due != ReleaseStep::PlanPublish {
                return false;
            }
            state.set_publish_state(PublishState::new(tier_count, package_count), now);
            return true;
        },
        StepResult::PackagesPublished(publish_state) => {
            if due != ReleaseStep::PublishPackages {
                return false;
            }
            let additive = match &state.publish_state {
                Some(earlier) => publish_state.is_continuation_of(earlier),
                None => false,
            };
            if !additive {
                return false;
            }
            let completed = !publish_state.has_pending();
            state.set_publish_state(publish_state, now);
            state.add_checkpoint(String::from_str("publishing_complete"), completed, now);
        },
    }
    assert(state.checkpoints@.subrange(0, before.len() as int) =~= before);
    true
}

/// A publish run that was broken off is due again: after its bookkeeping
/// was recorded with packages still pending, the next step is to publish.
pub proof fn lemma_unfinished_publish_is_due_again(
    before: ReleaseState,
    after: ReleaseState,
    publish_state: PublishState,
)
    requires
        fits(before, StepResult::PackagesPublished(publish_state)),
        holds_result(before, after, StepResult::PackagesPublished(publish_state)),
        publish_state.pending(),
    ensures
        step_of(after) == ReleaseStep::PublishPackages,
        after.current_phase == ReleasePhase::Publishing,
{
}

/// Recording a publish run loses no published package: whatever the state
/// held as published before, it holds in the same way after.
pub proof fn lemma_published_is_kept(
    before: ReleaseState,
    after: ReleaseState,
    publish_state: PublishState,
    p: int,
)
    requires
        fits(before, StepResult::PackagesPublished(publish_state)),
        holds_result(before, after, StepResult::PackagesPublished(publish_state)),
        before.publish_state.unwrap().is_published(p),
    ensures
        after.publish_state is Some,
        after.publish_state.unwrap().is_published(p),
        after.publish_state.unwrap().status@[p] == before.publish_state.unwrap().status@[p],
{
}

/// Why a release cannot be taken up again, where it cannot.
pub enum ResumeRefusal {
    /// The release has ended or met an error that rules a continuation out,
    /// and no force is applied.
    NotResumable,
    /// Force is applied to a release that has ended, and no phase is named
    /// at which to begin again: nothing is left to continue.
    NoContinuation,
}

/// Whether a release can be taken up again, and if not, why not. Without
/// force a release is refused exactly when it is not resumable. With force
/// it is refused only where it has ended and no phase to begin again at is
/// named. A release that stands at `Cleanup` or is rolling back continues:
/// the first goes on to completion, the second with its rollback.
pub open spec fn resume_refusal(
    state: ReleaseState,
    reset: Option<ResumePhase>,
    force: bool,
) -> Option<ResumeRefusal> {
    if !state.resumable() && !force {
        Some(ResumeRefusal::NotResumable)
    } else if reset is None && state.current_phase.terminal() {
        Some(ResumeRefusal::NoContinuation)
    } else {
        None
    }
}

/// Takes up an interrupted release.
///
/// Refuses a release that is not resumable, unless forced; the refusal is
/// an error after which no release goes on. Where a phase to begin again at
/// is named, the release enters that phase. It then continues with the step
/// that is due, which leaves out the work whose result the state already
/// holds.
pub fn resume(state: &mut ReleaseState, reset: Option<ResumePhase>, force: bool, now: u64) -> (r:
    Result<ReleaseStep, StateError>)
    requires
        old(state).wf(),
    ensures
        final(state).wf(),
        final(state).same_release(*old(state)),
        final(state).errors == old(state).errors,
        !force ==> (r is Ok <==> old(state).resumable()),
        match resume_refusal(*old(state), reset, force) {
            Some(ResumeRefusal::NotResumable) => (r matches Err(StateError::NotResumable { reason })
                && reason@ == "Release is not in a resumable state. Use --force to resume anyway"@)
                && !ReleaseError::State(r->Err_0).recoverable() && *final(state) == *old(state),
            Some(ResumeRefusal::NoContinuation) => (r matches Err(StateError::Corrupted { reason })
                && reason@ == "Cannot resume from phase: "@ + old(state).current_phase.title())
                && *final(state) == *old(state),
            None => r == Ok::<ReleaseStep, StateError>(step_of(*final(state))) && (match reset {
                Some(phase) => final(state).current_phase == phase.phase() && final(state).updated_at
                    == now && final(state).extends_log(*old(state), 1) && entered(
                    final(state).latest(),
                    phase.phase(),
                    now,
                ),
                None => *final(state) == *old(state),
            }),
        },
{
    if !state.is_resumable() && !force {
        return Err(
            StateError::NotResumable {
                reason: String::from_str(
                    "Release is not in a resumable state. Use --force to resume anyway",
                ),
            },
        );
    }
    match reset {
        Some(phase) => {
            state.set_phase(phase.to_phase(), now);
        },
        None => {},
    }
    if state.current_phase.is_terminal() {
        Err(
            StateError::Corrupted {
                reason: String::from_str("Cannot resume from phase: ").concat(
                    state.current_phase.title_text().as_str(),
                ),
            },
        )
    } else {
        Ok(next_step(state))
    }
}

/// Whether the cleanup command removes the state: always where all records
/// or the old ones are asked for, else only where a release is active.
pub fn cleanup_due(all: bool, older_than_given: bool, active: bool) -> (due: bool)
    ensures
        due == (all || older_than_given || active),
{
    all || older_than_given || active
}

/// The exit code of a command: 0 where it succeeded, 1 where it failed.
pub fn exit_code(outcome: &Result<(), ReleaseError>) -> (code: i32)
    ensures
        code == (if outcome is Ok {
            0i32
        } else {
            1i32
        }),
{
    match outcome {
        Ok(_) => 0,
        Err(_) => 1,
    }
}

} // verus!
