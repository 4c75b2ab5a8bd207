//! The rollback coordinator: what to undo of a release, and how the
//! undoing went.

use vstd::prelude::*;
use vstd::string::*;
use crate::error::{CliError, StateError};
use crate::text::texts;
use crate::state::{entered, marks, ReleasePhase, ReleaseState};

verus! {

/// How much of a release a rollback undoes.
#[derive(Debug, Clone, Copy, PartialEq, Eq, Structural)]
pub enum RollbackScope {
    /// Only the commit and the tag.
    GitOnly,
    /// Only the published packages.
    PackagesOnly,
    /// Both.
    Full,
}

impl RollbackScope {
    /// The scope covers the published packages.
    pub open spec fn covers_packages(self) -> bool {
        self != RollbackScope::GitOnly
    }

    /// The scope covers commit and tag.
    pub open spec fn covers_git(self) -> bool {
        self != RollbackScope::PackagesOnly
    }

    /// The scope that the two switches of the command line select: one
    /// switch limits the rollback to its part, none leaves it whole. The two
    /// together contradict each other and are refused.
    pub fn from_flags(git_only: bool, packages_only: bool) -> (r: Result<RollbackScope, CliError>)
        ensures
            git_only && packages_only ==> (r matches Err(CliError::ConflictingArguments { arguments })
                && texts(arguments@) == seq!["--git-only"@, "--packages-only"@]),
            !(git_only && packages_only) ==> (r matches Ok(scope) && scope.covers_packages()
                == !git_only && scope.covers_git() == !packages_only),
    {
        if git_only && packages_only {
            let mut arguments: Vec<String> = Vec::new();
            arguments.push(String::from_str("--git-only"));
            arguments.push(String::from_str("--packages-only"));
            assert(texts(arguments@) =~= seq!["--git-only"@, "--packages-only"@]);
            Err(CliError::ConflictingArguments { arguments })
        } else if git_only {
            Ok(RollbackScope::GitOnly)
        } else if packages_only {
            Ok(RollbackScope::PackagesOnly)
        } else {
            Ok(RollbackScope::Full)
        }
    }
}

/// What a rollback is to undo.
#[derive(Debug)]
pub struct RollbackPlan {
    /// The packages to withdraw from the registry, in ascending order.
    pub yank_packages: Vec<usize>,
    /// The commit to reset to, where a release commit is to be undone.
    pub reset_to_commit: Option<String>,
    /// The tag to delete, where a release tag is to be undone.
    pub delete_tag: Option<String>,
    /// Whether the tag is to be deleted on the remote too.
    pub delete_remote_tag: bool,
    /// Whether manifests hold version edits that must be reverted by hand.
    pub manual_version_revert: bool,
}

impl RollbackPlan {
    /// The plan undoes nothing.
    pub open spec fn is_empty(self) -> bool {
        &&& self.yank_packages@.len() == 0
        &&& self.reset_to_commit is None
        &&& self.delete_tag is None
        &&& !self.delete_remote_tag
        &&& !self.manual_version_revert
    }
}

/// The rollback is refused: the release is complete and no force is applied.
pub open spec fn rollback_refused(state: ReleaseState, force: bool) -> bool {
    state.current_phase == ReleasePhase::Completed && !force
}

/// A copy of an optional text.
fn copy_text(text: &Option<String>) -> (r: Option<String>)
    ensures
        r == *text,
{
    match text {
        Some(s) => Some(s.clone()),
        None => None,
    }
}

/// `after` is `before` once it has entered `RollingBack` at `now`: the logs
/// are kept, one checkpoint is added, and nothing else has changed.
pub open spec fn begun(before: ReleaseState, after: ReleaseState, now: u64) -> bool {
    &&& after.current_phase == ReleasePhase::RollingBack
    &&& after.same_release(before)
    &&& after.updated_at == now
    &&& after.extends_log(before, 1)
    &&& entered(after.latest(), ReleasePhase::RollingBack, now)
}

/// Begins a rollback and says what is to be undone.
///
/// On a release that is rolled back already nothing is left to undo: the
/// plan is empty and the state stays as it is. A completed release is rolled
/// back only by force. Otherwise the release enters `RollingBack`, and the
/// plan names, as far as the scope covers them and the state records them,
/// the published packages, the commit to return to and the tag to delete.
/// Version edits are never undone: the plan only flags them.
pub fn rollback(state: &mut ReleaseState, scope: RollbackScope, force: bool, now: u64) -> (r: Result<
    RollbackPlan,
    StateError,
>)
    requires
        old(state).wf(),
    ensures
        final(state).wf(),
        old(state).current_phase == ReleasePhase::RolledBack ==> r is Ok && r.unwrap().is_empty()
            && *final(state) == *old(state),
        rollback_refused(*old(state), force) ==> (r matches Err(StateError::SaveFailed { reason })
            && reason@ == "Release completed successfully. Use --force to rollback anyway"@)
            && *final(state) == *old(state),
        old(state).current_phase != ReleasePhase::RolledBack && !rollback_refused(*old(state), force)
            ==> r is Ok && planned(*old(state), scope, r.unwrap()) && begun(
            *old(state),
            *final(state),
            now,
        ),
{
    match state.current_phase {
        ReleasePhase::RolledBack => {
            return Ok(
                RollbackPlan {
                    yank_packages: Vec::new(),
                    reset_to_commit: None,
                    delete_tag: None,
                    delete_remote_tag: false,
                    manual_version_revert: false,
                },
            );
        },
        ReleasePhase::Completed => {
            if !force {
                return Err(
                    StateError::SaveFailed {
                        reason: String::from_str(
                            "Release completed successfully. Use --force to rollback anyway",
                        ),
                    },
                );
            }
        },
        _ => {},
    }
    state.set_phase(ReleasePhase::RollingBack, now);
    let mut plan = RollbackPlan {
        yank_packages: Vec::new(),
        reset_to_commit: None,
        delete_tag: None,
        delete_remote_tag: false,
        manual_version_revert: state.version_state.is_some(),
    };
    let with_packages = match scope {
        RollbackScope::GitOnly => false,
        _ => true,
    };
    let with_git = match scope {
        RollbackScope::PackagesOnly => false,
        _ => true,
    };
    if with_packages {
        match &state.publish_state {
            Some(publish_state) => {
                plan.yank_packages = publish_state.published_packages();
            },
            None => {},
        }
    }
    if with_git {
        match &state.git_state {
            Some(git_state) => {
                plan.reset_to_commit = copy_text(&git_state.previous_commit);
                plan.delete_tag = copy_text(&git_state.release_tag);
                plan.delete_remote_tag = git_state.pushed && git_state.release_tag.is_some();
            },
            None => {},
        }
    }
    Ok(plan)
}

/// `plan` is what a rollback of `scope` undoes of `state`.
pub open spec fn planned(state: ReleaseState, scope: RollbackScope, plan: RollbackPlan) -> bool {
    &&& plan.manual_version_revert == (state.version_state is Some)
    &&& if scope.covers_packages() && state.publish_state is Some {
        let publish_state = state.publish_state.unwrap();
        &&& forall|i: int|
            0 <= i < plan.yank_packages@.len() ==> publish_state.is_published(
                #[trigger] plan.yank_packages@[i] as int,
            )
        &&& forall|p: int| publish_state.is_published(p) ==> plan.yank_packages@.contains(p as usize)
        &&& forall|i: int, j: int|
            0 <= i < j < plan.yank_packages@.len() ==> plan.yank_packages@[i]
                < plan.yank_packages@[j]
    } else {
        plan.yank_packages@.len() == 0
    }
    &&& if scope.covers_git() && state.git_state is Some {
        let git_state = state.git_state.unwrap();
        &&& plan.reset_to_commit == git_state.previous_commit
        &&& plan.delete_tag == git_state.release_tag
        &&& plan.delete_remote_tag == (git_state.pushed && git_state.release_tag is Some)
    } else {
        plan.reset_to_commit is None && plan.delete_tag is None && !plan.delete_remote_tag
    }
}

/// Ends a rollback: a release that is rolling back becomes rolled back and
/// gets its closing checkpoint. In any other phase nothing changes.
pub fn finish_rollback(state: &mut ReleaseState, now: u64) -> (done: bool)
    requires
        old(state).wf(),
    ensures
        final(state).wf(),
        done == (old(state).current_phase == ReleasePhase::RollingBack),
        done ==> final(state).current_phase == ReleasePhase::RolledBack && final(state).updated_at
            == now && final(state).same_release(*old(state)) && final(state).extends_log(
            *old(state),
            2,
        ) && marks(
            final(state).latest(),
            "rollback_completed"@,
            ReleasePhase::RolledBack,
            now,
            false,
        ) && entered(
            final(state).checkpoints@[old(state).checkpoints@.len() as int],
            ReleasePhase::RolledBack,
            now,
        ),
        !done ==> *final(state) == *old(state),
{
    match state.current_phase {
        ReleasePhase::RollingBack => {
            state.set_phase(ReleasePhase::RolledBack, now);
            let ghost entered_at = state.checkpoints@;
            state.add_checkpoint(String::from_str("rollback_completed"), false, now);
            assert(state.checkpoints@.subrange(0, old(state).checkpoints@.len() as int)
                =~= entered_at.subrange(0, old(state).checkpoints@.len() as int));
            true
        },
        _ => false,
    }
}

/// How the withdrawal of the published packages went.
#[derive(Debug)]
pub struct RollbackReport {
    /// The packages that were withdrawn, in the order of the attempts.
    pub yanked: Vec<usize>,
    /// The packages whose withdrawal failed, in the order of the attempts.
    pub failed: Vec<usize>,
    /// Whether every withdrawal so far succeeded.
    pub fully_successful: bool,
}

impl RollbackReport {
    /// The report agrees with itself: it is fully successful exactly when
    /// no withdrawal failed.
    pub open spec fn wf(self) -> bool {
        self.fully_successful == (self.failed@.len() == 0)
    }

    /// The report before any withdrawal.
    pub fn new() -> (report: RollbackReport)
        ensures
            report.wf(),
            report.yanked@.len() == 0,
            report.failed@.len() == 0,
            report.fully_successful,
    {
        RollbackReport { yanked: Vec::new(), failed: Vec::new(), fully_successful: true }
    }

    /// Takes in the outcome of one withdrawal. A failure is recorded and
    /// the rollback goes on.
    pub fn record_yank(&mut self, package: usize, succeeded: bool)
        requires
            old(self).wf(),
        ensures
            final(self).wf(),
            final(self).yanked@ == (if succeeded {
                old(self).yanked@.push(package)
            } else {
                old(self).yanked@
            }),
            final(self).failed@ == (if succeeded {
                old(self).failed@
            } else {
                old(self).failed@.push(package)
            }),
            final(self).fully_successful == (old(self).fully_successful && succeeded),
    {
        if succeeded {
            self.yanked.push(package);
        } else {
            self.failed.push(package);
            self.fully_successful = false;
        }
    }
}

} // verus!
