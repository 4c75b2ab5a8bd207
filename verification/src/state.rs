//! The record of one release attempt: its phase, checkpoints, errors and the
//! results of the phases that completed.

use vstd::prelude::*;
use vstd::string::*;
use crate::error::{PublishError, ReleaseError};
use crate::version::{Version, VersionBump};

verus! {

/// A stage of a release.
#[derive(Debug, Clone, Copy, PartialEq, Eq, Structural)]
pub enum ReleasePhase {
    /// Checking the workspace; the initial phase.
    Validation,
    /// Writing the new version to the manifests.
    VersionUpdate,
    /// Committing, tagging and pushing.
    GitOperations,
    /// Publishing the packages.
    Publishing,
    /// Clearing up after publishing.
    Cleanup,
    /// The release is done.
    Completed,
    /// A rollback is under way.
    RollingBack,
    /// The release was rolled back.
    RolledBack,
}

impl ReleasePhase {
    /// The phase that follows this one in a release that goes well.
    pub open spec fn successor(self) -> Option<ReleasePhase> {
        match self {
            ReleasePhase::Validation => Some(ReleasePhase::VersionUpdate),
            ReleasePhase::VersionUpdate => Some(ReleasePhase::GitOperations),
            ReleasePhase::GitOperations => Some(ReleasePhase::Publishing),
            ReleasePhase::Publishing => Some(ReleasePhase::Cleanup),
            ReleasePhase::Cleanup => Some(ReleasePhase::Completed),
            _ => None,
        }
    }

    /// Nothing follows this phase.
    pub open spec fn terminal(self) -> bool {
        self == ReleasePhase::Completed || self == ReleasePhase::RolledBack
    }

    /// The label under which the phase is recorded.
    pub open spec fn label(self) -> Seq<char> {
        match self {
            ReleasePhase::Validation => "validation"@,
            ReleasePhase::VersionUpdate => "version_update"@,
            ReleasePhase::GitOperations => "git_operations"@,
            ReleasePhase::Publishing => "publishing"@,
            ReleasePhase::Cleanup => "cleanup"@,
            ReleasePhase::Completed => "completed"@,
            ReleasePhase::RollingBack => "rolling_back"@,
            ReleasePhase::RolledBack => "rolled_back"@,
        }
    }

    /// The name of the phase as it is shown in messages.
    pub open spec fn title(self) -> Seq<char> {
        match self {
            ReleasePhase::Validation => "Validation"@,
            ReleasePhase::VersionUpdate => "VersionUpdate"@,
            ReleasePhase::GitOperations => "GitOperations"@,
            ReleasePhase::Publishing => "Publishing"@,
            ReleasePhase::Cleanup => "Cleanup"@,
            ReleasePhase::Completed => "Completed"@,
            ReleasePhase::RollingBack => "RollingBack"@,
            ReleasePhase::RolledBack => "RolledBack"@,
        }
    }

    /// Computes [`ReleasePhase::title`].
    pub fn title_text(self) -> (s: String)
        ensures
            s@ == self.title(),
    {
        match self {
            ReleasePhase::Validation => String::from_str("Validation"),
            ReleasePhase::VersionUpdate => String::from_str("VersionUpdate"),
            ReleasePhase::GitOperations => String::from_str("GitOperations"),
            ReleasePhase::Publishing => String::from_str("Publishing"),
            ReleasePhase::Cleanup => String::from_str("Cleanup"),
            ReleasePhase::Completed => String::from_str("Completed"),
            ReleasePhase::RollingBack => String::from_str("RollingBack"),
            ReleasePhase::RolledBack => String::from_str("RolledBack"),
        }
    }

    /// Computes [`ReleasePhase::successor`].
    pub fn next(self) -> (r: Option<ReleasePhase>)
        ensures
            r == self.successor(),
    {
        match self {
            ReleasePhase::Validation => Some(ReleasePhase::VersionUpdate),
            ReleasePhase::VersionUpdate => Some(ReleasePhase::GitOperations),
            ReleasePhase::GitOperations => Some(ReleasePhase::Publishing),
            ReleasePhase::Publishing => Some(ReleasePhase::Cleanup),
            ReleasePhase::Cleanup => Some(ReleasePhase::Completed),
            _ => None,
        }
    }

    /// Computes [`ReleasePhase::terminal`].
    pub fn is_terminal(self) -> (r: bool)
        ensures
            r == self.terminal(),
    {
        match self {
            ReleasePhase::Completed => true,
            ReleasePhase::RolledBack => true,
            _ => false,
        }
    }

    /// Computes [`ReleasePhase::label`].
    pub fn name(self) -> (s: String)
        ensures
            s@ == self.label(),
    {
        match self {
            ReleasePhase::Validation => String::from_str("validation"),
            ReleasePhase::VersionUpdate => String::from_str("version_update"),
            ReleasePhase::GitOperations => String::from_str("git_operations"),
            ReleasePhase::Publishing => String::from_str("publishing"),
            ReleasePhase::Cleanup => String::from_str("cleanup"),
            ReleasePhase::Completed => String::from_str("completed"),
            ReleasePhase::RollingBack => String::from_str("rolling_back"),
            ReleasePhase::RolledBack => String::from_str("rolled_back"),
        }
    }
}

/// A record that a named step of a phase was reached.
#[derive(Debug)]
pub struct Checkpoint {
    /// Human label.
    pub name: String,
    /// Phase the step belongs to.
    pub phase: ReleasePhase,
    /// When the step was recorded.
    pub timestamp: u64,
    /// Whether the step completed its phase's work.
    pub completed: bool,
}

/// `checkpoint` is the record of the step `label` of `phase`, made at `now`.
pub open spec fn marks(
    checkpoint: Checkpoint,
    label: Seq<char>,
    phase: ReleasePhase,
    now: u64,
    completed: bool,
) -> bool {
    &&& checkpoint.name@ == label
    &&& checkpoint.phase == phase
    &&& checkpoint.timestamp == now
    &&& checkpoint.completed == completed
}

/// `checkpoint` records that `phase` was entered at `now`.
pub open spec fn entered(checkpoint: Checkpoint, phase: ReleasePhase, now: u64) -> bool {
    marks(checkpoint, phase.label(), phase, now, false)
}

/// An error met during the release.
#[derive(Debug)]
pub struct ErrorEntry {
    /// What went wrong.
    pub message: String,
    /// Phase in which it went wrong.
    pub phase: ReleasePhase,
    /// When it was recorded.
    pub timestamp: u64,
    /// Whether the release can be continued after it.
    pub recoverable: bool,
}

/// Settings of a release.
#[derive(Debug, Clone, PartialEq, Eq)]
pub struct ReleaseConfig {
    /// Validate packages with a dry run before publishing.
    pub dry_run_first: bool,
    /// Push commit and tag to the remote.
    pub push_to_remote: bool,
    /// Delay between two publishes, in milliseconds.
    pub inter_package_delay_ms: u64,
    /// The registry to publish to; the default one where none is named.
    pub registry: Option<String>,
    /// Accept a dirty working directory.
    pub allow_dirty: bool,
}

/// What the version update left behind.
#[derive(Debug)]
pub struct VersionState {
    /// The version before the update.
    pub previous_version: Version,
    /// Number of manifests that were rewritten.
    pub files_modified: usize,
}

/// What the version-control phase left behind.
#[derive(Debug)]
pub struct GitState {
    /// Head commit before the release commit was made.
    pub previous_commit: Option<String>,
    /// Hash of the release commit.
    pub release_commit: Option<String>,
    /// Name of the release tag.
    pub release_tag: Option<String>,
    /// Whether commit and tag were pushed.
    pub pushed: bool,
}

/// The outcome of one package in the publish phase.
#[derive(Debug)]
pub enum PackageStatus {
    /// Not published yet, and not given up.
    Pending,
    /// Published, after so many attempts; or found published already.
    Published { attempts: u64, already_published: bool },
    /// Given up after so many attempts, with the last error.
    Failed { attempts: u64, error: PublishError },
}

/// The bookkeeping of the publish phase: one status per package, so that a
/// package is never both published and failed.
#[derive(Debug)]
pub struct PublishState {
    /// Number of tiers in the publish order.
    pub tier_count: usize,
    /// The status of each package, by package index.
    pub status: Vec<PackageStatus>,
}

impl PublishState {
    /// Package `p` is recorded as published.
    pub open spec fn is_published(self, p: int) -> bool {
        0 <= p < self.status@.len() && self.status@[p] is Published
    }

    /// Package `p` is recorded as failed.
    pub open spec fn is_failed(self, p: int) -> bool {
        0 <= p < self.status@.len() && self.status@[p] is Failed
    }

    /// Package `p` has reached its outcome.
    pub open spec fn is_settled(self, p: int) -> bool {
        self.is_published(p) || self.is_failed(p)
    }

    /// The packages recorded as published.
    pub open spec fn successful_publishes(self) -> Set<int> {
        Set::new(|p: int| self.is_published(p))
    }

    /// The packages recorded as failed.
    pub open spec fn failed_packages(self) -> Set<int> {
        Set::new(|p: int| self.is_failed(p))
    }

    /// No package is both published and failed.
    pub proof fn lemma_outcomes_disjoint(self)
        ensures
            self.successful_publishes().disjoint(self.failed_packages()),
    {
    }

    /// This record continues `earlier`: every package that `earlier` records
    /// as published is recorded here in the same way.
    pub open spec fn continues(self, earlier: PublishState) -> bool {
        forall|p: int|
            earlier.is_published(p) ==> 0 <= p < self.status@.len() && self.status@[p]
                == #[trigger] earlier.status@[p]
    }

    /// Computes [`PublishState::continues`].
    pub fn is_continuation_of(&self, earlier: &PublishState) -> (r: bool)
        ensures
            r == self.continues(*earlier),
    {
        let mut p: usize = 0;
        while p < earlier.status.len()
            invariant
                p <= earlier.status@.len(),
                forall|q: int|
                    0 <= q < p && earlier.is_published(q) ==> q < self.status@.len() && self.status@[q]
                        == #[trigger] earlier.status@[q],
            decreases earlier.status@.len() - p,
        {
            let kept = match &earlier.status[p] {
                PackageStatus::Published { attempts, already_published } => {
                    if p < self.status.len() {
                        match &self.status[p] {
                            PackageStatus::Published { attempts: again, already_published: still } => *again
                                == *attempts && *still == *already_published,
                            _ => false,
                        }
                    } else {
                        false
                    }
                },
                _ => true,
            };
            if !kept {
                assert(earlier.is_published(p as int));
                return false;
            }
            p = p + 1;
        }
        true
    }

    /// Some package has no outcome yet.
    pub open spec fn pending(self) -> bool {
        exists|p: int| 0 <= p < self.status@.len() && (#[trigger] self.status@[p]) is Pending
    }

    /// Computes [`PublishState::pending`].
    pub fn has_pending(&self) -> (r: bool)
        ensures
            r == self.pending(),
    {
        let mut p: usize = 0;
        while p < self.status.len()
            invariant
                p <= self.status@.len(),
                forall|q: int| 0 <= q < p ==> !((#[trigger] self.status@[q]) is Pending),
            decreases self.status@.len() - p,
        {
            let open = match &self.status[p] {
                PackageStatus::Pending => true,
                _ => false,
            };
            if open {
                return true;
            }
            p = p + 1;
        }
        false
    }

    /// A fresh record for `package_count` packages in `tier_count` tiers.
    pub fn new(tier_count: usize, package_count: usize) -> (s: PublishState)
        ensures
            s.tier_count == tier_count,
            s.status@.len() == package_count,
            forall|p: int| 0 <= p < package_count ==> (#[trigger] s.status@[p]) is Pending,
    {
        let mut status: Vec<PackageStatus> = Vec::new();
        let mut p: usize = 0;
        while p < package_count
            invariant
                p <= package_count,
                status@.len() == p,
                forall|q: int| 0 <= q < p ==> (#[trigger] status@[q]) is Pending,
            decreases package_count - p,
        {
            status.push(PackageStatus::Pending);
            p = p + 1;
        }
        PublishState { tier_count, status }
    }

    /// Whether package `p` is recorded as published.
    pub fn published(&self, p: usize) -> (r: bool)
        ensures
            r == self.is_published(p as int),
    {
        if p < self.status.len() {
            match &self.status[p] {
                PackageStatus::Published { .. } => true,
                _ => false,
            }
        } else {
            false
        }
    }

    /// Whether package `p` is recorded as failed.
    pub fn failed(&self, p: usize) -> (r: bool)
        ensures
            r == self.is_failed(p as int),
    {
        if p < self.status.len() {
            match &self.status[p] {
                PackageStatus::Failed { .. } => true,
                _ => false,
            }
        } else {
            false
        }
    }

    /// Records the outcome of package `p`, unless it has one already or `p`
    /// is no package of the record. Returns whether the record changed.
    pub fn settle(&mut self, p: usize, outcome: PackageStatus) -> (changed: bool)
        ensures
            changed == (p < old(self).status@.len() && old(self).status@[p as int] is Pending),
            changed ==> final(self).status@ == old(self).status@.update(p as int, outcome),
            !changed ==> *final(self) == *old(self),
            final(self).tier_count == old(self).tier_count,
    {
        if p < self.status.len() {
            let pending = match &self.status[p] {
                PackageStatus::Pending => true,
                _ => false,
            };
            if pending {
                self.status.set(p, outcome);
                return true;
            }
        }
        false
    }

    /// Whether no package is recorded as failed.
    pub fn all_successful(&self) -> (r: bool)
        ensures
            r == (forall|p: int| !self.is_failed(p)),
    {
        let mut p: usize = 0;
        while p < self.status.len()
            invariant
                p <= self.status@.len(),
                forall|q: int| 0 <= q < p ==> !self.is_failed(q),
            decreases self.status@.len() - p,
        {
            if self.failed(p) {
                return false;
            }
            p = p + 1;
        }
        true
    }

    /// The packages recorded as published, in ascending order.
    pub fn published_packages(&self) -> (list: Vec<usize>)
        ensures
            forall|i: int| 0 <= i < list@.len() ==> self.is_published(#[trigger] list@[i] as int),
            forall|p: int| self.is_published(p) ==> list@.contains(p as usize),
            forall|i: int, j: int| 0 <= i < j < list@.len() ==> list@[i] < list@[j],
    {
        let mut list: Vec<usize> = Vec::new();
        let mut p: usize = 0;
        while p < self.status.len()
            invariant
                p <= self.status@.len(),
                forall|i: int|
                    0 <= i < list@.len() ==> self.is_published(#[trigger] list@[i] as int) && list@[i]
                        < p,
                forall|q: int| 0 <= q < p && self.is_published(q) ==> list@.contains(q as usize),
                forall|i: int, j: int| 0 <= i < j < list@.len() ==> list@[i] < list@[j],
            decreases self.status@.len() - p,
        {
            if self.published(p) {
                let ghost before = list@;
                list.push(p);
                proof {
                    assert forall|q: int| 0 <= q < p + 1 && self.is_published(q) implies list@.contains(
                        q as usize,
                    ) by {
                        if q == p {
                            assert(list@[before.len() as int] == p);
                        } else {
                            let i = choose|i: int| 0 <= i < before.len() && before[i] == q as usize;
                            assert(list@[i] == q as usize);
                        }
                    }
                }
            }
            p = p + 1;
        }
        list
    }
}

/// The single source of truth for one release attempt.
#[derive(Debug)]
pub struct ReleaseState {
    /// Unique identifier of the attempt.
    pub release_id: String,
    /// The version that is being released.
    pub target_version: Version,
    /// The kind of bump that led to it.
    pub version_bump: VersionBump,
    /// Settings of the release.
    pub config: ReleaseConfig,
    /// The phase the release is in.
    pub current_phase: ReleasePhase,
    /// When the release started.
    pub started_at: u64,
    /// When the record last changed.
    pub updated_at: u64,
    /// Steps reached so far, oldest first.
    pub checkpoints: Vec<Checkpoint>,
    /// Errors met so far, oldest first.
    pub errors: Vec<ErrorEntry>,
    /// Result of the version update, once done.
    pub version_state: Option<VersionState>,
    /// Result of the version-control phase, once done.
    pub git_state: Option<GitState>,
    /// Bookkeeping of the publish phase, once begun.
    pub publish_state: Option<PublishState>,
}

impl ReleaseState {
    /// The latest checkpoint, where there is one, belongs to the current phase.
    pub open spec fn wf(self) -> bool {
        self.checkpoints@.len() > 0 ==> self.checkpoints@[self.checkpoints@.len() - 1].phase
            == self.current_phase
    }

    /// The latest checkpoint.
    pub open spec fn latest(self) -> Checkpoint {
        self.checkpoints@[self.checkpoints@.len() - 1]
    }

    /// The logs of `self` continue those of `before`: the errors are the
    /// same, and the checkpoints are those of `before` and `added` more.
    pub open spec fn extends_log(self, before: ReleaseState, added: nat) -> bool {
        &&& self.errors == before.errors
        &&& self.checkpoints@.len() == before.checkpoints@.len() + added
        &&& self.checkpoints@.subrange(0, before.checkpoints@.len() as int) == before.checkpoints@
    }

    /// Some recorded error rules out a continuation.
    pub open spec fn critical(self) -> bool {
        exists|i: int| 0 <= i < self.errors@.len() && !(#[trigger] self.errors@[i]).recoverable
    }

    /// The release can be continued: it has not ended and met no error that
    /// rules it out.
    pub open spec fn resumable(self) -> bool {
        !self.current_phase.terminal() && !self.critical()
    }

    /// The same release with the clock and the logs left aside: identity,
    /// version, settings and the results of the phases.
    pub open spec fn same_release(self, other: ReleaseState) -> bool {
        &&& self.release_id == other.release_id
        &&& self.target_version == other.target_version
        &&& self.version_bump == other.version_bump
        &&& self.config == other.config
        &&& self.started_at == other.started_at
        &&& self.version_state == other.version_state
        &&& self.git_state == other.git_state
        &&& self.publish_state == other.publish_state
    }

    /// A new release at its initial phase, with empty logs.
    pub fn new(
        release_id: String,
        target_version: Version,
        version_bump: VersionBump,
        config: ReleaseConfig,
        now: u64,
    ) -> (s: ReleaseState)
        ensures
            s.release_id == release_id,
            s.target_version == target_version,
            s.version_bump == version_bump,
            s.config == config,
            s.current_phase == ReleasePhase::Validation,
            s.started_at == now,
            s.updated_at == now,
            s.checkpoints@.len() == 0,
            s.errors@.len() == 0,
            s.version_state is None,
            s.git_state is None,
            s.publish_state is None,
            s.wf(),
            s.resumable(),
    {
        ReleaseState {
            release_id,
            target_version,
            version_bump,
            config,
            current_phase: ReleasePhase::Validation,
            started_at: now,
            updated_at: now,
            checkpoints: Vec::new(),
            errors: Vec::new(),
            version_state: None,
            git_state: None,
            publish_state: None,
        }
    }

    /// Appends a checkpoint of the current phase.
    pub fn add_checkpoint(&mut self, name: String, completed: bool, now: u64)
        ensures
            final(self).checkpoints@ == old(self).checkpoints@.push(
                (Checkpoint { name, phase: old(self).current_phase, timestamp: now, completed }),
            ),
            final(self).updated_at == now,
            final(self).current_phase == old(self).current_phase,
            final(self).errors == old(self).errors,
            final(self).same_release(*old(self)),
            final(self).wf(),
    {
        let phase = self.current_phase;
        self.checkpoints.push(Checkpoint { name, phase, timestamp: now, completed });
        self.updated_at = now;
    }

    /// Enters `phase` and appends the checkpoint that says so. The earlier
    /// checkpoints stay as they are.
    pub fn set_phase(&mut self, phase: ReleasePhase, now: u64)
        ensures
            final(self).current_phase == phase,
            final(self).updated_at == now,
            final(self).same_release(*old(self)),
            final(self).extends_log(*old(self), 1),
            entered(final(self).latest(), phase, now),
            final(self).wf(),
    {
        self.current_phase = phase;
        self.checkpoints.push(Checkpoint { name: phase.name(), phase, timestamp: now, completed: false });
        self.updated_at = now;
        assert(self.checkpoints@.subrange(0, old(self).checkpoints@.len() as int) =~= old(self).checkpoints@);
    }

    /// Records an error met in the current phase. Whether the release can go
    /// on after it is taken from the error's kind.
    pub fn record_error(&mut self, error: &ReleaseError, message: String, now: u64)
        ensures
            final(self).errors@ == old(self).errors@.push(
                (ErrorEntry {
                    message,
                    phase: old(self).current_phase,
                    timestamp: now,
                    recoverable: error.recoverable(),
                }),
            ),
            final(self).updated_at == now,
            final(self).current_phase == old(self).current_phase,
            final(self).checkpoints == old(self).checkpoints,
            final(self).same_release(*old(self)),
            final(self).critical() == (old(self).critical() || !error.recoverable()),
    {
        let recoverable = error.is_recoverable();
        let phase = self.current_phase;
        let ghost before = self.errors@;
        self.errors.push(ErrorEntry { message, phase, timestamp: now, recoverable });
        self.updated_at = now;
        proof {
            let after = self.errors@;
            if old(self).critical() {
                let i = choose|i: int| 0 <= i < before.len() && !(#[trigger] before[i]).recoverable;
                assert(!after[i].recoverable);
            }
            if !recoverable {
                assert(!after[before.len() as int].recoverable);
            }
            if self.critical() {
                let i = choose|i: int| 0 <= i < after.len() && !(#[trigger] after[i]).recoverable;
                if i < before.len() {
                    assert(!before[i].recoverable);
                }
            }
        }
    }

    /// Computes [`ReleaseState::wf`]: a record that was read from outside
    /// is tested with it before it is worked on.
    pub fn is_well_formed(&self) -> (r: bool)
        ensures
            r == self.wf(),
    {
        let count = self.checkpoints.len();
        if count == 0 {
            true
        } else {
            self.checkpoints[count - 1].phase == self.current_phase
        }
    }

    /// Computes [`ReleaseState::critical`].
    pub fn has_critical_errors(&self) -> (r: bool)
        ensures
            r == self.critical(),
    {
        let mut i: usize = 0;
        while i < self.errors.len()
            invariant
                i <= self.errors@.len(),
                forall|j: int| 0 <= j < i ==> (#[trigger] self.errors@[j]).recoverable,
            decreases self.errors@.len() - i,
        {
            if !self.errors[i].recoverable {
                return true;
            }
            i = i + 1;
        }
        false
    }

    /// Computes [`ReleaseState::resumable`].
    pub fn is_resumable(&self) -> (r: bool)
        ensures
            r == self.resumable(),
    {
        !self.current_phase.is_terminal() && !self.has_critical_errors()
    }

    /// Stores the result of the version update.
    pub fn set_version_state(&mut self, version_state: VersionState, now: u64)
        ensures
            *final(self) == (ReleaseState {
                version_state: Some(version_state),
                updated_at: now,
                ..*old(self)
            }),
    {
        self.version_state = Some(version_state);
        self.updated_at = now;
    }

    /// Stores the result of the version-control phase.
    pub fn set_git_state(&mut self, git_state: GitState, now: u64)
        ensures
            *final(self) == (ReleaseState { git_state: Some(git_state), updated_at: now, ..*old(self) }),
    {
        self.git_state = Some(git_state);
        self.updated_at = now;
    }

    /// Stores the bookkeeping of the publish phase.
    pub fn set_publish_state(&mut self, publish_state: PublishState, now: u64)
        ensures
            *final(self) == (ReleaseState {
                publish_state: Some(publish_state),
                updated_at: now,
                ..*old(self)
            }),
    {
        self.publish_state = Some(publish_state);
        self.updated_at = now;
    }
}

} // verus!
