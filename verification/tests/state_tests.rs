use cyrup_release::error::{GitError, PublishError, ReleaseError, StateError, WorkspaceError};
use cyrup_release::graph::{PackageInfo, WorkspaceInfo};
use cyrup_release::release::{
    advance, cleanup_due, complete_step, exit_code, next_step, refuse_if_active, resume, start,
    supported_bump, validate_workspace, validation_verdict, ReleaseStep, ResumePhase, StepResult,
    ValidationReport,
};
use cyrup_release::rollback::{
    finish_rollback, rollback, RollbackReport, RollbackScope,
};
use cyrup_release::state::{
    GitState, PackageStatus, PublishState, ReleaseConfig, ReleasePhase, ReleaseState,
    VersionState,
};
use cyrup_release::store::{StateStore, StoredRecord, SCHEMA_VERSION};
use cyrup_release::version::{Version, VersionBump};

fn config() -> ReleaseConfig {
    ReleaseConfig {
        dry_run_first: true,
        push_to_remote: true,
        inter_package_delay_ms: 15000,
        registry: None,
        allow_dirty: false,
    }
}

fn fresh(now: u64) -> ReleaseState {
    start(false, None, "rel-1".to_string(), Version::new(1, 3, 0), VersionBump::Minor, config(), now)
        .expect("release starts")
}

fn git_state() -> GitState {
    GitState {
        previous_commit: Some("abc123".to_string()),
        release_commit: Some("def456".to_string()),
        release_tag: Some("v1.3.0".to_string()),
        pushed: true,
    }
}

fn version_state() -> VersionState {
    VersionState { previous_version: Version::new(1, 2, 9), files_modified: 4 }
}

/// Drives a fresh release up to the publishing phase with two packages planned.
fn at_publishing() -> ReleaseState {
    let mut state = fresh(10);
    advance(&mut state, ReleasePhase::VersionUpdate, 11).unwrap();
    assert!(complete_step(&mut state, StepResult::VersionsUpdated(version_state()), 12));
    advance(&mut state, ReleasePhase::GitOperations, 13).unwrap();
    assert!(complete_step(&mut state, StepResult::Committed(git_state()), 14));
    advance(&mut state, ReleasePhase::Publishing, 15).unwrap();
    assert!(complete_step(
        &mut state,
        StepResult::PublishPlanned { tier_count: 2, package_count: 2 },
        16
    ));
    state
}

#[test]
fn start_gives_the_initial_state() {
    let state = fresh(100);
    assert_eq!(state.release_id, "rel-1");
    assert_eq!(state.target_version.to_text(), "1.3.0");
    assert_eq!(state.version_bump, VersionBump::Minor);
    assert_eq!(state.current_phase, ReleasePhase::Validation);
    assert_eq!(state.started_at, 100);
    assert_eq!(state.updated_at, 100);
    assert_eq!(state.checkpoints.len(), 1);
    assert_eq!(state.checkpoints[0].name, "release_started");
    assert_eq!(state.checkpoints[0].phase, ReleasePhase::Validation);
    assert!(!state.checkpoints[0].completed);
    assert!(state.errors.is_empty());
    assert!(state.version_state.is_none() && state.git_state.is_none());
    assert!(state.publish_state.is_none());
    assert!(state.is_resumable());
}

#[test]
fn start_is_refused_while_another_release_is_active() {
    let r = start(true, None, "x".to_string(), Version::new(1, 0, 0), VersionBump::Major, config(), 1);
    match r {
        Err(ReleaseError::State(StateError::SaveFailed { reason })) => {
            assert_eq!(reason, "Another release is in progress. Use 'resume' or 'cleanup' first");
        }
        other => panic!("unexpected {:?}", other),
    }
}

#[test]
fn start_is_refused_on_failed_validation_unless_skipped() {
    let bad = ValidationReport {
        success: false,
        critical_errors: vec!["missing license".to_string()],
        warnings: vec![],
    };
    let r = start(false, Some(&bad), "x".to_string(), Version::new(1, 0, 0), VersionBump::Major, config(), 1);
    match r {
        Err(ReleaseError::Workspace(WorkspaceError::InvalidStructure { reason })) => {
            assert_eq!(reason, "Workspace validation failed");
        }
        other => panic!("unexpected {:?}", other),
    }
    assert!(validation_verdict(&bad).is_err());
    let good = ValidationReport { success: true, critical_errors: vec![], warnings: vec![] };
    assert!(validation_verdict(&good).is_ok());
    assert!(start(false, Some(&good), "x".to_string(), Version::new(1, 0, 0), VersionBump::Major, config(), 1).is_ok());
    // Validation skipped: the release starts.
    assert!(start(false, None, "x".to_string(), Version::new(1, 0, 0), VersionBump::Major, config(), 1).is_ok());
}

#[test]
fn exact_bump_is_refused() {
    assert_eq!(supported_bump(VersionBump::Patch, false).unwrap(), VersionBump::Patch);
    match supported_bump(VersionBump::Exact, false) {
        Err(cyrup_release::error::CliError::InvalidArguments { reason }) => {
            assert_eq!(reason, "Exact version bump not yet implemented")
        }
        other => panic!("unexpected {:?}", other),
    }
    match supported_bump(VersionBump::Exact, true) {
        Err(cyrup_release::error::CliError::InvalidArguments { reason }) => {
            assert_eq!(reason, "Exact version preview not yet implemented")
        }
        other => panic!("unexpected {:?}", other),
    }
}

#[test]
fn a_release_runs_through_its_phases() {
    let mut state = fresh(1);
    assert_eq!(next_step(&state), ReleaseStep::Advance(ReleasePhase::VersionUpdate));
    advance(&mut state, ReleasePhase::VersionUpdate, 2).unwrap();
    assert_eq!(next_step(&state), ReleaseStep::UpdateVersions);
    assert!(complete_step(&mut state, StepResult::VersionsUpdated(version_state()), 3));
    assert_eq!(state.checkpoints.last().unwrap().name, "version_updated");
    assert!(state.checkpoints.last().unwrap().completed);
    assert_eq!(next_step(&state), ReleaseStep::Advance(ReleasePhase::GitOperations));
    advance(&mut state, ReleasePhase::GitOperations, 4).unwrap();
    assert_eq!(next_step(&state), ReleaseStep::CommitAndTag);
    assert!(complete_step(&mut state, StepResult::Committed(git_state()), 5));
    assert_eq!(state.checkpoints.last().unwrap().name, "git_operations_complete");
    advance(&mut state, ReleasePhase::Publishing, 6).unwrap();
    assert_eq!(next_step(&state), ReleaseStep::PlanPublish);
    assert!(complete_step(&mut state, StepResult::PublishPlanned { tier_count: 1, package_count: 2 }, 7));
    assert_eq!(next_step(&state), ReleaseStep::PublishPackages);
    let mut done = PublishState::new(1, 2);
    done.settle(0, PackageStatus::Published { attempts: 1, already_published: false });
    done.settle(1, PackageStatus::Failed { attempts: 3, error: PublishError::AuthenticationError });
    assert!(complete_step(&mut state, StepResult::PackagesPublished(done), 8));
    assert_eq!(state.checkpoints.last().unwrap().name, "publishing_complete");
    assert!(state.checkpoints.last().unwrap().completed);
    assert_eq!(next_step(&state), ReleaseStep::Advance(ReleasePhase::Cleanup));
    advance(&mut state, ReleasePhase::Cleanup, 9).unwrap();
    assert_eq!(next_step(&state), ReleaseStep::Advance(ReleasePhase::Completed));
    advance(&mut state, ReleasePhase::Completed, 10).unwrap();
    assert_eq!(next_step(&state), ReleaseStep::Finish);
    assert_eq!(state.current_phase, ReleasePhase::Completed);
    assert_eq!(state.updated_at, 10);
    assert_eq!(state.checkpoints.last().unwrap().phase, ReleasePhase::Completed);
    assert_eq!(state.checkpoints.last().unwrap().name, "completed");
    assert!(!state.is_resumable());
}

#[test]
fn advance_refuses_to_skip_or_go_back() {
    let mut state = fresh(1);
    let before = state.checkpoints.len();
    match advance(&mut state, ReleasePhase::Publishing, 2) {
        Err(StateError::SaveFailed { reason }) => assert_eq!(reason, "Phase transition not allowed"),
        other => panic!("unexpected {:?}", other),
    }
    assert_eq!(state.current_phase, ReleasePhase::Validation);
    assert_eq!(state.checkpoints.len(), before);
    assert_eq!(state.updated_at, 1);
    advance(&mut state, ReleasePhase::VersionUpdate, 3).unwrap();
    assert!(advance(&mut state, ReleasePhase::Validation, 4).is_err());
    assert!(advance(&mut state, ReleasePhase::VersionUpdate, 4).is_err());
    assert!(advance(&mut state, ReleasePhase::RollingBack, 4).is_err());
    assert_eq!(state.current_phase, ReleasePhase::VersionUpdate);
}

#[test]
fn a_result_that_is_not_due_is_set_aside() {
    let mut state = fresh(1);
    assert!(!complete_step(&mut state, StepResult::Committed(git_state()), 2));
    assert!(state.git_state.is_none());
    assert_eq!(state.updated_at, 1);
    assert_eq!(state.checkpoints.len(), 1);
}

#[test]
fn resume_of_a_completed_release_is_refused_unless_forced() {
    let mut state = fresh(1);
    advance(&mut state, ReleasePhase::VersionUpdate, 2).unwrap();
    complete_step(&mut state, StepResult::VersionsUpdated(version_state()), 2);
    advance(&mut state, ReleasePhase::GitOperations, 2).unwrap();
    complete_step(&mut state, StepResult::Committed(git_state()), 2);
    advance(&mut state, ReleasePhase::Publishing, 2).unwrap();
    complete_step(&mut state, StepResult::PublishPlanned { tier_count: 0, package_count: 0 }, 2);
    advance(&mut state, ReleasePhase::Cleanup, 2).unwrap();
    advance(&mut state, ReleasePhase::Completed, 2).unwrap();
    assert!(state.errors.is_empty());
    let checkpoints = state.checkpoints.len();
    match resume(&mut state, None, false, 3) {
        Err(StateError::NotResumable { reason }) => {
            assert_eq!(reason, "Release is not in a resumable state. Use --force to resume anyway");
            let refusal = ReleaseError::State(StateError::NotResumable { reason });
            assert!(!refusal.is_recoverable());
        }
        other => panic!("unexpected {:?}", other),
    }
    assert_eq!(state.checkpoints.len(), checkpoints);
    // Forced, the release has nowhere to continue from.
    match resume(&mut state, None, true, 3) {
        Err(StateError::Corrupted { reason }) => {
            assert_eq!(reason, "Cannot resume from phase: Completed")
        }
        other => panic!("unexpected {:?}", other),
    }
    // Forced and told where to begin again, it continues.
    assert_eq!(
        resume(&mut state, Some(ResumePhase::Publishing), true, 4).unwrap(),
        ReleaseStep::Advance(ReleasePhase::Cleanup)
    );
    assert_eq!(state.current_phase, ReleasePhase::Publishing);
}

#[test]
fn resume_leaves_out_work_that_is_done() {
    let mut state = at_publishing();
    // Back to the version update: its result is there, so the work is not due again.
    assert_eq!(
        resume(&mut state, Some(ResumePhase::VersionUpdate), false, 20).unwrap(),
        ReleaseStep::Advance(ReleasePhase::GitOperations)
    );
    assert_eq!(state.current_phase, ReleasePhase::VersionUpdate);
    assert_eq!(state.checkpoints.last().unwrap().phase, ReleasePhase::VersionUpdate);
    assert_eq!(
        resume(&mut state, Some(ResumePhase::GitOperations), false, 21).unwrap(),
        ReleaseStep::Advance(ReleasePhase::Publishing)
    );
    assert_eq!(
        resume(&mut state, Some(ResumePhase::Publishing), false, 22).unwrap(),
        ReleaseStep::PublishPackages
    );
    assert_eq!(resume(&mut state, None, false, 23).unwrap(), ReleaseStep::PublishPackages);
    assert_eq!(state.updated_at, 22);
}

#[test]
fn critical_error_blocks_resume() {
    let mut state = at_publishing();
    let network = ReleaseError::Publish(PublishError::NetworkError { reason: "down".to_string() });
    state.record_error(&network, "network down".to_string(), 30);
    assert!(!state.has_critical_errors());
    assert!(state.is_resumable());
    let fatal = ReleaseError::Git(GitError::NotRepository);
    state.record_error(&fatal, "no repository".to_string(), 31);
    assert_eq!(state.errors.len(), 2);
    assert!(state.errors[0].recoverable);
    assert!(!state.errors[1].recoverable);
    assert_eq!(state.errors[1].phase, ReleasePhase::Publishing);
    assert!(state.has_critical_errors());
    assert!(!state.is_resumable());
    assert!(matches!(resume(&mut state, None, false, 32), Err(StateError::NotResumable { .. })));
    assert_eq!(resume(&mut state, None, true, 33).unwrap(), ReleaseStep::PublishPackages);
}

#[test]
fn rollback_plans_what_the_state_records() {
    let mut state = at_publishing();
    let mut publish_state = PublishState::new(2, 3);
    publish_state.settle(0, PackageStatus::Published { attempts: 1, already_published: false });
    publish_state.settle(2, PackageStatus::Published { attempts: 2, already_published: false });
    publish_state.settle(1, PackageStatus::Failed { attempts: 1, error: PublishError::AuthenticationError });
    state.set_publish_state(publish_state, 40);
    let plan = rollback(&mut state, RollbackScope::Full, false, 41).unwrap();
    assert_eq!(state.current_phase, ReleasePhase::RollingBack);
    assert_eq!(plan.yank_packages, vec![0, 2]);
    assert_eq!(plan.reset_to_commit.as_deref(), Some("abc123"));
    assert_eq!(plan.delete_tag.as_deref(), Some("v1.3.0"));
    assert!(plan.delete_remote_tag);
    assert!(plan.manual_version_revert);
    assert_eq!(next_step(&state), ReleaseStep::Rollback);
    assert!(finish_rollback(&mut state, 42));
    assert_eq!(state.current_phase, ReleasePhase::RolledBack);
    assert_eq!(state.checkpoints.last().unwrap().name, "rollback_completed");
    assert_eq!(state.checkpoints.last().unwrap().phase, ReleasePhase::RolledBack);
}

#[test]
fn rollback_scope_limits_the_plan() {
    let mut state = at_publishing();
    let mut publish_state = PublishState::new(1, 1);
    publish_state.settle(0, PackageStatus::Published { attempts: 1, already_published: false });
    state.set_publish_state(publish_state, 40);
    let plan = rollback(&mut state, RollbackScope::GitOnly, false, 41).unwrap();
    assert!(plan.yank_packages.is_empty());
    assert!(plan.reset_to_commit.is_some());
    let plan = rollback(&mut state, RollbackScope::PackagesOnly, false, 42).unwrap();
    assert_eq!(plan.yank_packages, vec![0]);
    assert!(plan.reset_to_commit.is_none() && plan.delete_tag.is_none());
    assert!(!plan.delete_remote_tag);
    assert_eq!(RollbackScope::from_flags(true, false).unwrap(), RollbackScope::GitOnly);
    assert_eq!(RollbackScope::from_flags(false, true).unwrap(), RollbackScope::PackagesOnly);
    assert_eq!(RollbackScope::from_flags(false, false).unwrap(), RollbackScope::Full);
    match RollbackScope::from_flags(true, true) {
        Err(cyrup_release::error::CliError::ConflictingArguments { arguments }) => {
            assert_eq!(arguments, vec!["--git-only".to_string(), "--packages-only".to_string()])
        }
        other => panic!("unexpected {:?}", other),
    }
}

#[test]
fn rollback_before_anything_was_done_plans_nothing() {
    let mut state = fresh(1);
    let plan = rollback(&mut state, RollbackScope::Full, false, 2).unwrap();
    assert!(plan.yank_packages.is_empty());
    assert!(plan.reset_to_commit.is_none() && plan.delete_tag.is_none());
    assert!(!plan.manual_version_revert);
    assert_eq!(state.current_phase, ReleasePhase::RollingBack);
}

#[test]
fn rollback_twice_does_nothing_the_second_time() {
    let mut state = at_publishing();
    rollback(&mut state, RollbackScope::Full, false, 50).unwrap();
    assert!(finish_rollback(&mut state, 51));
    let checkpoints = state.checkpoints.len();
    let updated = state.updated_at;
    for now in [60, 61] {
        let plan = rollback(&mut state, RollbackScope::Full, false, now).unwrap();
        assert!(plan.yank_packages.is_empty());
        assert!(plan.reset_to_commit.is_none());
        assert!(plan.delete_tag.is_none());
        assert!(!plan.delete_remote_tag);
        assert!(!plan.manual_version_revert);
        assert!(!finish_rollback(&mut state, now));
        assert_eq!(state.current_phase, ReleasePhase::RolledBack);
        assert_eq!(state.checkpoints.len(), checkpoints);
        assert_eq!(state.updated_at, updated);
    }
}

#[test]
fn rollback_of_a_completed_release_needs_force() {
    let mut state = fresh(1);
    for phase in [
        ReleasePhase::VersionUpdate,
        ReleasePhase::GitOperations,
        ReleasePhase::Publishing,
    ] {
        advance(&mut state, phase, 2).unwrap();
        match phase {
            ReleasePhase::VersionUpdate => {
                complete_step(&mut state, StepResult::VersionsUpdated(version_state()), 2);
            }
            ReleasePhase::GitOperations => {
                complete_step(&mut state, StepResult::Committed(git_state()), 2);
            }
            _ => {
                complete_step(&mut state, StepResult::PublishPlanned { tier_count: 0, package_count: 0 }, 2);
            }
        }
    }
    advance(&mut state, ReleasePhase::Cleanup, 3).unwrap();
    advance(&mut state, ReleasePhase::Completed, 4).unwrap();
    match rollback(&mut state, RollbackScope::Full, false, 5) {
        Err(StateError::SaveFailed { reason }) => {
            assert_eq!(reason, "Release completed successfully. Use --force to rollback anyway")
        }
        other => panic!("unexpected {:?}", other),
    }
    assert_eq!(state.current_phase, ReleasePhase::Completed);
    let plan = rollback(&mut state, RollbackScope::Full, true, 6).unwrap();
    assert_eq!(state.current_phase, ReleasePhase::RollingBack);
    assert_eq!(plan.delete_tag.as_deref(), Some("v1.3.0"));
}

#[test]
fn yank_report_collects_partial_success() {
    let mut report = RollbackReport::new();
    assert!(report.fully_successful);
    report.record_yank(0, true);
    report.record_yank(2, false);
    report.record_yank(3, true);
    assert_eq!(report.yanked, vec![0, 3]);
    assert_eq!(report.failed, vec![2]);
    assert!(!report.fully_successful);
}

#[test]
fn store_returns_what_was_saved() {
    let mut store = StateStore::new();
    store.save_state(at_publishing());
    let loaded = store.load_state().unwrap();
    assert!(!loaded.recovered_from_backup);
    let state = loaded.state;
    assert_eq!(state.release_id, "rel-1");
    assert_eq!(state.current_phase, ReleasePhase::Publishing);
    assert_eq!(state.checkpoints.len(), 6);
    assert_eq!(state.updated_at, 16);
    assert_eq!(state.git_state.as_ref().unwrap().release_tag.as_deref(), Some("v1.3.0"));
    assert_eq!(state.publish_state.as_ref().unwrap().status.len(), 2);
}

#[test]
fn store_recovers_from_backup_when_primary_is_damaged() {
    let mut store = StateStore::new();
    store.save_state(fresh(7));
    assert!(store.create_backup());
    store.corrupt_primary();
    let loaded = store.load_state().unwrap();
    assert!(loaded.recovered_from_backup);
    assert_eq!(loaded.state.started_at, 7);
    assert_eq!(loaded.state.release_id, "rel-1");
}

#[test]
fn store_fails_when_both_slots_are_unreadable() {
    let mut store = StateStore::new();
    assert!(matches!(store.load_state(), Err(StateError::NotFound)));
    assert!(!store.create_backup());
    store.corrupt_primary();
    assert!(matches!(store.load_state(), Err(StateError::Corrupted { .. })));
    let store = StateStore::with_slots(
        Some(StoredRecord::Unreadable),
        Some(StoredRecord::Unreadable),
    );
    assert!(matches!(store.load_state(), Err(StateError::Corrupted { .. })));
}

#[test]
fn store_rejects_another_schema_version() {
    let store = StateStore::with_slots(
        Some(StoredRecord::Document { schema_version: SCHEMA_VERSION + 1, state: fresh(1) }),
        None,
    );
    match store.load_state() {
        Err(StateError::VersionMismatch { expected, found }) => {
            assert_eq!(expected, "1");
            assert_eq!(found, "2");
        }
        other => panic!("unexpected {:?}", other.map(|l| l.recovered_from_backup)),
    }
    let store = StateStore::with_slots(
        Some(StoredRecord::Document { schema_version: 9, state: fresh(1) }),
        Some(StoredRecord::Document { schema_version: SCHEMA_VERSION, state: fresh(2) }),
    );
    let loaded = store.load_state().unwrap();
    assert!(loaded.recovered_from_backup);
    assert_eq!(loaded.state.started_at, 2);
    // A backup of another schema version is not used.
    let store = StateStore::with_slots(
        Some(StoredRecord::Unreadable),
        Some(StoredRecord::Document { schema_version: 0, state: fresh(2) }),
    );
    assert!(matches!(store.load_state(), Err(StateError::Corrupted { .. })));
}

#[test]
fn active_release_from_start_to_cleanup() {
    let mut store = StateStore::new();
    assert!(!store.has_active_release());
    let state = start(
        store.has_active_release(),
        None,
        "rel-9".to_string(),
        Version::new(2, 0, 0),
        VersionBump::Major,
        config(),
        1,
    )
    .unwrap();
    store.save_state(state);
    assert!(store.has_active_release());
    // A second release cannot start meanwhile.
    assert!(start(
        store.has_active_release(),
        None,
        "rel-10".to_string(),
        Version::new(2, 0, 1),
        VersionBump::Patch,
        config(),
        2
    )
    .is_err());
    assert!(store.create_backup());
    assert!(store.has_active_release());
    store.cleanup_state(false);
    assert!(!store.has_active_release());
    assert!(matches!(store.load_state(), Err(StateError::NotFound)));
    store.cleanup_state(true);
    assert!(!store.has_active_release());
}

#[test]
fn cleanup_and_exit_code_decisions() {
    assert!(cleanup_due(true, false, false));
    assert!(cleanup_due(false, true, false));
    assert!(cleanup_due(false, false, true));
    assert!(!cleanup_due(false, false, false));
    assert_eq!(exit_code(&Ok(())), 0);
    assert_eq!(exit_code(&Err(ReleaseError::State(StateError::NotFound))), 1);
}

#[test]
fn phases_have_successors_and_labels() {
    assert_eq!(ReleasePhase::Validation.next(), Some(ReleasePhase::VersionUpdate));
    assert_eq!(ReleasePhase::Cleanup.next(), Some(ReleasePhase::Completed));
    assert_eq!(ReleasePhase::Completed.next(), None);
    assert_eq!(ReleasePhase::RollingBack.next(), None);
    assert!(ReleasePhase::RolledBack.is_terminal());
    assert!(ReleasePhase::Completed.is_terminal());
    assert!(!ReleasePhase::RollingBack.is_terminal());
    assert_eq!(ReleasePhase::GitOperations.name(), "git_operations");
    assert_eq!(ResumePhase::Publishing.to_phase(), ReleasePhase::Publishing);
}

#[test]
fn a_publish_run_that_was_broken_off_is_due_again() {
    let mut state = at_publishing();
    let mut partial = PublishState::new(2, 2);
    partial.settle(0, PackageStatus::Published { attempts: 1, already_published: false });
    assert!(complete_step(&mut state, StepResult::PackagesPublished(partial), 20));
    let last = state.checkpoints.last().unwrap();
    assert_eq!(last.name, "publishing_complete");
    assert!(!last.completed);
    assert_eq!(last.timestamp, 20);
    assert!(state.is_resumable());
    assert_eq!(next_step(&state), ReleaseStep::PublishPackages);
    assert_eq!(resume(&mut state, None, false, 21).unwrap(), ReleaseStep::PublishPackages);
    assert!(state.publish_state.as_ref().unwrap().published(0));
}

#[test]
fn bookkeeping_that_loses_a_published_package_is_set_aside() {
    let mut state = at_publishing();
    let mut first = PublishState::new(2, 2);
    first.settle(0, PackageStatus::Published { attempts: 2, already_published: false });
    assert!(complete_step(&mut state, StepResult::PackagesPublished(first), 20));
    let checkpoints = state.checkpoints.len();

    // Package 0 is missing, recorded otherwise, or out of range: all are set aside.
    let forgetful = PublishState::new(2, 2);
    assert!(!forgetful.is_continuation_of(state.publish_state.as_ref().unwrap()));
    assert!(!complete_step(&mut state, StepResult::PackagesPublished(forgetful), 21));
    let mut altered = PublishState::new(2, 2);
    altered.settle(0, PackageStatus::Published { attempts: 1, already_published: false });
    assert!(!complete_step(&mut state, StepResult::PackagesPublished(altered), 21));
    let mut failed = PublishState::new(2, 2);
    failed.settle(0, PackageStatus::Failed { attempts: 1, error: PublishError::AuthenticationError });
    assert!(!complete_step(&mut state, StepResult::PackagesPublished(failed), 21));
    assert!(!complete_step(&mut state, StepResult::PackagesPublished(PublishState::new(2, 0)), 21));
    assert_eq!(state.checkpoints.len(), checkpoints);
    assert_eq!(state.updated_at, 20);
    assert!(state.publish_state.as_ref().unwrap().published(0));

    let mut second = PublishState::new(2, 2);
    second.settle(0, PackageStatus::Published { attempts: 2, already_published: false });
    second.settle(1, PackageStatus::Published { attempts: 1, already_published: true });
    assert!(second.is_continuation_of(state.publish_state.as_ref().unwrap()));
    assert!(complete_step(&mut state, StepResult::PackagesPublished(second), 22));
    assert!(state.checkpoints.last().unwrap().completed);
    assert_eq!(next_step(&state), ReleaseStep::Advance(ReleasePhase::Cleanup));
}

/// A release with every phase's work done, standing at `Cleanup`.
fn at_cleanup() -> ReleaseState {
    let mut state = at_publishing();
    let mut done = PublishState::new(2, 2);
    done.settle(0, PackageStatus::Published { attempts: 1, already_published: false });
    done.settle(1, PackageStatus::Published { attempts: 1, already_published: false });
    assert!(complete_step(&mut state, StepResult::PackagesPublished(done), 17));
    advance(&mut state, ReleasePhase::Cleanup, 18).unwrap();
    state
}

#[test]
fn resume_at_cleanup_goes_on_to_completion() {
    let mut state = at_cleanup();
    assert!(state.is_resumable());
    let checkpoints = state.checkpoints.len();
    assert_eq!(
        resume(&mut state, None, false, 30).unwrap(),
        ReleaseStep::Advance(ReleasePhase::Completed)
    );
    assert_eq!(state.current_phase, ReleasePhase::Cleanup);
    assert_eq!(state.checkpoints.len(), checkpoints);
    assert_eq!(state.updated_at, 18);
}

#[test]
fn resume_while_rolling_back_continues_the_rollback() {
    let mut state = at_publishing();
    rollback(&mut state, RollbackScope::Full, false, 40).unwrap();
    assert_eq!(state.current_phase, ReleasePhase::RollingBack);
    assert!(state.is_resumable());
    assert_eq!(resume(&mut state, None, false, 41).unwrap(), ReleaseStep::Rollback);
    assert_eq!(state.updated_at, 40);
}

#[test]
fn resume_is_refused_exactly_when_the_release_is_not_resumable() {
    let phases = [
        ReleasePhase::Validation,
        ReleasePhase::VersionUpdate,
        ReleasePhase::GitOperations,
        ReleasePhase::Publishing,
        ReleasePhase::Cleanup,
        ReleasePhase::Completed,
        ReleasePhase::RollingBack,
        ReleasePhase::RolledBack,
    ];
    for phase in phases {
        for fatal in [false, true] {
            let mut state = fresh(1);
            state.set_phase(phase, 2);
            if fatal {
                let error = ReleaseError::Workspace(WorkspaceError::InvalidStructure {
                    reason: "broken".to_string(),
                });
                state.record_error(&error, "broken".to_string(), 3);
            }
            let resumable = state.is_resumable();
            assert_eq!(resumable, !phase.is_terminal() && !fatal);
            let result = resume(&mut state, None, false, 4);
            assert_eq!(result.is_ok(), resumable, "{:?} fatal {}", phase, fatal);
            if !resumable {
                assert!(matches!(result, Err(StateError::NotResumable { .. })));
            }
        }
    }
}

#[test]
fn forced_resume_of_a_rolled_back_release_names_the_phase() {
    let mut state = fresh(1);
    rollback(&mut state, RollbackScope::Full, false, 2).unwrap();
    assert!(finish_rollback(&mut state, 3));
    match resume(&mut state, None, true, 4) {
        Err(StateError::Corrupted { reason }) => {
            assert_eq!(reason, "Cannot resume from phase: RolledBack")
        }
        other => panic!("unexpected {:?}", other),
    }
}

#[test]
fn a_failed_validation_blocks_resume_once_recorded() {
    let mut state = fresh(1);
    let bad = ValidationReport { success: false, critical_errors: vec![], warnings: vec![] };
    let error = validation_verdict(&bad).unwrap_err();
    assert!(!error.is_recoverable());
    state.record_error(&error, "validation failed".to_string(), 2);
    assert!(state.has_critical_errors());
    assert!(matches!(resume(&mut state, None, false, 3), Err(StateError::NotResumable { .. })));
}

#[test]
fn no_release_starts_while_another_is_active() {
    assert!(refuse_if_active(false).is_ok());
    match refuse_if_active(true) {
        Err(ReleaseError::State(StateError::SaveFailed { reason })) => {
            assert_eq!(reason, "Another release is in progress. Use 'resume' or 'cleanup' first")
        }
        other => panic!("unexpected {:?}", other),
    }
}

fn named(names: &[&str]) -> WorkspaceInfo {
    WorkspaceInfo {
        packages: names
            .iter()
            .map(|n| PackageInfo { name: n.to_string(), dependencies: vec![] })
            .collect(),
    }
}

#[test]
fn workspace_validation_finds_what_rules_a_release_out() {
    let report = validate_workspace(&named(&["a", "b", "c"]));
    assert!(report.success);
    assert!(report.critical_errors.is_empty() && report.warnings.is_empty());

    let report = validate_workspace(&named(&[]));
    assert!(!report.success);
    assert_eq!(report.critical_errors, vec!["Workspace has no packages".to_string()]);

    let report = validate_workspace(&named(&["a", "b", "a", "c", "b", "a"]));
    assert!(!report.success);
    assert_eq!(
        report.critical_errors,
        vec![
            "Package name 'a' occurs twice".to_string(),
            "Package name 'b' occurs twice".to_string(),
            "Package name 'a' occurs twice".to_string(),
        ]
    );
    assert!(validation_verdict(&report).is_err());
}
