use cyrup_release::error::{
    CliError, GitError, PublishError, ReleaseError, StateError, VersionError, WorkspaceError,
};
use cyrup_release::git::{
    push_report, release_commit_message, plan_version_tag, validate_release_readiness,
    BranchInfo, CommitInfo, RemoteInfo, ResetType,
};
use cyrup_release::chunk_handler::ChunkHandler;
use cyrup_release::text::{decimal, join};
use cyrup_release::version::{Version, VersionBump};

#[test]
fn unrecoverable_errors() {
    assert!(!ReleaseError::Workspace(WorkspaceError::RootNotFound).is_recoverable());
    assert!(!ReleaseError::Workspace(WorkspaceError::CircularDependency { packages: vec![] })
        .is_recoverable());
    assert!(!ReleaseError::Workspace(WorkspaceError::InvalidStructure { reason: "x".to_string() })
        .is_recoverable());
    assert!(!ReleaseError::Workspace(WorkspaceError::MissingCargoToml {
        path: std::path::PathBuf::from("Cargo.toml")
    })
    .is_recoverable());
    assert!(!ReleaseError::State(StateError::NotResumable { reason: "ended".to_string() })
        .is_recoverable());
    assert!(!ReleaseError::Git(GitError::NotRepository).is_recoverable());
    assert!(!ReleaseError::Version(VersionError::InvalidVersion {
        version: "x".to_string(),
        reason: "y".to_string()
    })
    .is_recoverable());
    assert!(!ReleaseError::Publish(PublishError::AlreadyPublished {
        package: "p".to_string(),
        version: "1.0.0".to_string()
    })
    .is_recoverable());
}

#[test]
fn recoverable_errors() {
    assert!(ReleaseError::Git(GitError::DirtyWorkingDirectory).is_recoverable());
    assert!(ReleaseError::Publish(PublishError::NetworkError { reason: "r".to_string() })
        .is_recoverable());
    assert!(ReleaseError::Publish(PublishError::RateLimitExceeded { retry_after_seconds: 3 })
        .is_recoverable());
    assert!(ReleaseError::State(StateError::NotFound).is_recoverable());
    assert!(ReleaseError::Cli(CliError::MissingArgument { argument: "a".to_string() })
        .is_recoverable());
    assert!(ReleaseError::Workspace(WorkspaceError::PackageNotFound { name: "n".to_string() })
        .is_recoverable());
    assert!(ReleaseError::Workspace(WorkspaceError::InvalidPackage {
        package: "p".to_string(),
        reason: "r".to_string()
    })
    .is_recoverable());
    assert!(ReleaseError::State(StateError::LoadFailed { reason: "r".to_string() })
        .is_recoverable());
    let json = serde_json::from_str::<serde_json::Value>("{").unwrap_err();
    assert!(ReleaseError::Json(json).is_recoverable());
    let io = std::io::Error::new(std::io::ErrorKind::Other, "disk");
    assert!(ReleaseError::Io(io).is_recoverable());
    let toml = toml::from_str::<toml::Value>("= broken").unwrap_err();
    assert!(ReleaseError::Toml(toml).is_recoverable());
    let edit = "= broken".parse::<toml_edit::DocumentMut>().unwrap_err();
    assert_eq!(
        ReleaseError::TomlEdit(edit).recovery_suggestions(),
        vec!["Check the error message above for specific details".to_string()]
    );
}

#[test]
fn transient_publish_errors() {
    assert!(PublishError::NetworkError { reason: "r".to_string() }.transient());
    assert!(PublishError::RateLimitExceeded { retry_after_seconds: 1 }.transient());
    assert!(!PublishError::AuthenticationError.transient());
    assert!(!PublishError::PublishFailed { package: "p".to_string(), reason: "r".to_string() }
        .transient());
    assert!(!PublishError::AlreadyPublished { package: "p".to_string(), version: "v".to_string() }
        .transient());
}

#[test]
fn suggestions_for_a_cycle_name_its_packages() {
    let e = ReleaseError::Workspace(WorkspaceError::CircularDependency {
        packages: vec!["a".to_string(), "b".to_string(), "c".to_string()],
    });
    assert_eq!(
        e.recovery_suggestions(),
        vec![
            "Review dependencies between packages: a, b, c".to_string(),
            "Remove circular dependencies by restructuring package relationships".to_string(),
        ]
    );
}

#[test]
fn suggestions_for_a_rate_limit_give_the_wait() {
    let e = ReleaseError::Publish(PublishError::RateLimitExceeded { retry_after_seconds: 120 });
    assert_eq!(
        e.recovery_suggestions(),
        vec![
            "Wait 120 seconds before retrying".to_string(),
            "Use --publish-interval to add delays between packages".to_string(),
        ]
    );
    let e = ReleaseError::Publish(PublishError::RateLimitExceeded { retry_after_seconds: 0 });
    assert_eq!(e.recovery_suggestions()[0], "Wait 0 seconds before retrying");
}

#[test]
fn suggestions_for_the_other_errors() {
    assert_eq!(
        ReleaseError::Workspace(WorkspaceError::RootNotFound).recovery_suggestions(),
        vec![
            "Navigate to a directory containing a Cargo workspace".to_string(),
            "Ensure you have a Cargo.toml file with [workspace] section".to_string(),
        ]
    );
    assert_eq!(
        ReleaseError::Git(GitError::DirtyWorkingDirectory).recovery_suggestions(),
        vec![
            "Commit pending changes: git add . && git commit -m 'message'".to_string(),
            "Stash changes temporarily: git stash".to_string(),
            "Reset working directory: git reset --hard HEAD".to_string(),
        ]
    );
    assert_eq!(
        ReleaseError::Git(GitError::AuthenticationFailed { reason: "r".to_string() })
            .recovery_suggestions(),
        vec![
            "Check SSH key configuration: ssh -T git@github.com".to_string(),
            "Verify git remote URL: git remote -v".to_string(),
            "Regenerate SSH keys if needed".to_string(),
        ]
    );
    assert_eq!(
        ReleaseError::Publish(PublishError::AuthenticationError).recovery_suggestions(),
        vec![
            "Login to crates.io: cargo login".to_string(),
            "Verify API token is valid and has publish permissions".to_string(),
        ]
    );
    assert_eq!(
        ReleaseError::State(StateError::NotFound).recovery_suggestions(),
        vec!["Check the error message above for specific details".to_string()]
    );
}

#[test]
fn join_puts_the_separator_between_items() {
    assert_eq!(join(&vec![], ", "), "");
    assert_eq!(join(&vec!["one".to_string()], ", "), "one");
    assert_eq!(join(&vec!["x".to_string(), "".to_string(), "z".to_string()], "-"), "x--z");
}

#[test]
fn version_parses_and_prints() {
    let v = Version::parse("1.2.3").unwrap();
    assert_eq!((v.major, v.minor, v.patch), (1, 2, 3));
    assert!(v.pre.is_empty() && v.build.is_empty());
    assert_eq!(v.to_text(), "1.2.3");
    assert_eq!(v.tag_name(), "v1.2.3");

    let v = Version::parse("10.0.7-rc.1+build.5").unwrap();
    assert_eq!((v.major, v.minor, v.patch), (10, 0, 7));
    assert_eq!(v.pre, "rc.1");
    assert_eq!(v.build, "build.5");
    assert_eq!(v.to_text(), "10.0.7-rc.1+build.5");
    assert_eq!(v.to_text(), semver::Version::parse("10.0.7-rc.1+build.5").unwrap().to_string());

    let v = Version::parse("0.0.0+meta").unwrap();
    assert_eq!(v.to_text(), "0.0.0+meta");
    let copy = v.duplicate();
    assert_eq!(copy.to_text(), "0.0.0+meta");
    assert_eq!(Version::new(18446744073709551615, 0, 1).to_text(), "18446744073709551615.0.1");
}

#[test]
fn version_parse_failure_names_the_text() {
    for text in ["", "1.0", "1.0.01", "1.0.unknown", "1.0.0-", "v1.2.3"] {
        match Version::parse(text) {
            Err(VersionError::ParseFailed { version, .. }) => assert_eq!(version, text),
            other => panic!("{:?} should not parse: {:?}", text, other),
        }
    }
}

#[test]
fn parse_result_is_passed_on() {
    let failure = semver::Version::parse("nope").unwrap_err();
    let shown = failure.to_string();
    match Version::from_parse_result("nope", Err(failure)) {
        Err(VersionError::ParseFailed { version, source }) => {
            assert_eq!(version, "nope");
            assert_eq!(source.to_string(), shown);
        }
        other => panic!("unexpected {:?}", other),
    }
    let v = Version::from_parse_result("ignored", Ok(Version::new(3, 2, 1))).unwrap();
    assert_eq!(v.to_text(), "3.2.1");
}

#[test]
fn commit_and_tag_messages() {
    let v = Version::new(2, 1, 0);
    assert_eq!(release_commit_message(&v, None), "release: v2.1.0");
    assert_eq!(release_commit_message(&v, Some("custom".to_string())), "custom");
    let tag = plan_version_tag(&v, None, false, "abc".to_string(), 99).unwrap();
    assert_eq!(tag.name, "v2.1.0");
    assert_eq!(tag.message.as_deref(), Some("Release v2.1.0"));
    assert_eq!(tag.target_commit, "abc");
    assert_eq!(tag.timestamp, 99);
    assert!(tag.is_annotated);
    let tag = plan_version_tag(&v, Some("notes".to_string()), false, "abc".to_string(), 1).unwrap();
    assert_eq!(tag.message.as_deref(), Some("notes"));
    match plan_version_tag(&v, None, true, "abc".to_string(), 1) {
        Err(GitError::TagExists { tag }) => assert_eq!(tag, "v2.1.0"),
        other => panic!("unexpected {:?}", other),
    }
}

#[test]
fn reset_plans() {
    let soft = ResetType::Soft.plan();
    assert!(soft.move_head && !soft.reset_index && !soft.reset_working_directory);
    let mixed = ResetType::Mixed.plan();
    assert!(mixed.move_head && mixed.reset_index && !mixed.reset_working_directory);
    let hard = ResetType::Hard.plan();
    assert!(hard.move_head && hard.reset_index && hard.reset_working_directory);
}

#[test]
fn push_reports() {
    let info = push_report(None, Ok(()), Ok(1), true, Ok(2)).unwrap();
    assert_eq!(info.remote_name, "origin");
    assert_eq!((info.commits_pushed, info.tags_pushed), (1, 2));
    assert!(info.warnings.is_empty());

    let info = push_report(Some("upstream"), Ok(()), Ok(3), true, Err("denied".to_string())).unwrap();
    assert_eq!(info.remote_name, "upstream");
    assert_eq!((info.commits_pushed, info.tags_pushed), (3, 0));
    assert_eq!(info.warnings, vec!["Failed to push tags: denied".to_string()]);

    let info = push_report(None, Ok(()), Ok(3), false, Err("not asked".to_string())).unwrap();
    assert_eq!(info.tags_pushed, 0);
    assert!(info.warnings.is_empty());
    let info = push_report(None, Ok(()), Ok(3), false, Ok(5)).unwrap();
    assert_eq!(info.tags_pushed, 0);

    match push_report(None, Ok(()), Err("timeout".to_string()), true, Ok(1)) {
        Err(GitError::PushFailed { reason }) => {
            assert_eq!(reason, "Failed to push commits: timeout")
        }
        other => panic!("unexpected {:?}", other),
    }
}

#[test]
fn readiness_of_a_clean_repository() {
    let branch = Ok(BranchInfo::current(Some("main".to_string()), "abc".to_string()));
    let v = validate_release_readiness(true, &branch, &Ok(1));
    assert!(v.is_ready);
    assert!(v.blocking_issues.is_empty());
    assert!(v.warnings.is_empty());
    assert_eq!(v.status_summary, "Repository ready for release");
}

#[test]
fn readiness_with_issues_and_warnings() {
    let detached = Ok(BranchInfo::current(None, "abc".to_string()));
    let v = validate_release_readiness(false, &detached, &Ok(0));
    assert!(!v.is_ready);
    assert_eq!(v.blocking_issues, vec!["Working directory has uncommitted changes".to_string()]);
    assert_eq!(
        v.warnings,
        vec!["Currently in detached HEAD state".to_string(), "No remotes configured".to_string()]
    );
    assert_eq!(v.status_summary, "1 issues prevent release");

    let v = validate_release_readiness(
        false,
        &Err("no head".to_string()),
        &Err("unreadable".to_string()),
    );
    assert_eq!(
        v.blocking_issues,
        vec![
            "Working directory has uncommitted changes".to_string(),
            "Failed to get current branch: no head".to_string(),
        ]
    );
    assert_eq!(v.warnings, vec!["Failed to check remotes".to_string()]);
    assert_eq!(v.status_summary, "2 issues prevent release");
    assert!(!v.is_ready);
}

#[test]
fn records_take_their_defaults() {
    let b = BranchInfo::current(None, "abc".to_string());
    assert_eq!(b.name, "detached HEAD");
    assert!(b.is_current);
    assert!(b.upstream.is_none() && b.ahead_count.is_none() && b.behind_count.is_none());
    let r = RemoteInfo::describe("origin".to_string(), None, None);
    assert_eq!((r.fetch_url.as_str(), r.push_url.as_str()), ("unknown", "unknown"));
    let r = RemoteInfo::describe("origin".to_string(), Some("https://f".to_string()), None);
    assert_eq!((r.fetch_url.as_str(), r.push_url.as_str()), ("https://f", "https://f"));
    let r = RemoteInfo::describe(
        "origin".to_string(),
        Some("https://f".to_string()),
        Some("ssh://p".to_string()),
    );
    assert_eq!(r.push_url, "ssh://p");
    assert!(r.is_reachable);
    let c = CommitInfo::from_parts(
        "h".to_string(),
        "s".to_string(),
        None,
        "n".to_string(),
        "e".to_string(),
        5,
        vec!["p".to_string()],
    );
    assert_eq!(c.message, "No commit message");
    assert_eq!(c.parents, vec!["p".to_string()]);
}

fn classify(fatal: bool) -> Result<(), ReleaseError> {
    if fatal {
        Err(GitError::NotRepository)?;
    }
    Err(StateError::NotFound)?;
    Ok(())
}

#[test]
fn errors_convert_into_release_errors() {
    assert!(matches!(
        ReleaseError::from(WorkspaceError::RootNotFound),
        ReleaseError::Workspace(WorkspaceError::RootNotFound)
    ));
    assert!(matches!(
        ReleaseError::from(PublishError::AuthenticationError),
        ReleaseError::Publish(PublishError::AuthenticationError)
    ));
    assert!(matches!(
        ReleaseError::from(CliError::MissingArgument { argument: "a".to_string() }),
        ReleaseError::Cli(CliError::MissingArgument { .. })
    ));
    let parse = semver::Version::parse("x").unwrap_err();
    let version = VersionError::ParseFailed { version: "x".to_string(), source: parse };
    assert!(matches!(ReleaseError::from(version), ReleaseError::Version(_)));
    let io: ReleaseError = std::io::Error::new(std::io::ErrorKind::NotFound, "gone").into();
    assert!(matches!(io, ReleaseError::Io(_)));
    assert!(!classify(true).unwrap_err().is_recoverable());
    assert!(matches!(classify(false), Err(ReleaseError::State(StateError::NotFound))));
}

#[test]
fn bumps_raise_one_number_and_clear_what_follows() {
    let v = Version::parse("1.4.7-rc.2+build").unwrap();
    assert_eq!(v.bump(VersionBump::Major).unwrap().to_text(), "2.0.0");
    assert_eq!(v.bump(VersionBump::Minor).unwrap().to_text(), "1.5.0");
    assert_eq!(v.bump(VersionBump::Patch).unwrap().to_text(), "1.4.8");
    match v.bump(VersionBump::Exact) {
        Err(VersionError::UnsupportedBump { bump, version }) => {
            assert_eq!(bump, "exact");
            assert_eq!(version, "1.4.7-rc.2+build");
        }
        other => panic!("unexpected {:?}", other),
    }
    let top = Version::new(u64::MAX, u64::MAX, 3);
    assert!(matches!(top.bump(VersionBump::Major), Err(VersionError::UnsupportedBump { .. })));
    assert!(matches!(top.bump(VersionBump::Minor), Err(VersionError::UnsupportedBump { .. })));
    assert_eq!(top.bump(VersionBump::Patch).unwrap().patch, 4);
    assert_eq!(VersionBump::Minor.name(), "minor");
}

#[test]
fn push_to_an_unknown_remote_fails_before_anything_is_pushed() {
    match push_report(Some("mirror"), Err("no such remote".to_string()), Ok(1), true, Ok(1)) {
        Err(GitError::RemoteOperationFailed { operation, reason }) => {
            assert_eq!(operation, "find remote");
            assert_eq!(reason, "Remote 'mirror' not found: no such remote");
        }
        other => panic!("unexpected {:?}", other),
    }
    match push_report(None, Err("gone".to_string()), Err("x".to_string()), false, Ok(0)) {
        Err(GitError::RemoteOperationFailed { reason, .. }) => {
            assert_eq!(reason, "Remote 'origin' not found: gone")
        }
        other => panic!("unexpected {:?}", other),
    }
}

#[test]
fn decimal_numerals() {
    assert_eq!(decimal(0), "0");
    assert_eq!(decimal(7), "7");
    assert_eq!(decimal(10), "10");
    assert_eq!(decimal(9081726354), "9081726354");
    assert_eq!(decimal(u64::MAX), "18446744073709551615");
    for n in [1u64, 99, 100, 101, 4096, 1_000_000_007] {
        assert_eq!(decimal(n), n.to_string());
    }
}

struct Upper {
    chunk: Option<Box<dyn Fn(String) -> String + Send + Sync>>,
    error: Option<Box<dyn Fn(String) -> String + Send + Sync>>,
}

impl ChunkHandler<String> for Upper {
    fn on_chunk<F>(mut self, handler: F) -> Self
    where
        F: Fn(String) -> String + Send + Sync + 'static,
    {
        self.chunk = Some(Box::new(handler));
        self
    }

    fn on_error<F>(mut self, handler: F) -> Self
    where
        F: Fn(String) -> String + Send + Sync + 'static,
    {
        self.error = Some(Box::new(handler));
        self
    }
}

#[test]
fn a_builder_keeps_its_handlers() {
    let builder = Upper { chunk: None, error: None }
        .on_chunk(|chunk| chunk.to_uppercase())
        .on_error(|message| format!("failed: {}", message));
    assert_eq!((builder.chunk.unwrap())("abc".to_string()), "ABC");
    assert_eq!((builder.error.unwrap())("x".to_string()), "failed: x");
}

#[test]
fn pre_release_bumps_move_the_tag_on() {
    for (from, to) in [
        ("1.2.3", "1.2.4-0"),
        ("1.2.4-0", "1.2.4-1"),
        ("1.4.7-rc.2+build", "1.4.7-rc.3"),
        ("1.0.0-rc.9", "1.0.0-rc.10"),
        ("1.0.0-rc.009", "1.0.0-rc.10"),
        ("1.0.0-alpha", "1.0.0-alpha.0"),
        ("1.0.0-alpha.beta", "1.0.0-alpha.beta.0"),
        ("2.0.0-x.7.z.41", "2.0.0-x.7.z.42"),
        ("1.0.0-beta.99999999999999999999", "1.0.0-beta.99999999999999999999.0"),
    ] {
        let next = match Version::parse(from) {
            Ok(v) => v.bump(VersionBump::Prerelease).unwrap(),
            // Not every text here is a version to the parser; the tag is moved on all the same.
            Err(_) => {
                let (numbers, tag) = from.split_once('-').unwrap();
                let mut parts = numbers.split('.').map(|n| n.parse::<u64>().unwrap());
                let mut v = Version::new(
                    parts.next().unwrap(),
                    parts.next().unwrap(),
                    parts.next().unwrap(),
                );
                v.pre = tag.to_string();
                v.bump(VersionBump::Prerelease).unwrap()
            }
        };
        assert_eq!(next.to_text(), to, "from {}", from);
        assert!(next.build.is_empty());
        if let (Ok(old), Ok(new)) = (semver::Version::parse(from), semver::Version::parse(to)) {
            assert!(new > old, "{} should follow {}", to, from);
        }
    }
    let mut odd = Version::new(1, 0, 0);
    odd.pre = "rc.".to_string();
    assert_eq!(odd.bump(VersionBump::Prerelease).unwrap().to_text(), "1.0.0-rc..0");
}

#[test]
fn pre_release_bump_at_the_limit_is_unsupported() {
    let mut v = Version::new(1, 0, 0);
    v.pre = "rc.18446744073709551615".to_string();
    match v.bump(VersionBump::Prerelease) {
        Err(VersionError::UnsupportedBump { bump, version }) => {
            assert_eq!(bump, "prerelease");
            assert_eq!(version, "1.0.0-rc.18446744073709551615");
        }
        other => panic!("unexpected {:?}", other),
    }
    v.pre = "rc.18446744073709551614".to_string();
    assert_eq!(
        v.bump(VersionBump::Prerelease).unwrap().to_text(),
        "1.0.0-rc.18446744073709551615"
    );
    let top = Version::new(0, 0, u64::MAX);
    assert!(matches!(
        top.bump(VersionBump::Prerelease),
        Err(VersionError::UnsupportedBump { .. })
    ));
}
