//! Error types of the release engine, with recovery advice.

use vstd::prelude::*;
use vstd::string::*;
use crate::text::{decimal, decimal_text, join, joined, texts};

verus! {

/// A path of std, carried through without looking inside.
#[verifier::external_type_specification]
#[verifier::external_body]
pub struct ExPathBuf(std::path::PathBuf);

/// An I/O error of std, carried through without looking inside.
#[verifier::external_type_specification]
#[verifier::external_body]
pub struct ExIoError(std::io::Error);

/// The error of `serde_json`, carried through without looking inside.
#[verifier::external_type_specification]
#[verifier::external_body]
pub struct ExJsonError(serde_json::Error);

/// The parse error of `toml`, carried through without looking inside.
#[verifier::external_type_specification]
#[verifier::external_body]
pub struct ExTomlError(toml::de::Error);

/// The error of `toml_edit`, carried through without looking inside.
#[verifier::external_type_specification]
#[verifier::external_body]
pub struct ExTomlEditError(toml_edit::TomlError);

/// The parse error of `semver`, carried through without looking inside.
#[verifier::external_type_specification]
#[verifier::external_body]
pub struct ExSemverError(semver::Error);

/// Workspace-specific errors.
#[derive(Debug)]
pub enum WorkspaceError {
    /// Workspace root not found.
    RootNotFound,
    /// Invalid workspace structure.
    InvalidStructure { reason: String },
    /// Package not found in workspace.
    PackageNotFound { name: String },
    /// Circular dependency detected; `packages` names the members of one cycle.
    CircularDependency { packages: Vec<String> },
    /// Missing manifest file.
    MissingCargoToml { path: std::path::PathBuf },
    /// Invalid package configuration.
    InvalidPackage { package: String, reason: String },
}

/// Version management errors.
#[derive(Debug)]
pub enum VersionError {
    /// Invalid version format.
    InvalidVersion { version: String, reason: String },
    /// Version parsing failed.
    ParseFailed { version: String, source: semver::Error },
    /// Internal dependency version mismatch.
    DependencyMismatch { dependency: String, expected: String, found: String },
    /// Failed to update a manifest.
    TomlUpdateFailed { path: std::path::PathBuf, reason: String },
    /// Version bump not supported.
    UnsupportedBump { bump: String, version: String },
}

/// Version-control errors.
#[derive(Debug)]
pub enum GitError {
    /// Not a repository.
    NotRepository,
    /// Working directory not clean.
    DirtyWorkingDirectory,
    /// Authentication failed.
    AuthenticationFailed { reason: String },
    /// Remote operation failed.
    RemoteOperationFailed { operation: String, reason: String },
    /// Tag already exists.
    TagExists { tag: String },
    /// Branch operation failed.
    BranchOperationFailed { reason: String },
    /// Commit failed.
    CommitFailed { reason: String },
    /// Push failed.
    PushFailed { reason: String },
}

/// Publishing errors.
#[derive(Debug)]
pub enum PublishError {
    /// Package already published.
    AlreadyPublished { package: String, version: String },
    /// Publish command failed.
    PublishFailed { package: String, reason: String },
    /// Dry run validation failed.
    DryRunFailed { package: String, reason: String },
    /// Rate limit exceeded.
    RateLimitExceeded { retry_after_seconds: u64 },
    /// Network error during publishing.
    NetworkError { reason: String },
    /// Authentication error at the registry.
    AuthenticationError,
    /// Yank operation failed.
    YankFailed { package: String, version: String, reason: String },
}

/// State management errors.
#[derive(Debug)]
pub enum StateError {
    /// State record corrupted.
    Corrupted { reason: String },
    /// State record not found.
    NotFound,
    /// State schema version mismatch.
    VersionMismatch { expected: String, found: String },
    /// Failed to save state.
    SaveFailed { reason: String },
    /// Failed to load state.
    LoadFailed { reason: String },
    /// The release has ended or met an error that rules a continuation out.
    NotResumable { reason: String },
}

/// Command-line errors.
#[derive(Debug)]
pub enum CliError {
    /// Invalid command line arguments.
    InvalidArguments { reason: String },
    /// Missing required argument.
    MissingArgument { argument: String },
    /// Conflicting arguments.
    ConflictingArguments { arguments: Vec<String> },
    /// Command execution failed.
    ExecutionFailed { command: String, reason: String },
}

/// Main error type for all release operations.
#[derive(Debug)]
pub enum ReleaseError {
    /// Workspace analysis errors.
    Workspace(WorkspaceError),
    /// Version management errors.
    Version(VersionError),
    /// Version-control errors.
    Git(GitError),
    /// Publishing errors.
    Publish(PublishError),
    /// State management errors.
    State(StateError),
    /// Command-line errors.
    Cli(CliError),
    /// I/O errors.
    Io(std::io::Error),
    /// JSON serialization errors.
    Json(serde_json::Error),
    /// TOML parsing errors.
    Toml(toml::de::Error),
    /// TOML editing errors.
    TomlEdit(toml_edit::TomlError),
}

impl PublishError {
    /// A publish attempt that failed this way is worth repeating: the
    /// network failed, or the registry asked to slow down.
    pub open spec fn is_transient(self) -> bool {
        self is NetworkError || self is RateLimitExceeded
    }

    /// Computes [`PublishError::is_transient`].
    pub fn transient(&self) -> (r: bool)
        ensures
            r == self.is_transient(),
    {
        match self {
            PublishError::NetworkError { .. } => true,
            PublishError::RateLimitExceeded { .. } => true,
            _ => false,
        }
    }
}

impl ReleaseError {
    /// Whether a release that met this error can be continued. It cannot
    /// after a workspace without root, with an invalid structure, a missing
    /// manifest or a dependency cycle; outside a repository; with an invalid
    /// version; on a package that is published already; nor once the release
    /// was found not resumable.
    pub open spec fn recoverable(self) -> bool {
        !(self matches ReleaseError::Workspace(WorkspaceError::RootNotFound)
            || self matches ReleaseError::Workspace(WorkspaceError::InvalidStructure { .. })
            || self matches ReleaseError::Workspace(WorkspaceError::MissingCargoToml { .. })
            || self matches ReleaseError::Workspace(WorkspaceError::CircularDependency { .. })
            || self matches ReleaseError::State(StateError::NotResumable { .. })
            || self matches ReleaseError::Git(GitError::NotRepository)
            || self matches ReleaseError::Version(VersionError::InvalidVersion { .. })
            || self matches ReleaseError::Publish(PublishError::AlreadyPublished { .. }))
    }

    /// The advice given for this error, one text per suggestion.
    pub open spec fn suggestions(self) -> Seq<Seq<char>> {
        match self {
            ReleaseError::Workspace(WorkspaceError::RootNotFound) => seq![
                "Navigate to a directory containing a Cargo workspace"@,
                "Ensure you have a Cargo.toml file with [workspace] section"@,
            ],
            ReleaseError::Workspace(WorkspaceError::CircularDependency { packages }) => seq![
                "Review dependencies between packages: "@ + joined(
                    texts(packages@),
                    ", "@,
                    packages@.len(),
                ),
                "Remove circular dependencies by restructuring package relationships"@,
            ],
            ReleaseError::Git(GitError::DirtyWorkingDirectory) => seq![
                "Commit pending changes: git add . && git commit -m 'message'"@,
                "Stash changes temporarily: git stash"@,
                "Reset working directory: git reset --hard HEAD"@,
            ],
            ReleaseError::Git(GitError::AuthenticationFailed { .. }) => seq![
                "Check SSH key configuration: ssh -T git@github.com"@,
                "Verify git remote URL: git remote -v"@,
                "Regenerate SSH keys if needed"@,
            ],
            ReleaseError::Publish(PublishError::AuthenticationError) => seq![
                "Login to crates.io: cargo login"@,
                "Verify API token is valid and has publish permissions"@,
            ],
            ReleaseError::Publish(PublishError::RateLimitExceeded { retry_after_seconds }) => seq![
                "Wait "@ + decimal_text(retry_after_seconds as nat) + " seconds before retrying"@,
                "Use --publish-interval to add delays between packages"@,
            ],
            _ => seq!["Check the error message above for specific details"@],
        }
    }

    /// Get actionable recovery suggestions for this error.
    pub fn recovery_suggestions(&self) -> (list: Vec<String>)
        ensures
            texts(list@) == self.suggestions(),
    {
        let mut list: Vec<String> = Vec::new();
        match self {
            ReleaseError::Workspace(WorkspaceError::RootNotFound) => {
                list.push(String::from_str("Navigate to a directory containing a Cargo workspace"));
                list.push(
                    String::from_str("Ensure you have a Cargo.toml file with [workspace] section"),
                );
            },
            ReleaseError::Workspace(WorkspaceError::CircularDependency { packages }) => {
                let names = join(packages, ", ");
                let first = String::from_str("Review dependencies between packages: ").concat(
                    names.as_str(),
                );
                list.push(first);
                list.push(
                    String::from_str(
                        "Remove circular dependencies by restructuring package relationships",
                    ),
                );
            },
            ReleaseError::Git(GitError::DirtyWorkingDirectory) => {
                list.push(
                    String::from_str("Commit pending changes: git add . && git commit -m 'message'"),
                );
                list.push(String::from_str("Stash changes temporarily: git stash"));
                list.push(String::from_str("Reset working directory: git reset --hard HEAD"));
            },
            ReleaseError::Git(GitError::AuthenticationFailed { .. }) => {
                list.push(String::from_str("Check SSH key configuration: ssh -T git@github.com"));
                list.push(String::from_str("Verify git remote URL: git remote -v"));
                list.push(String::from_str("Regenerate SSH keys if needed"));
            },
            ReleaseError::Publish(PublishError::AuthenticationError) => {
                list.push(String::from_str("Login to crates.io: cargo login"));
                list.push(
                    String::from_str("Verify API token is valid and has publish permissions"),
                );
            },
            ReleaseError::Publish(PublishError::RateLimitExceeded { retry_after_seconds }) => {
                let seconds = decimal(*retry_after_seconds);
                let first = String::from_str("Wait ").concat(seconds.as_str()).concat(
                    " seconds before retrying",
                );
                list.push(first);
                list.push(
                    String::from_str("Use --publish-interval to add delays between packages"),
                );
            },
            _ => {
                list.push(String::from_str("Check the error message above for specific details"));
            },
        }
        assert(texts(list@) =~= self.suggestions());
        list
    }

    /// Check if this error is recoverable.
    pub fn is_recoverable(&self) -> (r: bool)
        ensures
            r == self.recoverable(),
    {
        match self {
            ReleaseError::Workspace(WorkspaceError::RootNotFound) => false,
            ReleaseError::Workspace(WorkspaceError::InvalidStructure { .. }) => false,
            ReleaseError::Workspace(WorkspaceError::MissingCargoToml { .. }) => false,
            ReleaseError::Workspace(WorkspaceError::CircularDependency { .. }) => false,
            ReleaseError::State(StateError::NotResumable { .. }) => false,
            ReleaseError::Git(GitError::NotRepository) => false,
            ReleaseError::Version(VersionError::InvalidVersion { .. }) => false,
            ReleaseError::Publish(PublishError::AlreadyPublished { .. }) => false,
            _ => true,
        }
    }
}

/// A workspace error as a release error.
impl From<WorkspaceError> for ReleaseError {
    fn from(error: WorkspaceError) -> (r: ReleaseError) {
        ReleaseError::Workspace(error)
    }
}

impl vstd::std_specs::convert::FromSpecImpl<WorkspaceError> for ReleaseError {
    open spec fn obeys_from_spec() -> bool {
        true
    }

    open spec fn from_spec(error: WorkspaceError) -> ReleaseError {
        ReleaseError::Workspace(error)
    }
}

/// A version error as a release error.
impl From<VersionError> for ReleaseError {
    fn from(error: VersionError) -> (r: ReleaseError) {
        ReleaseError::Version(error)
    }
}

impl vstd::std_specs::convert::FromSpecImpl<VersionError> for ReleaseError {
    open spec fn obeys_from_spec() -> bool {
        true
    }

    open spec fn from_spec(error: VersionError) -> ReleaseError {
        ReleaseError::Version(error)
    }
}

/// A version-control error as a release error.
impl From<GitError> for ReleaseError {
    fn from(error: GitError) -> (r: ReleaseError) {
        ReleaseError::Git(error)
    }
}

impl vstd::std_specs::convert::FromSpecImpl<GitError> for ReleaseError {
    open spec fn obeys_from_spec() -> bool {
        true
    }

    open spec fn from_spec(error: GitError) -> ReleaseError {
        ReleaseError::Git(error)
    }
}

/// A publish error as a release error.
impl From<PublishError> for ReleaseError {
    fn from(error: PublishError) -> (r: ReleaseError) {
        ReleaseError::Publish(error)
    }
}

impl vstd::std_specs::convert::FromSpecImpl<PublishError> for ReleaseError {
    open spec fn obeys_from_spec() -> bool {
        true
    }

    open spec fn from_spec(error: PublishError) -> ReleaseError {
        ReleaseError::Publish(error)
    }
}

/// A state error as a release error.
impl From<StateError> for ReleaseError {
    fn from(error: StateError) -> (r: ReleaseError) {
        ReleaseError::State(error)
    }
}

impl vstd::std_specs::convert::FromSpecImpl<StateError> for ReleaseError {
    open spec fn obeys_from_spec() -> bool {
        true
    }

    open spec fn from_spec(error: StateError) -> ReleaseError {
        ReleaseError::State(error)
    }
}

/// A command-line error as a release error.
impl From<CliError> for ReleaseError {
    fn from(error: CliError) -> (r: ReleaseError) {
        ReleaseError::Cli(error)
    }
}

impl vstd::std_specs::convert::FromSpecImpl<CliError> for ReleaseError {
    open spec fn obeys_from_spec() -> bool {
        true
    }

    open spec fn from_spec(error: CliError) -> ReleaseError {
        ReleaseError::Cli(error)
    }
}

/// A I/O error as a release error.
impl From<std::io::Error> for ReleaseError {
    fn from(error: std::io::Error) -> (r: ReleaseError) {
        ReleaseError::Io(error)
    }
}

impl vstd::std_specs::convert::FromSpecImpl<std::io::Error> for ReleaseError {
    open spec fn obeys_from_spec() -> bool {
        true
    }

    open spec fn from_spec(error: std::io::Error) -> ReleaseError {
        ReleaseError::Io(error)
    }
}

/// A JSON error as a release error.
impl From<serde_json::Error> for ReleaseError {
    fn from(error: serde_json::Error) -> (r: ReleaseError) {
        ReleaseError::Json(error)
    }
}

impl vstd::std_specs::convert::FromSpecImpl<serde_json::Error> for ReleaseError {
    open spec fn obeys_from_spec() -> bool {
        true
    }

    open spec fn from_spec(error: serde_json::Error) -> ReleaseError {
        ReleaseError::Json(error)
    }
}

/// A TOML parse error as a release error.
impl From<toml::de::Error> for ReleaseError {
    fn from(error: toml::de::Error) -> (r: ReleaseError) {
        ReleaseError::Toml(error)
    }
}

impl vstd::std_specs::convert::FromSpecImpl<toml::de::Error> for ReleaseError {
    open spec fn obeys_from_spec() -> bool {
        true
    }

    open spec fn from_spec(error: toml::de::Error) -> ReleaseError {
        ReleaseError::Toml(error)
    }
}

/// A TOML edit error as a release error.
impl From<toml_edit::TomlError> for ReleaseError {
    fn from(error: toml_edit::TomlError) -> (r: ReleaseError) {
        ReleaseError::TomlEdit(error)
    }
}

impl vstd::std_specs::convert::FromSpecImpl<toml_edit::TomlError> for ReleaseError {
    open spec fn obeys_from_spec() -> bool {
        true
    }

    open spec fn from_spec(error: toml_edit::TomlError) -> ReleaseError {
        ReleaseError::TomlEdit(error)
    }
}

} // verus!
