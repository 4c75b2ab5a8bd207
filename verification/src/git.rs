//! Version-control records and the decisions taken around a repository.
//!
//! The repository itself is reached from outside the library. What the
//! library decides is held here: which tag and messages a release gets, what
//! a reset touches, how a push is reported, and whether a repository is ready.

use vstd::prelude::*;
use vstd::string::*;
use crate::error::GitError;
use crate::text::{decimal, decimal_text, texts};
use crate::version::Version;

verus! {

/// Information about a commit.
#[derive(Debug)]
pub struct CommitInfo {
    /// Commit hash (full).
    pub hash: String,
    /// Short commit hash.
    pub short_hash: String,
    /// Commit message.
    pub message: String,
    /// Author name.
    pub author_name: String,
    /// Author email.
    pub author_email: String,
    /// Commit time in seconds since the epoch.
    pub timestamp: i64,
    /// Parent commit hashes.
    pub parents: Vec<String>,
}

/// Information about a tag.
#[derive(Debug)]
pub struct TagInfo {
    /// Tag name.
    pub name: String,
    /// Tag message (if annotated).
    pub message: Option<String>,
    /// Target commit hash.
    pub target_commit: String,
    /// Tag time in seconds since the epoch.
    pub timestamp: i64,
    /// Whether this is an annotated tag.
    pub is_annotated: bool,
}

/// Information about a push operation.
#[derive(Debug)]
pub struct PushInfo {
    /// Remote name that was pushed to.
    pub remote_name: String,
    /// Number of commits pushed.
    pub commits_pushed: usize,
    /// Number of tags pushed.
    pub tags_pushed: usize,
    /// Any warnings or notes from the push.
    pub warnings: Vec<String>,
}

/// Information about a branch.
#[derive(Debug)]
pub struct BranchInfo {
    /// Branch name.
    pub name: String,
    /// Whether this is the current branch.
    pub is_current: bool,
    /// Current commit hash.
    pub commit_hash: String,
    /// Tracking remote branch (if any).
    pub upstream: Option<String>,
    /// Number of commits ahead of upstream.
    pub ahead_count: Option<usize>,
    /// Number of commits behind upstream.
    pub behind_count: Option<usize>,
}

/// Information about a remote.
#[derive(Debug)]
pub struct RemoteInfo {
    /// Remote name.
    pub name: String,
    /// Fetch URL.
    pub fetch_url: String,
    /// Push URL (may be different from fetch).
    pub push_url: String,
    /// Whether this remote is reachable.
    pub is_reachable: bool,
}

/// Type of reset operation.
#[derive(Debug, Clone, Copy, PartialEq, Eq, Structural)]
pub enum ResetType {
    /// Soft reset (keep changes in index).
    Soft,
    /// Mixed reset (keep changes in working directory).
    Mixed,
    /// Hard reset (discard all changes).
    Hard,
}

/// What a reset touches.
#[derive(Debug, Clone, Copy, PartialEq, Eq, Structural)]
pub struct ResetPlan {
    /// Move the head to the target commit.
    pub move_head: bool,
    /// Reset the index to the target commit.
    pub reset_index: bool,
    /// Reset the working directory to the target commit.
    pub reset_working_directory: bool,
}

/// Result of validating a repository for release readiness.
#[derive(Debug)]
pub struct ValidationResult {
    /// Whether the repository is ready for release.
    pub is_ready: bool,
    /// Issues that prevent release.
    pub blocking_issues: Vec<String>,
    /// Warnings that should be addressed.
    pub warnings: Vec<String>,
    /// Repository status summary.
    pub status_summary: String,
}

impl ResetType {
    /// Every reset moves the head; a mixed one resets the index too, a hard
    /// one the working directory as well.
    pub fn plan(self) -> (p: ResetPlan)
        ensures
            p.move_head,
            p.reset_index == (self != ResetType::Soft),
            p.reset_working_directory == (self == ResetType::Hard),
    {
        match self {
            ResetType::Soft => ResetPlan {
                move_head: true,
                reset_index: false,
                reset_working_directory: false,
            },
            ResetType::Mixed => ResetPlan {
                move_head: true,
                reset_index: true,
                reset_working_directory: false,
            },
            ResetType::Hard => ResetPlan {
                move_head: true,
                reset_index: true,
                reset_working_directory: true,
            },
        }
    }
}

/// The message of a release commit: the one given, or `release: ` and the tag.
pub open spec fn commit_message_text(version: Version, message: Option<String>) -> Seq<char> {
    match message {
        Some(m) => m@,
        None => "release: "@ + version.tag(),
    }
}

/// Computes [`commit_message_text`].
pub fn release_commit_message(version: &Version, message: Option<String>) -> (s: String)
    ensures
        s@ == commit_message_text(*version, message),
{
    match message {
        Some(m) => m,
        None => String::from_str("release: ").concat(version.tag_name().as_str()),
    }
}

/// The message of a version tag: the one given, or `Release ` and the tag.
pub open spec fn tag_message_text(version: Version, message: Option<String>) -> Seq<char> {
    match message {
        Some(m) => m@,
        None => "Release "@ + version.tag(),
    }
}

/// The tag of a release, before it is written to the repository.
///
/// Fails with `TagExists` exactly when a tag of that name is already there.
pub fn plan_version_tag(
    version: &Version,
    message: Option<String>,
    tag_exists: bool,
    target_commit: String,
    timestamp: i64,
) -> (r: Result<TagInfo, GitError>)
    ensures
        match r {
            Ok(tag) => !tag_exists && tag.name@ == version.tag() && tag.message is Some
                && tag.message.unwrap()@ == tag_message_text(*version, message)
                && tag.target_commit == target_commit && tag.timestamp == timestamp
                && tag.is_annotated,
            Err(GitError::TagExists { tag }) => tag_exists && tag@ == version.tag(),
            Err(_) => false,
        },
{
    let name = version.tag_name();
    if tag_exists {
        return Err(GitError::TagExists { tag: name });
    }
    let text = match message {
        Some(m) => m,
        None => String::from_str("Release ").concat(name.as_str()),
    };
    Ok(TagInfo { name, message: Some(text), target_commit, timestamp, is_annotated: true })
}

/// The name of the remote that is pushed to: the one given, or `origin`.
pub open spec fn remote_or_default(remote_name: Option<&str>) -> Seq<char> {
    match remote_name {
        Some(name) => name@,
        None => "origin"@,
    }
}

/// Reports a push from what was found out and done: whether the remote is
/// known, and the outcomes of pushing the commits and the tags.
///
/// An unknown remote and a failed push of the commits fail the whole push.
/// A failed push of the tags is a warning; tags count only where they were
/// asked for.
pub fn push_report(
    remote_name: Option<&str>,
    remote_found: Result<(), String>,
    commits: Result<usize, String>,
    push_tags: bool,
    tags: Result<usize, String>,
) -> (r: Result<PushInfo, GitError>)
    ensures
        match r {
            Ok(info) => remote_found is Ok && commits is Ok && info.remote_name@
                == remote_or_default(remote_name) && info.commits_pushed == commits->Ok_0
                && info.tags_pushed == (if push_tags && tags is Ok {
                tags->Ok_0
            } else {
                0usize
            }) && texts(info.warnings@) == (if push_tags && tags is Err {
                seq!["Failed to push tags: "@ + tags->Err_0@]
            } else {
                Seq::<Seq<char>>::empty()
            }),
            Err(GitError::RemoteOperationFailed { operation, reason }) => remote_found is Err
                && operation@ == "find remote"@ && reason@ == "Remote '"@ + remote_or_default(
                remote_name,
            ) + "' not found: "@ + remote_found->Err_0@,
            Err(GitError::PushFailed { reason }) => remote_found is Ok && commits is Err && reason@
                == "Failed to push commits: "@ + commits->Err_0@,
            Err(_) => false,
        },
{
    let remote = match remote_name {
        Some(name) => String::from_str(name),
        None => String::from_str("origin"),
    };
    match remote_found {
        Ok(_) => {},
        Err(e) => {
            let reason = String::from_str("Remote '").concat(remote.as_str()).concat(
                "' not found: ",
            ).concat(e.as_str());
            return Err(
                GitError::RemoteOperationFailed { operation: String::from_str("find remote"), reason },
            );
        },
    }
    let mut warnings: Vec<String> = Vec::new();
    let mut tags_pushed: usize = 0;
    let commits_pushed: usize = match commits {
        Ok(count) => count,
        Err(e) => {
            return Err(
                GitError::PushFailed {
                    reason: String::from_str("Failed to push commits: ").concat(e.as_str()),
                },
            );
        },
    };
    if push_tags {
        match tags {
            Ok(count) => {
                tags_pushed = count;
            },
            Err(e) => {
                warnings.push(String::from_str("Failed to push tags: ").concat(e.as_str()));
            },
        }
    }
    assert(texts(warnings@) =~= (if push_tags && tags is Err {
        seq!["Failed to push tags: "@ + tags->Err_0@]
    } else {
        Seq::<Seq<char>>::empty()
    }));
    Ok(PushInfo { remote_name: remote, commits_pushed, tags_pushed, warnings })
}

impl BranchInfo {
    /// The record of the current branch: its name, or `detached HEAD` where
    /// the head names no branch. Nothing is known of an upstream.
    pub fn current(name: Option<String>, commit_hash: String) -> (b: BranchInfo)
        ensures
            b.name@ == (match name {
                Some(n) => n@,
                None => "detached HEAD"@,
            }),
            b.is_current,
            b.commit_hash == commit_hash,
            b.upstream is None,
            b.ahead_count is None,
            b.behind_count is None,
    {
        let name = match name {
            Some(n) => n,
            None => String::from_str("detached HEAD"),
        };
        BranchInfo {
            name,
            is_current: true,
            commit_hash,
            upstream: None,
            ahead_count: None,
            behind_count: None,
        }
    }
}

impl RemoteInfo {
    /// The record of a remote: a missing fetch URL reads `unknown`, a missing
    /// push URL is the fetch URL.
    pub fn describe(name: String, fetch_url: Option<String>, push_url: Option<String>) -> (r:
        RemoteInfo)
        ensures
            r.name == name,
            r.fetch_url@ == (match fetch_url {
                Some(u) => u@,
                None => "unknown"@,
            }),
            r.push_url@ == (match push_url {
                Some(u) => u@,
                None => r.fetch_url@,
            }),
            r.is_reachable,
    {
        let fetch = match fetch_url {
            Some(u) => u,
            None => String::from_str("unknown"),
        };
        let push = match push_url {
            Some(u) => u,
            None => fetch.clone(),
        };
        RemoteInfo { name, fetch_url: fetch, push_url: push, is_reachable: true }
    }
}

impl CommitInfo {
    /// The record of a commit; a commit without message reads `No commit message`.
    pub fn from_parts(
        hash: String,
        short_hash: String,
        message: Option<String>,
        author_name: String,
        author_email: String,
        timestamp: i64,
        parents: Vec<String>,
    ) -> (c: CommitInfo)
        ensures
            c.hash == hash,
            c.short_hash == short_hash,
            c.message@ == (match message {
                Some(m) => m@,
                None => "No commit message"@,
            }),
            c.author_name == author_name,
            c.author_email == author_email,
            c.timestamp == timestamp,
            c.parents == parents,
    {
        let message = match message {
            Some(m) => m,
            None => String::from_str("No commit message"),
        };
        CommitInfo { hash, short_hash, message, author_name, author_email, timestamp, parents }
    }
}

/// The issues that block a release.
pub open spec fn blocking_texts(clean: bool, branch: Result<BranchInfo, String>) -> Seq<Seq<char>> {
    let dirty = if clean {
        Seq::<Seq<char>>::empty()
    } else {
        seq!["Working directory has uncommitted changes"@]
    };
    match branch {
        Ok(_) => dirty,
        Err(e) => dirty.push("Failed to get current branch: "@ + e@),
    }
}

/// The warnings that do not block a release.
pub open spec fn warning_texts(
    branch: Result<BranchInfo, String>,
    remotes: Result<usize, String>,
) -> Seq<Seq<char>> {
    let detached = match branch {
        Ok(b) => if b.name@ == "detached HEAD"@ {
            seq!["Currently in detached HEAD state"@]
        } else {
            Seq::<Seq<char>>::empty()
        },
        Err(_) => Seq::<Seq<char>>::empty(),
    };
    match remotes {
        Ok(count) => if count == 0 {
            detached.push("No remotes configured"@)
        } else {
            detached
        },
        Err(_) => detached.push("Failed to check remotes"@),
    }
}

/// The summary line for a number of blocking issues.
pub open spec fn summary_text(issues: nat) -> Seq<char> {
    if issues == 0 {
        "Repository ready for release"@
    } else {
        decimal_text(issues) + " issues prevent release"@
    }
}

/// Judges whether a repository is ready for a release, from what was found
/// out about it: whether the working directory is clean, the current branch
/// (or why it could not be read), and the number of remotes (or why they
/// could not be listed).
pub fn validate_release_readiness(
    clean: bool,
    branch: &Result<BranchInfo, String>,
    remotes: &Result<usize, String>,
) -> (v: ValidationResult)
    ensures
        texts(v.blocking_issues@) == blocking_texts(clean, *branch),
        texts(v.warnings@) == warning_texts(*branch, *remotes),
        v.is_ready == (blocking_texts(clean, *branch).len() == 0),
        v.status_summary@ == summary_text(blocking_texts(clean, *branch).len()),
{
    let mut blocking_issues: Vec<String> = Vec::new();
    let mut warnings: Vec<String> = Vec::new();
    if !clean {
        blocking_issues.push(String::from_str("Working directory has uncommitted changes"));
    }
    match branch {
        Ok(b) => {
            let detached = String::from_str("detached HEAD");
            if b.name == detached {
                warnings.push(String::from_str("Currently in detached HEAD state"));
            }
        },
        Err(e) => {
            blocking_issues.push(
                String::from_str("Failed to get current branch: ").concat(e.as_str()),
            );
        },
    }
    match remotes {
        Ok(count) => {
            if *count == 0 {
                warnings.push(String::from_str("No remotes configured"));
            }
        },
        Err(_) => {
            warnings.push(String::from_str("Failed to check remotes"));
        },
    }
    assert(texts(blocking_issues@) =~= blocking_texts(clean, *branch));
    assert(texts(warnings@) =~= warning_texts(*branch, *remotes));
    let is_ready = blocking_issues.len() == 0;
    let status_summary = if is_ready {
        String::from_str("Repository ready for release")
    } else {
        decimal(blocking_issues.len() as u64).concat(" issues prevent release")
    };
    ValidationResult { is_ready, blocking_issues, warnings, status_summary }
}

} // verus!
