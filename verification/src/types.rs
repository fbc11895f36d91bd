//! The plain records that the repository service takes and returns.

use vstd::prelude::*;
use crate::model::Model;

verus! {

/// How a file changed between two trees.
#[derive(Clone, Copy, PartialEq, Eq, Structural, Debug)]
pub enum DiffChangeKind {
    Added,
    Deleted,
    Modified,
    Renamed,
    Copied,
    PermissionChange,
}

/// One changed file of a diff.
#[derive(Clone, Debug, PartialEq, Eq)]
pub struct Diff {
    pub change: DiffChangeKind,
    pub old_path: Option<String>,
    pub new_path: Option<String>,
    pub old_content: Option<String>,
    pub new_content: Option<String>,
    /// Whether content was left out because a blob is over the size cap.
    pub content_omitted: bool,
    pub additions: Option<usize>,
    pub deletions: Option<usize>,
    pub repo_id: Option<String>,
}

pub struct DiffModel {
    pub change: DiffChangeKind,
    pub old_path: Option<Seq<char>>,
    pub new_path: Option<Seq<char>>,
    pub old_content: Option<Seq<char>>,
    pub new_content: Option<Seq<char>>,
    pub content_omitted: bool,
    pub additions: Option<usize>,
    pub deletions: Option<usize>,
    pub repo_id: Option<Seq<char>>,
}

impl Model for Diff {
    type M = DiffModel;

    open spec fn model(&self) -> DiffModel {
        DiffModel {
            change: self.change,
            old_path: self.old_path.model(),
            new_path: self.new_path.model(),
            old_content: self.old_content.model(),
            new_content: self.new_content.model(),
            content_omitted: self.content_omitted,
            additions: self.additions,
            deletions: self.deletions,
            repo_id: self.repo_id.model(),
        }
    }
}

/// A branch with the time of its newest commit, in seconds since the epoch.
#[derive(Clone, Debug, PartialEq, Eq)]
pub struct GitBranch {
    pub name: String,
    pub is_current: bool,
    pub is_remote: bool,
    pub last_commit_date: i64,
}

pub struct GitBranchModel {
    pub name: Seq<char>,
    pub is_current: bool,
    pub is_remote: bool,
    pub last_commit_date: i64,
}

impl Model for GitBranch {
    type M = GitBranchModel;

    open spec fn model(&self) -> GitBranchModel {
        GitBranchModel {
            name: self.name@,
            is_current: self.is_current,
            is_remote: self.is_remote,
            last_commit_date: self.last_commit_date,
        }
    }
}

/// A configured remote.
#[derive(Clone, Debug, PartialEq, Eq)]
pub struct GitRemote {
    pub name: String,
    pub url: String,
}

pub struct GitRemoteModel {
    pub name: Seq<char>,
    pub url: Seq<char>,
}

impl Model for GitRemote {
    type M = GitRemoteModel;

    open spec fn model(&self) -> GitRemoteModel {
        GitRemoteModel { name: self.name@, url: self.url@ }
    }
}

/// The branch `HEAD` names and the object it points at.
#[derive(Clone, Debug, PartialEq, Eq)]
pub struct HeadInfo {
    pub branch: String,
    pub oid: String,
}

pub struct HeadInfoModel {
    pub branch: Seq<char>,
    pub oid: Seq<char>,
}

impl Model for HeadInfo {
    type M = HeadInfoModel;

    open spec fn model(&self) -> HeadInfoModel {
        HeadInfoModel { branch: self.branch@, oid: self.oid@ }
    }
}

/// How a status listing classes a change.
#[derive(Clone, Debug, PartialEq, Eq)]
pub enum ChangeType {
    Added,
    Modified,
    Deleted,
    Renamed,
    Copied,
    TypeChanged,
    Unmerged,
    Unknown(String),
}

pub enum ChangeTypeModel {
    Added,
    Modified,
    Deleted,
    Renamed,
    Copied,
    TypeChanged,
    Unmerged,
    Unknown(Seq<char>),
}

impl Model for ChangeType {
    type M = ChangeTypeModel;

    open spec fn model(&self) -> ChangeTypeModel {
        match self {
            ChangeType::Added => ChangeTypeModel::Added,
            ChangeType::Modified => ChangeTypeModel::Modified,
            ChangeType::Deleted => ChangeTypeModel::Deleted,
            ChangeType::Renamed => ChangeTypeModel::Renamed,
            ChangeType::Copied => ChangeTypeModel::Copied,
            ChangeType::TypeChanged => ChangeTypeModel::TypeChanged,
            ChangeType::Unmerged => ChangeTypeModel::Unmerged,
            ChangeType::Unknown(s) => ChangeTypeModel::Unknown(s@),
        }
    }
}

/// One entry of a status listing, as the diff of a working tree uses it.
#[derive(Clone, Debug, PartialEq, Eq)]
pub struct StatusDiffEntry {
    pub change: ChangeType,
    pub path: String,
    pub old_path: Option<String>,
}

pub struct StatusDiffEntryModel {
    pub change: ChangeTypeModel,
    pub path: Seq<char>,
    pub old_path: Option<Seq<char>>,
}

impl Model for StatusDiffEntry {
    type M = StatusDiffEntryModel;

    open spec fn model(&self) -> StatusDiffEntryModel {
        StatusDiffEntryModel {
            change: self.change.model(),
            path: self.path@,
            old_path: self.old_path.model(),
        }
    }
}

/// A linked worktree and the branch checked out in it.
#[derive(Clone, Debug, PartialEq, Eq)]
pub struct WorktreeEntry {
    pub path: String,
    pub branch: Option<String>,
}

pub struct WorktreeEntryModel {
    pub path: Seq<char>,
    pub branch: Option<Seq<char>>,
}

impl Model for WorktreeEntry {
    type M = WorktreeEntryModel;

    open spec fn model(&self) -> WorktreeEntryModel {
        WorktreeEntryModel { path: self.path@, branch: self.branch.model() }
    }
}

/// One path of a porcelain status listing.
#[derive(Clone, Debug, PartialEq, Eq)]
pub struct StatusEntry {
    pub staged: char,
    pub unstaged: char,
    pub path: Vec<u8>,
    pub orig_path: Option<Vec<u8>>,
    pub is_untracked: bool,
}

pub struct StatusEntryModel {
    pub staged: char,
    pub unstaged: char,
    pub path: Seq<u8>,
    pub orig_path: Option<Seq<u8>>,
    pub is_untracked: bool,
}

impl Model for StatusEntry {
    type M = StatusEntryModel;

    open spec fn model(&self) -> StatusEntryModel {
        StatusEntryModel {
            staged: self.staged,
            unstaged: self.unstaged,
            path: self.path@,
            orig_path: match self.orig_path {
                Some(p) => Some(p@),
                None => None,
            },
            is_untracked: self.is_untracked,
        }
    }
}

/// The status of a working tree.
#[derive(Clone, Debug, PartialEq, Eq)]
pub struct WorktreeStatus {
    pub uncommitted_tracked: usize,
    pub untracked: usize,
    pub entries: Vec<StatusEntry>,
}

pub struct WorktreeStatusModel {
    pub uncommitted_tracked: int,
    pub untracked: int,
    pub entries: Seq<StatusEntryModel>,
}

impl Model for WorktreeStatus {
    type M = WorktreeStatusModel;

    open spec fn model(&self) -> WorktreeStatusModel {
        WorktreeStatusModel {
            uncommitted_tracked: self.uncommitted_tracked as int,
            untracked: self.untracked as int,
            entries: self.entries.model(),
        }
    }
}

/// What to do when a worktree is not at the wanted commit.
#[derive(Clone, Copy, Debug)]
pub struct WorktreeResetOptions {
    pub perform_reset: bool,
    pub force_when_dirty: bool,
    pub is_dirty: bool,
    pub log_skip_when_dirty: bool,
}

impl WorktreeResetOptions {
    pub fn new(
        perform_reset: bool,
        force_when_dirty: bool,
        is_dirty: bool,
        log_skip_when_dirty: bool,
    ) -> (r: Self)
        ensures
            r.perform_reset == perform_reset,
            r.force_when_dirty == force_when_dirty,
            r.is_dirty == is_dirty,
            r.log_skip_when_dirty == log_skip_when_dirty,
    {
        WorktreeResetOptions { perform_reset, force_when_dirty, is_dirty, log_skip_when_dirty }
    }
}

impl Model for WorktreeResetOptions {
    type M = WorktreeResetOptions;

    open spec fn model(&self) -> WorktreeResetOptions {
        *self
    }
}

/// Whether a reset was needed, and whether it was done.
#[derive(Clone, Copy, PartialEq, Eq, Structural, Debug)]
pub struct WorktreeResetOutcome {
    pub needed: bool,
    pub applied: bool,
}

impl Default for WorktreeResetOutcome {
    fn default() -> (r: Self)
        ensures
            !r.needed,
            !r.applied,
    {
        WorktreeResetOutcome { needed: false, applied: false }
    }
}

impl Model for WorktreeResetOutcome {
    type M = WorktreeResetOutcome;

    open spec fn model(&self) -> WorktreeResetOutcome {
        *self
    }
}

/// An operation that stopped on conflicts and waits to be continued or aborted.
#[derive(Clone, Copy, PartialEq, Eq, Structural, Debug)]
pub enum ConflictOp {
    Rebase,
    Merge,
    CherryPick,
    Revert,
}

impl Model for ConflictOp {
    type M = ConflictOp;

    open spec fn model(&self) -> ConflictOp {
        *self
    }
}

/// Which paths a status diff is restricted to.
#[derive(Clone, Debug, PartialEq, Eq)]
pub struct StatusDiffOptions {
    pub path_filter: Option<Vec<String>>,
}

/// A commit, by its object id in hexadecimal.
#[derive(Clone, Debug, PartialEq, Eq)]
pub struct Commit {
    pub id: String,
}

impl Model for Commit {
    type M = Seq<char>;

    open spec fn model(&self) -> Seq<char> {
        self.id@
    }
}

/// What to compare in a diff.
#[derive(Clone, Debug, PartialEq, Eq)]
pub enum DiffTarget {
    /// The head of a worktree against a base commit.
    Worktree { worktree_path: String, base_commit: Commit },
    /// A branch against a base branch.
    Branch { repo_path: String, branch_name: String, base_branch: String },
    /// A commit against its first parent.
    Commit { repo_path: String, commit_sha: String },
}

pub enum DiffTargetModel {
    Worktree { worktree_path: Seq<char>, base_commit: Seq<char> },
    Branch { repo_path: Seq<char>, branch_name: Seq<char>, base_branch: Seq<char> },
    Commit { repo_path: Seq<char>, commit_sha: Seq<char> },
}

impl Model for DiffTarget {
    type M = DiffTargetModel;

    open spec fn model(&self) -> DiffTargetModel {
        match self {
            DiffTarget::Worktree { worktree_path, base_commit } => DiffTargetModel::Worktree {
                worktree_path: worktree_path@,
                base_commit: base_commit.model(),
            },
            DiffTarget::Branch { repo_path, branch_name, base_branch } => DiffTargetModel::Branch {
                repo_path: repo_path@,
                branch_name: branch_name@,
                base_branch: base_branch@,
            },
            DiffTarget::Commit { repo_path, commit_sha } => DiffTargetModel::Commit {
                repo_path: repo_path@,
                commit_sha: commit_sha@,
            },
        }
    }
}

/// How often and how recently a file was touched by the newest commits.
#[derive(Clone, Debug, PartialEq, Eq)]
pub struct FileStat {
    /// The position of the newest commit that touched the file, newest first.
    pub last_index: usize,
    pub commit_count: u32,
    /// The time of that commit, in seconds since the epoch.
    pub last_time: i64,
}

pub struct FileStatModel {
    pub last_index: usize,
    pub commit_count: u32,
    pub last_time: i64,
}

impl Model for FileStat {
    type M = FileStatModel;

    open spec fn model(&self) -> FileStatModel {
        FileStatModel {
            last_index: self.last_index,
            commit_count: self.commit_count,
            last_time: self.last_time,
        }
    }
}

} // verus!
