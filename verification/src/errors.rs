//! The error types of the library, each with the text it is reported by.

use vstd::prelude::*;
use crate::effects::Failure;
use crate::model::Model;
use crate::text::{join2, join3};

verus! {

/// A failure of the external git executable.
#[derive(Debug, PartialEq, Eq)]
pub enum GitCliError {
    /// The executable was not found or does not run.
    NotAvailable,
    /// The command ended with a failure; the text is what it printed.
    CommandFailed(String),
    /// A fetch or a remote listing failed.
    AuthFailed,
    /// A push failed.
    PushRejected,
    /// A rebase is already under way in the worktree.
    RebaseInProgress,
}

pub enum GitCliErrorModel {
    NotAvailable,
    CommandFailed(Seq<char>),
    AuthFailed,
    PushRejected,
    RebaseInProgress,
}

impl Model for GitCliError {
    type M = GitCliErrorModel;

    open spec fn model(&self) -> GitCliErrorModel {
        match self {
            GitCliError::NotAvailable => GitCliErrorModel::NotAvailable,
            GitCliError::CommandFailed(s) => GitCliErrorModel::CommandFailed(s@),
            GitCliError::AuthFailed => GitCliErrorModel::AuthFailed,
            GitCliError::PushRejected => GitCliErrorModel::PushRejected,
            GitCliError::RebaseInProgress => GitCliErrorModel::RebaseInProgress,
        }
    }
}

impl GitCliErrorModel {
    /// The text the error is reported by.
    pub open spec fn message(self) -> Seq<char> {
        match self {
            GitCliErrorModel::NotAvailable => "git executable not found or not runnable"@,
            GitCliErrorModel::CommandFailed(s) => "git command failed: "@ + s,
            GitCliErrorModel::AuthFailed => "authentication failed"@,
            GitCliErrorModel::PushRejected => "push rejected"@,
            GitCliErrorModel::RebaseInProgress => "rebase in progress in this worktree"@,
        }
    }
}

impl GitCliError {
    /// The text the error is reported by.
    pub fn message(&self) -> (r: String)
        ensures
            r@ == self.model().message(),
    {
        match self {
            GitCliError::NotAvailable => "git executable not found or not runnable".to_owned(),
            GitCliError::CommandFailed(s) => join2("git command failed: ", s.as_str()),
            GitCliError::AuthFailed => "authentication failed".to_owned(),
            GitCliError::PushRejected => "push rejected".to_owned(),
            GitCliError::RebaseInProgress => "rebase in progress in this worktree".to_owned(),
        }
    }
}

/// A failure of the repository service.
#[derive(Debug, PartialEq, Eq)]
pub enum GitServiceError {
    /// The object graph reported a failure; the text is its message.
    Git(String),
    /// The git executable failed.
    GitCli(GitCliError),
    /// The file system reported a failure; the text is its message.
    IoError(String),
    InvalidRepository(String),
    BranchNotFound(String),
    MergeConflicts(String),
    BranchesDiverged(String),
    /// The branch that is not clean, and the paths that differ.
    WorktreeDirty(String, String),
    RebaseInProgress,
}

pub enum GitServiceErrorModel {
    Git(Seq<char>),
    GitCli(GitCliErrorModel),
    IoError(Seq<char>),
    InvalidRepository(Seq<char>),
    BranchNotFound(Seq<char>),
    MergeConflicts(Seq<char>),
    BranchesDiverged(Seq<char>),
    WorktreeDirty(Seq<char>, Seq<char>),
    RebaseInProgress,
}

impl Model for GitServiceError {
    type M = GitServiceErrorModel;

    open spec fn model(&self) -> GitServiceErrorModel {
        match self {
            GitServiceError::Git(s) => GitServiceErrorModel::Git(s@),
            GitServiceError::GitCli(e) => GitServiceErrorModel::GitCli(e.model()),
            GitServiceError::IoError(s) => GitServiceErrorModel::IoError(s@),
            GitServiceError::InvalidRepository(s) => GitServiceErrorModel::InvalidRepository(s@),
            GitServiceError::BranchNotFound(s) => GitServiceErrorModel::BranchNotFound(s@),
            GitServiceError::MergeConflicts(s) => GitServiceErrorModel::MergeConflicts(s@),
            GitServiceError::BranchesDiverged(s) => GitServiceErrorModel::BranchesDiverged(s@),
            GitServiceError::WorktreeDirty(b, p) => GitServiceErrorModel::WorktreeDirty(b@, p@),
            GitServiceError::RebaseInProgress => GitServiceErrorModel::RebaseInProgress,
        }
    }
}

impl GitServiceErrorModel {
    /// The text the error is reported by.
    pub open spec fn message(self) -> Seq<char> {
        match self {
            GitServiceErrorModel::Git(s) => s,
            GitServiceErrorModel::GitCli(e) => e.message(),
            GitServiceErrorModel::IoError(s) => s,
            GitServiceErrorModel::InvalidRepository(s) => "Invalid repository: "@ + s,
            GitServiceErrorModel::BranchNotFound(s) => "Branch not found: "@ + s,
            GitServiceErrorModel::MergeConflicts(s) => "Merge conflicts: "@ + s,
            GitServiceErrorModel::BranchesDiverged(s) => "Branches diverged: "@ + s,
            GitServiceErrorModel::WorktreeDirty(b, p) => b + " has uncommitted changes: "@ + p,
            GitServiceErrorModel::RebaseInProgress => "Rebase in progress"@,
        }
    }
}

impl GitServiceError {
    /// The text the error is reported by.
    pub fn message(&self) -> (r: String)
        ensures
            r@ == self.model().message(),
    {
        match self {
            GitServiceError::Git(s) => s.clone(),
            GitServiceError::GitCli(e) => e.message(),
            GitServiceError::IoError(s) => s.clone(),
            GitServiceError::InvalidRepository(s) => join2("Invalid repository: ", s.as_str()),
            GitServiceError::BranchNotFound(s) => join2("Branch not found: ", s.as_str()),
            GitServiceError::MergeConflicts(s) => join2("Merge conflicts: ", s.as_str()),
            GitServiceError::BranchesDiverged(s) => join2("Branches diverged: ", s.as_str()),
            GitServiceError::WorktreeDirty(b, p) => join3(
                b.as_str(),
                " has uncommitted changes: ",
                p.as_str(),
            ),
            GitServiceError::RebaseInProgress => "Rebase in progress".to_owned(),
        }
    }

    /// The error for a failure of the object graph.
    pub fn from_graph(f: Failure) -> (r: GitServiceError)
        ensures
            r.model() == GitServiceErrorModel::Git(f.model().message),
    {
        GitServiceError::Git(f.message)
    }
}

/// A failure of the worktree or workspace manager.
#[derive(Debug, PartialEq, Eq)]
pub enum WorkspaceError {
    Git(String),
    /// The file system reported a failure; the text is its message.
    Io(String),
    InvalidPath(String),
    Repository(String),
    NoRepositories,
    PartialCreation(String),
    TaskJoin(String),
}

pub enum WorkspaceErrorModel {
    Git(Seq<char>),
    Io(Seq<char>),
    InvalidPath(Seq<char>),
    Repository(Seq<char>),
    NoRepositories,
    PartialCreation(Seq<char>),
    TaskJoin(Seq<char>),
}

impl Model for WorkspaceError {
    type M = WorkspaceErrorModel;

    open spec fn model(&self) -> WorkspaceErrorModel {
        match self {
            WorkspaceError::Git(s) => WorkspaceErrorModel::Git(s@),
            WorkspaceError::Io(s) => WorkspaceErrorModel::Io(s@),
            WorkspaceError::InvalidPath(s) => WorkspaceErrorModel::InvalidPath(s@),
            WorkspaceError::Repository(s) => WorkspaceErrorModel::Repository(s@),
            WorkspaceError::NoRepositories => WorkspaceErrorModel::NoRepositories,
            WorkspaceError::PartialCreation(s) => WorkspaceErrorModel::PartialCreation(s@),
            WorkspaceError::TaskJoin(s) => WorkspaceErrorModel::TaskJoin(s@),
        }
    }
}

impl WorkspaceErrorModel {
    /// The text the error is reported by.
    pub open spec fn message(self) -> Seq<char> {
        match self {
            WorkspaceErrorModel::Git(s) => "Git error: "@ + s,
            WorkspaceErrorModel::Io(s) => "IO error: "@ + s,
            WorkspaceErrorModel::InvalidPath(s) => "Invalid path: "@ + s,
            WorkspaceErrorModel::Repository(s) => "Repository error: "@ + s,
            WorkspaceErrorModel::NoRepositories => "No repositories provided"@,
            WorkspaceErrorModel::PartialCreation(s) => "Partial creation failed: "@ + s,
            WorkspaceErrorModel::TaskJoin(s) => "Task join error: "@ + s,
        }
    }
}

impl WorkspaceError {
    /// The text the error is reported by.
    pub fn message(&self) -> (r: String)
        ensures
            r@ == self.model().message(),
    {
        match self {
            WorkspaceError::Git(s) => join2("Git error: ", s.as_str()),
            WorkspaceError::Io(s) => join2("IO error: ", s.as_str()),
            WorkspaceError::InvalidPath(s) => join2("Invalid path: ", s.as_str()),
            WorkspaceError::Repository(s) => join2("Repository error: ", s.as_str()),
            WorkspaceError::NoRepositories => "No repositories provided".to_owned(),
            WorkspaceError::PartialCreation(s) => join2("Partial creation failed: ", s.as_str()),
            WorkspaceError::TaskJoin(s) => join2("Task join error: ", s.as_str()),
        }
    }
}

} // verus!
