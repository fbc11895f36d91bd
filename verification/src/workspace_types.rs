//! The records of the worktree and workspace managers.

use vstd::prelude::*;
use crate::model::Model;

verus! {

/// What is needed to clean up a worktree.
#[derive(Clone, Debug, PartialEq, Eq)]
pub struct WorktreeCleanup {
    pub worktree_path: String,
    /// The source repository, where it is known.
    pub git_repo_path: Option<String>,
}

pub struct WorktreeCleanupModel {
    pub worktree_path: Seq<char>,
    pub git_repo_path: Option<Seq<char>>,
}

impl Model for WorktreeCleanup {
    type M = WorktreeCleanupModel;

    open spec fn model(&self) -> WorktreeCleanupModel {
        WorktreeCleanupModel {
            worktree_path: self.worktree_path@,
            git_repo_path: self.git_repo_path.model(),
        }
    }
}

impl WorktreeCleanup {
    pub fn new(worktree_path: String, git_repo_path: Option<String>) -> (r: Self)
        ensures
            r.model() == (WorktreeCleanupModel {
                worktree_path: worktree_path@,
                git_repo_path: git_repo_path.model(),
            }),
    {
        WorktreeCleanup { worktree_path, git_repo_path }
    }
}

/// The worktree of one repository in a workspace.
#[derive(Clone, Debug, PartialEq, Eq)]
pub struct RepoWorktree {
    pub repo_id: String,
    pub repo_name: String,
    pub source_repo_path: String,
    pub worktree_path: String,
}

pub struct RepoWorktreeModel {
    pub repo_id: Seq<char>,
    pub repo_name: Seq<char>,
    pub source_repo_path: Seq<char>,
    pub worktree_path: Seq<char>,
}

impl Model for RepoWorktree {
    type M = RepoWorktreeModel;

    open spec fn model(&self) -> RepoWorktreeModel {
        RepoWorktreeModel {
            repo_id: self.repo_id@,
            repo_name: self.repo_name@,
            source_repo_path: self.source_repo_path@,
            worktree_path: self.worktree_path@,
        }
    }
}

/// A repository to take into a workspace.
#[derive(Clone, Debug, PartialEq, Eq)]
pub struct RepoInput {
    pub id: String,
    pub name: String,
    pub path: String,
    /// The branch that the new branch of the workspace starts from.
    pub target_branch: String,
}

pub struct RepoInputModel {
    pub id: Seq<char>,
    pub name: Seq<char>,
    pub path: Seq<char>,
    pub target_branch: Seq<char>,
}

impl Model for RepoInput {
    type M = RepoInputModel;

    open spec fn model(&self) -> RepoInputModel {
        RepoInputModel {
            id: self.id@,
            name: self.name@,
            path: self.path@,
            target_branch: self.target_branch@,
        }
    }
}

/// A workspace: a directory with one worktree for each of its repositories.
#[derive(Clone, Debug, PartialEq, Eq)]
pub struct WorktreeContainer {
    pub workspace_dir: String,
    pub worktrees: Vec<RepoWorktree>,
}

pub struct WorktreeContainerModel {
    pub workspace_dir: Seq<char>,
    pub worktrees: Seq<RepoWorktreeModel>,
}

impl Model for WorktreeContainer {
    type M = WorktreeContainerModel;

    open spec fn model(&self) -> WorktreeContainerModel {
        WorktreeContainerModel {
            workspace_dir: self.workspace_dir@,
            worktrees: self.worktrees.model(),
        }
    }
}

} // verus!
