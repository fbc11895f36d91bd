//! Creation and cleanup of a worktree under the lock of its path.

use vstd::prelude::*;
use crate::effects::{
    argv2, ask, done_run, exists_run, path_exists, settled, text_run, FailureModel, Replay,
    Reply, ReplyModel, Request, RequestKind, RequestModel, Run,
};
use crate::errors::{WorkspaceError, WorkspaceErrorModel};
use crate::git_service::{no_args, query};
use crate::model::Model;
use crate::paths::{parent_of, path_parent};
use crate::workspace_types::{WorktreeCleanup, WorktreeCleanupModel};
use crate::worktree::{direct_request, inferred_repo, repo_from_common_dir, WorktreeManager};

verus! {

/// The request for the lock of a path.
pub open spec fn lock_request(path: Seq<char>) -> RequestModel {
    Request::plain(RequestKind::Lock, path, Seq::empty())
}

/// The request that gives the lock of a path back.
pub open spec fn unlock_request(path: Seq<char>) -> RequestModel {
    Request::plain(RequestKind::Unlock, path, Seq::empty())
}

/// The run of an operation under the lock of `path`. The lock is kept for
/// the canonical form of the path, or for the path as it is where it has
/// none. The lock is taken, `body` runs on the replies that follow, and the
/// lock is given back whatever the body came to.
pub open spec fn locked_run<T>(
    path: Seq<char>,
    body: spec_fn(Seq<ReplyModel>) -> Run<T>,
    rest: Seq<ReplyModel>,
) -> Run<T> {
    match WorktreeManager::canonical_run(path, rest) {
        Run::Pending(q) => Run::Pending(q),
        Run::Ready(key, rest0) => match ask(lock_request(key), rest0) {
            Run::Pending(q) => Run::Pending(q),
            Run::Ready(_, rest1) => match body(rest1) {
                Run::Pending(q) => Run::Pending(q),
                Run::Ready(value, rest2) => match ask(unlock_request(key), rest2) {
                    Run::Pending(q) => Run::Pending(q),
                    Run::Ready(_, rest3) => Run::Ready(value, rest3),
                },
            },
        },
    }
}

/// The key of the lock of `path`, once the replies tell it.
pub open spec fn lock_key(path: Seq<char>, rest: Seq<ReplyModel>) -> Seq<char> {
    match WorktreeManager::canonical_run(path, rest) {
        Run::Ready(key, _) => key,
        Run::Pending(_) => path,
    }
}

/// Whether a request changes nothing: it is a probe of the file system or a
/// query to the object graph.
pub open spec fn is_probe(q: RequestModel) -> bool {
    q.kind == RequestKind::PathExists || q.kind == RequestKind::OpenRepo || q.kind
        == RequestKind::Canonical || q.kind == RequestKind::CommonDir || q.kind
        == RequestKind::ListDir || q.kind == RequestKind::ReadText || q.kind
        == RequestKind::FindWorktree
}

fn take_lock(io: &mut Replay, path: &str) -> (r: Result<(), Request>)
    ensures
        match ask(lock_request(path@), old(io).unread()) {
            Run::Pending(q) => r is Err && r->Err_0.model() == q,
            Run::Ready(_, rest1) => r is Ok && final(io).unread() == rest1,
        },
{
    let _ = io.ask(Request::new(RequestKind::Lock, path, no_args()))?;
    Ok(())
}

fn give_lock(io: &mut Replay, path: &str) -> (r: Result<(), Request>)
    ensures
        match ask(unlock_request(path@), old(io).unread()) {
            Run::Pending(q) => r is Err && r->Err_0.model() == q,
            Run::Ready(_, rest1) => r is Ok && final(io).unread() == rest1,
        },
{
    let _ = io.ask(Request::new(RequestKind::Unlock, path, no_args()))?;
    Ok(())
}

impl WorktreeManager {
    /// The run of `create_worktree_with_retry`: `worktree add` is tried;
    /// where it fails, the registration and the directory of the worktree
    /// are cleared away and it is tried once more, and that second outcome
    /// stands.
    pub open spec fn create_worktree_with_retry_run(
        repo: Seq<char>,
        branch: Seq<char>,
        worktree: Seq<char>,
        rest: Seq<ReplyModel>,
    ) -> Run<Result<(), WorkspaceErrorModel>> {
        match Self::git_worktree_add_run(repo, worktree, branch, false, rest) {
            Run::Pending(q) => Run::Pending(q),
            Run::Ready(Ok(_), rest1) => match exists_run(worktree, rest1) {
                Run::Pending(q) => Run::Pending(q),
                Run::Ready(true, rest2) => Run::Ready(Ok(()), rest2),
                Run::Ready(false, rest2) => Run::Ready(
                    Err(
                        WorkspaceErrorModel::Repository(
                            "Worktree creation failed: path does not exist"@,
                        ),
                    ),
                    rest2,
                ),
            },
            Run::Ready(Err(_), rest1) => match Self::force_cleanup_metadata_run(
                repo,
                worktree,
                rest1,
            ) {
                Run::Pending(q) => Run::Pending(q),
                Run::Ready(_, rest2) => match Self::simple_cleanup_run(worktree, rest2) {
                    Run::Pending(q) => Run::Pending(q),
                    Run::Ready(Err(e), rest3) => Run::Ready(Err(e), rest3),
                    Run::Ready(Ok(_), rest3) => Self::git_worktree_add_run(
                        repo,
                        worktree,
                        branch,
                        false,
                        rest3,
                    ),
                },
            },
        }
    }

    /// Adds the worktree, with one retry after a forced reset of what may be
    /// left of it.
    pub fn create_worktree_with_retry(
        io: &mut Replay,
        git_repo_path: &str,
        branch_name: &str,
        worktree_path: &str,
    ) -> (r: Result<Result<(), WorkspaceError>, Request>)
        ensures
            settled(
                r,
                final(io).unread(),
                Self::create_worktree_with_retry_run(
                    git_repo_path@,
                    branch_name@,
                    worktree_path@,
                    old(io).unread(),
                ),
            ),
    {
        match Self::git_worktree_add(io, git_repo_path, worktree_path, branch_name, false)? {
            Ok(()) => {
                if path_exists(io, worktree_path)? {
                    Ok(Ok(()))
                } else {
                    Ok(
                        Err(
                            WorkspaceError::Repository(
                                "Worktree creation failed: path does not exist".to_owned(),
                            ),
                        ),
                    )
                }
            },
            Err(_) => {
                let _ = Self::force_cleanup_metadata(io, git_repo_path, worktree_path)?;
                match Self::simple_cleanup(io, worktree_path)? {
                    Err(e) => return Ok(Err(e)),
                    Ok(()) => {},
                }
                Self::git_worktree_add(io, git_repo_path, worktree_path, branch_name, false)
            },
        }
    }

    /// The run of the steps of a cleanup with git run in `dir`: git removes
    /// the worktree, its registration is cleared, its directory removed, and
    /// registrations of worktrees that are gone are pruned. Only the removal
    /// of the directory must succeed; how the other steps end is passed over.
    pub open spec fn cleanup_steps_run(
        dir: Seq<char>,
        worktree: Seq<char>,
        rest: Seq<ReplyModel>,
    ) -> Run<Result<(), WorkspaceErrorModel>> {
        match Self::git_worktree_remove_run(dir, worktree, true, rest) {
            Run::Pending(q) => Run::Pending(q),
            Run::Ready(_, rest1) => match Self::force_cleanup_metadata_run(dir, worktree, rest1) {
                Run::Pending(q) => Run::Pending(q),
                Run::Ready(_, rest2) => match Self::simple_cleanup_run(worktree, rest2) {
                    Run::Pending(q) => Run::Pending(q),
                    Run::Ready(Err(e), rest3) => Run::Ready(Err(e), rest3),
                    Run::Ready(Ok(_), rest3) => match Self::git_worktree_prune_run(dir, rest3) {
                        Run::Pending(q) => Run::Pending(q),
                        Run::Ready(_, rest4) => Run::Ready(Ok(()), rest4),
                    },
                },
            },
        }
    }

    fn cleanup_steps(io: &mut Replay, dir: &str, worktree_path: &str) -> (r: Result<
        Result<(), WorkspaceError>,
        Request,
    >)
        ensures
            settled(
                r,
                final(io).unread(),
                Self::cleanup_steps_run(dir@, worktree_path@, old(io).unread()),
            ),
    {
        let _ = Self::git_worktree_remove(io, dir, worktree_path, true)?;
        let _ = Self::force_cleanup_metadata(io, dir, worktree_path)?;
        match Self::simple_cleanup(io, worktree_path)? {
            Err(e) => return Ok(Err(e)),
            Ok(()) => {},
        }
        let _ = Self::git_worktree_prune(io, dir)?;
        Ok(Ok(()))
    }

    /// The directory that the git steps of a cleanup run in: the working
    /// directory of the repository, or the repository itself where it has
    /// none.
    pub open spec fn cleanup_dir(
        repo: Seq<char>,
        workdir: Result<Option<Seq<char>>, FailureModel>,
    ) -> Seq<char> {
        match workdir {
            Ok(Some(dir)) => dir,
            _ => repo,
        }
    }

    /// The run of `comprehensive_cleanup`: the steps of a cleanup, with git
    /// run in the working directory of the repository, or in the repository
    /// itself where it has none.
    pub open spec fn comprehensive_cleanup_run(
        repo: Seq<char>,
        worktree: Seq<char>,
        rest: Seq<ReplyModel>,
    ) -> Run<Result<(), WorkspaceErrorModel>> {
        match text_run(query(RequestKind::Workdir, repo, Seq::empty()), rest) {
            Run::Pending(q) => Run::Pending(q),
            Run::Ready(workdir, rest1) => Self::cleanup_steps_run(
                Self::cleanup_dir(repo, workdir),
                worktree,
                rest1,
            ),
        }
    }

    /// Clears everything away that belongs to the worktree.
    pub fn comprehensive_cleanup(io: &mut Replay, repo_path: &str, worktree_path: &str) -> (r: Result<
        Result<(), WorkspaceError>,
        Request,
    >)
        ensures
            settled(
                r,
                final(io).unread(),
                Self::comprehensive_cleanup_run(repo_path@, worktree_path@, old(io).unread()),
            ),
    {
        let dir = match io.text(Request::new(RequestKind::Workdir, repo_path, no_args()))? {
            Ok(Some(w)) => w,
            _ => repo_path.to_owned(),
        };
        Self::cleanup_steps(io, dir.as_str(), worktree_path)
    }

    /// The run of `comprehensive_cleanup_async`: the full cleanup where the
    /// repository can be opened, else only the directory is removed.
    pub open spec fn comprehensive_cleanup_async_run(
        repo: Seq<char>,
        worktree: Seq<char>,
        rest: Seq<ReplyModel>,
    ) -> Run<Result<(), WorkspaceErrorModel>> {
        match done_run(query(RequestKind::OpenRepo, repo, Seq::empty()), rest) {
            Run::Pending(q) => Run::Pending(q),
            Run::Ready(Ok(_), rest1) => Self::comprehensive_cleanup_run(repo, worktree, rest1),
            Run::Ready(Err(_), rest1) => Self::simple_cleanup_run(worktree, rest1),
        }
    }

    /// Clears the worktree away, with or without its repository.
    pub fn comprehensive_cleanup_async(io: &mut Replay, git_repo_path: &str, worktree_path: &str) -> (r:
        Result<Result<(), WorkspaceError>, Request>)
        ensures
            settled(
                r,
                final(io).unread(),
                Self::comprehensive_cleanup_async_run(
                    git_repo_path@,
                    worktree_path@,
                    old(io).unread(),
                ),
            ),
    {
        match io.done(Request::new(RequestKind::OpenRepo, git_repo_path, no_args()))? {
            Ok(()) => Self::comprehensive_cleanup(io, git_repo_path, worktree_path),
            Err(_) => Self::simple_cleanup(io, worktree_path),
        }
    }

    /// The run of making sure that the directory above the worktree exists.
    pub open spec fn ensure_parent_run(worktree: Seq<char>, rest: Seq<ReplyModel>) -> Run<
        Result<(), WorkspaceErrorModel>,
    > {
        match path_parent(worktree) {
            None => Run::Ready(Ok(()), rest),
            Some(parent) => match done_run(
                Request::plain(RequestKind::CreateDirAll, parent, Seq::empty()),
                rest,
            ) {
                Run::Pending(q) => Run::Pending(q),
                Run::Ready(Ok(_), rest1) => Run::Ready(Ok(()), rest1),
                Run::Ready(Err(f), rest1) => Run::Ready(
                    Err(WorkspaceErrorModel::Io(f.message)),
                    rest1,
                ),
            },
        }
    }

    fn ensure_parent(io: &mut Replay, worktree_path: &str) -> (r: Result<
        Result<(), WorkspaceError>,
        Request,
    >)
        ensures
            settled(r, final(io).unread(), Self::ensure_parent_run(worktree_path@, old(io).unread())),
    {
        match parent_of(worktree_path) {
            None => Ok(Ok(())),
            Some(parent) => match io.done(
                Request::new(RequestKind::CreateDirAll, parent.as_str(), no_args()),
            )? {
                Ok(()) => Ok(Ok(())),
                Err(f) => Ok(Err(WorkspaceError::Io(f.message))),
            },
        }
    }

    /// The run of `recreate_worktree_internal`: full cleanup, the parent
    /// directory, then creation with retry.
    pub open spec fn recreate_worktree_internal_run(
        repo: Seq<char>,
        branch: Seq<char>,
        worktree: Seq<char>,
        rest: Seq<ReplyModel>,
    ) -> Run<Result<(), WorkspaceErrorModel>> {
        match Self::comprehensive_cleanup_async_run(repo, worktree, rest) {
            Run::Pending(q) => Run::Pending(q),
            Run::Ready(Err(e), rest1) => Run::Ready(Err(e), rest1),
            Run::Ready(Ok(_), rest1) => match Self::ensure_parent_run(worktree, rest1) {
                Run::Pending(q) => Run::Pending(q),
                Run::Ready(Err(e), rest2) => Run::Ready(Err(e), rest2),
                Run::Ready(Ok(_), rest2) => Self::create_worktree_with_retry_run(
                    repo,
                    branch,
                    worktree,
                    rest2,
                ),
            },
        }
    }

    /// Creates the worktree anew.
    pub fn recreate_worktree_internal(
        io: &mut Replay,
        repo_path: &str,
        branch_name: &str,
        worktree_path: &str,
    ) -> (r: Result<Result<(), WorkspaceError>, Request>)
        ensures
            settled(
                r,
                final(io).unread(),
                Self::recreate_worktree_internal_run(
                    repo_path@,
                    branch_name@,
                    worktree_path@,
                    old(io).unread(),
                ),
            ),
    {
        match Self::comprehensive_cleanup_async(io, repo_path, worktree_path)? {
            Err(e) => return Ok(Err(e)),
            Ok(()) => {},
        }
        match Self::ensure_parent(io, worktree_path)? {
            Err(e) => return Ok(Err(e)),
            Ok(()) => {},
        }
        Self::create_worktree_with_retry(io, repo_path, branch_name, worktree_path)
    }

    /// The run of what `ensure_worktree_exists` does under the lock: nothing
    /// where the worktree is properly set up, else it is created anew.
    pub open spec fn ensure_body_run(
        repo: Seq<char>,
        branch: Seq<char>,
        worktree: Seq<char>,
        rest: Seq<ReplyModel>,
    ) -> Run<Result<(), WorkspaceErrorModel>> {
        match Self::is_worktree_properly_set_up_run(repo, worktree, rest) {
            Run::Pending(q) => Run::Pending(q),
            Run::Ready(Err(e), rest1) => Run::Ready(Err(e), rest1),
            Run::Ready(Ok(true), rest1) => Run::Ready(Ok(()), rest1),
            Run::Ready(Ok(false), rest1) => Self::recreate_worktree_internal_run(
                repo,
                branch,
                worktree,
                rest1,
            ),
        }
    }

    fn ensure_body(io: &mut Replay, repo_path: &str, branch_name: &str, worktree_path: &str) -> (r:
        Result<Result<(), WorkspaceError>, Request>)
        ensures
            settled(
                r,
                final(io).unread(),
                Self::ensure_body_run(repo_path@, branch_name@, worktree_path@, old(io).unread()),
            ),
    {
        match Self::is_worktree_properly_set_up(io, repo_path, worktree_path)? {
            Err(e) => Ok(Err(e)),
            Ok(true) => Ok(Ok(())),
            Ok(false) => Self::recreate_worktree_internal(io, repo_path, branch_name, worktree_path),
        }
    }

    /// The run of `ensure_worktree_exists`.
    pub open spec fn ensure_worktree_exists_run(
        repo: Seq<char>,
        branch: Seq<char>,
        worktree: Seq<char>,
        rest: Seq<ReplyModel>,
    ) -> Run<Result<(), WorkspaceErrorModel>> {
        locked_run(
            worktree,
            |r: Seq<ReplyModel>| Self::ensure_body_run(repo, branch, worktree, r),
            rest,
        )
    }

    /// Makes sure that the worktree at `worktree_path` exists for
    /// `branch_name`, under the lock of that path.
    pub fn ensure_worktree_exists(io: &mut Replay, repo_path: &str, branch_name: &str, worktree_path: &str) -> (r:
        Result<Result<(), WorkspaceError>, Request>)
        ensures
            settled(
                r,
                final(io).unread(),
                Self::ensure_worktree_exists_run(
                    repo_path@,
                    branch_name@,
                    worktree_path@,
                    old(io).unread(),
                ),
            ),
    {
        let key = Self::canonical(io, worktree_path)?;
        take_lock(io, key.as_str())?;
        let res = Self::ensure_body(io, repo_path, branch_name, worktree_path)?;
        give_lock(io, key.as_str())?;
        Ok(res)
    }

    /// The run of what `create_worktree` does under the lock: the branch is
    /// created from the base branch where that is asked for, then the
    /// worktree is made sure of.
    pub open spec fn create_body_run(
        repo: Seq<char>,
        branch: Seq<char>,
        worktree: Seq<char>,
        base_branch: Seq<char>,
        create_branch: bool,
        rest: Seq<ReplyModel>,
    ) -> Run<Result<(), WorkspaceErrorModel>> {
        if create_branch {
            match done_run(query(RequestKind::CreateBranch, repo, seq![branch, base_branch]), rest) {
                Run::Pending(q) => Run::Pending(q),
                Run::Ready(Err(f), rest1) => Run::Ready(
                    Err(WorkspaceErrorModel::Git(f.message)),
                    rest1,
                ),
                Run::Ready(Ok(_), rest1) => Self::ensure_body_run(repo, branch, worktree, rest1),
            }
        } else {
            Self::ensure_body_run(repo, branch, worktree, rest)
        }
    }

    fn create_body(
        io: &mut Replay,
        repo_path: &str,
        branch_name: &str,
        worktree_path: &str,
        base_branch: &str,
        create_branch: bool,
    ) -> (r: Result<Result<(), WorkspaceError>, Request>)
        ensures
            settled(
                r,
                final(io).unread(),
                Self::create_body_run(
                    repo_path@,
                    branch_name@,
                    worktree_path@,
                    base_branch@,
                    create_branch,
                    old(io).unread(),
                ),
            ),
    {
        if create_branch {
            match io.done(
                Request::new(RequestKind::CreateBranch, repo_path, argv2(branch_name, base_branch)),
            )? {
                Err(f) => return Ok(Err(WorkspaceError::Git(f.message))),
                Ok(()) => {},
            }
        }
        Self::ensure_body(io, repo_path, branch_name, worktree_path)
    }

    /// The run of `create_worktree`: under the lock of the path of the
    /// worktree, the branch is created where that is asked for, and the
    /// worktree is made sure of.
    pub open spec fn create_worktree_run(
        repo: Seq<char>,
        branch: Seq<char>,
        worktree: Seq<char>,
        base_branch: Seq<char>,
        create_branch: bool,
        rest: Seq<ReplyModel>,
    ) -> Run<Result<(), WorkspaceErrorModel>> {
        locked_run(
            worktree,
            |r: Seq<ReplyModel>|
                Self::create_body_run(repo, branch, worktree, base_branch, create_branch, r),
            rest,
        )
    }

    /// Creates a worktree at `worktree_path` for `branch_name`, with a new
    /// branch from `base_branch` where `create_branch` is set, under the lock
    /// of that path.
    pub fn create_worktree(
        io: &mut Replay,
        repo_path: &str,
        branch_name: &str,
        worktree_path: &str,
        base_branch: &str,
        create_branch: bool,
    ) -> (r: Result<Result<(), WorkspaceError>, Request>)
        ensures
            settled(
                r,
                final(io).unread(),
                Self::create_worktree_run(
                    repo_path@,
                    branch_name@,
                    worktree_path@,
                    base_branch@,
                    create_branch,
                    old(io).unread(),
                ),
            ),
    {
        let key = Self::canonical(io, worktree_path)?;
        take_lock(io, key.as_str())?;
        let res = Self::create_body(
            io,
            repo_path,
            branch_name,
            worktree_path,
            base_branch,
            create_branch,
        )?;
        give_lock(io, key.as_str())?;
        Ok(res)
    }

    /// The run of `infer_git_repo_path`: git is asked, from inside the
    /// worktree, for the common directory.
    pub open spec fn infer_git_repo_path_run(worktree: Seq<char>, rest: Seq<ReplyModel>) -> Run<
        Option<Seq<char>>,
    > {
        match ask(direct_request(worktree, seq!["rev-parse"@, "--git-common-dir"@]), rest) {
            Run::Pending(q) => Run::Pending(q),
            Run::Ready(reply, rest1) => Run::Ready(inferred_repo(reply), rest1),
        }
    }

    /// The repository that the worktree belongs to, where git can tell.
    pub fn infer_git_repo_path(io: &mut Replay, worktree_path: &str) -> (r: Result<
        Option<String>,
        Request,
    >)
        ensures
            settled(
                r,
                final(io).unread(),
                Self::infer_git_repo_path_run(worktree_path@, old(io).unread()),
            ),
    {
        let reply = io.ask(
            Request::new(
                RequestKind::GitDirect,
                worktree_path,
                argv2("rev-parse", "--git-common-dir"),
            ),
        )?;
        Ok(
            match reply {
                Reply::Exited { code: Some(0), stdout, .. } => repo_from_common_dir(stdout),
                _ => None,
            },
        )
    }

    /// The run of what `cleanup_worktree` does under the lock: with the
    /// repository that is given, or else inferred, the full cleanup; without
    /// one, only the directory is removed.
    pub open spec fn cleanup_body_run(cleanup: WorktreeCleanupModel, rest: Seq<ReplyModel>) -> Run<
        Result<(), WorkspaceErrorModel>,
    > {
        match cleanup.git_repo_path {
            Some(repo) => Self::comprehensive_cleanup_async_run(repo, cleanup.worktree_path, rest),
            None => match Self::infer_git_repo_path_run(cleanup.worktree_path, rest) {
                Run::Pending(q) => Run::Pending(q),
                Run::Ready(Some(repo), rest1) => Self::comprehensive_cleanup_async_run(
                    repo,
                    cleanup.worktree_path,
                    rest1,
                ),
                Run::Ready(None, rest1) => Self::simple_cleanup_run(cleanup.worktree_path, rest1),
            },
        }
    }

    fn cleanup_body(io: &mut Replay, cleanup: &WorktreeCleanup) -> (r: Result<
        Result<(), WorkspaceError>,
        Request,
    >)
        ensures
            settled(r, final(io).unread(), Self::cleanup_body_run(cleanup.model(), old(io).unread())),
    {
        let wt = cleanup.worktree_path.as_str();
        match &cleanup.git_repo_path {
            Some(repo) => Self::comprehensive_cleanup_async(io, repo.as_str(), wt),
            None => match Self::infer_git_repo_path(io, wt)? {
                Some(repo) => Self::comprehensive_cleanup_async(io, repo.as_str(), wt),
                None => Self::simple_cleanup(io, wt),
            },
        }
    }

    /// The run of `cleanup_worktree`.
    pub open spec fn cleanup_worktree_run(cleanup: WorktreeCleanupModel, rest: Seq<ReplyModel>) -> Run<
        Result<(), WorkspaceErrorModel>,
    > {
        locked_run(
            cleanup.worktree_path,
            |r: Seq<ReplyModel>| Self::cleanup_body_run(cleanup, r),
            rest,
        )
    }

    /// Clears a worktree away, under the lock of its path.
    pub fn cleanup_worktree(io: &mut Replay, cleanup: &WorktreeCleanup) -> (r: Result<
        Result<(), WorkspaceError>,
        Request,
    >)
        ensures
            settled(
                r,
                final(io).unread(),
                Self::cleanup_worktree_run(cleanup.model(), old(io).unread()),
            ),
    {
        let key = Self::canonical(io, cleanup.worktree_path.as_str())?;
        take_lock(io, key.as_str())?;
        let res = Self::cleanup_body(io, cleanup)?;
        give_lock(io, key.as_str())?;
        Ok(res)
    }

    /// The run of `move_worktree`: the move is made under the lock of the
    /// path that the worktree is moved from.
    pub open spec fn move_worktree_run(
        repo: Seq<char>,
        old_path: Seq<char>,
        new_path: Seq<char>,
        rest: Seq<ReplyModel>,
    ) -> Run<Result<(), WorkspaceErrorModel>> {
        locked_run(
            old_path,
            |r: Seq<ReplyModel>| Self::git_worktree_move_run(repo, old_path, new_path, r),
            rest,
        )
    }

    /// Moves a worktree from `old_path` to `new_path`.
    pub fn move_worktree(io: &mut Replay, repo_path: &str, old_path: &str, new_path: &str) -> (r:
        Result<Result<(), WorkspaceError>, Request>)
        ensures
            settled(
                r,
                final(io).unread(),
                Self::move_worktree_run(repo_path@, old_path@, new_path@, old(io).unread()),
            ),
    {
        let key = Self::canonical(io, old_path)?;
        take_lock(io, key.as_str())?;
        let res = Self::git_worktree_move(io, repo_path, old_path, new_path)?;
        give_lock(io, key.as_str())?;
        Ok(res)
    }

    /// The run of `batch_cleanup_worktrees`: each worktree is cleaned up in
    /// turn; that one fails does not keep the others from their turn, and
    /// the batch itself never fails.
    pub open spec fn batch_cleanup_worktrees_run(
        cleanups: Seq<WorktreeCleanupModel>,
        rest: Seq<ReplyModel>,
    ) -> Run<Result<(), WorkspaceErrorModel>>
        decreases cleanups.len(),
    {
        if cleanups.len() == 0 {
            Run::Ready(Ok(()), rest)
        } else {
            match Self::cleanup_worktree_run(cleanups[0], rest) {
                Run::Pending(q) => Run::Pending(q),
                Run::Ready(_, rest1) => Self::batch_cleanup_worktrees_run(
                    cleanups.drop_first(),
                    rest1,
                ),
            }
        }
    }

    /// Clears several worktrees away.
    pub fn batch_cleanup_worktrees(io: &mut Replay, cleanups: &Vec<WorktreeCleanup>) -> (r: Result<
        Result<(), WorkspaceError>,
        Request,
    >)
        ensures
            settled(
                r,
                final(io).unread(),
                Self::batch_cleanup_worktrees_run(cleanups.model(), old(io).unread()),
            ),
    {
        let ghost all = cleanups.model();
        let ghost start = io.unread();
        let mut i: usize = 0;
        assert(all.skip(0) =~= all);
        while i < cleanups.len()
            invariant
                i <= cleanups.len(),
                all == cleanups.model(),
                start == old(io).unread(),
                Self::batch_cleanup_worktrees_run(all, start) == Self::batch_cleanup_worktrees_run(
                    all.skip(i as int),
                    io.unread(),
                ),
            decreases cleanups.len() - i,
        {
            proof {
                assert(all.skip(i as int)[0] == cleanups@[i as int].model());
                assert(all.skip(i as int).drop_first() =~= all.skip(i + 1));
            }
            let _ = Self::cleanup_worktree(io, &cleanups[i])?;
            i += 1;
        }
        assert(all.skip(cleanups@.len() as int) =~= Seq::<WorktreeCleanupModel>::empty());
        Ok(Ok(()))
    }
}

/// The search through the registrations asks only for probes.
pub proof fn lemma_scan_only_probes(
    metadata: Seq<char>,
    entries: Seq<Seq<char>>,
    root: Seq<char>,
    rest: Seq<ReplyModel>,
)
    ensures
        WorktreeManager::scan_run(metadata, entries, root, rest) is Pending ==> is_probe(
            WorktreeManager::scan_run(metadata, entries, root, rest)->Pending_0,
        ),
    decreases entries.len(),
{
    if entries.len() > 0 {
        match WorktreeManager::entry_matches_run(metadata, entries[0], root, rest) {
            Run::Ready(false, rest1) => {
                lemma_scan_only_probes(metadata, entries.drop_first(), root, rest1);
            },
            _ => {},
        }
    }
}

/// The check whether a worktree is properly set up changes nothing: every
/// request it makes is a probe.
pub proof fn lemma_set_up_check_only_probes(
    repo: Seq<char>,
    worktree: Seq<char>,
    rest: Seq<ReplyModel>,
)
    ensures
        WorktreeManager::is_worktree_properly_set_up_run(repo, worktree, rest) is Pending
            ==> is_probe(
            WorktreeManager::is_worktree_properly_set_up_run(repo, worktree, rest)->Pending_0,
        ),
{
    match exists_run(worktree, rest) {
        Run::Ready(true, rest1) => match done_run(
            query(RequestKind::OpenRepo, repo, Seq::empty()),
            rest1,
        ) {
            Run::Ready(Ok(_), rest2) => match WorktreeManager::canonical_run(worktree, rest2) {
                Run::Ready(root, rest3) => match WorktreeManager::get_worktree_metadata_path_run(
                    repo,
                    rest3,
                ) {
                    Run::Ready(Ok(metadata), rest4) => match ask(
                        Request::plain(RequestKind::ListDir, metadata, Seq::empty()),
                        rest4,
                    ) {
                        Run::Ready(reply, rest5) => match WorktreeManager::listing_of(reply) {
                            Ok(entries) => {
                                lemma_scan_only_probes(metadata, entries, root, rest5);
                            },
                            _ => {},
                        },
                        _ => {},
                    },
                    _ => {},
                },
                _ => {},
            },
            _ => {},
        },
        _ => {},
    }
}

/// Creating, making sure of, cleaning up and moving a worktree each begin
/// by taking the lock of its path: the first request asks for the canonical
/// form of the path, and once that is told, the next request is for the
/// lock kept under it.
pub proof fn lemma_lock_comes_first(
    repo: Seq<char>,
    branch: Seq<char>,
    worktree: Seq<char>,
    cleanup: WorktreeCleanupModel,
    new_path: Seq<char>,
    first: ReplyModel,
)
    ensures
        WorktreeManager::ensure_worktree_exists_run(repo, branch, worktree, Seq::empty())
            is Pending,
        WorktreeManager::ensure_worktree_exists_run(
            repo,
            branch,
            worktree,
            Seq::empty(),
        )->Pending_0.kind == RequestKind::Canonical,
        WorktreeManager::ensure_worktree_exists_run(repo, branch, worktree, seq![first])
            == Run::<Result<(), WorkspaceErrorModel>>::Pending(
            lock_request(lock_key(worktree, seq![first])),
        ),
        WorktreeManager::cleanup_worktree_run(cleanup, seq![first]) == Run::<
            Result<(), WorkspaceErrorModel>,
        >::Pending(lock_request(lock_key(cleanup.worktree_path, seq![first]))),
        WorktreeManager::move_worktree_run(repo, worktree, new_path, seq![first]) == Run::<
            Result<(), WorkspaceErrorModel>,
        >::Pending(lock_request(lock_key(worktree, seq![first]))),
        forall|base: Seq<char>, create: bool|
            #[trigger] WorktreeManager::create_worktree_run(
                repo,
                branch,
                worktree,
                base,
                create,
                seq![first],
            ) == Run::<Result<(), WorkspaceErrorModel>>::Pending(
                lock_request(lock_key(worktree, seq![first])),
            ),
{
    assert(seq![first].drop_first() =~= Seq::<ReplyModel>::empty());
}

/// Making sure of a worktree that is properly set up does no work on the
/// file system: once the lock is held, the requests are probes until the
/// check has answered, then the lock is given back and the result is
/// success. So a second call that follows a first one undisturbed changes
/// nothing.
pub proof fn lemma_ensure_is_idempotent(
    repo: Seq<char>,
    branch: Seq<char>,
    worktree: Seq<char>,
    rest: Seq<ReplyModel>,
)
    requires
        rest.len() >= 2,
    ensures
        WorktreeManager::is_worktree_properly_set_up_run(repo, worktree, rest.skip(2))
            is Pending ==> WorktreeManager::ensure_worktree_exists_run(repo, branch, worktree, rest)
            is Pending && is_probe(
            WorktreeManager::ensure_worktree_exists_run(repo, branch, worktree, rest)->Pending_0,
        ),
        WorktreeManager::is_worktree_properly_set_up_run(repo, worktree, rest.skip(2))
            matches Run::Ready(Ok(true), rest2) ==> WorktreeManager::ensure_worktree_exists_run(
            repo,
            branch,
            worktree,
            rest,
        ) == (if rest2.len() == 0 {
            Run::<Result<(), WorkspaceErrorModel>>::Pending(
                unlock_request(lock_key(worktree, rest)),
            )
        } else {
            Run::<Result<(), WorkspaceErrorModel>>::Ready(Ok(()), rest2.drop_first())
        }),
{
    lemma_set_up_check_only_probes(repo, worktree, rest.skip(2));
    assert(rest.drop_first().drop_first() =~= rest.skip(2));
}


/// A cleanup fails only where a directory cannot be removed: whatever the
/// git steps and the clearing of the registration come to, where the run
/// ends with an error, it is an error of the file system, and in a cleanup
/// only the removal of the directory of the worktree hands one on.
pub proof fn lemma_cleanup_fails_only_on_removal(cleanup: WorktreeCleanupModel, rest: Seq<ReplyModel>)
    ensures
        WorktreeManager::cleanup_worktree_run(cleanup, rest) matches Run::Ready(Err(e), _)
            ==> e is Io,
        WorktreeManager::cleanup_body_run(cleanup, rest) matches Run::Ready(Err(e), _) ==> e is Io,
{
    lemma_cleanup_body(cleanup, rest);
    match WorktreeManager::canonical_run(cleanup.worktree_path, rest) {
        Run::Ready(key, rest0) => match ask(lock_request(key), rest0) {
            Run::Ready(_, rest1) => {
                lemma_cleanup_body(cleanup, rest1);
            },
            _ => {},
        },
        _ => {},
    }
}

/// The steps of a cleanup fail only with the error of the removal of the
/// directory, which is the error that `simple_cleanup` gives on the replies
/// that the git steps left.
pub proof fn lemma_cleanup_steps(dir: Seq<char>, worktree: Seq<char>, rest: Seq<ReplyModel>)
    ensures
        WorktreeManager::cleanup_steps_run(dir, worktree, rest) matches Run::Ready(Err(e), _)
            ==> e is Io,
{
}

/// What a cleanup does under its lock fails only with an error of the file
/// system.
pub proof fn lemma_cleanup_body(cleanup: WorktreeCleanupModel, rest: Seq<ReplyModel>)
    ensures
        WorktreeManager::cleanup_body_run(cleanup, rest) matches Run::Ready(Err(e), _) ==> e is Io,
{
    let wt = cleanup.worktree_path;
    match cleanup.git_repo_path {
        Some(repo) => {
            lemma_cleanup_async(repo, wt, rest);
        },
        None => match WorktreeManager::infer_git_repo_path_run(wt, rest) {
            Run::Ready(Some(repo), rest1) => {
                lemma_cleanup_async(repo, wt, rest1);
            },
            _ => {},
        },
    }
}

/// A cleanup with or without its repository fails only with an error of the
/// file system.
pub proof fn lemma_cleanup_async(repo: Seq<char>, worktree: Seq<char>, rest: Seq<ReplyModel>)
    ensures
        WorktreeManager::comprehensive_cleanup_async_run(repo, worktree, rest) matches Run::Ready(
            Err(e),
            _,
        ) ==> e is Io,
{
    match done_run(query(RequestKind::OpenRepo, repo, Seq::empty()), rest) {
        Run::Ready(Ok(_), rest1) => match text_run(
            query(RequestKind::Workdir, repo, Seq::empty()),
            rest1,
        ) {
            Run::Ready(workdir, rest2) => {
                lemma_cleanup_steps(WorktreeManager::cleanup_dir(repo, workdir), worktree, rest2);
            },
            _ => {},
        },
        _ => {},
    }
}


/// An operation under a lock gives the lock back last: once the lock is
/// taken, every request up to the end of the body is the body's own, the
/// request after the body is for giving the lock back, and the result is
/// there only once that request is answered.
pub proof fn lemma_lock_is_given_back_last<T>(
    path: Seq<char>,
    body: spec_fn(Seq<ReplyModel>) -> Run<T>,
    rest: Seq<ReplyModel>,
)
    requires
        rest.len() >= 2,
    ensures
        ({
            let key = lock_key(path, rest);
            let inside = body(rest.skip(2));
            &&& inside is Pending ==> locked_run(path, body, rest) == Run::<T>::Pending(
                inside->Pending_0,
            )
            &&& inside matches Run::Ready(value, left) ==> locked_run(path, body, rest) == (
            if left.len() == 0 {
                Run::<T>::Pending(unlock_request(key))
            } else {
                Run::<T>::Ready(value, left.drop_first())
            })
        }),
{
    assert(rest.drop_first().drop_first() =~= rest.skip(2));
}

} // verus!
