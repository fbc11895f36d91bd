//! Worktree operations of the repository service: adding, removing and
//! moving worktrees, the cleanliness check, and resetting to a commit.

use vstd::prelude::*;
use crate::effects::{
    argv3, names_run, settled, text_run, Replay, ReplyModel, Request, RequestKind, Run,
};
use crate::errors::{GitCliError, GitCliErrorModel, GitServiceError, GitServiceErrorModel};
use crate::git_cli::GitCli;
use crate::git_service::{
    invalid_repo, join_with, joined, no_args, query, reconcile_outcome, reconcile_resets,
    run_invalid, GitService,
};
use crate::model::Model;
use crate::types::{WorktreeResetOptions, WorktreeResetOutcome, WorktreeStatus, WorktreeStatusModel};

verus! {

/// A failure of the git executable as an invalid repository with the same text.
pub open spec fn run_invalid_plain<T>(run: Run<Result<T, GitCliErrorModel>>) -> Run<
    Result<T, GitServiceErrorModel>,
> {
    match run {
        Run::Pending(q) => Run::Pending(q),
        Run::Ready(Ok(v), rest) => Run::Ready(Ok(v), rest),
        Run::Ready(Err(e), rest) => Run::Ready(
            Err(GitServiceErrorModel::InvalidRepository(e.message())),
            rest,
        ),
    }
}

fn invalid_plain(e: &GitCliError) -> (r: GitServiceError)
    ensures
        r.model() == GitServiceErrorModel::InvalidRepository(e.model().message()),
{
    GitServiceError::InvalidRepository(e.message())
}

/// The branch name to report, or the empty text where none was read.
pub open spec fn name_or_empty<F>(name: Result<Option<Seq<char>>, F>) -> Seq<char> {
    match name {
        Ok(Some(n)) => n,
        _ => Seq::empty(),
    }
}

impl GitService {
    /// The run of `delete_branch`.
    pub open spec fn delete_branch_run(repo: Seq<char>, branch: Seq<char>, rest: Seq<ReplyModel>) -> Run<
        Result<(), GitServiceErrorModel>,
    > {
        run_invalid_plain(GitCli::delete_branch_run(repo, branch, rest))
    }

    /// Deletes the local branch `branch_name`.
    pub fn delete_branch(&self, io: &mut Replay, repo_path: &str, branch_name: &str) -> (r: Result<
        Result<(), GitServiceError>,
        Request,
    >)
        ensures
            settled(
                r,
                final(io).unread(),
                Self::delete_branch_run(repo_path@, branch_name@, old(io).unread()),
            ),
    {
        match GitCli::new().delete_branch(io, repo_path, branch_name)? {
            Ok(()) => Ok(Ok(())),
            Err(e) => Ok(Err(invalid_plain(&e))),
        }
    }

    /// The run of `add_worktree`.
    pub open spec fn add_worktree_run(
        repo: Seq<char>,
        worktree: Seq<char>,
        branch: Seq<char>,
        create: bool,
        rest: Seq<ReplyModel>,
    ) -> Run<Result<(), GitServiceErrorModel>> {
        run_invalid_plain(GitCli::worktree_add_run(repo, worktree, branch, create, rest))
    }

    /// Adds a worktree at `worktree_path` for `branch`.
    pub fn add_worktree(
        &self,
        io: &mut Replay,
        repo_path: &str,
        worktree_path: &str,
        branch: &str,
        create_branch: bool,
    ) -> (r: Result<Result<(), GitServiceError>, Request>)
        ensures
            settled(
                r,
                final(io).unread(),
                Self::add_worktree_run(
                    repo_path@,
                    worktree_path@,
                    branch@,
                    create_branch,
                    old(io).unread(),
                ),
            ),
    {
        match GitCli::new().worktree_add(io, repo_path, worktree_path, branch, create_branch)? {
            Ok(()) => Ok(Ok(())),
            Err(e) => Ok(Err(invalid_plain(&e))),
        }
    }

    /// The run of `remove_worktree`.
    pub open spec fn remove_worktree_run(
        repo: Seq<char>,
        worktree: Seq<char>,
        force: bool,
        rest: Seq<ReplyModel>,
    ) -> Run<Result<(), GitServiceErrorModel>> {
        run_invalid_plain(GitCli::worktree_remove_run(repo, worktree, force, rest))
    }

    /// Removes the worktree at `worktree_path`.
    pub fn remove_worktree(&self, io: &mut Replay, repo_path: &str, worktree_path: &str, force: bool) -> (r:
        Result<Result<(), GitServiceError>, Request>)
        ensures
            settled(
                r,
                final(io).unread(),
                Self::remove_worktree_run(repo_path@, worktree_path@, force, old(io).unread()),
            ),
    {
        match GitCli::new().worktree_remove(io, repo_path, worktree_path, force)? {
            Ok(()) => Ok(Ok(())),
            Err(e) => Ok(Err(invalid_plain(&e))),
        }
    }

    /// The run of `prune_worktrees`.
    pub open spec fn prune_worktrees_run(repo: Seq<char>, rest: Seq<ReplyModel>) -> Run<
        Result<(), GitServiceErrorModel>,
    > {
        run_invalid_plain(GitCli::worktree_prune_run(repo, rest))
    }

    /// Prunes the registrations of worktrees that are gone.
    pub fn prune_worktrees(&self, io: &mut Replay, repo_path: &str) -> (r: Result<
        Result<(), GitServiceError>,
        Request,
    >)
        ensures
            settled(r, final(io).unread(), Self::prune_worktrees_run(repo_path@, old(io).unread())),
    {
        match GitCli::new().worktree_prune(io, repo_path)? {
            Ok(()) => Ok(Ok(())),
            Err(e) => Ok(Err(invalid_plain(&e))),
        }
    }

    /// The run of `move_worktree`.
    pub open spec fn move_worktree_run(
        repo: Seq<char>,
        old_path: Seq<char>,
        new_path: Seq<char>,
        rest: Seq<ReplyModel>,
    ) -> Run<Result<(), GitServiceErrorModel>> {
        run_invalid_plain(GitCli::worktree_move_run(repo, old_path, new_path, rest))
    }

    /// Moves a worktree from `old_path` to `new_path`.
    pub fn move_worktree(&self, io: &mut Replay, repo_path: &str, old_path: &str, new_path: &str) -> (r:
        Result<Result<(), GitServiceError>, Request>)
        ensures
            settled(
                r,
                final(io).unread(),
                Self::move_worktree_run(repo_path@, old_path@, new_path@, old(io).unread()),
            ),
    {
        match GitCli::new().worktree_move(io, repo_path, old_path, new_path)? {
            Ok(()) => Ok(Ok(())),
            Err(e) => Ok(Err(invalid_plain(&e))),
        }
    }

    /// The run of the cleanliness check: an error that names the branch and
    /// the paths where a tracked file differs from `HEAD`. Untracked and
    /// ignored files do not count.
    pub open spec fn check_worktree_clean_run(repo: Seq<char>, rest: Seq<ReplyModel>) -> Run<
        Result<(), GitServiceErrorModel>,
    > {
        match names_run(query(RequestKind::DirtyPaths, repo, Seq::empty()), rest) {
            Run::Pending(q) => Run::Pending(q),
            Run::Ready(Err(f), rest1) => Run::Ready(Err(GitServiceErrorModel::Git(f.message)), rest1),
            Run::Ready(Ok(paths), rest1) => if paths.len() == 0 {
                Run::Ready(Ok(()), rest1)
            } else {
                match text_run(query(RequestKind::HeadName, repo, Seq::empty()), rest1) {
                    Run::Pending(q) => Run::Pending(q),
                    Run::Ready(name, rest2) => Run::Ready(
                        Err(
                            GitServiceErrorModel::WorktreeDirty(
                                name_or_empty(name),
                                joined(paths, ", "@),
                            ),
                        ),
                        rest2,
                    ),
                }
            },
        }
    }

    /// Checks that no tracked file of the worktree differs from `HEAD`.
    pub fn check_worktree_clean(&self, io: &mut Replay, repo_path: &str) -> (r: Result<
        Result<(), GitServiceError>,
        Request,
    >)
        ensures
            settled(
                r,
                final(io).unread(),
                Self::check_worktree_clean_run(repo_path@, old(io).unread()),
            ),
    {
        let paths = match io.names(Request::new(RequestKind::DirtyPaths, repo_path, no_args()))? {
            Err(f) => return Ok(Err(GitServiceError::from_graph(f))),
            Ok(p) => p,
        };
        if paths.len() == 0 {
            return Ok(Ok(()));
        }
        let name = io.text(Request::new(RequestKind::HeadName, repo_path, no_args()))?;
        let branch = match name {
            Ok(Some(n)) => n,
            _ => String::new(),
        };
        Ok(Err(GitServiceError::WorktreeDirty(branch, join_with(&paths, ", "))))
    }

    /// The run of `reset_worktree_to_commit`.
    pub open spec fn reset_worktree_to_commit_run(
        worktree: Seq<char>,
        sha: Seq<char>,
        force: bool,
        rest: Seq<ReplyModel>,
    ) -> Run<Result<(), GitServiceErrorModel>> {
        match Self::open_repo_run(worktree, rest) {
            Run::Pending(q) => Run::Pending(q),
            Run::Ready(Err(e), rest1) => Run::Ready(Err(e), rest1),
            Run::Ready(Ok(_), rest1) => if force {
                run_invalid(
                    "git reset --hard failed: "@,
                    GitCli::plain_run(worktree, seq!["reset"@, "--hard"@, sha], rest1),
                )
            } else {
                match Self::check_worktree_clean_run(worktree, rest1) {
                    Run::Pending(q) => Run::Pending(q),
                    Run::Ready(Err(e), rest2) => Run::Ready(Err(e), rest2),
                    Run::Ready(Ok(_), rest2) => run_invalid(
                        "git reset --hard failed: "@,
                        GitCli::plain_run(worktree, seq!["reset"@, "--hard"@, sha], rest2),
                    ),
                }
            },
        }
    }

    /// Resets the worktree to `commit_sha`, discarding what differs. Without
    /// `force` a worktree that is not clean is left alone and reported.
    pub fn reset_worktree_to_commit(
        &self,
        io: &mut Replay,
        worktree_path: &str,
        commit_sha: &str,
        force: bool,
    ) -> (r: Result<Result<(), GitServiceError>, Request>)
        ensures
            settled(
                r,
                final(io).unread(),
                Self::reset_worktree_to_commit_run(
                    worktree_path@,
                    commit_sha@,
                    force,
                    old(io).unread(),
                ),
            ),
    {
        match self.open_repo(io, worktree_path)? {
            Err(e) => return Ok(Err(e)),
            Ok(()) => {},
        }
        if !force {
            match self.check_worktree_clean(io, worktree_path)? {
                Err(e) => return Ok(Err(e)),
                Ok(()) => {},
            }
        }
        match GitCli::new().git(io, worktree_path, argv3("reset", "--hard", commit_sha))? {
            Ok(_) => Ok(Ok(())),
            Err(e) => Ok(Err(invalid_repo("git reset --hard failed: ", &e))),
        }
    }

    /// The run of `reconcile_worktree_to_commit`: a reset is needed where
    /// `HEAD` is not at the target or the worktree is said to be dirty; it is
    /// made where the options ask for it and a dirty worktree may be forced.
    pub open spec fn reconcile_worktree_to_commit_run(
        worktree: Seq<char>,
        target: Seq<char>,
        options: WorktreeResetOptions,
        rest: Seq<ReplyModel>,
    ) -> Run<WorktreeResetOutcome> {
        match Self::get_head_info_run(worktree, rest) {
            Run::Pending(q) => Run::Pending(q),
            Run::Ready(info, rest1) => {
                let head = match info {
                    Ok(i) => Some(i.oid),
                    Err(_) => None,
                };
                if reconcile_resets(head, target, options) {
                    match Self::reset_worktree_to_commit_run(
                        worktree,
                        target,
                        options.force_when_dirty,
                        rest1,
                    ) {
                        Run::Pending(q) => Run::Pending(q),
                        Run::Ready(res, rest2) => Run::Ready(
                            reconcile_outcome(head, target, options, res is Ok),
                            rest2,
                        ),
                    }
                } else {
                    Run::Ready(reconcile_outcome(head, target, options, false), rest1)
                }
            },
        }
    }

    /// Brings the worktree to `target_commit_oid` as far as `options` allow,
    /// and tells whether that was needed and whether it was done.
    pub fn reconcile_worktree_to_commit(
        &self,
        io: &mut Replay,
        worktree_path: &str,
        target_commit_oid: &str,
        options: WorktreeResetOptions,
    ) -> (r: Result<WorktreeResetOutcome, Request>)
        ensures
            settled(
                r,
                final(io).unread(),
                Self::reconcile_worktree_to_commit_run(
                    worktree_path@,
                    target_commit_oid@,
                    options,
                    old(io).unread(),
                ),
            ),
    {
        let info = self.get_head_info(io, worktree_path)?;
        let at_target = match &info {
            Ok(i) => crate::text::same_text(i.oid.as_str(), target_commit_oid),
            Err(_) => false,
        };
        let mut outcome = WorktreeResetOutcome { needed: false, applied: false };
        if !at_target || options.is_dirty {
            outcome.needed = true;
            if options.perform_reset {
                if options.is_dirty && !options.force_when_dirty {
                } else {
                    let res = self.reset_worktree_to_commit(
                        io,
                        worktree_path,
                        target_commit_oid,
                        options.force_when_dirty,
                    )?;
                    if res.is_ok() {
                        outcome.applied = true;
                    }
                }
            }
        }
        Ok(outcome)
    }

    /// The run of `is_worktree_clean`: a repository that cannot be opened
    /// counts as not clean.
    pub open spec fn is_worktree_clean_run(worktree: Seq<char>, rest: Seq<ReplyModel>) -> Run<
        Result<bool, GitServiceErrorModel>,
    > {
        match Self::open_repo_run(worktree, rest) {
            Run::Pending(q) => Run::Pending(q),
            Run::Ready(Err(_), rest1) => Run::Ready(Ok(false), rest1),
            Run::Ready(Ok(_), rest1) => match Self::check_worktree_clean_run(worktree, rest1) {
                Run::Pending(q) => Run::Pending(q),
                Run::Ready(res, rest2) => Run::Ready(Ok(res is Ok), rest2),
            },
        }
    }

    /// Whether no tracked file of the worktree differs from `HEAD`.
    pub fn is_worktree_clean(&self, io: &mut Replay, worktree_path: &str) -> (r: Result<
        Result<bool, GitServiceError>,
        Request,
    >)
        ensures
            settled(
                r,
                final(io).unread(),
                Self::is_worktree_clean_run(worktree_path@, old(io).unread()),
            ),
    {
        match self.open_repo(io, worktree_path)? {
            Err(_) => Ok(Ok(false)),
            Ok(()) => {
                let res = self.check_worktree_clean(io, worktree_path)?;
                Ok(Ok(res.is_ok()))
            },
        }
    }

    /// The run of `get_worktree_status`.
    pub open spec fn get_worktree_status_run(worktree: Seq<char>, rest: Seq<ReplyModel>) -> Run<
        Result<WorktreeStatusModel, GitServiceErrorModel>,
    > {
        run_invalid("git status failed: "@, GitCli::get_worktree_status_run(worktree, rest))
    }

    /// The status of the working tree, path by path.
    pub fn get_worktree_status(&self, io: &mut Replay, worktree_path: &str) -> (r: Result<
        Result<WorktreeStatus, GitServiceError>,
        Request,
    >)
        ensures
            settled(
                r,
                final(io).unread(),
                Self::get_worktree_status_run(worktree_path@, old(io).unread()),
            ),
    {
        match GitCli::new().get_worktree_status(io, worktree_path)? {
            Ok(st) => Ok(Ok(st)),
            Err(e) => Ok(Err(invalid_repo("git status failed: ", &e))),
        }
    }

    /// The run of `get_worktree_change_counts`: how many tracked paths have
    /// changes, and how many paths are untracked.
    pub open spec fn get_worktree_change_counts_run(worktree: Seq<char>, rest: Seq<ReplyModel>) -> Run<
        Result<(int, int), GitServiceErrorModel>,
    > {
        match Self::get_worktree_status_run(worktree, rest) {
            Run::Pending(q) => Run::Pending(q),
            Run::Ready(Err(e), rest1) => Run::Ready(Err(e), rest1),
            Run::Ready(Ok(st), rest1) => Run::Ready(
                Ok((st.uncommitted_tracked, st.untracked)),
                rest1,
            ),
        }
    }

    /// How many tracked paths have changes, and how many paths are untracked.
    pub fn get_worktree_change_counts(&self, io: &mut Replay, worktree_path: &str) -> (r: Result<
        Result<(usize, usize), GitServiceError>,
        Request,
    >)
        ensures
            match Self::get_worktree_change_counts_run(worktree_path@, old(io).unread()) {
                Run::Pending(q) => r is Err && r->Err_0.model() == q,
                Run::Ready(Err(e), rest1) => r is Ok && r->Ok_0 is Err && r->Ok_0->Err_0.model()
                    == e && final(io).unread() == rest1,
                Run::Ready(Ok(c), rest1) => r is Ok && r->Ok_0 is Ok && r->Ok_0->Ok_0.0 == c.0
                    && r->Ok_0->Ok_0.1 == c.1 && final(io).unread() == rest1,
            },
    {
        match self.get_worktree_status(io, worktree_path)? {
            Ok(st) => Ok(Ok((st.uncommitted_tracked, st.untracked))),
            Err(e) => Ok(Err(e)),
        }
    }
}

} // verus!
