//! Squash-merge, rebase and push: the operations that change history.

use vstd::prelude::*;
use crate::effects::{
    argv2, argv3, done_run, flag_run, must_text_run, settled, text_run, Replay, ReplyModel,
    Request, RequestKind, RequestModel, Run,
};
use crate::errors::{GitCliError, GitCliErrorModel, GitServiceError, GitServiceErrorModel};
use crate::git_cli::GitCli;
use crate::git_service::{graph, invalid_repo, no_args, query, GitService};
use crate::model::Model;
use crate::text::{contains, decimal, decimal_text, has_infix, join2, join3, same_text};
use crate::types::{WorktreeEntry, WorktreeEntryModel};

verus! {

/// The path of the first worktree that has `branch` checked out.
pub open spec fn worktree_of(worktrees: Seq<WorktreeEntryModel>, branch: Seq<char>) -> Option<
    Seq<char>,
>
    decreases worktrees.len(),
{
    if worktrees.len() == 0 {
        None
    } else if worktrees[0].branch == Some(branch) {
        Some(worktrees[0].path)
    } else {
        worktree_of(worktrees.drop_first(), branch)
    }
}

fn find_worktree_of(worktrees: &Vec<WorktreeEntry>, branch: &str) -> (r: Option<String>)
    ensures
        r.model() == worktree_of(worktrees.model(), branch@),
{
    let mut i: usize = 0;
    assert(worktrees.model().skip(0) =~= worktrees.model());
    while i < worktrees.len()
        invariant
            i <= worktrees.len(),
            worktree_of(worktrees.model(), branch@) == worktree_of(
                worktrees.model().skip(i as int),
                branch@,
            ),
        decreases worktrees.len() - i,
    {
        proof {
            assert(worktrees.model().skip(i as int)[0] == worktrees@[i as int].model());
            assert(worktrees.model().skip(i as int).drop_first() =~= worktrees.model().skip(i + 1));
        }
        let hit = match &worktrees[i].branch {
            Some(b) => same_text(b.as_str(), branch),
            None => false,
        };
        if hit {
            return Some(worktrees[i].path.clone());
        }
        i += 1;
    }
    None
}

/// The text that reports how far the base is ahead of the task branch.
pub open spec fn diverged_text(behind: usize) -> Seq<char> {
    "Cannot merge: base is "@ + decimal(behind as nat) + " commits ahead of task"@
}

/// What the service makes of a failed rebase: a rebase that is already
/// under way, conflicts where the output speaks of one, else an invalid
/// repository.
pub open spec fn rebase_failure(e: GitCliErrorModel) -> GitServiceErrorModel {
    match e {
        GitCliErrorModel::RebaseInProgress => GitServiceErrorModel::RebaseInProgress,
        GitCliErrorModel::CommandFailed(out) => if has_infix(out, "CONFLICT"@) {
            GitServiceErrorModel::MergeConflicts("Rebase conflict"@)
        } else {
            GitServiceErrorModel::InvalidRepository("git rebase failed: "@ + e.message())
        },
        _ => GitServiceErrorModel::InvalidRepository("git rebase failed: "@ + e.message()),
    }
}

/// What the service makes of a failed rebase.
pub fn classify_rebase_failure(e: &GitCliError) -> (r: GitServiceError)
    ensures
        r.model() == rebase_failure(e.model()),
{
    match e {
        GitCliError::RebaseInProgress => GitServiceError::RebaseInProgress,
        GitCliError::CommandFailed(out) => {
            if contains(out.as_str(), "CONFLICT") {
                GitServiceError::MergeConflicts("Rebase conflict".to_owned())
            } else {
                invalid_repo("git rebase failed: ", e)
            }
        },
        _ => invalid_repo("git rebase failed: ", e),
    }
}

/// Whether a request only reads: it is a query to the object graph that
/// changes neither the repository nor the working tree.
pub open spec fn reads_only(q: RequestModel) -> bool {
    q.kind == RequestKind::OpenRepo || q.kind == RequestKind::BranchRefName || q.kind
        == RequestKind::BranchTarget || q.kind == RequestKind::AheadBehind
}

impl GitService {
    /// The run of the squash-merge once the base branch is found checked out
    /// at `base_path`: nothing may be staged there; the task branch is
    /// merged into the base branch as one commit; then the task branch is
    /// pointed at that commit.
    pub open spec fn squash_run(
        base_worktree: Seq<char>,
        base_path: Seq<char>,
        task_branch: Seq<char>,
        base_branch: Seq<char>,
        message: Seq<char>,
        rest: Seq<ReplyModel>,
    ) -> Run<Result<Seq<char>, GitServiceErrorModel>> {
        match GitCli::has_staged_changes_run(base_path, rest) {
            Run::Pending(q) => Run::Pending(q),
            Run::Ready(Err(e), rest1) => Run::Ready(Err(GitServiceErrorModel::GitCli(e)), rest1),
            Run::Ready(Ok(true), rest1) => Run::Ready(
                Err(GitServiceErrorModel::WorktreeDirty(base_branch, "has staged changes"@)),
                rest1,
            ),
            Run::Ready(Ok(false), rest1) => match Self::ensure_cli_commit_identity_run(
                base_path,
                rest1,
            ) {
                Run::Pending(q) => Run::Pending(q),
                Run::Ready(Err(e), rest2) => Run::Ready(Err(e), rest2),
                Run::Ready(Ok(_), rest2) => match GitCli::merge_squash_commit_run(
                    base_path,
                    base_branch,
                    task_branch,
                    message,
                    rest2,
                ) {
                    Run::Pending(q) => Run::Pending(q),
                    Run::Ready(Err(e), rest3) => Run::Ready(
                        Err(
                            GitServiceErrorModel::InvalidRepository(
                                "CLI merge failed: "@ + e.message(),
                            ),
                        ),
                        rest3,
                    ),
                    Run::Ready(Ok(sha), rest3) => match GitCli::update_ref_run(
                        base_worktree,
                        "refs/heads/"@ + task_branch,
                        sha,
                        rest3,
                    ) {
                        Run::Pending(q) => Run::Pending(q),
                        Run::Ready(Err(e), rest4) => Run::Ready(
                            Err(
                                GitServiceErrorModel::InvalidRepository(
                                    "update-ref failed: "@ + e.message(),
                                ),
                            ),
                            rest4,
                        ),
                        Run::Ready(Ok(_), rest4) => Run::Ready(Ok(sha), rest4),
                    },
                },
            },
        }
    }

    /// The run of `merge_changes`: refused where the task branch lacks
    /// commits of the base branch; else the worktree that has the base branch
    /// checked out is found and the squash-merge made there.
    pub open spec fn merge_changes_run(
        base_worktree: Seq<char>,
        task_branch: Seq<char>,
        base_branch: Seq<char>,
        message: Seq<char>,
        rest: Seq<ReplyModel>,
    ) -> Run<Result<Seq<char>, GitServiceErrorModel>> {
        match Self::get_branch_status_run(base_worktree, task_branch, base_branch, rest) {
            Run::Pending(q) => Run::Pending(q),
            Run::Ready(Err(e), rest1) => Run::Ready(Err(e), rest1),
            Run::Ready(Ok(counts), rest1) => if counts.1 > 0 {
                Run::Ready(
                    Err(GitServiceErrorModel::BranchesDiverged(diverged_text(counts.1))),
                    rest1,
                )
            } else {
                match GitCli::list_worktrees_run(base_worktree, rest1) {
                    Run::Pending(q) => Run::Pending(q),
                    Run::Ready(Err(e), rest2) => Run::Ready(
                        Err(GitServiceErrorModel::GitCli(e)),
                        rest2,
                    ),
                    Run::Ready(Ok(worktrees), rest2) => match worktree_of(worktrees, base_branch) {
                        None => Run::Ready(
                            Err(
                                GitServiceErrorModel::InvalidRepository(
                                    "Base branch not checked out"@,
                                ),
                            ),
                            rest2,
                        ),
                        Some(path) => Self::squash_run(
                            base_worktree,
                            path,
                            task_branch,
                            base_branch,
                            message,
                            rest2,
                        ),
                    },
                }
            },
        }
    }

    /// Merges the task branch into the base branch as a single commit, points
    /// the task branch at that commit and returns its id.
    pub fn merge_changes(
        &self,
        io: &mut Replay,
        base_worktree_path: &str,
        task_worktree_path: &str,
        task_branch_name: &str,
        base_branch_name: &str,
        commit_message: &str,
    ) -> (r: Result<Result<String, GitServiceError>, Request>)
        ensures
            settled(
                r,
                final(io).unread(),
                Self::merge_changes_run(
                    base_worktree_path@,
                    task_branch_name@,
                    base_branch_name@,
                    commit_message@,
                    old(io).unread(),
                ),
            ),
    {
        let counts = match self.get_branch_status(
            io,
            base_worktree_path,
            task_branch_name,
            base_branch_name,
        )? {
            Err(e) => return Ok(Err(e)),
            Ok(c) => c,
        };
        if counts.1 > 0 {
            let msg = join3(
                "Cannot merge: base is ",
                decimal_text(counts.1).as_str(),
                " commits ahead of task",
            );
            return Ok(Err(GitServiceError::BranchesDiverged(msg)));
        }
        let git_cli = GitCli::new();
        let worktrees = match git_cli.list_worktrees(io, base_worktree_path)? {
            Err(e) => return Ok(Err(GitServiceError::GitCli(e))),
            Ok(w) => w,
        };
        let path = match find_worktree_of(&worktrees, base_branch_name) {
            None => return Ok(
                Err(GitServiceError::InvalidRepository("Base branch not checked out".to_owned())),
            ),
            Some(p) => p,
        };
        match git_cli.has_staged_changes(io, path.as_str())? {
            Err(e) => return Ok(Err(GitServiceError::GitCli(e))),
            Ok(true) => return Ok(
                Err(
                    GitServiceError::WorktreeDirty(
                        base_branch_name.to_owned(),
                        "has staged changes".to_owned(),
                    ),
                ),
            ),
            Ok(false) => {},
        }
        match self.ensure_cli_commit_identity(io, path.as_str())? {
            Err(e) => return Ok(Err(e)),
            Ok(()) => {},
        }
        let sha = match git_cli.merge_squash_commit(
            io,
            path.as_str(),
            base_branch_name,
            task_branch_name,
            commit_message,
        )? {
            Err(e) => return Ok(Err(invalid_repo("CLI merge failed: ", &e))),
            Ok(s) => s,
        };
        let refname = join2("refs/heads/", task_branch_name);
        match git_cli.update_ref(io, base_worktree_path, refname.as_str(), sha.as_str())? {
            Err(e) => Ok(Err(invalid_repo("update-ref failed: ", &e))),
            Ok(()) => Ok(Ok(sha)),
        }
    }

    /// The run of `rebase_branch`: the worktree must be clean and no rebase
    /// under way; after the rebase the id of the commit at `HEAD` is read.
    pub open spec fn rebase_branch_run(
        worktree: Seq<char>,
        new_base: Seq<char>,
        old_base: Seq<char>,
        task_branch: Seq<char>,
        rest: Seq<ReplyModel>,
    ) -> Run<Result<Seq<char>, GitServiceErrorModel>> {
        match Self::open_repo_run(worktree, rest) {
            Run::Pending(q) => Run::Pending(q),
            Run::Ready(Err(e), rest1) => Run::Ready(Err(e), rest1),
            Run::Ready(Ok(_), rest1) => match Self::check_worktree_clean_run(worktree, rest1) {
                Run::Pending(q) => Run::Pending(q),
                Run::Ready(Err(e), rest2) => Run::Ready(Err(e), rest2),
                Run::Ready(Ok(_), rest2) => match GitCli::is_rebase_in_progress_run(worktree, rest2) {
                    Run::Pending(q) => Run::Pending(q),
                    Run::Ready(Ok(true), rest3) => Run::Ready(
                        Err(GitServiceErrorModel::RebaseInProgress),
                        rest3,
                    ),
                    Run::Ready(_, rest3) => match Self::ensure_cli_commit_identity_run(
                        worktree,
                        rest3,
                    ) {
                        Run::Pending(q) => Run::Pending(q),
                        Run::Ready(Err(e), rest4) => Run::Ready(Err(e), rest4),
                        Run::Ready(Ok(_), rest4) => match GitCli::rebase_onto_run(
                            worktree,
                            new_base,
                            old_base,
                            task_branch,
                            rest4,
                        ) {
                            Run::Pending(q) => Run::Pending(q),
                            Run::Ready(Err(e), rest5) => Run::Ready(Err(rebase_failure(e)), rest5),
                            Run::Ready(Ok(_), rest5) => match must_text_run(
                                query(RequestKind::HeadCommit, worktree, Seq::empty()),
                                rest5,
                            ) {
                                Run::Pending(q) => Run::Pending(q),
                                Run::Ready(res, rest6) => Run::Ready(graph(res), rest6),
                            },
                        },
                    },
                },
            },
        }
    }

    /// Rebases `task_branch` from `old_base_branch` onto `new_base_branch` in
    /// the worktree and returns the id of the new head commit.
    pub fn rebase_branch(
        &self,
        io: &mut Replay,
        repo_path: &str,
        worktree_path: &str,
        new_base_branch: &str,
        old_base_branch: &str,
        task_branch: &str,
    ) -> (r: Result<Result<String, GitServiceError>, Request>)
        ensures
            settled(
                r,
                final(io).unread(),
                Self::rebase_branch_run(
                    worktree_path@,
                    new_base_branch@,
                    old_base_branch@,
                    task_branch@,
                    old(io).unread(),
                ),
            ),
    {
        match self.open_repo(io, worktree_path)? {
            Err(e) => return Ok(Err(e)),
            Ok(()) => {},
        }
        match self.check_worktree_clean(io, worktree_path)? {
            Err(e) => return Ok(Err(e)),
            Ok(()) => {},
        }
        let git = GitCli::new();
        if crate::conflict_ops::is_yes(&git.is_rebase_in_progress(io, worktree_path)?) {
            return Ok(Err(GitServiceError::RebaseInProgress));
        }
        match self.ensure_cli_commit_identity(io, worktree_path)? {
            Err(e) => return Ok(Err(e)),
            Ok(()) => {},
        }
        match git.rebase_onto(io, worktree_path, new_base_branch, old_base_branch, task_branch)? {
            Err(e) => Ok(Err(classify_rebase_failure(&e))),
            Ok(()) => match io.must_text(
                Request::new(RequestKind::HeadCommit, worktree_path, no_args()),
            )? {
                Ok(id) => Ok(Ok(id)),
                Err(f) => Ok(Err(GitServiceError::from_graph(f))),
            },
        }
    }

    /// The run of what follows a push that went through: for a local branch
    /// the remote-tracking reference is pointed where the branch points, and
    /// the branch gets it as its upstream.
    pub open spec fn track_run(
        worktree: Seq<char>,
        remote: Seq<char>,
        branch: Seq<char>,
        rest: Seq<ReplyModel>,
    ) -> Run<Result<(), GitServiceErrorModel>> {
        match Self::find_branch_run(worktree, branch, rest) {
            Run::Pending(q) => Run::Pending(q),
            Run::Ready(Err(e), rest1) => Run::Ready(Err(e), rest1),
            Run::Ready(Ok(_), rest1) => match flag_run(
                query(RequestKind::BranchIsRemote, worktree, seq![branch]),
                rest1,
            ) {
                Run::Pending(q) => Run::Pending(q),
                Run::Ready(Ok(true), rest2) => Run::Ready(Ok(()), rest2),
                Run::Ready(_, rest2) => match text_run(
                    query(RequestKind::BranchTarget, worktree, seq![branch]),
                    rest2,
                ) {
                    Run::Pending(q) => Run::Pending(q),
                    Run::Ready(Ok(Some(target)), rest3) => match done_run(
                        query(
                            RequestKind::SetReference,
                            worktree,
                            seq![
                                "refs/remotes/"@ + remote + "/"@ + branch,
                                target,
                                "update remote-tracking"@,
                            ],
                        ),
                        rest3,
                    ) {
                        Run::Pending(q) => Run::Pending(q),
                        Run::Ready(Err(f), rest4) => Run::Ready(
                            Err(GitServiceErrorModel::Git(f.message)),
                            rest4,
                        ),
                        Run::Ready(Ok(_), rest4) => Self::set_upstream_run(
                            worktree,
                            remote,
                            branch,
                            rest4,
                        ),
                    },
                    Run::Ready(_, rest3) => Self::set_upstream_run(worktree, remote, branch, rest3),
                },
            },
        }
    }

    /// The run of making `remote/branch` the upstream of `branch`.
    pub open spec fn set_upstream_run(
        worktree: Seq<char>,
        remote: Seq<char>,
        branch: Seq<char>,
        rest: Seq<ReplyModel>,
    ) -> Run<Result<(), GitServiceErrorModel>> {
        match done_run(
            query(RequestKind::SetUpstream, worktree, seq![branch, remote + "/"@ + branch]),
            rest,
        ) {
            Run::Pending(q) => Run::Pending(q),
            Run::Ready(res, rest1) => Run::Ready(graph(res), rest1),
        }
    }

    fn set_upstream(io: &mut Replay, worktree_path: &str, remote: &str, branch: &str) -> (r: Result<
        Result<(), GitServiceError>,
        Request,
    >)
        ensures
            settled(
                r,
                final(io).unread(),
                Self::set_upstream_run(worktree_path@, remote@, branch@, old(io).unread()),
            ),
    {
        let upstream = join3(remote, "/", branch);
        match io.done(
            Request::new(RequestKind::SetUpstream, worktree_path, argv2(branch, upstream.as_str())),
        )? {
            Ok(()) => Ok(Ok(())),
            Err(f) => Ok(Err(GitServiceError::from_graph(f))),
        }
    }

    fn track(io: &mut Replay, worktree_path: &str, remote: &str, branch: &str) -> (r: Result<
        Result<(), GitServiceError>,
        Request,
    >)
        ensures
            settled(
                r,
                final(io).unread(),
                Self::track_run(worktree_path@, remote@, branch@, old(io).unread()),
            ),
    {
        match Self::find_branch(io, worktree_path, branch)? {
            Err(e) => return Ok(Err(e)),
            Ok(_) => {},
        }
        let is_remote = match io.flag(
            Request::new(RequestKind::BranchIsRemote, worktree_path, crate::effects::argv1(branch)),
        )? {
            Ok(b) => b,
            Err(_) => false,
        };
        if is_remote {
            return Ok(Ok(()));
        }
        let target = io.text(
            Request::new(RequestKind::BranchTarget, worktree_path, crate::effects::argv1(branch)),
        )?;
        match target {
            Ok(Some(t)) => {
                let head = join3("refs/remotes/", remote, "/");
                let refname = join2(head.as_str(), branch);
                match io.done(
                    Request::new(
                        RequestKind::SetReference,
                        worktree_path,
                        argv3(refname.as_str(), t.as_str(), "update remote-tracking"),
                    ),
                )? {
                    Err(f) => return Ok(Err(GitServiceError::from_graph(f))),
                    Ok(()) => {},
                }
            },
            _ => {},
        }
        Self::set_upstream(io, worktree_path, remote, branch)
    }

    /// The run of `push_to_remote`: the worktree must be clean; the branch
    /// is pushed to the default remote; then the remote-tracking reference
    /// and the upstream are brought up to date without fetching.
    pub open spec fn push_to_remote_run(
        worktree: Seq<char>,
        branch: Seq<char>,
        force: bool,
        rest: Seq<ReplyModel>,
    ) -> Run<Result<(), GitServiceErrorModel>> {
        match Self::open_repo_run(worktree, rest) {
            Run::Pending(q) => Run::Pending(q),
            Run::Ready(Err(e), rest1) => Run::Ready(Err(e), rest1),
            Run::Ready(Ok(_), rest1) => match Self::check_worktree_clean_run(worktree, rest1) {
                Run::Pending(q) => Run::Pending(q),
                Run::Ready(Err(e), rest2) => Run::Ready(Err(e), rest2),
                Run::Ready(Ok(_), rest2) => match Self::default_remote_run(worktree, rest2) {
                    Run::Pending(q) => Run::Pending(q),
                    Run::Ready(Err(e), rest3) => Run::Ready(Err(e), rest3),
                    Run::Ready(Ok(remote), rest3) => match GitCli::push_run(
                        worktree,
                        remote.url,
                        branch,
                        force,
                        rest3,
                    ) {
                        Run::Pending(q) => Run::Pending(q),
                        Run::Ready(Err(e), rest4) => Run::Ready(
                            Err(GitServiceErrorModel::GitCli(e)),
                            rest4,
                        ),
                        Run::Ready(Ok(_), rest4) => Self::track_run(
                            worktree,
                            remote.name,
                            branch,
                            rest4,
                        ),
                    },
                },
            },
        }
    }

    /// Pushes `branch_name` to the default remote.
    pub fn push_to_remote(&self, io: &mut Replay, worktree_path: &str, branch_name: &str, force: bool) -> (r:
        Result<Result<(), GitServiceError>, Request>)
        ensures
            settled(
                r,
                final(io).unread(),
                Self::push_to_remote_run(worktree_path@, branch_name@, force, old(io).unread()),
            ),
    {
        match self.open_repo(io, worktree_path)? {
            Err(e) => return Ok(Err(e)),
            Ok(()) => {},
        }
        match self.check_worktree_clean(io, worktree_path)? {
            Err(e) => return Ok(Err(e)),
            Ok(()) => {},
        }
        let remote = match self.default_remote(io, worktree_path)? {
            Err(e) => return Ok(Err(e)),
            Ok(r) => r,
        };
        match GitCli::new().push(io, worktree_path, remote.url.as_str(), branch_name, force)? {
            Err(e) => return Ok(Err(GitServiceError::GitCli(e))),
            Ok(()) => {},
        }
        Self::track(io, worktree_path, remote.name.as_str(), branch_name)
    }
}

/// A merge of a task branch that is behind its base is refused before
/// anything is changed: every request made up to the count of commits only
/// reads, and once the count shows the task branch to be behind, the merge
/// ends there with the error that the branches diverged.
pub proof fn lemma_merge_behind_is_refused(
    base_worktree: Seq<char>,
    task_branch: Seq<char>,
    base_branch: Seq<char>,
    message: Seq<char>,
    rest: Seq<ReplyModel>,
)
    ensures
        GitService::get_branch_status_run(base_worktree, task_branch, base_branch, rest)
            is Pending ==> GitService::merge_changes_run(
            base_worktree,
            task_branch,
            base_branch,
            message,
            rest,
        ) is Pending && reads_only(
            GitService::merge_changes_run(
                base_worktree,
                task_branch,
                base_branch,
                message,
                rest,
            )->Pending_0,
        ),
        forall|ahead: usize, behind: usize, rest1: Seq<ReplyModel>|
            behind > 0 && GitService::get_branch_status_run(
                base_worktree,
                task_branch,
                base_branch,
                rest,
            ) == Run::Ready(Ok::<(usize, usize), GitServiceErrorModel>((ahead, behind)), rest1)
                ==> GitService::merge_changes_run(
                base_worktree,
                task_branch,
                base_branch,
                message,
                rest,
            ) == Run::Ready(
                Err::<Seq<char>, GitServiceErrorModel>(
                    GitServiceErrorModel::BranchesDiverged(diverged_text(behind)),
                ),
                rest1,
            ),
{
}

} // verus!
