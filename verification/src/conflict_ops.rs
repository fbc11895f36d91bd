//! Conflict state: which of four operations waits in a worktree, and how it
//! is continued or aborted.

use vstd::prelude::*;
use crate::effects::{settled, Replay, ReplyModel, Request, RequestKind, Run};
use crate::errors::{GitCliError, GitCliErrorModel, GitServiceError, GitServiceErrorModel};
use crate::git_cli::{git_request, GitCli};
use crate::git_service::{invalid_repo, run_invalid, GitService};
use crate::model::Model;
use crate::types::ConflictOp;

verus! {

impl GitService {
    /// The run of `detect_conflict_op`: the four markers are probed in the
    /// order rebase, merge, cherry-pick, revert, and the first one found
    /// decides. A probe that fails counts as not found.
    pub open spec fn detect_conflict_op_run(worktree: Seq<char>, rest: Seq<ReplyModel>) -> Run<
        Result<Option<ConflictOp>, GitServiceErrorModel>,
    > {
        match GitCli::is_rebase_in_progress_run(worktree, rest) {
            Run::Pending(q) => Run::Pending(q),
            Run::Ready(Ok(true), rest1) => Run::Ready(Ok(Some(ConflictOp::Rebase)), rest1),
            Run::Ready(_, rest1) => match GitCli::in_progress_run(worktree, "MERGE_HEAD"@, rest1) {
                Run::Pending(q) => Run::Pending(q),
                Run::Ready(Ok(true), rest2) => Run::Ready(Ok(Some(ConflictOp::Merge)), rest2),
                Run::Ready(_, rest2) => match GitCli::in_progress_run(
                    worktree,
                    "CHERRY_PICK_HEAD"@,
                    rest2,
                ) {
                    Run::Pending(q) => Run::Pending(q),
                    Run::Ready(Ok(true), rest3) => Run::Ready(
                        Ok(Some(ConflictOp::CherryPick)),
                        rest3,
                    ),
                    Run::Ready(_, rest3) => match GitCli::in_progress_run(
                        worktree,
                        "REVERT_HEAD"@,
                        rest3,
                    ) {
                        Run::Pending(q) => Run::Pending(q),
                        Run::Ready(Ok(true), rest4) => Run::Ready(
                            Ok(Some(ConflictOp::Revert)),
                            rest4,
                        ),
                        Run::Ready(_, rest4) => Run::Ready(Ok(None), rest4),
                    },
                },
            },
        }
    }

    /// The operation that waits on conflicts in the worktree, if any.
    pub fn detect_conflict_op(&self, io: &mut Replay, worktree_path: &str) -> (r: Result<
        Result<Option<ConflictOp>, GitServiceError>,
        Request,
    >)
        ensures
            settled(
                r,
                final(io).unread(),
                Self::detect_conflict_op_run(worktree_path@, old(io).unread()),
            ),
    {
        let git = GitCli::new();
        if is_yes(&git.is_rebase_in_progress(io, worktree_path)?) {
            return Ok(Ok(Some(ConflictOp::Rebase)));
        }
        if is_yes(&git.is_merge_in_progress(io, worktree_path)?) {
            return Ok(Ok(Some(ConflictOp::Merge)));
        }
        if is_yes(&git.is_cherry_pick_in_progress(io, worktree_path)?) {
            return Ok(Ok(Some(ConflictOp::CherryPick)));
        }
        if is_yes(&git.is_revert_in_progress(io, worktree_path)?) {
            return Ok(Ok(Some(ConflictOp::Revert)));
        }
        Ok(Ok(None))
    }

    /// The run of `get_conflicted_files`.
    pub open spec fn get_conflicted_files_run(worktree: Seq<char>, rest: Seq<ReplyModel>) -> Run<
        Result<Seq<Seq<char>>, GitServiceErrorModel>,
    > {
        run_invalid("git diff failed: "@, GitCli::get_conflicted_files_run(worktree, rest))
    }

    /// The files that still hold conflicts.
    pub fn get_conflicted_files(&self, io: &mut Replay, worktree_path: &str) -> (r: Result<
        Result<Vec<String>, GitServiceError>,
        Request,
    >)
        ensures
            settled(
                r,
                final(io).unread(),
                Self::get_conflicted_files_run(worktree_path@, old(io).unread()),
            ),
    {
        match GitCli::new().get_conflicted_files(io, worktree_path)? {
            Ok(files) => Ok(Ok(files)),
            Err(e) => Ok(Err(invalid_repo("git diff failed: ", &e))),
        }
    }

    /// The run of `is_rebase_in_progress`.
    pub open spec fn is_rebase_in_progress_run(worktree: Seq<char>, rest: Seq<ReplyModel>) -> Run<
        Result<bool, GitServiceErrorModel>,
    > {
        run_invalid(
            "git rebase state check failed: "@,
            GitCli::is_rebase_in_progress_run(worktree, rest),
        )
    }

    /// Whether a rebase is under way in the worktree.
    pub fn is_rebase_in_progress(&self, io: &mut Replay, worktree_path: &str) -> (r: Result<
        Result<bool, GitServiceError>,
        Request,
    >)
        ensures
            settled(
                r,
                final(io).unread(),
                Self::is_rebase_in_progress_run(worktree_path@, old(io).unread()),
            ),
    {
        match GitCli::new().is_rebase_in_progress(io, worktree_path)? {
            Ok(b) => Ok(Ok(b)),
            Err(e) => Ok(Err(invalid_repo("git rebase state check failed: ", &e))),
        }
    }

    /// The run of `abort_rebase`.
    pub open spec fn abort_rebase_run(worktree: Seq<char>, rest: Seq<ReplyModel>) -> Run<
        Result<(), GitServiceErrorModel>,
    > {
        run_invalid(
            "git rebase --abort failed: "@,
            GitCli::end_rebase_run(worktree, "--abort"@, rest),
        )
    }

    /// Aborts the rebase under way, if there is one.
    pub fn abort_rebase(&self, io: &mut Replay, worktree_path: &str) -> (r: Result<
        Result<(), GitServiceError>,
        Request,
    >)
        ensures
            settled(r, final(io).unread(), Self::abort_rebase_run(worktree_path@, old(io).unread())),
    {
        match GitCli::new().abort_rebase(io, worktree_path)? {
            Ok(()) => Ok(Ok(())),
            Err(e) => Ok(Err(invalid_repo("git rebase --abort failed: ", &e))),
        }
    }

    /// The run of quitting a rebase.
    pub open spec fn quit_rebase_run(worktree: Seq<char>, rest: Seq<ReplyModel>) -> Run<
        Result<(), GitServiceErrorModel>,
    > {
        run_invalid("git rebase --quit failed: "@, GitCli::end_rebase_run(worktree, "--quit"@, rest))
    }

    /// The run of `continue_rebase`.
    pub open spec fn continue_rebase_run(worktree: Seq<char>, rest: Seq<ReplyModel>) -> Run<
        Result<(), GitServiceErrorModel>,
    > {
        run_invalid("git rebase --continue failed: "@, GitCli::continue_rebase_run(worktree, rest))
    }

    /// Continues the rebase under way.
    pub fn continue_rebase(&self, io: &mut Replay, worktree_path: &str) -> (r: Result<
        Result<(), GitServiceError>,
        Request,
    >)
        ensures
            settled(
                r,
                final(io).unread(),
                Self::continue_rebase_run(worktree_path@, old(io).unread()),
            ),
    {
        match GitCli::new().continue_rebase(io, worktree_path)? {
            Ok(()) => Ok(Ok(())),
            Err(e) => Ok(Err(invalid_repo("git rebase --continue failed: ", &e))),
        }
    }

    /// The run of `abort_conflicts`. The operation that waits is found as in
    /// `detect_conflict_op`. A rebase with files still in conflict is
    /// aborted; a rebase with none is quit, which keeps what was already
    /// replayed. A merge, cherry-pick or revert is aborted. Where nothing
    /// waits, nothing is done.
    pub open spec fn abort_conflicts_run(worktree: Seq<char>, rest: Seq<ReplyModel>) -> Run<
        Result<(), GitServiceErrorModel>,
    > {
        match GitCli::is_rebase_in_progress_run(worktree, rest) {
            Run::Pending(q) => Run::Pending(q),
            Run::Ready(Ok(true), rest1) => match Self::get_conflicted_files_run(worktree, rest1) {
                Run::Pending(q) => Run::Pending(q),
                Run::Ready(Err(e), rest2) => Run::Ready(Err(e), rest2),
                Run::Ready(Ok(files), rest2) => if files.len() > 0 {
                    Self::abort_rebase_run(worktree, rest2)
                } else {
                    Self::quit_rebase_run(worktree, rest2)
                },
            },
            Run::Ready(_, rest1) => match GitCli::in_progress_run(worktree, "MERGE_HEAD"@, rest1) {
                Run::Pending(q) => Run::Pending(q),
                Run::Ready(Ok(true), rest2) => run_invalid(
                    "git merge --abort failed: "@,
                    GitCli::abort_run(worktree, "MERGE_HEAD"@, "merge"@, rest2),
                ),
                Run::Ready(_, rest2) => match GitCli::in_progress_run(
                    worktree,
                    "CHERRY_PICK_HEAD"@,
                    rest2,
                ) {
                    Run::Pending(q) => Run::Pending(q),
                    Run::Ready(Ok(true), rest3) => run_invalid(
                        "git cherry-pick --abort failed: "@,
                        GitCli::abort_run(worktree, "CHERRY_PICK_HEAD"@, "cherry-pick"@, rest3),
                    ),
                    Run::Ready(_, rest3) => match GitCli::in_progress_run(
                        worktree,
                        "REVERT_HEAD"@,
                        rest3,
                    ) {
                        Run::Pending(q) => Run::Pending(q),
                        Run::Ready(Ok(true), rest4) => run_invalid(
                            "git revert --abort failed: "@,
                            GitCli::abort_run(worktree, "REVERT_HEAD"@, "revert"@, rest4),
                        ),
                        Run::Ready(_, rest4) => Run::Ready(Ok(()), rest4),
                    },
                },
            },
        }
    }

    /// Ends whatever operation waits on conflicts in the worktree.
    pub fn abort_conflicts(&self, io: &mut Replay, worktree_path: &str) -> (r: Result<
        Result<(), GitServiceError>,
        Request,
    >)
        ensures
            settled(
                r,
                final(io).unread(),
                Self::abort_conflicts_run(worktree_path@, old(io).unread()),
            ),
    {
        let git = GitCli::new();
        if is_yes(&git.is_rebase_in_progress(io, worktree_path)?) {
            let files = match self.get_conflicted_files(io, worktree_path)? {
                Err(e) => return Ok(Err(e)),
                Ok(f) => f,
            };
            if files.len() > 0 {
                return self.abort_rebase(io, worktree_path);
            }
            return match git.quit_rebase(io, worktree_path)? {
                Ok(()) => Ok(Ok(())),
                Err(e) => Ok(Err(invalid_repo("git rebase --quit failed: ", &e))),
            };
        }
        if is_yes(&git.is_merge_in_progress(io, worktree_path)?) {
            return match git.abort_merge(io, worktree_path)? {
                Ok(()) => Ok(Ok(())),
                Err(e) => Ok(Err(invalid_repo("git merge --abort failed: ", &e))),
            };
        }
        if is_yes(&git.is_cherry_pick_in_progress(io, worktree_path)?) {
            return match git.abort_cherry_pick(io, worktree_path)? {
                Ok(()) => Ok(Ok(())),
                Err(e) => Ok(Err(invalid_repo("git cherry-pick --abort failed: ", &e))),
            };
        }
        if is_yes(&git.is_revert_in_progress(io, worktree_path)?) {
            return match git.abort_revert(io, worktree_path)? {
                Ok(()) => Ok(Ok(())),
                Err(e) => Ok(Err(invalid_repo("git revert --abort failed: ", &e))),
            };
        }
        Ok(Ok(()))
    }
}

/// Whether a probe answered yes; a failed probe counts as no.
pub fn is_yes(probe: &Result<bool, GitCliError>) -> (r: bool)
    ensures
        r == (probe.model() == Ok::<bool, GitCliErrorModel>(true)),
{
    match probe {
        Ok(b) => *b,
        Err(_) => false,
    }
}

/// Aborting conflicts on a rebase that has no file left in conflict quits the
/// rebase and never aborts it: once the rebase is seen to be under way and
/// the list of conflicted files is seen to be empty, what follows is the run
/// of the quit, and the only rebase command that run asks for is
/// `rebase --quit`.
pub proof fn lemma_clean_rebase_is_quit(
    worktree: Seq<char>,
    rest: Seq<ReplyModel>,
    rest1: Seq<ReplyModel>,
    rest2: Seq<ReplyModel>,
)
    requires
        GitCli::is_rebase_in_progress_run(worktree, rest) == Run::Ready(
            Ok::<bool, GitCliErrorModel>(true),
            rest1,
        ),
        GitCli::get_conflicted_files_run(worktree, rest1) == Run::Ready(
            Ok::<Seq<Seq<char>>, GitCliErrorModel>(Seq::empty()),
            rest2,
        ),
    ensures
        GitService::abort_conflicts_run(worktree, rest) == GitService::quit_rebase_run(
            worktree,
            rest2,
        ),
        GitService::quit_rebase_run(worktree, rest2) is Pending ==> GitService::quit_rebase_run(
            worktree,
            rest2,
        )->Pending_0 != git_request(worktree, seq!["rebase"@, "--abort"@], false),
        (GitService::quit_rebase_run(worktree, rest2) is Pending && GitService::quit_rebase_run(
            worktree,
            rest2,
        )->Pending_0.kind == RequestKind::Git && GitService::quit_rebase_run(
            worktree,
            rest2,
        )->Pending_0.args.len() == 4) ==> GitService::quit_rebase_run(worktree, rest2)->Pending_0
            == git_request(worktree, seq!["rebase"@, "--quit"@], false),
{
    reveal_strlit("--abort");
    reveal_strlit("--quit");
    reveal_strlit("rebase");
    reveal_strlit("rev-parse");
    assert("--abort"@ != "--quit"@) by {
        assert("--abort"@.len() != "--quit"@.len());
    }
    let quit = seq!["-C"@, worktree] + seq!["rebase"@, "--quit"@];
    let abort = seq!["-C"@, worktree] + seq!["rebase"@, "--abort"@];
    assert(quit[3] == "--quit"@);
    assert(abort[3] == "--abort"@);
    let probe1 = seq!["-C"@, worktree] + seq!["rev-parse"@, "--git-path"@, "rebase-merge"@];
    let probe2 = seq!["-C"@, worktree] + seq!["rev-parse"@, "--git-path"@, "rebase-apply"@];
    assert(probe1.len() == 5);
    assert(probe2.len() == 5);
    assert(abort.len() == 4);
    assert(quit.len() == 4);
}

} // verus!
