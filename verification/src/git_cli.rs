//! The adapter to the external git executable: which command each operation
//! runs, and what it makes of the command's exit code and output.

use vstd::prelude::*;
use crate::effects::{
    argv2, argv3, argv4, argv5, ask, exists_run, path_exists, settled, words, Replay, Reply,
    ReplyModel, Request, RequestKind, RequestModel, Run,
};
use crate::errors::{GitCliError, GitCliErrorModel};
use crate::model::{lemma_models_bytes, lemma_models_concat, Model};
use crate::paths::{join_path, joined_path};
use crate::porcelain::{
    name_list, parse_name_list, parse_remote_list, parse_status, parse_worktree_list, remote_list,
    worktree_list, worktree_status,
};
use crate::text::{copy_bytes, decode_lossy, join2, lossy_text, trim, trimmed};
use crate::types::{WorktreeEntry, WorktreeEntryModel, WorktreeStatus, WorktreeStatusModel};

verus! {

/// The adapter to the git executable. It holds no state.
#[derive(Clone, Copy, Debug, Default)]
pub struct GitCli;

/// The request that runs git on the repository at `repo` with `args`.
pub open spec fn git_request(repo: Seq<char>, args: Seq<Seq<char>>, no_prompt: bool) -> RequestModel {
    RequestModel {
        kind: RequestKind::Git,
        target: Seq::empty(),
        args: seq!["-C"@, repo] + args,
        no_prompt,
    }
}

/// What a failed command is reported with: its error output where only that
/// is there, its standard output where only that is there, both under labels
/// where both are, each without surrounding whitespace.
pub open spec fn combined_output(stdout: Seq<u8>, stderr: Seq<u8>) -> Seq<char> {
    let err = trimmed(lossy_text(stderr));
    let out = trimmed(lossy_text(stdout));
    if out.len() == 0 && err.len() == 0 {
        "Command failed with no output"@
    } else if out.len() == 0 {
        err
    } else if err.len() == 0 {
        out
    } else {
        "stderr: "@ + err + "\nstdout: "@ + out
    }
}

/// What the adapter makes of the reply to a command: the standard output
/// where the command ended with code 0, else the failure.
pub open spec fn outcome_of(reply: ReplyModel) -> Result<Seq<u8>, GitCliErrorModel> {
    match reply {
        ReplyModel::Unavailable => Err(GitCliErrorModel::NotAvailable),
        ReplyModel::Exited { code, stdout, stderr } => if code == Some(0i32) {
            Ok(stdout)
        } else {
            Err(GitCliErrorModel::CommandFailed(combined_output(stdout, stderr)))
        },
        ReplyModel::Failed(f) => Err(GitCliErrorModel::CommandFailed(f.message)),
        _ => Err(GitCliErrorModel::CommandFailed("unexpected reply"@)),
    }
}

/// The text of the standard output, or the failure.
pub open spec fn text_outcome(reply: ReplyModel) -> Result<Seq<char>, GitCliErrorModel> {
    match outcome_of(reply) {
        Ok(bytes) => Ok(lossy_text(bytes)),
        Err(e) => Err(e),
    }
}

impl GitCli {
    pub fn new() -> (r: Self) {
        GitCli
    }

    /// The run of one command: pending on its request, then its outcome.
    pub open spec fn git_impl_run(
        repo: Seq<char>,
        args: Seq<Seq<char>>,
        no_prompt: bool,
        rest: Seq<ReplyModel>,
    ) -> Run<Result<Seq<u8>, GitCliErrorModel>> {
        match ask(git_request(repo, args, no_prompt), rest) {
            Run::Pending(q) => Run::Pending(q),
            Run::Ready(reply, rest1) => Run::Ready(outcome_of(reply), rest1),
        }
    }

    /// Runs git on the repository at `repo_path` with `args` and classifies
    /// how it ended.
    pub fn git_impl(io: &mut Replay, repo_path: &str, args: Vec<String>, no_prompt: bool) -> (r:
        Result<Result<Vec<u8>, GitCliError>, Request>)
        ensures
            settled(
                r,
                final(io).unread(),
                Self::git_impl_run(repo_path@, args.model(), no_prompt, old(io).unread()),
            ),
    {
        let mut argv: Vec<String> = words(&["-C", repo_path]);
        let mut args = args;
        proof {
            lemma_models_concat(argv@, args@);
            assert(argv.model() =~= seq!["-C"@, repo_path@]);
        }
        argv.append(&mut args);
        let request = Request { kind: RequestKind::Git, target: String::new(), args: argv, no_prompt };
        let reply = io.ask(request)?;
        Ok(Self::classify(reply))
    }

    /// What the adapter makes of the reply to a command.
    pub fn classify(reply: &Reply) -> (r: Result<Vec<u8>, GitCliError>)
        ensures
            r.model() == outcome_of(reply.model()),
    {
        match reply {
            Reply::Unavailable => Err(GitCliError::NotAvailable),
            Reply::Exited { code, stdout, stderr } => {
                let ok = match code {
                    Some(c) => *c == 0,
                    None => false,
                };
                if ok {
                    let out = copy_bytes(stdout);
                    proof {
                        lemma_models_bytes(out@);
                    }
                    Ok(out)
                } else {
                    let err = trim(decode_lossy(stderr).as_str());
                    let out = trim(decode_lossy(stdout).as_str());
                    let combined = if out.as_str().is_empty() && err.as_str().is_empty() {
                        "Command failed with no output".to_owned()
                    } else if out.as_str().is_empty() {
                        err
                    } else if err.as_str().is_empty() {
                        out
                    } else {
                        let a = join2("stderr: ", err.as_str());
                        let b = join2(a.as_str(), "\nstdout: ");
                        join2(b.as_str(), out.as_str())
                    };
                    Err(GitCliError::CommandFailed(combined))
                }
            },
            Reply::Failed(f) => Err(GitCliError::CommandFailed(f.message.clone())),
            _ => Err(GitCliError::CommandFailed("unexpected reply".to_owned())),
        }
    }
}

/// The result of a command without its output.
pub open spec fn unit_of<T>(r: Result<T, GitCliErrorModel>) -> Result<(), GitCliErrorModel> {
    match r {
        Ok(_) => Ok(()),
        Err(e) => Err(e),
    }
}

/// A command failure seen as a failure to authenticate.
pub open spec fn as_auth_failure<T>(r: Result<T, GitCliErrorModel>) -> Result<T, GitCliErrorModel> {
    match r {
        Err(GitCliErrorModel::CommandFailed(_)) => Err(GitCliErrorModel::AuthFailed),
        other => other,
    }
}

/// A command failure seen as a rejected push.
pub open spec fn as_push_rejection<T>(r: Result<T, GitCliErrorModel>) -> Result<
    T,
    GitCliErrorModel,
> {
    match r {
        Err(GitCliErrorModel::CommandFailed(_)) => Err(GitCliErrorModel::PushRejected),
        other => other,
    }
}

/// Whether a reference resolved: a command failure means that it did not.
pub open spec fn resolved(r: Result<Seq<char>, GitCliErrorModel>) -> Result<bool, GitCliErrorModel> {
    match r {
        Ok(_) => Ok(true),
        Err(GitCliErrorModel::CommandFailed(_)) => Ok(false),
        Err(e) => Err(e),
    }
}

/// The value of a result, or `fallback` where it is an error.
pub open spec fn value_or<T>(r: Result<T, GitCliErrorModel>, fallback: T) -> T {
    match r {
        Ok(v) => v,
        Err(_) => fallback,
    }
}

/// The arguments of `worktree add`.
pub open spec fn worktree_add_args(worktree: Seq<char>, branch: Seq<char>, create: bool) -> Seq<
    Seq<char>,
> {
    if create {
        seq!["worktree"@, "add"@, "-b"@, branch, worktree, branch]
    } else {
        seq!["worktree"@, "add"@, worktree, branch]
    }
}

/// The arguments of `worktree remove`.
pub open spec fn worktree_remove_args(worktree: Seq<char>, force: bool) -> Seq<Seq<char>> {
    if force {
        seq!["worktree"@, "remove"@, "--force"@, worktree]
    } else {
        seq!["worktree"@, "remove"@, worktree]
    }
}

/// The refspec that pushes a branch to the branch of the same name, with a
/// leading `+` where the push is forced.
pub open spec fn push_refspec(branch: Seq<char>, force: bool) -> Seq<char> {
    (if force {
        "+refs/heads/"@
    } else {
        "refs/heads/"@
    }) + branch + ":refs/heads/"@ + branch
}

/// What the exit code of `diff --cached --quiet` tells: 0 nothing staged, 1
/// something staged.
pub open spec fn staged_outcome(reply: ReplyModel) -> Result<bool, GitCliErrorModel> {
    match reply {
        ReplyModel::Unavailable => Err(GitCliErrorModel::NotAvailable),
        ReplyModel::Failed(f) => Err(GitCliErrorModel::CommandFailed(f.message)),
        ReplyModel::Exited { code, stdout, stderr } => if code == Some(0i32) {
            Ok(false)
        } else if code == Some(1i32) {
            Ok(true)
        } else {
            Err(GitCliErrorModel::CommandFailed("Unknown error"@))
        },
        _ => Err(GitCliErrorModel::CommandFailed("Unknown error"@)),
    }
}

impl GitCli {
    /// The run of the availability probe.
    pub open spec fn ensure_available_run(rest: Seq<ReplyModel>) -> Run<
        Result<(), GitCliErrorModel>,
    > {
        match ask(Request::plain(RequestKind::ProbeGit, Seq::empty(), Seq::empty()), rest) {
            Run::Pending(q) => Run::Pending(q),
            Run::Ready(reply, rest1) => Run::Ready(
                if reply == ReplyModel::Flag(true) {
                    Ok(())
                } else {
                    Err(GitCliErrorModel::NotAvailable)
                },
                rest1,
            ),
        }
    }

    /// Checks that the git executable is found and runs.
    pub fn ensure_available(io: &mut Replay) -> (r: Result<Result<(), GitCliError>, Request>)
        ensures
            settled(r, final(io).unread(), Self::ensure_available_run(old(io).unread())),
    {
        let args: Vec<String> = Vec::new();
        assert(args.model() =~= Seq::<Seq<char>>::empty());
        proof {
            reveal_strlit("");
            assert(""@ =~= Seq::<char>::empty());
        }
        let reply = io.ask(Request::new(RequestKind::ProbeGit, "", args))?;
        Ok(
            match reply {
                Reply::Flag(true) => Ok(()),
                _ => Err(GitCliError::NotAvailable),
            },
        )
    }

    /// The run of a command whose output is read as text.
    pub open spec fn git_run(repo: Seq<char>, args: Seq<Seq<char>>, rest: Seq<ReplyModel>) -> Run<
        Result<Seq<char>, GitCliErrorModel>,
    > {
        match ask(git_request(repo, args, false), rest) {
            Run::Pending(q) => Run::Pending(q),
            Run::Ready(reply, rest1) => Run::Ready(text_outcome(reply), rest1),
        }
    }

    /// Runs git and reads its output as text.
    pub fn git(&self, io: &mut Replay, repo_path: &str, args: Vec<String>) -> (r: Result<
        Result<String, GitCliError>,
        Request,
    >)
        ensures
            settled(r, final(io).unread(), Self::git_run(repo_path@, args.model(), old(io).unread())),
    {
        let out = Self::git_impl(io, repo_path, args, false)?;
        Ok(
            match out {
                Ok(bytes) => {
                    proof {
                        lemma_models_bytes(bytes@);
                    }
                    Ok(decode_lossy(&bytes))
                },
                Err(e) => Err(e),
            },
        )
    }

    /// The run of a command that must not prompt.
    pub open spec fn git_with_env_run(
        repo: Seq<char>,
        args: Seq<Seq<char>>,
        rest: Seq<ReplyModel>,
    ) -> Run<Result<Seq<char>, GitCliErrorModel>> {
        match ask(git_request(repo, args, true), rest) {
            Run::Pending(q) => Run::Pending(q),
            Run::Ready(reply, rest1) => Run::Ready(text_outcome(reply), rest1),
        }
    }

    /// Runs git with interactive prompts switched off.
    pub fn git_with_env(&self, io: &mut Replay, repo_path: &str, args: Vec<String>) -> (r: Result<
        Result<String, GitCliError>,
        Request,
    >)
        ensures
            settled(
                r,
                final(io).unread(),
                Self::git_with_env_run(repo_path@, args.model(), old(io).unread()),
            ),
    {
        let out = Self::git_impl(io, repo_path, args, true)?;
        Ok(
            match out {
                Ok(bytes) => {
                    proof {
                        lemma_models_bytes(bytes@);
                    }
                    Ok(decode_lossy(&bytes))
                },
                Err(e) => Err(e),
            },
        )
    }

    /// The run of a command of which only success matters.
    pub open spec fn plain_run(repo: Seq<char>, args: Seq<Seq<char>>, rest: Seq<ReplyModel>) -> Run<
        Result<(), GitCliErrorModel>,
    > {
        match Self::git_run(repo, args, rest) {
            Run::Pending(q) => Run::Pending(q),
            Run::Ready(res, rest1) => Run::Ready(unit_of(res), rest1),
        }
    }

    fn plain(&self, io: &mut Replay, repo_path: &str, args: Vec<String>) -> (r: Result<
        Result<(), GitCliError>,
        Request,
    >)
        ensures
            settled(r, final(io).unread(), Self::plain_run(repo_path@, args.model(), old(io).unread())),
    {
        let out = self.git(io, repo_path, args)?;
        Ok(
            match out {
                Ok(_) => Ok(()),
                Err(e) => Err(e),
            },
        )
    }

    /// The run of a command that is made only where git is available.
    pub open spec fn checked_run(repo: Seq<char>, args: Seq<Seq<char>>, rest: Seq<ReplyModel>) -> Run<
        Result<(), GitCliErrorModel>,
    > {
        match Self::ensure_available_run(rest) {
            Run::Pending(q) => Run::Pending(q),
            Run::Ready(Err(e), rest1) => Run::Ready(Err(e), rest1),
            Run::Ready(Ok(_), rest1) => Self::plain_run(repo, args, rest1),
        }
    }

    fn checked(&self, io: &mut Replay, repo_path: &str, args: Vec<String>) -> (r: Result<
        Result<(), GitCliError>,
        Request,
    >)
        ensures
            settled(
                r,
                final(io).unread(),
                Self::checked_run(repo_path@, args.model(), old(io).unread()),
            ),
    {
        match Self::ensure_available(io)? {
            Err(e) => Ok(Err(e)),
            Ok(()) => self.plain(io, repo_path, args),
        }
    }

    // --- worktrees ---

    /// The run of `worktree_add`: the probe, `worktree add`, then
    /// `sparse-checkout reapply` in the new worktree, whose failure is ignored.
    pub open spec fn worktree_add_run(
        repo: Seq<char>,
        worktree: Seq<char>,
        branch: Seq<char>,
        create: bool,
        rest: Seq<ReplyModel>,
    ) -> Run<Result<(), GitCliErrorModel>> {
        match Self::checked_run(repo, worktree_add_args(worktree, branch, create), rest) {
            Run::Pending(q) => Run::Pending(q),
            Run::Ready(Err(e), rest1) => Run::Ready(Err(e), rest1),
            Run::Ready(Ok(_), rest1) => match Self::git_run(
                worktree,
                seq!["sparse-checkout"@, "reapply"@],
                rest1,
            ) {
                Run::Pending(q) => Run::Pending(q),
                Run::Ready(_, rest2) => Run::Ready(Ok(()), rest2),
            },
        }
    }

    /// Adds a worktree at `worktree_path` for `branch`, creating the branch
    /// where `create_branch` is set.
    pub fn worktree_add(
        &self,
        io: &mut Replay,
        repo_path: &str,
        worktree_path: &str,
        branch: &str,
        create_branch: bool,
    ) -> (r: Result<Result<(), GitCliError>, Request>)
        ensures
            settled(
                r,
                final(io).unread(),
                Self::worktree_add_run(
                    repo_path@,
                    worktree_path@,
                    branch@,
                    create_branch,
                    old(io).unread(),
                ),
            ),
    {
        let args = if create_branch {
            let mut a = argv3("worktree", "add", "-b");
            let mut b = argv3(branch, worktree_path, branch);
            proof {
                lemma_models_concat(a@, b@);
                assert(a.model() + b.model() =~= worktree_add_args(worktree_path@, branch@, true));
            }
            a.append(&mut b);
            a
        } else {
            argv4("worktree", "add", worktree_path, branch)
        };
        match self.checked(io, repo_path, args)? {
            Err(e) => Ok(Err(e)),
            Ok(()) => {
                let _ = self.git(io, worktree_path, argv2("sparse-checkout", "reapply"))?;
                Ok(Ok(()))
            },
        }
    }

    /// The run of `worktree_remove`.
    pub open spec fn worktree_remove_run(
        repo: Seq<char>,
        worktree: Seq<char>,
        force: bool,
        rest: Seq<ReplyModel>,
    ) -> Run<Result<(), GitCliErrorModel>> {
        Self::checked_run(repo, worktree_remove_args(worktree, force), rest)
    }

    /// Removes the worktree at `worktree_path`.
    pub fn worktree_remove(&self, io: &mut Replay, repo_path: &str, worktree_path: &str, force: bool) -> (r:
        Result<Result<(), GitCliError>, Request>)
        ensures
            settled(
                r,
                final(io).unread(),
                Self::worktree_remove_run(repo_path@, worktree_path@, force, old(io).unread()),
            ),
    {
        let args = if force {
            argv4("worktree", "remove", "--force", worktree_path)
        } else {
            argv3("worktree", "remove", worktree_path)
        };
        self.checked(io, repo_path, args)
    }

    /// The run of `worktree_move`.
    pub open spec fn worktree_move_run(
        repo: Seq<char>,
        old_path: Seq<char>,
        new_path: Seq<char>,
        rest: Seq<ReplyModel>,
    ) -> Run<Result<(), GitCliErrorModel>> {
        Self::checked_run(repo, seq!["worktree"@, "move"@, old_path, new_path], rest)
    }

    /// Moves a worktree from `old_path` to `new_path`.
    pub fn worktree_move(&self, io: &mut Replay, repo_path: &str, old_path: &str, new_path: &str) -> (r:
        Result<Result<(), GitCliError>, Request>)
        ensures
            settled(
                r,
                final(io).unread(),
                Self::worktree_move_run(repo_path@, old_path@, new_path@, old(io).unread()),
            ),
    {
        self.checked(io, repo_path, argv4("worktree", "move", old_path, new_path))
    }

    /// The run of `worktree_prune`.
    pub open spec fn worktree_prune_run(repo: Seq<char>, rest: Seq<ReplyModel>) -> Run<
        Result<(), GitCliErrorModel>,
    > {
        Self::plain_run(repo, seq!["worktree"@, "prune"@], rest)
    }

    /// Prunes the registrations of worktrees that are gone.
    pub fn worktree_prune(&self, io: &mut Replay, repo_path: &str) -> (r: Result<
        Result<(), GitCliError>,
        Request,
    >)
        ensures
            settled(r, final(io).unread(), Self::worktree_prune_run(repo_path@, old(io).unread())),
    {
        self.plain(io, repo_path, argv2("worktree", "prune"))
    }

    /// The run of `list_worktrees`.
    pub open spec fn list_worktrees_run(repo: Seq<char>, rest: Seq<ReplyModel>) -> Run<
        Result<Seq<WorktreeEntryModel>, GitCliErrorModel>,
    > {
        match Self::git_run(repo, seq!["worktree"@, "list"@, "--porcelain"@], rest) {
            Run::Pending(q) => Run::Pending(q),
            Run::Ready(Err(e), rest1) => Run::Ready(Err(e), rest1),
            Run::Ready(Ok(out), rest1) => Run::Ready(Ok(worktree_list(out)), rest1),
        }
    }

    /// The linked worktrees of the repository.
    pub fn list_worktrees(&self, io: &mut Replay, repo_path: &str) -> (r: Result<
        Result<Vec<WorktreeEntry>, GitCliError>,
        Request,
    >)
        ensures
            settled(r, final(io).unread(), Self::list_worktrees_run(repo_path@, old(io).unread())),
    {
        match self.git(io, repo_path, argv3("worktree", "list", "--porcelain"))? {
            Err(e) => Ok(Err(e)),
            Ok(out) => Ok(Ok(parse_worktree_list(out.as_str()))),
        }
    }

    // --- status ---

    /// The run of `has_changes`.
    pub open spec fn has_changes_run(worktree: Seq<char>, rest: Seq<ReplyModel>) -> Run<
        Result<bool, GitCliErrorModel>,
    > {
        match Self::git_run(worktree, seq!["--no-optional-locks"@, "status"@, "--porcelain"@], rest) {
            Run::Pending(q) => Run::Pending(q),
            Run::Ready(Err(e), rest1) => Run::Ready(Err(e), rest1),
            Run::Ready(Ok(out), rest1) => Run::Ready(Ok(out.len() != 0), rest1),
        }
    }

    /// Whether the working tree differs from `HEAD` in any way.
    pub fn has_changes(&self, io: &mut Replay, worktree_path: &str) -> (r: Result<
        Result<bool, GitCliError>,
        Request,
    >)
        ensures
            settled(r, final(io).unread(), Self::has_changes_run(worktree_path@, old(io).unread())),
    {
        match self.git(io, worktree_path, argv3("--no-optional-locks", "status", "--porcelain"))? {
            Err(e) => Ok(Err(e)),
            Ok(out) => Ok(Ok(!out.as_str().is_empty())),
        }
    }

    /// The run of `get_worktree_status`.
    pub open spec fn get_worktree_status_run(worktree: Seq<char>, rest: Seq<ReplyModel>) -> Run<
        Result<WorktreeStatusModel, GitCliErrorModel>,
    > {
        match Self::git_impl_run(
            worktree,
            seq![
                "--no-optional-locks"@,
                "status"@,
                "--porcelain"@,
                "-z"@,
                "--untracked-files=normal"@,
            ],
            false,
            rest,
        ) {
            Run::Pending(q) => Run::Pending(q),
            Run::Ready(Err(e), rest1) => Run::Ready(Err(e), rest1),
            Run::Ready(Ok(out), rest1) => Run::Ready(Ok(worktree_status(out)), rest1),
        }
    }

    /// The status of the working tree, path by path.
    pub fn get_worktree_status(&self, io: &mut Replay, worktree_path: &str) -> (r: Result<
        Result<WorktreeStatus, GitCliError>,
        Request,
    >)
        ensures
            settled(
                r,
                final(io).unread(),
                Self::get_worktree_status_run(worktree_path@, old(io).unread()),
            ),
    {
        let args = argv5(
            "--no-optional-locks",
            "status",
            "--porcelain",
            "-z",
            "--untracked-files=normal",
        );
        match Self::git_impl(io, worktree_path, args, false)? {
            Err(e) => Ok(Err(e)),
            Ok(out) => {
                proof {
                    lemma_models_bytes(out@);
                }
                Ok(Ok(parse_status(&out)))
            },
        }
    }

    // --- commit ---

    /// The run of `add_all`.
    pub open spec fn add_all_run(worktree: Seq<char>, rest: Seq<ReplyModel>) -> Run<
        Result<(), GitCliErrorModel>,
    > {
        Self::plain_run(worktree, seq!["add"@, "-A"@], rest)
    }

    /// Stages every change of the working tree.
    pub fn add_all(&self, io: &mut Replay, worktree_path: &str) -> (r: Result<
        Result<(), GitCliError>,
        Request,
    >)
        ensures
            settled(r, final(io).unread(), Self::add_all_run(worktree_path@, old(io).unread())),
    {
        self.plain(io, worktree_path, argv2("add", "-A"))
    }

    /// The run of `commit`.
    pub open spec fn commit_run(worktree: Seq<char>, message: Seq<char>, rest: Seq<ReplyModel>) -> Run<
        Result<(), GitCliErrorModel>,
    > {
        Self::plain_run(worktree, seq!["commit"@, "-m"@, message], rest)
    }

    /// Commits what is staged.
    pub fn commit(&self, io: &mut Replay, worktree_path: &str, message: &str) -> (r: Result<
        Result<(), GitCliError>,
        Request,
    >)
        ensures
            settled(
                r,
                final(io).unread(),
                Self::commit_run(worktree_path@, message@, old(io).unread()),
            ),
    {
        self.plain(io, worktree_path, argv3("commit", "-m", message))
    }

    // --- remotes ---

    /// The run of `fetch_with_refspec`.
    pub open spec fn fetch_with_refspec_run(
        repo: Seq<char>,
        remote_url: Seq<char>,
        refspec: Seq<char>,
        rest: Seq<ReplyModel>,
    ) -> Run<Result<(), GitCliErrorModel>> {
        match Self::git_with_env_run(repo, seq!["fetch"@, remote_url, refspec], rest) {
            Run::Pending(q) => Run::Pending(q),
            Run::Ready(res, rest1) => Run::Ready(as_auth_failure(unit_of(res)), rest1),
        }
    }

    /// Fetches `refspec` from `remote_url` without prompting. A command
    /// failure is reported as a failure to authenticate.
    pub fn fetch_with_refspec(&self, io: &mut Replay, repo_path: &str, remote_url: &str, refspec: &str) -> (r:
        Result<Result<(), GitCliError>, Request>)
        ensures
            settled(
                r,
                final(io).unread(),
                Self::fetch_with_refspec_run(repo_path@, remote_url@, refspec@, old(io).unread()),
            ),
    {
        match self.git_with_env(io, repo_path, argv3("fetch", remote_url, refspec))? {
            Ok(_) => Ok(Ok(())),
            Err(GitCliError::CommandFailed(_)) => Ok(Err(GitCliError::AuthFailed)),
            Err(e) => Ok(Err(e)),
        }
    }

    /// The run of `push`.
    pub open spec fn push_run(
        repo: Seq<char>,
        remote_url: Seq<char>,
        branch: Seq<char>,
        force: bool,
        rest: Seq<ReplyModel>,
    ) -> Run<Result<(), GitCliErrorModel>> {
        match Self::git_with_env_run(
            repo,
            seq!["push"@, remote_url, push_refspec(branch, force)],
            rest,
        ) {
            Run::Pending(q) => Run::Pending(q),
            Run::Ready(res, rest1) => Run::Ready(as_push_rejection(unit_of(res)), rest1),
        }
    }

    /// Pushes `branch` to `remote_url` without prompting. A command failure
    /// is reported as a rejected push.
    pub fn push(&self, io: &mut Replay, repo_path: &str, remote_url: &str, branch: &str, force: bool) -> (r:
        Result<Result<(), GitCliError>, Request>)
        ensures
            settled(
                r,
                final(io).unread(),
                Self::push_run(repo_path@, remote_url@, branch@, force, old(io).unread()),
            ),
    {
        let head = if force {
            "+refs/heads/"
        } else {
            "refs/heads/"
        };
        let left = join2(head, branch);
        let right = join2(":refs/heads/", branch);
        let refspec = join2(left.as_str(), right.as_str());
        assert(refspec@ =~= push_refspec(branch@, force));
        match self.git_with_env(io, repo_path, argv3("push", remote_url, refspec.as_str()))? {
            Ok(_) => Ok(Ok(())),
            Err(GitCliError::CommandFailed(_)) => Ok(Err(GitCliError::PushRejected)),
            Err(e) => Ok(Err(e)),
        }
    }

    /// The run of `check_remote_branch_exists`.
    pub open spec fn check_remote_branch_exists_run(
        repo: Seq<char>,
        remote_url: Seq<char>,
        branch: Seq<char>,
        rest: Seq<ReplyModel>,
    ) -> Run<Result<bool, GitCliErrorModel>> {
        match Self::git_with_env_run(
            repo,
            seq!["ls-remote"@, "--heads"@, remote_url, "refs/heads/"@ + branch],
            rest,
        ) {
            Run::Pending(q) => Run::Pending(q),
            Run::Ready(Ok(out), rest1) => Run::Ready(Ok(trimmed(out).len() != 0), rest1),
            Run::Ready(Err(e), rest1) => Run::Ready(
                as_auth_failure(Err::<bool, GitCliErrorModel>(e)),
                rest1,
            ),
        }
    }

    /// Whether the remote at `remote_url` has a branch `branch_name`.
    pub fn check_remote_branch_exists(
        &self,
        io: &mut Replay,
        repo_path: &str,
        remote_url: &str,
        branch_name: &str,
    ) -> (r: Result<Result<bool, GitCliError>, Request>)
        ensures
            settled(
                r,
                final(io).unread(),
                Self::check_remote_branch_exists_run(
                    repo_path@,
                    remote_url@,
                    branch_name@,
                    old(io).unread(),
                ),
            ),
    {
        let refspec = join2("refs/heads/", branch_name);
        match self.git_with_env(
            io,
            repo_path,
            argv4("ls-remote", "--heads", remote_url, refspec.as_str()),
        )? {
            Ok(out) => Ok(Ok(!trim(out.as_str()).as_str().is_empty())),
            Err(GitCliError::CommandFailed(_)) => Ok(Err(GitCliError::AuthFailed)),
            Err(e) => Ok(Err(e)),
        }
    }

    /// The run of `delete_branch`.
    pub open spec fn delete_branch_run(repo: Seq<char>, branch: Seq<char>, rest: Seq<ReplyModel>) -> Run<
        Result<(), GitCliErrorModel>,
    > {
        Self::checked_run(repo, seq!["branch"@, "-D"@, branch], rest)
    }

    /// Deletes the local branch `branch_name`, merged or not.
    pub fn delete_branch(&self, io: &mut Replay, repo_path: &str, branch_name: &str) -> (r: Result<
        Result<(), GitCliError>,
        Request,
    >)
        ensures
            settled(
                r,
                final(io).unread(),
                Self::delete_branch_run(repo_path@, branch_name@, old(io).unread()),
            ),
    {
        self.checked(io, repo_path, argv3("branch", "-D", branch_name))
    }

    /// The run of `get_remote_url`.
    pub open spec fn get_remote_url_run(repo: Seq<char>, remote: Seq<char>, rest: Seq<ReplyModel>) -> Run<
        Result<Seq<char>, GitCliErrorModel>,
    > {
        match Self::git_run(repo, seq!["remote"@, "get-url"@, remote], rest) {
            Run::Pending(q) => Run::Pending(q),
            Run::Ready(Err(e), rest1) => Run::Ready(Err(e), rest1),
            Run::Ready(Ok(out), rest1) => Run::Ready(Ok(trimmed(out)), rest1),
        }
    }

    /// The URL of the remote `remote_name`.
    pub fn get_remote_url(&self, io: &mut Replay, repo_path: &str, remote_name: &str) -> (r: Result<
        Result<String, GitCliError>,
        Request,
    >)
        ensures
            settled(
                r,
                final(io).unread(),
                Self::get_remote_url_run(repo_path@, remote_name@, old(io).unread()),
            ),
    {
        match self.git(io, repo_path, argv3("remote", "get-url", remote_name))? {
            Err(e) => Ok(Err(e)),
            Ok(out) => Ok(Ok(trim(out.as_str()))),
        }
    }

    /// The run of `list_remotes`.
    pub open spec fn list_remotes_run(repo: Seq<char>, rest: Seq<ReplyModel>) -> Run<
        Result<Seq<(Seq<char>, Seq<char>)>, GitCliErrorModel>,
    > {
        match Self::git_run(repo, seq!["remote"@, "-v"@], rest) {
            Run::Pending(q) => Run::Pending(q),
            Run::Ready(Err(e), rest1) => Run::Ready(Err(e), rest1),
            Run::Ready(Ok(out), rest1) => Run::Ready(Ok(remote_list(out)), rest1),
        }
    }

    /// The remotes of the repository with their URLs, each name once.
    pub fn list_remotes(&self, io: &mut Replay, repo_path: &str) -> (r: Result<
        Result<Vec<(String, String)>, GitCliError>,
        Request,
    >)
        ensures
            settled(r, final(io).unread(), Self::list_remotes_run(repo_path@, old(io).unread())),
    {
        match self.git(io, repo_path, argv2("remote", "-v"))? {
            Err(e) => Ok(Err(e)),
            Ok(out) => Ok(Ok(parse_remote_list(out.as_str()))),
        }
    }

    // --- rebase ---

    /// The run of `merge_base`: the fork point where git finds one, else the
    /// plain merge base.
    pub open spec fn merge_base_run(
        worktree: Seq<char>,
        a: Seq<char>,
        b: Seq<char>,
        rest: Seq<ReplyModel>,
    ) -> Run<Result<Seq<char>, GitCliErrorModel>> {
        match Self::git_run(worktree, seq!["merge-base"@, "--fork-point"@, a, b], rest) {
            Run::Pending(q) => Run::Pending(q),
            Run::Ready(Ok(out), rest1) => Run::Ready(Ok(trimmed(out)), rest1),
            Run::Ready(Err(_), rest1) => match Self::git_run(
                worktree,
                seq!["merge-base"@, a, b],
                rest1,
            ) {
                Run::Pending(q) => Run::Pending(q),
                Run::Ready(Ok(out), rest2) => Run::Ready(Ok(trimmed(out)), rest2),
                Run::Ready(Err(e), rest2) => Run::Ready(Err(e), rest2),
            },
        }
    }

    /// The commit from which `b` forked off `a`.
    pub fn merge_base(&self, io: &mut Replay, worktree_path: &str, a: &str, b: &str) -> (r: Result<
        Result<String, GitCliError>,
        Request,
    >)
        ensures
            settled(
                r,
                final(io).unread(),
                Self::merge_base_run(worktree_path@, a@, b@, old(io).unread()),
            ),
    {
        match self.git(io, worktree_path, argv4("merge-base", "--fork-point", a, b))? {
            Ok(out) => Ok(Ok(trim(out.as_str()))),
            Err(_) => match self.git(io, worktree_path, argv3("merge-base", a, b))? {
                Ok(out) => Ok(Ok(trim(out.as_str()))),
                Err(e) => Ok(Err(e)),
            },
        }
    }

    /// The run of `is_rebase_in_progress`: git is asked where it keeps the
    /// state of the two kinds of rebase, then each place is looked for, the
    /// second only where the first is not there. A place that git names
    /// relative to the worktree is looked for under the worktree.
    pub open spec fn is_rebase_in_progress_run(worktree: Seq<char>, rest: Seq<ReplyModel>) -> Run<
        Result<bool, GitCliErrorModel>,
    > {
        match Self::git_run(worktree, seq!["rev-parse"@, "--git-path"@, "rebase-merge"@], rest) {
            Run::Pending(q) => Run::Pending(q),
            Run::Ready(Err(e), rest1) => Run::Ready(Err(e), rest1),
            Run::Ready(Ok(merge_dir), rest1) => match Self::git_run(
                worktree,
                seq!["rev-parse"@, "--git-path"@, "rebase-apply"@],
                rest1,
            ) {
                Run::Pending(q) => Run::Pending(q),
                Run::Ready(Err(e), rest2) => Run::Ready(Err(e), rest2),
                Run::Ready(Ok(apply_dir), rest2) => match exists_run(
                    joined_path(worktree, trimmed(merge_dir)),
                    rest2,
                ) {
                    Run::Pending(q) => Run::Pending(q),
                    Run::Ready(found, rest3) => if found {
                        Run::Ready(Ok(true), rest3)
                    } else {
                        match exists_run(joined_path(worktree, trimmed(apply_dir)), rest3) {
                            Run::Pending(q) => Run::Pending(q),
                            Run::Ready(found2, rest4) => Run::Ready(Ok(found2), rest4),
                        }
                    },
                },
            },
        }
    }

    /// Whether a rebase is under way in the worktree.
    pub fn is_rebase_in_progress(&self, io: &mut Replay, worktree_path: &str) -> (r: Result<
        Result<bool, GitCliError>,
        Request,
    >)
        ensures
            settled(
                r,
                final(io).unread(),
                Self::is_rebase_in_progress_run(worktree_path@, old(io).unread()),
            ),
    {
        let merge_dir = match self.git(
            io,
            worktree_path,
            argv3("rev-parse", "--git-path", "rebase-merge"),
        )? {
            Err(e) => return Ok(Err(e)),
            Ok(out) => out,
        };
        let apply_dir = match self.git(
            io,
            worktree_path,
            argv3("rev-parse", "--git-path", "rebase-apply"),
        )? {
            Err(e) => return Ok(Err(e)),
            Ok(out) => out,
        };
        let merge_path = join_path(worktree_path, trim(merge_dir.as_str()).as_str());
        if path_exists(io, merge_path.as_str())? {
            return Ok(Ok(true));
        }
        let apply_path = join_path(worktree_path, trim(apply_dir.as_str()).as_str());
        let found = path_exists(io, apply_path.as_str())?;
        Ok(Ok(found))
    }

    /// The run of `rebase_onto`: refused while a rebase is under way; the
    /// commits after the fork point of `task_branch` from `old_base`, or
    /// after `old_base` where no fork point is found, are replayed onto
    /// `new_base`.
    pub open spec fn rebase_onto_run(
        worktree: Seq<char>,
        new_base: Seq<char>,
        old_base: Seq<char>,
        task_branch: Seq<char>,
        rest: Seq<ReplyModel>,
    ) -> Run<Result<(), GitCliErrorModel>> {
        match Self::is_rebase_in_progress_run(worktree, rest) {
            Run::Pending(q) => Run::Pending(q),
            Run::Ready(Ok(true), rest1) => Run::Ready(Err(GitCliErrorModel::RebaseInProgress), rest1),
            Run::Ready(_, rest1) => match Self::merge_base_run(
                worktree,
                old_base,
                task_branch,
                rest1,
            ) {
                Run::Pending(q) => Run::Pending(q),
                Run::Ready(base, rest2) => Self::plain_run(
                    worktree,
                    seq!["rebase"@, "--onto"@, new_base, value_or(base, old_base), task_branch],
                    rest2,
                ),
            },
        }
    }

    /// Rebases `task_branch` from `old_base` onto `new_base`.
    pub fn rebase_onto(
        &self,
        io: &mut Replay,
        worktree_path: &str,
        new_base: &str,
        old_base: &str,
        task_branch: &str,
    ) -> (r: Result<Result<(), GitCliError>, Request>)
        ensures
            settled(
                r,
                final(io).unread(),
                Self::rebase_onto_run(
                    worktree_path@,
                    new_base@,
                    old_base@,
                    task_branch@,
                    old(io).unread(),
                ),
            ),
    {
        let busy = match self.is_rebase_in_progress(io, worktree_path)? {
            Ok(b) => b,
            Err(_) => false,
        };
        if busy {
            return Ok(Err(GitCliError::RebaseInProgress));
        }
        let base = match self.merge_base(io, worktree_path, old_base, task_branch)? {
            Ok(b) => b,
            Err(_) => old_base.to_owned(),
        };
        self.plain(
            io,
            worktree_path,
            argv5("rebase", "--onto", new_base, base.as_str(), task_branch),
        )
    }

    /// The run of a probe for an operation that leaves a reference behind
    /// while it waits.
    pub open spec fn in_progress_run(worktree: Seq<char>, marker: Seq<char>, rest: Seq<ReplyModel>) -> Run<
        Result<bool, GitCliErrorModel>,
    > {
        match Self::git_run(worktree, seq!["rev-parse"@, "--verify"@, marker], rest) {
            Run::Pending(q) => Run::Pending(q),
            Run::Ready(res, rest1) => Run::Ready(resolved(res), rest1),
        }
    }

    fn in_progress(&self, io: &mut Replay, worktree_path: &str, marker: &str) -> (r: Result<
        Result<bool, GitCliError>,
        Request,
    >)
        ensures
            settled(
                r,
                final(io).unread(),
                Self::in_progress_run(worktree_path@, marker@, old(io).unread()),
            ),
    {
        match self.git(io, worktree_path, argv3("rev-parse", "--verify", marker))? {
            Ok(_) => Ok(Ok(true)),
            Err(GitCliError::CommandFailed(_)) => Ok(Ok(false)),
            Err(e) => Ok(Err(e)),
        }
    }

    /// Whether a merge is under way in the worktree.
    pub fn is_merge_in_progress(&self, io: &mut Replay, worktree_path: &str) -> (r: Result<
        Result<bool, GitCliError>,
        Request,
    >)
        ensures
            settled(
                r,
                final(io).unread(),
                Self::in_progress_run(worktree_path@, "MERGE_HEAD"@, old(io).unread()),
            ),
    {
        self.in_progress(io, worktree_path, "MERGE_HEAD")
    }

    /// Whether a cherry-pick is under way in the worktree.
    pub fn is_cherry_pick_in_progress(&self, io: &mut Replay, worktree_path: &str) -> (r: Result<
        Result<bool, GitCliError>,
        Request,
    >)
        ensures
            settled(
                r,
                final(io).unread(),
                Self::in_progress_run(worktree_path@, "CHERRY_PICK_HEAD"@, old(io).unread()),
            ),
    {
        self.in_progress(io, worktree_path, "CHERRY_PICK_HEAD")
    }

    /// Whether a revert is under way in the worktree.
    pub fn is_revert_in_progress(&self, io: &mut Replay, worktree_path: &str) -> (r: Result<
        Result<bool, GitCliError>,
        Request,
    >)
        ensures
            settled(
                r,
                final(io).unread(),
                Self::in_progress_run(worktree_path@, "REVERT_HEAD"@, old(io).unread()),
            ),
    {
        self.in_progress(io, worktree_path, "REVERT_HEAD")
    }

    /// The run of ending a rebase with `flag`: nothing is done where no
    /// rebase is under way.
    pub open spec fn end_rebase_run(worktree: Seq<char>, flag: Seq<char>, rest: Seq<ReplyModel>) -> Run<
        Result<(), GitCliErrorModel>,
    > {
        match Self::is_rebase_in_progress_run(worktree, rest) {
            Run::Pending(q) => Run::Pending(q),
            Run::Ready(Err(e), rest1) => Run::Ready(Err(e), rest1),
            Run::Ready(Ok(false), rest1) => Run::Ready(Ok(()), rest1),
            Run::Ready(Ok(true), rest1) => Self::plain_run(worktree, seq!["rebase"@, flag], rest1),
        }
    }

    fn end_rebase(&self, io: &mut Replay, worktree_path: &str, flag: &str) -> (r: Result<
        Result<(), GitCliError>,
        Request,
    >)
        ensures
            settled(
                r,
                final(io).unread(),
                Self::end_rebase_run(worktree_path@, flag@, old(io).unread()),
            ),
    {
        match self.is_rebase_in_progress(io, worktree_path)? {
            Err(e) => Ok(Err(e)),
            Ok(false) => Ok(Ok(())),
            Ok(true) => self.plain(io, worktree_path, argv2("rebase", flag)),
        }
    }

    /// Aborts the rebase under way, if there is one: the branch goes back to
    /// where it was.
    pub fn abort_rebase(&self, io: &mut Replay, worktree_path: &str) -> (r: Result<
        Result<(), GitCliError>,
        Request,
    >)
        ensures
            settled(
                r,
                final(io).unread(),
                Self::end_rebase_run(worktree_path@, "--abort"@, old(io).unread()),
            ),
    {
        self.end_rebase(io, worktree_path, "--abort")
    }

    /// Quits the rebase under way, if there is one: what was replayed stays.
    pub fn quit_rebase(&self, io: &mut Replay, worktree_path: &str) -> (r: Result<
        Result<(), GitCliError>,
        Request,
    >)
        ensures
            settled(
                r,
                final(io).unread(),
                Self::end_rebase_run(worktree_path@, "--quit"@, old(io).unread()),
            ),
    {
        self.end_rebase(io, worktree_path, "--quit")
    }

    /// The run of `continue_rebase`: an error where no rebase is under way.
    pub open spec fn continue_rebase_run(worktree: Seq<char>, rest: Seq<ReplyModel>) -> Run<
        Result<(), GitCliErrorModel>,
    > {
        match Self::is_rebase_in_progress_run(worktree, rest) {
            Run::Pending(q) => Run::Pending(q),
            Run::Ready(Err(e), rest1) => Run::Ready(Err(e), rest1),
            Run::Ready(Ok(false), rest1) => Run::Ready(
                Err(GitCliErrorModel::CommandFailed("No rebase in progress"@)),
                rest1,
            ),
            Run::Ready(Ok(true), rest1) => Self::plain_run(
                worktree,
                seq!["rebase"@, "--continue"@],
                rest1,
            ),
        }
    }

    /// Continues the rebase under way.
    pub fn continue_rebase(&self, io: &mut Replay, worktree_path: &str) -> (r: Result<
        Result<(), GitCliError>,
        Request,
    >)
        ensures
            settled(
                r,
                final(io).unread(),
                Self::continue_rebase_run(worktree_path@, old(io).unread()),
            ),
    {
        match self.is_rebase_in_progress(io, worktree_path)? {
            Err(e) => Ok(Err(e)),
            Ok(false) => Ok(Err(GitCliError::CommandFailed("No rebase in progress".to_owned()))),
            Ok(true) => self.plain(io, worktree_path, argv2("rebase", "--continue")),
        }
    }

    // --- other ---

    /// The request of `has_staged_changes`.
    pub open spec fn staged_request(repo: Seq<char>) -> RequestModel {
        Request::plain(
            RequestKind::GitResolved,
            Seq::empty(),
            seq!["-C"@, repo, "diff"@, "--cached"@, "--quiet"@],
        )
    }

    /// The run of `has_staged_changes`.
    pub open spec fn has_staged_changes_run(repo: Seq<char>, rest: Seq<ReplyModel>) -> Run<
        Result<bool, GitCliErrorModel>,
    > {
        match ask(Self::staged_request(repo), rest) {
            Run::Pending(q) => Run::Pending(q),
            Run::Ready(reply, rest1) => Run::Ready(staged_outcome(reply), rest1),
        }
    }

    /// Whether anything is staged in the repository.
    pub fn has_staged_changes(&self, io: &mut Replay, repo_path: &str) -> (r: Result<
        Result<bool, GitCliError>,
        Request,
    >)
        ensures
            settled(r, final(io).unread(), Self::has_staged_changes_run(repo_path@, old(io).unread())),
    {
        let args = argv5("-C", repo_path, "diff", "--cached", "--quiet");
        proof {
            reveal_strlit("");
            assert(""@ =~= Seq::<char>::empty());
        }
        let reply = io.ask(Request::new(RequestKind::GitResolved, "", args))?;
        Ok(
            match reply {
                Reply::Unavailable => Err(GitCliError::NotAvailable),
                Reply::Failed(f) => Err(GitCliError::CommandFailed(f.message.clone())),
                Reply::Exited { code: Some(0), .. } => Ok(false),
                Reply::Exited { code: Some(1), .. } => Ok(true),
                _ => Err(GitCliError::CommandFailed("Unknown error".to_owned())),
            },
        )
    }

    /// The run of `merge_squash_commit`: the base branch is checked out, the
    /// source branch merged into it as one staged change, that change
    /// committed, and the id of the new commit read.
    pub open spec fn merge_squash_commit_run(
        repo: Seq<char>,
        base_branch: Seq<char>,
        from_branch: Seq<char>,
        message: Seq<char>,
        rest: Seq<ReplyModel>,
    ) -> Run<Result<Seq<char>, GitCliErrorModel>> {
        match Self::plain_run(repo, seq!["checkout"@, base_branch], rest) {
            Run::Pending(q) => Run::Pending(q),
            Run::Ready(Err(e), rest1) => Run::Ready(Err(e), rest1),
            Run::Ready(Ok(_), rest1) => match Self::plain_run(
                repo,
                seq!["merge"@, "--squash"@, "--no-commit"@, from_branch],
                rest1,
            ) {
                Run::Pending(q) => Run::Pending(q),
                Run::Ready(Err(e), rest2) => Run::Ready(Err(e), rest2),
                Run::Ready(Ok(_), rest2) => match Self::plain_run(
                    repo,
                    seq!["commit"@, "-m"@, message],
                    rest2,
                ) {
                    Run::Pending(q) => Run::Pending(q),
                    Run::Ready(Err(e), rest3) => Run::Ready(Err(e), rest3),
                    Run::Ready(Ok(_), rest3) => match Self::git_run(
                        repo,
                        seq!["rev-parse"@, "HEAD"@],
                        rest3,
                    ) {
                        Run::Pending(q) => Run::Pending(q),
                        Run::Ready(Err(e), rest4) => Run::Ready(Err(e), rest4),
                        Run::Ready(Ok(out), rest4) => Run::Ready(Ok(trimmed(out)), rest4),
                    },
                },
            },
        }
    }

    /// Merges `from_branch` into `base_branch` as a single commit and returns
    /// the id of that commit.
    pub fn merge_squash_commit(
        &self,
        io: &mut Replay,
        repo_path: &str,
        base_branch: &str,
        from_branch: &str,
        message: &str,
    ) -> (r: Result<Result<String, GitCliError>, Request>)
        ensures
            settled(
                r,
                final(io).unread(),
                Self::merge_squash_commit_run(
                    repo_path@,
                    base_branch@,
                    from_branch@,
                    message@,
                    old(io).unread(),
                ),
            ),
    {
        match self.plain(io, repo_path, argv2("checkout", base_branch))? {
            Err(e) => return Ok(Err(e)),
            Ok(()) => {},
        }
        match self.plain(io, repo_path, argv4("merge", "--squash", "--no-commit", from_branch))? {
            Err(e) => return Ok(Err(e)),
            Ok(()) => {},
        }
        match self.plain(io, repo_path, argv3("commit", "-m", message))? {
            Err(e) => return Ok(Err(e)),
            Ok(()) => {},
        }
        match self.git(io, repo_path, argv2("rev-parse", "HEAD"))? {
            Err(e) => Ok(Err(e)),
            Ok(out) => Ok(Ok(trim(out.as_str()))),
        }
    }

    /// The run of `update_ref`.
    pub open spec fn update_ref_run(
        repo: Seq<char>,
        refname: Seq<char>,
        sha: Seq<char>,
        rest: Seq<ReplyModel>,
    ) -> Run<Result<(), GitCliErrorModel>> {
        Self::plain_run(repo, seq!["update-ref"@, refname, sha], rest)
    }

    /// Points the reference `refname` at `sha`.
    pub fn update_ref(&self, io: &mut Replay, repo_path: &str, refname: &str, sha: &str) -> (r: Result<
        Result<(), GitCliError>,
        Request,
    >)
        ensures
            settled(
                r,
                final(io).unread(),
                Self::update_ref_run(repo_path@, refname@, sha@, old(io).unread()),
            ),
    {
        self.plain(io, repo_path, argv3("update-ref", refname, sha))
    }

    /// The run of aborting the operation that left `marker` behind, with the
    /// command `verb --abort`: nothing is done where it is not under way.
    pub open spec fn abort_run(
        worktree: Seq<char>,
        marker: Seq<char>,
        verb: Seq<char>,
        rest: Seq<ReplyModel>,
    ) -> Run<Result<(), GitCliErrorModel>> {
        match Self::in_progress_run(worktree, marker, rest) {
            Run::Pending(q) => Run::Pending(q),
            Run::Ready(Err(e), rest1) => Run::Ready(Err(e), rest1),
            Run::Ready(Ok(false), rest1) => Run::Ready(Ok(()), rest1),
            Run::Ready(Ok(true), rest1) => Self::plain_run(worktree, seq![verb, "--abort"@], rest1),
        }
    }

    fn abort(&self, io: &mut Replay, worktree_path: &str, marker: &str, verb: &str) -> (r: Result<
        Result<(), GitCliError>,
        Request,
    >)
        ensures
            settled(
                r,
                final(io).unread(),
                Self::abort_run(worktree_path@, marker@, verb@, old(io).unread()),
            ),
    {
        match self.in_progress(io, worktree_path, marker)? {
            Err(e) => Ok(Err(e)),
            Ok(false) => Ok(Ok(())),
            Ok(true) => self.plain(io, worktree_path, argv2(verb, "--abort")),
        }
    }

    /// Aborts the merge under way, if there is one.
    pub fn abort_merge(&self, io: &mut Replay, worktree_path: &str) -> (r: Result<
        Result<(), GitCliError>,
        Request,
    >)
        ensures
            settled(
                r,
                final(io).unread(),
                Self::abort_run(worktree_path@, "MERGE_HEAD"@, "merge"@, old(io).unread()),
            ),
    {
        self.abort(io, worktree_path, "MERGE_HEAD", "merge")
    }

    /// Aborts the cherry-pick under way, if there is one.
    pub fn abort_cherry_pick(&self, io: &mut Replay, worktree_path: &str) -> (r: Result<
        Result<(), GitCliError>,
        Request,
    >)
        ensures
            settled(
                r,
                final(io).unread(),
                Self::abort_run(
                    worktree_path@,
                    "CHERRY_PICK_HEAD"@,
                    "cherry-pick"@,
                    old(io).unread(),
                ),
            ),
    {
        self.abort(io, worktree_path, "CHERRY_PICK_HEAD", "cherry-pick")
    }

    /// Aborts the revert under way, if there is one.
    pub fn abort_revert(&self, io: &mut Replay, worktree_path: &str) -> (r: Result<
        Result<(), GitCliError>,
        Request,
    >)
        ensures
            settled(
                r,
                final(io).unread(),
                Self::abort_run(worktree_path@, "REVERT_HEAD"@, "revert"@, old(io).unread()),
            ),
    {
        self.abort(io, worktree_path, "REVERT_HEAD", "revert")
    }

    /// The run of `get_conflicted_files`.
    pub open spec fn get_conflicted_files_run(worktree: Seq<char>, rest: Seq<ReplyModel>) -> Run<
        Result<Seq<Seq<char>>, GitCliErrorModel>,
    > {
        match Self::git_run(worktree, seq!["diff"@, "--name-only"@, "--diff-filter=U"@], rest) {
            Run::Pending(q) => Run::Pending(q),
            Run::Ready(Err(e), rest1) => Run::Ready(Err(e), rest1),
            Run::Ready(Ok(out), rest1) => Run::Ready(Ok(name_list(out)), rest1),
        }
    }

    /// The files that still hold conflicts.
    pub fn get_conflicted_files(&self, io: &mut Replay, worktree_path: &str) -> (r: Result<
        Result<Vec<String>, GitCliError>,
        Request,
    >)
        ensures
            settled(
                r,
                final(io).unread(),
                Self::get_conflicted_files_run(worktree_path@, old(io).unread()),
            ),
    {
        match self.git(io, worktree_path, argv3("diff", "--name-only", "--diff-filter=U"))? {
            Err(e) => Ok(Err(e)),
            Ok(out) => Ok(Ok(parse_name_list(out.as_str()))),
        }
    }
}

} // verus!
