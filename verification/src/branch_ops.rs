//! Branch queries of the repository service: lookup, validity of names,
//! ahead and behind counts, and merge bases.

use vstd::prelude::*;
use crate::effects::{
    argv1, argv2, counts_run, done_run, flag_run, must_text_run, settled, text_run, FailureModel,
    Replay, ReplyModel, Request, RequestKind, Run,
};
use crate::errors::{GitServiceError, GitServiceErrorModel};
use crate::git_cli::GitCli;
use crate::git_service::{graph, query, run_cli, BranchType, GitService};
use crate::model::Model;
use crate::text::{join2, to_chars};
use crate::types::Commit;

verus! {

/// What `git2::Branch::name_is_valid` answers for a name, or `None` where
/// it reports an error.
pub uninterp spec fn branch_name_check(name: Seq<char>) -> Option<bool>;

/// What `git2::Oid::from_str` makes of a text: the object id in full
/// hexadecimal, or the message of its error.
pub uninterp spec fn oid_parse(text: Seq<char>) -> Result<Seq<char>, Seq<char>>;

/// Calls `git2::Branch::name_is_valid`. The result is named
/// `branch_name_check`; an error becomes `None`.
#[verifier::external_body]
pub(crate) fn check_branch_name(name: &str) -> (r: Option<bool>)
    ensures
        r == branch_name_check(name@),
{
    match git2::Branch::name_is_valid(name) {
        Ok(valid) => Some(valid),
        Err(_) => None,
    }
}

/// Calls `git2::Oid::from_str`. The result is named `oid_parse`: the id is
/// written out in hexadecimal, an error gives its message. The documentation
/// says that an empty text and one longer than 40 characters are errors.
#[verifier::external_body]
pub(crate) fn parse_oid(text: &str) -> (r: Result<String, String>)
    ensures
        r.model() == oid_parse(text@),
        text@.len() == 0 || text@.len() > 40 ==> r is Err,
{
    match git2::Oid::from_str(text) {
        Ok(id) => Ok(id.to_string()),
        Err(e) => Err(e.message().to_string()),
    }
}

/// Whether a branch name is valid, given what the check answered: an error
/// counts as invalid.
pub open spec fn name_valid(check: Option<bool>) -> bool {
    check == Some(true)
}

/// Whether a branch name is valid, given what the check answered.
pub fn name_check_passed(check: Option<bool>) -> (r: bool)
    ensures
        r == name_valid(check),
{
    match check {
        Some(b) => b,
        None => false,
    }
}

/// Whether `prefix` may stand before a branch name: the empty prefix may; one
/// with a slash may not; any other may where `prefix/x` is a valid branch name.
pub open spec fn prefix_valid(prefix: Seq<char>) -> bool {
    if prefix.len() == 0 {
        true
    } else if prefix.contains('/') {
        false
    } else {
        name_valid(branch_name_check(prefix + "/x"@))
    }
}

/// Whether `prefix` may stand before a branch name.
pub fn is_valid_branch_prefix(prefix: &str) -> (r: bool)
    ensures
        r == prefix_valid(prefix@),
{
    let chars = to_chars(prefix);
    if chars.len() == 0 {
        return true;
    }
    let mut i: usize = 0;
    while i < chars.len()
        invariant
            i <= chars.len(),
            chars@ == prefix@,
            chars@.len() > 0,
            forall|k: int| 0 <= k < i ==> chars@[k] != '/',
        decreases chars.len() - i,
    {
        if chars[i] == '/' {
            assert(chars@.contains('/'));
            return false;
        }
        i += 1;
    }
    let candidate = join2(prefix, "/x");
    name_check_passed(check_branch_name(candidate.as_str()))
}

impl Commit {
    /// The commit with object id `id`, given in hexadecimal.
    pub fn new(id: String) -> (r: Commit)
        ensures
            r.model() == id@,
    {
        Commit { id }
    }

    /// The object id of the commit in hexadecimal.
    pub fn as_oid(&self) -> (r: &str)
        ensures
            r@ == self.model(),
    {
        self.id.as_str()
    }
}

/// An id that was parsed, or the failure of the object graph to parse it.
pub open spec fn parsed_id(text: Seq<char>) -> Result<Seq<char>, GitServiceErrorModel> {
    match oid_parse(text) {
        Ok(id) => Ok(id),
        Err(message) => Err(GitServiceErrorModel::Git(message)),
    }
}

pub(crate) fn parse_id(text: &str) -> (r: Result<String, GitServiceError>)
    ensures
        r.model() == parsed_id(text@),
{
    match parse_oid(text) {
        Ok(id) => Ok(id),
        Err(message) => Err(GitServiceError::Git(message)),
    }
}

/// A target that must be there, or the error that the branch is not found.
pub open spec fn target_or(
    target: Result<Option<Seq<char>>, FailureModel>,
    missing: Seq<char>,
) -> Result<Seq<char>, GitServiceErrorModel> {
    match target {
        Ok(Some(t)) => Ok(t),
        Ok(None) => Err(GitServiceErrorModel::BranchNotFound(missing)),
        Err(f) => Err(GitServiceErrorModel::Git(f.message)),
    }
}

impl GitService {
    /// Whether `name` is a valid branch name.
    pub fn is_branch_name_valid(&self, name: &str) -> (r: bool)
        ensures
            r == name_valid(branch_name_check(name@)),
    {
        name_check_passed(check_branch_name(name))
    }

    /// The run of the branch lookup, local before remote-tracking: the full
    /// name of the reference, absent where it is not valid text.
    pub open spec fn find_branch_run(repo: Seq<char>, name: Seq<char>, rest: Seq<ReplyModel>) -> Run<
        Result<Option<Seq<char>>, GitServiceErrorModel>,
    > {
        match text_run(query(RequestKind::BranchRefName, repo, seq![name]), rest) {
            Run::Pending(q) => Run::Pending(q),
            Run::Ready(res, rest1) => Run::Ready(graph(res), rest1),
        }
    }

    /// Looks up the branch `branch_name`, local before remote-tracking, and
    /// returns the full name of its reference.
    pub fn find_branch(io: &mut Replay, repo_path: &str, branch_name: &str) -> (r: Result<
        Result<Option<String>, GitServiceError>,
        Request,
    >)
        ensures
            settled(
                r,
                final(io).unread(),
                Self::find_branch_run(repo_path@, branch_name@, old(io).unread()),
            ),
    {
        match io.text(Request::new(RequestKind::BranchRefName, repo_path, argv1(branch_name)))? {
            Ok(t) => Ok(Ok(t)),
            Err(f) => Ok(Err(GitServiceError::from_graph(f))),
        }
    }

    /// The run of a probe for a branch of one type: a failed probe counts as no.
    pub open spec fn branch_probe_run(
        kind: RequestKind,
        repo: Seq<char>,
        name: Seq<char>,
        rest: Seq<ReplyModel>,
    ) -> Run<bool> {
        match flag_run(query(kind, repo, seq![name]), rest) {
            Run::Pending(q) => Run::Pending(q),
            Run::Ready(res, rest1) => Run::Ready(res == Ok::<bool, FailureModel>(true), rest1),
        }
    }

    fn branch_probe(io: &mut Replay, kind: RequestKind, repo_path: &str, name: &str) -> (r: Result<
        bool,
        Request,
    >)
        ensures
            settled(
                r,
                final(io).unread(),
                Self::branch_probe_run(kind, repo_path@, name@, old(io).unread()),
            ),
    {
        match io.flag(Request::new(kind, repo_path, argv1(name)))? {
            Ok(b) => Ok(b),
            Err(_) => Ok(false),
        }
    }

    /// The run of `find_branch_type`.
    pub open spec fn find_branch_type_run(repo: Seq<char>, name: Seq<char>, rest: Seq<ReplyModel>) -> Run<
        Result<BranchType, GitServiceErrorModel>,
    > {
        match Self::open_repo_run(repo, rest) {
            Run::Pending(q) => Run::Pending(q),
            Run::Ready(Err(e), rest1) => Run::Ready(Err(e), rest1),
            Run::Ready(Ok(_), rest1) => match Self::branch_probe_run(
                RequestKind::LocalBranchExists,
                repo,
                name,
                rest1,
            ) {
                Run::Pending(q) => Run::Pending(q),
                Run::Ready(true, rest2) => Run::Ready(Ok(BranchType::Local), rest2),
                Run::Ready(false, rest2) => match Self::branch_probe_run(
                    RequestKind::RemoteBranchExists,
                    repo,
                    name,
                    rest2,
                ) {
                    Run::Pending(q) => Run::Pending(q),
                    Run::Ready(true, rest3) => Run::Ready(Ok(BranchType::Remote), rest3),
                    Run::Ready(false, rest3) => Run::Ready(
                        Err(GitServiceErrorModel::BranchNotFound(name)),
                        rest3,
                    ),
                },
            },
        }
    }

    /// Whether `branch_name` is a local or a remote-tracking branch; local
    /// where it is both.
    pub fn find_branch_type(&self, io: &mut Replay, repo_path: &str, branch_name: &str) -> (r: Result<
        Result<BranchType, GitServiceError>,
        Request,
    >)
        ensures
            settled(
                r,
                final(io).unread(),
                Self::find_branch_type_run(repo_path@, branch_name@, old(io).unread()),
            ),
    {
        match self.open_repo(io, repo_path)? {
            Err(e) => return Ok(Err(e)),
            Ok(()) => {},
        }
        if Self::branch_probe(io, RequestKind::LocalBranchExists, repo_path, branch_name)? {
            return Ok(Ok(BranchType::Local));
        }
        if Self::branch_probe(io, RequestKind::RemoteBranchExists, repo_path, branch_name)? {
            return Ok(Ok(BranchType::Remote));
        }
        Ok(Err(GitServiceError::BranchNotFound(branch_name.to_owned())))
    }

    /// The run of `check_branch_exists`.
    pub open spec fn check_branch_exists_run(repo: Seq<char>, name: Seq<char>, rest: Seq<ReplyModel>) -> Run<
        Result<bool, GitServiceErrorModel>,
    > {
        match Self::find_branch_type_run(repo, name, rest) {
            Run::Pending(q) => Run::Pending(q),
            Run::Ready(Ok(_), rest1) => Run::Ready(Ok(true), rest1),
            Run::Ready(Err(GitServiceErrorModel::BranchNotFound(_)), rest1) => Run::Ready(
                Ok(false),
                rest1,
            ),
            Run::Ready(Err(e), rest1) => Run::Ready(Err(e), rest1),
        }
    }

    /// Whether there is a local or remote-tracking branch `branch_name`.
    pub fn check_branch_exists(&self, io: &mut Replay, repo_path: &str, branch_name: &str) -> (r:
        Result<Result<bool, GitServiceError>, Request>)
        ensures
            settled(
                r,
                final(io).unread(),
                Self::check_branch_exists_run(repo_path@, branch_name@, old(io).unread()),
            ),
    {
        match self.find_branch_type(io, repo_path, branch_name)? {
            Ok(_) => Ok(Ok(true)),
            Err(GitServiceError::BranchNotFound(_)) => Ok(Ok(false)),
            Err(e) => Ok(Err(e)),
        }
    }

    /// The run of reading where a branch points.
    pub open spec fn branch_target_run(
        repo: Seq<char>,
        name: Seq<char>,
        rest: Seq<ReplyModel>,
    ) -> Run<Result<Option<Seq<char>>, FailureModel>> {
        text_run(query(RequestKind::BranchTarget, repo, seq![name]), rest)
    }

    /// The run of counting ahead and behind between two object ids.
    pub open spec fn ahead_behind_run(
        repo: Seq<char>,
        local: Seq<char>,
        upstream: Seq<char>,
        rest: Seq<ReplyModel>,
    ) -> Run<Result<(usize, usize), GitServiceErrorModel>> {
        match counts_run(query(RequestKind::AheadBehind, repo, seq![local, upstream]), rest) {
            Run::Pending(q) => Run::Pending(q),
            Run::Ready(res, rest1) => Run::Ready(graph(res), rest1),
        }
    }

    fn ahead_behind(io: &mut Replay, repo_path: &str, local: &str, upstream: &str) -> (r: Result<
        Result<(usize, usize), GitServiceError>,
        Request,
    >)
        ensures
            settled(
                r,
                final(io).unread(),
                Self::ahead_behind_run(repo_path@, local@, upstream@, old(io).unread()),
            ),
    {
        match io.counts(Request::new(RequestKind::AheadBehind, repo_path, argv2(local, upstream)))? {
            Ok(c) => Ok(Ok(c)),
            Err(f) => Ok(Err(GitServiceError::from_graph(f))),
        }
    }

    /// The run of `get_branch_status`: both branches are looked up, then the
    /// commits that only the branch has and that only the base has are counted.
    pub open spec fn get_branch_status_run(
        repo: Seq<char>,
        branch: Seq<char>,
        base: Seq<char>,
        rest: Seq<ReplyModel>,
    ) -> Run<Result<(usize, usize), GitServiceErrorModel>> {
        match Self::open_repo_run(repo, rest) {
            Run::Pending(q) => Run::Pending(q),
            Run::Ready(Err(e), rest1) => Run::Ready(Err(e), rest1),
            Run::Ready(Ok(_), rest1) => match Self::find_branch_run(repo, branch, rest1) {
                Run::Pending(q) => Run::Pending(q),
                Run::Ready(Err(e), rest2) => Run::Ready(Err(e), rest2),
                Run::Ready(Ok(_), rest2) => match Self::find_branch_run(repo, base, rest2) {
                    Run::Pending(q) => Run::Pending(q),
                    Run::Ready(Err(e), rest3) => Run::Ready(Err(e), rest3),
                    Run::Ready(Ok(_), rest3) => match Self::branch_target_run(repo, branch, rest3) {
                        Run::Pending(q) => Run::Pending(q),
                        Run::Ready(target, rest4) => match target_or(target, "Branch not found"@) {
                            Err(e) => Run::Ready(Err(e), rest4),
                            Ok(local) => match Self::branch_target_run(repo, base, rest4) {
                                Run::Pending(q) => Run::Pending(q),
                                Run::Ready(base_target, rest5) => match target_or(
                                    base_target,
                                    "Base branch not found"@,
                                ) {
                                    Err(e) => Run::Ready(Err(e), rest5),
                                    Ok(upstream) => Self::ahead_behind_run(
                                        repo,
                                        local,
                                        upstream,
                                        rest5,
                                    ),
                                },
                            },
                        },
                    },
                },
            },
        }
    }

    /// How many commits `branch_name` is ahead of `base_branch_name`, and how
    /// many behind.
    pub fn get_branch_status(
        &self,
        io: &mut Replay,
        repo_path: &str,
        branch_name: &str,
        base_branch_name: &str,
    ) -> (r: Result<Result<(usize, usize), GitServiceError>, Request>)
        ensures
            settled(
                r,
                final(io).unread(),
                Self::get_branch_status_run(
                    repo_path@,
                    branch_name@,
                    base_branch_name@,
                    old(io).unread(),
                ),
            ),
    {
        match self.open_repo(io, repo_path)? {
            Err(e) => return Ok(Err(e)),
            Ok(()) => {},
        }
        match Self::find_branch(io, repo_path, branch_name)? {
            Err(e) => return Ok(Err(e)),
            Ok(_) => {},
        }
        match Self::find_branch(io, repo_path, base_branch_name)? {
            Err(e) => return Ok(Err(e)),
            Ok(_) => {},
        }
        let local = match io.text(
            Request::new(RequestKind::BranchTarget, repo_path, argv1(branch_name)),
        )? {
            Ok(Some(t)) => t,
            Ok(None) => return Ok(
                Err(GitServiceError::BranchNotFound("Branch not found".to_owned())),
            ),
            Err(f) => return Ok(Err(GitServiceError::from_graph(f))),
        };
        let upstream = match io.text(
            Request::new(RequestKind::BranchTarget, repo_path, argv1(base_branch_name)),
        )? {
            Ok(Some(t)) => t,
            Ok(None) => return Ok(
                Err(GitServiceError::BranchNotFound("Base branch not found".to_owned())),
            ),
            Err(f) => return Ok(Err(GitServiceError::from_graph(f))),
        };
        Self::ahead_behind(io, repo_path, local.as_str(), upstream.as_str())
    }

    /// The run of reading the commit a branch leads to.
    pub open spec fn branch_commit_run(repo: Seq<char>, name: Seq<char>, rest: Seq<ReplyModel>) -> Run<
        Result<Seq<char>, GitServiceErrorModel>,
    > {
        match must_text_run(query(RequestKind::BranchCommit, repo, seq![name]), rest) {
            Run::Pending(q) => Run::Pending(q),
            Run::Ready(res, rest1) => Run::Ready(graph(res), rest1),
        }
    }

    pub(crate) fn branch_commit(io: &mut Replay, repo_path: &str, name: &str) -> (r: Result<
        Result<String, GitServiceError>,
        Request,
    >)
        ensures
            settled(
                r,
                final(io).unread(),
                Self::branch_commit_run(repo_path@, name@, old(io).unread()),
            ),
    {
        match io.must_text(Request::new(RequestKind::BranchCommit, repo_path, argv1(name)))? {
            Ok(t) => Ok(Ok(t)),
            Err(f) => Ok(Err(GitServiceError::from_graph(f))),
        }
    }

    /// The run of `get_base_commit`.
    pub open spec fn get_base_commit_run(
        repo: Seq<char>,
        branch: Seq<char>,
        base: Seq<char>,
        rest: Seq<ReplyModel>,
    ) -> Run<Result<Seq<char>, GitServiceErrorModel>> {
        match Self::open_repo_run(repo, rest) {
            Run::Pending(q) => Run::Pending(q),
            Run::Ready(Err(e), rest1) => Run::Ready(Err(e), rest1),
            Run::Ready(Ok(_), rest1) => match Self::branch_commit_run(repo, branch, rest1) {
                Run::Pending(q) => Run::Pending(q),
                Run::Ready(Err(e), rest2) => Run::Ready(Err(e), rest2),
                Run::Ready(Ok(tip), rest2) => match Self::branch_commit_run(repo, base, rest2) {
                    Run::Pending(q) => Run::Pending(q),
                    Run::Ready(Err(e), rest3) => Run::Ready(Err(e), rest3),
                    Run::Ready(Ok(base_tip), rest3) => match must_text_run(
                        query(RequestKind::MergeBase, repo, seq![tip, base_tip]),
                        rest3,
                    ) {
                        Run::Pending(q) => Run::Pending(q),
                        Run::Ready(res, rest4) => Run::Ready(graph(res), rest4),
                    },
                },
            },
        }
    }

    /// The newest commit that `branch_name` and `base_branch_name` share.
    pub fn get_base_commit(
        &self,
        io: &mut Replay,
        repo_path: &str,
        branch_name: &str,
        base_branch_name: &str,
    ) -> (r: Result<Result<Commit, GitServiceError>, Request>)
        ensures
            settled(
                r,
                final(io).unread(),
                Self::get_base_commit_run(
                    repo_path@,
                    branch_name@,
                    base_branch_name@,
                    old(io).unread(),
                ),
            ),
    {
        match self.open_repo(io, repo_path)? {
            Err(e) => return Ok(Err(e)),
            Ok(()) => {},
        }
        let tip = match Self::branch_commit(io, repo_path, branch_name)? {
            Err(e) => return Ok(Err(e)),
            Ok(t) => t,
        };
        let base_tip = match Self::branch_commit(io, repo_path, base_branch_name)? {
            Err(e) => return Ok(Err(e)),
            Ok(t) => t,
        };
        match io.must_text(
            Request::new(RequestKind::MergeBase, repo_path, argv2(tip.as_str(), base_tip.as_str())),
        )? {
            Ok(id) => Ok(Ok(Commit::new(id))),
            Err(f) => Ok(Err(GitServiceError::from_graph(f))),
        }
    }

    /// The run of `get_fork_point`.
    pub open spec fn get_fork_point_run(
        worktree: Seq<char>,
        target_branch: Seq<char>,
        task_branch: Seq<char>,
        rest: Seq<ReplyModel>,
    ) -> Run<Result<Seq<char>, GitServiceErrorModel>> {
        run_cli(GitCli::merge_base_run(worktree, target_branch, task_branch, rest))
    }

    /// The commit from which `task_branch` forked off `target_branch`.
    pub fn get_fork_point(
        &self,
        io: &mut Replay,
        worktree_path: &str,
        target_branch: &str,
        task_branch: &str,
    ) -> (r: Result<Result<String, GitServiceError>, Request>)
        ensures
            settled(
                r,
                final(io).unread(),
                Self::get_fork_point_run(
                    worktree_path@,
                    target_branch@,
                    task_branch@,
                    old(io).unread(),
                ),
            ),
    {
        match GitCli::new().merge_base(io, worktree_path, target_branch, task_branch)? {
            Ok(id) => Ok(Ok(id)),
            Err(e) => Ok(Err(GitServiceError::GitCli(e))),
        }
    }

    /// The run of `get_branch_oid`.
    pub open spec fn get_branch_oid_run(repo: Seq<char>, branch: Seq<char>, rest: Seq<ReplyModel>) -> Run<
        Result<Seq<char>, GitServiceErrorModel>,
    > {
        match Self::open_repo_run(repo, rest) {
            Run::Pending(q) => Run::Pending(q),
            Run::Ready(Err(e), rest1) => Run::Ready(Err(e), rest1),
            Run::Ready(Ok(_), rest1) => Self::branch_commit_run(repo, branch, rest1),
        }
    }

    /// The id of the commit that `branch_name` leads to.
    pub fn get_branch_oid(&self, io: &mut Replay, repo_path: &str, branch_name: &str) -> (r: Result<
        Result<String, GitServiceError>,
        Request,
    >)
        ensures
            settled(
                r,
                final(io).unread(),
                Self::get_branch_oid_run(repo_path@, branch_name@, old(io).unread()),
            ),
    {
        match self.open_repo(io, repo_path)? {
            Err(e) => Ok(Err(e)),
            Ok(()) => Self::branch_commit(io, repo_path, branch_name),
        }
    }

    /// The run of `rename_local_branch`: the branch is renamed and `HEAD` is
    /// pointed at its new name.
    pub open spec fn rename_local_branch_run(
        worktree: Seq<char>,
        old_name: Seq<char>,
        new_name: Seq<char>,
        rest: Seq<ReplyModel>,
    ) -> Run<Result<(), GitServiceErrorModel>> {
        match Self::open_repo_run(worktree, rest) {
            Run::Pending(q) => Run::Pending(q),
            Run::Ready(Err(e), rest1) => Run::Ready(Err(e), rest1),
            Run::Ready(Ok(_), rest1) => match Self::branch_probe_run(
                RequestKind::LocalBranchExists,
                worktree,
                old_name,
                rest1,
            ) {
                Run::Pending(q) => Run::Pending(q),
                Run::Ready(false, rest2) => Run::Ready(
                    Err(GitServiceErrorModel::BranchNotFound(old_name)),
                    rest2,
                ),
                Run::Ready(true, rest2) => match done_run(
                    query(RequestKind::RenameBranch, worktree, seq![old_name, new_name]),
                    rest2,
                ) {
                    Run::Pending(q) => Run::Pending(q),
                    Run::Ready(Err(f), rest3) => Run::Ready(
                        Err(GitServiceErrorModel::Git(f.message)),
                        rest3,
                    ),
                    Run::Ready(Ok(_), rest3) => match done_run(
                        query(RequestKind::SetHead, worktree, seq!["refs/heads/"@ + new_name]),
                        rest3,
                    ) {
                        Run::Pending(q) => Run::Pending(q),
                        Run::Ready(res, rest4) => Run::Ready(graph(res), rest4),
                    },
                },
            },
        }
    }

    /// Renames the local branch `old_branch_name` to `new_branch_name`.
    pub fn rename_local_branch(
        &self,
        io: &mut Replay,
        worktree_path: &str,
        old_branch_name: &str,
        new_branch_name: &str,
    ) -> (r: Result<Result<(), GitServiceError>, Request>)
        ensures
            settled(
                r,
                final(io).unread(),
                Self::rename_local_branch_run(
                    worktree_path@,
                    old_branch_name@,
                    new_branch_name@,
                    old(io).unread(),
                ),
            ),
    {
        match self.open_repo(io, worktree_path)? {
            Err(e) => return Ok(Err(e)),
            Ok(()) => {},
        }
        if !Self::branch_probe(io, RequestKind::LocalBranchExists, worktree_path, old_branch_name)? {
            return Ok(Err(GitServiceError::BranchNotFound(old_branch_name.to_owned())));
        }
        match io.done(
            Request::new(
                RequestKind::RenameBranch,
                worktree_path,
                argv2(old_branch_name, new_branch_name),
            ),
        )? {
            Err(f) => return Ok(Err(GitServiceError::from_graph(f))),
            Ok(()) => {},
        }
        let head = join2("refs/heads/", new_branch_name);
        match io.done(Request::new(RequestKind::SetHead, worktree_path, argv1(head.as_str())))? {
            Err(f) => Ok(Err(GitServiceError::from_graph(f))),
            Ok(()) => Ok(Ok(())),
        }
    }

    /// The run of `get_commit_subject`.
    pub open spec fn get_commit_subject_run(repo: Seq<char>, sha: Seq<char>, rest: Seq<ReplyModel>) -> Run<
        Result<Seq<char>, GitServiceErrorModel>,
    > {
        match Self::open_repo_run(repo, rest) {
            Run::Pending(q) => Run::Pending(q),
            Run::Ready(Err(e), rest1) => Run::Ready(Err(e), rest1),
            Run::Ready(Ok(_), rest1) => match parsed_id(sha) {
                Err(e) => Run::Ready(Err(e), rest1),
                Ok(id) => match text_run(query(RequestKind::CommitSummary, repo, seq![id]), rest1) {
                    Run::Pending(q) => Run::Pending(q),
                    Run::Ready(Err(f), rest2) => Run::Ready(
                        Err(GitServiceErrorModel::Git(f.message)),
                        rest2,
                    ),
                    Run::Ready(Ok(Some(subject)), rest2) => Run::Ready(Ok(subject), rest2),
                    Run::Ready(Ok(None), rest2) => Run::Ready(Ok("(no subject)"@), rest2),
                },
            },
        }
    }

    /// The first line of the message of commit `commit_sha`.
    pub fn get_commit_subject(&self, io: &mut Replay, repo_path: &str, commit_sha: &str) -> (r: Result<
        Result<String, GitServiceError>,
        Request,
    >)
        ensures
            settled(
                r,
                final(io).unread(),
                Self::get_commit_subject_run(repo_path@, commit_sha@, old(io).unread()),
            ),
    {
        match self.open_repo(io, repo_path)? {
            Err(e) => return Ok(Err(e)),
            Ok(()) => {},
        }
        let id = match parse_id(commit_sha) {
            Err(e) => return Ok(Err(e)),
            Ok(id) => id,
        };
        match io.text(Request::new(RequestKind::CommitSummary, repo_path, argv1(id.as_str())))? {
            Err(f) => Ok(Err(GitServiceError::from_graph(f))),
            Ok(Some(subject)) => Ok(Ok(subject)),
            Ok(None) => Ok(Ok("(no subject)".to_owned())),
        }
    }

    /// The run of `ahead_behind_commits_by_oid`.
    pub open spec fn ahead_behind_commits_by_oid_run(
        repo: Seq<char>,
        from_oid: Seq<char>,
        to_oid: Seq<char>,
        rest: Seq<ReplyModel>,
    ) -> Run<Result<(usize, usize), GitServiceErrorModel>> {
        match Self::open_repo_run(repo, rest) {
            Run::Pending(q) => Run::Pending(q),
            Run::Ready(Err(e), rest1) => Run::Ready(Err(e), rest1),
            Run::Ready(Ok(_), rest1) => match parsed_id(from_oid) {
                Err(e) => Run::Ready(Err(e), rest1),
                Ok(from) => match parsed_id(to_oid) {
                    Err(e) => Run::Ready(Err(e), rest1),
                    Ok(to) => Self::ahead_behind_run(repo, from, to, rest1),
                },
            },
        }
    }

    /// How many commits `from_oid` is ahead of `to_oid`, and how many behind.
    pub fn ahead_behind_commits_by_oid(
        &self,
        io: &mut Replay,
        repo_path: &str,
        from_oid: &str,
        to_oid: &str,
    ) -> (r: Result<Result<(usize, usize), GitServiceError>, Request>)
        ensures
            settled(
                r,
                final(io).unread(),
                Self::ahead_behind_commits_by_oid_run(
                    repo_path@,
                    from_oid@,
                    to_oid@,
                    old(io).unread(),
                ),
            ),
    {
        match self.open_repo(io, repo_path)? {
            Err(e) => return Ok(Err(e)),
            Ok(()) => {},
        }
        let from = match parse_id(from_oid) {
            Err(e) => return Ok(Err(e)),
            Ok(id) => id,
        };
        let to = match parse_id(to_oid) {
            Err(e) => return Ok(Err(e)),
            Ok(id) => id,
        };
        Self::ahead_behind(io, repo_path, from.as_str(), to.as_str())
    }
}

} // verus!
