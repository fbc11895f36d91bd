//! The repository service: operations composed of commands of the git
//! executable and of queries to the object graph.

use vstd::prelude::*;
use crate::effects::{
    argv1, argv2, ask, done_run, settled, text_run, FailureModel, Replay, ReplyModel, Request,
    RequestKind, RequestModel, Run,
};
use crate::errors::{GitCliError, GitCliErrorModel, GitServiceError, GitServiceErrorModel};
use crate::git_cli::GitCli;
use crate::model::Model;
use crate::text::join2;
use crate::types::{
    GitRemote, GitRemoteModel, HeadInfo, HeadInfoModel, WorktreeResetOptions,
    WorktreeResetOutcome,
};

verus! {

/// The repository service. It holds no state.
#[derive(Clone, Copy, Debug, Default)]
pub struct GitService;

/// Whether a branch is local or remote-tracking.
#[derive(Clone, Copy, PartialEq, Eq, Structural, Debug)]
pub enum BranchType {
    Local,
    Remote,
}

impl Model for BranchType {
    type M = BranchType;

    open spec fn model(&self) -> BranchType {
        *self
    }
}

/// A query to the repository at `repo` with the operands `args`.
pub open spec fn query(kind: RequestKind, repo: Seq<char>, args: Seq<Seq<char>>) -> RequestModel {
    Request::plain(kind, repo, args)
}

/// A failure of the object graph as an error of the service.
pub open spec fn graph<T>(r: Result<T, FailureModel>) -> Result<T, GitServiceErrorModel> {
    match r {
        Ok(v) => Ok(v),
        Err(f) => Err(GitServiceErrorModel::Git(f.message)),
    }
}

/// A failure of the git executable as an error of the service.
pub open spec fn cli<T>(r: Result<T, GitCliErrorModel>) -> Result<T, GitServiceErrorModel> {
    match r {
        Ok(v) => Ok(v),
        Err(e) => Err(GitServiceErrorModel::GitCli(e)),
    }
}

/// A failure of the git executable as an invalid repository, its text after `prefix`.
pub open spec fn invalid<T>(prefix: Seq<char>, r: Result<T, GitCliErrorModel>) -> Result<
    T,
    GitServiceErrorModel,
> {
    match r {
        Ok(v) => Ok(v),
        Err(e) => Err(GitServiceErrorModel::InvalidRepository(prefix + e.message())),
    }
}

/// A run of the git executable seen by the service: a failure becomes an
/// invalid repository, its text after `prefix`.
pub open spec fn run_invalid<T>(prefix: Seq<char>, run: Run<Result<T, GitCliErrorModel>>) -> Run<
    Result<T, GitServiceErrorModel>,
> {
    match run {
        Run::Pending(q) => Run::Pending(q),
        Run::Ready(res, rest) => Run::Ready(invalid(prefix, res), rest),
    }
}

/// A run of the git executable seen by the service: a failure is handed on.
pub open spec fn run_cli<T>(run: Run<Result<T, GitCliErrorModel>>) -> Run<
    Result<T, GitServiceErrorModel>,
> {
    match run {
        Run::Pending(q) => Run::Pending(q),
        Run::Ready(res, rest) => Run::Ready(cli(res), rest),
    }
}

/// The texts of `parts` with `sep` between them.
pub open spec fn joined(parts: Seq<Seq<char>>, sep: Seq<char>) -> Seq<char>
    decreases parts.len(),
{
    if parts.len() == 0 {
        Seq::empty()
    } else if parts.len() == 1 {
        parts[0]
    } else {
        joined(parts.drop_last(), sep) + sep + parts.last()
    }
}

/// The texts of `parts` with `sep` between them.
pub fn join_with(parts: &Vec<String>, sep: &str) -> (r: String)
    ensures
        r@ == joined(parts.model(), sep@),
{
    let mut out = String::new();
    let mut i: usize = 0;
    assert(parts.model().take(0) =~= Seq::<Seq<char>>::empty());
    while i < parts.len()
        invariant
            i <= parts.len(),
            out@ == joined(parts.model().take(i as int), sep@),
        decreases parts.len() - i,
    {
        proof {
            let next = parts.model().take(i + 1);
            assert(next.drop_last() =~= parts.model().take(i as int));
            assert(next.last() == parts@[i as int]@);
        }
        if i == 0 {
            out = parts[i].clone();
        } else {
            let head = join2(out.as_str(), sep);
            out = join2(head.as_str(), parts[i].as_str());
        }
        i += 1;
    }
    assert(parts.model().take(parts@.len() as int) =~= parts.model());
    out
}

pub(crate) fn invalid_repo(prefix: &str, e: &GitCliError) -> (r: GitServiceError)
    ensures
        r.model() == GitServiceErrorModel::InvalidRepository(prefix@ + e.model().message()),
{
    GitServiceError::InvalidRepository(join2(prefix, e.message().as_str()))
}

pub(crate) fn no_args() -> (r: Vec<String>)
    ensures
        r.model() == Seq::<Seq<char>>::empty(),
{
    let r: Vec<String> = Vec::new();
    assert(r.model() =~= Seq::<Seq<char>>::empty());
    r
}

/// The remote of that name, where the list has one.
pub open spec fn named_remote(remotes: Seq<(Seq<char>, Seq<char>)>, name: Seq<char>) -> Option<
    GitRemoteModel,
>
    decreases remotes.len(),
{
    if remotes.len() == 0 {
        None
    } else if remotes[0].0 == name {
        Some(GitRemoteModel { name: remotes[0].0, url: remotes[0].1 })
    } else {
        named_remote(remotes.drop_first(), name)
    }
}

/// The remote to use by default: the one that the configuration names for
/// pushing, where it is among the remotes, else the first remote.
pub open spec fn pick_remote(
    remotes: Seq<(Seq<char>, Seq<char>)>,
    push_default: Result<Option<Seq<char>>, FailureModel>,
) -> Result<GitRemoteModel, GitServiceErrorModel> {
    let preferred = match push_default {
        Ok(Some(name)) => named_remote(remotes, name),
        _ => None,
    };
    match preferred {
        Some(r) => Ok(r),
        None => if remotes.len() > 0 {
            Ok(GitRemoteModel { name: remotes[0].0, url: remotes[0].1 })
        } else {
            Err(GitServiceErrorModel::InvalidRepository("No remotes configured"@))
        },
    }
}

fn find_named(remotes: &Vec<(String, String)>, name: &String) -> (r: Option<GitRemote>)
    ensures
        r.model() == named_remote(remotes.model(), name@),
{
    let mut i: usize = 0;
    assert(remotes.model().skip(0) =~= remotes.model());
    while i < remotes.len()
        invariant
            i <= remotes.len(),
            named_remote(remotes.model(), name@) == named_remote(
                remotes.model().skip(i as int),
                name@,
            ),
        decreases remotes.len() - i,
    {
        proof {
            assert(remotes.model().skip(i as int)[0] == remotes@[i as int].model());
            assert(remotes.model().skip(i as int).drop_first() =~= remotes.model().skip(i + 1));
        }
        if remotes[i].0 == *name {
            return Some(GitRemote { name: remotes[i].0.clone(), url: remotes[i].1.clone() });
        }
        i += 1;
    }
    None
}

/// The outcome of reconciling a worktree with a commit, given the object id
/// at its head, what the options ask for, and how the reset ended where one
/// was made.
pub open spec fn reconcile_outcome(
    head_oid: Option<Seq<char>>,
    target: Seq<char>,
    options: WorktreeResetOptions,
    reset_ok: bool,
) -> WorktreeResetOutcome {
    let needed = head_oid != Some(target) || options.is_dirty;
    WorktreeResetOutcome {
        needed,
        applied: needed && options.perform_reset && !(options.is_dirty
            && !options.force_when_dirty) && reset_ok,
    }
}

/// Whether reconciling resets the worktree.
pub open spec fn reconcile_resets(
    head_oid: Option<Seq<char>>,
    target: Seq<char>,
    options: WorktreeResetOptions,
) -> bool {
    (head_oid != Some(target) || options.is_dirty) && options.perform_reset && !(options.is_dirty
        && !options.force_when_dirty)
}

impl GitService {
    pub fn new() -> (r: Self) {
        GitService
    }

    /// The run of opening the repository.
    pub open spec fn open_repo_run(repo: Seq<char>, rest: Seq<ReplyModel>) -> Run<
        Result<(), GitServiceErrorModel>,
    > {
        match done_run(query(RequestKind::OpenRepo, repo, Seq::empty()), rest) {
            Run::Pending(q) => Run::Pending(q),
            Run::Ready(res, rest1) => Run::Ready(graph(res), rest1),
        }
    }

    /// Checks that the repository at `repo_path` can be opened.
    pub fn open_repo(&self, io: &mut Replay, repo_path: &str) -> (r: Result<
        Result<(), GitServiceError>,
        Request,
    >)
        ensures
            settled(r, final(io).unread(), Self::open_repo_run(repo_path@, old(io).unread())),
    {
        match io.done(Request::new(RequestKind::OpenRepo, repo_path, no_args()))? {
            Ok(()) => Ok(Ok(())),
            Err(f) => Ok(Err(GitServiceError::from_graph(f))),
        }
    }

    /// The run of a configuration write.
    pub open spec fn config_set_run(
        repo: Seq<char>,
        key: Seq<char>,
        value: Seq<char>,
        rest: Seq<ReplyModel>,
    ) -> Run<Result<(), GitServiceErrorModel>> {
        match done_run(query(RequestKind::ConfigSet, repo, seq![key, value]), rest) {
            Run::Pending(q) => Run::Pending(q),
            Run::Ready(res, rest1) => Run::Ready(graph(res), rest1),
        }
    }

    fn config_set(io: &mut Replay, repo_path: &str, key: &str, value: &str) -> (r: Result<
        Result<(), GitServiceError>,
        Request,
    >)
        ensures
            settled(
                r,
                final(io).unread(),
                Self::config_set_run(repo_path@, key@, value@, old(io).unread()),
            ),
    {
        match io.done(Request::new(RequestKind::ConfigSet, repo_path, argv2(key, value)))? {
            Ok(()) => Ok(Ok(())),
            Err(f) => Ok(Err(GitServiceError::from_graph(f))),
        }
    }

    /// The run of `ensure_cli_commit_identity`: where the repository lacks a
    /// user name or a user email, both are set to the fallback identity.
    pub open spec fn ensure_cli_commit_identity_run(repo: Seq<char>, rest: Seq<ReplyModel>) -> Run<
        Result<(), GitServiceErrorModel>,
    > {
        match Self::open_repo_run(repo, rest) {
            Run::Pending(q) => Run::Pending(q),
            Run::Ready(Err(e), rest1) => Run::Ready(Err(e), rest1),
            Run::Ready(Ok(_), rest1) => match text_run(
                query(RequestKind::ConfigGet, repo, seq!["user.name"@]),
                rest1,
            ) {
                Run::Pending(q) => Run::Pending(q),
                Run::Ready(name, rest2) => match text_run(
                    query(RequestKind::ConfigGet, repo, seq!["user.email"@]),
                    rest2,
                ) {
                    Run::Pending(q) => Run::Pending(q),
                    Run::Ready(email, rest3) => if name matches Ok(Some(_)) && email matches Ok(
                        Some(_),
                    ) {
                        Run::Ready(Ok(()), rest3)
                    } else {
                        match Self::config_set_run(repo, "user.name"@, "Vibe Git"@, rest3) {
                            Run::Pending(q) => Run::Pending(q),
                            Run::Ready(Err(e), rest4) => Run::Ready(Err(e), rest4),
                            Run::Ready(Ok(_), rest4) => Self::config_set_run(
                                repo,
                                "user.email"@,
                                "noreply@vibegit.com"@,
                                rest4,
                            ),
                        }
                    },
                },
            },
        }
    }

    /// Makes sure that commits made through the git executable have an author.
    pub fn ensure_cli_commit_identity(&self, io: &mut Replay, repo_path: &str) -> (r: Result<
        Result<(), GitServiceError>,
        Request,
    >)
        ensures
            settled(
                r,
                final(io).unread(),
                Self::ensure_cli_commit_identity_run(repo_path@, old(io).unread()),
            ),
    {
        match self.open_repo(io, repo_path)? {
            Err(e) => return Ok(Err(e)),
            Ok(()) => {},
        }
        let name = io.text(Request::new(RequestKind::ConfigGet, repo_path, argv1("user.name")))?;
        let email = io.text(Request::new(RequestKind::ConfigGet, repo_path, argv1("user.email")))?;
        let has_name = match name {
            Ok(Some(_)) => true,
            _ => false,
        };
        let has_email = match email {
            Ok(Some(_)) => true,
            _ => false,
        };
        if has_name && has_email {
            return Ok(Ok(()));
        }
        match Self::config_set(io, repo_path, "user.name", "Vibe Git")? {
            Err(e) => return Ok(Err(e)),
            Ok(()) => {},
        }
        Self::config_set(io, repo_path, "user.email", "noreply@vibegit.com")
    }

    /// The run of `default_remote`.
    pub open spec fn default_remote_run(repo: Seq<char>, rest: Seq<ReplyModel>) -> Run<
        Result<GitRemoteModel, GitServiceErrorModel>,
    > {
        match GitCli::list_remotes_run(repo, rest) {
            Run::Pending(q) => Run::Pending(q),
            Run::Ready(Err(e), rest1) => Run::Ready(Err(GitServiceErrorModel::GitCli(e)), rest1),
            Run::Ready(Ok(remotes), rest1) => match text_run(
                query(RequestKind::ConfigGet, repo, seq!["remote.pushDefault"@]),
                rest1,
            ) {
                Run::Pending(q) => Run::Pending(q),
                Run::Ready(push_default, rest2) => Run::Ready(
                    pick_remote(remotes, push_default),
                    rest2,
                ),
            },
        }
    }

    /// The remote that pushes go to.
    pub fn default_remote(&self, io: &mut Replay, repo_path: &str) -> (r: Result<
        Result<GitRemote, GitServiceError>,
        Request,
    >)
        ensures
            settled(r, final(io).unread(), Self::default_remote_run(repo_path@, old(io).unread())),
    {
        let remotes = match GitCli::new().list_remotes(io, repo_path)? {
            Err(e) => return Ok(Err(GitServiceError::GitCli(e))),
            Ok(v) => v,
        };
        let push_default = io.text(
            Request::new(RequestKind::ConfigGet, repo_path, argv1("remote.pushDefault")),
        )?;
        let preferred = match push_default {
            Ok(Some(name)) => find_named(&remotes, &name),
            _ => None,
        };
        match preferred {
            Some(r) => Ok(Ok(r)),
            None => {
                if remotes.len() > 0 {
                    assert(remotes.model()[0] == remotes@[0].model());
                    Ok(Ok(GitRemote { name: remotes[0].0.clone(), url: remotes[0].1.clone() }))
                } else {
                    Ok(
                        Err(
                            GitServiceError::InvalidRepository("No remotes configured".to_owned()),
                        ),
                    )
                }
            },
        }
    }

    /// The run of `get_head_info`: the short name of `HEAD`, or `HEAD` where
    /// it has none, and the object it points at.
    pub open spec fn get_head_info_run(repo: Seq<char>, rest: Seq<ReplyModel>) -> Run<
        Result<HeadInfoModel, GitServiceErrorModel>,
    > {
        match Self::open_repo_run(repo, rest) {
            Run::Pending(q) => Run::Pending(q),
            Run::Ready(Err(e), rest1) => Run::Ready(Err(e), rest1),
            Run::Ready(Ok(_), rest1) => match text_run(
                query(RequestKind::HeadName, repo, Seq::empty()),
                rest1,
            ) {
                Run::Pending(q) => Run::Pending(q),
                Run::Ready(Err(f), rest2) => Run::Ready(
                    Err(GitServiceErrorModel::Git(f.message)),
                    rest2,
                ),
                Run::Ready(Ok(name), rest2) => match text_run(
                    query(RequestKind::HeadTarget, repo, Seq::empty()),
                    rest2,
                ) {
                    Run::Pending(q) => Run::Pending(q),
                    Run::Ready(Err(f), rest3) => Run::Ready(
                        Err(GitServiceErrorModel::Git(f.message)),
                        rest3,
                    ),
                    Run::Ready(Ok(None), rest3) => Run::Ready(
                        Err(
                            GitServiceErrorModel::InvalidRepository(
                                "Repository HEAD has no target"@,
                            ),
                        ),
                        rest3,
                    ),
                    Run::Ready(Ok(Some(oid)), rest3) => Run::Ready(
                        Ok(
                            HeadInfoModel {
                                branch: match name {
                                    Some(n) => n,
                                    None => "HEAD"@,
                                },
                                oid,
                            },
                        ),
                        rest3,
                    ),
                },
            },
        }
    }

    /// The branch that `HEAD` names and the object it points at.
    pub fn get_head_info(&self, io: &mut Replay, repo_path: &str) -> (r: Result<
        Result<HeadInfo, GitServiceError>,
        Request,
    >)
        ensures
            settled(r, final(io).unread(), Self::get_head_info_run(repo_path@, old(io).unread())),
    {
        match self.open_repo(io, repo_path)? {
            Err(e) => return Ok(Err(e)),
            Ok(()) => {},
        }
        let name = match io.text(Request::new(RequestKind::HeadName, repo_path, no_args()))? {
            Err(f) => return Ok(Err(GitServiceError::from_graph(f))),
            Ok(n) => n,
        };
        let target = match io.text(Request::new(RequestKind::HeadTarget, repo_path, no_args()))? {
            Err(f) => return Ok(Err(GitServiceError::from_graph(f))),
            Ok(t) => t,
        };
        match target {
            None => Ok(
                Err(GitServiceError::InvalidRepository("Repository HEAD has no target".to_owned())),
            ),
            Some(oid) => {
                let branch = match name {
                    Some(n) => n,
                    None => "HEAD".to_owned(),
                };
                Ok(Ok(HeadInfo { branch, oid }))
            },
        }
    }

    /// The run of `get_current_branch`: the branch of `HEAD`, or the empty
    /// text where it cannot be read.
    pub open spec fn get_current_branch_run(repo: Seq<char>, rest: Seq<ReplyModel>) -> Run<
        Seq<char>,
    > {
        match Self::get_head_info_run(repo, rest) {
            Run::Pending(q) => Run::Pending(q),
            Run::Ready(Ok(info), rest1) => Run::Ready(info.branch, rest1),
            Run::Ready(Err(_), rest1) => Run::Ready(Seq::empty(), rest1),
        }
    }

    /// The name of the branch that is checked out.
    pub fn get_current_branch(&self, io: &mut Replay, repo_path: &str) -> (r: Result<
        String,
        Request,
    >)
        ensures
            settled(
                r,
                final(io).unread(),
                Self::get_current_branch_run(repo_path@, old(io).unread()),
            ),
    {
        match self.get_head_info(io, repo_path)? {
            Ok(info) => Ok(info.branch),
            Err(_) => Ok(String::new()),
        }
    }

    /// The run of `commit`.
    pub open spec fn commit_run(repo: Seq<char>, message: Seq<char>, rest: Seq<ReplyModel>) -> Run<
        Result<bool, GitServiceErrorModel>,
    > {
        match GitCli::has_changes_run(repo, rest) {
            Run::Pending(q) => Run::Pending(q),
            Run::Ready(Err(e), rest1) => Run::Ready(
                invalid("git status failed: "@, Err::<bool, GitCliErrorModel>(e)),
                rest1,
            ),
            Run::Ready(Ok(false), rest1) => Run::Ready(Ok(false), rest1),
            Run::Ready(Ok(true), rest1) => match GitCli::add_all_run(repo, rest1) {
                Run::Pending(q) => Run::Pending(q),
                Run::Ready(Err(e), rest2) => Run::Ready(
                    invalid("git add failed: "@, Err::<bool, GitCliErrorModel>(e)),
                    rest2,
                ),
                Run::Ready(Ok(_), rest2) => match Self::ensure_cli_commit_identity_run(repo, rest2) {
                    Run::Pending(q) => Run::Pending(q),
                    Run::Ready(Err(e), rest3) => Run::Ready(Err(e), rest3),
                    Run::Ready(Ok(_), rest3) => match GitCli::commit_run(repo, message, rest3) {
                        Run::Pending(q) => Run::Pending(q),
                        Run::Ready(Err(e), rest4) => Run::Ready(
                            invalid("git commit failed: "@, Err::<bool, GitCliErrorModel>(e)),
                            rest4,
                        ),
                        Run::Ready(Ok(_), rest4) => Run::Ready(Ok(true), rest4),
                    },
                },
            },
        }
    }

    /// Commits every change of the working tree, if there is any. Returns
    /// whether a commit was made.
    pub fn commit(&self, io: &mut Replay, path: &str, message: &str) -> (r: Result<
        Result<bool, GitServiceError>,
        Request,
    >)
        ensures
            settled(r, final(io).unread(), Self::commit_run(path@, message@, old(io).unread())),
    {
        let git = GitCli::new();
        match git.has_changes(io, path)? {
            Err(e) => return Ok(Err(invalid_repo("git status failed: ", &e))),
            Ok(false) => return Ok(Ok(false)),
            Ok(true) => {},
        }
        match git.add_all(io, path)? {
            Err(e) => return Ok(Err(invalid_repo("git add failed: ", &e))),
            Ok(()) => {},
        }
        match self.ensure_cli_commit_identity(io, path)? {
            Err(e) => return Ok(Err(e)),
            Ok(()) => {},
        }
        match git.commit(io, path, message)? {
            Err(e) => Ok(Err(invalid_repo("git commit failed: ", &e))),
            Ok(()) => Ok(Ok(true)),
        }
    }
}

} // verus!
