//! Remotes: which remote a branch belongs to, fetching, and the status of a
//! branch against its remote-tracking counterpart.

use vstd::prelude::*;
use crate::effects::{
    argv1, must_text_run, settled, text_run, Replay, ReplyModel, Request, RequestKind, Run,
};
use crate::errors::{GitServiceError, GitServiceErrorModel};
use crate::git_cli::{push_refspec, GitCli};
use crate::git_service::{graph, query, run_cli, GitService};
use crate::model::{lemma_models_push, Model};
use crate::text::{join2, join3};
use crate::types::{GitRemote, GitRemoteModel};

verus! {

/// The remotes as records.
pub open spec fn remote_records(pairs: Seq<(Seq<char>, Seq<char>)>) -> Seq<GitRemoteModel> {
    Seq::new(pairs.len(), |i: int| GitRemoteModel { name: pairs[i].0, url: pairs[i].1 })
}

/// The refspec that fetches every branch of a remote into its
/// remote-tracking references, forced.
pub open spec fn fetch_all_refspec(remote: Seq<char>) -> Seq<char> {
    "+refs/heads/*:refs/remotes/"@ + remote + "/*"@
}

/// A text that must be there, or an invalid repository with `missing` as its text.
pub open spec fn present_or(value: Option<Seq<char>>, missing: Seq<char>) -> Result<
    Seq<char>,
    GitServiceErrorModel,
> {
    match value {
        Some(v) => Ok(v),
        None => Err(GitServiceErrorModel::InvalidRepository(missing)),
    }
}

fn require(value: Option<String>, missing: &str) -> (r: Result<String, GitServiceError>)
    ensures
        r.model() == present_or(value.model(), missing@),
{
    match value {
        Some(v) => Ok(v),
        None => Err(GitServiceError::InvalidRepository(missing.to_owned())),
    }
}

impl GitService {
    /// The run of `get_default_remote`.
    pub open spec fn get_default_remote_run(repo: Seq<char>, rest: Seq<ReplyModel>) -> Run<
        Result<GitRemoteModel, GitServiceErrorModel>,
    > {
        match Self::open_repo_run(repo, rest) {
            Run::Pending(q) => Run::Pending(q),
            Run::Ready(Err(e), rest1) => Run::Ready(Err(e), rest1),
            Run::Ready(Ok(_), rest1) => Self::default_remote_run(repo, rest1),
        }
    }

    /// The remote that pushes go to.
    pub fn get_default_remote(&self, io: &mut Replay, repo_path: &str) -> (r: Result<
        Result<GitRemote, GitServiceError>,
        Request,
    >)
        ensures
            settled(
                r,
                final(io).unread(),
                Self::get_default_remote_run(repo_path@, old(io).unread()),
            ),
    {
        match self.open_repo(io, repo_path)? {
            Err(e) => Ok(Err(e)),
            Ok(()) => self.default_remote(io, repo_path),
        }
    }

    /// The run of `list_remotes`.
    pub open spec fn list_remotes_run(repo: Seq<char>, rest: Seq<ReplyModel>) -> Run<
        Result<Seq<GitRemoteModel>, GitServiceErrorModel>,
    > {
        match GitCli::list_remotes_run(repo, rest) {
            Run::Pending(q) => Run::Pending(q),
            Run::Ready(Err(e), rest1) => Run::Ready(Err(GitServiceErrorModel::GitCli(e)), rest1),
            Run::Ready(Ok(pairs), rest1) => Run::Ready(Ok(remote_records(pairs)), rest1),
        }
    }

    /// The remotes of the repository.
    pub fn list_remotes(&self, io: &mut Replay, repo_path: &str) -> (r: Result<
        Result<Vec<GitRemote>, GitServiceError>,
        Request,
    >)
        ensures
            settled(r, final(io).unread(), Self::list_remotes_run(repo_path@, old(io).unread())),
    {
        let pairs = match GitCli::new().list_remotes(io, repo_path)? {
            Err(e) => return Ok(Err(GitServiceError::GitCli(e))),
            Ok(p) => p,
        };
        let mut out: Vec<GitRemote> = Vec::new();
        let mut i: usize = 0;
        assert(out.model() =~= remote_records(pairs.model()).take(0));
        while i < pairs.len()
            invariant
                i <= pairs.len(),
                out.model() == remote_records(pairs.model()).take(i as int),
            decreases pairs.len() - i,
        {
            let remote = GitRemote { name: pairs[i].0.clone(), url: pairs[i].1.clone() };
            proof {
                lemma_models_push(out@, remote);
                assert(pairs.model()[i as int] == pairs@[i as int].model());
                assert(remote_records(pairs.model()).take(i + 1) =~= remote_records(
                    pairs.model(),
                ).take(i as int).push(remote.model()));
            }
            out.push(remote);
            i += 1;
        }
        assert(remote_records(pairs.model()).take(pairs@.len() as int) =~= remote_records(
            pairs.model(),
        ));
        Ok(Ok(out))
    }

    /// The run of `get_remote_url`.
    pub open spec fn get_remote_url_run(repo: Seq<char>, remote: Seq<char>, rest: Seq<ReplyModel>) -> Run<
        Result<Seq<char>, GitServiceErrorModel>,
    > {
        run_cli(GitCli::get_remote_url_run(repo, remote, rest))
    }

    /// The URL of the remote `remote_name`.
    pub fn get_remote_url(&self, io: &mut Replay, repo_path: &str, remote_name: &str) -> (r: Result<
        Result<String, GitServiceError>,
        Request,
    >)
        ensures
            settled(
                r,
                final(io).unread(),
                Self::get_remote_url_run(repo_path@, remote_name@, old(io).unread()),
            ),
    {
        match GitCli::new().get_remote_url(io, repo_path, remote_name)? {
            Ok(url) => Ok(Ok(url)),
            Err(e) => Ok(Err(GitServiceError::GitCli(e))),
        }
    }

    /// The run of `check_remote_branch_exists`.
    pub open spec fn check_remote_branch_exists_run(
        repo: Seq<char>,
        remote_url: Seq<char>,
        branch: Seq<char>,
        rest: Seq<ReplyModel>,
    ) -> Run<Result<bool, GitServiceErrorModel>> {
        run_cli(GitCli::check_remote_branch_exists_run(repo, remote_url, branch, rest))
    }

    /// Whether the remote at `remote_url` has a branch `branch_name`.
    pub fn check_remote_branch_exists(
        &self,
        io: &mut Replay,
        repo_path: &str,
        remote_url: &str,
        branch_name: &str,
    ) -> (r: Result<Result<bool, GitServiceError>, Request>)
        ensures
            settled(
                r,
                final(io).unread(),
                Self::check_remote_branch_exists_run(
                    repo_path@,
                    remote_url@,
                    branch_name@,
                    old(io).unread(),
                ),
            ),
    {
        match GitCli::new().check_remote_branch_exists(io, repo_path, remote_url, branch_name)? {
            Ok(b) => Ok(Ok(b)),
            Err(e) => Ok(Err(GitServiceError::GitCli(e))),
        }
    }

    /// The run of `fetch_branch`: the branch is fetched into the local branch
    /// of the same name, forced.
    pub open spec fn fetch_branch_run(
        repo: Seq<char>,
        remote_url: Seq<char>,
        branch: Seq<char>,
        rest: Seq<ReplyModel>,
    ) -> Run<Result<(), GitServiceErrorModel>> {
        run_cli(GitCli::fetch_with_refspec_run(repo, remote_url, push_refspec(branch, true), rest))
    }

    /// Fetches `branch_name` from `remote_url`.
    pub fn fetch_branch(&self, io: &mut Replay, repo_path: &str, remote_url: &str, branch_name: &str) -> (r:
        Result<Result<(), GitServiceError>, Request>)
        ensures
            settled(
                r,
                final(io).unread(),
                Self::fetch_branch_run(repo_path@, remote_url@, branch_name@, old(io).unread()),
            ),
    {
        let left = join2("+refs/heads/", branch_name);
        let right = join2(":refs/heads/", branch_name);
        let refspec = join2(left.as_str(), right.as_str());
        assert(refspec@ =~= push_refspec(branch_name@, true));
        match GitCli::new().fetch_with_refspec(io, repo_path, remote_url, refspec.as_str())? {
            Ok(()) => Ok(Ok(())),
            Err(e) => Ok(Err(GitServiceError::GitCli(e))),
        }
    }

    /// The run of finding the remote that a reference belongs to: its name as
    /// the repository holds it, absent where that is not valid text.
    pub open spec fn get_remote_from_branch_ref_run(
        repo: Seq<char>,
        refname: Option<Seq<char>>,
        rest: Seq<ReplyModel>,
    ) -> Run<Result<(Seq<char>, Option<Seq<char>>), GitServiceErrorModel>> {
        match present_or(refname, "Invalid branch ref"@) {
            Err(e) => Run::Ready(Err(e), rest),
            Ok(name) => match must_text_run(
                query(RequestKind::BranchRemoteName, repo, seq![name]),
                rest,
            ) {
                Run::Pending(q) => Run::Pending(q),
                Run::Ready(Err(f), rest1) => Run::Ready(
                    Err(GitServiceErrorModel::Git(f.message)),
                    rest1,
                ),
                Run::Ready(Ok(remote), rest1) => match text_run(
                    query(RequestKind::RemoteName, repo, seq![remote]),
                    rest1,
                ) {
                    Run::Pending(q) => Run::Pending(q),
                    Run::Ready(Err(_), rest2) => Run::Ready(
                        Err(
                            GitServiceErrorModel::InvalidRepository(
                                "Remote not found: "@ + remote,
                            ),
                        ),
                        rest2,
                    ),
                    Run::Ready(Ok(held), rest2) => Run::Ready(Ok((remote, held)), rest2),
                },
            },
        }
    }

    /// Finds the remote that the reference `refname` belongs to. Returns the
    /// name it was looked up by and the name the repository holds for it.
    pub fn get_remote_from_branch_ref(
        &self,
        io: &mut Replay,
        repo_path: &str,
        refname: Option<String>,
    ) -> (r: Result<Result<(String, Option<String>), GitServiceError>, Request>)
        ensures
            settled(
                r,
                final(io).unread(),
                Self::get_remote_from_branch_ref_run(repo_path@, refname.model(), old(io).unread()),
            ),
    {
        let name = match require(refname, "Invalid branch ref") {
            Err(e) => return Ok(Err(e)),
            Ok(n) => n,
        };
        let remote = match io.must_text(
            Request::new(RequestKind::BranchRemoteName, repo_path, argv1(name.as_str())),
        )? {
            Err(f) => return Ok(Err(GitServiceError::from_graph(f))),
            Ok(r) => r,
        };
        match io.text(Request::new(RequestKind::RemoteName, repo_path, argv1(remote.as_str())))? {
            Err(_) => Ok(
                Err(
                    GitServiceError::InvalidRepository(
                        join2("Remote not found: ", remote.as_str()),
                    ),
                ),
            ),
            Ok(held) => Ok(Ok((remote, held))),
        }
    }

    /// The run of reading the URL of a remote.
    pub open spec fn remote_url_run(repo: Seq<char>, remote: Seq<char>, rest: Seq<ReplyModel>) -> Run<
        Result<Seq<char>, GitServiceErrorModel>,
    > {
        match text_run(query(RequestKind::RemoteUrl, repo, seq![remote]), rest) {
            Run::Pending(q) => Run::Pending(q),
            Run::Ready(Ok(Some(url)), rest1) => Run::Ready(Ok(url), rest1),
            Run::Ready(_, rest1) => Run::Ready(
                Err(GitServiceErrorModel::InvalidRepository("Remote has no URL"@)),
                rest1,
            ),
        }
    }

    fn remote_url(io: &mut Replay, repo_path: &str, remote: &str) -> (r: Result<
        Result<String, GitServiceError>,
        Request,
    >)
        ensures
            settled(r, final(io).unread(), Self::remote_url_run(repo_path@, remote@, old(io).unread())),
    {
        match io.text(Request::new(RequestKind::RemoteUrl, repo_path, argv1(remote)))? {
            Ok(Some(url)) => Ok(Ok(url)),
            _ => Ok(Err(GitServiceError::InvalidRepository("Remote has no URL".to_owned()))),
        }
    }

    /// The run of `get_remote_from_branch_name`.
    pub open spec fn get_remote_from_branch_name_run(
        repo: Seq<char>,
        branch: Seq<char>,
        rest: Seq<ReplyModel>,
    ) -> Run<Result<GitRemoteModel, GitServiceErrorModel>> {
        match Self::open_repo_run(repo, rest) {
            Run::Pending(q) => Run::Pending(q),
            Run::Ready(Err(e), rest1) => Run::Ready(Err(e), rest1),
            Run::Ready(Ok(_), rest1) => match Self::find_branch_run(repo, branch, rest1) {
                Run::Pending(q) => Run::Pending(q),
                Run::Ready(Err(e), rest2) => Run::Ready(Err(e), rest2),
                Run::Ready(Ok(refname), rest2) => match Self::get_remote_from_branch_ref_run(
                    repo,
                    refname,
                    rest2,
                ) {
                    Run::Pending(q) => Run::Pending(q),
                    Run::Ready(Err(e), rest3) => Run::Ready(Err(e), rest3),
                    Run::Ready(Ok(found), rest3) => match present_or(
                        found.1,
                        "Remote has no name"@,
                    ) {
                        Err(e) => Run::Ready(Err(e), rest3),
                        Ok(name) => match Self::remote_url_run(repo, found.0, rest3) {
                            Run::Pending(q) => Run::Pending(q),
                            Run::Ready(Err(e), rest4) => Run::Ready(Err(e), rest4),
                            Run::Ready(Ok(url), rest4) => Run::Ready(
                                Ok(GitRemoteModel { name, url }),
                                rest4,
                            ),
                        },
                    },
                },
            },
        }
    }

    /// The remote that `branch_name` belongs to.
    pub fn get_remote_from_branch_name(&self, io: &mut Replay, repo_path: &str, branch_name: &str) -> (r:
        Result<Result<GitRemote, GitServiceError>, Request>)
        ensures
            settled(
                r,
                final(io).unread(),
                Self::get_remote_from_branch_name_run(repo_path@, branch_name@, old(io).unread()),
            ),
    {
        match self.open_repo(io, repo_path)? {
            Err(e) => return Ok(Err(e)),
            Ok(()) => {},
        }
        let refname = match Self::find_branch(io, repo_path, branch_name)? {
            Err(e) => return Ok(Err(e)),
            Ok(r) => r,
        };
        let found = match self.get_remote_from_branch_ref(io, repo_path, refname)? {
            Err(e) => return Ok(Err(e)),
            Ok(f) => f,
        };
        let name = match require(found.1, "Remote has no name") {
            Err(e) => return Ok(Err(e)),
            Ok(n) => n,
        };
        match Self::remote_url(io, repo_path, found.0.as_str())? {
            Err(e) => Ok(Err(e)),
            Ok(url) => Ok(Ok(GitRemote { name, url })),
        }
    }

    /// The run of `resolve_remote_for_branch`: the remote of the branch, or
    /// the default remote where that cannot be found.
    pub open spec fn resolve_remote_for_branch_run(
        repo: Seq<char>,
        branch: Seq<char>,
        rest: Seq<ReplyModel>,
    ) -> Run<Result<GitRemoteModel, GitServiceErrorModel>> {
        match Self::get_remote_from_branch_name_run(repo, branch, rest) {
            Run::Pending(q) => Run::Pending(q),
            Run::Ready(Ok(remote), rest1) => Run::Ready(Ok(remote), rest1),
            Run::Ready(Err(_), rest1) => Self::get_default_remote_run(repo, rest1),
        }
    }

    /// The remote to use for `branch_name`.
    pub fn resolve_remote_for_branch(&self, io: &mut Replay, repo_path: &str, branch_name: &str) -> (r:
        Result<Result<GitRemote, GitServiceError>, Request>)
        ensures
            settled(
                r,
                final(io).unread(),
                Self::resolve_remote_for_branch_run(repo_path@, branch_name@, old(io).unread()),
            ),
    {
        match self.get_remote_from_branch_name(io, repo_path, branch_name)? {
            Ok(remote) => Ok(Ok(remote)),
            Err(_) => self.get_default_remote(io, repo_path),
        }
    }

    /// The run of `fetch_all_from_remote`: every branch of the remote is
    /// fetched into its remote-tracking references, under the name of the
    /// remote or, where it has none, that of the default remote.
    pub open spec fn fetch_all_from_remote_run(
        repo: Seq<char>,
        remote_name: Option<Seq<char>>,
        remote_url: Option<Seq<char>>,
        rest: Seq<ReplyModel>,
    ) -> Run<Result<(), GitServiceErrorModel>> {
        match Self::default_remote_run(repo, rest) {
            Run::Pending(q) => Run::Pending(q),
            Run::Ready(Err(e), rest1) => Run::Ready(Err(e), rest1),
            Run::Ready(Ok(fallback), rest1) => match present_or(remote_url, "Remote has no URL"@) {
                Err(e) => Run::Ready(Err(e), rest1),
                Ok(url) => run_cli(
                    GitCli::fetch_with_refspec_run(
                        repo,
                        url,
                        fetch_all_refspec(
                            match remote_name {
                                Some(n) => n,
                                None => fallback.name,
                            },
                        ),
                        rest1,
                    ),
                ),
            },
        }
    }

    /// Fetches every branch of a remote.
    pub fn fetch_all_from_remote(
        &self,
        io: &mut Replay,
        repo_path: &str,
        remote_name: Option<String>,
        remote_url: Option<String>,
    ) -> (r: Result<Result<(), GitServiceError>, Request>)
        ensures
            settled(
                r,
                final(io).unread(),
                Self::fetch_all_from_remote_run(
                    repo_path@,
                    remote_name.model(),
                    remote_url.model(),
                    old(io).unread(),
                ),
            ),
    {
        let fallback = match self.default_remote(io, repo_path)? {
            Err(e) => return Ok(Err(e)),
            Ok(r) => r,
        };
        let name = match remote_name {
            Some(n) => n,
            None => fallback.name,
        };
        let refspec = join3("+refs/heads/*:refs/remotes/", name.as_str(), "/*");
        let url = match require(remote_url, "Remote has no URL") {
            Err(e) => return Ok(Err(e)),
            Ok(u) => u,
        };
        match GitCli::new().fetch_with_refspec(io, repo_path, url.as_str(), refspec.as_str())? {
            Ok(()) => Ok(Ok(())),
            Err(e) => Ok(Err(GitServiceError::GitCli(e))),
        }
    }

    /// The run of looking up the base of a remote status: the named base
    /// branch, or the upstream of the branch where none is named. Gives the
    /// reference name and the object it points at, each absent where the
    /// object graph has none.
    pub open spec fn status_base_run(
        repo: Seq<char>,
        branch: Seq<char>,
        base: Option<Seq<char>>,
        rest: Seq<ReplyModel>,
    ) -> Run<Result<(Option<Seq<char>>, Option<Seq<char>>), GitServiceErrorModel>> {
        let name_kind = if base is Some {
            RequestKind::BranchRefName
        } else {
            RequestKind::UpstreamRefName
        };
        let target_kind = if base is Some {
            RequestKind::BranchTarget
        } else {
            RequestKind::UpstreamTarget
        };
        let subject = match base {
            Some(b) => b,
            None => branch,
        };
        match text_run(query(name_kind, repo, seq![subject]), rest) {
            Run::Pending(q) => Run::Pending(q),
            Run::Ready(Err(f), rest1) => Run::Ready(Err(GitServiceErrorModel::Git(f.message)), rest1),
            Run::Ready(Ok(refname), rest1) => match text_run(
                query(target_kind, repo, seq![subject]),
                rest1,
            ) {
                Run::Pending(q) => Run::Pending(q),
                Run::Ready(Err(f), rest2) => Run::Ready(
                    Err(GitServiceErrorModel::Git(f.message)),
                    rest2,
                ),
                Run::Ready(Ok(target), rest2) => Run::Ready(Ok((refname, target)), rest2),
            },
        }
    }

    fn status_base(io: &mut Replay, repo_path: &str, branch: &str, base: Option<&str>) -> (r: Result<
        Result<(Option<String>, Option<String>), GitServiceError>,
        Request,
    >)
        ensures
            settled(
                r,
                final(io).unread(),
                Self::status_base_run(
                    repo_path@,
                    branch@,
                    match base {
                        Some(b) => Some(b@),
                        None => None,
                    },
                    old(io).unread(),
                ),
            ),
    {
        let (name_kind, target_kind, subject) = match base {
            Some(b) => (RequestKind::BranchRefName, RequestKind::BranchTarget, b),
            None => (RequestKind::UpstreamRefName, RequestKind::UpstreamTarget, branch),
        };
        let refname = match io.text(Request::new(name_kind, repo_path, argv1(subject)))? {
            Err(f) => return Ok(Err(GitServiceError::from_graph(f))),
            Ok(r) => r,
        };
        match io.text(Request::new(target_kind, repo_path, argv1(subject)))? {
            Err(f) => Ok(Err(GitServiceError::from_graph(f))),
            Ok(target) => Ok(Ok((refname, target))),
        }
    }

    /// The run of `get_remote_branch_status`: the branch and its base are
    /// looked up; every branch of the remote of the base is fetched; then
    /// the commits are counted between the objects that the two pointed at
    /// when they were looked up.
    pub open spec fn get_remote_branch_status_run(
        repo: Seq<char>,
        branch: Seq<char>,
        base: Option<Seq<char>>,
        rest: Seq<ReplyModel>,
    ) -> Run<Result<(usize, usize), GitServiceErrorModel>> {
        match Self::open_repo_run(repo, rest) {
            Run::Pending(q) => Run::Pending(q),
            Run::Ready(Err(e), rest1) => Run::Ready(Err(e), rest1),
            Run::Ready(Ok(_), rest1) => match Self::find_branch_run(repo, branch, rest1) {
                Run::Pending(q) => Run::Pending(q),
                Run::Ready(Err(e), rest2) => Run::Ready(Err(e), rest2),
                Run::Ready(Ok(_), rest2) => match Self::branch_target_run(repo, branch, rest2) {
                    Run::Pending(q) => Run::Pending(q),
                    Run::Ready(Err(f), rest3) => Run::Ready(
                        Err(GitServiceErrorModel::Git(f.message)),
                        rest3,
                    ),
                    Run::Ready(Ok(local), rest3) => match Self::status_base_run(
                        repo,
                        branch,
                        base,
                        rest3,
                    ) {
                        Run::Pending(q) => Run::Pending(q),
                        Run::Ready(Err(e), rest4) => Run::Ready(Err(e), rest4),
                        Run::Ready(Ok(found), rest4) => Self::fetch_and_count_run(
                            repo,
                            local,
                            found.0,
                            found.1,
                            rest4,
                        ),
                    },
                },
            },
        }
    }

    /// The run of the second half of a remote status: the remote of the base
    /// reference is found and fetched, then the commits are counted.
    pub open spec fn fetch_and_count_run(
        repo: Seq<char>,
        local: Option<Seq<char>>,
        base_ref: Option<Seq<char>>,
        upstream: Option<Seq<char>>,
        rest: Seq<ReplyModel>,
    ) -> Run<Result<(usize, usize), GitServiceErrorModel>> {
        match present_or(base_ref, "Invalid branch ref"@) {
            Err(e) => Run::Ready(Err(e), rest),
            Ok(refname) => match must_text_run(
                query(RequestKind::BranchRemoteName, repo, seq![refname]),
                rest,
            ) {
                Run::Pending(q) => Run::Pending(q),
                Run::Ready(Err(f), rest1) => Run::Ready(
                    Err(GitServiceErrorModel::Git(f.message)),
                    rest1,
                ),
                Run::Ready(Ok(remote), rest1) => match text_run(
                    query(RequestKind::RemoteUrl, repo, seq![remote]),
                    rest1,
                ) {
                    Run::Pending(q) => Run::Pending(q),
                    Run::Ready(Err(_), rest2) => Run::Ready(
                        Err(
                            GitServiceErrorModel::InvalidRepository(
                                "Remote not found: "@ + remote,
                            ),
                        ),
                        rest2,
                    ),
                    Run::Ready(Ok(None), rest2) => Run::Ready(
                        Err(GitServiceErrorModel::InvalidRepository("Remote has no URL"@)),
                        rest2,
                    ),
                    Run::Ready(Ok(Some(url)), rest2) => match GitCli::fetch_with_refspec_run(
                        repo,
                        url,
                        fetch_all_refspec(remote),
                        rest2,
                    ) {
                        Run::Pending(q) => Run::Pending(q),
                        Run::Ready(Err(e), rest3) => Run::Ready(
                            Err(GitServiceErrorModel::GitCli(e)),
                            rest3,
                        ),
                        Run::Ready(Ok(_), rest3) => match local {
                            None => Run::Ready(
                                Err(GitServiceErrorModel::BranchNotFound("Branch not found"@)),
                                rest3,
                            ),
                            Some(a) => match upstream {
                                None => Run::Ready(
                                    Err(
                                        GitServiceErrorModel::BranchNotFound(
                                            "Base branch not found"@,
                                        ),
                                    ),
                                    rest3,
                                ),
                                Some(b) => Self::ahead_behind_run(repo, a, b, rest3),
                            },
                        },
                    },
                },
            },
        }
    }

    fn fetch_and_count(
        &self,
        io: &mut Replay,
        repo_path: &str,
        local: Option<String>,
        base_ref: Option<String>,
        upstream: Option<String>,
    ) -> (r: Result<Result<(usize, usize), GitServiceError>, Request>)
        ensures
            settled(
                r,
                final(io).unread(),
                Self::fetch_and_count_run(
                    repo_path@,
                    local.model(),
                    base_ref.model(),
                    upstream.model(),
                    old(io).unread(),
                ),
            ),
    {
        let refname = match require(base_ref, "Invalid branch ref") {
            Err(e) => return Ok(Err(e)),
            Ok(n) => n,
        };
        let remote = match io.must_text(
            Request::new(RequestKind::BranchRemoteName, repo_path, argv1(refname.as_str())),
        )? {
            Err(f) => return Ok(Err(GitServiceError::from_graph(f))),
            Ok(r) => r,
        };
        let url = match io.text(
            Request::new(RequestKind::RemoteUrl, repo_path, argv1(remote.as_str())),
        )? {
            Err(_) => return Ok(
                Err(
                    GitServiceError::InvalidRepository(
                        join2("Remote not found: ", remote.as_str()),
                    ),
                ),
            ),
            Ok(None) => return Ok(
                Err(GitServiceError::InvalidRepository("Remote has no URL".to_owned())),
            ),
            Ok(Some(u)) => u,
        };
        let refspec = join3("+refs/heads/*:refs/remotes/", remote.as_str(), "/*");
        match GitCli::new().fetch_with_refspec(io, repo_path, url.as_str(), refspec.as_str())? {
            Err(e) => return Ok(Err(GitServiceError::GitCli(e))),
            Ok(()) => {},
        }
        let a = match local {
            None => return Ok(Err(GitServiceError::BranchNotFound("Branch not found".to_owned()))),
            Some(a) => a,
        };
        let b = match upstream {
            None => return Ok(
                Err(GitServiceError::BranchNotFound("Base branch not found".to_owned())),
            ),
            Some(b) => b,
        };
        match io.counts(
            Request::new(
                RequestKind::AheadBehind,
                repo_path,
                crate::effects::argv2(a.as_str(), b.as_str()),
            ),
        )? {
            Ok(c) => Ok(Ok(c)),
            Err(f) => Ok(Err(GitServiceError::from_graph(f))),
        }
    }

    /// How many commits `branch_name` is ahead of its remote counterpart and
    /// how many behind, after fetching from the remote. The counterpart is
    /// `base_branch_name`, or the upstream of the branch where none is given.
    pub fn get_remote_branch_status(
        &self,
        io: &mut Replay,
        repo_path: &str,
        branch_name: &str,
        base_branch_name: Option<&str>,
    ) -> (r: Result<Result<(usize, usize), GitServiceError>, Request>)
        ensures
            settled(
                r,
                final(io).unread(),
                Self::get_remote_branch_status_run(
                    repo_path@,
                    branch_name@,
                    match base_branch_name {
                        Some(b) => Some(b@),
                        None => None,
                    },
                    old(io).unread(),
                ),
            ),
    {
        match self.open_repo(io, repo_path)? {
            Err(e) => return Ok(Err(e)),
            Ok(()) => {},
        }
        match Self::find_branch(io, repo_path, branch_name)? {
            Err(e) => return Ok(Err(e)),
            Ok(_) => {},
        }
        let local = match io.text(
            Request::new(RequestKind::BranchTarget, repo_path, argv1(branch_name)),
        )? {
            Err(f) => return Ok(Err(GitServiceError::from_graph(f))),
            Ok(t) => t,
        };
        let found = match Self::status_base(io, repo_path, branch_name, base_branch_name)? {
            Err(e) => return Ok(Err(e)),
            Ok(f) => f,
        };
        self.fetch_and_count(io, repo_path, local, found.0, found.1)
    }
}

} // verus!
