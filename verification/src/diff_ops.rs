//! Creating a repository with its first commit, and reading diffs between
//! trees of the object graph.

use vstd::prelude::*;
use crate::branch_ops::{oid_parse, parse_oid};
use crate::diff::{convert_diff_to_file_diffs, diffs_of};
use crate::effects::{
    argv1, argv2, argv4, ask, copy_names, counts_run, done_run, exists_run, must_text_run,
    names_run, path_exists, settled, FailureModel, Replay, Reply, ReplyModel, Request,
    RequestKind, Run,
};
use crate::errors::{GitServiceError, GitServiceErrorModel};
use crate::git_service::{graph, no_args, query, GitService};
use crate::model::{lemma_models_concat, Model};
use crate::text::join2;
use crate::types::{Diff, DiffModel, DiffTarget, DiffTargetModel};

verus! {

/// The author of commits where the repository is configured with none.
pub open spec fn fallback_author() -> (Seq<char>, Seq<char>) {
    ("Vibe Git"@, "noreply@vibegit.com"@)
}

/// The author that the reply names, or the fallback author.
pub open spec fn author_of(names: Result<Seq<Seq<char>>, FailureModel>) -> (Seq<char>, Seq<char>) {
    match names {
        Ok(n) => if n.len() == 2 {
            (n[0], n[1])
        } else {
            fallback_author()
        },
        Err(_) => fallback_author(),
    }
}

/// A reply read as the changes between two trees.
pub open spec fn deltas_of(reply: ReplyModel) -> Result<Seq<DiffModel>, GitServiceErrorModel> {
    match reply {
        ReplyModel::Deltas(d) => Ok(diffs_of(d)),
        ReplyModel::Failed(f) => Err(GitServiceErrorModel::Git(f.message)),
        _ => Err(GitServiceErrorModel::Git("unexpected reply"@)),
    }
}

/// The path patterns of a filter: none where no filter is given.
pub open spec fn pathspecs(filter: Option<Seq<Seq<char>>>) -> Seq<Seq<char>> {
    match filter {
        Some(p) => p,
        None => Seq::empty(),
    }
}

impl GitService {
    /// The run of reading the author to commit as.
    pub open spec fn signature_with_fallback_run(repo: Seq<char>, rest: Seq<ReplyModel>) -> Run<
        (Seq<char>, Seq<char>),
    > {
        match names_run(query(RequestKind::DefaultSignature, repo, Seq::empty()), rest) {
            Run::Pending(q) => Run::Pending(q),
            Run::Ready(names, rest1) => Run::Ready(author_of(names), rest1),
        }
    }

    /// The name and email to commit as: those the repository is configured
    /// with, or the fallback author.
    pub fn signature_with_fallback(&self, io: &mut Replay, repo_path: &str) -> (r: Result<
        (String, String),
        Request,
    >)
        ensures
            settled(
                r,
                final(io).unread(),
                Self::signature_with_fallback_run(repo_path@, old(io).unread()),
            ),
    {
        let names = io.names(Request::new(RequestKind::DefaultSignature, repo_path, no_args()))?;
        match names {
            Ok(n) => {
                if n.len() == 2 {
                    assert(n.model()[0] == n@[0]@ && n.model()[1] == n@[1]@);
                    Ok((n[0].clone(), n[1].clone()))
                } else {
                    Ok(("Vibe Git".to_owned(), "noreply@vibegit.com".to_owned()))
                }
            },
            Err(_) => Ok(("Vibe Git".to_owned(), "noreply@vibegit.com".to_owned())),
        }
    }

    /// The run of `create_initial_commit`: an empty commit is written to the
    /// branch `main`, and `HEAD` is pointed at that branch.
    pub open spec fn create_initial_commit_run(repo: Seq<char>, rest: Seq<ReplyModel>) -> Run<
        Result<(), GitServiceErrorModel>,
    > {
        match Self::signature_with_fallback_run(repo, rest) {
            Run::Pending(q) => Run::Pending(q),
            Run::Ready(author, rest1) => match done_run(
                query(
                    RequestKind::InitialCommit,
                    repo,
                    seq!["refs/heads/main"@, author.0, author.1, "Initial commit"@],
                ),
                rest1,
            ) {
                Run::Pending(q) => Run::Pending(q),
                Run::Ready(Err(f), rest2) => Run::Ready(
                    Err(GitServiceErrorModel::Git(f.message)),
                    rest2,
                ),
                Run::Ready(Ok(_), rest2) => match done_run(
                    query(RequestKind::SetHead, repo, seq!["refs/heads/main"@]),
                    rest2,
                ) {
                    Run::Pending(q) => Run::Pending(q),
                    Run::Ready(res, rest3) => Run::Ready(graph(res), rest3),
                },
            },
        }
    }

    /// Writes the first, empty commit of the repository.
    pub fn create_initial_commit(&self, io: &mut Replay, repo_path: &str) -> (r: Result<
        Result<(), GitServiceError>,
        Request,
    >)
        ensures
            settled(
                r,
                final(io).unread(),
                Self::create_initial_commit_run(repo_path@, old(io).unread()),
            ),
    {
        let author = self.signature_with_fallback(io, repo_path)?;
        match io.done(
            Request::new(
                RequestKind::InitialCommit,
                repo_path,
                argv4("refs/heads/main", author.0.as_str(), author.1.as_str(), "Initial commit"),
            ),
        )? {
            Err(f) => return Ok(Err(GitServiceError::from_graph(f))),
            Ok(()) => {},
        }
        match io.done(Request::new(RequestKind::SetHead, repo_path, argv1("refs/heads/main")))? {
            Err(f) => Ok(Err(GitServiceError::from_graph(f))),
            Ok(()) => Ok(Ok(())),
        }
    }

    /// The run of what follows once the directory is there: the repository is
    /// created with `main` as its first branch, then the first commit made.
    pub open spec fn init_run(repo: Seq<char>, rest: Seq<ReplyModel>) -> Run<
        Result<(), GitServiceErrorModel>,
    > {
        match done_run(query(RequestKind::InitRepo, repo, seq!["main"@]), rest) {
            Run::Pending(q) => Run::Pending(q),
            Run::Ready(Err(f), rest1) => Run::Ready(Err(GitServiceErrorModel::Git(f.message)), rest1),
            Run::Ready(Ok(_), rest1) => Self::create_initial_commit_run(repo, rest1),
        }
    }

    /// The run of `initialize_repo_with_main_branch`.
    pub open spec fn initialize_repo_with_main_branch_run(repo: Seq<char>, rest: Seq<ReplyModel>) -> Run<
        Result<(), GitServiceErrorModel>,
    > {
        match exists_run(repo, rest) {
            Run::Pending(q) => Run::Pending(q),
            Run::Ready(true, rest1) => Self::init_run(repo, rest1),
            Run::Ready(false, rest1) => match done_run(
                query(RequestKind::CreateDirAll, repo, Seq::empty()),
                rest1,
            ) {
                Run::Pending(q) => Run::Pending(q),
                Run::Ready(Err(f), rest2) => Run::Ready(
                    Err(GitServiceErrorModel::IoError(f.message)),
                    rest2,
                ),
                Run::Ready(Ok(_), rest2) => Self::init_run(repo, rest2),
            },
        }
    }

    /// Creates a repository at `repo_path` whose first branch is `main`, with
    /// an empty first commit.
    pub fn initialize_repo_with_main_branch(&self, io: &mut Replay, repo_path: &str) -> (r: Result<
        Result<(), GitServiceError>,
        Request,
    >)
        ensures
            settled(
                r,
                final(io).unread(),
                Self::initialize_repo_with_main_branch_run(repo_path@, old(io).unread()),
            ),
    {
        if !path_exists(io, repo_path)? {
            match io.done(Request::new(RequestKind::CreateDirAll, repo_path, no_args()))? {
                Err(f) => return Ok(Err(GitServiceError::IoError(f.message))),
                Ok(()) => {},
            }
        }
        match io.done(Request::new(RequestKind::InitRepo, repo_path, argv1("main")))? {
            Err(f) => return Ok(Err(GitServiceError::from_graph(f))),
            Ok(()) => {},
        }
        self.create_initial_commit(io, repo_path)
    }

    /// The run of `ensure_main_branch_exists`: a repository without any
    /// branch gets the first commit on `main`.
    pub open spec fn ensure_main_branch_exists_run(repo: Seq<char>, rest: Seq<ReplyModel>) -> Run<
        Result<(), GitServiceErrorModel>,
    > {
        match Self::open_repo_run(repo, rest) {
            Run::Pending(q) => Run::Pending(q),
            Run::Ready(Err(e), rest1) => Run::Ready(Err(e), rest1),
            Run::Ready(Ok(_), rest1) => match counts_run(
                query(RequestKind::CountBranches, repo, Seq::empty()),
                rest1,
            ) {
                Run::Pending(q) => Run::Pending(q),
                Run::Ready(Ok(c), rest2) => if c.0 == 0 {
                    Self::create_initial_commit_run(repo, rest2)
                } else {
                    Run::Ready(Ok(()), rest2)
                },
                Run::Ready(Err(_), rest2) => Run::Ready(Ok(()), rest2),
            },
        }
    }

    /// Makes sure that the repository has a branch.
    pub fn ensure_main_branch_exists(&self, io: &mut Replay, repo_path: &str) -> (r: Result<
        Result<(), GitServiceError>,
        Request,
    >)
        ensures
            settled(
                r,
                final(io).unread(),
                Self::ensure_main_branch_exists_run(repo_path@, old(io).unread()),
            ),
    {
        match self.open_repo(io, repo_path)? {
            Err(e) => return Ok(Err(e)),
            Ok(()) => {},
        }
        match io.counts(Request::new(RequestKind::CountBranches, repo_path, no_args()))? {
            Ok(c) => {
                if c.0 == 0 {
                    self.create_initial_commit(io, repo_path)
                } else {
                    Ok(Ok(()))
                }
            },
            Err(_) => Ok(Ok(())),
        }
    }

    /// The run of reading the changes from tree `old_tree` to tree
    /// `new_tree`, restricted to `paths`, as diffs.
    pub open spec fn tree_diff_run(
        repo: Seq<char>,
        old_tree: Seq<char>,
        new_tree: Seq<char>,
        paths: Seq<Seq<char>>,
        rest: Seq<ReplyModel>,
    ) -> Run<Result<Seq<DiffModel>, GitServiceErrorModel>> {
        match ask(query(RequestKind::TreeDiff, repo, seq![old_tree, new_tree] + paths), rest) {
            Run::Pending(q) => Run::Pending(q),
            Run::Ready(reply, rest1) => Run::Ready(deltas_of(reply), rest1),
        }
    }

    fn tree_diff(
        io: &mut Replay,
        repo_path: &str,
        old_tree: &str,
        new_tree: &str,
        path_filter: Option<&Vec<String>>,
    ) -> (r: Result<Result<Vec<Diff>, GitServiceError>, Request>)
        ensures
            settled(
                r,
                final(io).unread(),
                Self::tree_diff_run(
                    repo_path@,
                    old_tree@,
                    new_tree@,
                    pathspecs(
                        match path_filter {
                            Some(p) => Some(p.model()),
                            None => None,
                        },
                    ),
                    old(io).unread(),
                ),
            ),
    {
        let mut args = argv2(old_tree, new_tree);
        let mut paths = match path_filter {
            Some(p) => copy_names(p),
            None => no_args(),
        };
        proof {
            lemma_models_concat(args@, paths@);
        }
        args.append(&mut paths);
        let reply = io.ask(Request::new(RequestKind::TreeDiff, repo_path, args))?;
        Ok(
            match reply {
                Reply::Deltas(d) => Ok(convert_diff_to_file_diffs(d)),
                Reply::Failed(f) => Err(GitServiceError::Git(f.message.clone())),
                _ => Err(GitServiceError::Git("unexpected reply".to_owned())),
            },
        )
    }

    /// The run of the diff of a worktree: its head against a base commit.
    pub open spec fn worktree_diff_run(
        worktree: Seq<char>,
        base_commit: Seq<char>,
        paths: Seq<Seq<char>>,
        rest: Seq<ReplyModel>,
    ) -> Run<Result<Seq<DiffModel>, GitServiceErrorModel>> {
        match Self::open_repo_run(worktree, rest) {
            Run::Pending(q) => Run::Pending(q),
            Run::Ready(Err(e), rest1) => Run::Ready(Err(e), rest1),
            Run::Ready(Ok(_), rest1) => match done_run(
                query(RequestKind::FindCommit, worktree, seq![base_commit]),
                rest1,
            ) {
                Run::Pending(q) => Run::Pending(q),
                Run::Ready(Err(f), rest2) => Run::Ready(
                    Err(GitServiceErrorModel::Git(f.message)),
                    rest2,
                ),
                Run::Ready(Ok(_), rest2) => match done_run(
                    query(RequestKind::CommitTree, worktree, seq![base_commit]),
                    rest2,
                ) {
                    Run::Pending(q) => Run::Pending(q),
                    Run::Ready(Err(f), rest3) => Run::Ready(
                        Err(
                            GitServiceErrorModel::InvalidRepository(
                                "Failed to find base commit tree: "@ + f.message,
                            ),
                        ),
                        rest3,
                    ),
                    Run::Ready(Ok(_), rest3) => match must_text_run(
                        query(RequestKind::HeadCommit, worktree, Seq::empty()),
                        rest3,
                    ) {
                        Run::Pending(q) => Run::Pending(q),
                        Run::Ready(Err(f), rest4) => Run::Ready(
                            Err(GitServiceErrorModel::Git(f.message)),
                            rest4,
                        ),
                        Run::Ready(Ok(head), rest4) => Self::tree_diff_run(
                            worktree,
                            base_commit,
                            head,
                            paths,
                            rest4,
                        ),
                    },
                },
            },
        }
    }

    /// The run of the diff of a branch against a base branch.
    pub open spec fn branch_diff_run(
        repo: Seq<char>,
        branch: Seq<char>,
        base: Seq<char>,
        paths: Seq<Seq<char>>,
        rest: Seq<ReplyModel>,
    ) -> Run<Result<Seq<DiffModel>, GitServiceErrorModel>> {
        match Self::open_repo_run(repo, rest) {
            Run::Pending(q) => Run::Pending(q),
            Run::Ready(Err(e), rest1) => Run::Ready(Err(e), rest1),
            Run::Ready(Ok(_), rest1) => match Self::branch_commit_run(repo, base, rest1) {
                Run::Pending(q) => Run::Pending(q),
                Run::Ready(Err(e), rest2) => Run::Ready(Err(e), rest2),
                Run::Ready(Ok(base_tip), rest2) => match Self::branch_commit_run(
                    repo,
                    branch,
                    rest2,
                ) {
                    Run::Pending(q) => Run::Pending(q),
                    Run::Ready(Err(e), rest3) => Run::Ready(Err(e), rest3),
                    Run::Ready(Ok(tip), rest3) => Self::tree_diff_run(
                        repo,
                        base_tip,
                        tip,
                        paths,
                        rest3,
                    ),
                },
            },
        }
    }

    /// The run of the diff of a commit against its first parent.
    pub open spec fn commit_diff_run(
        repo: Seq<char>,
        sha: Seq<char>,
        paths: Seq<Seq<char>>,
        rest: Seq<ReplyModel>,
    ) -> Run<Result<Seq<DiffModel>, GitServiceErrorModel>> {
        match Self::open_repo_run(repo, rest) {
            Run::Pending(q) => Run::Pending(q),
            Run::Ready(Err(e), rest1) => Run::Ready(Err(e), rest1),
            Run::Ready(Ok(_), rest1) => match oid_parse(sha) {
                Err(_) => Run::Ready(
                    Err(GitServiceErrorModel::InvalidRepository("Invalid commit SHA: "@ + sha)),
                    rest1,
                ),
                Ok(id) => match done_run(query(RequestKind::FindCommit, repo, seq![id]), rest1) {
                    Run::Pending(q) => Run::Pending(q),
                    Run::Ready(Err(f), rest2) => Run::Ready(
                        Err(GitServiceErrorModel::Git(f.message)),
                        rest2,
                    ),
                    Run::Ready(Ok(_), rest2) => match must_text_run(
                        query(RequestKind::CommitParent, repo, seq![id]),
                        rest2,
                    ) {
                        Run::Pending(q) => Run::Pending(q),
                        Run::Ready(Err(_), rest3) => Run::Ready(
                            Err(GitServiceErrorModel::InvalidRepository("Commit has no parent"@)),
                            rest3,
                        ),
                        Run::Ready(Ok(parent), rest3) => Self::tree_diff_run(
                            repo,
                            parent,
                            id,
                            paths,
                            rest3,
                        ),
                    },
                },
            },
        }
    }

    /// The run of `get_diffs`.
    pub open spec fn get_diffs_run(
        target: DiffTargetModel,
        filter: Option<Seq<Seq<char>>>,
        rest: Seq<ReplyModel>,
    ) -> Run<Result<Seq<DiffModel>, GitServiceErrorModel>> {
        match target {
            DiffTargetModel::Worktree { worktree_path, base_commit } => Self::worktree_diff_run(
                worktree_path,
                base_commit,
                pathspecs(filter),
                rest,
            ),
            DiffTargetModel::Branch { repo_path, branch_name, base_branch } => Self::branch_diff_run(
                repo_path,
                branch_name,
                base_branch,
                pathspecs(filter),
                rest,
            ),
            DiffTargetModel::Commit { repo_path, commit_sha } => Self::commit_diff_run(
                repo_path,
                commit_sha,
                pathspecs(filter),
                rest,
            ),
        }
    }

    /// The changed files of `target`, with renames and copies detected,
    /// restricted to the paths of `path_filter` where one is given.
    pub fn get_diffs(&self, io: &mut Replay, target: &DiffTarget, path_filter: Option<&Vec<String>>) -> (r:
        Result<Result<Vec<Diff>, GitServiceError>, Request>)
        ensures
            settled(
                r,
                final(io).unread(),
                Self::get_diffs_run(
                    target.model(),
                    match path_filter {
                        Some(p) => Some(p.model()),
                        None => None,
                    },
                    old(io).unread(),
                ),
            ),
    {
        match target {
            DiffTarget::Worktree { worktree_path, base_commit } => {
                let wt = worktree_path.as_str();
                match self.open_repo(io, wt)? {
                    Err(e) => return Ok(Err(e)),
                    Ok(()) => {},
                }
                let base = base_commit.as_oid();
                match io.done(Request::new(RequestKind::FindCommit, wt, argv1(base)))? {
                    Err(f) => return Ok(Err(GitServiceError::from_graph(f))),
                    Ok(()) => {},
                }
                match io.done(Request::new(RequestKind::CommitTree, wt, argv1(base)))? {
                    Err(f) => return Ok(
                        Err(
                            GitServiceError::InvalidRepository(
                                join2("Failed to find base commit tree: ", f.message.as_str()),
                            ),
                        ),
                    ),
                    Ok(()) => {},
                }
                let head = match io.must_text(Request::new(RequestKind::HeadCommit, wt, no_args()))? {
                    Err(f) => return Ok(Err(GitServiceError::from_graph(f))),
                    Ok(h) => h,
                };
                Self::tree_diff(io, wt, base, head.as_str(), path_filter)
            },
            DiffTarget::Branch { repo_path, branch_name, base_branch } => {
                let repo = repo_path.as_str();
                match self.open_repo(io, repo)? {
                    Err(e) => return Ok(Err(e)),
                    Ok(()) => {},
                }
                let base_tip = match Self::branch_commit(io, repo, base_branch.as_str())? {
                    Err(e) => return Ok(Err(e)),
                    Ok(t) => t,
                };
                let tip = match Self::branch_commit(io, repo, branch_name.as_str())? {
                    Err(e) => return Ok(Err(e)),
                    Ok(t) => t,
                };
                Self::tree_diff(io, repo, base_tip.as_str(), tip.as_str(), path_filter)
            },
            DiffTarget::Commit { repo_path, commit_sha } => {
                let repo = repo_path.as_str();
                match self.open_repo(io, repo)? {
                    Err(e) => return Ok(Err(e)),
                    Ok(()) => {},
                }
                let id = match parse_oid(commit_sha.as_str()) {
                    Err(_) => return Ok(
                        Err(
                            GitServiceError::InvalidRepository(
                                join2("Invalid commit SHA: ", commit_sha.as_str()),
                            ),
                        ),
                    ),
                    Ok(id) => id,
                };
                match io.done(Request::new(RequestKind::FindCommit, repo, argv1(id.as_str())))? {
                    Err(f) => return Ok(Err(GitServiceError::from_graph(f))),
                    Ok(()) => {},
                }
                let parent = match io.must_text(
                    Request::new(RequestKind::CommitParent, repo, argv1(id.as_str())),
                )? {
                    Err(_) => return Ok(
                        Err(GitServiceError::InvalidRepository("Commit has no parent".to_owned())),
                    ),
                    Ok(p) => p,
                };
                Self::tree_diff(io, repo, parent.as_str(), id.as_str(), path_filter)
            },
        }
    }
}

} // verus!
