//! The worktree manager: the life of one linked worktree, from the check
//! that it is properly set up, through cleanup and creation with one retry,
//! to its removal. Every operation on a path runs under the lock of that path.

use vstd::prelude::*;
use crate::effects::{
    argv1, argv2, argv4, ask, done_run, exists_run, flag_run, must_text_run, path_exists,
    settled, FailureModel, Replay, Reply, ReplyModel, Request, RequestKind, RequestModel, Run,
};
use crate::errors::{WorkspaceError, WorkspaceErrorModel};
use crate::git_service::{no_args, query};
use crate::model::{lemma_models_concat, Model};
use crate::paths::{
    decode_strict, file_name_of, join_path, joined_path, parent_of, path_file_name, path_parent,
    strict_text,
};
use crate::text::{decode_lossy, join2, lossy_text, same_text, trim, trimmed};

verus! {

/// The kind of system the library runs on, as far as directories differ.
#[derive(Clone, Copy, PartialEq, Eq, Structural, Debug)]
pub enum HostOs {
    Macos,
    Linux,
    Other,
}

/// The worktree manager. It knows where worktrees are kept.
#[derive(Clone, Debug, PartialEq, Eq)]
pub struct WorktreeManager {
    /// The directory that was set to hold the workspaces, if any was.
    pub workspace_dir_override: Option<String>,
    /// The directory that holds the worktrees where none was set.
    pub default_base_dir: String,
}

/// The directory that holds the worktrees where none was set: under the
/// directory for temporary files or, on Linux, under `/var/tmp`; in a
/// directory of its own for debug builds.
pub open spec fn default_base_dir(debug: bool, os: HostOs, temp_dir: Seq<char>) -> Seq<char> {
    let root = if os == HostOs::Linux {
        "/var/tmp"@
    } else {
        temp_dir
    };
    let dir_name = if debug {
        "vibe-kanban-dev"@
    } else {
        "vibe-kanban"@
    };
    joined_path(joined_path(root, dir_name), "worktrees"@)
}

/// A request to run git as it is found, in directory `cwd` where that is not empty.
pub open spec fn direct_request(cwd: Seq<char>, args: Seq<Seq<char>>) -> RequestModel {
    Request::plain(RequestKind::GitDirect, cwd, args)
}

/// How a command ended whose failure counts: an error of the file system
/// where it could not be started, a git error with its error output where
/// it ended with a failure.
pub open spec fn direct_outcome(reply: ReplyModel) -> Result<(), WorkspaceErrorModel> {
    match reply {
        ReplyModel::Exited { code, stdout, stderr } => if code == Some(0i32) {
            Ok(())
        } else {
            Err(WorkspaceErrorModel::Git(lossy_text(stderr)))
        },
        ReplyModel::Failed(f) => Err(WorkspaceErrorModel::Io(f.message)),
        _ => Err(WorkspaceErrorModel::Io("unexpected reply"@)),
    }
}

/// How a command ended whose failure is only noted: an error only where it
/// could not be started.
pub open spec fn lenient_outcome(reply: ReplyModel) -> Result<(), WorkspaceErrorModel> {
    match reply {
        ReplyModel::Failed(f) => Err(WorkspaceErrorModel::Io(f.message)),
        _ => Ok(()),
    }
}

/// The arguments of the manager's own `worktree add`.
pub open spec fn direct_add_args(
    repo: Seq<char>,
    worktree: Seq<char>,
    branch: Seq<char>,
    create: bool,
) -> Seq<Seq<char>> {
    if create {
        seq!["-C"@, repo, "worktree"@, "add"@, "-b"@, branch, worktree, branch]
    } else {
        seq!["-C"@, repo, "worktree"@, "add"@, worktree, branch]
    }
}

/// The arguments of the manager's own `worktree remove`.
pub open spec fn direct_remove_args(repo: Seq<char>, worktree: Seq<char>, force: bool) -> Seq<
    Seq<char>,
> {
    if force {
        seq!["-C"@, repo, "worktree"@, "remove"@, "--force"@, worktree]
    } else {
        seq!["-C"@, repo, "worktree"@, "remove"@, worktree]
    }
}

/// An error of the file system from a failed request.
pub open spec fn io_result(r: Result<(), FailureModel>) -> Result<(), WorkspaceErrorModel> {
    match r {
        Ok(_) => Ok(()),
        Err(f) => Err(WorkspaceErrorModel::Io(f.message)),
    }
}

/// The directory that a back-link points into: the parent of the path that
/// the `gitdir` file holds, or that path where it has no parent.
pub open spec fn linked_root(content: Seq<char>) -> Seq<char> {
    match path_parent(trimmed(content)) {
        Some(p) => p,
        None => trimmed(content),
    }
}

/// The repository that a common git directory belongs to: the directory
/// above it where it is named `.git`, else the directory itself.
pub open spec fn repo_of_common_dir(stdout: Seq<u8>) -> Option<Seq<char>> {
    match strict_text(stdout) {
        None => None,
        Some(t) => if path_file_name(trimmed(t)) == Some(".git"@) {
            path_parent(trimmed(t))
        } else {
            Some(trimmed(t))
        },
    }
}

/// The repository that a common git directory belongs to.
pub fn repo_from_common_dir(stdout: &Vec<u8>) -> (r: Option<String>)
    ensures
        r.model() == repo_of_common_dir(stdout@),
{
    match decode_strict(stdout) {
        None => None,
        Some(t) => {
            let dir = trim(t.as_str());
            let is_dot_git = match file_name_of(dir.as_str()) {
                Some(n) => same_text(n.as_str(), ".git"),
                None => false,
            };
            if is_dot_git {
                parent_of(dir.as_str())
            } else {
                Some(dir)
            }
        },
    }
}

/// The repository that the reply to `rev-parse --git-common-dir` names.
pub open spec fn inferred_repo(reply: ReplyModel) -> Option<Seq<char>> {
    match reply {
        ReplyModel::Exited { code, stdout, stderr } => if code == Some(0i32) {
            repo_of_common_dir(stdout)
        } else {
            None
        },
        _ => None,
    }
}

fn io_error(f: crate::effects::Failure) -> (r: WorkspaceError)
    ensures
        r.model() == WorkspaceErrorModel::Io(f.model().message),
{
    WorkspaceError::Io(f.message)
}

fn git_error(f: crate::effects::Failure) -> (r: WorkspaceError)
    ensures
        r.model() == WorkspaceErrorModel::Git(f.model().message),
{
    WorkspaceError::Git(f.message)
}

fn classify_direct(reply: &Reply) -> (r: Result<(), WorkspaceError>)
    ensures
        r.model() == direct_outcome(reply.model()),
{
    match reply {
        Reply::Exited { code: Some(0), .. } => Ok(()),
        Reply::Exited { stderr, .. } => Err(WorkspaceError::Git(decode_lossy(stderr))),
        Reply::Failed(f) => Err(WorkspaceError::Io(f.message.clone())),
        _ => Err(WorkspaceError::Io("unexpected reply".to_owned())),
    }
}

fn classify_lenient(reply: &Reply) -> (r: Result<(), WorkspaceError>)
    ensures
        r.model() == lenient_outcome(reply.model()),
{
    match reply {
        Reply::Failed(f) => Err(WorkspaceError::Io(f.message.clone())),
        _ => Ok(()),
    }
}

impl WorktreeManager {
    /// A manager that keeps worktrees under `default_base_dir` until another
    /// directory is set.
    pub fn new(default_base_dir: String) -> (r: Self)
        ensures
            r.workspace_dir_override is None,
            r.default_base_dir == default_base_dir,
    {
        WorktreeManager { workspace_dir_override: None, default_base_dir }
    }

    /// Sets the directory that holds the workspaces. Only the first call
    /// has an effect.
    pub fn set_workspace_dir_override(&mut self, path: String)
        ensures
            final(self).default_base_dir == old(self).default_base_dir,
            old(self).workspace_dir_override is Some ==> final(self).workspace_dir_override == old(
                self,
            ).workspace_dir_override,
            old(self).workspace_dir_override is None ==> final(self).workspace_dir_override == Some(
                path,
            ),
    {
        if self.workspace_dir_override.is_none() {
            self.workspace_dir_override = Some(path);
        }
    }

    /// The directory that holds the worktrees.
    pub open spec fn base_dir(&self) -> Seq<char> {
        match self.workspace_dir_override {
            Some(dir) => joined_path(dir@, ".vibe-kanban-workspaces"@),
            None => self.default_base_dir@,
        }
    }

    /// The directory that holds the worktrees: a directory of its own under
    /// the one that was set, else the default.
    pub fn get_worktree_base_dir(&self) -> (r: String)
        ensures
            r@ == self.base_dir(),
    {
        match &self.workspace_dir_override {
            Some(dir) => join_path(dir.as_str(), ".vibe-kanban-workspaces"),
            None => self.default_base_dir.clone(),
        }
    }

    /// The directory that holds the worktrees where none was set.
    pub fn get_default_worktree_base_dir(debug: bool, os: HostOs, temp_dir: &str) -> (r: String)
        ensures
            r@ == default_base_dir(debug, os, temp_dir@),
    {
        let dir_name = if debug {
            "vibe-kanban-dev"
        } else {
            "vibe-kanban"
        };
        let root = match os {
            HostOs::Linux => "/var/tmp",
            _ => temp_dir,
        };
        let named = join_path(root, dir_name);
        join_path(named.as_str(), "worktrees")
    }

    // --- the manager's own commands ---

    /// The run of the manager's own `worktree add`.
    pub open spec fn git_worktree_add_run(
        repo: Seq<char>,
        worktree: Seq<char>,
        branch: Seq<char>,
        create: bool,
        rest: Seq<ReplyModel>,
    ) -> Run<Result<(), WorkspaceErrorModel>> {
        match ask(direct_request(Seq::empty(), direct_add_args(repo, worktree, branch, create)), rest) {
            Run::Pending(q) => Run::Pending(q),
            Run::Ready(reply, rest1) => Run::Ready(direct_outcome(reply), rest1),
        }
    }

    /// Adds a worktree with the git executable.
    pub fn git_worktree_add(
        io: &mut Replay,
        repo_path: &str,
        worktree_path: &str,
        branch: &str,
        create_branch: bool,
    ) -> (r: Result<Result<(), WorkspaceError>, Request>)
        ensures
            settled(
                r,
                final(io).unread(),
                Self::git_worktree_add_run(
                    repo_path@,
                    worktree_path@,
                    branch@,
                    create_branch,
                    old(io).unread(),
                ),
            ),
    {
        let mut args = argv4("-C", repo_path, "worktree", "add");
        let mut tail = if create_branch {
            argv4("-b", branch, worktree_path, branch)
        } else {
            argv2(worktree_path, branch)
        };
        proof {
            lemma_models_concat(args@, tail@);
            assert(args.model() + tail.model() =~= direct_add_args(
                repo_path@,
                worktree_path@,
                branch@,
                create_branch,
            ));
            reveal_strlit("");
            assert(""@ =~= Seq::<char>::empty());
        }
        args.append(&mut tail);
        let reply = io.ask(Request::new(RequestKind::GitDirect, "", args))?;
        Ok(classify_direct(reply))
    }

    /// The run of the manager's own `worktree remove`.
    pub open spec fn git_worktree_remove_run(
        repo: Seq<char>,
        worktree: Seq<char>,
        force: bool,
        rest: Seq<ReplyModel>,
    ) -> Run<Result<(), WorkspaceErrorModel>> {
        match ask(direct_request(Seq::empty(), direct_remove_args(repo, worktree, force)), rest) {
            Run::Pending(q) => Run::Pending(q),
            Run::Ready(reply, rest1) => Run::Ready(lenient_outcome(reply), rest1),
        }
    }

    /// Removes a worktree with the git executable. That the command fails is
    /// no error.
    pub fn git_worktree_remove(io: &mut Replay, repo_path: &str, worktree_path: &str, force: bool) -> (r:
        Result<Result<(), WorkspaceError>, Request>)
        ensures
            settled(
                r,
                final(io).unread(),
                Self::git_worktree_remove_run(repo_path@, worktree_path@, force, old(io).unread()),
            ),
    {
        let mut args = argv4("-C", repo_path, "worktree", "remove");
        let mut tail = if force {
            argv2("--force", worktree_path)
        } else {
            argv1(worktree_path)
        };
        proof {
            lemma_models_concat(args@, tail@);
            assert(args.model() + tail.model() =~= direct_remove_args(
                repo_path@,
                worktree_path@,
                force,
            ));
            reveal_strlit("");
            assert(""@ =~= Seq::<char>::empty());
        }
        args.append(&mut tail);
        let reply = io.ask(Request::new(RequestKind::GitDirect, "", args))?;
        Ok(classify_lenient(reply))
    }

    /// The run of the manager's own `worktree prune`.
    pub open spec fn git_worktree_prune_run(repo: Seq<char>, rest: Seq<ReplyModel>) -> Run<
        Result<(), WorkspaceErrorModel>,
    > {
        match ask(direct_request(Seq::empty(), seq!["-C"@, repo, "worktree"@, "prune"@]), rest) {
            Run::Pending(q) => Run::Pending(q),
            Run::Ready(reply, rest1) => Run::Ready(lenient_outcome(reply), rest1),
        }
    }

    /// Prunes worktree registrations with the git executable. That the
    /// command fails is no error.
    pub fn git_worktree_prune(io: &mut Replay, repo_path: &str) -> (r: Result<
        Result<(), WorkspaceError>,
        Request,
    >)
        ensures
            settled(
                r,
                final(io).unread(),
                Self::git_worktree_prune_run(repo_path@, old(io).unread()),
            ),
    {
        proof {
            reveal_strlit("");
            assert(""@ =~= Seq::<char>::empty());
        }
        let reply = io.ask(
            Request::new(RequestKind::GitDirect, "", argv4("-C", repo_path, "worktree", "prune")),
        )?;
        Ok(classify_lenient(reply))
    }

    /// The run of the manager's own `worktree move`.
    pub open spec fn git_worktree_move_run(
        repo: Seq<char>,
        old_path: Seq<char>,
        new_path: Seq<char>,
        rest: Seq<ReplyModel>,
    ) -> Run<Result<(), WorkspaceErrorModel>> {
        match ask(
            direct_request(
                Seq::empty(),
                seq!["-C"@, repo, "worktree"@, "move"@] + seq![old_path, new_path],
            ),
            rest,
        ) {
            Run::Pending(q) => Run::Pending(q),
            Run::Ready(reply, rest1) => Run::Ready(direct_outcome(reply), rest1),
        }
    }

    /// Moves a worktree with the git executable.
    pub fn git_worktree_move(io: &mut Replay, repo_path: &str, old_path: &str, new_path: &str) -> (r:
        Result<Result<(), WorkspaceError>, Request>)
        ensures
            settled(
                r,
                final(io).unread(),
                Self::git_worktree_move_run(repo_path@, old_path@, new_path@, old(io).unread()),
            ),
    {
        let mut args = argv4("-C", repo_path, "worktree", "move");
        let mut tail = argv2(old_path, new_path);
        proof {
            lemma_models_concat(args@, tail@);
            reveal_strlit("");
            assert(""@ =~= Seq::<char>::empty());
        }
        args.append(&mut tail);
        let reply = io.ask(Request::new(RequestKind::GitDirect, "", args))?;
        Ok(classify_direct(reply))
    }

    // --- files ---

    /// The run of removing a directory and all below it.
    pub open spec fn remove_run(path: Seq<char>, rest: Seq<ReplyModel>) -> Run<
        Result<(), WorkspaceErrorModel>,
    > {
        match done_run(Request::plain(RequestKind::RemoveDirAll, path, Seq::empty()), rest) {
            Run::Pending(q) => Run::Pending(q),
            Run::Ready(res, rest1) => Run::Ready(io_result(res), rest1),
        }
    }

    fn remove(io: &mut Replay, path: &str) -> (r: Result<Result<(), WorkspaceError>, Request>)
        ensures
            settled(r, final(io).unread(), Self::remove_run(path@, old(io).unread())),
    {
        match io.done(Request::new(RequestKind::RemoveDirAll, path, no_args()))? {
            Ok(()) => Ok(Ok(())),
            Err(f) => Ok(Err(io_error(f))),
        }
    }

    /// The run of `simple_cleanup`: the directory is removed if it is there.
    pub open spec fn simple_cleanup_run(worktree: Seq<char>, rest: Seq<ReplyModel>) -> Run<
        Result<(), WorkspaceErrorModel>,
    > {
        match exists_run(worktree, rest) {
            Run::Pending(q) => Run::Pending(q),
            Run::Ready(false, rest1) => Run::Ready(Ok(()), rest1),
            Run::Ready(true, rest1) => Self::remove_run(worktree, rest1),
        }
    }

    /// Removes the directory of a worktree, without regard to git.
    pub fn simple_cleanup(io: &mut Replay, worktree_path: &str) -> (r: Result<
        Result<(), WorkspaceError>,
        Request,
    >)
        ensures
            settled(r, final(io).unread(), Self::simple_cleanup_run(worktree_path@, old(io).unread())),
    {
        if path_exists(io, worktree_path)? {
            Self::remove(io, worktree_path)
        } else {
            Ok(Ok(()))
        }
    }

    /// The run of making a path canonical: the path itself where that fails.
    pub open spec fn canonical_run(path: Seq<char>, rest: Seq<ReplyModel>) -> Run<Seq<char>> {
        match must_text_run(Request::plain(RequestKind::Canonical, path, Seq::empty()), rest) {
            Run::Pending(q) => Run::Pending(q),
            Run::Ready(Ok(c), rest1) => Run::Ready(c, rest1),
            Run::Ready(Err(_), rest1) => Run::Ready(path, rest1),
        }
    }

    pub(crate) fn canonical(io: &mut Replay, path: &str) -> (r: Result<String, Request>)
        ensures
            settled(r, final(io).unread(), Self::canonical_run(path@, old(io).unread())),
    {
        match io.must_text(Request::new(RequestKind::Canonical, path, no_args()))? {
            Ok(c) => Ok(c),
            Err(_) => Ok(path.to_owned()),
        }
    }

    // --- metadata ---

    /// The run of `get_worktree_metadata_path`: the directory `worktrees` in
    /// the common directory of the repository.
    pub open spec fn get_worktree_metadata_path_run(repo: Seq<char>, rest: Seq<ReplyModel>) -> Run<
        Result<Seq<char>, WorkspaceErrorModel>,
    > {
        match must_text_run(query(RequestKind::CommonDir, repo, Seq::empty()), rest) {
            Run::Pending(q) => Run::Pending(q),
            Run::Ready(Err(f), rest1) => Run::Ready(Err(WorkspaceErrorModel::Git(f.message)), rest1),
            Run::Ready(Ok(dir), rest1) => Run::Ready(Ok(joined_path(dir, "worktrees"@)), rest1),
        }
    }

    /// The directory in which the repository registers its worktrees.
    pub fn get_worktree_metadata_path(io: &mut Replay, git_repo_path: &str) -> (r: Result<
        Result<String, WorkspaceError>,
        Request,
    >)
        ensures
            settled(
                r,
                final(io).unread(),
                Self::get_worktree_metadata_path_run(git_repo_path@, old(io).unread()),
            ),
    {
        match io.must_text(Request::new(RequestKind::CommonDir, git_repo_path, no_args()))? {
            Err(f) => Ok(Err(git_error(f))),
            Ok(dir) => Ok(Ok(join_path(dir.as_str(), "worktrees"))),
        }
    }

    /// The run of testing one registration: whether its back-link, made
    /// canonical, is `root`.
    pub open spec fn entry_matches_run(
        metadata: Seq<char>,
        entry: Seq<char>,
        root: Seq<char>,
        rest: Seq<ReplyModel>,
    ) -> Run<bool> {
        let gitdir = joined_path(joined_path(metadata, entry), "gitdir"@);
        match exists_run(gitdir, rest) {
            Run::Pending(q) => Run::Pending(q),
            Run::Ready(false, rest1) => Run::Ready(false, rest1),
            Run::Ready(true, rest1) => match must_text_run(
                Request::plain(RequestKind::ReadText, gitdir, Seq::empty()),
                rest1,
            ) {
                Run::Pending(q) => Run::Pending(q),
                Run::Ready(Err(_), rest2) => Run::Ready(false, rest2),
                Run::Ready(Ok(content), rest2) => match Self::canonical_run(
                    linked_root(content),
                    rest2,
                ) {
                    Run::Pending(q) => Run::Pending(q),
                    Run::Ready(linked, rest3) => Run::Ready(linked == root, rest3),
                },
            },
        }
    }

    fn entry_matches(io: &mut Replay, metadata: &str, entry: &str, root: &str) -> (r: Result<
        bool,
        Request,
    >)
        ensures
            settled(
                r,
                final(io).unread(),
                Self::entry_matches_run(metadata@, entry@, root@, old(io).unread()),
            ),
    {
        let dir = join_path(metadata, entry);
        let gitdir = join_path(dir.as_str(), "gitdir");
        if !path_exists(io, gitdir.as_str())? {
            return Ok(false);
        }
        let content = match io.must_text(
            Request::new(RequestKind::ReadText, gitdir.as_str(), no_args()),
        )? {
            Err(_) => return Ok(false),
            Ok(c) => c,
        };
        let linked = trim(content.as_str());
        let parent = match parent_of(linked.as_str()) {
            Some(p) => p,
            None => linked,
        };
        let canon = Self::canonical(io, parent.as_str())?;
        Ok(same_text(canon.as_str(), root))
    }

    /// The run of the search through the registrations, in the order given:
    /// the name of the first whose back-link is `root`.
    pub open spec fn scan_run(
        metadata: Seq<char>,
        entries: Seq<Seq<char>>,
        root: Seq<char>,
        rest: Seq<ReplyModel>,
    ) -> Run<Option<Seq<char>>>
        decreases entries.len(),
    {
        if entries.len() == 0 {
            Run::Ready(None, rest)
        } else {
            match Self::entry_matches_run(metadata, entries[0], root, rest) {
                Run::Pending(q) => Run::Pending(q),
                Run::Ready(true, rest1) => Run::Ready(Some(entries[0]), rest1),
                Run::Ready(false, rest1) => Self::scan_run(
                    metadata,
                    entries.drop_first(),
                    root,
                    rest1,
                ),
            }
        }
    }

    fn scan(io: &mut Replay, metadata: &str, entries: &Vec<String>, root: &str) -> (r: Result<
        Option<String>,
        Request,
    >)
        ensures
            settled(
                r,
                final(io).unread(),
                Self::scan_run(metadata@, entries.model(), root@, old(io).unread()),
            ),
    {
        let ghost all = entries.model();
        let ghost start = io.unread();
        let mut i: usize = 0;
        assert(all.skip(0) =~= all);
        while i < entries.len()
            invariant
                i <= entries.len(),
                all == entries.model(),
                start == old(io).unread(),
                Self::scan_run(metadata@, all, root@, start) == Self::scan_run(
                    metadata@,
                    all.skip(i as int),
                    root@,
                    io.unread(),
                ),
            decreases entries.len() - i,
        {
            proof {
                assert(all.skip(i as int)[0] == entries@[i as int]@);
                assert(all.skip(i as int).drop_first() =~= all.skip(i + 1));
            }
            if Self::entry_matches(io, metadata, entries[i].as_str(), root)? {
                return Ok(Some(entries[i].clone()));
            }
            i += 1;
        }
        assert(all.skip(entries@.len() as int) =~= Seq::<Seq<char>>::empty());
        Ok(None)
    }

    /// What the listing of the registration directory gives: the names, none
    /// where the directory is not there, an error where it cannot be read.
    pub open spec fn listing_of(reply: ReplyModel) -> Result<Seq<Seq<char>>, WorkspaceErrorModel> {
        match reply {
            ReplyModel::Names(n) => Ok(n),
            ReplyModel::Failed(f) => if f.not_found {
                Ok(Seq::empty())
            } else {
                Err(
                    WorkspaceErrorModel::Repository(
                        "Failed to read worktree metadata: "@ + f.message,
                    ),
                )
            },
            _ => Err(
                WorkspaceErrorModel::Repository(
                    "Failed to read worktree metadata: unexpected reply"@,
                ),
            ),
        }
    }

    /// The run of `find_worktree_git_internal_name`: the name under which
    /// the repository registers the worktree at `worktree`, found by the
    /// back-link of each registration.
    pub open spec fn find_worktree_git_internal_name_run(
        repo: Seq<char>,
        worktree: Seq<char>,
        rest: Seq<ReplyModel>,
    ) -> Run<Result<Option<Seq<char>>, WorkspaceErrorModel>> {
        match Self::canonical_run(worktree, rest) {
            Run::Pending(q) => Run::Pending(q),
            Run::Ready(root, rest1) => match Self::get_worktree_metadata_path_run(repo, rest1) {
                Run::Pending(q) => Run::Pending(q),
                Run::Ready(Err(e), rest2) => Run::Ready(Err(e), rest2),
                Run::Ready(Ok(metadata), rest2) => match ask(
                    Request::plain(RequestKind::ListDir, metadata, Seq::empty()),
                    rest2,
                ) {
                    Run::Pending(q) => Run::Pending(q),
                    Run::Ready(reply, rest3) => match Self::listing_of(reply) {
                        Err(e) => Run::Ready(Err(e), rest3),
                        Ok(entries) => match Self::scan_run(metadata, entries, root, rest3) {
                            Run::Pending(q) => Run::Pending(q),
                            Run::Ready(found, rest4) => Run::Ready(Ok(found), rest4),
                        },
                    },
                },
            },
        }
    }

    /// The name under which the repository registers the worktree at
    /// `worktree_path`, if it does.
    pub fn find_worktree_git_internal_name(io: &mut Replay, git_repo_path: &str, worktree_path: &str) -> (r:
        Result<Result<Option<String>, WorkspaceError>, Request>)
        ensures
            settled(
                r,
                final(io).unread(),
                Self::find_worktree_git_internal_name_run(
                    git_repo_path@,
                    worktree_path@,
                    old(io).unread(),
                ),
            ),
    {
        let root = Self::canonical(io, worktree_path)?;
        let metadata = match Self::get_worktree_metadata_path(io, git_repo_path)? {
            Err(e) => return Ok(Err(e)),
            Ok(m) => m,
        };
        let reply = io.ask(Request::new(RequestKind::ListDir, metadata.as_str(), no_args()))?;
        match reply {
            Reply::Names(entries) => {
                let found = Self::scan(io, metadata.as_str(), entries, root.as_str())?;
                Ok(Ok(found))
            },
            Reply::Failed(f) => {
                if f.not_found {
                    proof {
                        assert(Self::scan_run(
                            metadata@,
                            Seq::<Seq<char>>::empty(),
                            root@,
                            io.unread(),
                        ) == Run::<Option<Seq<char>>>::Ready(None, io.unread()));
                    }
                    Ok(Ok(None))
                } else {
                    Ok(
                        Err(
                            WorkspaceError::Repository(
                                join2("Failed to read worktree metadata: ", f.message.as_str()),
                            ),
                        ),
                    )
                }
            },
            _ => Ok(
                Err(
                    WorkspaceError::Repository(
                        "Failed to read worktree metadata: unexpected reply".to_owned(),
                    ),
                ),
            ),
        }
    }

    /// The run of `force_cleanup_metadata`: the registration of the worktree
    /// is removed from the repository, if there is one.
    pub open spec fn force_cleanup_metadata_run(
        repo: Seq<char>,
        worktree: Seq<char>,
        rest: Seq<ReplyModel>,
    ) -> Run<Result<(), WorkspaceErrorModel>> {
        match Self::find_worktree_git_internal_name_run(repo, worktree, rest) {
            Run::Pending(q) => Run::Pending(q),
            Run::Ready(Err(e), rest1) => Run::Ready(Err(e), rest1),
            Run::Ready(Ok(None), rest1) => Run::Ready(Ok(()), rest1),
            Run::Ready(Ok(Some(name)), rest1) => match Self::get_worktree_metadata_path_run(
                repo,
                rest1,
            ) {
                Run::Pending(q) => Run::Pending(q),
                Run::Ready(Err(e), rest2) => Run::Ready(Err(e), rest2),
                Run::Ready(Ok(metadata), rest2) => Self::simple_cleanup_run(
                    joined_path(metadata, name),
                    rest2,
                ),
            },
        }
    }

    /// Removes the registration of the worktree from the repository.
    pub fn force_cleanup_metadata(io: &mut Replay, git_repo_path: &str, worktree_path: &str) -> (r:
        Result<Result<(), WorkspaceError>, Request>)
        ensures
            settled(
                r,
                final(io).unread(),
                Self::force_cleanup_metadata_run(git_repo_path@, worktree_path@, old(io).unread()),
            ),
    {
        let name = match Self::find_worktree_git_internal_name(io, git_repo_path, worktree_path)? {
            Err(e) => return Ok(Err(e)),
            Ok(None) => return Ok(Ok(())),
            Ok(Some(n)) => n,
        };
        let metadata = match Self::get_worktree_metadata_path(io, git_repo_path)? {
            Err(e) => return Ok(Err(e)),
            Ok(m) => m,
        };
        let entry = join_path(metadata.as_str(), name.as_str());
        Self::simple_cleanup(io, entry.as_str())
    }

    /// The run of `is_worktree_properly_set_up`: the path exists, and the
    /// repository registers a worktree whose back-link leads to it.
    pub open spec fn is_worktree_properly_set_up_run(
        repo: Seq<char>,
        worktree: Seq<char>,
        rest: Seq<ReplyModel>,
    ) -> Run<Result<bool, WorkspaceErrorModel>> {
        match exists_run(worktree, rest) {
            Run::Pending(q) => Run::Pending(q),
            Run::Ready(false, rest1) => Run::Ready(Ok(false), rest1),
            Run::Ready(true, rest1) => match done_run(
                query(RequestKind::OpenRepo, repo, Seq::empty()),
                rest1,
            ) {
                Run::Pending(q) => Run::Pending(q),
                Run::Ready(Err(f), rest2) => Run::Ready(
                    Err(WorkspaceErrorModel::Git(f.message)),
                    rest2,
                ),
                Run::Ready(Ok(_), rest2) => match Self::find_worktree_git_internal_name_run(
                    repo,
                    worktree,
                    rest2,
                ) {
                    Run::Pending(q) => Run::Pending(q),
                    Run::Ready(Err(e), rest3) => Run::Ready(Err(e), rest3),
                    Run::Ready(Ok(None), rest3) => Run::Ready(Ok(false), rest3),
                    Run::Ready(Ok(Some(name)), rest3) => match flag_run(
                        query(RequestKind::FindWorktree, repo, seq![name]),
                        rest3,
                    ) {
                        Run::Pending(q) => Run::Pending(q),
                        Run::Ready(res, rest4) => Run::Ready(
                            Ok(res == Ok::<bool, FailureModel>(true)),
                            rest4,
                        ),
                    },
                },
            },
        }
    }

    /// Whether the worktree is there and registered.
    pub fn is_worktree_properly_set_up(io: &mut Replay, repo_path: &str, worktree_path: &str) -> (r:
        Result<Result<bool, WorkspaceError>, Request>)
        ensures
            settled(
                r,
                final(io).unread(),
                Self::is_worktree_properly_set_up_run(repo_path@, worktree_path@, old(io).unread()),
            ),
    {
        if !path_exists(io, worktree_path)? {
            return Ok(Ok(false));
        }
        match io.done(Request::new(RequestKind::OpenRepo, repo_path, no_args()))? {
            Err(f) => return Ok(Err(git_error(f))),
            Ok(()) => {},
        }
        let name = match Self::find_worktree_git_internal_name(io, repo_path, worktree_path)? {
            Err(e) => return Ok(Err(e)),
            Ok(None) => return Ok(Ok(false)),
            Ok(Some(n)) => n,
        };
        match io.flag(Request::new(RequestKind::FindWorktree, repo_path, argv1(name.as_str())))? {
            Ok(b) => Ok(Ok(b)),
            Err(_) => Ok(Ok(false)),
        }
    }
}

} // verus!
