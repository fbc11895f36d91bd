//! The workspace manager: one worktree for each repository of a task,
//! created as a unit and rolled back as a unit.

use vstd::prelude::*;
use crate::effects::{done_run, settled, Replay, ReplyModel, Request, RequestKind, Run};
use crate::errors::{WorkspaceError, WorkspaceErrorModel};
use crate::git_service::no_args;
use crate::model::{lemma_models_push, Model};
use crate::paths::{join_path, joined_path};
use crate::text::{join2, join3};
use crate::workspace_types::{
    RepoInput, RepoInputModel, RepoWorktree, RepoWorktreeModel, WorktreeCleanup,
    WorktreeCleanupModel, WorktreeContainer, WorktreeContainerModel,
};
use crate::worktree::WorktreeManager;

verus! {

/// The workspace manager. It keeps its workspaces where the worktree
/// manager keeps its worktrees.
#[derive(Clone, Debug, PartialEq, Eq)]
pub struct WorkspaceManager {
    pub worktrees: WorktreeManager,
}

/// Calls `uuid::Uuid::new_v4` and writes the identifier out. Each call
/// gives another identifier; in its hyphenated form it has 36 characters.
#[verifier::external_body]
pub(crate) fn new_uuid_text() -> (r: String)
    ensures
        r@.len() == 36,
{
    uuid::Uuid::new_v4().to_string()
}

/// The worktree of a repository in the workspace at `dir`: it stands in the
/// directory of the workspace under the name of the repository.
pub open spec fn member(dir: Seq<char>, repo: RepoInputModel) -> RepoWorktreeModel {
    RepoWorktreeModel {
        repo_id: repo.id,
        repo_name: repo.name,
        source_repo_path: repo.path,
        worktree_path: joined_path(dir, repo.name),
    }
}

/// The worktrees of repositories in the workspace at `dir`, in their order.
pub open spec fn members_of(dir: Seq<char>, repos: Seq<RepoInputModel>) -> Seq<RepoWorktreeModel> {
    Seq::new(repos.len(), |i: int| member(dir, repos[i]))
}

/// What is needed to clean up a worktree of a workspace.
pub open spec fn cleanup_of(worktree: RepoWorktreeModel) -> WorktreeCleanupModel {
    WorktreeCleanupModel {
        worktree_path: worktree.worktree_path,
        git_repo_path: Some(worktree.source_repo_path),
    }
}

/// The cleanups of worktrees, in their order.
pub open spec fn cleanups_of(worktrees: Seq<RepoWorktreeModel>) -> Seq<WorktreeCleanupModel> {
    Seq::new(worktrees.len(), |i: int| cleanup_of(worktrees[i]))
}

/// The text that reports which repository a workspace failed on, and why.
pub open spec fn partial_text(repo_name: Seq<char>, e: WorkspaceErrorModel) -> Seq<char> {
    "Failed to create worktree for repo '"@ + repo_name + "': "@ + e.message()
}

/// The directory of a temporary workspace: under `base`, named by the
/// prefix and an identifier.
pub open spec fn temp_dir_of(base: Seq<char>, prefix: Seq<char>, id: Seq<char>) -> Seq<char> {
    joined_path(base, prefix + "-"@ + id)
}

/// The directory of a temporary workspace.
pub fn temp_workspace_dir(base: &str, prefix: &str, id: &str) -> (r: String)
    ensures
        r@ == temp_dir_of(base@, prefix@, id@),
{
    let name = join3(prefix, "-", id);
    join_path(base, name.as_str())
}

fn cleanups_for(worktrees: &Vec<RepoWorktree>) -> (r: Vec<WorktreeCleanup>)
    ensures
        r.model() == cleanups_of(worktrees.model()),
{
    let mut out: Vec<WorktreeCleanup> = Vec::new();
    let mut i: usize = 0;
    assert(out.model() =~= cleanups_of(worktrees.model()).take(0));
    while i < worktrees.len()
        invariant
            i <= worktrees.len(),
            out.model() == cleanups_of(worktrees.model()).take(i as int),
        decreases worktrees.len() - i,
    {
        let wt = &worktrees[i];
        let cleanup = WorktreeCleanup::new(
            wt.worktree_path.clone(),
            Some(wt.source_repo_path.clone()),
        );
        proof {
            lemma_models_push(out@, cleanup);
            assert(worktrees.model()[i as int] == wt.model());
            assert(cleanups_of(worktrees.model()).take(i + 1) =~= cleanups_of(
                worktrees.model(),
            ).take(i as int).push(cleanup.model()));
        }
        out.push(cleanup);
        i += 1;
    }
    assert(cleanups_of(worktrees.model()).take(worktrees@.len() as int) =~= cleanups_of(
        worktrees.model(),
    ));
    out
}

impl WorkspaceManager {
    /// A workspace manager over a worktree manager.
    pub fn new(worktrees: WorktreeManager) -> (r: Self)
        ensures
            r.worktrees == worktrees,
    {
        WorkspaceManager { worktrees }
    }

    /// The run of `rollback_worktrees`: the worktrees are cleaned up in the
    /// order they were created in; that one cleanup fails is passed over.
    pub open spec fn rollback_worktrees_run(created: Seq<RepoWorktreeModel>, rest: Seq<ReplyModel>) -> Run<
        (),
    > {
        match WorktreeManager::batch_cleanup_worktrees_run(cleanups_of(created), rest) {
            Run::Pending(q) => Run::Pending(q),
            Run::Ready(_, rest1) => Run::Ready((), rest1),
        }
    }

    /// Cleans up the worktrees that were created before a workspace failed.
    pub fn rollback_worktrees(io: &mut Replay, worktrees: &Vec<RepoWorktree>) -> (r: Result<
        (),
        Request,
    >)
        ensures
            settled(
                r,
                final(io).unread(),
                Self::rollback_worktrees_run(worktrees.model(), old(io).unread()),
            ),
    {
        let cleanups = cleanups_for(worktrees);
        let _ = WorktreeManager::batch_cleanup_worktrees(io, &cleanups)?;
        Ok(())
    }

    /// The run of the creation of one worktree of a workspace, the worktrees
    /// in `created` being there. Where it fails, exactly the worktrees in
    /// `created` are rolled back, and the error names the repository.
    #[verifier::opaque]
    pub open spec fn member_run(
        dir: Seq<char>,
        repo: RepoInputModel,
        created: Seq<RepoWorktreeModel>,
        branch: Seq<char>,
        rest: Seq<ReplyModel>,
    ) -> Run<Result<RepoWorktreeModel, WorkspaceErrorModel>> {
        match WorktreeManager::create_worktree_run(
            repo.path,
            branch,
            joined_path(dir, repo.name),
            repo.target_branch,
            true,
            rest,
        ) {
            Run::Pending(q) => Run::Pending(q),
            Run::Ready(Ok(_), rest1) => Run::Ready(Ok(member(dir, repo)), rest1),
            Run::Ready(Err(e), rest1) => match Self::rollback_worktrees_run(created, rest1) {
                Run::Pending(q) => Run::Pending(q),
                Run::Ready(_, rest2) => Run::Ready(
                    Err(WorkspaceErrorModel::PartialCreation(partial_text(repo.name, e))),
                    rest2,
                ),
            },
        }
    }

    /// The run of the creation of the worktrees from repository `k` on, the
    /// worktrees of the repositories before `k` being there: those are the
    /// ones that a failure rolls back.
    pub open spec fn members_run(
        dir: Seq<char>,
        repos: Seq<RepoInputModel>,
        k: int,
        branch: Seq<char>,
        rest: Seq<ReplyModel>,
    ) -> Run<Result<Seq<RepoWorktreeModel>, WorkspaceErrorModel>>
        decreases repos.len() - k,
    {
        if k < 0 || k >= repos.len() {
            Run::Ready(Ok(members_of(dir, repos)), rest)
        } else {
            match Self::member_run(dir, repos[k], members_of(dir, repos.take(k)), branch, rest) {
                Run::Pending(q) => Run::Pending(q),
                Run::Ready(Ok(_), rest1) => Self::members_run(dir, repos, k + 1, branch, rest1),
                Run::Ready(Err(e), rest1) => Run::Ready(Err(e), rest1),
            }
        }
    }

    fn create_member(
        io: &mut Replay,
        workspace_dir: &str,
        repo: &RepoInput,
        created: &Vec<RepoWorktree>,
        branch_name: &str,
    ) -> (r: Result<Result<RepoWorktree, WorkspaceError>, Request>)
        ensures
            settled(
                r,
                final(io).unread(),
                Self::member_run(
                    workspace_dir@,
                    repo.model(),
                    created.model(),
                    branch_name@,
                    old(io).unread(),
                ),
            ),
            r matches Ok(Ok(wt)) ==> wt.model() == member(workspace_dir@, repo.model()),
    {
        reveal(WorkspaceManager::member_run);
        let worktree_path = join_path(workspace_dir, repo.name.as_str());
        match WorktreeManager::create_worktree(
            io,
            repo.path.as_str(),
            branch_name,
            worktree_path.as_str(),
            repo.target_branch.as_str(),
            true,
        )? {
            Ok(()) => Ok(
                Ok(
                    RepoWorktree {
                        repo_id: repo.id.clone(),
                        repo_name: repo.name.clone(),
                        source_repo_path: repo.path.clone(),
                        worktree_path,
                    },
                ),
            ),
            Err(e) => {
                Self::rollback_worktrees(io, created)?;
                let head = join3("Failed to create worktree for repo '", repo.name.as_str(), "': ");
                let text = join2(head.as_str(), e.message().as_str());
                Ok(Err(WorkspaceError::PartialCreation(text)))
            },
        }
    }

    /// The run of `create_workspace`: refused without repositories; the
    /// directory of the workspace is created; then one worktree for each
    /// repository, in order, on a new branch `branch` from the target branch
    /// of the repository. The workspace is there only if every worktree is.
    pub open spec fn create_workspace_run(
        dir: Seq<char>,
        repos: Seq<RepoInputModel>,
        branch: Seq<char>,
        rest: Seq<ReplyModel>,
    ) -> Run<Result<WorktreeContainerModel, WorkspaceErrorModel>> {
        if repos.len() == 0 {
            Run::Ready(Err(WorkspaceErrorModel::NoRepositories), rest)
        } else {
            match done_run(Request::plain(RequestKind::CreateDirAll, dir, Seq::empty()), rest) {
                Run::Pending(q) => Run::Pending(q),
                Run::Ready(Err(f), rest1) => Run::Ready(
                    Err(WorkspaceErrorModel::Io(f.message)),
                    rest1,
                ),
                Run::Ready(Ok(_), rest1) => match Self::members_run(dir, repos, 0, branch, rest1) {
                    Run::Pending(q) => Run::Pending(q),
                    Run::Ready(Err(e), rest2) => Run::Ready(Err(e), rest2),
                    Run::Ready(Ok(worktrees), rest2) => Run::Ready(
                        Ok(WorktreeContainerModel { workspace_dir: dir, worktrees }),
                        rest2,
                    ),
                },
            }
        }
    }

    fn create_members(
        io: &mut Replay,
        workspace_dir: &str,
        repos: &Vec<RepoInput>,
        branch_name: &str,
    ) -> (r: Result<Result<Vec<RepoWorktree>, WorkspaceError>, Request>)
        ensures
            settled(
                r,
                final(io).unread(),
                Self::members_run(workspace_dir@, repos.model(), 0, branch_name@, old(io).unread()),
            ),
    {
        let ghost all = repos.model();
        let ghost start = io.unread();
        let mut created: Vec<RepoWorktree> = Vec::new();
        let mut k: usize = 0;
        assert(created.model() =~= members_of(workspace_dir@, all.take(0)));
        while k < repos.len()
            invariant
                k <= repos.len(),
                all == repos.model(),
                start == old(io).unread(),
                Self::members_run(workspace_dir@, all, 0, branch_name@, start) == Self::members_run(
                    workspace_dir@,
                    all,
                    k as int,
                    branch_name@,
                    io.unread(),
                ),
                created.model() == members_of(workspace_dir@, all.take(k as int)),
            decreases repos.len() - k,
        {
            let repo = &repos[k];
            assert(all[k as int] == repo.model());
            match Self::create_member(io, workspace_dir, repo, &created, branch_name)? {
                Ok(wt) => {
                    proof {
                        lemma_models_push(created@, wt);
                        assert(members_of(workspace_dir@, all.take(k + 1)) =~= members_of(
                            workspace_dir@,
                            all.take(k as int),
                        ).push(wt.model()));
                    }
                    created.push(wt);
                },
                Err(e) => {
                    return Ok(Err(e));
                },
            }
            k += 1;
        }
        assert(all.take(repos@.len() as int) =~= all);
        Ok(Ok(created))
    }

    /// Creates a workspace at `workspace_dir` with a worktree for each of
    /// `repos`.
    pub fn create_workspace(
        io: &mut Replay,
        workspace_dir: &str,
        repos: &Vec<RepoInput>,
        branch_name: &str,
    ) -> (r: Result<Result<WorktreeContainer, WorkspaceError>, Request>)
        ensures
            settled(
                r,
                final(io).unread(),
                Self::create_workspace_run(
                    workspace_dir@,
                    repos.model(),
                    branch_name@,
                    old(io).unread(),
                ),
            ),
    {
        if repos.len() == 0 {
            return Ok(Err(WorkspaceError::NoRepositories));
        }
        match io.done(Request::new(RequestKind::CreateDirAll, workspace_dir, no_args()))? {
            Err(f) => return Ok(Err(WorkspaceError::Io(f.message))),
            Ok(()) => {},
        }
        match Self::create_members(io, workspace_dir, repos, branch_name)? {
            Err(e) => Ok(Err(e)),
            Ok(worktrees) => Ok(
                Ok(WorktreeContainer { workspace_dir: workspace_dir.to_owned(), worktrees }),
            ),
        }
    }

    /// The run of `cleanup_workspace`.
    pub open spec fn cleanup_workspace_run(worktrees: Seq<RepoWorktreeModel>, rest: Seq<ReplyModel>) -> Run<
        Result<(), WorkspaceErrorModel>,
    > {
        WorktreeManager::batch_cleanup_worktrees_run(cleanups_of(worktrees), rest)
    }

    /// Clears every worktree of a workspace away. That one of them fails
    /// does not keep the others from being cleared, and is no error.
    pub fn cleanup_workspace(io: &mut Replay, worktrees: &Vec<RepoWorktree>) -> (r: Result<
        Result<(), WorkspaceError>,
        Request,
    >)
        ensures
            settled(
                r,
                final(io).unread(),
                Self::cleanup_workspace_run(worktrees.model(), old(io).unread()),
            ),
    {
        let cleanups = cleanups_for(worktrees);
        WorktreeManager::batch_cleanup_worktrees(io, &cleanups)
    }

    /// The directory that holds the workspaces.
    pub fn get_workspace_base_dir(&self) -> (r: String)
        ensures
            r@ == self.worktrees.base_dir(),
    {
        self.worktrees.get_worktree_base_dir()
    }

    /// A fresh directory name for a workspace, under the base directory:
    /// the prefix, a hyphen and a new identifier of 36 characters.
    pub fn create_temp_workspace_dir(&self, prefix: &str) -> (r: Result<String, WorkspaceError>)
        ensures
            r is Ok,
            exists|id: Seq<char>|
                id.len() == 36 && r->Ok_0@ == #[trigger] temp_dir_of(
                    self.worktrees.base_dir(),
                    prefix@,
                    id,
                ),
    {
        let base = self.get_workspace_base_dir();
        let id = new_uuid_text();
        let dir = temp_workspace_dir(base.as_str(), prefix, id.as_str());
        assert(dir@ == temp_dir_of(self.worktrees.base_dir(), prefix@, id@));
        Ok(dir)
    }
}

/// Where the worktree of repository `k` fails, exactly the worktrees of the
/// repositories before `k` are rolled back, in the order they were created
/// in, and the creation ends with the error that names repository `k`: no
/// workspace comes out.
pub proof fn lemma_failure_rolls_back_created(
    dir: Seq<char>,
    repos: Seq<RepoInputModel>,
    k: int,
    branch: Seq<char>,
    rest: Seq<ReplyModel>,
)
    requires
        0 <= k < repos.len(),
        WorktreeManager::create_worktree_run(
            repos[k].path,
            branch,
            joined_path(dir, repos[k].name),
            repos[k].target_branch,
            true,
            rest,
        ) matches Run::Ready(Err(_), _),
    ensures
        ({
            let failed = WorktreeManager::create_worktree_run(
                repos[k].path,
                branch,
                joined_path(dir, repos[k].name),
                repos[k].target_branch,
                true,
                rest,
            );
            let created = members_of(dir, repos.take(k));
            &&& created.len() == k
            &&& forall|i: int| 0 <= i < k ==> #[trigger] created[i] == member(dir, repos[i])
            &&& WorkspaceManager::members_run(dir, repos, k, branch, rest) == (
            match WorktreeManager::batch_cleanup_worktrees_run(
                cleanups_of(created),
                failed->Ready_1,
            ) {
                Run::Pending(q) => Run::<
                    Result<Seq<RepoWorktreeModel>, WorkspaceErrorModel>,
                >::Pending(q),
                Run::Ready(_, rest2) => Run::Ready(
                    Err(
                        WorkspaceErrorModel::PartialCreation(
                            partial_text(repos[k].name, failed->Ready_0->Err_0),
                        ),
                    ),
                    rest2,
                ),
            })
        }),
{
    reveal(WorkspaceManager::member_run);
}

/// The worktrees that a creation ends with, where it succeeds, are those of
/// all the repositories.
pub proof fn lemma_members_are_all(
    dir: Seq<char>,
    repos: Seq<RepoInputModel>,
    k: int,
    branch: Seq<char>,
    rest: Seq<ReplyModel>,
)
    ensures
        WorkspaceManager::members_run(dir, repos, k, branch, rest) matches Run::Ready(Ok(w), _)
            ==> w == members_of(dir, repos),
    decreases repos.len() - k,
{
    if 0 <= k < repos.len() {
        match WorkspaceManager::member_run(
            dir,
            repos[k],
            members_of(dir, repos.take(k)),
            branch,
            rest,
        ) {
            Run::Ready(Ok(_), rest1) => {
                lemma_members_are_all(dir, repos, k + 1, branch, rest1);
            },
            _ => {},
        }
    }
}

/// A workspace is all or nothing: where `create_workspace` returns one, it
/// holds a worktree for every repository, in order, each in the directory of
/// the workspace under the name of its repository.
pub proof fn lemma_workspace_is_all_or_nothing(
    dir: Seq<char>,
    repos: Seq<RepoInputModel>,
    branch: Seq<char>,
    rest: Seq<ReplyModel>,
)
    ensures
        WorkspaceManager::create_workspace_run(dir, repos, branch, rest) matches Run::Ready(
            Ok(c),
            _,
        ) ==> c.workspace_dir == dir && c.worktrees == members_of(dir, repos) && repos.len() > 0,
{
    if repos.len() > 0 {
        match done_run(Request::plain(RequestKind::CreateDirAll, dir, Seq::empty()), rest) {
            Run::Ready(Ok(_), rest1) => {
                lemma_members_are_all(dir, repos, 0, branch, rest1);
            },
            _ => {},
        }
    }
}

} // verus!
