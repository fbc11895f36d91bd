use vibe_git::effects::{Failure, Replay, Reply, Request, RequestKind};
use vibe_git::errors::WorkspaceError;
use vibe_git::workspace::{temp_workspace_dir, WorkspaceManager};
use vibe_git::workspace_types::{RepoInput, RepoWorktree, WorktreeContainer};
use vibe_git::worktree::WorktreeManager;

fn drive<T>(
    mut op: impl FnMut(&mut Replay) -> Result<T, Request>,
    mut world: impl FnMut(&Request) -> Reply,
) -> (T, Vec<Request>) {
    let mut log: Vec<Reply> = Vec::new();
    let mut asked: Vec<Request> = Vec::new();
    loop {
        let step = {
            let mut io = Replay::new(&log);
            op(&mut io)
        };
        match step {
            Ok(v) => return (v, asked),
            Err(request) => {
                log.push(world(&request));
                asked.push(request);
            }
        }
        assert!(asked.len() < 2000);
    }
}

fn repo(id: &str, name: &str) -> RepoInput {
    RepoInput {
        id: id.to_string(),
        name: name.to_string(),
        path: format!("/src/{}", name),
        target_branch: "main".to_string(),
    }
}

fn member(id: &str, name: &str) -> RepoWorktree {
    RepoWorktree {
        repo_id: id.to_string(),
        repo_name: name.to_string(),
        source_repo_path: format!("/src/{}", name),
        worktree_path: format!("/ws/{}", name),
    }
}

/// A world in which every worktree can be created, but for the repository
/// whose branch cannot.
fn world(failing: Option<&'static str>) -> impl FnMut(&Request) -> Reply {
    let mut created: Vec<String> = Vec::new();
    move |q: &Request| match q.kind {
        RequestKind::CreateBranch => {
            if Some(q.target.as_str()) == failing.map(|f| format!("/src/{}", f)).as_deref() {
                Reply::Failed(Failure { not_found: false, message: "no base branch".to_string() })
            } else {
                Reply::Done
            }
        }
        RequestKind::PathExists => Reply::Flag(created.contains(&q.target)),
        RequestKind::OpenRepo => Reply::Done,
        RequestKind::Workdir => Reply::Text(q.target.clone()),
        RequestKind::CommonDir => Reply::Text(format!("{}/.git", q.target)),
        RequestKind::Canonical => Reply::Text(q.target.clone()),
        RequestKind::ListDir => Reply::Names(vec![]),
        RequestKind::RemoveDirAll => {
            created.retain(|p| p != &q.target);
            Reply::Done
        }
        RequestKind::GitDirect => {
            if q.args.iter().any(|a| a == "add") {
                created.push(q.args[q.args.len() - 2].clone());
            }
            Reply::Exited { code: Some(0), stdout: vec![], stderr: vec![] }
        }
        _ => Reply::Done,
    }
}

#[test]
fn a_workspace_holds_a_worktree_for_every_repository() {
    let repos = vec![repo("1", "frontend"), repo("2", "backend")];
    let (out, asked) = drive(
        |io| WorkspaceManager::create_workspace(io, "/ws", &repos, "task-1"),
        world(None),
    );
    assert_eq!(
        out,
        Ok(WorktreeContainer {
            workspace_dir: "/ws".to_string(),
            worktrees: vec![member("1", "frontend"), member("2", "backend")],
        })
    );
    assert_eq!(asked[0].kind, RequestKind::CreateDirAll);
    assert_eq!(asked[0].target, "/ws");
    let branches: Vec<(&str, Vec<&str>)> = asked
        .iter()
        .filter(|q| q.kind == RequestKind::CreateBranch)
        .map(|q| (q.target.as_str(), q.args.iter().map(|a| a.as_str()).collect()))
        .collect();
    assert_eq!(
        branches,
        [("/src/frontend", vec!["task-1", "main"]), ("/src/backend", vec!["task-1", "main"])]
    );
    let adds: Vec<Vec<&str>> = asked
        .iter()
        .filter(|q| q.args.iter().any(|a| a == "add"))
        .map(|q| q.args.iter().map(|a| a.as_str()).collect())
        .collect();
    assert_eq!(
        adds,
        [
            vec!["-C", "/src/frontend", "worktree", "add", "/ws/frontend", "task-1"],
            vec!["-C", "/src/backend", "worktree", "add", "/ws/backend", "task-1"]
        ]
    );
}

#[test]
fn a_workspace_needs_repositories() {
    let (out, asked) = drive(
        |io| WorkspaceManager::create_workspace(io, "/ws", &Vec::new(), "task"),
        world(None),
    );
    assert_eq!(out, Err(WorkspaceError::NoRepositories));
    assert!(asked.is_empty());
}

#[test]
fn a_workspace_needs_its_directory() {
    let repos = vec![repo("1", "a")];
    let (out, asked) = drive(
        |io| WorkspaceManager::create_workspace(io, "/ws", &repos, "task"),
        |_| Reply::Failed(Failure { not_found: false, message: "read-only".to_string() }),
    );
    assert_eq!(out, Err(WorkspaceError::Io("read-only".to_string())));
    assert_eq!(asked.len(), 1);
}

#[test]
fn a_failure_rolls_back_exactly_the_worktrees_created_before_it() {
    let repos = vec![repo("1", "a"), repo("2", "b"), repo("3", "c"), repo("4", "d")];
    let (out, asked) = drive(
        |io| WorkspaceManager::create_workspace(io, "/ws", &repos, "task"),
        world(Some("c")),
    );
    assert_eq!(
        out,
        Err(WorkspaceError::PartialCreation(
            "Failed to create worktree for repo 'c': Git error: no base branch".to_string()
        ))
    );
    let adds: Vec<&str> = asked
        .iter()
        .filter(|q| q.args.iter().any(|a| a == "add"))
        .map(|q| q.args[4].as_str())
        .collect();
    assert_eq!(adds, ["/ws/a", "/ws/b"]);
    let failed_at = asked.iter().position(|q| q.kind == RequestKind::CreateBranch && q.target == "/src/c").unwrap();
    let after = &asked[failed_at + 1..];
    let cleaned: Vec<&str> = after
        .iter()
        .filter(|q| q.kind == RequestKind::Lock)
        .map(|q| q.target.as_str())
        .collect();
    assert_eq!(cleaned, ["/ws/a", "/ws/b"]);
    let removed: Vec<&str> = after
        .iter()
        .filter(|q| q.kind == RequestKind::RemoveDirAll)
        .map(|q| q.target.as_str())
        .collect();
    assert_eq!(removed, ["/ws/a", "/ws/b"]);
    assert!(asked.iter().all(|q| q.target != "/src/d" && q.target != "/ws/d"));
    assert!(asked.iter().filter(|q| q.target == "/ws/c").all(|q| matches!(
        q.kind,
        RequestKind::Canonical | RequestKind::Lock | RequestKind::Unlock
    )));
}

#[test]
fn a_failure_on_the_first_repository_rolls_back_nothing() {
    let repos = vec![repo("1", "a"), repo("2", "b")];
    let (out, asked) = drive(
        |io| WorkspaceManager::create_workspace(io, "/ws", &repos, "task"),
        world(Some("a")),
    );
    assert!(matches!(out, Err(WorkspaceError::PartialCreation(_))));
    let kinds: Vec<RequestKind> = asked.iter().map(|q| q.kind).collect();
    assert_eq!(
        kinds,
        vec![
            RequestKind::CreateDirAll,
            RequestKind::Canonical,
            RequestKind::Lock,
            RequestKind::CreateBranch,
            RequestKind::Unlock
        ]
    );
}

#[test]
fn a_workspace_is_cleaned_up_member_by_member() {
    let members = vec![member("1", "a"), member("2", "b")];
    let (out, asked) = drive(|io| WorkspaceManager::cleanup_workspace(io, &members), world(None));
    assert_eq!(out, Ok(()));
    let locked: Vec<&str> =
        asked.iter().filter(|q| q.kind == RequestKind::Lock).map(|q| q.target.as_str()).collect();
    assert_eq!(locked, ["/ws/a", "/ws/b"]);
    let opened: Vec<&str> =
        asked.iter().filter(|q| q.kind == RequestKind::OpenRepo).map(|q| q.target.as_str()).collect();
    assert_eq!(opened, ["/src/a", "/src/b"]);
    let (out, asked) = drive(|io| WorkspaceManager::rollback_worktrees(io, &members), world(None));
    assert_eq!(out, ());
    assert_eq!(asked.iter().filter(|q| q.kind == RequestKind::Unlock).count(), 2);
}

#[test]
fn temporary_workspaces_get_fresh_names_under_the_base_directory() {
    let manager = WorkspaceManager::new(WorktreeManager::new("/base".to_string()));
    assert_eq!(manager.get_workspace_base_dir(), "/base");
    let a = manager.create_temp_workspace_dir("task").unwrap();
    let b = manager.create_temp_workspace_dir("task").unwrap();
    assert!(a.starts_with("/base/task-"));
    assert_eq!(a.len(), "/base/task-".len() + 36);
    assert_ne!(a, b);
    assert_eq!(temp_workspace_dir("/base", "p", "id"), "/base/p-id");
}
