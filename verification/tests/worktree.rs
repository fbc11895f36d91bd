use vibe_git::effects::{Failure, Replay, Reply, Request, RequestKind};
use vibe_git::errors::WorkspaceError;
use vibe_git::workspace_types::WorktreeCleanup;
use vibe_git::worktree::{repo_from_common_dir, HostOs, WorktreeManager};

fn drive<T>(
    mut op: impl FnMut(&mut Replay) -> Result<T, Request>,
    mut world: impl FnMut(&Request) -> Reply,
) -> (T, Vec<Request>) {
    let mut log: Vec<Reply> = Vec::new();
    let mut asked: Vec<Request> = Vec::new();
    loop {
        let step = {
            let mut io = Replay::new(&log);
            op(&mut io)
        };
        match step {
            Ok(v) => return (v, asked),
            Err(request) => {
                log.push(world(&request));
                asked.push(request);
            }
        }
        assert!(asked.len() < 500);
    }
}

fn exit(code: i32, stderr: &str) -> Reply {
    Reply::Exited { code: Some(code), stdout: Vec::new(), stderr: stderr.as_bytes().to_vec() }
}

fn failed(message: &str, not_found: bool) -> Reply {
    Reply::Failed(Failure { not_found, message: message.to_string() })
}

fn text(t: &str) -> Reply {
    Reply::Text(t.to_string())
}

fn has(q: &Request, word: &str) -> bool {
    q.args.iter().any(|a| a == word)
}

fn args(request: &Request) -> Vec<&str> {
    request.args.iter().map(|a| a.as_str()).collect()
}

fn kinds(asked: &[Request]) -> Vec<RequestKind> {
    asked.iter().map(|q| q.kind).collect()
}

fn is_probe(kind: RequestKind) -> bool {
    matches!(
        kind,
        RequestKind::PathExists
            | RequestKind::OpenRepo
            | RequestKind::Canonical
            | RequestKind::CommonDir
            | RequestKind::ListDir
            | RequestKind::ReadText
            | RequestKind::FindWorktree
    )
}

/// A repository at /repo that registers the worktree /wt/task under the
/// name `task`, beside a stale registration `gone`.
fn registered(q: &Request) -> Reply {
    match q.kind {
        RequestKind::Lock | RequestKind::Unlock | RequestKind::OpenRepo => Reply::Done,
        RequestKind::PathExists => Reply::Flag(
            q.target == "/wt/task"
                || q.target == "/repo/.git/worktrees/task/gitdir"
                || q.target == "/repo/.git/worktrees/gone/gitdir",
        ),
        RequestKind::Canonical => text(&q.target.replace("/link", "")),
        RequestKind::CommonDir => text("/repo/.git"),
        RequestKind::Workdir => text("/repo"),
        RequestKind::ListDir => Reply::Names(vec![
            "empty".to_string(),
            "gone".to_string(),
            "task".to_string(),
        ]),
        RequestKind::ReadText => {
            if q.target.contains("/gone/") {
                text("/wt/gone/.git\n")
            } else {
                text("/link/wt/task/.git\n")
            }
        }
        RequestKind::FindWorktree => Reply::Flag(has(q, "task")),
        _ => Reply::Done,
    }
}

#[test]
fn the_registration_is_found_by_its_back_link() {
    let (out, asked) = drive(
        |io| WorktreeManager::find_worktree_git_internal_name(io, "/repo", "/wt/task"),
        registered,
    );
    assert_eq!(out, Ok(Some("task".to_string())));
    let list = asked.iter().find(|q| q.kind == RequestKind::ListDir).unwrap();
    assert_eq!(list.target, "/repo/.git/worktrees");
    let read: Vec<&str> =
        asked.iter().filter(|q| q.kind == RequestKind::ReadText).map(|q| q.target.as_str()).collect();
    assert_eq!(read, ["/repo/.git/worktrees/gone/gitdir", "/repo/.git/worktrees/task/gitdir"]);
    let (out, _) = drive(
        |io| WorktreeManager::find_worktree_git_internal_name(io, "/repo", "/wt/other"),
        registered,
    );
    assert_eq!(out, Ok(None));
}

#[test]
fn a_missing_registration_directory_means_no_registration() {
    let world = |q: &Request| match q.kind {
        RequestKind::ListDir => failed("no such directory", true),
        _ => registered(q),
    };
    let (out, _) = drive(|io| WorktreeManager::find_worktree_git_internal_name(io, "/repo", "/wt"), world);
    assert_eq!(out, Ok(None));
    let unreadable = |q: &Request| match q.kind {
        RequestKind::ListDir => failed("permission denied", false),
        _ => registered(q),
    };
    let (out, _) = drive(
        |io| WorktreeManager::find_worktree_git_internal_name(io, "/repo", "/wt"),
        unreadable,
    );
    assert_eq!(
        out,
        Err(WorkspaceError::Repository(
            "Failed to read worktree metadata: permission denied".to_string()
        ))
    );
    let no_repo = |q: &Request| match q.kind {
        RequestKind::CommonDir => failed("not a repository", false),
        _ => registered(q),
    };
    let (out, _) = drive(|io| WorktreeManager::find_worktree_git_internal_name(io, "/repo", "/wt"), no_repo);
    assert_eq!(out, Err(WorkspaceError::Git("not a repository".to_string())));
}

#[test]
fn a_worktree_is_set_up_where_it_exists_and_is_registered() {
    let check = |wt: &'static str, world: &dyn Fn(&Request) -> Reply| {
        drive(|io| WorktreeManager::is_worktree_properly_set_up(io, "/repo", wt), world).0
    };
    assert_eq!(check("/wt/task", &registered), Ok(true));
    assert_eq!(check("/wt/absent", &registered), Ok(false));
    let unregistered = |q: &Request| match q.kind {
        RequestKind::PathExists if q.target == "/wt/loose" => Reply::Flag(true),
        _ => registered(q),
    };
    assert_eq!(check("/wt/loose", &unregistered), Ok(false));
    let unknown_to_git = |q: &Request| match q.kind {
        RequestKind::FindWorktree => Reply::Flag(false),
        _ => registered(q),
    };
    assert_eq!(check("/wt/task", &unknown_to_git), Ok(false));
    let no_repo = |q: &Request| match q.kind {
        RequestKind::OpenRepo => failed("cannot open", false),
        _ => registered(q),
    };
    assert_eq!(check("/wt/task", &no_repo), Err(WorkspaceError::Git("cannot open".to_string())));
}

#[test]
fn making_sure_of_a_worktree_that_is_set_up_changes_nothing() {
    let (out, asked) = drive(
        |io| WorktreeManager::ensure_worktree_exists(io, "/repo", "task", "/wt/task"),
        registered,
    );
    assert_eq!(out, Ok(()));
    assert_eq!(asked[0].kind, RequestKind::Canonical);
    assert_eq!(asked[1].kind, RequestKind::Lock);
    assert_eq!(asked[1].target, "/wt/task");
    assert_eq!(asked.last().unwrap().kind, RequestKind::Unlock);
    assert_eq!(asked.last().unwrap().target, "/wt/task");
    assert!(asked[2..asked.len() - 1].iter().all(|q| is_probe(q.kind)));
}

#[test]
fn the_lock_is_kept_under_the_canonical_path() {
    let (out, asked) = drive(
        |io| WorktreeManager::ensure_worktree_exists(io, "/repo", "task", "/link/wt/task"),
        |q| match q.kind {
            RequestKind::PathExists if q.target == "/link/wt/task" => Reply::Flag(true),
            _ => registered(q),
        },
    );
    assert_eq!(out, Ok(()));
    assert_eq!(asked[0].target, "/link/wt/task");
    assert_eq!((asked[1].kind, asked[1].target.as_str()), (RequestKind::Lock, "/wt/task"));
    let last = asked.last().unwrap();
    assert_eq!((last.kind, last.target.as_str()), (RequestKind::Unlock, "/wt/task"));
}

/// A repository at /repo in which nothing is registered and /wt/new does
/// not exist until `worktree add` has run `adds_needed` times.
fn fresh(adds_needed: usize) -> impl FnMut(&Request) -> Reply {
    let mut adds = 0;
    let mut removed = false;
    move |q: &Request| match q.kind {
        RequestKind::Lock | RequestKind::Unlock | RequestKind::OpenRepo => Reply::Done,
        RequestKind::PathExists => {
            Reply::Flag(q.target == "/wt/new" && (adds >= adds_needed || (adds > 0 && !removed)))
        }
        RequestKind::Canonical => failed("no such path", true),
        RequestKind::CommonDir => text("/repo/.git"),
        RequestKind::Workdir => text("/repo"),
        RequestKind::ListDir => failed("none", true),
        RequestKind::RemoveDirAll => {
            removed = true;
            Reply::Done
        }
        RequestKind::GitDirect if has(q, "add") => {
            adds += 1;
            if adds >= adds_needed {
                exit(0, "")
            } else {
                exit(128, "fatal: already registered")
            }
        }
        RequestKind::GitDirect => exit(1, "warning"),
        _ => Reply::Done,
    }
}

#[test]
fn a_missing_worktree_is_cleaned_up_and_created() {
    let (out, asked) = drive(
        |io| WorktreeManager::ensure_worktree_exists(io, "/repo", "task", "/wt/new"),
        fresh(1),
    );
    assert_eq!(out, Ok(()));
    let commands: Vec<Vec<&str>> =
        asked.iter().filter(|q| q.kind == RequestKind::GitDirect).map(args).collect();
    assert_eq!(
        commands,
        vec![
            vec!["-C", "/repo", "worktree", "remove", "--force", "/wt/new"],
            vec!["-C", "/repo", "worktree", "prune"],
            vec!["-C", "/repo", "worktree", "add", "/wt/new", "task"],
        ]
    );
    let made = asked.iter().find(|q| q.kind == RequestKind::CreateDirAll).unwrap();
    assert_eq!(made.target, "/wt");
    assert_eq!((asked[1].kind, asked[1].target.as_str()), (RequestKind::Lock, "/wt/new"));
    assert_eq!(asked.last().unwrap().kind, RequestKind::Unlock);
}

#[test]
fn creation_is_tried_exactly_once_more() {
    let (out, asked) = drive(
        |io| WorktreeManager::create_worktree_with_retry(io, "/repo", "task", "/wt/new"),
        fresh(2),
    );
    assert_eq!(out, Ok(()));
    assert_eq!(asked.iter().filter(|q| has(q, "add")).count(), 2);
    assert_eq!(asked.iter().filter(|q| q.kind == RequestKind::RemoveDirAll).count(), 1);
    let (out, asked) = drive(
        |io| WorktreeManager::create_worktree_with_retry(io, "/repo", "task", "/wt/new"),
        fresh(3),
    );
    assert_eq!(out, Err(WorkspaceError::Git("fatal: already registered".to_string())));
    assert_eq!(asked.iter().filter(|q| has(q, "add")).count(), 2);
}

#[test]
fn a_creation_that_leaves_no_directory_is_an_error() {
    let world = |q: &Request| match q.kind {
        RequestKind::PathExists => Reply::Flag(false),
        _ => exit(0, ""),
    };
    let (out, _) = drive(
        |io| WorktreeManager::create_worktree_with_retry(io, "/repo", "task", "/wt/new"),
        world,
    );
    assert_eq!(
        out,
        Err(WorkspaceError::Repository("Worktree creation failed: path does not exist".to_string()))
    );
}

#[test]
fn a_retry_stops_where_the_leftover_directory_cannot_be_removed() {
    let world = |q: &Request| match q.kind {
        RequestKind::PathExists => Reply::Flag(q.target == "/wt/new"),
        RequestKind::RemoveDirAll => failed("busy", false),
        RequestKind::GitDirect => exit(1, "no"),
        RequestKind::ListDir => failed("none", true),
        RequestKind::CommonDir => text("/repo/.git"),
        _ => failed("x", false),
    };
    let (out, asked) = drive(
        |io| WorktreeManager::create_worktree_with_retry(io, "/repo", "task", "/wt/new"),
        world,
    );
    assert_eq!(out, Err(WorkspaceError::Io("busy".to_string())));
    assert_eq!(asked.iter().filter(|q| has(q, "add")).count(), 1);
}

#[test]
fn cleanup_goes_on_past_failures_but_must_remove_the_directory() {
    let world = |q: &Request| match q.kind {
        RequestKind::Workdir => text("/repo"),
        RequestKind::PathExists => Reply::Flag(q.target == "/wt/task"),
        RequestKind::GitDirect => exit(1, "cannot"),
        RequestKind::CommonDir => failed("broken", false),
        RequestKind::Canonical => failed("x", false),
        RequestKind::RemoveDirAll => Reply::Done,
        _ => Reply::Done,
    };
    let (out, asked) = drive(|io| WorktreeManager::comprehensive_cleanup(io, "/repo", "/wt/task"), world);
    assert_eq!(out, Ok(()));
    assert_eq!(
        kinds(&asked),
        vec![
            RequestKind::Workdir,
            RequestKind::GitDirect,
            RequestKind::Canonical,
            RequestKind::CommonDir,
            RequestKind::PathExists,
            RequestKind::RemoveDirAll,
            RequestKind::GitDirect
        ]
    );
    let stuck = |q: &Request| match q.kind {
        RequestKind::RemoveDirAll => failed("in use", false),
        _ => world(q),
    };
    let (out, asked) = drive(|io| WorktreeManager::comprehensive_cleanup(io, "/repo", "/wt/task"), stuck);
    assert_eq!(out, Err(WorkspaceError::Io("in use".to_string())));
    assert!(asked.iter().all(|q| !has(q, "prune")));
    let bare = |q: &Request| match q.kind {
        RequestKind::Workdir => Reply::Absent,
        _ => world(q),
    };
    let (out, asked) = drive(|io| WorktreeManager::comprehensive_cleanup(io, "/repo", "/wt/task"), bare);
    assert_eq!(out, Ok(()));
    assert_eq!(args(&asked[1]), ["-C", "/repo", "worktree", "remove", "--force", "/wt/task"]);
    assert!(asked.iter().any(|q| q.kind == RequestKind::RemoveDirAll && q.target == "/wt/task"));
    assert_eq!(args(asked.last().unwrap()), ["-C", "/repo", "worktree", "prune"]);
}

#[test]
fn cleanup_of_a_bare_repository_fails_only_where_the_directory_stays() {
    let bare = |removal: Reply| {
        move |q: &Request| match q.kind {
            RequestKind::Workdir => Reply::Absent,
            RequestKind::PathExists => Reply::Flag(q.target == "/wt/task"),
            RequestKind::RemoveDirAll => removal.clone(),
            RequestKind::GitDirect => exit(128, "fatal"),
            RequestKind::CommonDir | RequestKind::Canonical => failed("broken", false),
            _ => Reply::Done,
        }
    };
    let cleanup = WorktreeCleanup::new("/wt/task".to_string(), Some("/srv/bare.git".to_string()));
    let (out, asked) = drive(|io| WorktreeManager::cleanup_worktree(io, &cleanup), bare(Reply::Done));
    assert_eq!(out, Ok(()));
    assert!(asked.iter().any(|q| q.kind == RequestKind::RemoveDirAll && q.target == "/wt/task"));
    assert_eq!(asked.last().unwrap().kind, RequestKind::Unlock);
    let (out, asked) = drive(
        |io| WorktreeManager::cleanup_worktree(io, &cleanup),
        bare(failed("in use", false)),
    );
    assert_eq!(out, Err(WorkspaceError::Io("in use".to_string())));
    assert_eq!(asked.last().unwrap().kind, RequestKind::Unlock);
}

#[test]
fn cleanup_removes_the_stale_registration() {
    let (out, asked) = drive(|io| WorktreeManager::force_cleanup_metadata(io, "/repo", "/wt/gone"), |q| {
        match q.kind {
            RequestKind::PathExists if q.target == "/repo/.git/worktrees/gone" => Reply::Flag(true),
            RequestKind::Canonical => text(&q.target),
            _ => registered(q),
        }
    });
    assert_eq!(out, Ok(()));
    let removed = asked.iter().find(|q| q.kind == RequestKind::RemoveDirAll).unwrap();
    assert_eq!(removed.target, "/repo/.git/worktrees/gone");
}

#[test]
fn cleanup_without_a_repository_only_removes_the_directory() {
    let world = |q: &Request| match q.kind {
        RequestKind::Lock | RequestKind::Unlock => Reply::Done,
        RequestKind::GitDirect => exit(128, "not a git repository"),
        RequestKind::PathExists => Reply::Flag(true),
        _ => Reply::Done,
    };
    let cleanup = WorktreeCleanup::new("/wt/loose".to_string(), None);
    let (out, asked) = drive(|io| WorktreeManager::cleanup_worktree(io, &cleanup), world);
    assert_eq!(out, Ok(()));
    assert_eq!(
        kinds(&asked),
        vec![
            RequestKind::Canonical,
            RequestKind::Lock,
            RequestKind::GitDirect,
            RequestKind::PathExists,
            RequestKind::RemoveDirAll,
            RequestKind::Unlock
        ]
    );
    assert_eq!(asked[2].target, "/wt/loose");
    assert_eq!(args(&asked[2]), ["rev-parse", "--git-common-dir"]);
    assert_eq!(asked[4].target, "/wt/loose");
}

#[test]
fn cleanup_infers_the_repository_from_the_worktree() {
    let world = |q: &Request| match q.kind {
        RequestKind::GitDirect if has(q, "--git-common-dir") => Reply::Exited {
            code: Some(0),
            stdout: b"/repo/.git\n".to_vec(),
            stderr: vec![],
        },
        RequestKind::OpenRepo => failed("gone", false),
        RequestKind::PathExists => Reply::Flag(false),
        _ => Reply::Done,
    };
    let cleanup = WorktreeCleanup::new("/wt/task".to_string(), None);
    let (out, asked) = drive(|io| WorktreeManager::cleanup_worktree(io, &cleanup), world);
    assert_eq!(out, Ok(()));
    let opened = asked.iter().find(|q| q.kind == RequestKind::OpenRepo).unwrap();
    assert_eq!(opened.target, "/repo");
    assert_eq!(repo_from_common_dir(&b"/repo/.git\n".to_vec()), Some("/repo".to_string()));
    assert_eq!(repo_from_common_dir(&b" /srv/bare.git \n".to_vec()), Some("/srv/bare.git".to_string()));
    assert_eq!(repo_from_common_dir(&b".git".to_vec()), Some("".to_string()));
    assert_eq!(repo_from_common_dir(&vec![0xff, 0xfe]), None);
}

#[test]
fn a_batch_goes_on_past_a_cleanup_that_fails() {
    let world = |q: &Request| match q.kind {
        RequestKind::OpenRepo => failed("no repo", false),
        RequestKind::PathExists => Reply::Flag(true),
        RequestKind::RemoveDirAll if q.target == "/wt/a" => failed("busy", false),
        _ => Reply::Done,
    };
    let cleanups = vec![
        WorktreeCleanup::new("/wt/a".to_string(), Some("/repo".to_string())),
        WorktreeCleanup::new("/wt/b".to_string(), Some("/repo".to_string())),
    ];
    let (out, asked) = drive(|io| WorktreeManager::batch_cleanup_worktrees(io, &cleanups), world);
    assert_eq!(out, Ok(()));
    let removed: Vec<&str> = asked
        .iter()
        .filter(|q| q.kind == RequestKind::RemoveDirAll)
        .map(|q| q.target.as_str())
        .collect();
    assert_eq!(removed, ["/wt/a", "/wt/b"]);
    let locks: Vec<(RequestKind, &str)> = asked
        .iter()
        .filter(|q| matches!(q.kind, RequestKind::Lock | RequestKind::Unlock))
        .map(|q| (q.kind, q.target.as_str()))
        .collect();
    assert_eq!(
        locks,
        [
            (RequestKind::Lock, "/wt/a"),
            (RequestKind::Unlock, "/wt/a"),
            (RequestKind::Lock, "/wt/b"),
            (RequestKind::Unlock, "/wt/b")
        ]
    );
    let (out, asked) = drive(|io| WorktreeManager::batch_cleanup_worktrees(io, &Vec::new()), world);
    assert_eq!(out, Ok(()));
    assert!(asked.is_empty());
}

#[test]
fn a_new_branch_is_created_under_the_lock_before_the_worktree() {
    let (out, asked) = drive(
        |io| WorktreeManager::create_worktree(io, "/repo", "task", "/wt/task", "main", true),
        registered,
    );
    assert_eq!(out, Ok(()));
    assert_eq!(asked[0].kind, RequestKind::Canonical);
    assert_eq!((asked[1].kind, asked[1].target.as_str()), (RequestKind::Lock, "/wt/task"));
    assert_eq!(asked[2].kind, RequestKind::CreateBranch);
    assert_eq!(args(&asked[2]), ["task", "main"]);
    assert_eq!(asked.last().unwrap().kind, RequestKind::Unlock);
    let (_, asked) = drive(
        |io| WorktreeManager::create_worktree(io, "/repo", "task", "/wt/task", "main", false),
        registered,
    );
    assert_eq!(asked[1].kind, RequestKind::Lock);
    assert!(asked.iter().all(|q| q.kind != RequestKind::CreateBranch));
    let refuse = |q: &Request| match q.kind {
        RequestKind::CreateBranch => failed("a branch named 'task' already exists", false),
        _ => registered(q),
    };
    let (out, asked) = drive(
        |io| WorktreeManager::create_worktree(io, "/repo", "task", "/wt/task", "main", true),
        refuse,
    );
    assert_eq!(out, Err(WorkspaceError::Git("a branch named 'task' already exists".to_string())));
    assert_eq!(
        kinds(&asked),
        vec![
            RequestKind::Canonical,
            RequestKind::Lock,
            RequestKind::CreateBranch,
            RequestKind::Unlock
        ]
    );
}

#[test]
fn the_managers_own_commands_report_their_error_output() {
    let (out, asked) = drive(
        |io| WorktreeManager::git_worktree_move(io, "/repo", "/a", "/b"),
        |_| exit(1, "locked"),
    );
    assert_eq!(out, Err(WorkspaceError::Git("locked".to_string())));
    assert_eq!(args(&asked[0]), ["-C", "/repo", "worktree", "move", "/a", "/b"]);
    let (out, _) = drive(
        |io| WorktreeManager::git_worktree_move(io, "/repo", "/a", "/b"),
        |_| failed("git: not found", true),
    );
    assert_eq!(out, Err(WorkspaceError::Io("git: not found".to_string())));
    let (out, asked) = drive(
        |io| WorktreeManager::move_worktree(io, "/repo", "/a", "/b"),
        |q| if q.kind == RequestKind::GitDirect { exit(0, "") } else { Reply::Done },
    );
    assert_eq!(out, Ok(()));
    assert_eq!(
        kinds(&asked),
        vec![RequestKind::Canonical, RequestKind::Lock, RequestKind::GitDirect, RequestKind::Unlock]
    );
    assert_eq!((asked[1].target.as_str(), asked[3].target.as_str()), ("/a", "/a"));
    let (out, asked) = drive(
        |io| WorktreeManager::git_worktree_add(io, "/repo", "/wt", "b", true),
        |_| exit(0, ""),
    );
    assert_eq!(out, Ok(()));
    assert_eq!(args(&asked[0]), ["-C", "/repo", "worktree", "add", "-b", "b", "/wt", "b"]);
    let (out, _) = drive(|io| WorktreeManager::git_worktree_remove(io, "/r", "/wt", false), |_| exit(1, "x"));
    assert_eq!(out, Ok(()));
    let (out, _) = drive(|io| WorktreeManager::git_worktree_prune(io, "/r"), |_| failed("spawn", false));
    assert_eq!(out, Err(WorkspaceError::Io("spawn".to_string())));
}

#[test]
fn the_base_directory_is_the_default_until_one_is_set() {
    let mut manager = WorktreeManager::new("/var/tmp/vibe-kanban/worktrees".to_string());
    assert_eq!(manager.get_worktree_base_dir(), "/var/tmp/vibe-kanban/worktrees");
    manager.set_workspace_dir_override("/custom".to_string());
    assert_eq!(manager.get_worktree_base_dir(), "/custom/.vibe-kanban-workspaces");
    manager.set_workspace_dir_override("/later".to_string());
    assert_eq!(manager.get_worktree_base_dir(), "/custom/.vibe-kanban-workspaces");
}

#[test]
fn the_default_directory_depends_on_the_system_and_the_build() {
    let dir = WorktreeManager::get_default_worktree_base_dir;
    assert_eq!(dir(false, HostOs::Linux, "/tmp"), "/var/tmp/vibe-kanban/worktrees");
    assert_eq!(dir(true, HostOs::Linux, "/tmp"), "/var/tmp/vibe-kanban-dev/worktrees");
    assert_eq!(dir(false, HostOs::Macos, "/private/tmp/"), "/private/tmp/vibe-kanban/worktrees");
    assert_eq!(dir(true, HostOs::Other, "/t"), "/t/vibe-kanban-dev/worktrees");
}

#[test]
fn errors_of_the_managers_have_their_texts() {
    assert_eq!(WorkspaceError::Git("g".to_string()).message(), "Git error: g");
    assert_eq!(WorkspaceError::Io("i".to_string()).message(), "IO error: i");
    assert_eq!(WorkspaceError::InvalidPath("p".to_string()).message(), "Invalid path: p");
    assert_eq!(WorkspaceError::Repository("r".to_string()).message(), "Repository error: r");
    assert_eq!(WorkspaceError::NoRepositories.message(), "No repositories provided");
    assert_eq!(WorkspaceError::PartialCreation("x".to_string()).message(), "Partial creation failed: x");
    assert_eq!(WorkspaceError::TaskJoin("j".to_string()).message(), "Task join error: j");
}
