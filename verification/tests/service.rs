use vibe_git::branch_ops::is_valid_branch_prefix;
use vibe_git::effects::{
    BlobFacts, BranchRecord, DeltaRecord, DeltaSide, DeltaStatus, Failure, Replay, Reply, Request,
    RequestKind,
};
use vibe_git::errors::{GitCliError, GitServiceError};
use vibe_git::git_service::{BranchType, GitService};
use vibe_git::types::{
    Commit, ConflictOp, DiffChangeKind, DiffTarget, GitRemote, HeadInfo, WorktreeResetOptions,
    WorktreeResetOutcome,
};

fn drive<T>(
    mut op: impl FnMut(&mut Replay) -> Result<T, Request>,
    mut world: impl FnMut(&Request) -> Reply,
) -> (T, Vec<Request>) {
    let mut log: Vec<Reply> = Vec::new();
    let mut asked: Vec<Request> = Vec::new();
    loop {
        let step = {
            let mut io = Replay::new(&log);
            op(&mut io)
        };
        match step {
            Ok(v) => return (v, asked),
            Err(request) => {
                log.push(world(&request));
                asked.push(request);
            }
        }
        assert!(asked.len() < 500);
    }
}

fn ok(stdout: &str) -> Reply {
    Reply::Exited { code: Some(0), stdout: stdout.as_bytes().to_vec(), stderr: Vec::new() }
}

fn fail(stderr: &str) -> Reply {
    Reply::Exited { code: Some(1), stdout: Vec::new(), stderr: stderr.as_bytes().to_vec() }
}

fn failed(message: &str) -> Reply {
    Reply::Failed(Failure { not_found: false, message: message.to_string() })
}

fn text(t: &str) -> Reply {
    Reply::Text(t.to_string())
}

fn has(q: &Request, word: &str) -> bool {
    q.args.iter().any(|a| a == word)
}

fn args(request: &Request) -> Vec<&str> {
    request.args.iter().map(|a| a.as_str()).collect()
}

fn kinds(asked: &[Request]) -> Vec<RequestKind> {
    asked.iter().map(|q| q.kind).collect()
}

fn invalid(m: &str) -> GitServiceError {
    GitServiceError::InvalidRepository(m.to_string())
}

#[test]
fn service_errors_have_their_texts() {
    assert_eq!(GitServiceError::Git("boom".to_string()).message(), "boom");
    assert_eq!(GitServiceError::GitCli(GitCliError::AuthFailed).message(), "authentication failed");
    assert_eq!(GitServiceError::IoError("io".to_string()).message(), "io");
    assert_eq!(invalid("x").message(), "Invalid repository: x");
    assert_eq!(GitServiceError::BranchNotFound("b".to_string()).message(), "Branch not found: b");
    assert_eq!(GitServiceError::MergeConflicts("c".to_string()).message(), "Merge conflicts: c");
    assert_eq!(GitServiceError::BranchesDiverged("d".to_string()).message(), "Branches diverged: d");
    assert_eq!(
        GitServiceError::WorktreeDirty("main".to_string(), "a, b".to_string()).message(),
        "main has uncommitted changes: a, b"
    );
    assert_eq!(GitServiceError::RebaseInProgress.message(), "Rebase in progress");
}

#[test]
fn commit_commits_only_where_there_are_changes() {
    let service = GitService::new();
    let (out, asked) = drive(|io| service.commit(io, "/wt", "msg"), |_| ok(""));
    assert_eq!(out, Ok(false));
    assert_eq!(asked.len(), 1);

    let world = |q: &Request| match q.kind {
        RequestKind::OpenRepo => Reply::Done,
        RequestKind::ConfigGet => text("someone"),
        _ if has(q, "status") => ok(" M a\n"),
        _ => ok(""),
    };
    let (out, asked) = drive(|io| service.commit(io, "/wt", "msg"), world);
    assert_eq!(out, Ok(true));
    assert_eq!(
        kinds(&asked),
        vec![
            RequestKind::Git,
            RequestKind::Git,
            RequestKind::OpenRepo,
            RequestKind::ConfigGet,
            RequestKind::ConfigGet,
            RequestKind::Git
        ]
    );
    assert_eq!(args(&asked[1]), ["-C", "/wt", "add", "-A"]);
    assert_eq!(args(&asked[5]), ["-C", "/wt", "commit", "-m", "msg"]);
}

#[test]
fn commit_names_the_step_that_failed() {
    let service = GitService::new();
    let (out, _) = drive(|io| service.commit(io, "/wt", "m"), |_| fail("bad"));
    assert_eq!(out, Err(invalid("git status failed: git command failed: bad")));
    let (out, _) = drive(
        |io| service.commit(io, "/wt", "m"),
        |q| if has(q, "status") { ok("x") } else { fail("nope") },
    );
    assert_eq!(out, Err(invalid("git add failed: git command failed: nope")));
    let world = |q: &Request| match q.kind {
        RequestKind::OpenRepo => Reply::Done,
        RequestKind::ConfigGet => text("x"),
        _ if has(q, "commit") => fail("hook"),
        _ => ok("x"),
    };
    let (out, _) = drive(|io| service.commit(io, "/wt", "m"), world);
    assert_eq!(out, Err(invalid("git commit failed: git command failed: hook")));
}

#[test]
fn a_missing_identity_is_filled_in() {
    let service = GitService::new();
    let world = |q: &Request| match q.kind {
        RequestKind::OpenRepo | RequestKind::ConfigSet => Reply::Done,
        RequestKind::ConfigGet if has(q, "user.name") => text("me"),
        RequestKind::ConfigGet => failed("not found"),
        _ => Reply::Absent,
    };
    let (out, asked) = drive(|io| service.ensure_cli_commit_identity(io, "/r"), world);
    assert_eq!(out, Ok(()));
    let sets: Vec<Vec<&str>> =
        asked.iter().filter(|q| q.kind == RequestKind::ConfigSet).map(args).collect();
    assert_eq!(sets, vec![vec!["user.name", "Vibe Git"], vec!["user.email", "noreply@vibegit.com"]]);
    let (out, asked) = drive(
        |io| service.ensure_cli_commit_identity(io, "/r"),
        |q| if q.kind == RequestKind::OpenRepo { Reply::Done } else { text("set") },
    );
    assert_eq!(out, Ok(()));
    assert!(asked.iter().all(|q| q.kind != RequestKind::ConfigSet));
    let (out, _) = drive(|io| service.ensure_cli_commit_identity(io, "/r"), |_| failed("no repo"));
    assert_eq!(out, Err(GitServiceError::Git("no repo".to_string())));
}

#[test]
fn head_info_names_the_branch_and_the_target() {
    let service = GitService::new();
    let world = |q: &Request| match q.kind {
        RequestKind::OpenRepo => Reply::Done,
        RequestKind::HeadName => text("main"),
        RequestKind::HeadTarget => text("abc123"),
        _ => Reply::Absent,
    };
    let (out, _) = drive(|io| service.get_head_info(io, "/r"), world);
    assert_eq!(out, Ok(HeadInfo { branch: "main".to_string(), oid: "abc123".to_string() }));
    let (out, _) = drive(|io| service.get_current_branch(io, "/r"), world);
    assert_eq!(out, "main");

    let detached = |q: &Request| match q.kind {
        RequestKind::OpenRepo => Reply::Done,
        RequestKind::HeadName => Reply::Absent,
        RequestKind::HeadTarget => text("abc"),
        _ => Reply::Absent,
    };
    let (out, _) = drive(|io| service.get_head_info(io, "/r"), detached);
    assert_eq!(out.unwrap().branch, "HEAD");

    let unborn = |q: &Request| match q.kind {
        RequestKind::OpenRepo => Reply::Done,
        RequestKind::HeadName => text("main"),
        _ => Reply::Absent,
    };
    let (out, _) = drive(|io| service.get_head_info(io, "/r"), unborn);
    assert_eq!(out, Err(invalid("Repository HEAD has no target")));
    let (out, _) = drive(|io| service.get_current_branch(io, "/r"), |_| failed("x"));
    assert_eq!(out, "");
}

#[test]
fn the_default_remote_is_the_push_default_or_the_first() {
    let service = GitService::new();
    let remotes = "origin\tu1 (fetch)\nfork\tu2 (fetch)\n";
    let world = |push_default: Reply| {
        move |q: &Request| match q.kind {
            RequestKind::OpenRepo => Reply::Done,
            RequestKind::ConfigGet => push_default.clone(),
            _ => ok(remotes),
        }
    };
    let (out, _) = drive(|io| service.get_default_remote(io, "/r"), world(text("fork")));
    assert_eq!(out, Ok(GitRemote { name: "fork".to_string(), url: "u2".to_string() }));
    let (out, _) = drive(|io| service.get_default_remote(io, "/r"), world(text("gone")));
    assert_eq!(out, Ok(GitRemote { name: "origin".to_string(), url: "u1".to_string() }));
    let (out, _) = drive(|io| service.get_default_remote(io, "/r"), world(failed("unset")));
    assert_eq!(out.unwrap().name, "origin");
    let (out, _) = drive(
        |io| service.get_default_remote(io, "/r"),
        |q| if q.kind == RequestKind::Git { ok("") } else { Reply::Done },
    );
    assert_eq!(out, Err(invalid("No remotes configured")));
    let (out, _) = drive(|io| service.list_remotes(io, "/r"), |_| ok(remotes));
    assert_eq!(
        out,
        Ok(vec![
            GitRemote { name: "origin".to_string(), url: "u1".to_string() },
            GitRemote { name: "fork".to_string(), url: "u2".to_string() }
        ])
    );
}

#[test]
fn the_first_marker_found_decides_the_conflict_operation() {
    let service = GitService::new();
    let world = |rebase: bool, merge: bool, pick: bool, revert: bool| {
        move |q: &Request| match q.kind {
            RequestKind::PathExists => Reply::Flag(rebase),
            _ if has(q, "--git-path") => ok("/g/dir\n"),
            _ if has(q, "MERGE_HEAD") => if merge { ok("x") } else { fail("") },
            _ if has(q, "CHERRY_PICK_HEAD") => if pick { ok("x") } else { fail("") },
            _ if has(q, "REVERT_HEAD") => if revert { ok("x") } else { fail("") },
            _ => ok(""),
        }
    };
    let detect = |w: &dyn Fn(&Request) -> Reply| drive(|io| service.detect_conflict_op(io, "/wt"), w).0;
    assert_eq!(detect(&world(true, true, true, true)), Ok(Some(ConflictOp::Rebase)));
    assert_eq!(detect(&world(false, true, true, true)), Ok(Some(ConflictOp::Merge)));
    assert_eq!(detect(&world(false, false, true, true)), Ok(Some(ConflictOp::CherryPick)));
    assert_eq!(detect(&world(false, false, false, true)), Ok(Some(ConflictOp::Revert)));
    assert_eq!(detect(&world(false, false, false, false)), Ok(None));
    assert_eq!(detect(&|_| Reply::Unavailable), Ok(None));
}

fn conflict_world(files: &'static str) -> impl Fn(&Request) -> Reply {
    move |q: &Request| match q.kind {
        RequestKind::PathExists => Reply::Flag(true),
        _ if has(q, "--git-path") => ok("/g/rebase-merge\n"),
        _ if has(q, "--diff-filter=U") => ok(files),
        _ => ok(""),
    }
}

#[test]
fn a_rebase_without_conflicted_files_is_quit_not_aborted() {
    let service = GitService::new();
    let (out, asked) = drive(|io| service.abort_conflicts(io, "/wt"), conflict_world(""));
    assert_eq!(out, Ok(()));
    assert_eq!(args(asked.last().unwrap()), ["-C", "/wt", "rebase", "--quit"]);
    assert!(asked.iter().all(|q| !has(q, "--abort")));
}

#[test]
fn a_rebase_with_conflicted_files_is_aborted() {
    let service = GitService::new();
    let (out, asked) = drive(|io| service.abort_conflicts(io, "/wt"), conflict_world("a.rs\n"));
    assert_eq!(out, Ok(()));
    assert_eq!(args(asked.last().unwrap()), ["-C", "/wt", "rebase", "--abort"]);
    assert!(asked.iter().all(|q| !has(q, "--quit")));
}

#[test]
fn other_operations_are_aborted_and_nothing_is_done_where_none_waits() {
    let service = GitService::new();
    let merge_waits = |q: &Request| match q.kind {
        RequestKind::PathExists => Reply::Flag(false),
        _ if has(q, "--git-path") => ok("/g/x\n"),
        _ if has(q, "--verify") && !has(q, "MERGE_HEAD") => fail(""),
        _ => ok("x"),
    };
    let (out, asked) = drive(|io| service.abort_conflicts(io, "/wt"), merge_waits);
    assert_eq!(out, Ok(()));
    assert_eq!(args(asked.last().unwrap()), ["-C", "/wt", "merge", "--abort"]);
    let idle = |q: &Request| match q.kind {
        RequestKind::PathExists => Reply::Flag(false),
        _ if has(q, "--git-path") => ok("/g/x\n"),
        _ => fail(""),
    };
    let (out, asked) = drive(|io| service.abort_conflicts(io, "/wt"), idle);
    assert_eq!(out, Ok(()));
    assert!(asked.iter().all(|q| !has(q, "--abort") && !has(q, "--quit")));
    let abort_fails = |q: &Request| match q.kind {
        RequestKind::PathExists => Reply::Flag(false),
        _ if has(q, "--git-path") => ok("/g/x\n"),
        _ if has(q, "--abort") => fail("stuck"),
        _ if has(q, "REVERT_HEAD") => ok("x"),
        _ => fail(""),
    };
    let (out, _) = drive(|io| service.abort_conflicts(io, "/wt"), abort_fails);
    assert_eq!(out, Err(invalid("git revert --abort failed: git command failed: stuck")));
}

fn status_world(ahead: usize, behind: usize) -> impl Fn(&Request) -> Reply {
    move |q: &Request| match q.kind {
        RequestKind::OpenRepo => Reply::Done,
        RequestKind::BranchRefName => text("refs/heads/x"),
        RequestKind::BranchTarget => text(if has(q, "task") { "aaa" } else { "bbb" }),
        RequestKind::AheadBehind => Reply::Counts(ahead, behind),
        RequestKind::ConfigGet => text("set"),
        RequestKind::GitResolved => Reply::Exited { code: Some(0), stdout: vec![], stderr: vec![] },
        _ if has(q, "list") => ok("worktree /base\nHEAD a\nbranch refs/heads/main\n\nworktree /task\nHEAD b\nbranch refs/heads/task\n"),
        _ if has(q, "rev-parse") => ok("squashed\n"),
        _ => ok(""),
    }
}

#[test]
fn branch_status_counts_between_the_two_targets() {
    let service = GitService::new();
    let (out, asked) = drive(|io| service.get_branch_status(io, "/r", "task", "main"), status_world(3, 1));
    assert_eq!(out, Ok((3, 1)));
    let last = asked.last().unwrap();
    assert_eq!(last.kind, RequestKind::AheadBehind);
    assert_eq!(args(last), ["aaa", "bbb"]);
    let no_target = |q: &Request| match q.kind {
        RequestKind::BranchTarget if has(q, "main") => Reply::Absent,
        _ => status_world(0, 0)(q),
    };
    let (out, _) = drive(|io| service.get_branch_status(io, "/r", "task", "main"), no_target);
    assert_eq!(out, Err(GitServiceError::BranchNotFound("Base branch not found".to_string())));
    let missing = |q: &Request| match q.kind {
        RequestKind::BranchRefName => failed("no such branch"),
        _ => status_world(0, 0)(q),
    };
    let (out, _) = drive(|io| service.get_branch_status(io, "/r", "task", "main"), missing);
    assert_eq!(out, Err(GitServiceError::Git("no such branch".to_string())));
}

#[test]
fn a_merge_of_a_branch_that_is_behind_is_refused_before_anything_changes() {
    let service = GitService::new();
    let (out, asked) = drive(
        |io| service.merge_changes(io, "/base", "/task", "task", "main", "Squash"),
        status_world(4, 2),
    );
    assert_eq!(
        out,
        Err(GitServiceError::BranchesDiverged(
            "Cannot merge: base is 2 commits ahead of task".to_string()
        ))
    );
    assert!(asked.iter().all(|q| matches!(
        q.kind,
        RequestKind::OpenRepo
            | RequestKind::BranchRefName
            | RequestKind::BranchTarget
            | RequestKind::AheadBehind
    )));
}

#[test]
fn a_merge_squashes_in_the_worktree_of_the_base_and_moves_the_task_branch() {
    let service = GitService::new();
    let (out, asked) = drive(
        |io| service.merge_changes(io, "/base", "/task", "task", "main", "Squash"),
        status_world(4, 0),
    );
    assert_eq!(out, Ok("squashed".to_string()));
    let commands: Vec<Vec<&str>> =
        asked.iter().filter(|q| q.kind == RequestKind::Git).map(args).collect();
    assert_eq!(
        commands,
        vec![
            vec!["-C", "/base", "worktree", "list", "--porcelain"],
            vec!["-C", "/base", "checkout", "main"],
            vec!["-C", "/base", "merge", "--squash", "--no-commit", "task"],
            vec!["-C", "/base", "commit", "-m", "Squash"],
            vec!["-C", "/base", "rev-parse", "HEAD"],
            vec!["-C", "/base", "update-ref", "refs/heads/task", "squashed"],
        ]
    );
}

#[test]
fn a_merge_needs_the_base_checked_out_and_nothing_staged() {
    let service = GitService::new();
    let nowhere = |q: &Request| {
        if has(q, "list") {
            ok("worktree /task\nHEAD b\nbranch refs/heads/task\n")
        } else {
            status_world(1, 0)(q)
        }
    };
    let (out, _) = drive(|io| service.merge_changes(io, "/b", "/t", "task", "main", "m"), nowhere);
    assert_eq!(out, Err(invalid("Base branch not checked out")));
    let staged = |q: &Request| match q.kind {
        RequestKind::GitResolved => Reply::Exited { code: Some(1), stdout: vec![], stderr: vec![] },
        _ => status_world(1, 0)(q),
    };
    let (out, asked) = drive(|io| service.merge_changes(io, "/b", "/t", "task", "main", "m"), staged);
    assert_eq!(
        out,
        Err(GitServiceError::WorktreeDirty("main".to_string(), "has staged changes".to_string()))
    );
    assert!(asked.iter().all(|q| !has(q, "checkout")));
    let merge_fails = |q: &Request| {
        if has(q, "--squash") { fail("CONFLICT") } else { status_world(1, 0)(q) }
    };
    let (out, _) = drive(|io| service.merge_changes(io, "/b", "/t", "task", "main", "m"), merge_fails);
    assert_eq!(out, Err(invalid("CLI merge failed: git command failed: CONFLICT")));
}

fn clean_world(q: &Request) -> Reply {
    match q.kind {
        RequestKind::OpenRepo => Reply::Done,
        RequestKind::DirtyPaths => Reply::Names(vec![]),
        RequestKind::PathExists => Reply::Flag(false),
        RequestKind::ConfigGet => text("set"),
        RequestKind::HeadCommit => text("newhead"),
        RequestKind::HeadName => text("task"),
        RequestKind::BranchRefName => text("refs/heads/task"),
        RequestKind::BranchIsRemote => Reply::Flag(false),
        RequestKind::BranchTarget => text("tip"),
        RequestKind::SetReference | RequestKind::SetUpstream => Reply::Done,
        _ if has(q, "--git-path") => ok("/g/x\n"),
        _ if has(q, "merge-base") => ok("fork\n"),
        _ if has(q, "-v") => ok("origin\thttps://o (fetch)\n"),
        _ => ok(""),
    }
}

#[test]
fn a_rebase_returns_the_new_head() {
    let service = GitService::new();
    let (out, asked) = drive(|io| service.rebase_branch(io, "/r", "/wt", "new", "old", "task"), clean_world);
    assert_eq!(out, Ok("newhead".to_string()));
    assert!(asked.iter().any(|q| args(q) == ["-C", "/wt", "rebase", "--onto", "new", "fork", "task"]));
}

#[test]
fn a_rebase_needs_a_clean_worktree_and_no_rebase_under_way() {
    let service = GitService::new();
    let dirty = |q: &Request| match q.kind {
        RequestKind::DirtyPaths => Reply::Names(vec!["a.rs".to_string(), "b.rs".to_string()]),
        _ => clean_world(q),
    };
    let (out, asked) = drive(|io| service.rebase_branch(io, "/r", "/wt", "n", "o", "t"), dirty);
    assert_eq!(out, Err(GitServiceError::WorktreeDirty("task".to_string(), "a.rs, b.rs".to_string())));
    assert!(asked.iter().all(|q| q.kind != RequestKind::Git));
    let busy = |q: &Request| match q.kind {
        RequestKind::PathExists => Reply::Flag(true),
        _ => clean_world(q),
    };
    let (out, asked) = drive(|io| service.rebase_branch(io, "/r", "/wt", "n", "o", "t"), busy);
    assert_eq!(out, Err(GitServiceError::RebaseInProgress));
    assert!(asked.iter().all(|q| !has(q, "--onto")));
}

#[test]
fn a_rebase_that_stops_on_conflicts_says_so() {
    let service = GitService::new();
    let conflict = |q: &Request| {
        if has(q, "--onto") { fail("CONFLICT (content): Merge conflict in a.rs") } else { clean_world(q) }
    };
    let (out, _) = drive(|io| service.rebase_branch(io, "/r", "/wt", "n", "o", "t"), conflict);
    assert_eq!(out, Err(GitServiceError::MergeConflicts("Rebase conflict".to_string())));
    let other = |q: &Request| if has(q, "--onto") { fail("fatal: bad") } else { clean_world(q) };
    let (out, _) = drive(|io| service.rebase_branch(io, "/r", "/wt", "n", "o", "t"), other);
    assert_eq!(out, Err(invalid("git rebase failed: git command failed: fatal: bad")));
}

#[test]
fn a_push_updates_the_remote_tracking_reference_and_the_upstream() {
    let service = GitService::new();
    let (out, asked) = drive(|io| service.push_to_remote(io, "/wt", "task", true), clean_world);
    assert_eq!(out, Ok(()));
    let push = asked.iter().find(|q| has(q, "push")).unwrap();
    assert_eq!(args(push), ["-C", "/wt", "push", "https://o", "+refs/heads/task:refs/heads/task"]);
    assert!(push.no_prompt);
    let set_ref = asked.iter().find(|q| q.kind == RequestKind::SetReference).unwrap();
    assert_eq!(args(set_ref), ["refs/remotes/origin/task", "tip", "update remote-tracking"]);
    let upstream = asked.iter().find(|q| q.kind == RequestKind::SetUpstream).unwrap();
    assert_eq!(args(upstream), ["task", "origin/task"]);
}

#[test]
fn a_push_that_is_rejected_updates_nothing() {
    let service = GitService::new();
    let rejected = |q: &Request| if has(q, "push") { fail("rejected") } else { clean_world(q) };
    let (out, asked) = drive(|io| service.push_to_remote(io, "/wt", "task", false), rejected);
    assert_eq!(out, Err(GitServiceError::GitCli(GitCliError::PushRejected)));
    assert!(asked.iter().all(|q| q.kind != RequestKind::SetReference && q.kind != RequestKind::SetUpstream));
    let dirty = |q: &Request| match q.kind {
        RequestKind::DirtyPaths => Reply::Names(vec!["x".to_string()]),
        _ => clean_world(q),
    };
    let (out, asked) = drive(|io| service.push_to_remote(io, "/wt", "task", false), dirty);
    assert!(matches!(out, Err(GitServiceError::WorktreeDirty(_, _))));
    assert!(asked.iter().all(|q| !has(q, "push")));
}

#[test]
fn reconciling_resets_only_where_needed_and_allowed() {
    let service = GitService::new();
    let at = |head: &'static str| {
        move |q: &Request| match q.kind {
            RequestKind::HeadTarget => text(head),
            _ => clean_world(q),
        }
    };
    let run = |head: &'static str, options: WorktreeResetOptions| {
        drive(|io| service.reconcile_worktree_to_commit(io, "/wt", "want", options), at(head))
    };
    let (out, asked) = run("want", WorktreeResetOptions::new(true, false, false, false));
    assert_eq!(out, WorktreeResetOutcome { needed: false, applied: false });
    assert!(asked.iter().all(|q| !has(q, "reset")));
    let (out, asked) = run("other", WorktreeResetOptions::new(true, false, false, false));
    assert_eq!(out, WorktreeResetOutcome { needed: true, applied: true });
    assert!(asked.iter().any(|q| args(q) == ["-C", "/wt", "reset", "--hard", "want"]));
    let (out, _) = run("other", WorktreeResetOptions::new(false, true, false, false));
    assert_eq!(out, WorktreeResetOutcome { needed: true, applied: false });
    let (out, asked) = run("want", WorktreeResetOptions::new(true, false, true, true));
    assert_eq!(out, WorktreeResetOutcome { needed: true, applied: false });
    assert!(asked.iter().all(|q| !has(q, "reset")));
    let (out, asked) = run("want", WorktreeResetOptions::new(true, true, true, false));
    assert_eq!(out, WorktreeResetOutcome { needed: true, applied: true });
    assert!(asked.iter().all(|q| q.kind != RequestKind::DirtyPaths));
    assert_eq!(WorktreeResetOutcome::default(), WorktreeResetOutcome { needed: false, applied: false });
}

#[test]
fn a_reset_without_force_leaves_a_dirty_worktree_alone() {
    let service = GitService::new();
    let dirty = |q: &Request| match q.kind {
        RequestKind::DirtyPaths => Reply::Names(vec!["x".to_string()]),
        _ => clean_world(q),
    };
    let (out, asked) = drive(|io| service.reset_worktree_to_commit(io, "/wt", "abc", false), dirty);
    assert_eq!(out, Err(GitServiceError::WorktreeDirty("task".to_string(), "x".to_string())));
    assert!(asked.iter().all(|q| !has(q, "reset")));
    let (out, _) = drive(|io| service.is_worktree_clean(io, "/wt"), dirty);
    assert_eq!(out, Ok(false));
    let (out, _) = drive(|io| service.is_worktree_clean(io, "/wt"), clean_world);
    assert_eq!(out, Ok(true));
    let (out, _) = drive(|io| service.is_worktree_clean(io, "/wt"), |_| failed("gone"));
    assert_eq!(out, Ok(false));
}

#[test]
fn wrapped_commands_report_invalid_repositories() {
    let service = GitService::new();
    let broken = |q: &Request| if q.kind == RequestKind::ProbeGit { Reply::Flag(true) } else { fail("bad") };
    let expected = Err(invalid("git command failed: bad"));
    assert_eq!(drive(|io| service.add_worktree(io, "/r", "/w", "b", true), broken).0, expected);
    assert_eq!(drive(|io| service.remove_worktree(io, "/r", "/w", true), broken).0, expected);
    assert_eq!(drive(|io| service.prune_worktrees(io, "/r"), broken).0, expected);
    assert_eq!(drive(|io| service.move_worktree(io, "/r", "/a", "/b"), broken).0, expected);
    assert_eq!(drive(|io| service.delete_branch(io, "/r", "b"), broken).0, expected);
    assert_eq!(
        drive(|io| service.get_worktree_status(io, "/w"), broken).0.unwrap_err(),
        invalid("git status failed: git command failed: bad")
    );
    assert_eq!(
        drive(|io| service.get_conflicted_files(io, "/w"), broken).0,
        Err(invalid("git diff failed: git command failed: bad"))
    );
    assert_eq!(
        drive(|io| service.is_rebase_in_progress(io, "/w"), broken).0,
        Err(invalid("git rebase state check failed: git command failed: bad"))
    );
    let cli_error = Err(GitServiceError::GitCli(GitCliError::CommandFailed("bad".to_string())));
    assert_eq!(drive(|io| service.get_remote_url(io, "/r", "o"), broken).0, cli_error);
    assert_eq!(drive(|io| service.get_fork_point(io, "/w", "a", "b"), broken).0, cli_error);
    assert_eq!(
        drive(|io| service.fetch_branch(io, "/r", "u", "b"), broken).0,
        Err(GitServiceError::GitCli(GitCliError::AuthFailed))
    );
    assert_eq!(
        drive(|io| service.check_remote_branch_exists(io, "/r", "u", "b"), broken).0,
        Err(GitServiceError::GitCli(GitCliError::AuthFailed))
    );
}

#[test]
fn change_counts_come_from_the_status() {
    let service = GitService::new();
    let (out, _) = drive(
        |io| service.get_worktree_change_counts(io, "/w"),
        |_| ok(" M a\0?? b\0?? c\0"),
    );
    assert_eq!(out, Ok((1, 2)));
    let (out, asked) = drive(|io| service.fetch_branch(io, "/r", "https://u", "dev"), |_| ok(""));
    assert_eq!(out, Ok(()));
    assert_eq!(args(&asked[0]), ["-C", "/r", "fetch", "https://u", "+refs/heads/dev:refs/heads/dev"]);
}

#[test]
fn branches_are_found_local_before_remote() {
    let service = GitService::new();
    let world = |local: bool, remote: bool| {
        move |q: &Request| match q.kind {
            RequestKind::OpenRepo => Reply::Done,
            RequestKind::LocalBranchExists => Reply::Flag(local),
            RequestKind::RemoteBranchExists => Reply::Flag(remote),
            _ => Reply::Absent,
        }
    };
    assert_eq!(drive(|io| service.find_branch_type(io, "/r", "b"), world(true, true)).0, Ok(BranchType::Local));
    assert_eq!(drive(|io| service.find_branch_type(io, "/r", "b"), world(false, true)).0, Ok(BranchType::Remote));
    assert_eq!(
        drive(|io| service.find_branch_type(io, "/r", "b"), world(false, false)).0,
        Err(GitServiceError::BranchNotFound("b".to_string()))
    );
    assert_eq!(drive(|io| service.check_branch_exists(io, "/r", "b"), world(false, true)).0, Ok(true));
    assert_eq!(drive(|io| service.check_branch_exists(io, "/r", "b"), world(false, false)).0, Ok(false));
}

#[test]
fn branch_names_are_checked_by_the_object_graph_library() {
    let service = GitService::new();
    assert!(service.is_branch_name_valid("feature/login"));
    assert!(service.is_branch_name_valid("main"));
    assert!(!service.is_branch_name_valid("bad..name"));
    assert!(!service.is_branch_name_valid("with space"));
    assert!(!service.is_branch_name_valid(""));
    assert!(!service.is_branch_name_valid("nul\0inside"));
    assert!(is_valid_branch_prefix(""));
    assert!(is_valid_branch_prefix("team"));
    assert!(!is_valid_branch_prefix("team/sub"));
    assert!(!is_valid_branch_prefix("bad..prefix"));
    assert!(!is_valid_branch_prefix("-"));
}

#[test]
fn object_ids_are_parsed_before_they_are_used() {
    let service = GitService::new();
    let world = |q: &Request| match q.kind {
        RequestKind::OpenRepo => Reply::Done,
        RequestKind::CommitSummary => text("Fix the thing"),
        RequestKind::AheadBehind => Reply::Counts(1, 2),
        _ => Reply::Absent,
    };
    let (out, asked) = drive(|io| service.get_commit_subject(io, "/r", "ABCDEF12"), world);
    assert_eq!(out, Ok("Fix the thing".to_string()));
    assert_eq!(args(&asked[1]), ["abcdef1200000000000000000000000000000000"]);
    let (out, asked) = drive(|io| service.get_commit_subject(io, "/r", "not hex"), world);
    assert!(matches!(out, Err(GitServiceError::Git(_))));
    assert_eq!(asked.len(), 1);
    let (out, _) = drive(|io| service.get_commit_subject(io, "/r", ""), world);
    assert!(matches!(out, Err(GitServiceError::Git(_))));
    let no_summary = |q: &Request| if q.kind == RequestKind::OpenRepo { Reply::Done } else { Reply::Absent };
    let (out, _) = drive(|io| service.get_commit_subject(io, "/r", "abc1"), no_summary);
    assert_eq!(out, Ok("(no subject)".to_string()));
    let (out, _) = drive(|io| service.ahead_behind_commits_by_oid(io, "/r", "a1", "b2"), world);
    assert_eq!(out, Ok((1, 2)));
    let (out, _) = drive(|io| service.ahead_behind_commits_by_oid(io, "/r", "a1", "zz"), world);
    assert!(matches!(out, Err(GitServiceError::Git(_))));
}

#[test]
fn a_branch_is_renamed_and_head_follows() {
    let service = GitService::new();
    let world = |q: &Request| match q.kind {
        RequestKind::LocalBranchExists => Reply::Flag(true),
        _ => Reply::Done,
    };
    let (out, asked) = drive(|io| service.rename_local_branch(io, "/wt", "old", "new"), world);
    assert_eq!(out, Ok(()));
    assert_eq!(args(&asked[2]), ["old", "new"]);
    assert_eq!(asked[3].kind, RequestKind::SetHead);
    assert_eq!(args(&asked[3]), ["refs/heads/new"]);
    let absent = |q: &Request| match q.kind {
        RequestKind::LocalBranchExists => Reply::Flag(false),
        _ => Reply::Done,
    };
    let (out, asked) = drive(|io| service.rename_local_branch(io, "/wt", "old", "new"), absent);
    assert_eq!(out, Err(GitServiceError::BranchNotFound("old".to_string())));
    assert!(asked.iter().all(|q| q.kind != RequestKind::RenameBranch));
}

#[test]
fn the_base_commit_is_the_merge_base_of_the_two_tips() {
    let service = GitService::new();
    let world = |q: &Request| match q.kind {
        RequestKind::OpenRepo => Reply::Done,
        RequestKind::BranchCommit => text(if has(q, "task") { "t1" } else { "m1" }),
        RequestKind::MergeBase => text("base"),
        _ => Reply::Absent,
    };
    let (out, asked) = drive(|io| service.get_base_commit(io, "/r", "task", "main"), world);
    assert_eq!(out, Ok(Commit::new("base".to_string())));
    assert_eq!(args(asked.last().unwrap()), ["t1", "m1"]);
    assert_eq!(out.unwrap().as_oid(), "base");
    let (out, _) = drive(|io| service.get_branch_oid(io, "/r", "task"), world);
    assert_eq!(out, Ok("t1".to_string()));
}

fn delta(path: &str) -> DeltaRecord {
    DeltaRecord {
        status: DeltaStatus::Added,
        old_file: DeltaSide { id_zero: true, path: None, blob: None },
        new_file: DeltaSide {
            id_zero: false,
            path: Some(path.to_string()),
            blob: Some(BlobFacts { binary: false, size: 2, text: Some("hi".to_string()) }),
        },
        line_stats: Some((1, 0)),
    }
}

fn diff_world(q: &Request) -> Reply {
    match q.kind {
        RequestKind::OpenRepo | RequestKind::FindCommit | RequestKind::CommitTree => Reply::Done,
        RequestKind::HeadCommit => text("head"),
        RequestKind::BranchCommit => text(if has(q, "task") { "t1" } else { "m1" }),
        RequestKind::CommitParent => text("parent"),
        RequestKind::TreeDiff => Reply::Deltas(vec![delta("a.txt")]),
        _ => Reply::Absent,
    }
}

#[test]
fn diffs_compare_the_right_trees() {
    let service = GitService::new();
    let filter = vec!["src".to_string(), "docs".to_string()];
    let target = DiffTarget::Worktree {
        worktree_path: "/wt".to_string(),
        base_commit: Commit::new("base".to_string()),
    };
    let (out, asked) = drive(|io| service.get_diffs(io, &target, Some(&filter)), diff_world);
    let diffs = out.unwrap();
    assert_eq!(diffs.len(), 1);
    assert_eq!(diffs[0].change, DiffChangeKind::Added);
    assert_eq!(diffs[0].new_content, Some("hi".to_string()));
    assert_eq!(args(asked.last().unwrap()), ["base", "head", "src", "docs"]);

    let target = DiffTarget::Branch {
        repo_path: "/r".to_string(),
        branch_name: "task".to_string(),
        base_branch: "main".to_string(),
    };
    let (_, asked) = drive(|io| service.get_diffs(io, &target, None), diff_world);
    assert_eq!(args(asked.last().unwrap()), ["m1", "t1"]);

    let target = DiffTarget::Commit { repo_path: "/r".to_string(), commit_sha: "abcd".to_string() };
    let (_, asked) = drive(|io| service.get_diffs(io, &target, None), diff_world);
    assert_eq!(args(asked.last().unwrap()), ["parent", "abcd000000000000000000000000000000000000"]);
}

#[test]
fn diffs_report_what_is_missing() {
    let service = GitService::new();
    let target = DiffTarget::Commit { repo_path: "/r".to_string(), commit_sha: "xyz".to_string() };
    let (out, _) = drive(|io| service.get_diffs(io, &target, None), diff_world);
    assert_eq!(out, Err(invalid("Invalid commit SHA: xyz")));
    let root = |q: &Request| match q.kind {
        RequestKind::CommitParent => failed("no parent"),
        _ => diff_world(q),
    };
    let target = DiffTarget::Commit { repo_path: "/r".to_string(), commit_sha: "ab".to_string() };
    let (out, _) = drive(|io| service.get_diffs(io, &target, None), root);
    assert_eq!(out, Err(invalid("Commit has no parent")));
    let no_tree = |q: &Request| match q.kind {
        RequestKind::CommitTree => failed("corrupt"),
        _ => diff_world(q),
    };
    let target = DiffTarget::Worktree {
        worktree_path: "/wt".to_string(),
        base_commit: Commit::new("base".to_string()),
    };
    let (out, _) = drive(|io| service.get_diffs(io, &target, None), no_tree);
    assert_eq!(out, Err(invalid("Failed to find base commit tree: corrupt")));
    let broken = |q: &Request| match q.kind {
        RequestKind::TreeDiff => failed("odb"),
        _ => diff_world(q),
    };
    let (out, _) = drive(|io| service.get_diffs(io, &target, None), broken);
    assert_eq!(out, Err(GitServiceError::Git("odb".to_string())));
}

#[test]
fn a_new_repository_gets_main_and_a_first_commit() {
    let service = GitService::new();
    let world = |q: &Request| match q.kind {
        RequestKind::PathExists => Reply::Flag(false),
        RequestKind::DefaultSignature => failed("no identity"),
        _ => Reply::Done,
    };
    let (out, asked) = drive(|io| service.initialize_repo_with_main_branch(io, "/new"), world);
    assert_eq!(out, Ok(()));
    assert_eq!(
        kinds(&asked),
        vec![
            RequestKind::PathExists,
            RequestKind::CreateDirAll,
            RequestKind::InitRepo,
            RequestKind::DefaultSignature,
            RequestKind::InitialCommit,
            RequestKind::SetHead
        ]
    );
    assert_eq!(args(&asked[2]), ["main"]);
    assert_eq!(args(&asked[4]), ["refs/heads/main", "Vibe Git", "noreply@vibegit.com", "Initial commit"]);
    assert_eq!(args(&asked[5]), ["refs/heads/main"]);
    let configured = |q: &Request| match q.kind {
        RequestKind::PathExists => Reply::Flag(true),
        RequestKind::DefaultSignature => Reply::Names(vec!["Me".to_string(), "me@x".to_string()]),
        _ => Reply::Done,
    };
    let (_, asked) = drive(|io| service.initialize_repo_with_main_branch(io, "/new"), configured);
    assert!(asked.iter().all(|q| q.kind != RequestKind::CreateDirAll));
    assert_eq!(args(&asked[3]), ["refs/heads/main", "Me", "me@x", "Initial commit"]);
    let no_dir = |q: &Request| match q.kind {
        RequestKind::PathExists => Reply::Flag(false),
        _ => failed("read-only"),
    };
    let (out, _) = drive(|io| service.initialize_repo_with_main_branch(io, "/new"), no_dir);
    assert_eq!(out, Err(GitServiceError::IoError("read-only".to_string())));
}

#[test]
fn a_repository_without_branches_gets_its_first_commit() {
    let service = GitService::new();
    let with = |count: usize| {
        move |q: &Request| match q.kind {
            RequestKind::CountBranches => Reply::Counts(count, 0),
            _ => Reply::Done,
        }
    };
    let (out, asked) = drive(|io| service.ensure_main_branch_exists(io, "/r"), with(0));
    assert_eq!(out, Ok(()));
    assert!(asked.iter().any(|q| q.kind == RequestKind::InitialCommit));
    let (out, asked) = drive(|io| service.ensure_main_branch_exists(io, "/r"), with(2));
    assert_eq!(out, Ok(()));
    assert!(asked.iter().all(|q| q.kind != RequestKind::InitialCommit));
}

fn remote_world(q: &Request) -> Reply {
    match q.kind {
        RequestKind::OpenRepo => Reply::Done,
        RequestKind::BranchRefName => text("refs/remotes/up/main"),
        RequestKind::UpstreamRefName => text("refs/remotes/origin/task"),
        RequestKind::BranchTarget => text(if has(q, "task") { "local" } else { "basetip" }),
        RequestKind::UpstreamTarget => text("uptip"),
        RequestKind::BranchRemoteName => text(if has(q, "refs/remotes/up/main") { "up" } else { "origin" }),
        RequestKind::RemoteName => text("held"),
        RequestKind::RemoteUrl => text("https://remote"),
        RequestKind::AheadBehind => Reply::Counts(2, 5),
        RequestKind::ConfigGet => failed("unset"),
        _ if has(q, "-v") => ok("origin\thttps://o (fetch)\n"),
        _ => ok(""),
    }
}

#[test]
fn remote_status_fetches_from_the_remote_of_the_base() {
    let service = GitService::new();
    let (out, asked) = drive(
        |io| service.get_remote_branch_status(io, "/r", "task", Some("up/main")),
        remote_world,
    );
    assert_eq!(out, Ok((2, 5)));
    let fetch = asked.iter().find(|q| has(q, "fetch")).unwrap();
    assert_eq!(args(fetch), ["-C", "/r", "fetch", "https://remote", "+refs/heads/*:refs/remotes/up/*"]);
    assert_eq!(args(asked.last().unwrap()), ["local", "basetip"]);
    let (out, asked) = drive(|io| service.get_remote_branch_status(io, "/r", "task", None), remote_world);
    assert_eq!(out, Ok((2, 5)));
    let fetch = asked.iter().find(|q| has(q, "fetch")).unwrap();
    assert_eq!(args(fetch)[4], "+refs/heads/*:refs/remotes/origin/*");
    assert_eq!(args(asked.last().unwrap()), ["local", "uptip"]);
}

#[test]
fn remote_status_reports_what_is_missing() {
    let service = GitService::new();
    let no_url = |q: &Request| match q.kind {
        RequestKind::RemoteUrl => Reply::Absent,
        _ => remote_world(q),
    };
    let (out, _) = drive(|io| service.get_remote_branch_status(io, "/r", "task", None), no_url);
    assert_eq!(out, Err(invalid("Remote has no URL")));
    let no_remote = |q: &Request| match q.kind {
        RequestKind::RemoteUrl => failed("x"),
        _ => remote_world(q),
    };
    let (out, _) = drive(|io| service.get_remote_branch_status(io, "/r", "task", None), no_remote);
    assert_eq!(out, Err(invalid("Remote not found: origin")));
    let no_ref = |q: &Request| match q.kind {
        RequestKind::UpstreamRefName => Reply::Absent,
        _ => remote_world(q),
    };
    let (out, _) = drive(|io| service.get_remote_branch_status(io, "/r", "task", None), no_ref);
    assert_eq!(out, Err(invalid("Invalid branch ref")));
    let denied = |q: &Request| if has(q, "fetch") { fail("denied") } else { remote_world(q) };
    let (out, asked) = drive(|io| service.get_remote_branch_status(io, "/r", "task", None), denied);
    assert_eq!(out, Err(GitServiceError::GitCli(GitCliError::AuthFailed)));
    assert!(asked.iter().all(|q| q.kind != RequestKind::AheadBehind));
    let no_target = |q: &Request| match q.kind {
        RequestKind::UpstreamTarget => Reply::Absent,
        _ => remote_world(q),
    };
    let (out, _) = drive(|io| service.get_remote_branch_status(io, "/r", "task", None), no_target);
    assert_eq!(out, Err(GitServiceError::BranchNotFound("Base branch not found".to_string())));
}

#[test]
fn the_remote_of_a_branch_is_resolved_or_the_default_taken() {
    let service = GitService::new();
    let (out, _) = drive(|io| service.get_remote_from_branch_name(io, "/r", "up/main"), remote_world);
    assert_eq!(out, Ok(GitRemote { name: "held".to_string(), url: "https://remote".to_string() }));
    let unknown = |q: &Request| match q.kind {
        RequestKind::BranchRemoteName => failed("no remote"),
        _ => remote_world(q),
    };
    let (out, _) = drive(|io| service.get_remote_from_branch_name(io, "/r", "x"), unknown);
    assert_eq!(out, Err(GitServiceError::Git("no remote".to_string())));
    let (out, _) = drive(|io| service.resolve_remote_for_branch(io, "/r", "x"), unknown);
    assert_eq!(out, Ok(GitRemote { name: "origin".to_string(), url: "https://o".to_string() }));
    let nameless = |q: &Request| match q.kind {
        RequestKind::RemoteName => Reply::Absent,
        _ => remote_world(q),
    };
    let (out, _) = drive(|io| service.get_remote_from_branch_name(io, "/r", "x"), nameless);
    assert_eq!(out, Err(invalid("Remote has no name")));
    let (out, asked) = drive(
        |io| service.fetch_all_from_remote(io, "/r", None, Some("https://u".to_string())),
        remote_world,
    );
    assert_eq!(out, Ok(()));
    assert_eq!(
        args(asked.last().unwrap()),
        ["-C", "/r", "fetch", "https://u", "+refs/heads/*:refs/remotes/origin/*"]
    );
    let (out, _) = drive(
        |io| service.fetch_all_from_remote(io, "/r", Some("up".to_string()), None),
        remote_world,
    );
    assert_eq!(out, Err(invalid("Remote has no URL")));
}

fn record(name: &str, seconds: Option<i64>) -> BranchRecord {
    BranchRecord { name: Some(name.to_string()), seconds }
}

#[test]
fn the_current_branch_is_listed_first_then_the_newest() {
    let service = GitService::new();
    let world = |q: &Request| match q.kind {
        RequestKind::OpenRepo => Reply::Done,
        RequestKind::HeadName => text("main"),
        RequestKind::HeadTarget => text("abc"),
        RequestKind::LocalBranches => {
            Reply::Branches(vec![record("feature", Some(2000)), record("main", Some(1000))])
        }
        RequestKind::RemoteBranches => Reply::Branches(vec![
            record("origin/HEAD", Some(5000)),
            record("origin/main", Some(1500)),
            BranchRecord { name: None, seconds: Some(9000) },
        ]),
        _ => Reply::Absent,
    };
    let (out, _) = drive(|io| service.get_all_branches(io, "/r"), world);
    let branches = out.unwrap();
    let names: Vec<&str> = branches.iter().map(|b| b.name.as_str()).collect();
    assert_eq!(names, ["main", "feature", "origin/main"]);
    assert!(branches[0].is_current && !branches[0].is_remote);
    assert!(!branches[1].is_current && !branches[1].is_remote);
    assert!(!branches[2].is_current && branches[2].is_remote);
    assert_eq!(branches[1].last_commit_date, 2000);
}

#[test]
fn a_branch_without_a_usable_time_is_listed_with_the_present_time() {
    let service = GitService::new();
    let world = |q: &Request| match q.kind {
        RequestKind::OpenRepo => Reply::Done,
        RequestKind::HeadName => text("none"),
        RequestKind::HeadTarget => text("abc"),
        RequestKind::LocalBranches => Reply::Branches(vec![
            record("old", Some(10)),
            record("timeless", None),
            record("far", Some(i64::MAX)),
            record("same", Some(10)),
        ]),
        RequestKind::RemoteBranches => Reply::Branches(vec![]),
        RequestKind::Now => Reply::Instant(777),
        _ => Reply::Absent,
    };
    let (out, asked) = drive(|io| service.get_all_branches(io, "/r"), world);
    let branches = out.unwrap();
    let listed: Vec<(&str, i64)> =
        branches.iter().map(|b| (b.name.as_str(), b.last_commit_date)).collect();
    assert_eq!(listed, [("timeless", 777), ("far", 777), ("old", 10), ("same", 10)]);
    assert_eq!(asked.iter().filter(|q| q.kind == RequestKind::Now).count(), 2);
    let (out, _) = drive(|io| service.get_all_branches(io, "/r"), |_| failed("no repo"));
    assert_eq!(out, Err(GitServiceError::Git("no repo".to_string())));
}
