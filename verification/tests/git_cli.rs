use vibe_git::effects::{Failure, Replay, Reply, Request, RequestKind};
use vibe_git::errors::GitCliError;
use vibe_git::git_cli::GitCli;
use vibe_git::types::WorktreeEntry;

fn drive<T>(
    mut op: impl FnMut(&mut Replay) -> Result<T, Request>,
    mut world: impl FnMut(&Request) -> Reply,
) -> (T, Vec<Request>) {
    let mut log: Vec<Reply> = Vec::new();
    let mut asked: Vec<Request> = Vec::new();
    loop {
        let step = {
            let mut io = Replay::new(&log);
            op(&mut io)
        };
        match step {
            Ok(v) => return (v, asked),
            Err(request) => {
                log.push(world(&request));
                asked.push(request);
            }
        }
        assert!(asked.len() < 500);
    }
}

fn ok(stdout: &str) -> Reply {
    Reply::Exited { code: Some(0), stdout: stdout.as_bytes().to_vec(), stderr: Vec::new() }
}

fn fail(stdout: &str, stderr: &str) -> Reply {
    Reply::Exited {
        code: Some(1),
        stdout: stdout.as_bytes().to_vec(),
        stderr: stderr.as_bytes().to_vec(),
    }
}

fn args(request: &Request) -> Vec<&str> {
    request.args.iter().map(|a| a.as_str()).collect()
}

fn git(list: &[&str]) -> Request {
    Request {
        kind: RequestKind::Git,
        target: String::new(),
        args: list.iter().map(|a| a.to_string()).collect(),
        no_prompt: false,
    }
}

#[test]
fn a_command_runs_in_the_repository_and_gives_its_output() {
    let cli = GitCli::new();
    let (out, asked) = drive(
        |io| cli.git(io, "/repo", vec!["status".to_string()]),
        |_| ok("clean\n"),
    );
    assert_eq!(out, Ok("clean\n".to_string()));
    assert_eq!(asked, vec![git(&["-C", "/repo", "status"])]);
}

#[test]
fn a_failed_command_reports_its_output() {
    assert_eq!(
        GitCli::classify(&fail("", " boom \n")),
        Err(GitCliError::CommandFailed("boom".to_string()))
    );
    assert_eq!(
        GitCli::classify(&fail(" only out\n", "")),
        Err(GitCliError::CommandFailed("only out".to_string()))
    );
    assert_eq!(
        GitCli::classify(&fail("", "")),
        Err(GitCliError::CommandFailed("Command failed with no output".to_string()))
    );
    assert_eq!(
        GitCli::classify(&fail("out", "err")),
        Err(GitCliError::CommandFailed("stderr: err\nstdout: out".to_string()))
    );
    assert_eq!(
        GitCli::classify(&Reply::Exited { code: None, stdout: vec![], stderr: b"killed".to_vec() }),
        Err(GitCliError::CommandFailed("killed".to_string()))
    );
}

#[test]
fn a_missing_executable_and_a_failed_start_are_told_apart() {
    assert_eq!(GitCli::classify(&Reply::Unavailable), Err(GitCliError::NotAvailable));
    assert_eq!(
        GitCli::classify(&Reply::Failed(Failure { not_found: false, message: "no fork".to_string() })),
        Err(GitCliError::CommandFailed("no fork".to_string()))
    );
    assert_eq!(
        GitCli::classify(&Reply::Done),
        Err(GitCliError::CommandFailed("unexpected reply".to_string()))
    );
    assert_eq!(GitCli::classify(&ok("x")), Ok(b"x".to_vec()));
}

#[test]
fn output_that_is_not_utf8_is_read_with_replacement_characters() {
    let cli = GitCli::new();
    let reply = Reply::Exited { code: Some(0), stdout: vec![b'a', 0xff, b'b'], stderr: vec![] };
    let (out, _) = drive(|io| cli.git(io, "/r", vec![]), |_| reply.clone());
    assert_eq!(out, Ok("a\u{fffd}b".to_string()));
}

#[test]
fn errors_have_their_texts() {
    assert_eq!(GitCliError::NotAvailable.message(), "git executable not found or not runnable");
    assert_eq!(GitCliError::CommandFailed("x".to_string()).message(), "git command failed: x");
    assert_eq!(GitCliError::AuthFailed.message(), "authentication failed");
    assert_eq!(GitCliError::PushRejected.message(), "push rejected");
    assert_eq!(GitCliError::RebaseInProgress.message(), "rebase in progress in this worktree");
}

#[test]
fn worktree_add_probes_adds_and_reapplies_sparse_checkout() {
    let cli = GitCli::new();
    let (out, asked) = drive(
        |io| cli.worktree_add(io, "/repo", "/wt", "task", true),
        |q| match q.kind {
            RequestKind::ProbeGit => Reply::Flag(true),
            _ if q.args.contains(&"sparse-checkout".to_string()) => fail("", "not sparse"),
            _ => ok(""),
        },
    );
    assert_eq!(out, Ok(()));
    assert_eq!(asked.len(), 3);
    assert_eq!(asked[0].kind, RequestKind::ProbeGit);
    assert_eq!(args(&asked[1]), ["-C", "/repo", "worktree", "add", "-b", "task", "/wt", "task"]);
    assert_eq!(args(&asked[2]), ["-C", "/wt", "sparse-checkout", "reapply"]);
}

#[test]
fn worktree_add_without_git_changes_nothing() {
    let cli = GitCli::new();
    let (out, asked) = drive(
        |io| cli.worktree_add(io, "/repo", "/wt", "task", false),
        |_| Reply::Flag(false),
    );
    assert_eq!(out, Err(GitCliError::NotAvailable));
    assert_eq!(asked.len(), 1);
}

#[test]
fn worktree_commands_have_their_arguments() {
    let cli = GitCli::new();
    let world = |q: &Request| match q.kind {
        RequestKind::ProbeGit => Reply::Flag(true),
        _ => ok(""),
    };
    let (_, asked) = drive(|io| cli.worktree_add(io, "/r", "/wt", "b", false), world);
    assert_eq!(args(&asked[1]), ["-C", "/r", "worktree", "add", "/wt", "b"]);
    let (_, asked) = drive(|io| cli.worktree_remove(io, "/r", "/wt", true), world);
    assert_eq!(args(&asked[1]), ["-C", "/r", "worktree", "remove", "--force", "/wt"]);
    let (_, asked) = drive(|io| cli.worktree_remove(io, "/r", "/wt", false), world);
    assert_eq!(args(&asked[1]), ["-C", "/r", "worktree", "remove", "/wt"]);
    let (_, asked) = drive(|io| cli.worktree_move(io, "/r", "/a", "/b"), world);
    assert_eq!(args(&asked[1]), ["-C", "/r", "worktree", "move", "/a", "/b"]);
    let (_, asked) = drive(|io| cli.worktree_prune(io, "/r"), world);
    assert_eq!(asked, vec![git(&["-C", "/r", "worktree", "prune"])]);
    let (_, asked) = drive(|io| cli.delete_branch(io, "/r", "old"), world);
    assert_eq!(args(&asked[1]), ["-C", "/r", "branch", "-D", "old"]);
    let (_, asked) = drive(|io| cli.add_all(io, "/wt"), world);
    assert_eq!(asked, vec![git(&["-C", "/wt", "add", "-A"])]);
    let (_, asked) = drive(|io| cli.commit(io, "/wt", "msg"), world);
    assert_eq!(asked, vec![git(&["-C", "/wt", "commit", "-m", "msg"])]);
    let (_, asked) = drive(|io| cli.update_ref(io, "/r", "refs/heads/t", "abc"), world);
    assert_eq!(asked, vec![git(&["-C", "/r", "update-ref", "refs/heads/t", "abc"])]);
}

#[test]
fn list_worktrees_parses_the_porcelain_list() {
    let cli = GitCli::new();
    let (out, asked) = drive(
        |io| cli.list_worktrees(io, "/repo"),
        |_| ok("worktree /repo\nHEAD a\nbranch refs/heads/main\n"),
    );
    assert_eq!(
        out,
        Ok(vec![WorktreeEntry { path: "/repo".to_string(), branch: Some("main".to_string()) }])
    );
    assert_eq!(asked, vec![git(&["-C", "/repo", "worktree", "list", "--porcelain"])]);
}

#[test]
fn has_changes_is_any_output_of_status() {
    let cli = GitCli::new();
    let (out, asked) = drive(|io| cli.has_changes(io, "/wt"), |_| ok(" M a\n"));
    assert_eq!(out, Ok(true));
    assert_eq!(asked, vec![git(&["-C", "/wt", "--no-optional-locks", "status", "--porcelain"])]);
    let (out, _) = drive(|io| cli.has_changes(io, "/wt"), |_| ok(""));
    assert_eq!(out, Ok(false));
    let (out, _) = drive(|io| cli.has_changes(io, "/wt"), |_| fail("", "not a repo"));
    assert_eq!(out, Err(GitCliError::CommandFailed("not a repo".to_string())));
}

#[test]
fn status_is_asked_for_zero_delimited() {
    let cli = GitCli::new();
    let (out, asked) = drive(|io| cli.get_worktree_status(io, "/wt"), |_| ok("?? a\0"));
    let st = out.unwrap();
    assert_eq!(st.untracked, 1);
    assert_eq!(st.uncommitted_tracked, 0);
    assert_eq!(
        args(&asked[0]),
        ["-C", "/wt", "--no-optional-locks", "status", "--porcelain", "-z", "--untracked-files=normal"]
    );
}

#[test]
fn network_commands_do_not_prompt_and_rename_their_failures() {
    let cli = GitCli::new();
    let (out, asked) = drive(
        |io| cli.fetch_with_refspec(io, "/r", "https://x", "+a:b"),
        |_| fail("", "denied"),
    );
    assert_eq!(out, Err(GitCliError::AuthFailed));
    assert!(asked[0].no_prompt);
    assert_eq!(args(&asked[0]), ["-C", "/r", "fetch", "https://x", "+a:b"]);

    let (out, asked) = drive(|io| cli.push(io, "/r", "https://x", "task", false), |_| fail("", "no"));
    assert_eq!(out, Err(GitCliError::PushRejected));
    assert!(asked[0].no_prompt);
    assert_eq!(args(&asked[0]), ["-C", "/r", "push", "https://x", "refs/heads/task:refs/heads/task"]);

    let (out, asked) = drive(|io| cli.push(io, "/r", "https://x", "task", true), |_| ok(""));
    assert_eq!(out, Ok(()));
    assert_eq!(args(&asked[0])[4], "+refs/heads/task:refs/heads/task");

    let (out, _) = drive(|io| cli.push(io, "/r", "u", "t", true), |_| Reply::Unavailable);
    assert_eq!(out, Err(GitCliError::NotAvailable));

    let (out, asked) = drive(
        |io| cli.check_remote_branch_exists(io, "/r", "https://x", "main"),
        |_| ok("abc\trefs/heads/main\n"),
    );
    assert_eq!(out, Ok(true));
    assert!(asked[0].no_prompt);
    assert_eq!(args(&asked[0]), ["-C", "/r", "ls-remote", "--heads", "https://x", "refs/heads/main"]);
    let (out, _) = drive(|io| cli.check_remote_branch_exists(io, "/r", "u", "m"), |_| ok(" \n"));
    assert_eq!(out, Ok(false));
    let (out, _) = drive(|io| cli.check_remote_branch_exists(io, "/r", "u", "m"), |_| fail("", "x"));
    assert_eq!(out, Err(GitCliError::AuthFailed));
}

#[test]
fn local_commands_may_prompt() {
    let cli = GitCli::new();
    let (_, asked) = drive(|io| cli.has_changes(io, "/wt"), |_| ok(""));
    assert!(!asked[0].no_prompt);
}

#[test]
fn remote_url_is_trimmed_and_remotes_are_parsed() {
    let cli = GitCli::new();
    let (out, asked) = drive(|io| cli.get_remote_url(io, "/r", "origin"), |_| ok("https://x\n"));
    assert_eq!(out, Ok("https://x".to_string()));
    assert_eq!(asked, vec![git(&["-C", "/r", "remote", "get-url", "origin"])]);
    let (out, asked) = drive(|io| cli.list_remotes(io, "/r"), |_| ok("o\tu (fetch)\no\tu (push)\n"));
    assert_eq!(out, Ok(vec![("o".to_string(), "u".to_string())]));
    assert_eq!(asked, vec![git(&["-C", "/r", "remote", "-v"])]);
}

#[test]
fn merge_base_prefers_the_fork_point() {
    let cli = GitCli::new();
    let (out, asked) = drive(|io| cli.merge_base(io, "/wt", "main", "task"), |_| ok("abc\n"));
    assert_eq!(out, Ok("abc".to_string()));
    assert_eq!(asked, vec![git(&["-C", "/wt", "merge-base", "--fork-point", "main", "task"])]);
}

#[test]
fn merge_base_falls_back_to_the_plain_merge_base() {
    let cli = GitCli::new();
    let world = |q: &Request| {
        if q.args.contains(&"--fork-point".to_string()) {
            fail("", "")
        } else {
            ok("def\n")
        }
    };
    let (out, asked) = drive(|io| cli.merge_base(io, "/wt", "main", "task"), world);
    assert_eq!(out, Ok("def".to_string()));
    assert_eq!(asked.len(), 2);
    assert_eq!(args(&asked[1]), ["-C", "/wt", "merge-base", "main", "task"]);
    let (out, _) = drive(|io| cli.merge_base(io, "/wt", "main", "task"), |_| fail("", "bad"));
    assert_eq!(out, Err(GitCliError::CommandFailed("bad".to_string())));
}

fn rebase_world(merge_dir_exists: bool, apply_dir_exists: bool) -> impl Fn(&Request) -> Reply {
    move |q: &Request| match q.kind {
        RequestKind::PathExists => {
            if q.target == "/g/rebase-merge" {
                Reply::Flag(merge_dir_exists)
            } else if q.target == "/g/rebase-apply" {
                Reply::Flag(apply_dir_exists)
            } else {
                Reply::Flag(false)
            }
        }
        _ if q.args.contains(&"rebase-merge".to_string()) => ok("/g/rebase-merge\n"),
        _ if q.args.contains(&"rebase-apply".to_string()) => ok("/g/rebase-apply\n"),
        _ if q.args.contains(&"merge-base".to_string()) => ok("base\n"),
        _ => ok(""),
    }
}

#[test]
fn a_rebase_is_under_way_where_either_state_directory_exists() {
    let cli = GitCli::new();
    let (out, asked) = drive(|io| cli.is_rebase_in_progress(io, "/wt"), rebase_world(true, false));
    assert_eq!(out, Ok(true));
    assert_eq!(asked.len(), 3);
    assert_eq!(args(&asked[0]), ["-C", "/wt", "rev-parse", "--git-path", "rebase-merge"]);
    assert_eq!(args(&asked[1]), ["-C", "/wt", "rev-parse", "--git-path", "rebase-apply"]);
    assert_eq!(asked[2].kind, RequestKind::PathExists);
    assert_eq!(asked[2].target, "/g/rebase-merge");
    let (out, asked) = drive(|io| cli.is_rebase_in_progress(io, "/wt"), rebase_world(false, true));
    assert_eq!(out, Ok(true));
    assert_eq!(asked.len(), 4);
    let (out, _) = drive(|io| cli.is_rebase_in_progress(io, "/wt"), rebase_world(false, false));
    assert_eq!(out, Ok(false));
    let (out, asked) = drive(|io| cli.is_rebase_in_progress(io, "/wt"), |_| fail("", "x"));
    assert_eq!(out, Err(GitCliError::CommandFailed("x".to_string())));
    assert_eq!(asked.len(), 1);
}

#[test]
fn a_relative_state_directory_is_looked_for_under_the_worktree() {
    let cli = GitCli::new();
    let world = |q: &Request| match q.kind {
        RequestKind::PathExists => Reply::Flag(q.target == "/wt/.git/rebase-apply"),
        _ if q.args.contains(&"rebase-merge".to_string()) => ok(".git/rebase-merge\n"),
        _ => ok(".git/rebase-apply\n"),
    };
    let (out, asked) = drive(|io| cli.is_rebase_in_progress(io, "/wt"), world);
    assert_eq!(out, Ok(true));
    assert_eq!(asked[2].target, "/wt/.git/rebase-merge");
    assert_eq!(asked[3].target, "/wt/.git/rebase-apply");
}

#[test]
fn rebase_onto_is_refused_during_a_rebase() {
    let cli = GitCli::new();
    let (out, asked) = drive(
        |io| cli.rebase_onto(io, "/wt", "new", "old", "task"),
        rebase_world(true, false),
    );
    assert_eq!(out, Err(GitCliError::RebaseInProgress));
    assert!(asked.iter().all(|q| !q.args.contains(&"--onto".to_string())));
}

#[test]
fn rebase_onto_replays_from_the_fork_point() {
    let cli = GitCli::new();
    let (out, asked) = drive(
        |io| cli.rebase_onto(io, "/wt", "new", "old", "task"),
        rebase_world(false, false),
    );
    assert_eq!(out, Ok(()));
    assert_eq!(args(asked.last().unwrap()), ["-C", "/wt", "rebase", "--onto", "new", "base", "task"]);
}

#[test]
fn rebase_onto_falls_back_to_the_old_base() {
    let cli = GitCli::new();
    let world = |q: &Request| match q.kind {
        RequestKind::PathExists => Reply::Flag(false),
        _ if q.args.contains(&"merge-base".to_string()) => fail("", "none"),
        _ => ok("/g/x\n"),
    };
    let (out, asked) = drive(|io| cli.rebase_onto(io, "/wt", "new", "old", "task"), world);
    assert_eq!(out, Ok(()));
    assert_eq!(args(asked.last().unwrap()), ["-C", "/wt", "rebase", "--onto", "new", "old", "task"]);
}

#[test]
fn markers_tell_which_operation_waits() {
    let cli = GitCli::new();
    let (out, asked) = drive(|io| cli.is_merge_in_progress(io, "/wt"), |_| ok("abc\n"));
    assert_eq!(out, Ok(true));
    assert_eq!(asked, vec![git(&["-C", "/wt", "rev-parse", "--verify", "MERGE_HEAD"])]);
    let (out, asked) = drive(|io| cli.is_cherry_pick_in_progress(io, "/wt"), |_| fail("", "no"));
    assert_eq!(out, Ok(false));
    assert_eq!(args(&asked[0])[4], "CHERRY_PICK_HEAD");
    let (out, asked) = drive(|io| cli.is_revert_in_progress(io, "/wt"), |_| Reply::Unavailable);
    assert_eq!(out, Err(GitCliError::NotAvailable));
    assert_eq!(args(&asked[0])[4], "REVERT_HEAD");
}

#[test]
fn ending_a_rebase_does_nothing_without_one() {
    let cli = GitCli::new();
    let (out, asked) = drive(|io| cli.abort_rebase(io, "/wt"), rebase_world(false, false));
    assert_eq!(out, Ok(()));
    assert!(asked.iter().all(|q| !q.args.contains(&"--abort".to_string())));
    let (out, asked) = drive(|io| cli.abort_rebase(io, "/wt"), rebase_world(true, false));
    assert_eq!(out, Ok(()));
    assert_eq!(args(asked.last().unwrap()), ["-C", "/wt", "rebase", "--abort"]);
    let (out, asked) = drive(|io| cli.quit_rebase(io, "/wt"), rebase_world(false, true));
    assert_eq!(out, Ok(()));
    assert_eq!(args(asked.last().unwrap()), ["-C", "/wt", "rebase", "--quit"]);
    let (out, _) = drive(|io| cli.continue_rebase(io, "/wt"), rebase_world(false, false));
    assert_eq!(out, Err(GitCliError::CommandFailed("No rebase in progress".to_string())));
    let (out, asked) = drive(|io| cli.continue_rebase(io, "/wt"), rebase_world(true, true));
    assert_eq!(out, Ok(()));
    assert_eq!(args(asked.last().unwrap()), ["-C", "/wt", "rebase", "--continue"]);
}

#[test]
fn aborting_runs_the_abort_of_the_operation_that_waits() {
    let cli = GitCli::new();
    let (out, asked) = drive(|io| cli.abort_merge(io, "/wt"), |_| ok("x"));
    assert_eq!(out, Ok(()));
    assert_eq!(args(&asked[1]), ["-C", "/wt", "merge", "--abort"]);
    let (_, asked) = drive(|io| cli.abort_cherry_pick(io, "/wt"), |_| ok("x"));
    assert_eq!(args(&asked[1]), ["-C", "/wt", "cherry-pick", "--abort"]);
    let (_, asked) = drive(|io| cli.abort_revert(io, "/wt"), |_| ok("x"));
    assert_eq!(args(&asked[1]), ["-C", "/wt", "revert", "--abort"]);
    let (out, asked) = drive(|io| cli.abort_merge(io, "/wt"), |_| fail("", "none"));
    assert_eq!(out, Ok(()));
    assert_eq!(asked.len(), 1);
}

#[test]
fn staged_changes_are_told_by_the_exit_code() {
    let cli = GitCli::new();
    let code = |c: Option<i32>| Reply::Exited { code: c, stdout: vec![], stderr: vec![] };
    let (out, asked) = drive(|io| cli.has_staged_changes(io, "/r"), |_| code(Some(0)));
    assert_eq!(out, Ok(false));
    assert_eq!(asked[0].kind, RequestKind::GitResolved);
    assert_eq!(args(&asked[0]), ["-C", "/r", "diff", "--cached", "--quiet"]);
    let (out, _) = drive(|io| cli.has_staged_changes(io, "/r"), |_| code(Some(1)));
    assert_eq!(out, Ok(true));
    let (out, _) = drive(|io| cli.has_staged_changes(io, "/r"), |_| code(Some(128)));
    assert_eq!(out, Err(GitCliError::CommandFailed("Unknown error".to_string())));
    let (out, _) = drive(|io| cli.has_staged_changes(io, "/r"), |_| code(None));
    assert_eq!(out, Err(GitCliError::CommandFailed("Unknown error".to_string())));
    let (out, _) = drive(|io| cli.has_staged_changes(io, "/r"), |_| Reply::Unavailable);
    assert_eq!(out, Err(GitCliError::NotAvailable));
}

#[test]
fn a_squash_merge_is_four_commands() {
    let cli = GitCli::new();
    let (out, asked) = drive(
        |io| cli.merge_squash_commit(io, "/base", "main", "task", "Squash"),
        |q| if q.args.contains(&"rev-parse".to_string()) { ok("newsha\n") } else { ok("") },
    );
    assert_eq!(out, Ok("newsha".to_string()));
    assert_eq!(
        asked,
        vec![
            git(&["-C", "/base", "checkout", "main"]),
            git(&["-C", "/base", "merge", "--squash", "--no-commit", "task"]),
            git(&["-C", "/base", "commit", "-m", "Squash"]),
            git(&["-C", "/base", "rev-parse", "HEAD"]),
        ]
    );
    let (out, asked) = drive(
        |io| cli.merge_squash_commit(io, "/base", "main", "task", "Squash"),
        |q| if q.args.contains(&"merge".to_string()) { fail("", "conflict") } else { ok("") },
    );
    assert_eq!(out, Err(GitCliError::CommandFailed("conflict".to_string())));
    assert_eq!(asked.len(), 2);
}

#[test]
fn conflicted_files_are_listed_by_name() {
    let cli = GitCli::new();
    let (out, asked) = drive(|io| cli.get_conflicted_files(io, "/wt"), |_| ok("a.rs\n\nb.rs\n"));
    assert_eq!(out, Ok(vec!["a.rs".to_string(), "b.rs".to_string()]));
    assert_eq!(asked, vec![git(&["-C", "/wt", "diff", "--name-only", "--diff-filter=U"])]);
}

#[test]
fn the_probe_needs_a_yes() {
    let (out, asked) = drive(|io| GitCli::ensure_available(io), |_| Reply::Flag(true));
    assert_eq!(out, Ok(()));
    assert_eq!(asked[0].kind, RequestKind::ProbeGit);
    let (out, _) = drive(|io| GitCli::ensure_available(io), |_| Reply::Done);
    assert_eq!(out, Err(GitCliError::NotAvailable));
}
