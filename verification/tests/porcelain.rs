use vibe_git::porcelain::{parse_name_list, parse_remote_list, parse_status, parse_worktree_list};
use vibe_git::types::{StatusEntry, WorktreeEntry, WorktreeStatus};

fn entry(path: &str, branch: Option<&str>) -> WorktreeEntry {
    WorktreeEntry { path: path.to_string(), branch: branch.map(|b| b.to_string()) }
}

#[test]
fn worktree_list_gives_path_and_branch_of_each_record() {
    let out = "worktree /repo\nHEAD abc\nbranch refs/heads/main\n\nworktree /wt/a\nHEAD def\nbranch refs/heads/feature/x\n\nworktree /wt/b\nHEAD 123\ndetached\n";
    assert_eq!(
        parse_worktree_list(out),
        vec![
            entry("/repo", Some("main")),
            entry("/wt/a", Some("feature/x")),
            entry("/wt/b", None),
        ]
    );
}

#[test]
fn a_record_without_a_head_line_is_no_worktree() {
    let out = "worktree /repo\nbare\n\nworktree /wt/a\nHEAD def\nbranch refs/heads/x\n";
    assert_eq!(parse_worktree_list(out), vec![entry("/wt/a", Some("x"))]);
    assert_eq!(parse_worktree_list(""), vec![]);
    assert_eq!(parse_worktree_list("HEAD abc\n\n"), vec![]);
}

#[test]
fn a_branch_outside_refs_heads_is_no_branch() {
    let out = "worktree /wt\nHEAD abc\nbranch refs/remotes/origin/x\n";
    assert_eq!(parse_worktree_list(out), vec![entry("/wt", None)]);
}

#[test]
fn a_branch_outlives_a_record_that_gave_no_entry() {
    let out = "branch refs/heads/left\n\nworktree /wt\nHEAD abc\n";
    assert_eq!(parse_worktree_list(out), vec![entry("/wt", Some("left"))]);
}

#[test]
fn worktree_list_lines_are_trimmed() {
    let out = "  worktree /wt  \r\n\tHEAD abc\r\n branch refs/heads/x \r\n \r\n";
    assert_eq!(parse_worktree_list(out), vec![entry("/wt", Some("x"))]);
}

fn status_entry(staged: char, unstaged: char, path: &str, orig: Option<&str>) -> StatusEntry {
    StatusEntry {
        staged,
        unstaged,
        path: path.as_bytes().to_vec(),
        orig_path: orig.map(|o| o.as_bytes().to_vec()),
        is_untracked: staged == '?' && unstaged == '?',
    }
}

#[test]
fn status_counts_tracked_and_untracked_paths() {
    let out = b" M src/a.rs\0?? new.txt\0A  staged.rs\0".to_vec();
    assert_eq!(
        parse_status(&out),
        WorktreeStatus {
            uncommitted_tracked: 2,
            untracked: 1,
            entries: vec![
                status_entry(' ', 'M', "src/a.rs", None),
                status_entry('?', '?', "new.txt", None),
                status_entry('A', ' ', "staged.rs", None),
            ],
        }
    );
}

#[test]
fn a_rename_takes_the_next_record_as_its_origin() {
    let out = b"R  new.rs\0old.rs\0 C copy.rs\0from.rs\0 M z\0".to_vec();
    assert_eq!(
        parse_status(&out),
        WorktreeStatus {
            uncommitted_tracked: 3,
            untracked: 0,
            entries: vec![
                status_entry('R', ' ', "new.rs", Some("old.rs")),
                status_entry(' ', 'C', "copy.rs", Some("from.rs")),
                status_entry(' ', 'M', "z", None),
            ],
        }
    );
}

#[test]
fn short_records_are_skipped_and_a_rename_at_the_end_has_no_origin() {
    let empty = parse_status(&Vec::new());
    assert_eq!(empty, WorktreeStatus { uncommitted_tracked: 0, untracked: 0, entries: vec![] });
    let out = b"ab\0 M x\0R  last".to_vec();
    let st = parse_status(&out);
    assert_eq!(st.entries, vec![status_entry(' ', 'M', "x", None), status_entry('R', ' ', "last", None)]);
    assert_eq!(st.uncommitted_tracked, 2);
    let takes_empty = parse_status(&b"R  n\0".to_vec());
    assert_eq!(takes_empty.entries, vec![status_entry('R', ' ', "n", Some(""))]);
}

#[test]
fn an_entry_with_two_blank_codes_counts_for_nothing() {
    let st = parse_status(&b"   path\0".to_vec());
    assert_eq!(st.uncommitted_tracked, 0);
    assert_eq!(st.untracked, 0);
    assert_eq!(st.entries.len(), 1);
}

#[test]
fn remotes_are_listed_once_with_their_first_url() {
    let out = "origin\thttps://example.com/a.git (fetch)\norigin\thttps://example.com/push.git (push)\nfork\tgit@example.com:b.git (push)\n\nbroken line\n";
    assert_eq!(
        parse_remote_list(out),
        vec![
            ("origin".to_string(), "https://example.com/a.git".to_string()),
            ("fork".to_string(), "git@example.com:b.git".to_string()),
        ]
    );
    assert_eq!(parse_remote_list(""), vec![]);
    assert_eq!(parse_remote_list("name\turl\textra\n"), vec![("name".to_string(), "url".to_string())]);
}

#[test]
fn name_lists_skip_blank_lines() {
    assert_eq!(parse_name_list("a.rs\n\n  b.rs  \n \n"), vec!["a.rs", "b.rs"]);
    assert!(parse_name_list("\n\n").is_empty());
}
