use vibe_git::agents::MessageTarget;
use vibe_git::effects::{Replay, Reply, Request, RequestKind, TouchRecord};
use vibe_git::file_stats::file_stats;
use vibe_git::git_service::GitService;
use vibe_git::messages::{parse_target_username, MessageMiddleware, RunIdMapping};
use vibe_git::types::FileStat;

#[test]
fn test_parse_run_id_target() {
    let content = "@550e8400-e29b-41d4-a716-446655440000:Hello, this is a message";
    let result = MessageMiddleware::parse_message_target(content);
    assert!(result.is_some());

    let (target, message) = result.unwrap();
    match target {
        MessageTarget::RunId(run_id) => {
            assert_eq!(run_id, "550e8400-e29b-41d4-a716-446655440000");
            assert_eq!(message, "Hello, this is a message");
        }
        _ => panic!("Expected RunId target"),
    }
}

#[test]
fn test_parse_username_target() {
    let content = "@developer Please help me";
    let result = MessageMiddleware::parse_message_target(content);
    assert!(result.is_some());

    let (target, message) = result.unwrap();
    match target {
        MessageTarget::AgentName(name) => {
            assert_eq!(name, "developer");
            assert_eq!(message, "@developer Please help me");
        }
        _ => panic!("Expected AgentName target"),
    }
}

#[test]
fn test_no_mention() {
    let content = "Just a regular message";
    let result = MessageMiddleware::parse_message_target(content);
    assert!(result.is_none());
}

#[test]
fn a_run_wins_over_a_mention_and_needs_its_colon() {
    let both = "hi @bob and @550e8400-e29b-41d4-a716-446655440000:go";
    assert_eq!(
        MessageMiddleware::parse_message_target(both),
        Some((MessageTarget::RunId("550e8400-e29b-41d4-a716-446655440000".to_string()), "go".to_string()))
    );
    let no_colon = "@550e8400-e29b-41d4-a716-446655440000 go";
    assert_eq!(
        MessageMiddleware::parse_message_target(no_colon),
        Some((MessageTarget::AgentName("550e8400".to_string()), no_colon.to_string()))
    );
    assert_eq!(MessageMiddleware::parse_message_target("@ alone"), None);
    assert_eq!(
        MessageMiddleware::parse_message_target("mail me@example.com"),
        Some((MessageTarget::AgentName("example".to_string()), "mail me@example.com".to_string()))
    );
}

#[test]
fn the_first_mention_names_the_target() {
    assert_eq!(parse_target_username("ask @dev_1 and @ops"), Some("dev_1".to_string()));
    assert_eq!(parse_target_username("@开发 你好"), Some("开发".to_string()));
    assert_eq!(parse_target_username("nobody"), None);
}

#[test]
fn runs_are_remembered_until_forgotten() {
    let mut map = RunIdMapping::new();
    assert_eq!(map.get_run_id_mapping("run-a"), None);
    map.save_run_id_mapping("run-a", "proj-a", "agent-a");
    map.save_run_id_mapping("run-b", "proj-b", "agent-b");
    assert_eq!(map.get_run_id_mapping("run-a"), Some(("proj-a".to_string(), "agent-a".to_string())));
    assert_eq!(map.get_run_id_mapping("run-b"), Some(("proj-b".to_string(), "agent-b".to_string())));
    map.save_run_id_mapping("run-a", "proj-c", "agent-c");
    assert_eq!(map.get_run_id_mapping("run-a"), Some(("proj-c".to_string(), "agent-c".to_string())));
    assert_eq!(map.get_run_id_mapping("run-b"), Some(("proj-b".to_string(), "agent-b".to_string())));
    map.remove_run_id_mapping("run-a");
    assert_eq!(map.get_run_id_mapping("run-a"), None);
    assert_eq!(map.get_run_id_mapping("run-b"), Some(("proj-b".to_string(), "agent-b".to_string())));
    map.remove_run_id_mapping("unknown");
    assert_eq!(map.get_run_id_mapping("run-b"), Some(("proj-b".to_string(), "agent-b".to_string())));
}

fn touch(seconds: i64, paths: &[&str]) -> TouchRecord {
    TouchRecord { seconds, paths: paths.iter().map(|p| p.to_string()).collect() }
}

#[test]
fn file_statistics_count_commits_and_keep_the_newest() {
    let records = vec![
        touch(300, &["a.rs", "b.rs"]),
        touch(200, &["b.rs"]),
        touch(100, &["c.rs", "a.rs", "a.rs"]),
    ];
    assert_eq!(
        file_stats(&records),
        vec![
            ("a.rs".to_string(), FileStat { last_index: 0, commit_count: 3, last_time: 300 }),
            ("b.rs".to_string(), FileStat { last_index: 0, commit_count: 2, last_time: 300 }),
            ("c.rs".to_string(), FileStat { last_index: 2, commit_count: 1, last_time: 100 }),
        ]
    );
    assert!(file_stats(&Vec::new()).is_empty());
}

#[test]
fn a_commit_time_that_no_date_can_hold_counts_as_the_present_time() {
    let service = GitService::new();
    let mut log: Vec<Reply> = Vec::new();
    let mut asked: Vec<Request> = Vec::new();
    let out = loop {
        let step = {
            let mut io = Replay::new(&log);
            service.collect_recent_file_stats(&mut io, "/r", 3)
        };
        match step {
            Ok(v) => break v,
            Err(q) => {
                log.push(match q.kind {
                    RequestKind::OpenRepo => Reply::Done,
                    RequestKind::Now => Reply::Instant(4242),
                    _ => Reply::Touched(vec![touch(i64::MAX, &["x"]), touch(7, &["y"])]),
                });
                asked.push(q);
            }
        }
    };
    assert_eq!(
        out,
        Ok(vec![
            ("x".to_string(), FileStat { last_index: 0, commit_count: 1, last_time: 4242 }),
            ("y".to_string(), FileStat { last_index: 1, commit_count: 1, last_time: 7 }),
        ])
    );
    assert_eq!(asked.iter().filter(|q| q.kind == RequestKind::Now).count(), 1);
}

#[test]
fn file_statistics_are_asked_for_with_a_limit() {
    let service = GitService::new();
    let mut log: Vec<Reply> = Vec::new();
    let mut asked: Vec<Request> = Vec::new();
    let out = loop {
        let step = {
            let mut io = Replay::new(&log);
            service.collect_recent_file_stats(&mut io, "/r", 25)
        };
        match step {
            Ok(v) => break v,
            Err(q) => {
                log.push(match q.kind {
                    RequestKind::OpenRepo => Reply::Done,
                    _ => Reply::Touched(vec![touch(5, &["x"])]),
                });
                asked.push(q);
            }
        }
    };
    assert_eq!(
        out,
        Ok(vec![("x".to_string(), FileStat { last_index: 0, commit_count: 1, last_time: 5 })])
    );
    assert_eq!(asked[1].kind, RequestKind::RecentChanges);
    assert_eq!(asked[1].args, vec!["25".to_string()]);
}
