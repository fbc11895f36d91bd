use vibe_git::diff::{
    blob_to_string, compute_line_change_counts, convert_diff_to_file_diffs, delta_to_diff,
    line_counts_of, read_blob_content, status_entry_to_diff, MAX_INLINE_DIFF_BYTES,
};
use vibe_git::effects::{BlobFacts, DeltaRecord, DeltaSide, DeltaStatus};
use vibe_git::errors::GitServiceError;
use vibe_git::types::{ChangeType, Diff, DiffChangeKind, StatusDiffEntry};

fn absent() -> DeltaSide {
    DeltaSide { id_zero: true, path: None, blob: None }
}

fn text_side(path: &str, text: &str) -> DeltaSide {
    DeltaSide {
        id_zero: false,
        path: Some(path.to_string()),
        blob: Some(BlobFacts { binary: false, size: text.len(), text: Some(text.to_string()) }),
    }
}

fn sized_side(path: &str, size: usize, binary: bool) -> DeltaSide {
    DeltaSide {
        id_zero: false,
        path: Some(path.to_string()),
        blob: Some(BlobFacts { binary, size, text: None }),
    }
}

#[test]
fn an_added_text_file_has_no_old_side() {
    let delta = DeltaRecord {
        status: DeltaStatus::Added,
        old_file: DeltaSide { id_zero: true, path: Some("new.txt".to_string()), blob: None },
        new_file: text_side("new.txt", "0123456789"),
        line_stats: Some((1, 0)),
    };
    let diff = delta_to_diff(&delta);
    assert_eq!(diff.change, DiffChangeKind::Added);
    assert_eq!(diff.old_path, None);
    assert_eq!(diff.new_path, Some("new.txt".to_string()));
    assert!(!diff.content_omitted);
    assert_eq!(diff.old_content, None);
    assert_eq!(diff.new_content, Some("0123456789".to_string()));
    assert_eq!(diff.additions, Some(1));
    assert_eq!(diff.deletions, Some(0));
    assert_eq!(diff.repo_id, None);
}

#[test]
fn a_large_text_file_has_its_content_left_out() {
    let three_mib = 3 * 1024 * 1024;
    let delta = DeltaRecord {
        status: DeltaStatus::Modified,
        old_file: text_side("big.txt", "small before"),
        new_file: sized_side("big.txt", three_mib, false),
        line_stats: Some((10, 2)),
    };
    let diff = delta_to_diff(&delta);
    assert_eq!(diff.change, DiffChangeKind::Modified);
    assert!(diff.content_omitted);
    assert_eq!(diff.old_content, None);
    assert_eq!(diff.new_content, None);
    assert_eq!(diff.old_path, Some("big.txt".to_string()));
    assert_eq!(diff.new_path, Some("big.txt".to_string()));
}

#[test]
fn a_renamed_file_keeps_both_paths() {
    let delta = DeltaRecord {
        status: DeltaStatus::Renamed,
        old_file: text_side("old.rs", "same"),
        new_file: text_side("new.rs", "same"),
        line_stats: Some((0, 0)),
    };
    let diff = delta_to_diff(&delta);
    assert_eq!(diff.change, DiffChangeKind::Renamed);
    assert_eq!(diff.old_path, Some("old.rs".to_string()));
    assert_eq!(diff.new_path, Some("new.rs".to_string()));
    assert_eq!(diff.old_content, Some("same".to_string()));
    assert_eq!(diff.new_content, Some("same".to_string()));
    assert!(!diff.content_omitted);
}

#[test]
fn the_cap_is_two_mebibytes_and_is_itself_allowed() {
    assert_eq!(MAX_INLINE_DIFF_BYTES, 2_097_152);
    let at_cap = DeltaRecord {
        status: DeltaStatus::Modified,
        old_file: text_side("a", "x"),
        new_file: sized_side("a", MAX_INLINE_DIFF_BYTES, false),
        line_stats: None,
    };
    assert!(!delta_to_diff(&at_cap).content_omitted);
    let over = DeltaRecord {
        status: DeltaStatus::Modified,
        old_file: text_side("a", "x"),
        new_file: sized_side("a", MAX_INLINE_DIFF_BYTES + 1, false),
        line_stats: None,
    };
    assert!(delta_to_diff(&over).content_omitted);
}

#[test]
fn a_binary_blob_is_never_omitted_and_never_carried() {
    let delta = DeltaRecord {
        status: DeltaStatus::Modified,
        old_file: text_side("img.png", "text before"),
        new_file: sized_side("img.png", 10 * 1024 * 1024, true),
        line_stats: None,
    };
    let diff = delta_to_diff(&delta);
    assert!(!diff.content_omitted);
    assert_eq!(diff.old_content, Some("text before".to_string()));
    assert_eq!(diff.new_content, None);
    assert_eq!(diff.additions, None);
    assert_eq!(diff.deletions, None);
}

#[test]
fn the_side_that_a_change_lacks_does_not_count_for_the_cap() {
    let deleted = DeltaRecord {
        status: DeltaStatus::Deleted,
        old_file: text_side("gone", "bye"),
        new_file: sized_side("gone", 5 * 1024 * 1024, false),
        line_stats: Some((0, 1)),
    };
    let diff = delta_to_diff(&deleted);
    assert_eq!(diff.change, DiffChangeKind::Deleted);
    assert!(!diff.content_omitted);
    assert_eq!(diff.new_path, None);
    assert_eq!(diff.new_content, None);
    assert_eq!(diff.old_content, Some("bye".to_string()));
}

#[test]
fn other_statuses_are_modifications_and_untracked_is_added() {
    let make = |status| DeltaRecord {
        status,
        old_file: text_side("p", "a"),
        new_file: text_side("p", "b"),
        line_stats: None,
    };
    assert_eq!(delta_to_diff(&make(DeltaStatus::Typechange)).change, DiffChangeKind::Modified);
    assert_eq!(delta_to_diff(&make(DeltaStatus::Conflicted)).change, DiffChangeKind::Modified);
    assert_eq!(delta_to_diff(&make(DeltaStatus::Copied)).change, DiffChangeKind::Copied);
    let untracked = delta_to_diff(&make(DeltaStatus::Untracked));
    assert_eq!(untracked.change, DiffChangeKind::Added);
    assert_eq!(untracked.old_path, None);
    assert_eq!(untracked.old_content, None);
    assert_eq!(untracked.new_path, Some("p".to_string()));
    assert_eq!(untracked.new_content, Some("b".to_string()));
}

#[test]
fn the_old_path_is_absent_exactly_for_additions() {
    let statuses = [
        DeltaStatus::Unmodified,
        DeltaStatus::Added,
        DeltaStatus::Deleted,
        DeltaStatus::Modified,
        DeltaStatus::Renamed,
        DeltaStatus::Copied,
        DeltaStatus::Ignored,
        DeltaStatus::Untracked,
        DeltaStatus::Typechange,
        DeltaStatus::Conflicted,
    ];
    for status in statuses {
        let diff = delta_to_diff(&DeltaRecord {
            status,
            old_file: text_side("old", "a"),
            new_file: text_side("new", "b"),
            line_stats: None,
        });
        assert_eq!(diff.old_path.is_none(), diff.change == DiffChangeKind::Added);
        assert_eq!(diff.new_path.is_none(), diff.change == DiffChangeKind::Deleted);
    }
}

#[test]
fn unreadable_changes_are_left_out_of_the_list() {
    let deltas = vec![
        DeltaRecord {
            status: DeltaStatus::Unreadable,
            old_file: absent(),
            new_file: absent(),
            line_stats: None,
        },
        DeltaRecord {
            status: DeltaStatus::Added,
            old_file: absent(),
            new_file: text_side("a", "1"),
            line_stats: Some((1, 0)),
        },
        DeltaRecord {
            status: DeltaStatus::Deleted,
            old_file: text_side("b", "2"),
            new_file: absent(),
            line_stats: Some((0, 1)),
        },
    ];
    let diffs = convert_diff_to_file_diffs(&deltas);
    assert_eq!(diffs.len(), 2);
    assert_eq!(diffs[0].new_path, Some("a".to_string()));
    assert_eq!(diffs[1].old_path, Some("b".to_string()));
    assert!(convert_diff_to_file_diffs(&Vec::new()).is_empty());
}

#[test]
fn blob_content_is_refused_with_a_reason() {
    let invalid = |m: &str| Err(GitServiceError::InvalidRepository(m.to_string()));
    assert_eq!(read_blob_content(&absent()), invalid("Zero OID"));
    assert_eq!(
        read_blob_content(&DeltaSide { id_zero: false, path: None, blob: None }),
        invalid("Blob not found")
    );
    assert_eq!(read_blob_content(&sized_side("p", 3, true)), invalid("Binary blob"));
    assert_eq!(read_blob_content(&sized_side("p", 3, false)), invalid("Invalid UTF-8"));
    assert_eq!(read_blob_content(&text_side("p", "abc")), Ok("abc".to_string()));
    assert_eq!(
        blob_to_string(&BlobFacts { binary: true, size: 1, text: Some("x".to_string()) }),
        None
    );
    assert_eq!(
        blob_to_string(&BlobFacts { binary: false, size: 1, text: Some("x".to_string()) }),
        Some("x".to_string())
    );
}

#[test]
fn line_changes_are_counted_between_two_texts() {
    assert_eq!(compute_line_change_counts("a\nb\nc\n", "a\nx\nc\nd\n"), (2, 1));
    assert_eq!(compute_line_change_counts("same\n", "same\n"), (0, 0));
    assert_eq!(compute_line_change_counts("", "one\ntwo\n"), (2, 0));
    assert_eq!(line_counts_of(None), (0, 0));
    assert_eq!(line_counts_of(Some((3, 4))), (3, 4));
}

fn status(change: ChangeType, path: &str, old_path: Option<&str>) -> Diff {
    status_entry_to_diff(StatusDiffEntry {
        change,
        path: path.to_string(),
        old_path: old_path.map(|p| p.to_string()),
    })
}

#[test]
fn status_entries_become_diffs_without_content() {
    let added = status(ChangeType::Added, "a", Some("ignored"));
    assert_eq!(added.change, DiffChangeKind::Added);
    assert_eq!(added.old_path, None);
    assert_eq!(added.new_path, Some("a".to_string()));
    let deleted = status(ChangeType::Deleted, "d", None);
    assert_eq!(deleted.change, DiffChangeKind::Deleted);
    assert_eq!(deleted.old_path, Some("d".to_string()));
    assert_eq!(deleted.new_path, None);
    let modified = status(ChangeType::Modified, "m", None);
    assert_eq!((modified.old_path, modified.new_path), (Some("m".to_string()), Some("m".to_string())));
    let renamed = status(ChangeType::Renamed, "new", Some("old"));
    assert_eq!(renamed.change, DiffChangeKind::Renamed);
    assert_eq!((renamed.old_path, renamed.new_path), (Some("old".to_string()), Some("new".to_string())));
    let copied = status(ChangeType::Copied, "new", None);
    assert_eq!(copied.change, DiffChangeKind::Copied);
    assert_eq!(copied.old_path, Some("new".to_string()));
    let typed = status(ChangeType::TypeChanged, "t", Some("o"));
    assert_eq!(typed.change, DiffChangeKind::Modified);
    assert_eq!(typed.old_path, Some("o".to_string()));
    let unknown = status(ChangeType::Unknown("X".to_string()), "u", None);
    assert_eq!(unknown.change, DiffChangeKind::Modified);
    assert_eq!((unknown.old_path, unknown.new_path), (Some("u".to_string()), Some("u".to_string())));
    assert!(!unknown.content_omitted && unknown.old_content.is_none() && unknown.additions.is_none());
}
