//! From the file-level changes of the object graph to the diffs that the
//! service returns: change kind, paths, content and the size cap.

use vstd::prelude::*;
use crate::effects::{
    BlobFacts, BlobFactsModel, DeltaRecord, DeltaRecordModel, DeltaSide, DeltaSideModel,
    DeltaStatus,
};
use crate::errors::{GitServiceError, GitServiceErrorModel};
use crate::model::{lemma_models_push, Model};
use crate::types::{
    ChangeType, ChangeTypeModel, Diff, DiffChangeKind, DiffModel, StatusDiffEntry,
    StatusDiffEntryModel,
};

verus! {

/// The largest blob, in bytes, whose content a diff carries.
pub const MAX_INLINE_DIFF_BYTES: usize = 2 * 1024 * 1024;

/// What `git2::Patch::from_buffers` with no context lines, followed by
/// `Patch::line_stats`, gives for two texts: the lines added and deleted, or
/// `None` where either call fails.
pub uninterp spec fn buffer_line_stats(old: Seq<char>, new: Seq<char>) -> Option<(usize, usize)>;

/// Calls `git2::Patch::from_buffers` on the bytes of the two texts, with the
/// number of context lines set to 0 and no paths, then `Patch::line_stats` on
/// the patch. The additions and deletions are handed on, the count of
/// context lines is dropped, and a failure of either call gives `None`.
#[verifier::external_body]
pub(crate) fn patch_line_stats(old: &str, new: &str) -> (r: Option<(usize, usize)>)
    ensures
        r == buffer_line_stats(old@, new@),
{
    let mut opts = git2::DiffOptions::new();
    opts.context_lines(0);
    let (a, b) = (old.as_bytes(), new.as_bytes());
    match git2::Patch::from_buffers(a, None, b, None, Some(&mut opts)) {
        Ok(p) => match p.line_stats() {
            Ok((_, adds, dels)) => Some((adds, dels)),
            Err(_) => None,
        },
        Err(_) => None,
    }
}

/// The counts of a patch, or zeros where there is none.
pub open spec fn counts_or_zero(stats: Option<(usize, usize)>) -> (usize, usize) {
    match stats {
        Some(c) => c,
        None => (0usize, 0usize),
    }
}

/// The counts of a patch, or zeros where there is none.
pub fn line_counts_of(stats: Option<(usize, usize)>) -> (r: (usize, usize))
    ensures
        r == counts_or_zero(stats),
{
    match stats {
        Some(c) => c,
        None => (0, 0),
    }
}

/// The lines added and deleted between two texts; zeros where no patch can
/// be made.
pub fn compute_line_change_counts(old: &str, new: &str) -> (r: (usize, usize))
    ensures
        r == counts_or_zero(buffer_line_stats(old@, new@)),
{
    line_counts_of(patch_line_stats(old, new))
}

/// The text of a blob: none for a binary one.
pub open spec fn blob_string(blob: BlobFactsModel) -> Option<Seq<char>> {
    if blob.binary {
        None
    } else {
        blob.text
    }
}

fn copy_text(t: &Option<String>) -> (r: Option<String>)
    ensures
        r.model() == t.model(),
{
    match t {
        Some(s) => Some(s.clone()),
        None => None,
    }
}

/// The text of a blob: none for a binary one or one that is not UTF-8.
pub fn blob_to_string(blob: &BlobFacts) -> (r: Option<String>)
    ensures
        r.model() == blob_string(blob.model()),
{
    if blob.binary {
        None
    } else {
        copy_text(&blob.text)
    }
}

/// Whether the blob of a side is text over the size cap.
pub open spec fn oversized(side: DeltaSideModel) -> bool {
    !side.id_zero && side.blob is Some && !side.blob->0.binary && side.blob->0.size
        > MAX_INLINE_DIFF_BYTES
}

/// Whether a change adds a file: the file is new in the tree, or it is not
/// tracked. Such a change has no old side.
pub open spec fn adds_file(status: DeltaStatus) -> bool {
    status == DeltaStatus::Added || status == DeltaStatus::Untracked
}

/// Whether a change has its content left out: a side that the change has is
/// text over the size cap. A binary blob never counts.
pub open spec fn content_omitted(d: DeltaRecordModel) -> bool {
    (!adds_file(d.status) && oversized(d.old_file)) || (d.status != DeltaStatus::Deleted
        && oversized(d.new_file))
}

/// The content of one side as a diff may carry it, or why it cannot.
pub open spec fn blob_content(side: DeltaSideModel) -> Result<Seq<char>, GitServiceErrorModel> {
    if side.id_zero {
        Err(GitServiceErrorModel::InvalidRepository("Zero OID"@))
    } else if side.blob is None {
        Err(GitServiceErrorModel::InvalidRepository("Blob not found"@))
    } else if side.blob->0.binary {
        Err(GitServiceErrorModel::InvalidRepository("Binary blob"@))
    } else if side.blob->0.text is None {
        Err(GitServiceErrorModel::InvalidRepository("Invalid UTF-8"@))
    } else {
        Ok(side.blob->0.text->0)
    }
}

/// The content of one side, where there is any to carry.
pub open spec fn side_text(side: DeltaSideModel) -> Option<Seq<char>> {
    match blob_content(side) {
        Ok(t) => Some(t),
        Err(_) => None,
    }
}

/// The change kind for a status of the object graph.
pub open spec fn change_kind(status: DeltaStatus) -> DiffChangeKind {
    match status {
        DeltaStatus::Added => DiffChangeKind::Added,
        DeltaStatus::Deleted => DiffChangeKind::Deleted,
        DeltaStatus::Modified => DiffChangeKind::Modified,
        DeltaStatus::Renamed => DiffChangeKind::Renamed,
        DeltaStatus::Copied => DiffChangeKind::Copied,
        DeltaStatus::Untracked => DiffChangeKind::Added,
        _ => DiffChangeKind::Modified,
    }
}

/// The diff for one change.
pub open spec fn diff_of(d: DeltaRecordModel) -> DiffModel {
    let omitted = content_omitted(d);
    DiffModel {
        change: change_kind(d.status),
        old_path: if adds_file(d.status) {
            None
        } else {
            d.old_file.path
        },
        new_path: if d.status == DeltaStatus::Deleted {
            None
        } else {
            d.new_file.path
        },
        old_content: if omitted || adds_file(d.status) {
            None
        } else {
            side_text(d.old_file)
        },
        new_content: if omitted || d.status == DeltaStatus::Deleted {
            None
        } else {
            side_text(d.new_file)
        },
        content_omitted: omitted,
        additions: match d.line_stats {
            Some(c) => Some(c.0),
            None => None,
        },
        deletions: match d.line_stats {
            Some(c) => Some(c.1),
            None => None,
        },
        repo_id: None,
    }
}

/// The diffs for a list of changes, in order; unreadable changes are left out.
pub open spec fn diffs_of(deltas: Seq<DeltaRecordModel>) -> Seq<DiffModel>
    decreases deltas.len(),
{
    if deltas.len() == 0 {
        Seq::empty()
    } else if deltas[0].status == DeltaStatus::Unreadable {
        diffs_of(deltas.drop_first())
    } else {
        seq![diff_of(deltas[0])] + diffs_of(deltas.drop_first())
    }
}

/// The content of one side of a change.
pub fn read_blob_content(side: &DeltaSide) -> (r: Result<String, GitServiceError>)
    ensures
        r.model() == blob_content(side.model()),
{
    if side.id_zero {
        return Err(GitServiceError::InvalidRepository("Zero OID".to_owned()));
    }
    match &side.blob {
        None => Err(GitServiceError::InvalidRepository("Blob not found".to_owned())),
        Some(blob) => {
            if blob.binary {
                Err(GitServiceError::InvalidRepository("Binary blob".to_owned()))
            } else {
                match &blob.text {
                    None => Err(GitServiceError::InvalidRepository("Invalid UTF-8".to_owned())),
                    Some(t) => Ok(t.clone()),
                }
            }
        },
    }
}

fn is_oversized(side: &DeltaSide) -> (r: bool)
    ensures
        r == oversized(side.model()),
{
    if side.id_zero {
        return false;
    }
    match &side.blob {
        None => false,
        Some(blob) => !blob.binary && blob.size > MAX_INLINE_DIFF_BYTES,
    }
}

fn text_or_none(side: &DeltaSide) -> (r: Option<String>)
    ensures
        r.model() == side_text(side.model()),
{
    match read_blob_content(side) {
        Ok(t) => Some(t),
        Err(_) => None,
    }
}

/// The diff for one change.
pub fn delta_to_diff(d: &DeltaRecord) -> (r: Diff)
    ensures
        r.model() == diff_of(d.model()),
{
    let added = d.status == DeltaStatus::Added || d.status == DeltaStatus::Untracked;
    let deleted = d.status == DeltaStatus::Deleted;
    let omitted = (!added && is_oversized(&d.old_file)) || (!deleted && is_oversized(&d.new_file));
    let change = match d.status {
        DeltaStatus::Added => DiffChangeKind::Added,
        DeltaStatus::Deleted => DiffChangeKind::Deleted,
        DeltaStatus::Modified => DiffChangeKind::Modified,
        DeltaStatus::Renamed => DiffChangeKind::Renamed,
        DeltaStatus::Copied => DiffChangeKind::Copied,
        DeltaStatus::Untracked => DiffChangeKind::Added,
        _ => DiffChangeKind::Modified,
    };
    let (additions, deletions) = match d.line_stats {
        Some((a, b)) => (Some(a), Some(b)),
        None => (None, None),
    };
    Diff {
        change,
        old_path: if added {
            None
        } else {
            copy_text(&d.old_file.path)
        },
        new_path: if deleted {
            None
        } else {
            copy_text(&d.new_file.path)
        },
        old_content: if omitted || added {
            None
        } else {
            text_or_none(&d.old_file)
        },
        new_content: if omitted || deleted {
            None
        } else {
            text_or_none(&d.new_file)
        },
        content_omitted: omitted,
        additions,
        deletions,
        repo_id: None,
    }
}

/// The diffs for the changes between two trees.
pub fn convert_diff_to_file_diffs(deltas: &Vec<DeltaRecord>) -> (r: Vec<Diff>)
    ensures
        r.model() == diffs_of(deltas.model()),
{
    let ghost all = deltas.model();
    let mut out: Vec<Diff> = Vec::new();
    let mut i: usize = 0;
    assert(all.skip(0) =~= all);
    assert(out.model() =~= Seq::<DiffModel>::empty());
    while i < deltas.len()
        invariant
            i <= deltas.len(),
            all == deltas.model(),
            diffs_of(all) == out.model() + diffs_of(all.skip(i as int)),
        decreases deltas.len() - i,
    {
        proof {
            assert(all.skip(i as int)[0] == deltas@[i as int].model());
            assert(all.skip(i as int).drop_first() =~= all.skip(i + 1));
        }
        if deltas[i].status != DeltaStatus::Unreadable {
            let diff = delta_to_diff(&deltas[i]);
            let ghost before = out.model();
            proof {
                lemma_models_push(out@, diff);
            }
            out.push(diff);
            assert((before + seq![diff.model()]) + diffs_of(all.skip(i + 1)) =~= before + (seq![
                diff.model(),
            ] + diffs_of(all.skip(i + 1))));
        }
        i += 1;
    }
    assert(all.skip(deltas@.len() as int) =~= Seq::<DeltaRecordModel>::empty());
    assert(out.model() + Seq::<DiffModel>::empty() =~= out.model());
    out
}

/// Whether a change carries the paths of the sides it has.
pub open spec fn has_its_paths(d: DeltaRecordModel) -> bool {
    (!adds_file(d.status) ==> d.old_file.path is Some) && (d.status != DeltaStatus::Deleted
        ==> d.new_file.path is Some)
}

/// What every diff of a change holds. The old path is absent exactly where
/// the change is an addition, and the new path exactly where it is a
/// deletion, for every change that carries the paths of the sides it has. An
/// added file has no old content and a deleted one no new content; where
/// content is left out, none is carried on either side; and content is
/// carried only for a blob that the repository holds, that is not binary and
/// that is within the size cap.
pub proof fn lemma_diff_invariant(d: DeltaRecordModel)
    ensures
        diff_of(d).change == DiffChangeKind::Added ==> diff_of(d).old_path is None && diff_of(
            d,
        ).old_content is None,
        diff_of(d).change == DiffChangeKind::Deleted ==> diff_of(d).new_path is None && diff_of(
            d,
        ).new_content is None,
        has_its_paths(d) ==> (diff_of(d).old_path is None <==> diff_of(d).change
            == DiffChangeKind::Added),
        has_its_paths(d) ==> (diff_of(d).new_path is None <==> diff_of(d).change
            == DiffChangeKind::Deleted),
        diff_of(d).content_omitted ==> diff_of(d).old_content is None && diff_of(d).new_content
            is None,
        diff_of(d).old_content is Some ==> d.old_file.blob is Some && !d.old_file.blob->0.binary
            && d.old_file.blob->0.size <= MAX_INLINE_DIFF_BYTES,
        diff_of(d).new_content is Some ==> d.new_file.blob is Some && !d.new_file.blob->0.binary
            && d.new_file.blob->0.size <= MAX_INLINE_DIFF_BYTES,
{
}

/// The change kind for a status code of the working tree.
pub open spec fn status_change_kind(change: ChangeTypeModel) -> DiffChangeKind {
    match change {
        ChangeTypeModel::Added => DiffChangeKind::Added,
        ChangeTypeModel::Deleted => DiffChangeKind::Deleted,
        ChangeTypeModel::Modified => DiffChangeKind::Modified,
        ChangeTypeModel::Renamed => DiffChangeKind::Renamed,
        ChangeTypeModel::Copied => DiffChangeKind::Copied,
        _ => DiffChangeKind::Modified,
    }
}

/// `o`, or `fallback` where it is absent.
pub open spec fn text_or(o: Option<Seq<char>>, fallback: Seq<char>) -> Seq<char> {
    match o {
        Some(t) => t,
        None => fallback,
    }
}

/// The diff for one entry of a status listing. It carries no content. An
/// addition has no old path and a deletion no new path; every other entry
/// has both, the old one being the path itself where the entry names no
/// other.
pub open spec fn status_diff(e: StatusDiffEntryModel) -> DiffModel {
    DiffModel {
        change: status_change_kind(e.change),
        old_path: match e.change {
            ChangeTypeModel::Added => None,
            _ => Some(text_or(e.old_path, e.path)),
        },
        new_path: match e.change {
            ChangeTypeModel::Deleted => None,
            _ => Some(e.path),
        },
        old_content: None,
        new_content: None,
        content_omitted: false,
        additions: None,
        deletions: None,
        repo_id: None,
    }
}

/// The diff for one entry of a status listing.
pub fn status_entry_to_diff(e: StatusDiffEntry) -> (r: Diff)
    ensures
        r.model() == status_diff(e.model()),
{
    let change = match &e.change {
        ChangeType::Added => DiffChangeKind::Added,
        ChangeType::Deleted => DiffChangeKind::Deleted,
        ChangeType::Modified => DiffChangeKind::Modified,
        ChangeType::Renamed => DiffChangeKind::Renamed,
        ChangeType::Copied => DiffChangeKind::Copied,
        _ => DiffChangeKind::Modified,
    };
    let fallback = match &e.old_path {
        Some(p) => p.clone(),
        None => e.path.clone(),
    };
    let (old_path, new_path) = match &e.change {
        ChangeType::Added => (None, Some(e.path.clone())),
        ChangeType::Deleted => (Some(fallback), None),
        _ => (Some(fallback), Some(e.path.clone())),
    };
    Diff {
        change,
        old_path,
        new_path,
        old_content: None,
        new_content: None,
        content_omitted: false,
        additions: None,
        deletions: None,
        repo_id: None,
    }
}


/// The diff of a status entry has no old path exactly where it is an
/// addition, and no new path exactly where it is a deletion.
pub proof fn lemma_status_diff_invariant(e: StatusDiffEntryModel)
    ensures
        status_diff(e).old_path is None <==> status_diff(e).change == DiffChangeKind::Added,
        status_diff(e).new_path is None <==> status_diff(e).change == DiffChangeKind::Deleted,
{
}

} // verus!
