//! Parsers for the machine-readable output of git: the worktree list, the
//! zero-delimited status, the remote list and lists of file names.

use vstd::prelude::*;
use crate::model::{lemma_models_bytes, lemma_models_chars, lemma_models_push, Model};
use crate::text::{
    has_prefix, lines, lines_of, matches_at, split, split_bytes, split_chars, text_of, to_chars,
    trim_bounds, trimmed, without_prefix, without_suffix,
};
use crate::types::{
    StatusEntry, StatusEntryModel, WorktreeEntry, WorktreeEntryModel, WorktreeStatus,
    WorktreeStatusModel,
};

verus! {

/// The characters `v[from..to]`.
pub(crate) fn sub_chars(v: &Vec<char>, from: usize, to: usize) -> (r: Vec<char>)
    requires
        from <= to <= v.len(),
    ensures
        r@ == v@.subrange(from as int, to as int),
{
    let mut out: Vec<char> = Vec::new();
    let mut i: usize = from;
    while i < to
        invariant
            from <= i <= to <= v.len(),
            out@ == v@.subrange(from as int, i as int),
        decreases to - i,
    {
        out.push(v[i]);
        assert(v@.subrange(from as int, i + 1) =~= v@.subrange(from as int, i as int).push(
            v@[i as int],
        ));
        i += 1;
    }
    out
}

/// `line` without surrounding whitespace.
pub fn trimmed_chars(line: &Vec<char>) -> (r: Vec<char>)
    ensures
        r@ == trimmed(line@),
{
    assert(line@.subrange(0, line@.len() as int) =~= line@);
    let (a, b) = trim_bounds(line, 0, line.len());
    sub_chars(line, a, b)
}

/// What stands in `line` after `prefix`, where `line` begins with it.
pub fn after_prefix(line: &Vec<char>, prefix: &str) -> (r: Option<Vec<char>>)
    ensures
        match r {
            Some(rest) => without_prefix(line@, prefix@) == Some(rest@),
            None => without_prefix(line@, prefix@) is None,
        },
{
    let p = to_chars(prefix);
    assert(line@.skip(0) =~= line@);
    if matches_at(line, 0, &p) {
        let rest = sub_chars(line, p.len(), line.len());
        assert(line@.subrange(p@.len() as int, line@.len() as int) =~= line@.skip(p@.len() as int));
        Some(rest)
    } else {
        None
    }
}

/// What stands in `line` before `suffix`, where `line` ends with it.
pub fn before_suffix(line: &Vec<char>, suffix: &str) -> (r: Option<Vec<char>>)
    ensures
        match r {
            Some(rest) => without_suffix(line@, suffix@) == Some(rest@),
            None => without_suffix(line@, suffix@) is None,
        },
{
    let p = to_chars(suffix);
    if p.len() > line.len() {
        return None;
    }
    let at: usize = line.len() - p.len();
    let hit = matches_at(line, at, &p);
    assert(line@.skip(at as int).take(p@.len() as int) =~= line@.skip(at as int));
    if hit {
        let rest = sub_chars(line, 0, at);
        assert(line@.subrange(0, at as int) =~= line@.take(at as int));
        Some(rest)
    } else {
        None
    }
}

/// What the worktree list parser remembers between lines.
pub struct ListState {
    pub path: Option<Seq<char>>,
    pub head: bool,
    pub branch: Option<Seq<char>>,
}

/// The entry that a record closes, where it has both a path and a `HEAD` line.
pub open spec fn closed_entry(st: ListState) -> Option<WorktreeEntryModel> {
    if st.path is Some && st.head {
        Some(WorktreeEntryModel { path: st.path->0, branch: st.branch })
    } else {
        None
    }
}

/// The state after one line of the worktree list. A blank line closes the
/// record: path and `HEAD` are forgotten, the branch only where an entry came
/// out.
pub open spec fn list_step(st: ListState, raw: Seq<char>) -> ListState {
    let line = trimmed(raw);
    if line.len() == 0 {
        ListState {
            path: None,
            head: false,
            branch: if closed_entry(st) is Some {
                None
            } else {
                st.branch
            },
        }
    } else if has_prefix(line, "worktree "@) {
        ListState { path: without_prefix(line, "worktree "@), ..st }
    } else if has_prefix(line, "HEAD "@) {
        ListState { head: true, ..st }
    } else if has_prefix(line, "branch "@) {
        ListState {
            branch: without_prefix(without_prefix(line, "branch "@)->0, "refs/heads/"@),
            ..st
        }
    } else {
        st
    }
}

/// The entry that one line of the worktree list gives, if any.
pub open spec fn list_emit(st: ListState, raw: Seq<char>) -> Option<WorktreeEntryModel> {
    if trimmed(raw).len() == 0 {
        closed_entry(st)
    } else {
        None
    }
}

/// The sequence of at most one item.
pub open spec fn maybe<T>(x: Option<T>) -> Seq<T> {
    match x {
        Some(v) => seq![v],
        None => Seq::empty(),
    }
}

/// The entries that the remaining lines give from state `st` on; the end of
/// the text closes the last record.
pub open spec fn list_from(lines: Seq<Seq<char>>, st: ListState) -> Seq<WorktreeEntryModel>
    decreases lines.len(),
{
    if lines.len() == 0 {
        maybe(closed_entry(st))
    } else {
        maybe(list_emit(st, lines[0])) + list_from(lines.drop_first(), list_step(st, lines[0]))
    }
}

/// The linked worktrees that a porcelain worktree list names: records are
/// separated by blank lines, and a record counts once it has a `worktree`
/// line and a `HEAD` line.
pub open spec fn worktree_list(output: Seq<char>) -> Seq<WorktreeEntryModel> {
    list_from(lines_of(output), ListState { path: None, head: false, branch: None })
}

/// The text of an optional character vector.
pub open spec fn opt_chars(v: Option<Vec<char>>) -> Option<Seq<char>> {
    match v {
        Some(x) => Some(x@),
        None => None,
    }
}

fn option_text(v: &Option<Vec<char>>) -> (r: Option<String>)
    ensures
        r.model() == opt_chars(*v),
{
    match v {
        Some(x) => Some(text_of(x)),
        None => None,
    }
}

/// Parses the output of `git worktree list --porcelain`.
pub fn parse_worktree_list(output: &str) -> (r: Vec<WorktreeEntry>)
    ensures
        r.model() == worktree_list(output@),
{
    let ls = lines(output);
    let ghost all = lines_of(output@);
    let mut out: Vec<WorktreeEntry> = Vec::new();
    let mut path: Option<Vec<char>> = None;
    let mut head: bool = false;
    let mut branch: Option<Vec<char>> = None;
    let mut i: usize = 0;
    assert(all.skip(0) =~= all);
    assert(out.model() =~= Seq::<WorktreeEntryModel>::empty());
    while i < ls.len()
        invariant
            i <= ls.len(),
            ls.model() == all,
            worktree_list(output@) == out.model() + list_from(
                all.skip(i as int),
                ListState {
                    path: opt_chars(path),
                    head,
                    branch: opt_chars(branch),
                },
            ),
        decreases ls.len() - i,
    {
        let ghost st = ListState {
            path: opt_chars(path),
            head,
            branch: opt_chars(branch),
        };
        proof {
            lemma_models_chars(ls@[i as int]@);
            assert(all[i as int] == ls@[i as int]@);
            assert(all.skip(i as int)[0] == all[i as int]);
            assert(all.skip(i as int).drop_first() =~= all.skip(i + 1));
        }
        let line = trimmed_chars(&ls[i]);
        let ghost before = out.model();
        if line.len() == 0 {
            let closes = path.is_some() && head;
            if closes {
                let entry = WorktreeEntry {
                    path: text_of(path.as_ref().unwrap()),
                    branch: option_text(&branch),
                };
                proof {
                    lemma_models_push(out@, entry);
                }
                out.push(entry);
                branch = None;
            }
            path = None;
            head = false;
        } else {
            let p = after_prefix(&line, "worktree ");
            if p.is_some() {
                path = p;
            } else if after_prefix(&line, "HEAD ").is_some() {
                head = true;
            } else {
                let b = after_prefix(&line, "branch ");
                if b.is_some() {
                    branch = after_prefix(b.as_ref().unwrap(), "refs/heads/");
                }
            }
        }
        assert(out.model() =~= before + maybe(list_emit(st, all[i as int])));
        assert((before + maybe(list_emit(st, all[i as int]))) + list_from(
            all.skip(i + 1),
            list_step(st, all[i as int]),
        ) =~= before + (maybe(list_emit(st, all[i as int])) + list_from(
            all.skip(i + 1),
            list_step(st, all[i as int]),
        )));
        i += 1;
    }
    let ghost before = out.model();
    if path.is_some() && head {
        let entry = WorktreeEntry {
            path: text_of(path.as_ref().unwrap()),
            branch: option_text(&branch),
        };
        proof {
            lemma_models_push(out@, entry);
        }
        out.push(entry);
    }
    assert(all.skip(ls@.len() as int) =~= Seq::<Seq<char>>::empty());
    out
}

/// The lines that are not blank, each without surrounding whitespace.
pub open spec fn nonblank_from(lines: Seq<Seq<char>>) -> Seq<Seq<char>>
    decreases lines.len(),
{
    if lines.len() == 0 {
        Seq::empty()
    } else {
        let first = trimmed(lines[0]);
        (if first.len() == 0 {
            Seq::empty()
        } else {
            seq![first]
        }) + nonblank_from(lines.drop_first())
    }
}

/// The names that a list of one name per line holds.
pub open spec fn name_list(output: Seq<char>) -> Seq<Seq<char>> {
    nonblank_from(lines_of(output))
}

/// Parses a list of one name per line, skipping blank lines.
pub fn parse_name_list(output: &str) -> (r: Vec<String>)
    ensures
        r.model() == name_list(output@),
{
    let ls = lines(output);
    let ghost all = lines_of(output@);
    let mut out: Vec<String> = Vec::new();
    let mut i: usize = 0;
    assert(all.skip(0) =~= all);
    assert(out.model() =~= Seq::<Seq<char>>::empty());
    while i < ls.len()
        invariant
            i <= ls.len(),
            ls.model() == all,
            name_list(output@) == out.model() + nonblank_from(all.skip(i as int)),
        decreases ls.len() - i,
    {
        proof {
            lemma_models_chars(ls@[i as int]@);
            assert(all[i as int] == ls@[i as int]@);
            assert(all.skip(i as int)[0] == all[i as int]);
            assert(all.skip(i as int).drop_first() =~= all.skip(i + 1));
        }
        let line = trimmed_chars(&ls[i]);
        let ghost before = out.model();
        if line.len() != 0 {
            let name = text_of(&line);
            proof {
                lemma_models_push(out@, name);
            }
            out.push(name);
            assert((before + seq![line@]) + nonblank_from(all.skip(i + 1)) =~= before + (seq![
                line@,
            ] + nonblank_from(all.skip(i + 1))));
        } else {
            assert(before + (Seq::<Seq<char>>::empty() + nonblank_from(all.skip(i + 1)))
                =~= before + nonblank_from(all.skip(i + 1)));
        }
        i += 1;
    }
    assert(all.skip(ls@.len() as int) =~= Seq::<Seq<char>>::empty());
    assert(out.model() + Seq::<Seq<char>>::empty() =~= out.model());
    out
}

/// The remote that one line of the remote list names: name and URL stand on
/// either side of the first tab, and the URL loses the note of its direction.
pub open spec fn remote_of(raw: Seq<char>) -> Option<(Seq<char>, Seq<char>)> {
    let line = trimmed(raw);
    let parts = split(line, '\t');
    if line.len() == 0 || parts.len() < 2 {
        None
    } else {
        let url = match without_suffix(parts[1], " (fetch)"@) {
            Some(u) => u,
            None => match without_suffix(parts[1], " (push)"@) {
                Some(u) => u,
                None => parts[1],
            },
        };
        Some((parts[0], url))
    }
}

/// Whether a remote of that name is among `found`.
pub open spec fn has_remote(found: Seq<(Seq<char>, Seq<char>)>, name: Seq<char>) -> bool {
    exists|k: int| 0 <= k < found.len() && (#[trigger] found[k]).0 == name
}

/// `found` with the remotes of the remaining lines, each name once: the
/// first line that names a remote decides its URL.
pub open spec fn remotes_from(lines: Seq<Seq<char>>, found: Seq<(Seq<char>, Seq<char>)>) -> Seq<
    (Seq<char>, Seq<char>),
>
    decreases lines.len(),
{
    if lines.len() == 0 {
        found
    } else {
        let next = match remote_of(lines[0]) {
            Some(r) => if has_remote(found, r.0) {
                found
            } else {
                found.push(r)
            },
            None => found,
        };
        remotes_from(lines.drop_first(), next)
    }
}

/// The remotes that the output of `git remote -v` names.
pub open spec fn remote_list(output: Seq<char>) -> Seq<(Seq<char>, Seq<char>)> {
    remotes_from(lines_of(output), Seq::empty())
}

fn knows_remote(found: &Vec<(String, String)>, name: &String) -> (r: bool)
    ensures
        r == has_remote(found.model(), name@),
{
    let mut k: usize = 0;
    while k < found.len()
        invariant
            k <= found.len(),
            forall|j: int| 0 <= j < k ==> (#[trigger] found.model()[j]).0 != name@,
        decreases found.len() - k,
    {
        if found[k].0 == *name {
            assert(found.model()[k as int].0 == name@);
            return true;
        }
        k += 1;
    }
    false
}

/// Parses the output of `git remote -v`.
pub fn parse_remote_list(output: &str) -> (r: Vec<(String, String)>)
    ensures
        r.model() == remote_list(output@),
{
    let ls = lines(output);
    let ghost all = lines_of(output@);
    let mut out: Vec<(String, String)> = Vec::new();
    let mut i: usize = 0;
    assert(all.skip(0) =~= all);
    assert(out.model() =~= Seq::<(Seq<char>, Seq<char>)>::empty());
    while i < ls.len()
        invariant
            i <= ls.len(),
            ls.model() == all,
            remote_list(output@) == remotes_from(all.skip(i as int), out.model()),
        decreases ls.len() - i,
    {
        proof {
            lemma_models_chars(ls@[i as int]@);
            assert(all[i as int] == ls@[i as int]@);
            assert(all.skip(i as int)[0] == all[i as int]);
            assert(all.skip(i as int).drop_first() =~= all.skip(i + 1));
        }
        let line = trimmed_chars(&ls[i]);
        if line.len() != 0 {
            let parts = split_chars(&line, '\t');
            if parts.len() >= 2 {
                proof {
                    lemma_models_chars(parts@[0]@);
                    lemma_models_chars(parts@[1]@);
                    assert(parts.model()[0] == parts@[0]@);
                    assert(parts.model()[1] == parts@[1]@);
                }
                let name = text_of(&parts[0]);
                let url = match before_suffix(&parts[1], " (fetch)") {
                    Some(u) => text_of(&u),
                    None => match before_suffix(&parts[1], " (push)") {
                        Some(u) => text_of(&u),
                        None => text_of(&parts[1]),
                    },
                };
                if !knows_remote(&out, &name) {
                    let pair = (name, url);
                    proof {
                        lemma_models_push(out@, pair);
                    }
                    out.push(pair);
                }
            }
        }
        i += 1;
    }
    assert(all.skip(ls@.len() as int) =~= Seq::<Seq<char>>::empty());
    out
}

/// Whether a status code marks a rename or a copy.
pub open spec fn is_rename_code(c: char) -> bool {
    c == 'R' || c == 'C'
}

/// The status with the remaining records added. A record is two status
/// characters, a space and a path; a shorter one is skipped; a rename or copy
/// takes the record after it as the path it came from.
pub open spec fn status_from(records: Seq<Seq<u8>>, acc: WorktreeStatusModel) -> WorktreeStatusModel
    decreases records.len(),
{
    if records.len() == 0 {
        acc
    } else {
        let rec = records[0];
        if rec.len() < 4 {
            status_from(records.drop_first(), acc)
        } else {
            let staged = rec[0] as char;
            let unstaged = rec[1] as char;
            let takes_next = (is_rename_code(staged) || is_rename_code(unstaged)) && records.len()
                >= 2;
            let untracked = staged == '?' && unstaged == '?';
            let entry = StatusEntryModel {
                staged,
                unstaged,
                path: rec.skip(3),
                orig_path: if takes_next {
                    Some(records[1])
                } else {
                    None
                },
                is_untracked: untracked,
            };
            let next = WorktreeStatusModel {
                uncommitted_tracked: acc.uncommitted_tracked + if !untracked && (staged != ' '
                    || unstaged != ' ') {
                    1int
                } else {
                    0int
                },
                untracked: acc.untracked + if untracked {
                    1int
                } else {
                    0int
                },
                entries: acc.entries.push(entry),
            };
            status_from(
                if takes_next {
                    records.skip(2)
                } else {
                    records.drop_first()
                },
                next,
            )
        }
    }
}

/// The status that a zero-delimited porcelain status stream describes.
pub open spec fn worktree_status(output: Seq<u8>) -> WorktreeStatusModel {
    status_from(
        split(output, 0u8),
        WorktreeStatusModel { uncommitted_tracked: 0, untracked: 0, entries: Seq::empty() },
    )
}

/// Parses the output of `git status --porcelain -z`.
pub fn parse_status(output: &Vec<u8>) -> (r: WorktreeStatus)
    ensures
        r.model() == worktree_status(output@),
{
    let records = split_bytes(output, 0u8);
    let ghost all = split(output@, 0u8);
    let mut entries: Vec<StatusEntry> = Vec::new();
    let mut uncommitted_tracked: usize = 0;
    let mut untracked: usize = 0;
    let mut i: usize = 0;
    assert(all.skip(0) =~= all);
    assert(entries.model() =~= Seq::<StatusEntryModel>::empty());
    while i < records.len()
        invariant
            i <= records.len(),
            records.model() == all,
            uncommitted_tracked + untracked <= i,
            worktree_status(output@) == status_from(
                all.skip(i as int),
                WorktreeStatusModel {
                    uncommitted_tracked: uncommitted_tracked as int,
                    untracked: untracked as int,
                    entries: entries.model(),
                },
            ),
        decreases records.len() - i,
    {
        proof {
            lemma_models_bytes(records@[i as int]@);
            assert(all[i as int] == records@[i as int]@);
            assert(all.skip(i as int)[0] == all[i as int]);
            assert(all.skip(i as int).drop_first() =~= all.skip(i + 1));
            if i + 1 < records.len() {
                lemma_models_bytes(records@[i + 1]@);
                assert(all[i + 1] == records@[i + 1]@);
                assert(all.skip(i as int)[1] == all[i + 1]);
                assert(all.skip(i as int).skip(2) =~= all.skip(i + 2));
            }
        }
        let rec = &records[i];
        if rec.len() < 4 {
            i += 1;
            continue ;
        }
        let staged = rec[0] as char;
        let unstaged = rec[1] as char;
        let mut path: Vec<u8> = Vec::new();
        let mut k: usize = 3;
        while k < rec.len()
            invariant
                3 <= k <= rec.len(),
                path@ == rec@.subrange(3, k as int),
            decreases rec.len() - k,
        {
            path.push(rec[k]);
            assert(rec@.subrange(3, k + 1) =~= rec@.subrange(3, k as int).push(rec@[k as int]));
            k += 1;
        }
        assert(rec@.subrange(3, rec@.len() as int) =~= rec@.skip(3));
        let renamed = staged == 'R' || staged == 'C' || unstaged == 'R' || unstaged == 'C';
        let mut orig_path: Option<Vec<u8>> = None;
        let mut step: usize = 1;
        if renamed && i + 1 < records.len() {
            orig_path = Some(crate::text::copy_bytes(&records[i + 1]));
            step = 2;
        }
        let is_untracked = staged == '?' && unstaged == '?';
        if is_untracked {
            untracked += 1;
        } else if staged != ' ' || unstaged != ' ' {
            uncommitted_tracked += 1;
        }
        let entry = StatusEntry { staged, unstaged, path, orig_path, is_untracked };
        proof {
            lemma_models_push(entries@, entry);
        }
        entries.push(entry);
        i += step;
    }
    assert(all.skip(records@.len() as int) =~= Seq::<Seq<u8>>::empty());
    WorktreeStatus { uncommitted_tracked, untracked, entries }
}


/// How many of the entries are untracked paths.
pub open spec fn count_untracked(entries: Seq<StatusEntryModel>) -> int
    decreases entries.len(),
{
    if entries.len() == 0 {
        0
    } else {
        count_untracked(entries.drop_last()) + if entries.last().is_untracked {
            1int
        } else {
            0int
        }
    }
}

/// How many of the entries are tracked paths with a change, staged or not.
pub open spec fn count_changed(entries: Seq<StatusEntryModel>) -> int
    decreases entries.len(),
{
    if entries.len() == 0 {
        0
    } else {
        count_changed(entries.drop_last()) + if !entries.last().is_untracked && (
        entries.last().staged != ' ' || entries.last().unstaged != ' ') {
            1int
        } else {
            0int
        }
    }
}

/// Whether the two numbers of a status are the counts of its entries, and
/// each entry is marked untracked exactly where both its codes are `?`.
pub open spec fn status_consistent(status: WorktreeStatusModel) -> bool {
    &&& status.untracked == count_untracked(status.entries)
    &&& status.uncommitted_tracked == count_changed(status.entries)
    &&& forall|i: int|
        0 <= i < status.entries.len() ==> (#[trigger] status.entries[i]).is_untracked == (
        status.entries[i].staged == '?' && status.entries[i].unstaged == '?')
}

/// Adding records keeps a status consistent.
pub proof fn lemma_status_from_consistent(records: Seq<Seq<u8>>, acc: WorktreeStatusModel)
    requires
        status_consistent(acc),
    ensures
        status_consistent(status_from(records, acc)),
    decreases records.len(),
{
    if records.len() > 0 {
        let rec = records[0];
        if rec.len() < 4 {
            lemma_status_from_consistent(records.drop_first(), acc);
        } else {
            let staged = rec[0] as char;
            let unstaged = rec[1] as char;
            let takes_next = (is_rename_code(staged) || is_rename_code(unstaged)) && records.len()
                >= 2;
            let untracked = staged == '?' && unstaged == '?';
            let entry = StatusEntryModel {
                staged,
                unstaged,
                path: rec.skip(3),
                orig_path: if takes_next {
                    Some(records[1])
                } else {
                    None
                },
                is_untracked: untracked,
            };
            let next = WorktreeStatusModel {
                uncommitted_tracked: acc.uncommitted_tracked + if !untracked && (staged != ' '
                    || unstaged != ' ') {
                    1int
                } else {
                    0int
                },
                untracked: acc.untracked + if untracked {
                    1int
                } else {
                    0int
                },
                entries: acc.entries.push(entry),
            };
            assert(next.entries.drop_last() =~= acc.entries);
            assert(next.entries.last() == entry);
            assert forall|i: int| 0 <= i < next.entries.len() implies (
            #[trigger] next.entries[i]).is_untracked == (next.entries[i].staged == '?'
                && next.entries[i].unstaged == '?') by {
                if i < acc.entries.len() {
                    assert(next.entries[i] == acc.entries[i]);
                }
            }
            lemma_status_from_consistent(
                if takes_next {
                    records.skip(2)
                } else {
                    records.drop_first()
                },
                next,
            );
        }
    }
}

/// The numbers of a status are the counts of its entries: as many untracked
/// paths as entries marked untracked, as many changed tracked paths as
/// entries that are tracked and have a code other than a blank.
pub proof fn lemma_status_counts(output: Seq<u8>)
    ensures
        status_consistent(worktree_status(output)),
{
    lemma_status_from_consistent(
        split(output, 0u8),
        WorktreeStatusModel { uncommitted_tracked: 0, untracked: 0, entries: Seq::empty() },
    );
}

/// Whether no two remotes of a list have the same name.
pub open spec fn names_differ(found: Seq<(Seq<char>, Seq<char>)>) -> bool {
    forall|i: int, j: int| 0 <= i < j < found.len() ==> (#[trigger] found[i]).0 != (
    #[trigger] found[j]).0
}

/// Adding the remotes of more lines keeps the names apart.
pub proof fn lemma_remotes_from_differ(lines: Seq<Seq<char>>, found: Seq<(Seq<char>, Seq<char>)>)
    requires
        names_differ(found),
    ensures
        names_differ(remotes_from(lines, found)),
    decreases lines.len(),
{
    if lines.len() > 0 {
        let next = match remote_of(lines[0]) {
            Some(r) => if has_remote(found, r.0) {
                found
            } else {
                found.push(r)
            },
            None => found,
        };
        assert(names_differ(next)) by {
            let first = remote_of(lines[0]);
            if first is Some && next != found {
                let r = first->Some_0;
                assert forall|i: int, j: int| 0 <= i < j < next.len() implies (
                #[trigger] next[i]).0 != (#[trigger] next[j]).0 by {
                    if j < found.len() {
                        assert(next[i] == found[i] && next[j] == found[j]);
                    } else {
                        assert(next[i] == found[i]);
                        assert(next[j] == r);
                    }
                }
            }
        }
        lemma_remotes_from_differ(lines.drop_first(), next);
    }
}

/// Each remote is listed once.
pub proof fn lemma_remote_names_differ(output: Seq<char>)
    ensures
        names_differ(remote_list(output)),
{
    lemma_remotes_from_differ(lines_of(output), Seq::empty());
}

} // verus!
