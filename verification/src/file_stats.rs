//! How often and how recently files were touched by the newest commits.

use vstd::prelude::*;
use crate::branches::{branch_date, date_run};
use crate::effects::{
    copy_names,
    argv1, ask, settled, Replay, Reply, ReplyModel, Request, RequestKind, Run, TouchRecord,
    TouchRecordModel,
};
use crate::errors::{GitServiceError, GitServiceErrorModel};
use crate::git_service::{query, GitService};
use crate::model::{lemma_models_push, models, Model};
use crate::text::{decimal, decimal_text};
use crate::types::{FileStat, FileStatModel};

verus! {

/// The place of `path` in the statistics, or -1 where it has none.
pub open spec fn place_of(stats: Seq<(Seq<char>, FileStatModel)>, path: Seq<char>) -> int
    decreases stats.len(),
{
    if stats.len() == 0 {
        -1
    } else if stats.last().0 == path && place_of(stats.drop_last(), path) < 0 {
        stats.len() - 1
    } else {
        place_of(stats.drop_last(), path)
    }
}

/// The statistics of a file after one more commit touched it: the count goes
/// up, as far as it can, and the commit is remembered where it is newer than
/// the one remembered.
pub open spec fn bumped(stat: FileStatModel, index: usize, seconds: i64) -> FileStatModel {
    FileStatModel {
        last_index: if index < stat.last_index {
            index
        } else {
            stat.last_index
        },
        commit_count: if stat.commit_count < u32::MAX {
            (stat.commit_count + 1) as u32
        } else {
            stat.commit_count
        },
        last_time: if index < stat.last_index {
            seconds
        } else {
            stat.last_time
        },
    }
}

/// The statistics after the commit at place `index` touched `path`.
pub open spec fn touched(
    stats: Seq<(Seq<char>, FileStatModel)>,
    path: Seq<char>,
    index: usize,
    seconds: i64,
) -> Seq<(Seq<char>, FileStatModel)> {
    let at = place_of(stats, path);
    if 0 <= at < stats.len() {
        stats.update(at, (path, bumped(stats[at].1, index, seconds)))
    } else {
        stats.push((path, FileStatModel { last_index: index, commit_count: 1, last_time: seconds }))
    }
}

/// The statistics after the commit at place `index` touched `paths`.
pub open spec fn touched_all(
    stats: Seq<(Seq<char>, FileStatModel)>,
    paths: Seq<Seq<char>>,
    index: usize,
    seconds: i64,
) -> Seq<(Seq<char>, FileStatModel)>
    decreases paths.len(),
{
    if paths.len() == 0 {
        stats
    } else {
        touched(touched_all(stats, paths.drop_last(), index, seconds), paths.last(), index, seconds)
    }
}

/// The statistics of the commits `records[..n]`, newest first: one entry for
/// each file, in the order the files were first met.
pub open spec fn stats_of(records: Seq<TouchRecordModel>, n: int) -> Seq<(Seq<char>, FileStatModel)>
    decreases n,
{
    if n <= 0 || n > records.len() {
        Seq::empty()
    } else {
        touched_all(
            stats_of(records, n - 1),
            records[n - 1].paths,
            (n - 1) as usize,
            records[n - 1].seconds,
        )
    }
}

fn find_place(stats: &Vec<(String, FileStat)>, path: &str) -> (r: Option<usize>)
    ensures
        match r {
            Some(i) => i < stats.len() && place_of(stats.model(), path@) == i,
            None => place_of(stats.model(), path@) < 0,
        },
{
    let mut i: usize = 0;
    assert(stats.model().take(0) =~= Seq::<(Seq<char>, FileStatModel)>::empty());
    while i < stats.len()
        invariant
            i <= stats.len(),
            place_of(stats.model().take(i as int), path@) < 0,
        decreases stats.len() - i,
    {
        proof {
            assert(stats.model().take(i + 1).drop_last() =~= stats.model().take(i as int));
            assert(stats.model().take(i + 1).last() == stats@[i as int].model());
        }
        if crate::text::same_text(stats[i].0.as_str(), path) {
            proof {
                lemma_place_grows(stats.model(), path@, i as int, i + 1);
            }
            return Some(i);
        }
        i += 1;
    }
    assert(stats.model().take(stats@.len() as int) =~= stats.model());
    None
}

/// A place found among the first `n` entries is the place among all of them.
pub proof fn lemma_place_grows(stats: Seq<(Seq<char>, FileStatModel)>, path: Seq<char>, i: int, n: int)
    requires
        0 <= i < n <= stats.len(),
        place_of(stats.take(n), path) == i,
    ensures
        place_of(stats, path) == i,
    decreases stats.len() - n,
{
    if n < stats.len() {
        assert(stats.take(n + 1).drop_last() =~= stats.take(n));
        lemma_place_grows(stats, path, i, n + 1);
    } else {
        assert(stats.take(n) =~= stats);
    }
}

fn touch(stats: &mut Vec<(String, FileStat)>, path: &str, index: usize, seconds: i64)
    ensures
        final(stats).model() == touched(old(stats).model(), path@, index, seconds),
{
    let ghost before = stats.model();
    match find_place(stats, path) {
        Some(i) => {
            let stat = &stats[i].1;
            assert(before[i as int] == stats@[i as int].model());
            let newer = index < stat.last_index;
            let bumped_stat = FileStat {
                last_index: if newer {
                    index
                } else {
                    stat.last_index
                },
                commit_count: if stat.commit_count < u32::MAX {
                    stat.commit_count + 1
                } else {
                    stat.commit_count
                },
                last_time: if newer {
                    seconds
                } else {
                    stat.last_time
                },
            };
            let entry = (path.to_owned(), bumped_stat);
            let ghost old_items = stats@;
            stats.set(i, entry);
            assert(models(old_items.update(i as int, entry)) =~= models(old_items).update(
                i as int,
                entry.model(),
            ));
        },
        None => {
            let entry = (
                path.to_owned(),
                FileStat { last_index: index, commit_count: 1, last_time: seconds },
            );
            proof {
                lemma_models_push(stats@, entry);
            }
            stats.push(entry);
        },
    }
}

/// The statistics of a list of commits, newest first.
pub fn file_stats(records: &Vec<TouchRecord>) -> (r: Vec<(String, FileStat)>)
    ensures
        r.model() == stats_of(records.model(), records.len() as int),
{
    let mut stats: Vec<(String, FileStat)> = Vec::new();
    let mut n: usize = 0;
    assert(stats.model() =~= Seq::<(Seq<char>, FileStatModel)>::empty());
    while n < records.len()
        invariant
            n <= records.len(),
            stats.model() == stats_of(records.model(), n as int),
        decreases records.len() - n,
    {
        let record = &records[n];
        assert(records.model()[n as int] == record.model());
        let ghost base = stats.model();
        let mut k: usize = 0;
        assert(record.paths.model().take(0) =~= Seq::<Seq<char>>::empty());
        while k < record.paths.len()
            invariant
                k <= record.paths.len(),
                stats.model() == touched_all(
                    base,
                    record.paths.model().take(k as int),
                    n,
                    record.seconds,
                ),
            decreases record.paths.len() - k,
        {
            proof {
                assert(record.paths.model().take(k + 1).drop_last() =~= record.paths.model().take(
                    k as int,
                ));
                assert(record.paths.model().take(k + 1).last() == record.paths@[k as int]@);
            }
            touch(&mut stats, record.paths[k].as_str(), n, record.seconds);
            k += 1;
        }
        assert(record.paths.model().take(record.paths@.len() as int) =~= record.paths.model());
        n += 1;
    }
    stats
}

/// The commits from place `k` on with the time to take for each, behind
/// those in `done`: a commit whose time no date can hold gets the present
/// time.
pub open spec fn dated_run(
    records: Seq<TouchRecordModel>,
    k: int,
    done: Seq<TouchRecordModel>,
    rest: Seq<ReplyModel>,
) -> Run<Seq<TouchRecordModel>>
    decreases records.len() - k,
{
    if k < 0 || k >= records.len() {
        Run::Ready(done, rest)
    } else {
        match date_run(Some(records[k].seconds), rest) {
            Run::Pending(q) => Run::Pending(q),
            Run::Ready(time, rest1) => dated_run(
                records,
                k + 1,
                done.push(TouchRecordModel { seconds: time, paths: records[k].paths }),
                rest1,
            ),
        }
    }
}

fn dated(io: &mut Replay, records: &Vec<TouchRecord>) -> (r: Result<Vec<TouchRecord>, Request>)
    ensures
        settled(
            r,
            final(io).unread(),
            dated_run(records.model(), 0, Seq::empty(), old(io).unread()),
        ),
{
    let ghost all = records.model();
    let ghost start = io.unread();
    let mut out: Vec<TouchRecord> = Vec::new();
    let mut k: usize = 0;
    assert(out.model() =~= Seq::<TouchRecordModel>::empty());
    while k < records.len()
        invariant
            k <= records.len(),
            all == records.model(),
            start == old(io).unread(),
            dated_run(all, 0, Seq::empty(), start) == dated_run(
                all,
                k as int,
                out.model(),
                io.unread(),
            ),
        decreases records.len() - k,
    {
        let record = &records[k];
        assert(all[k as int] == record.model());
        let time = branch_date(io, Some(record.seconds))?;
        let item = TouchRecord { seconds: time, paths: copy_names(&record.paths) };
        proof {
            lemma_models_push(out@, item);
        }
        out.push(item);
        k += 1;
    }
    Ok(out)
}

/// The run of reading the reply that tells the files that commits touched:
/// the commits get their times, then the statistics are made.
pub open spec fn touches_run(reply: ReplyModel, rest: Seq<ReplyModel>) -> Run<
    Result<Seq<(Seq<char>, FileStatModel)>, GitServiceErrorModel>,
> {
    match reply {
        ReplyModel::Touched(records) => match dated_run(records, 0, Seq::empty(), rest) {
            Run::Pending(q) => Run::Pending(q),
            Run::Ready(dated, rest1) => Run::Ready(Ok(stats_of(dated, dated.len() as int)), rest1),
        },
        ReplyModel::Failed(f) => Run::Ready(Err(GitServiceErrorModel::Git(f.message)), rest),
        _ => Run::Ready(Err(GitServiceErrorModel::Git("unexpected reply"@)), rest),
    }
}

impl GitService {
    /// The run of `collect_recent_file_stats`.
    pub open spec fn collect_recent_file_stats_run(
        repo: Seq<char>,
        commit_limit: usize,
        rest: Seq<ReplyModel>,
    ) -> Run<Result<Seq<(Seq<char>, FileStatModel)>, GitServiceErrorModel>> {
        match Self::open_repo_run(repo, rest) {
            Run::Pending(q) => Run::Pending(q),
            Run::Ready(Err(e), rest1) => Run::Ready(Err(e), rest1),
            Run::Ready(Ok(_), rest1) => match ask(
                query(RequestKind::RecentChanges, repo, seq![decimal(commit_limit as nat)]),
                rest1,
            ) {
                Run::Pending(q) => Run::Pending(q),
                Run::Ready(reply, rest2) => touches_run(reply, rest2),
            },
        }
    }

    /// For each file that the newest `commit_limit` commits touched: how
    /// many of them touched it, and which was the newest. A commit whose
    /// time no date can hold counts with the present time.
    pub fn collect_recent_file_stats(&self, io: &mut Replay, repo_path: &str, commit_limit: usize) -> (r:
        Result<Result<Vec<(String, FileStat)>, GitServiceError>, Request>)
        ensures
            settled(
                r,
                final(io).unread(),
                Self::collect_recent_file_stats_run(repo_path@, commit_limit, old(io).unread()),
            ),
    {
        match self.open_repo(io, repo_path)? {
            Err(e) => return Ok(Err(e)),
            Ok(()) => {},
        }
        let limit = decimal_text(commit_limit);
        let reply = io.ask(Request::new(RequestKind::RecentChanges, repo_path, argv1(limit.as_str())))?;
        match reply {
            Reply::Touched(records) => {
                let with_times = dated(io, records)?;
                Ok(Ok(file_stats(&with_times)))
            },
            Reply::Failed(f) => Ok(Err(GitServiceError::Git(f.message.clone()))),
            _ => Ok(Err(GitServiceError::Git("unexpected reply".to_owned()))),
        }
    }
}

} // verus!
