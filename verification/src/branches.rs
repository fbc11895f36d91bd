//! Branch listing: which records become branches, and the order they are
//! listed in.

use vstd::prelude::*;
use crate::effects::{
    ask, settled, BranchRecord, BranchRecordModel, Replay, Reply, ReplyModel, Request,
    RequestKind, Run,
};
use crate::errors::{GitServiceError, GitServiceErrorModel};
use crate::git_service::{no_args, query, GitService};
use crate::model::{lemma_models_push, models, Model};
use crate::text::{ends_with, has_suffix, same_text};
use crate::types::{GitBranch, GitBranchModel};

verus! {

/// What `chrono::DateTime::from_timestamp` with no nanoseconds, followed by
/// `DateTime::timestamp`, gives for a number of seconds: the seconds of the
/// date it stands for, or `None` where it is out of range.
pub uninterp spec fn checked_timestamp(seconds: i64) -> Option<i64>;

/// Calls `chrono::DateTime::from_timestamp(seconds, 0)` and reads the date
/// back with `DateTime::timestamp`. The documentation promises that the two
/// round-trip, so a date that was made holds `seconds`.
#[verifier::external_body]
pub(crate) fn utc_seconds(seconds: i64) -> (r: Option<i64>)
    ensures
        r == checked_timestamp(seconds),
        r is Some ==> r->0 == seconds,
{
    match chrono::DateTime::from_timestamp(seconds, 0) {
        Some(date) => Some(date.timestamp()),
        None => None,
    }
}

/// Whether `a` is listed before `b` whatever their places were: the current
/// branch before the others, then the more recent commit first.
pub open spec fn goes_before(a: GitBranchModel, b: GitBranchModel) -> bool {
    if a.is_current != b.is_current {
        a.is_current
    } else {
        a.last_commit_date > b.last_commit_date
    }
}

/// `s`, which is in order, with `x` put in behind every branch that it does
/// not go before.
pub open spec fn insert_sorted(s: Seq<GitBranchModel>, x: GitBranchModel) -> Seq<GitBranchModel>
    decreases s.len(),
{
    if s.len() > 0 && goes_before(x, s.last()) {
        insert_sorted(s.drop_last(), x).push(s.last())
    } else {
        s.push(x)
    }
}

/// The branches in listing order. Branches that neither goes before the
/// other keep the order they came in.
pub open spec fn sorted_branches(s: Seq<GitBranchModel>) -> Seq<GitBranchModel>
    decreases s.len(),
{
    if s.len() == 0 {
        Seq::empty()
    } else {
        insert_sorted(sorted_branches(s.drop_last()), s.last())
    }
}

/// Whether no branch of `s` goes before one that stands in front of it.
pub open spec fn in_order(s: Seq<GitBranchModel>) -> bool {
    forall|i: int, j: int| 0 <= i < j < s.len() ==> !goes_before(#[trigger] s[j], #[trigger] s[i])
}

/// Inserting keeps the order, adds one branch and brings in no other.
pub proof fn lemma_insert_sorted(s: Seq<GitBranchModel>, x: GitBranchModel)
    requires
        in_order(s),
    ensures
        in_order(insert_sorted(s, x)),
        insert_sorted(s, x).len() == s.len() + 1,
        insert_sorted(s, x).to_multiset() == s.to_multiset().insert(x),
        forall|i: int|
            0 <= i < insert_sorted(s, x).len() ==> (#[trigger] insert_sorted(s, x)[i]) == x
                || s.contains(insert_sorted(s, x)[i]),
    decreases s.len(),
{
    broadcast use vstd::seq_lib::group_to_multiset_ensures;

    let r = insert_sorted(s, x);
    if s.len() > 0 && goes_before(x, s.last()) {
        let front = s.drop_last();
        assert forall|i: int, j: int| 0 <= i < j < front.len() implies !goes_before(
            #[trigger] front[j],
            #[trigger] front[i],
        ) by {
            assert(front[j] == s[j] && front[i] == s[i]);
        }
        lemma_insert_sorted(front, x);
        let inner = insert_sorted(front, x);
        assert(r == inner.push(s.last()));
        assert forall|i: int| 0 <= i < r.len() implies (#[trigger] r[i]) == x || s.contains(
            r[i],
        ) by {
            if i < inner.len() {
                assert(r[i] == inner[i]);
                if inner[i] != x {
                    assert(front.contains(inner[i]));
                    let k = choose|k: int| 0 <= k < front.len() && front[k] == inner[i];
                    assert(s[k] == inner[i]);
                }
            } else {
                assert(r[i] == s[s.len() - 1]);
            }
        }
        assert forall|i: int, j: int| 0 <= i < j < r.len() implies !goes_before(
            #[trigger] r[j],
            #[trigger] r[i],
        ) by {
            if j < inner.len() {
                assert(r[j] == inner[j] && r[i] == inner[i]);
            } else {
                assert(r[j] == s.last());
                assert(r[i] == inner[i]);
                if inner[i] != x {
                    assert(front.contains(inner[i]));
                    let k = choose|k: int| 0 <= k < front.len() && front[k] == inner[i];
                    assert(s[k] == inner[i]);
                    assert(!goes_before(s[s.len() - 1], s[k]));
                }
            }
        }
        assert(s =~= front.push(s.last()));
        assert(r.to_multiset() =~= s.to_multiset().insert(x));
    } else {
        assert forall|i: int, j: int| 0 <= i < j < r.len() implies !goes_before(
            #[trigger] r[j],
            #[trigger] r[i],
        ) by {
            if j < s.len() {
                assert(r[j] == s[j] && r[i] == s[i]);
            } else {
                assert(r[j] == x);
                assert(r[i] == s[i]);
                if i < s.len() - 1 {
                    assert(!goes_before(s[s.len() - 1], s[i]));
                }
            }
        }
        assert forall|i: int| 0 <= i < r.len() implies (#[trigger] r[i]) == x || s.contains(
            r[i],
        ) by {
            if i < s.len() {
                assert(r[i] == s[i]);
            }
        }
    }
}

/// The listing is in order and holds exactly the branches it was given.
pub proof fn lemma_sorted_branches(s: Seq<GitBranchModel>)
    ensures
        in_order(sorted_branches(s)),
        sorted_branches(s).len() == s.len(),
        sorted_branches(s).to_multiset() == s.to_multiset(),
    decreases s.len(),
{
    broadcast use vstd::seq_lib::group_to_multiset_ensures;

    if s.len() > 0 {
        lemma_sorted_branches(s.drop_last());
        lemma_insert_sorted(sorted_branches(s.drop_last()), s.last());
        assert(s =~= s.drop_last().push(s.last()));
    } else {
        assert(sorted_branches(s).to_multiset() =~= s.to_multiset());
    }
}

/// The current branch is listed first, however old its newest commit is.
pub proof fn lemma_current_branch_first(s: Seq<GitBranchModel>, k: int)
    requires
        0 <= k < s.len(),
        s[k].is_current,
    ensures
        sorted_branches(s).len() > 0,
        sorted_branches(s)[0].is_current,
{
    broadcast use vstd::seq_lib::group_to_multiset_ensures;

    lemma_sorted_branches(s);
    let r = sorted_branches(s);
    assert(s.to_multiset().count(s[k]) > 0) by {
        assert(s.contains(s[k]));
    }
    assert(r.to_multiset().count(s[k]) > 0);
    assert(r.contains(s[k]));
    let j = choose|j: int| 0 <= j < r.len() && r[j] == s[k];
    if j > 0 {
        assert(!goes_before(r[j], r[0]));
    }
}

/// Where `x` is put into `s`: behind the branches up to `p`, in front of
/// those from `p` on.
pub proof fn lemma_insert_position(s: Seq<GitBranchModel>, x: GitBranchModel, p: int)
    requires
        0 <= p <= s.len(),
        forall|k: int| p <= k < s.len() ==> goes_before(x, #[trigger] s[k]),
        p > 0 ==> !goes_before(x, s[p - 1]),
    ensures
        insert_sorted(s, x) == s.insert(p, x),
    decreases s.len() - p,
{
    if p == s.len() {
        assert(s.push(x) =~= s.insert(p, x));
    } else {
        assert(goes_before(x, s[s.len() - 1]));
        let front = s.drop_last();
        assert forall|k: int| p <= k < front.len() implies goes_before(x, #[trigger] front[k]) by {
            assert(front[k] == s[k]);
        }
        if p > 0 {
            assert(front[p - 1] == s[p - 1]);
        }
        lemma_insert_position(front, x, p);
        assert(front.insert(p, x).push(s.last()) =~= s.insert(p, x));
    }
}

fn copy_branch(b: &GitBranch) -> (r: GitBranch)
    ensures
        r.model() == b.model(),
{
    GitBranch {
        name: b.name.clone(),
        is_current: b.is_current,
        is_remote: b.is_remote,
        last_commit_date: b.last_commit_date,
    }
}

fn listed_before(a: &GitBranch, b: &GitBranch) -> (r: bool)
    ensures
        r == goes_before(a.model(), b.model()),
{
    if a.is_current != b.is_current {
        a.is_current
    } else {
        a.last_commit_date > b.last_commit_date
    }
}

/// Puts branches in listing order: the current branch first, then by the
/// time of the newest commit, newest first.
pub fn sort_branches(branches: &Vec<GitBranch>) -> (r: Vec<GitBranch>)
    ensures
        r.model() == sorted_branches(branches.model()),
{
    let ghost all = branches.model();
    let mut out: Vec<GitBranch> = Vec::new();
    let mut i: usize = 0;
    assert(all.take(0) =~= Seq::<GitBranchModel>::empty());
    assert(out.model() =~= Seq::<GitBranchModel>::empty());
    while i < branches.len()
        invariant
            i <= branches.len(),
            all == branches.model(),
            out.len() == i,
            out.model() == sorted_branches(all.take(i as int)),
        decreases branches.len() - i,
    {
        let x = copy_branch(&branches[i]);
        let mut p: usize = out.len();
        while p > 0 && listed_before(&x, &out[p - 1])
            invariant
                p <= out.len(),
                forall|k: int| p <= k < out.len() ==> goes_before(x.model(), #[trigger] out.model()[k]),
            decreases p,
        {
            p -= 1;
        }
        proof {
            lemma_insert_position(out.model(), x.model(), p as int);
            assert(all.take(i + 1).drop_last() =~= all.take(i as int));
            assert(all.take(i + 1).last() == x.model());
        }
        let ghost before = out@;
        out.insert(p, x);
        assert(models(before.insert(p as int, x)) =~= models(before).insert(p as int, x.model()));
        i += 1;
    }
    assert(all.take(branches@.len() as int) =~= all);
    out
}

/// The time to take for a commit: its own where it is known and a date can
/// hold it, else the present time.
pub open spec fn date_run(seconds: Option<i64>, rest: Seq<ReplyModel>) -> Run<i64> {
    if seconds is Some && checked_timestamp(seconds->0) is Some {
        Run::Ready(seconds->0, rest)
    } else {
        match ask(Request::plain(RequestKind::Now, Seq::empty(), Seq::empty()), rest) {
            Run::Pending(q) => Run::Pending(q),
            Run::Ready(reply, rest1) => Run::Ready(
                match reply {
                    ReplyModel::Instant(t) => t,
                    _ => 0i64,
                },
                rest1,
            ),
        }
    }
}

pub(crate) fn branch_date(io: &mut Replay, seconds: Option<i64>) -> (r: Result<i64, Request>)
    ensures
        settled(r, final(io).unread(), date_run(seconds, old(io).unread())),
{
    let known = match seconds {
        Some(s) => utc_seconds(s),
        None => None,
    };
    match known {
        Some(t) => Ok(t),
        None => {
            proof {
                reveal_strlit("");
                assert(""@ =~= Seq::<char>::empty());
            }
            let reply = io.ask(Request::new(RequestKind::Now, "", no_args()))?;
            Ok(
                match reply {
                    Reply::Instant(t) => *t,
                    _ => 0,
                },
            )
        },
    }
}

/// Whether a record is listed: it has a name, and a remote-tracking one is
/// not the symbolic `HEAD` of its remote.
pub open spec fn is_listed(record: BranchRecordModel, remote: bool) -> bool {
    record.name is Some && !(remote && has_suffix(record.name->0, "/HEAD"@))
}

/// `found` with the branches of the remaining records. A local branch is
/// current where its name is `current`.
pub open spec fn branches_run(
    records: Seq<BranchRecordModel>,
    current: Seq<char>,
    remote: bool,
    found: Seq<GitBranchModel>,
    rest: Seq<ReplyModel>,
) -> Run<Seq<GitBranchModel>>
    decreases records.len(),
{
    if records.len() == 0 {
        Run::Ready(found, rest)
    } else if !is_listed(records[0], remote) {
        branches_run(records.drop_first(), current, remote, found, rest)
    } else {
        match date_run(records[0].seconds, rest) {
            Run::Pending(q) => Run::Pending(q),
            Run::Ready(date, rest1) => branches_run(
                records.drop_first(),
                current,
                remote,
                found.push(
                    GitBranchModel {
                        name: records[0].name->0,
                        is_current: !remote && records[0].name->0 == current,
                        is_remote: remote,
                        last_commit_date: date,
                    },
                ),
                rest1,
            ),
        }
    }
}

fn add_branches(
    io: &mut Replay,
    records: &Vec<BranchRecord>,
    current: &str,
    remote: bool,
    found: Vec<GitBranch>,
) -> (r: Result<Vec<GitBranch>, Request>)
    ensures
        settled(
            r,
            final(io).unread(),
            branches_run(records.model(), current@, remote, found.model(), old(io).unread()),
        ),
{
    let ghost all = records.model();
    let ghost start = io.unread();
    let ghost given = found.model();
    let mut out = found;
    let mut i: usize = 0;
    assert(all.skip(0) =~= all);
    while i < records.len()
        invariant
            i <= records.len(),
            all == records.model(),
            given == found.model(),
            start == old(io).unread(),
            branches_run(all, current@, remote, given, start) == branches_run(
                all.skip(i as int),
                current@,
                remote,
                out.model(),
                io.unread(),
            ),
        decreases records.len() - i,
    {
        proof {
            assert(all.skip(i as int)[0] == records@[i as int].model());
            assert(all.skip(i as int).drop_first() =~= all.skip(i + 1));
        }
        let record = &records[i];
        let listed = match &record.name {
            Some(n) => !(remote && ends_with(n.as_str(), "/HEAD")),
            None => false,
        };
        if listed {
            let date = branch_date(io, record.seconds)?;
            let name = record.name.as_ref().unwrap().clone();
            let is_current = !remote && same_text(name.as_str(), current);
            let branch = GitBranch { name, is_current, is_remote: remote, last_commit_date: date };
            proof {
                lemma_models_push(out@, branch);
            }
            out.push(branch);
        }
        i += 1;
    }
    assert(all.skip(records@.len() as int) =~= Seq::<BranchRecordModel>::empty());
    Ok(out)
}

/// A reply read as a list of branch records.
pub open spec fn branch_records_of(reply: ReplyModel) -> Result<
    Seq<BranchRecordModel>,
    GitServiceErrorModel,
> {
    match reply {
        ReplyModel::Branches(b) => Ok(b),
        ReplyModel::Failed(f) => Err(GitServiceErrorModel::Git(f.message)),
        _ => Err(GitServiceErrorModel::Git("unexpected reply"@)),
    }
}

impl GitService {
    /// The run of `get_all_branches`: the local branches, then the
    /// remote-tracking ones without the symbolic `HEAD` of a remote, in
    /// listing order.
    pub open spec fn get_all_branches_run(repo: Seq<char>, rest: Seq<ReplyModel>) -> Run<
        Result<Seq<GitBranchModel>, GitServiceErrorModel>,
    > {
        match Self::open_repo_run(repo, rest) {
            Run::Pending(q) => Run::Pending(q),
            Run::Ready(Err(e), rest1) => Run::Ready(Err(e), rest1),
            Run::Ready(Ok(_), rest1) => match Self::get_current_branch_run(repo, rest1) {
                Run::Pending(q) => Run::Pending(q),
                Run::Ready(current, rest2) => match ask(
                    query(RequestKind::LocalBranches, repo, Seq::empty()),
                    rest2,
                ) {
                    Run::Pending(q) => Run::Pending(q),
                    Run::Ready(local_reply, rest3) => match branch_records_of(local_reply) {
                        Err(e) => Run::Ready(Err(e), rest3),
                        Ok(locals) => match branches_run(
                            locals,
                            current,
                            false,
                            Seq::empty(),
                            rest3,
                        ) {
                            Run::Pending(q) => Run::Pending(q),
                            Run::Ready(found, rest4) => match ask(
                                query(RequestKind::RemoteBranches, repo, Seq::empty()),
                                rest4,
                            ) {
                                Run::Pending(q) => Run::Pending(q),
                                Run::Ready(remote_reply, rest5) => match branch_records_of(
                                    remote_reply,
                                ) {
                                    Err(e) => Run::Ready(Err(e), rest5),
                                    Ok(remotes) => match branches_run(
                                        remotes,
                                        current,
                                        true,
                                        found,
                                        rest5,
                                    ) {
                                        Run::Pending(q) => Run::Pending(q),
                                        Run::Ready(all, rest6) => Run::Ready(
                                            Ok(sorted_branches(all)),
                                            rest6,
                                        ),
                                    },
                                },
                            },
                        },
                    },
                },
            },
        }
    }

    /// The branches of the repository, the current one first and the others
    /// by the time of their newest commit, newest first.
    pub fn get_all_branches(&self, io: &mut Replay, repo_path: &str) -> (r: Result<
        Result<Vec<GitBranch>, GitServiceError>,
        Request,
    >)
        ensures
            settled(r, final(io).unread(), Self::get_all_branches_run(repo_path@, old(io).unread())),
    {
        match self.open_repo(io, repo_path)? {
            Err(e) => return Ok(Err(e)),
            Ok(()) => {},
        }
        let current = self.get_current_branch(io, repo_path)?;
        let local_reply = io.ask(Request::new(RequestKind::LocalBranches, repo_path, no_args()))?;
        let none: Vec<GitBranch> = Vec::new();
        assert(none.model() =~= Seq::<GitBranchModel>::empty());
        let found = match local_reply {
            Reply::Branches(records) => add_branches(io, records, current.as_str(), false, none)?,
            Reply::Failed(f) => return Ok(Err(GitServiceError::Git(f.message.clone()))),
            _ => return Ok(Err(GitServiceError::Git("unexpected reply".to_owned()))),
        };
        let remote_reply = io.ask(Request::new(RequestKind::RemoteBranches, repo_path, no_args()))?;
        let all = match remote_reply {
            Reply::Branches(records) => add_branches(io, records, current.as_str(), true, found)?,
            Reply::Failed(f) => return Ok(Err(GitServiceError::Git(f.message.clone()))),
            _ => return Ok(Err(GitServiceError::Git("unexpected reply".to_owned()))),
        };
        Ok(Ok(sort_branches(&all)))
    }
}

} // verus!
