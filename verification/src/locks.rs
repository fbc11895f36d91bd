//! The table of per-path locks: one exclusive lock for each worktree path
//! that was ever locked.

use vstd::prelude::*;
use crate::model::{lemma_models_push, Model};

verus! {

/// The table of locks. A path gets its entry the first time it is locked,
/// and keeps it.
pub struct LockTable {
    paths: Vec<String>,
    held: Vec<bool>,
}

impl LockTable {
    /// The paths that have an entry, in the order they got it.
    pub closed spec fn entries(&self) -> Seq<Seq<char>> {
        self.paths.model()
    }

    /// Whether the table is well formed: every path has one entry.
    pub closed spec fn wf(&self) -> bool {
        &&& self.paths.len() == self.held.len()
        &&& forall|i: int, j: int|
            0 <= i < j < self.paths.len() ==> self.paths@[i]@ != self.paths@[j]@
    }

    /// Whether the lock of `path` is held.
    pub closed spec fn is_held(&self, path: Seq<char>) -> bool {
        exists|i: int| 0 <= i < self.paths.len() && self.paths@[i]@ == path && self.held@[i]
    }

    /// The paths whose lock is held.
    pub open spec fn held_paths(&self) -> Set<Seq<char>> {
        Set::new(|path: Seq<char>| self.is_held(path))
    }

    /// Whether `path` has an entry.
    pub open spec fn knows(&self, path: Seq<char>) -> bool {
        self.entries().contains(path)
    }

    /// A table without entries.
    pub fn new() -> (r: Self)
        ensures
            r.wf(),
            r.entries().len() == 0,
            forall|p: Seq<char>| !r.is_held(p),
    {
        let r = LockTable { paths: Vec::new(), held: Vec::new() };
        assert(r.paths.model() =~= Seq::<Seq<char>>::empty());
        r
    }

    fn position(&self, path: &str) -> (r: Option<usize>)
        requires
            self.wf(),
        ensures
            match r {
                Some(i) => i < self.paths.len() && self.paths@[i as int]@ == path@,
                None => forall|i: int| 0 <= i < self.paths.len() ==> self.paths@[i]@ != path@,
            },
    {
        let mut i: usize = 0;
        while i < self.paths.len()
            invariant
                i <= self.paths.len(),
                forall|k: int| 0 <= k < i ==> self.paths@[k]@ != path@,
            decreases self.paths.len() - i,
        {
            if crate::text::same_text(self.paths[i].as_str(), path) {
                return Some(i);
            }
            i += 1;
        }
        None
    }

    /// Whether the lock of `path` is held.
    pub fn holds(&self, path: &str) -> (r: bool)
        requires
            self.wf(),
        ensures
            r == self.is_held(path@),
    {
        match self.position(path) {
            Some(i) => self.held[i],
            None => false,
        }
    }

    /// Takes the lock of `path` if it is free, and tells whether it did.
    /// The locks of other paths stay as they are, and no entry is lost.
    pub fn try_acquire(&mut self, path: &str) -> (r: bool)
        requires
            old(self).wf(),
        ensures
            final(self).wf(),
            r == !old(self).is_held(path@),
            final(self).is_held(path@),
            final(self).knows(path@),
            forall|other: Seq<char>|
                other != path@ ==> final(self).is_held(other) == old(self).is_held(other),
            forall|other: Seq<char>| old(self).knows(other) ==> final(self).knows(other),
            final(self).held_paths() == old(self).held_paths().insert(path@),
    {
        let ghost before = *self;
        match self.position(path) {
            Some(i) => {
                let was = self.held[i];
                self.held.set(i, true);
                proof {
                    assert(self.paths@ == before.paths@);
                    assert forall|other: Seq<char>| other != path@ implies self.is_held(other)
                        == before.is_held(other) by {
                        if before.is_held(other) {
                            let k = choose|k: int|
                                0 <= k < before.paths.len() && before.paths@[k]@ == other
                                    && before.held@[k];
                            assert(self.held@[k]);
                        }
                        if self.is_held(other) {
                            let k = choose|k: int|
                                0 <= k < self.paths.len() && self.paths@[k]@ == other
                                    && self.held@[k];
                            assert(before.held@[k]);
                        }
                    }
                    assert(self.paths.model()[i as int] == path@);
                    assert(self.paths@[i as int]@ == path@ && self.held@[i as int]);
                    if was {
                        assert(before.is_held(path@));
                    } else {
                        assert forall|k: int|
                            0 <= k < before.paths.len() && before.paths@[k]@ == path@
                                implies !before.held@[k] by {
                            assert(k == i);
                        }
                    }
                }
                assert(self.held_paths() =~= before.held_paths().insert(path@));
                !was
            },
            None => {
                let owned = path.to_owned();
                proof {
                    lemma_models_push(self.paths@, owned);
                }
                self.paths.push(owned);
                self.held.push(true);
                proof {
                    let n = before.paths.len() as int;
                    assert(self.paths@[n]@ == path@);
                    assert(self.held@[n]);
                    assert(self.paths.model()[n] == path@);
                    assert forall|other: Seq<char>| other != path@ implies self.is_held(other)
                        == before.is_held(other) by {
                        if before.is_held(other) {
                            let k = choose|k: int|
                                0 <= k < before.paths.len() && before.paths@[k]@ == other
                                    && before.held@[k];
                            assert(self.paths@[k]@ == other && self.held@[k]);
                        }
                        if self.is_held(other) {
                            let k = choose|k: int|
                                0 <= k < self.paths.len() && self.paths@[k]@ == other
                                    && self.held@[k];
                            assert(k < n);
                            assert(before.paths@[k]@ == other && before.held@[k]);
                        }
                    }
                    assert forall|other: Seq<char>| before.knows(other) implies self.knows(
                        other,
                    ) by {
                        let k = choose|k: int|
                            0 <= k < before.paths.model().len() && before.paths.model()[k] == other;
                        assert(self.paths.model()[k] == other);
                    }
                }
                assert(self.held_paths() =~= before.held_paths().insert(path@));
                true
            },
        }
    }

    /// Gives the lock of `path` back. Its entry stays.
    pub fn release(&mut self, path: &str)
        requires
            old(self).wf(),
        ensures
            final(self).wf(),
            !final(self).is_held(path@),
            final(self).entries() == old(self).entries(),
            forall|other: Seq<char>|
                other != path@ ==> final(self).is_held(other) == old(self).is_held(other),
            final(self).held_paths() == old(self).held_paths().remove(path@),
    {
        let ghost before = *self;
        match self.position(path) {
            Some(i) => {
                self.held.set(i, false);
                proof {
                    assert forall|k: int|
                        0 <= k < self.paths.len() && self.paths@[k]@ == path@ implies !self.held@[k] by {
                        assert(k == i);
                    }
                    assert forall|other: Seq<char>| other != path@ implies self.is_held(other)
                        == before.is_held(other) by {
                        if before.is_held(other) {
                            let k = choose|k: int|
                                0 <= k < before.paths.len() && before.paths@[k]@ == other
                                    && before.held@[k];
                            assert(self.held@[k]);
                        }
                        if self.is_held(other) {
                            let k = choose|k: int|
                                0 <= k < self.paths.len() && self.paths@[k]@ == other
                                    && self.held@[k];
                            assert(before.held@[k]);
                        }
                    }
                }
                assert(self.held_paths() =~= before.held_paths().remove(path@));
            },
            None => {
                assert(!self.is_held(path@));
                assert(self.held_paths() =~= before.held_paths().remove(path@));
            },
        }
    }
}


/// A step of a caller at the lock table: it takes the lock of a path, works
/// on the path, or gives the lock back.
pub enum LockStep {
    Take { caller: nat, path: Seq<char> },
    Work { caller: nat, path: Seq<char> },
    Give { caller: nat, path: Seq<char> },
}

/// Whether a step may be made where `holders` tells who holds which lock: a
/// lock is taken only while nobody holds it, and only its holder works on
/// the path or gives the lock back.
pub open spec fn may(holders: Map<Seq<char>, nat>, step: LockStep) -> bool {
    match step {
        LockStep::Take { caller, path } => !holders.contains_key(path),
        LockStep::Work { caller, path } => holders.contains_key(path) && holders[path] == caller,
        LockStep::Give { caller, path } => holders.contains_key(path) && holders[path] == caller,
    }
}

/// Who holds which lock after a step.
pub open spec fn after_step(holders: Map<Seq<char>, nat>, step: LockStep) -> Map<Seq<char>, nat> {
    match step {
        LockStep::Take { caller, path } => holders.insert(path, caller),
        LockStep::Work { caller, path } => holders,
        LockStep::Give { caller, path } => holders.remove(path),
    }
}

/// Who holds which lock after the steps of any callers in the order they
/// were made, from a table with no lock held; `None` where one of the steps
/// may not be made when its turn comes.
pub open spec fn holders_after(steps: Seq<LockStep>) -> Option<Map<Seq<char>, nat>>
    decreases steps.len(),
{
    if steps.len() == 0 {
        Some(Map::empty())
    } else {
        match holders_after(steps.drop_last()) {
            Some(holders) => if may(holders, steps.last()) {
                Some(after_step(holders, steps.last()))
            } else {
                None
            },
            None => None,
        }
    }
}

/// Steps that may all be made, so may those before any of them.
pub proof fn lemma_earlier_steps_may(steps: Seq<LockStep>, n: int)
    requires
        holders_after(steps) is Some,
        0 <= n <= steps.len(),
    ensures
        holders_after(steps.take(n)) is Some,
        n < steps.len() ==> may(holders_after(steps.take(n))->Some_0, steps[n]) && holders_after(
            steps.take(n + 1),
        ) == Some(after_step(holders_after(steps.take(n))->Some_0, steps[n])),
    decreases steps.len() - n,
{
    if n == steps.len() {
        assert(steps.take(n) =~= steps);
    } else {
        lemma_earlier_steps_may(steps, n + 1);
        assert(steps.take(n + 1).drop_last() =~= steps.take(n));
        assert(steps.take(n + 1).last() == steps[n]);
    }
}

/// A lock stays with its holder until the holder gives it back.
pub proof fn lemma_holder_stays(steps: Seq<LockStep>, i: int, m: int, caller: nat, path: Seq<char>)
    requires
        holders_after(steps) is Some,
        0 <= i < m <= steps.len(),
        holders_after(steps.take(i + 1))->Some_0.contains_key(path),
        holders_after(steps.take(i + 1))->Some_0[path] == caller,
        forall|k: int| i < k < m ==> #[trigger] steps[k] != (LockStep::Give { caller, path }),
    ensures
        holders_after(steps.take(m)) is Some,
        holders_after(steps.take(m))->Some_0.contains_key(path),
        holders_after(steps.take(m))->Some_0[path] == caller,
    decreases m,
{
    lemma_earlier_steps_may(steps, i + 1);
    if m > i + 1 {
        lemma_holder_stays(steps, i, m - 1, caller, path);
        lemma_earlier_steps_may(steps, m - 1);
        assert(steps[m - 1] != (LockStep::Give { caller, path }));
    }
}

/// Work of different callers on one path does not interleave: where one
/// caller works on a path and later another one does, the first has given
/// the lock back in between. As a call holds its lock from its first request
/// on the path to its last, the whole of the one call lies before the whole
/// of the other.
pub proof fn lemma_work_on_a_path_is_serialized(steps: Seq<LockStep>, i: int, j: int)
    requires
        holders_after(steps) is Some,
        0 <= i < j < steps.len(),
        steps[i] is Work,
        steps[j] is Work,
        steps[i]->Work_path == steps[j]->Work_path,
        steps[i]->Work_caller != steps[j]->Work_caller,
    ensures
        exists|k: int|
            i < k < j && #[trigger] steps[k] == (LockStep::Give {
                caller: steps[i]->Work_caller,
                path: steps[i]->Work_path,
            }),
{
    let caller = steps[i]->Work_caller;
    let path = steps[i]->Work_path;
    lemma_earlier_steps_may(steps, i);
    lemma_earlier_steps_may(steps, j);
    if forall|k: int| i < k < j ==> #[trigger] steps[k] != (LockStep::Give { caller, path }) {
        lemma_holder_stays(steps, i, j, caller, path);
        assert(false);
    }
}

/// Callers on different paths do not wait on each other: whether the lock
/// of a path may be taken depends on that path alone, so a step on another
/// path neither grants nor withholds it.
pub proof fn lemma_other_paths_do_not_wait(
    holders: Map<Seq<char>, nat>,
    step: LockStep,
    caller: nat,
    path: Seq<char>,
)
    requires
        may(holders, step),
        match step {
            LockStep::Take { caller: c, path: p } => p != path,
            LockStep::Work { caller: c, path: p } => p != path,
            LockStep::Give { caller: c, path: p } => p != path,
        },
    ensures
        may(after_step(holders, step), LockStep::Take { caller, path }) == may(
            holders,
            LockStep::Take { caller, path },
        ),
        may(holders, LockStep::Take { caller, path }) == !holders.contains_key(path),
{
}

/// The table grants a lock exactly where the steps say it may be taken:
/// where the locks held in the table are those that have a holder,
/// `try_acquire` succeeds on a path just when a `Take` of it may be made.
pub proof fn lemma_table_grants_what_may_be_taken(
    table: LockTable,
    holders: Map<Seq<char>, nat>,
    caller: nat,
    path: Seq<char>,
)
    requires
        holders.dom() == table.held_paths(),
    ensures
        may(holders, LockStep::Take { caller, path }) == !table.is_held(path),
        after_step(holders, LockStep::Take { caller, path }).dom() == table.held_paths().insert(
            path,
        ),
        after_step(holders, LockStep::Give { caller, path }).dom() == table.held_paths().remove(
            path,
        ),
{
    assert(holders.contains_key(path) == table.held_paths().contains(path));
    assert(after_step(holders, LockStep::Take { caller, path }).dom() =~= table.held_paths().insert(
        path,
    ));
    assert(after_step(holders, LockStep::Give { caller, path }).dom() =~= table.held_paths().remove(
        path,
    ));
}

} // verus!
