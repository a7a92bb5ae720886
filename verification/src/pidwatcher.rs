use vstd::prelude::*;
use std::collections::HashSet;

verus! {

broadcast use vstd::std_specs::hash::group_hash_axioms;

/// What happened to a PID between two scans.
#[derive(Copy, Clone, Debug, Hash, Eq, PartialEq, Structural)]
pub enum PidEvent {
    Created,
    Deleted,
}

/// The set of PIDs in a list.
pub open spec fn pid_set(pids: Seq<i32>) -> Set<i32> {
    Set::new(|p: i32| pids.contains(p))
}

/// Whether entry `i` of `pids` is a PID that was not seen before and does
/// not occur earlier in the list.
pub open spec fn is_new_at(seen: Set<i32>, pids: Seq<i32>, i: int) -> bool {
    &&& 0 <= i < pids.len()
    &&& !seen.contains(pids[i])
    &&& !pids.subrange(0, i).contains(pids[i])
}

/// The positions in `pids` of the PIDs that are new with respect to `seen`,
/// in increasing order, each PID once.
pub open spec fn new_positions(seen: Set<i32>, pids: Seq<i32>) -> Seq<usize>
    decreases pids.len(),
{
    if pids.len() == 0 {
        Seq::empty()
    } else {
        let prefix = new_positions(seen, pids.drop_last());
        if is_new_at(seen, pids, pids.len() - 1) {
            prefix.push((pids.len() - 1) as usize)
        } else {
            prefix
        }
    }
}

/// Keeps track of the PIDs that have been seen alive, so that each scan
/// reports the processes spawned since the previous one.
pub struct PidWatcher {
    seen: HashSet<i32>,
}

impl View for PidWatcher {
    type V = Set<i32>;

    /// The PIDs that were alive at the last scan.
    closed spec fn view(&self) -> Set<i32> {
        self.seen@
    }
}

impl PidWatcher {
    /// A watcher that has seen no PID yet.
    pub fn new() -> (r: PidWatcher)
        ensures
            r@ == Set::<i32>::empty(),
    {
        PidWatcher { seen: HashSet::new() }
    }

    /// Takes the PIDs that are alive now, in the order in which the system
    /// lists them. Returns the positions in `current` of the PIDs that were
    /// not alive at the previous scan (a PID listed twice counts at its
    /// first position), and from then on regards exactly the PIDs of
    /// `current` as seen: PIDs that have gone are forgotten.
    pub fn scan(&mut self, current: &Vec<i32>) -> (r: Vec<usize>)
        ensures
            r@ == new_positions(old(self)@, current@),
            final(self)@ == pid_set(current@),
    {
        let mut alive: HashSet<i32> = HashSet::new();
        let mut fresh: Vec<usize> = Vec::new();
        let mut i: usize = 0;
        while i < current.len()
            invariant
                i <= current@.len(),
                alive@ == pid_set(current@.subrange(0, i as int)),
                fresh@ == new_positions(self.seen@, current@.subrange(0, i as int)),
                self.seen@ == old(self)@,
            decreases current@.len() - i,
        {
            let pid = current[i];
            let ghost prefix = current@.subrange(0, i as int);
            let ghost next = current@.subrange(0, i + 1);
            assert(next.drop_last() =~= prefix);
            assert(next.subrange(0, i as int) =~= prefix);
            proof {
                lemma_new_positions_prefix(self.seen@, current@, i as int);
            }
            let first = alive.insert(pid);
            if first && !self.seen.contains(&pid) {
                fresh.push(i);
            }
            proof {
                assert(pid_set(next) =~= pid_set(prefix).insert(pid)) by {
                    assert forall|p: i32| next.contains(p) <==> prefix.contains(p) || p == pid by {
                        if next.contains(p) {
                            let k = choose|k: int| 0 <= k < next.len() && next[k] == p;
                            if k < i {
                                assert(prefix[k] == p);
                            }
                        }
                        if prefix.contains(p) {
                            let k = choose|k: int| 0 <= k < prefix.len() && prefix[k] == p;
                            assert(next[k] == p);
                        }
                        if p == pid {
                            assert(next[i as int] == p);
                        }
                    }
                }
            }
            i = i + 1;
        }
        assert(current@.subrange(0, current@.len() as int) =~= current@);
        self.seen = alive;
        fresh
    }
}

impl Default for PidWatcher {
    fn default() -> (r: PidWatcher)
        ensures
            r@ == Set::<i32>::empty(),
    {
        PidWatcher::new()
    }
}

/// A scan reports a position exactly when the PID there is new: not seen
/// before, and not listed earlier in the same scan.
pub proof fn lemma_reported_iff_new(seen: Set<i32>, pids: Seq<i32>, i: int)
    requires
        0 <= i < pids.len(),
        pids.len() <= usize::MAX,
    ensures
        new_positions(seen, pids).contains(i as usize) <==> is_new_at(seen, pids, i),
    decreases pids.len(),
{
    let last = pids.len() - 1;
    let prefix = pids.drop_last();
    lemma_positions_below(seen, prefix);
    if i < last {
        lemma_reported_iff_new(seen, prefix, i);
        assert(prefix.subrange(0, i) =~= pids.subrange(0, i));
        assert(is_new_at(seen, prefix, i) == is_new_at(seen, pids, i));
        if is_new_at(seen, pids, last) {
            let r = new_positions(seen, prefix);
            assert(r.push(last as usize).contains(i as usize) <==> r.contains(i as usize)) by {
                if r.push(last as usize).contains(i as usize) {
                    let rp = r.push(last as usize);
                    let k = choose|k: int| 0 <= k < rp.len() && rp[k] == i as usize;
                    if k < r.len() {
                        assert(r[k] == i as usize);
                    }
                }
                if r.contains(i as usize) {
                    let k = choose|k: int| 0 <= k < r.len() && r[k] == i as usize;
                    assert(r.push(last as usize)[k] == i as usize);
                }
            }
        }
    } else {
        let r = new_positions(seen, prefix);
        assert(!r.contains(last as usize));
        if is_new_at(seen, pids, last) {
            assert(r.push(last as usize)[r.len() as int] == last as usize);
        }
    }
}

/// Every position that a scan of `pids` reports lies below `pids.len()`.
proof fn lemma_positions_below(seen: Set<i32>, pids: Seq<i32>)
    requires
        pids.len() <= usize::MAX,
    ensures
        forall|k: int|
            0 <= k < new_positions(seen, pids).len() ==> (new_positions(seen, pids)[k] as int)
                < pids.len(),
    decreases pids.len(),
{
    if pids.len() > 0 {
        let prefix = pids.drop_last();
        lemma_positions_below(seen, prefix);
        let r = new_positions(seen, prefix);
        if is_new_at(seen, pids, pids.len() - 1) {
            let rp = r.push((pids.len() - 1) as usize);
            assert forall|k: int| 0 <= k < rp.len() implies (rp[k] as int) < pids.len() by {
                if k < r.len() {
                    assert(rp[k] == r[k]);
                }
            }
        }
    }
}

/// Scanning again, with the same PIDs alive, reports nothing.
pub proof fn lemma_rescan_reports_nothing(pids: Seq<i32>)
    ensures
        new_positions(pid_set(pids), pids) == Seq::<usize>::empty(),
{
    lemma_nothing_new_when_seen(pid_set(pids), pids);
}

proof fn lemma_nothing_new_when_seen(seen: Set<i32>, pids: Seq<i32>)
    requires
        forall|k: int| 0 <= k < pids.len() ==> seen.contains(pids[k]),
    ensures
        new_positions(seen, pids) == Seq::<usize>::empty(),
    decreases pids.len(),
{
    if pids.len() > 0 {
        let prefix = pids.drop_last();
        assert forall|k: int| 0 <= k < prefix.len() implies seen.contains(prefix[k]) by {
            assert(prefix[k] == pids[k]);
        }
        lemma_nothing_new_when_seen(seen, prefix);
        assert(seen.contains(pids[pids.len() - 1]));
    }
}

/// The positions found in a list depend only on that list: extending the
/// list leaves the positions of its prefix as they were.
proof fn lemma_new_positions_prefix(seen: Set<i32>, pids: Seq<i32>, i: int)
    requires
        0 <= i < pids.len(),
    ensures
        new_positions(seen, pids.subrange(0, i + 1)) == if is_new_at(seen, pids, i) {
            new_positions(seen, pids.subrange(0, i)).push(i as usize)
        } else {
            new_positions(seen, pids.subrange(0, i))
        },
{
    let next = pids.subrange(0, i + 1);
    assert(next.drop_last() =~= pids.subrange(0, i));
    assert(next.subrange(0, i) =~= pids.subrange(0, i));
    assert(is_new_at(seen, next, i) == is_new_at(seen, pids, i));
}

} // verus!
