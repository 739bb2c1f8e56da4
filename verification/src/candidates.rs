//! The candidate set: the process identifiers currently believed to belong
//! to the monitored game, with a distinguished best identifier. The set
//! keeps no duplicates, and the best identifier is a member whenever the set
//! is non-empty.

use vstd::prelude::*;

verus! {

/// Whether `v` holds `x`, decided executably.
pub fn vec_contains(v: &Vec<u32>, x: u32) -> (r: bool)
    ensures
        r == v@.contains(x),
{
    let n = v.len();
    let mut i: usize = 0;
    while i < n
        invariant
            i <= n == v@.len(),
            forall|j: int| 0 <= j < i ==> v@[j] != x,
        decreases n - i,
    {
        if v[i] == x {
            return true;
        }
        i += 1;
    }
    false
}

/// The elements of `pids` that occur in `alive`, in their original order.
pub open spec fn alive_subseq(pids: Seq<u32>, alive: Seq<u32>) -> Seq<u32>
    decreases pids.len(),
{
    if pids.len() == 0 {
        Seq::empty()
    } else if alive.contains(pids.last()) {
        alive_subseq(pids.drop_last(), alive) + seq![pids.last()]
    } else {
        alive_subseq(pids.drop_last(), alive)
    }
}

/// `alive_subseq` holds exactly the common elements, and keeps freedom from
/// duplicates.
pub proof fn lemma_alive_subseq(pids: Seq<u32>, alive: Seq<u32>)
    ensures
        pids.no_duplicates() ==> alive_subseq(pids, alive).no_duplicates(),
        forall|x: u32|
            #[trigger] alive_subseq(pids, alive).contains(x) <==> pids.contains(x)
                && alive.contains(x),
    decreases pids.len(),
{
    if pids.len() > 0 {
        lemma_alive_subseq(pids.drop_last(), alive);
        assert(forall|j: int| 0 <= j < pids.len() - 1 ==> pids.drop_last()[j] == pids[j]);
        assert forall|x: u32| pids.contains(x) && alive.contains(x) implies #[trigger] alive_subseq(
            pids,
            alive,
        ).contains(x) by {
            if x == pids.last() {
                let r = alive_subseq(pids, alive);
                assert(r[r.len() - 1] == x);
            } else {
                let j = choose|j: int| 0 <= j < pids.len() && pids[j] == x;
                assert(pids.drop_last()[j] == x);
                assert(pids.drop_last().contains(x));
                let rr = alive_subseq(pids.drop_last(), alive);
                assert(rr.contains(x));
                let k = choose|k: int| 0 <= k < rr.len() && rr[k] == x;
                assert(alive_subseq(pids, alive)[k] == x);
            }
        }
        assert forall|x: u32| #[trigger] alive_subseq(pids, alive).contains(x) implies pids.contains(
            x,
        ) && alive.contains(x) by {
            let r = alive_subseq(pids, alive);
            let k = choose|k: int| 0 <= k < r.len() && r[k] == x;
            let rr = alive_subseq(pids.drop_last(), alive);
            if k < rr.len() {
                assert(rr.contains(x));
                assert(pids.drop_last().contains(x));
                let j = choose|j: int| 0 <= j < pids.drop_last().len() && pids.drop_last()[j] == x;
                assert(pids[j] == x);
            } else {
                assert(x == pids.last());
                assert(pids[pids.len() - 1] == x);
            }
        }
        if pids.no_duplicates() {
            let r = alive_subseq(pids, alive);
            let rr = alive_subseq(pids.drop_last(), alive);
            if alive.contains(pids.last()) {
                assert(!pids.drop_last().contains(pids.last())) by {
                    if pids.drop_last().contains(pids.last()) {
                        let j = choose|j: int|
                            0 <= j < pids.drop_last().len() && pids.drop_last()[j] == pids.last();
                        assert(pids[j] == pids[pids.len() - 1]);
                    }
                }
                assert(!rr.contains(pids.last()));
                assert(r.drop_last() =~= rr);
                assert forall|i: int, j: int| 0 <= i < j < r.len() implies r[i] != r[j] by {
                    if j < r.len() - 1 {
                        assert(rr[i] == r[i] && rr[j] == r[j]);
                    } else {
                        assert(rr[i] == r[i]);
                        assert(rr.contains(rr[i]));
                    }
                }
            }
        }
    }
}

/// The shared set of candidate process identifiers, with the best one.
/// While the set is empty the best identifier merely keeps its last value.
pub struct CandidateSet {
    pub pids: Vec<u32>,
    pub best: u32,
}

impl CandidateSet {
    /// No duplicate identifiers, and the best identifier is a member
    /// whenever the set is non-empty.
    pub open spec fn well_formed(self) -> bool {
        self.pids@.no_duplicates() && (self.pids@.len() > 0 ==> self.pids@.contains(self.best))
    }

    /// A set holding exactly the initially known identifier.
    pub fn new(initial: u32) -> (r: Self)
        ensures
            r.pids@ =~= seq![initial],
            r.best == initial,
            r.well_formed(),
    {
        let mut pids: Vec<u32> = Vec::new();
        pids.push(initial);
        let r = CandidateSet { pids, best: initial };
        proof {
            assert(r.pids@[0] == initial);
        }
        r
    }

    /// Whether `pid` is a member.
    pub fn contains(&self, pid: u32) -> (r: bool)
        ensures
            r == self.pids@.contains(pid),
    {
        vec_contains(&self.pids, pid)
    }

    /// Adds `pid` unless it is already a member; on an empty set the new
    /// member also becomes the best identifier.
    pub fn insert(&mut self, pid: u32)
        ensures
            old(self).pids@.len() == 0 ==> final(self).pids@ =~= seq![pid] && final(self).best
                == pid,
            old(self).pids@.len() > 0 && old(self).pids@.contains(pid) ==> final(self).pids@ == old(
                self,
            ).pids@ && final(self).best == old(self).best,
            old(self).pids@.len() > 0 && !old(self).pids@.contains(pid) ==> final(self).pids@ == old(
                self,
            ).pids@.push(pid) && final(self).best == old(self).best,
            old(self).well_formed() ==> final(self).well_formed(),
    {
        if self.pids.len() == 0 {
            self.pids.push(pid);
            self.best = pid;
            proof {
                assert(self.pids@[0] == pid);
            }
        } else if !vec_contains(&self.pids, pid) {
            self.pids.push(pid);
            proof {
                if old(self).well_formed() {
                    let j = choose|j: int|
                        0 <= j < old(self).pids@.len() && old(self).pids@[j] == old(self).best;
                    assert(self.pids@[j] == self.best);
                }
            }
        }
    }

    /// Makes `pid` the best identifier; it must be a member.
    pub fn set_best(&mut self, pid: u32)
        requires
            old(self).pids@.contains(pid),
        ensures
            final(self).pids@ == old(self).pids@,
            final(self).best == pid,
            old(self).well_formed() ==> final(self).well_formed(),
    {
        self.best = pid;
    }

    /// A copy of the members, for enumeration outside the lock.
    pub fn snapshot(&self) -> (r: Vec<u32>)
        ensures
            r@ == self.pids@,
    {
        let n = self.pids.len();
        let mut out: Vec<u32> = Vec::new();
        let mut i: usize = 0;
        while i < n
            invariant
                i <= n == self.pids@.len(),
                out@ =~= self.pids@.take(i as int),
            decreases n - i,
        {
            out.push(self.pids[i]);
            i += 1;
        }
        proof {
            assert(self.pids@.take(n as int) =~= self.pids@);
        }
        out
    }

    /// Drops every member that is not in `alive`. When members remain, the
    /// best identifier survives if it is still a member and otherwise moves
    /// to the first remaining member.
    pub fn prune(&mut self, alive: &Vec<u32>)
        ensures
            final(self).pids@ == alive_subseq(old(self).pids@, alive@),
            final(self).pids@.len() > 0 ==> final(self).best == if final(self).pids@.contains(
                old(self).best,
            ) {
                old(self).best
            } else {
                final(self).pids@[0]
            },
            final(self).pids@.len() == 0 ==> final(self).best == old(self).best,
            old(self).well_formed() ==> final(self).well_formed(),
    {
        let n = self.pids.len();
        let mut kept: Vec<u32> = Vec::new();
        let mut i: usize = 0;
        while i < n
            invariant
                i <= n == self.pids@.len(),
                kept@ == alive_subseq(self.pids@.take(i as int), alive@),
            decreases n - i,
        {
            proof {
                assert(self.pids@.take(i + 1).drop_last() =~= self.pids@.take(i as int));
                assert(self.pids@.take(i + 1).last() == self.pids@[i as int]);
            }
            if vec_contains(alive, self.pids[i]) {
                kept.push(self.pids[i]);
            }
            i += 1;
        }
        proof {
            assert(self.pids@.take(n as int) =~= self.pids@);
            lemma_alive_subseq(self.pids@, alive@);
        }
        if kept.len() > 0 {
            if !vec_contains(&kept, self.best) {
                self.best = kept[0];
                proof {
                    assert(kept@.contains(kept@[0]));
                }
            }
        }
        self.pids = kept;
    }
}

/// The first element of `xs` that is a member of `cands`, in `xs` order.
pub open spec fn first_member(cands: Seq<u32>, xs: Seq<u32>) -> Option<u32>
    decreases xs.len(),
{
    if xs.len() == 0 {
        None
    } else if cands.contains(xs[0]) {
        Some(xs[0])
    } else {
        first_member(cands, xs.skip(1))
    }
}

/// A first member is a member.
pub proof fn lemma_first_member_contains(cands: Seq<u32>, xs: Seq<u32>)
    ensures
        first_member(cands, xs) matches Some(p) ==> cands.contains(p),
    decreases xs.len(),
{
    if xs.len() > 0 && !cands.contains(xs[0]) {
        lemma_first_member_contains(cands, xs.skip(1));
    }
}

/// The lower selection priorities: the first candidate that owns a visible
/// window, else the first candidate (the candidate list is non-empty here).
pub open spec fn select_windowed_or_first(cands: Seq<u32>, windowed: Seq<u32>) -> Option<u32> {
    if first_member(cands, windowed) is Some {
        first_member(cands, windowed)
    } else {
        Some(cands[0])
    }
}

/// The selection priority for the best identifier: the foreground candidate
/// first, then the first candidate that owns a visible window, then the
/// first candidate; `None` only on an empty candidate list.
pub open spec fn select_best_spec(
    cands: Seq<u32>,
    foreground: Option<u32>,
    windowed: Seq<u32>,
) -> Option<u32> {
    if cands.len() == 0 {
        None
    } else {
        match foreground {
            Some(p) => if cands.contains(p) {
                Some(p)
            } else {
                select_windowed_or_first(cands, windowed)
            },
            None => select_windowed_or_first(cands, windowed),
        }
    }
}

/// Whatever is selected is a candidate.
pub proof fn lemma_select_best_membership(
    cands: Seq<u32>,
    foreground: Option<u32>,
    windowed: Seq<u32>,
)
    ensures
        select_best_spec(cands, foreground, windowed) matches Some(p) ==> cands.contains(p),
{
    lemma_first_member_contains(cands, windowed);
    if cands.len() > 0 {
        assert(cands.contains(cands[0]));
    }
}

/// Picks the best identifier from `candidate_pids` by the fixed priority:
/// the candidate owning the foreground window, else the first candidate
/// owning any visible window (in `windowed` order), else the first
/// candidate. `None` only when the candidate list is empty.
///
/// `foreground` and `windowed` are the caller's window-system observations;
/// on platforms without such queries both are empty.
pub fn select_best_from_candidates(
    candidate_pids: &Vec<u32>,
    foreground: Option<u32>,
    windowed: &Vec<u32>,
) -> (r: Option<u32>)
    ensures
        r == select_best_spec(candidate_pids@, foreground, windowed@),
        r matches Some(p) ==> candidate_pids@.contains(p),
{
    proof {
        lemma_select_best_membership(candidate_pids@, foreground, windowed@);
    }
    if candidate_pids.len() == 0 {
        return None;
    }
    if let Some(p) = foreground {
        if vec_contains(candidate_pids, p) {
            return Some(p);
        }
    }
    let n = windowed.len();
    let mut i: usize = 0;
    proof {
        assert(windowed@.skip(0) =~= windowed@);
    }
    while i < n
        invariant
            i <= n == windowed@.len(),
            candidate_pids@.len() > 0,
            foreground matches Some(p) ==> !candidate_pids@.contains(p),
            first_member(candidate_pids@, windowed@) == first_member(
                candidate_pids@,
                windowed@.skip(i as int),
            ),
        decreases n - i,
    {
        proof {
            assert(windowed@.skip(i as int)[0] == windowed@[i as int]);
            assert(windowed@.skip(i as int).skip(1) =~= windowed@.skip(i + 1));
        }
        if vec_contains(candidate_pids, windowed[i]) {
            return Some(windowed[i]);
        }
        i += 1;
    }
    proof {
        assert(windowed@.skip(n as int).len() == 0);
    }
    Some(candidate_pids[0])
}

/// The candidate that owns the foreground window: `Some(p)` exactly when
/// the observed foreground identifier is a member of `candidate_pids`.
pub fn check_any_foreground(candidate_pids: &Vec<u32>, foreground: Option<u32>) -> (r: Option<
    u32,
>)
    ensures
        r == (match foreground {
            Some(p) => if candidate_pids@.contains(p) {
                Some(p)
            } else {
                None::<u32>
            },
            None => None::<u32>,
        }),
{
    if candidate_pids.len() == 0 {
        return None;
    }
    match foreground {
        Some(p) => {
            if vec_contains(candidate_pids, p) {
                Some(p)
            } else {
                None
            }
        },
        None => None,
    }
}

/// Whether a visible window is known for `pid` without a window-system
/// query: it never is. This is the portable fallback where no foreground
/// hook exists (the known capability gap outside the event-hook platform).
pub fn has_window_for_pid(_pid: u32) -> (r: bool)
    ensures
        !r,
{
    false
}

/// The first candidate owning a visible window, without a window-system
/// query: there is none. Portable fallback, as for `has_window_for_pid`.
pub fn check_any_has_window(_candidate_pids: &Vec<u32>) -> (r: Option<u32>)
    ensures
        r is None,
{
    None
}

} // verus!
