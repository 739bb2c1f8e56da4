//! The process-wide registry of active sessions, keyed by game identifier.
//! It lets an out-of-band stop request reach a running session: the stop
//! raises the session's signal and hands back the candidate snapshot so the
//! caller can attempt to terminate every member. Termination itself is an
//! operating-system action; its per-process results come back to
//! `stop_outcome`, which counts the successes — best effort, never
//! all-or-nothing.

use vstd::prelude::*;
use vstd::string::StringExecFns;

use crate::strnum::dec_digits;
use crate::strnum::u32_to_decimal;

verus! {

/// The control state the registry keeps for one session.
pub struct SessionHandle {
    pub game_id: u32,
    pub stop_requested: bool,
    pub candidates: Vec<u32>,
}

/// Index of the first entry for `id`, if any.
pub open spec fn lookup(entries: Seq<SessionHandle>, id: u32) -> Option<int>
    decreases entries.len(),
{
    if entries.len() == 0 {
        None
    } else if entries[0].game_id == id {
        Some(0)
    } else {
        match lookup(entries.skip(1), id) {
            Some(k) => Some(k + 1),
            None => None,
        }
    }
}

/// What `lookup` finds: a well-placed entry for `id`, or none anywhere.
pub proof fn lemma_lookup(entries: Seq<SessionHandle>, id: u32)
    ensures
        match lookup(entries, id) {
            Some(k) => 0 <= k < entries.len() && entries[k].game_id == id,
            None => forall|i: int| 0 <= i < entries.len() ==> entries[i].game_id != id,
        },
    decreases entries.len(),
{
    if entries.len() > 0 {
        lemma_lookup(entries.skip(1), id);
        assert(forall|i: int|
            0 <= i < entries.len() - 1 ==> entries.skip(1)[i] == entries[i + 1]);
        if entries[0].game_id != id && lookup(entries.skip(1), id) is None {
            assert forall|i: int| 0 <= i < entries.len() implies entries[i].game_id != id by {
                if i > 0 {
                    assert(entries.skip(1)[i - 1] == entries[i]);
                }
            }
        }
    }
}

/// No two entries share a game identifier.
pub open spec fn registry_inv(entries: Seq<SessionHandle>) -> bool {
    forall|i: int, j: int|
        0 <= i < j < entries.len() ==> entries[i].game_id != entries[j].game_id
}

/// An error of the registry.
#[derive(Debug, PartialEq, Eq, Structural)]
pub enum RegistryError {
    /// `register` found the game identifier already registered.
    DuplicateSession,
    /// `request_stop` found no session under the game identifier.
    NoSuchSession,
}

/// The process-wide table of active sessions.
pub struct SessionRegistry {
    pub entries: Vec<SessionHandle>,
}

impl SessionRegistry {
    /// An empty registry.
    pub fn new() -> (r: Self)
        ensures
            r.entries@.len() == 0,
            registry_inv(r.entries@),
    {
        SessionRegistry { entries: Vec::new() }
    }

    /// Index of the entry for `game_id`, decided executably.
    fn find(&self, game_id: u32) -> (r: Option<usize>)
        ensures
            match r {
                Some(k) => lookup(self.entries@, game_id) == Some(k as int),
                None => lookup(self.entries@, game_id) is None,
            },
    {
        let n = self.entries.len();
        let mut i: usize = 0;
        while i < n
            invariant
                i <= n == self.entries@.len(),
                forall|j: int| 0 <= j < i ==> self.entries@[j].game_id != game_id,
        decreases n - i,
        {
            if self.entries[i].game_id == game_id {
                proof {
                    lemma_lookup_prefix(self.entries@, game_id, i as int);
                }
                return Some(i);
            }
            i += 1;
        }
        proof {
            lemma_lookup(self.entries@, game_id);
            match lookup(self.entries@, game_id) {
                Some(k) => {
                    assert(self.entries@[k].game_id == game_id);
                },
                None => {},
            }
        }
        None
    }

    /// Registers a session under its game identifier, with its initial
    /// candidate snapshot and the stop signal cleared. A second session
    /// under a live identifier is refused.
    pub fn register(&mut self, game_id: u32, candidates: Vec<u32>) -> (r: Result<
        (),
        RegistryError,
    >)
        requires
            registry_inv(old(self).entries@),
        ensures
            registry_inv(final(self).entries@),
            match r {
                Ok(()) => {
                    &&& lookup(old(self).entries@, game_id) is None
                    &&& final(self).entries@.len() == old(self).entries@.len() + 1
                    &&& final(self).entries@.last().game_id == game_id
                    &&& final(self).entries@.last().stop_requested == false
                    &&& final(self).entries@.last().candidates@ == candidates@
                    &&& final(self).entries@.drop_last() == old(self).entries@
                },
                Err(e) => {
                    &&& e == RegistryError::DuplicateSession
                    &&& lookup(old(self).entries@, game_id) is Some
                    &&& final(self).entries@ == old(self).entries@
                },
            },
    {
        proof {
            lemma_lookup(self.entries@, game_id);
        }
        if self.find(game_id).is_some() {
            return Err(RegistryError::DuplicateSession);
        }
        let handle = SessionHandle { game_id, stop_requested: false, candidates };
        self.entries.push(handle);
        proof {
            assert(self.entries@.drop_last() =~= old(self).entries@);
            assert(self.entries@.last().game_id == game_id);
            assert forall|i: int, j: int|
                0 <= i < j < self.entries@.len() implies self.entries@[i].game_id
                != self.entries@[j].game_id by {
                if j < self.entries@.len() - 1 {
                    assert(old(self).entries@[i].game_id != old(self).entries@[j].game_id);
                } else {
                    lemma_lookup(old(self).entries@, game_id);
                }
            }
        }
        Ok(())
    }

    /// Removes the session for `game_id`; afterwards the identifier is
    /// free. Reports whether anything was removed.
    pub fn unregister(&mut self, game_id: u32) -> (removed: bool)
        requires
            registry_inv(old(self).entries@),
        ensures
            registry_inv(final(self).entries@),
            lookup(final(self).entries@, game_id) is None,
            match lookup(old(self).entries@, game_id) {
                Some(k) => removed && final(self).entries@ == old(self).entries@.remove(k),
                None => !removed && final(self).entries@ == old(self).entries@,
            },
    {
        proof {
            lemma_lookup(self.entries@, game_id);
        }
        let found = self.find(game_id);
        match found {
            Some(k) => {
                self.entries.remove(k);
                proof {
                    lemma_lookup(self.entries@, game_id);
                    assert forall|i: int|
                        0 <= i < self.entries@.len() implies self.entries@[i].game_id != game_id by {
                        if i < k {
                            assert(self.entries@[i] == old(self).entries@[i]);
                        } else {
                            assert(self.entries@[i] == old(self).entries@[i + 1]);
                        }
                    }
                    match lookup(self.entries@, game_id) {
                        Some(j) => {
                            assert(self.entries@[j].game_id == game_id);
                        },
                        None => {},
                    }
                    assert forall|i: int, j: int|
                        0 <= i < j < self.entries@.len() implies self.entries@[i].game_id != self.entries@[j].game_id by {
                        let a: int = if i < k {
                            i
                        } else {
                            i + 1
                        };
                        let b: int = if j < k {
                            j
                        } else {
                            j + 1
                        };
                        assert(self.entries@[i] == old(self).entries@[a]);
                        assert(self.entries@[j] == old(self).entries@[b]);
                    }
                }
                true
            },
            None => false,
        }
    }

    /// Raises the stop signal of the session for `game_id` and returns the
    /// candidate snapshot to terminate. On an unknown identifier — in
    /// particular one whose session already ended and unregistered itself —
    /// it fails with `NoSuchSession` and changes nothing: a stop never
    /// succeeds silently twice.
    pub fn request_stop(&mut self, game_id: u32) -> (r: Result<Vec<u32>, RegistryError>)
        requires
            registry_inv(old(self).entries@),
        ensures
            registry_inv(final(self).entries@),
            match lookup(old(self).entries@, game_id) {
                Some(k) => {
                    &&& r matches Ok(pids) && pids@ == old(self).entries@[k].candidates@
                    &&& final(self).entries@.len() == old(self).entries@.len()
                    &&& final(self).entries@[k].game_id == old(self).entries@[k].game_id
                    &&& final(self).entries@[k].stop_requested == true
                    &&& final(self).entries@[k].candidates@ == old(self).entries@[k].candidates@
                    &&& forall|i: int|
                        0 <= i < old(self).entries@.len() && i != k ==> final(self).entries@[i]
                            == old(self).entries@[i]
                },
                None => r == Result::<Vec<u32>, RegistryError>::Err(RegistryError::NoSuchSession)
                    && final(self).entries@ == old(self).entries@,
            },
    {
        proof {
            lemma_lookup(self.entries@, game_id);
        }
        let found = self.find(game_id);
        match found {
            Some(k) => {
                let ghost old_entries = self.entries@;
                let snapshot = clone_pids(&self.entries[k].candidates);
                let out = clone_pids(&self.entries[k].candidates);
                let game_id_k = self.entries[k].game_id;
                let handle = SessionHandle {
                    game_id: game_id_k,
                    stop_requested: true,
                    candidates: snapshot,
                };
                self.entries.set(k, handle);
                proof {
                    assert forall|i: int, j: int|
                        0 <= i < j < self.entries@.len() implies self.entries@[i].game_id != self.entries@[j].game_id by {
                        assert(self.entries@[i].game_id == old_entries[i].game_id);
                        assert(self.entries@[j].game_id == old_entries[j].game_id);
                    }
                }
                Ok(out)
            },
            None => Err(RegistryError::NoSuchSession),
        }
    }

    /// Whether the stop signal of the session for `game_id` is raised; an
    /// unknown identifier reads as not raised.
    pub fn is_stop_requested(&self, game_id: u32) -> (r: bool)
        ensures
            r == match lookup(self.entries@, game_id) {
                Some(k) => self.entries@[k].stop_requested,
                None => false,
            },
    {
        proof {
            lemma_lookup(self.entries@, game_id);
        }
        match self.find(game_id) {
            Some(k) => self.entries[k].stop_requested,
            None => false,
        }
    }

    /// Replaces the candidate snapshot of the session for `game_id`; the
    /// monitor loop calls this after the set changes. Reports whether the
    /// session was found.
    pub fn update_candidates(&mut self, game_id: u32, pids: &Vec<u32>) -> (found: bool)
        requires
            registry_inv(old(self).entries@),
        ensures
            registry_inv(final(self).entries@),
            match lookup(old(self).entries@, game_id) {
                Some(k) => {
                    &&& found
                    &&& final(self).entries@.len() == old(self).entries@.len()
                    &&& final(self).entries@[k].game_id == old(self).entries@[k].game_id
                    &&& final(self).entries@[k].stop_requested == old(
                        self,
                    ).entries@[k].stop_requested
                    &&& final(self).entries@[k].candidates@ == pids@
                    &&& forall|i: int|
                        0 <= i < old(self).entries@.len() && i != k ==> final(self).entries@[i]
                            == old(self).entries@[i]
                },
                None => !found && final(self).entries@ == old(self).entries@,
            },
    {
        proof {
            lemma_lookup(self.entries@, game_id);
        }
        let found = self.find(game_id);
        match found {
            Some(k) => {
                let ghost old_entries = self.entries@;
                let game_id_k = self.entries[k].game_id;
                let stop_k = self.entries[k].stop_requested;
                let handle = SessionHandle {
                    game_id: game_id_k,
                    stop_requested: stop_k,
                    candidates: clone_pids(pids),
                };
                self.entries.set(k, handle);
                proof {
                    assert forall|i: int, j: int|
                        0 <= i < j < self.entries@.len() implies self.entries@[i].game_id != self.entries@[j].game_id by {
                        assert(self.entries@[i].game_id == old_entries[i].game_id);
                        assert(self.entries@[j].game_id == old_entries[j].game_id);
                    }
                }
                true
            },
            None => false,
        }
    }
}

/// `lookup` finds index `k` when the entries before `k` miss `id` and the
/// entry at `k` carries it.
proof fn lemma_lookup_prefix(entries: Seq<SessionHandle>, id: u32, k: int)
    requires
        0 <= k < entries.len(),
        entries[k].game_id == id,
        forall|j: int| 0 <= j < k ==> entries[j].game_id != id,
    ensures
        lookup(entries, id) == Some(k),
    decreases k,
{
    if k > 0 {
        assert(forall|i: int|
            0 <= i < entries.len() - 1 ==> entries.skip(1)[i] == entries[i + 1]);
        lemma_lookup_prefix(entries.skip(1), id, k - 1);
    }
}

/// A copy of a vector of identifiers.
fn clone_pids(v: &Vec<u32>) -> (r: Vec<u32>)
    ensures
        r@ == v@,
{
    let n = v.len();
    let mut out: Vec<u32> = Vec::new();
    let mut i: usize = 0;
    while i < n
        invariant
            i <= n == v@.len(),
            out@ =~= v@.take(i as int),
        decreases n - i,
    {
        out.push(v[i]);
        i += 1;
    }
    proof {
        assert(v@.take(n as int) =~= v@);
    }
    out
}

/// After a session unregisters, no entry for its identifier remains, so a
/// later stop request must take the `NoSuchSession` path: stopping an
/// already-ended session fails rather than terminating anything twice.
pub proof fn lemma_stop_after_unregister(entries: Seq<SessionHandle>, id: u32, k: int)
    requires
        registry_inv(entries),
        0 <= k < entries.len(),
        entries[k].game_id == id,
    ensures
        lookup(entries.remove(k), id) is None,
{
    let rest = entries.remove(k);
    lemma_lookup(rest, id);
    assert forall|i: int| 0 <= i < rest.len() implies rest[i].game_id != id by {
        if i < k {
            assert(rest[i] == entries[i]);
        } else {
            assert(rest[i] == entries[i + 1]);
        }
    }
    match lookup(rest, id) {
        Some(j) => {
            assert(rest[j].game_id == id);
        },
        None => {},
    }
}

/// How many of the per-process termination attempts succeeded.
pub open spec fn count_true(s: Seq<bool>) -> int
    decreases s.len(),
{
    if s.len() == 0 {
        0
    } else {
        count_true(s.drop_last()) + if s.last() {
            1int
        } else {
            0int
        }
    }
}

/// The caller-facing result of a stop request.
#[derive(Debug)]
pub struct StopResult {
    pub success: bool,
    pub message: String,
    pub terminated_count: u32,
}

/// The message `stop_outcome` builds.
pub open spec fn stop_message(game_id: u32, terminated: int) -> Seq<char> {
    "stopped game "@ + dec_digits(game_id as nat) + ", terminated "@ + dec_digits(
        terminated as nat,
    ) + " processes"@
}

/// Summarizes a bulk termination: one attempt was made per candidate, and
/// the successes are counted. Individual failures are reported only
/// through the count — they make the stop no less successful.
pub fn stop_outcome(game_id: u32, termination_results: &Vec<bool>) -> (r: StopResult)
    requires
        termination_results@.len() <= u32::MAX,
    ensures
        r.success,
        r.terminated_count == count_true(termination_results@),
        r.message@ == stop_message(game_id, count_true(termination_results@)),
{
    let n = termination_results.len();
    let mut count: u32 = 0;
    let mut i: usize = 0;
    while i < n
        invariant
            i <= n == termination_results@.len(),
            n <= u32::MAX,
            count == count_true(termination_results@.take(i as int)),
            count <= i,
        decreases n - i,
    {
        proof {
            assert(termination_results@.take(i + 1).drop_last() =~= termination_results@.take(
                i as int,
            ));
            assert(termination_results@.take(i + 1).last() == termination_results@[i as int]);
        }
        if termination_results[i] {
            count = count + 1;
        }
        i += 1;
    }
    proof {
        assert(termination_results@.take(n as int) =~= termination_results@);
    }
    let mut message = "stopped game ".to_owned();
    message.append(u32_to_decimal(game_id).as_str());
    message.append(", terminated ");
    message.append(u32_to_decimal(count).as_str());
    message.append(" processes");
    StopResult { success: true, message, terminated_count: count }
}

} // verus!
