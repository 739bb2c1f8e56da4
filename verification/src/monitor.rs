//! The monitoring session: the per-second state machine that accumulates
//! active playtime for one launched game.
//!
//! A session starts from an initial directory enumeration, then ticks once
//! per second: a stop request ends it at once; while the best candidate is
//! alive the dead candidates are pruned and a foreground second is counted;
//! liveness failures are debounced, and only the third consecutive failure
//! triggers a rescan, which either switches to a freshly enumerated
//! candidate or ends the session. The caller drives the machine on a timer
//! that skips missed ticks, so one tick stands for at most one second.

use vstd::prelude::*;

use crate::candidates::CandidateSet;
use crate::candidates::alive_subseq;
use crate::candidates::lemma_alive_subseq;
use crate::candidates::lemma_select_best_membership;
use crate::candidates::select_best_spec;
use crate::candidates::select_best_from_candidates;
use crate::candidates::vec_contains;

verus! {

/// Consecutive liveness failures tolerated before a rescan is triggered.
pub const MAX_CONSECUTIVE_FAILURES: u32 = 3;

/// Every how many accumulated active seconds a time update is reported.
pub const TIME_UPDATE_INTERVAL_SECS: u64 = 1;

/// Seconds between two ticks of the monitor loop.
pub const MONITOR_CHECK_INTERVAL_SECS: u64 = 1;

/// Grace seconds before the initial enumeration, to let the launched
/// process tree stabilize.
pub const STARTUP_GRACE_SECS: u64 = 4;

/// Longer grace for platforms where a compatibility layer must finish
/// initializing first.
pub const STARTUP_GRACE_SECS_COMPAT: u64 = 12;

/// The session's phase. Starting is over once the session is constructed.
#[derive(Clone, Copy, Debug, PartialEq, Eq, Structural)]
pub enum MonitorPhase {
    /// Ticking once per second on a live best candidate.
    Tracking,
    /// Three consecutive liveness failures: a rescan must decide.
    Rescanning,
    /// The session is over; only finalization remains.
    Ended,
}

/// What the caller observed for one tick.
pub struct TickInput {
    /// The externally settable stop signal, read this tick.
    pub stop_requested: bool,
    /// Whether the best candidate answered the liveness check.
    pub best_alive: bool,
    /// The candidates that answered their liveness checks, for pruning.
    pub alive_pids: Vec<u32>,
    /// Whether the game owns the foreground (from the detector; platforms
    /// without foreground queries pass the degraded constant `true` while
    /// the scope is active).
    pub foreground: bool,
}

/// The mathematical content of a `TickInput`.
pub struct InputModel {
    pub stop_requested: bool,
    pub best_alive: bool,
    pub alive: Seq<u32>,
    pub foreground: bool,
}

impl View for TickInput {
    type V = InputModel;

    open spec fn view(&self) -> InputModel {
        InputModel {
            stop_requested: self.stop_requested,
            best_alive: self.best_alive,
            alive: self.alive_pids@,
            foreground: self.foreground,
        }
    }
}

/// A time update to report: the running totals and the process they are
/// attributed to.
#[derive(Debug, PartialEq, Eq, Structural)]
pub struct TimeUpdate {
    pub total_minutes: u64,
    pub total_seconds: u64,
    pub process_id: u32,
}

/// What one tick decided.
#[derive(Debug)]
pub enum TickOutcome {
    /// The stop signal was set: the session ended.
    Stopped,
    /// The best candidate is alive. `counted` says an active second was
    /// accumulated; a due time update is carried along.
    Alive { counted: bool, time_update: Option<TimeUpdate> },
    /// The best candidate failed its liveness check, still below the
    /// debounce threshold.
    LivenessFailure { failures: u32 },
    /// The threshold was reached: enumerate afresh and call `apply_rescan`.
    RescanNeeded,
}

/// What a rescan decided.
#[derive(Debug)]
pub enum RescanOutcome {
    /// New candidates were found; the session switched to this best
    /// identifier. Callers announce the switch.
    Switched { new_best: u32 },
    /// Nothing was found: the session ended.
    Exhausted,
}

/// The mathematical content of a session.
#[verifier::ext_equal]
pub struct SessionModel {
    pub game_id: u32,
    pub start_time: u64,
    pub accumulated: u64,
    pub pids: Seq<u32>,
    pub best: u32,
    pub failures: u32,
    pub phase: MonitorPhase,
}

/// The session invariant: candidates free of duplicates, the best
/// identifier a member whenever candidates exist, and the failure counter
/// within the debounce threshold (strictly, while still tracking).
pub open spec fn session_inv(s: SessionModel) -> bool {
    &&& s.pids.no_duplicates()
    &&& s.pids.len() > 0 ==> s.pids.contains(s.best)
    &&& s.failures <= MAX_CONSECUTIVE_FAILURES
    &&& s.phase is Tracking ==> s.failures < MAX_CONSECUTIVE_FAILURES
}

/// The elements of `s` with later duplicates removed; first occurrences
/// keep their order.
pub open spec fn dedup_spec(s: Seq<u32>) -> Seq<u32>
    decreases s.len(),
{
    if s.len() == 0 {
        Seq::empty()
    } else if s.drop_last().contains(s.last()) {
        dedup_spec(s.drop_last())
    } else {
        dedup_spec(s.drop_last()).push(s.last())
    }
}

/// `dedup_spec` keeps exactly the members and yields no duplicates.
pub proof fn lemma_dedup(s: Seq<u32>)
    ensures
        dedup_spec(s).no_duplicates(),
        forall|x: u32| #[trigger] dedup_spec(s).contains(x) <==> s.contains(x),
    decreases s.len(),
{
    if s.len() > 0 {
        lemma_dedup(s.drop_last());
        assert(forall|j: int| 0 <= j < s.len() - 1 ==> s.drop_last()[j] == s[j]);
        let d = dedup_spec(s);
        let dd = dedup_spec(s.drop_last());
        assert forall|x: u32| s.contains(x) implies #[trigger] d.contains(x) by {
            let j = choose|j: int| 0 <= j < s.len() && s[j] == x;
            if j < s.len() - 1 {
                assert(s.drop_last()[j] == x);
                assert(s.drop_last().contains(x));
                assert(dd.contains(x));
                let k = choose|k: int| 0 <= k < dd.len() && dd[k] == x;
                assert(d[k] == x);
            } else {
                if s.drop_last().contains(x) {
                    assert(dd.contains(x));
                    let k = choose|k: int| 0 <= k < dd.len() && dd[k] == x;
                    assert(d[k] == x);
                } else {
                    assert(d[d.len() - 1] == x);
                }
            }
        }
        assert forall|x: u32| #[trigger] d.contains(x) implies s.contains(x) by {
            let k = choose|k: int| 0 <= k < d.len() && d[k] == x;
            if k < dd.len() {
                assert(dd[k] == d[k]);
                assert(dd.contains(x));
                let j = choose|j: int|
                    0 <= j < s.drop_last().len() && s.drop_last()[j] == x;
                assert(s[j] == x);
            } else {
                assert(x == s.last());
                assert(s[s.len() - 1] == x);
            }
        }
        if !s.drop_last().contains(s.last()) {
            assert(!dd.contains(s.last()));
            assert(d.drop_last() =~= dd);
            assert forall|i: int, j: int| 0 <= i < j < d.len() implies d[i] != d[j] by {
                if j < d.len() - 1 {
                    assert(dd[i] == d[i] && dd[j] == d[j]);
                } else {
                    assert(dd[i] == d[i]);
                    assert(dd.contains(dd[i]));
                }
            }
        }
    }
}

/// Copies `v` without its later duplicates, as `dedup_spec` says.
pub fn dedup_pids(v: &Vec<u32>) -> (r: Vec<u32>)
    ensures
        r@ == dedup_spec(v@),
        r@.no_duplicates(),
{
    let n = v.len();
    let mut out: Vec<u32> = Vec::new();
    let mut i: usize = 0;
    while i < n
        invariant
            i <= n == v@.len(),
            out@ == dedup_spec(v@.take(i as int)),
        decreases n - i,
    {
        proof {
            assert(v@.take(i + 1).drop_last() =~= v@.take(i as int));
            assert(v@.take(i + 1).last() == v@[i as int]);
            lemma_dedup(v@.take(i as int));
        }
        if !vec_contains(&out, v[i]) {
            out.push(v[i]);
        }
        i += 1;
    }
    proof {
        assert(v@.take(n as int) =~= v@);
        lemma_dedup(v@);
    }
    out
}

/// The state after one tick on `s` under observation `i`. Outside the
/// tracking phase a tick changes nothing.
pub open spec fn tick_next(s: SessionModel, i: InputModel) -> SessionModel {
    if !(s.phase is Tracking) {
        s
    } else if i.stop_requested {
        SessionModel { phase: MonitorPhase::Ended, ..s }
    } else if i.best_alive {
        let pids2 = alive_subseq(s.pids, i.alive);
        let best2 = if pids2.len() == 0 || pids2.contains(s.best) {
            s.best
        } else {
            pids2[0]
        };
        let acc2 = if i.foreground {
            (s.accumulated + 1) as u64
        } else {
            s.accumulated
        };
        SessionModel { accumulated: acc2, pids: pids2, best: best2, failures: 0, ..s }
    } else {
        let f2 = (s.failures + 1) as u32;
        if f2 >= MAX_CONSECUTIVE_FAILURES {
            SessionModel { failures: f2, phase: MonitorPhase::Rescanning, ..s }
        } else {
            SessionModel { failures: f2, ..s }
        }
    }
}

/// What the tick on `s` under `i` reports (meaningful in the tracking
/// phase, where ticks happen).
pub open spec fn tick_outcome_spec(s: SessionModel, i: InputModel) -> TickOutcome {
    if i.stop_requested {
        TickOutcome::Stopped
    } else if i.best_alive {
        if i.foreground {
            let s2 = tick_next(s, i);
            TickOutcome::Alive {
                counted: true,
                time_update: if s2.accumulated % TIME_UPDATE_INTERVAL_SECS == 0 {
                    Some(
                        TimeUpdate {
                            total_minutes: s2.accumulated / 60,
                            total_seconds: s2.accumulated,
                            process_id: s2.best,
                        },
                    )
                } else {
                    None
                },
            }
        } else {
            TickOutcome::Alive { counted: false, time_update: None }
        }
    } else {
        if s.failures + 1 >= MAX_CONSECUTIVE_FAILURES {
            TickOutcome::RescanNeeded
        } else {
            TickOutcome::LivenessFailure { failures: (s.failures + 1) as u32 }
        }
    }
}

/// The state after a rescan that enumerated `found` and observed the
/// window system as `foreground` / `windowed`. Outside the rescanning
/// phase nothing changes.
pub open spec fn rescan_next(
    s: SessionModel,
    found: Seq<u32>,
    foreground: Option<u32>,
    windowed: Seq<u32>,
) -> SessionModel {
    if !(s.phase is Rescanning) {
        s
    } else {
        let cands = dedup_spec(found);
        match select_best_spec(cands, foreground, windowed) {
            Some(b) => SessionModel {
                pids: cands,
                best: b,
                failures: 0,
                phase: MonitorPhase::Tracking,
                ..s
            },
            None => SessionModel { phase: MonitorPhase::Ended, ..s },
        }
    }
}

/// What the rescan reports.
pub open spec fn rescan_outcome_spec(
    s: SessionModel,
    found: Seq<u32>,
    foreground: Option<u32>,
    windowed: Seq<u32>,
) -> RescanOutcome {
    match select_best_spec(dedup_spec(found), foreground, windowed) {
        Some(b) => RescanOutcome::Switched { new_best: b },
        None => RescanOutcome::Exhausted,
    }
}

/// The state a session starts in: the enumerated candidates without
/// duplicates, the originally supplied identifier added when it is alive
/// but was missed by the enumeration, and the best identifier picked by
/// the selection priority, falling back to the supplied identifier.
pub open spec fn start_spec(
    game_id: u32,
    start_time: u64,
    initial_pid: u32,
    initial_alive: bool,
    enumerated: Seq<u32>,
    foreground: Option<u32>,
    windowed: Seq<u32>,
) -> SessionModel {
    let base = dedup_spec(enumerated);
    let cands = if initial_alive && !base.contains(initial_pid) {
        base.push(initial_pid)
    } else {
        base
    };
    let best = match select_best_spec(cands, foreground, windowed) {
        Some(b) => b,
        None => initial_pid,
    };
    SessionModel {
        game_id,
        start_time,
        accumulated: 0,
        pids: cands,
        best,
        failures: 0,
        phase: MonitorPhase::Tracking,
    }
}

/// One monitoring session.
pub struct MonitorSession {
    pub game_id: u32,
    pub start_time: u64,
    pub accumulated_active_seconds: u64,
    pub candidates: CandidateSet,
    pub consecutive_failures: u32,
    pub phase: MonitorPhase,
}

impl View for MonitorSession {
    type V = SessionModel;

    open spec fn view(&self) -> SessionModel {
        SessionModel {
            game_id: self.game_id,
            start_time: self.start_time,
            accumulated: self.accumulated_active_seconds,
            pids: self.candidates.pids@,
            best: self.candidates.best,
            failures: self.consecutive_failures,
            phase: self.phase,
        }
    }
}

impl MonitorSession {
    /// Seeds a session from the initial enumeration, as `start_spec` says.
    pub fn start_session(
        game_id: u32,
        start_time: u64,
        initial_pid: u32,
        initial_alive: bool,
        enumerated: &Vec<u32>,
        foreground: Option<u32>,
        windowed: &Vec<u32>,
    ) -> (s: MonitorSession)
        ensures
            s@ == start_spec(
                game_id,
                start_time,
                initial_pid,
                initial_alive,
                enumerated@,
                foreground,
                windowed@,
            ),
            session_inv(s@),
    {
        let mut pids = dedup_pids(enumerated);
        if initial_alive && !vec_contains(&pids, initial_pid) {
            pids.push(initial_pid);
        }
        proof {
            lemma_dedup(enumerated@);
            lemma_select_best_membership(pids@, foreground, windowed@);
        }
        let best = match select_best_from_candidates(&pids, foreground, windowed) {
            Some(b) => b,
            None => initial_pid,
        };
        let s = MonitorSession {
            game_id,
            start_time,
            accumulated_active_seconds: 0,
            candidates: CandidateSet { pids, best },
            consecutive_failures: 0,
            phase: MonitorPhase::Tracking,
        };
        s
    }

    /// One tick of the monitor loop, as `tick_next` and
    /// `tick_outcome_spec` say. The accumulated seconds stay below
    /// `u64::MAX` in any run that fits a machine's lifetime; the caller
    /// keeps the bound.
    pub fn tick(&mut self, input: &TickInput) -> (r: TickOutcome)
        requires
            session_inv(old(self)@),
            old(self)@.phase is Tracking,
            old(self).accumulated_active_seconds < u64::MAX,
        ensures
            final(self)@ == tick_next(old(self)@, input@),
            r == tick_outcome_spec(old(self)@, input@),
            session_inv(final(self)@),
    {
        if input.stop_requested {
            self.phase = MonitorPhase::Ended;
            return TickOutcome::Stopped;
        }
        if input.best_alive {
            self.consecutive_failures = 0;
            self.candidates.prune(&input.alive_pids);
            if input.foreground {
                self.accumulated_active_seconds = self.accumulated_active_seconds + 1;
                let acc = self.accumulated_active_seconds;
                let time_update = if acc % TIME_UPDATE_INTERVAL_SECS == 0 {
                    Some(
                        TimeUpdate {
                            total_minutes: acc / 60,
                            total_seconds: acc,
                            process_id: self.candidates.best,
                        },
                    )
                } else {
                    None
                };
                TickOutcome::Alive { counted: true, time_update }
            } else {
                TickOutcome::Alive { counted: false, time_update: None }
            }
        } else {
            self.consecutive_failures = self.consecutive_failures + 1;
            if self.consecutive_failures >= MAX_CONSECUTIVE_FAILURES {
                self.phase = MonitorPhase::Rescanning;
                TickOutcome::RescanNeeded
            } else {
                TickOutcome::LivenessFailure { failures: self.consecutive_failures }
            }
        }
    }

    /// Applies a fresh enumeration after the debounce threshold was
    /// reached, as `rescan_next` and `rescan_outcome_spec` say.
    pub fn apply_rescan(
        &mut self,
        found: &Vec<u32>,
        foreground: Option<u32>,
        windowed: &Vec<u32>,
    ) -> (r: RescanOutcome)
        requires
            session_inv(old(self)@),
            old(self)@.phase is Rescanning,
        ensures
            final(self)@ == rescan_next(old(self)@, found@, foreground, windowed@),
            r == rescan_outcome_spec(old(self)@, found@, foreground, windowed@),
            session_inv(final(self)@),
    {
        let cands = dedup_pids(found);
        proof {
            lemma_select_best_membership(cands@, foreground, windowed@);
        }
        match select_best_from_candidates(&cands, foreground, windowed) {
            Some(b) => {
                self.candidates = CandidateSet { pids: cands, best: b };
                self.consecutive_failures = 0;
                self.phase = MonitorPhase::Tracking;
                RescanOutcome::Switched { new_best: b }
            },
            None => {
                self.phase = MonitorPhase::Ended;
                RescanOutcome::Exhausted
            },
        }
    }
}

/// Minutes from accumulated seconds, rounded half-up at the 30-second
/// boundary.
pub open spec fn round_minutes(seconds: int) -> int {
    seconds / 60 + if seconds % 60 >= 30 {
        1int
    } else {
        0int
    }
}

/// The final report of a session.
#[derive(Debug, PartialEq, Eq, Structural)]
pub struct SessionEnded {
    pub game_id: u32,
    pub start_time: u64,
    pub end_time: u64,
    pub total_minutes: u64,
    pub total_seconds: u64,
    pub process_id: u32,
}

/// Closes a session's books: the accumulated seconds are reported as is,
/// and as minutes rounded half-up.
pub fn finalize_session(
    game_id: u32,
    process_id: u32,
    start_time: u64,
    end_time: u64,
    accumulated_seconds: u64,
) -> (r: SessionEnded)
    ensures
        r.game_id == game_id,
        r.process_id == process_id,
        r.start_time == start_time,
        r.end_time == end_time,
        r.total_seconds == accumulated_seconds,
        r.total_minutes == round_minutes(accumulated_seconds as int),
{
    let total_minutes = accumulated_seconds / 60;
    let remainder_seconds = accumulated_seconds % 60;
    let final_minutes = if remainder_seconds >= 30 {
        total_minutes + 1
    } else {
        total_minutes
    };
    SessionEnded {
        game_id,
        start_time,
        end_time,
        total_minutes: final_minutes,
        total_seconds: accumulated_seconds,
        process_id,
    }
}

/// One step of a session run, for stating laws over whole runs.
pub enum SessionStep {
    Tick { input: InputModel },
    Rescan { found: Seq<u32>, foreground: Option<u32>, windowed: Seq<u32> },
}

/// The state after one step.
pub open spec fn next_state(s: SessionModel, step: SessionStep) -> SessionModel {
    match step {
        SessionStep::Tick { input } => tick_next(s, input),
        SessionStep::Rescan { found, foreground, windowed } => rescan_next(
            s,
            found,
            foreground,
            windowed,
        ),
    }
}

/// The state after a whole run of steps.
pub open spec fn run_steps(s: SessionModel, steps: Seq<SessionStep>) -> SessionModel
    decreases steps.len(),
{
    if steps.len() == 0 {
        s
    } else {
        run_steps(next_state(s, steps[0]), steps.skip(1))
    }
}

/// Active time never exceeds elapsed time: every step adds at most one
/// accumulated second, and only a tick adds one. Driven once per second
/// from `start_time`, the accumulated seconds at time `T` are therefore at
/// most `T - start_time`.
pub proof fn lemma_active_time_bounded(s: SessionModel, steps: Seq<SessionStep>)
    requires
        s.accumulated + steps.len() <= u64::MAX,
    ensures
        run_steps(s, steps).accumulated <= s.accumulated + steps.len(),
    decreases steps.len(),
{
    if steps.len() > 0 {
        let s2 = next_state(s, steps[0]);
        assert(s2.accumulated <= s.accumulated + 1);
        lemma_active_time_bounded(s2, steps.skip(1));
    }
}

/// The session invariant — in particular that the best identifier is a
/// member of the candidate set whenever candidates exist — is preserved by
/// every step.
pub proof fn lemma_invariant_preserved(s: SessionModel, step: SessionStep)
    requires
        session_inv(s),
    ensures
        session_inv(next_state(s, step)),
{
    match step {
        SessionStep::Tick { input } => {
            if s.phase is Tracking && !input.stop_requested && input.best_alive {
                lemma_alive_subseq(s.pids, input.alive);
                let pids2 = alive_subseq(s.pids, input.alive);
                if pids2.len() > 0 && !pids2.contains(s.best) {
                    assert(pids2.contains(pids2[0]));
                }
            }
        },
        SessionStep::Rescan { found, foreground, windowed } => {
            if s.phase is Rescanning {
                lemma_dedup(found);
                lemma_select_best_membership(dedup_spec(found), foreground, windowed);
            }
        },
    }
}

/// The session invariant holds along every run that starts inside it.
pub proof fn lemma_invariant_run(s: SessionModel, steps: Seq<SessionStep>)
    requires
        session_inv(s),
    ensures
        session_inv(run_steps(s, steps)),
    decreases steps.len(),
{
    if steps.len() > 0 {
        lemma_invariant_preserved(s, steps[0]);
        lemma_invariant_run(next_state(s, steps[0]), steps.skip(1));
    }
}

/// Debounce: a single transient liveness failure followed by a success
/// triggers no rescan — the failure counter returns to zero and the
/// session keeps tracking, so no process switch is announced.
pub proof fn lemma_debounce_transient_failure(s: SessionModel, fail: InputModel, ok: InputModel)
    requires
        session_inv(s),
        s.phase is Tracking,
        !fail.stop_requested,
        !fail.best_alive,
        !ok.stop_requested,
        ok.best_alive,
        s.failures == 0,
        s.accumulated < u64::MAX,
    ensures
        tick_next(s, fail).phase is Tracking,
        !(tick_outcome_spec(s, fail) is RescanNeeded),
        tick_next(tick_next(s, fail), ok).phase is Tracking,
        tick_next(tick_next(s, fail), ok).failures == 0,
        !(tick_outcome_spec(tick_next(s, fail), ok) is RescanNeeded),
{
}

/// Debounce threshold: from a clean tracking state, two consecutive
/// liveness failures still track; exactly the third reports that a rescan
/// is needed.
pub proof fn lemma_debounce_threshold(
    s: SessionModel,
    f1: InputModel,
    f2: InputModel,
    f3: InputModel,
)
    requires
        session_inv(s),
        s.phase is Tracking,
        s.failures == 0,
        !f1.stop_requested && !f1.best_alive,
        !f2.stop_requested && !f2.best_alive,
        !f3.stop_requested && !f3.best_alive,
    ensures
        tick_next(s, f1).phase is Tracking,
        !(tick_outcome_spec(s, f1) is RescanNeeded),
        tick_next(tick_next(s, f1), f2).phase is Tracking,
        !(tick_outcome_spec(tick_next(s, f1), f2) is RescanNeeded),
        tick_next(tick_next(tick_next(s, f1), f2), f3).phase is Rescanning,
        tick_outcome_spec(tick_next(tick_next(s, f1), f2), f3) is RescanNeeded,
{
}

} // verus!
