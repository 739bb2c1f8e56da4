//! The foreground detector's decision step. A dedicated caller-side thread
//! polls the window system at a short interval and feeds each observation —
//! the owner of the foreground window and whether that owner's executable
//! lies under the game's directory (decided with the verified directory
//! match) — into `detector_poll`, which maintains the shared candidate set
//! and best identifier and reports what to announce.

use vstd::prelude::*;

use crate::candidates::CandidateSet;

verus! {

/// What one poll of the foreground window concluded.
#[derive(Debug)]
pub enum PollOutcome {
    /// No foreground window, or its owner is unrelated to the game.
    NotForeground,
    /// A known candidate owns the foreground window. `switched` says the
    /// best identifier changed, which callers announce.
    Foreground { pid: u32, switched: bool },
    /// An untracked process from the game's directory owns the foreground
    /// window: it was adopted as a candidate and became the best
    /// identifier. Callers announce the switch.
    Escape { pid: u32 },
}

/// Whether the game is to be considered foreground after this outcome.
pub open spec fn outcome_foreground(r: PollOutcome) -> bool {
    !(r is NotForeground)
}

/// The result of one detector step over the candidate-set model.
pub struct DetectorStep {
    pub pids: Seq<u32>,
    pub best: u32,
    pub outcome: PollOutcome,
}

/// One detector step: with no foreground owner nothing changes; a known
/// candidate becomes the best identifier; an untracked process whose
/// executable lies under the game directory is adopted (an escape); any
/// other owner leaves the game background.
pub open spec fn detector_step(
    pids: Seq<u32>,
    best: u32,
    foreground_pid: Option<u32>,
    exe_in_game_dir: bool,
) -> DetectorStep {
    match foreground_pid {
        None => DetectorStep { pids, best, outcome: PollOutcome::NotForeground },
        Some(p) => {
            if pids.contains(p) {
                DetectorStep {
                    pids,
                    best: p,
                    outcome: PollOutcome::Foreground { pid: p, switched: p != best },
                }
            } else if exe_in_game_dir {
                DetectorStep { pids: pids.push(p), best: p, outcome: PollOutcome::Escape { pid: p } }
            } else {
                DetectorStep { pids, best, outcome: PollOutcome::NotForeground }
            }
        },
    }
}

/// Applies one foreground observation to the shared candidate set, as
/// `detector_step` says.
pub fn detector_poll(
    cands: &mut CandidateSet,
    foreground_pid: Option<u32>,
    exe_in_game_dir: bool,
) -> (r: PollOutcome)
    requires
        old(cands).well_formed(),
    ensures
        final(cands).pids@ == detector_step(
            old(cands).pids@,
            old(cands).best,
            foreground_pid,
            exe_in_game_dir,
        ).pids,
        final(cands).best == detector_step(
            old(cands).pids@,
            old(cands).best,
            foreground_pid,
            exe_in_game_dir,
        ).best,
        r == detector_step(
            old(cands).pids@,
            old(cands).best,
            foreground_pid,
            exe_in_game_dir,
        ).outcome,
        final(cands).well_formed(),
{
    match foreground_pid {
        None => PollOutcome::NotForeground,
        Some(p) => {
            if cands.contains(p) {
                let switched = p != cands.best;
                cands.set_best(p);
                PollOutcome::Foreground { pid: p, switched }
            } else if exe_in_game_dir {
                cands.insert(p);
                proof {
                    if old(cands).pids@.len() == 0 {
                        assert(cands.pids@ =~= old(cands).pids@.push(p));
                    }
                    assert(cands.pids@.contains(p)) by {
                        assert(cands.pids@[cands.pids@.len() - 1] == p);
                    }
                }
                cands.set_best(p);
                PollOutcome::Escape { pid: p }
            } else {
                PollOutcome::NotForeground
            }
        },
    }
}

/// Escape detection: a foreground process that is not yet tracked but whose
/// executable lies under the game directory is added to the candidates,
/// marked foreground, and made the best identifier by the very next
/// detector step.
pub proof fn lemma_escape_detection(pids: Seq<u32>, best: u32, escapee: u32)
    requires
        !pids.contains(escapee),
    ensures
        detector_step(pids, best, Some(escapee), true).pids == pids.push(escapee),
        detector_step(pids, best, Some(escapee), true).pids.contains(escapee),
        detector_step(pids, best, Some(escapee), true).best == escapee,
        detector_step(pids, best, Some(escapee), true).outcome is Escape,
        outcome_foreground(detector_step(pids, best, Some(escapee), true).outcome),
{
    assert(pids.push(escapee)[pids.len() as int] == escapee);
}

} // verus!
