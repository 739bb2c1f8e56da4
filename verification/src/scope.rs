//! Decisions about the transient service-manager scope a launch is wrapped
//! in on platforms with a user service manager: the unit's name, whether a
//! reported unit state counts as active, and what to do with a stale unit
//! before reusing its name. The service-manager calls themselves are the
//! caller's; only their plain results flow through here.

use vstd::prelude::*;
use vstd::string::StringExecFns;

use crate::strnum::dec_digits;
use crate::strnum::str_eq;
use crate::strnum::u32_to_decimal;

verus! {

/// The name of the scope unit a game runs under.
pub open spec fn scope_unit_name_spec(game_id: u32) -> Seq<char> {
    "reina_game_"@ + dec_digits(game_id as nat) + ".scope"@
}

/// Builds the scope unit name for a game, as `scope_unit_name_spec` says.
pub fn scope_unit_name(game_id: u32) -> (r: String)
    ensures
        r@ == scope_unit_name_spec(game_id),
{
    let mut s = "reina_game_".to_owned();
    s.append(u32_to_decimal(game_id).as_str());
    s.append(".scope");
    s
}

/// Whether a unit's reported activation state counts as running.
pub fn is_scope_active(active_state: &str) -> (r: bool)
    ensures
        r == (active_state@ == "active"@),
{
    str_eq(active_state, "active")
}

/// What the caller learned when it asked the service manager for the unit.
pub enum ScopeLookup {
    /// The unit exists and reported this activation state.
    Found { active_state: String },
    /// The service manager knows no unit of that name.
    NoSuchUnit,
    /// The query itself failed.
    QueryError,
}

/// What to do with the unit name before reusing it.
#[derive(Debug, PartialEq, Eq, Structural)]
pub enum ScopeCheck {
    /// The unit exists; reset it first exactly when it sits in the failed
    /// state.
    Exists { must_reset: bool },
    /// No unit of that name exists; the name is free.
    Absent,
    /// The state could not be determined.
    Failed,
}

/// Decides how to treat an existing scope unit before a launch reuses its
/// name: an existing unit is reset exactly when its state is `failed`, a
/// missing unit is simply free, and an unanswerable query is surfaced.
pub fn check_scope_or_reset_failed(lookup: &ScopeLookup) -> (r: ScopeCheck)
    ensures
        match lookup {
            ScopeLookup::Found { active_state } => r == (ScopeCheck::Exists {
                must_reset: active_state@ == "failed"@,
            }),
            ScopeLookup::NoSuchUnit => r == ScopeCheck::Absent,
            ScopeLookup::QueryError => r == ScopeCheck::Failed,
        },
{
    match lookup {
        ScopeLookup::Found { active_state } => {
            let must_reset = str_eq(active_state.as_str(), "failed");
            ScopeCheck::Exists { must_reset }
        },
        ScopeLookup::NoSuchUnit => ScopeCheck::Absent,
        ScopeLookup::QueryError => ScopeCheck::Failed,
    }
}

/// The members of a scope, with the manager's own process excluded: the
/// candidate identifiers a scope enumeration yields.
pub open spec fn scope_candidates_spec(members: Seq<u32>, manager_pid: u32) -> Seq<u32>
    decreases members.len(),
{
    if members.len() == 0 {
        Seq::empty()
    } else if members.last() == manager_pid {
        scope_candidates_spec(members.drop_last(), manager_pid)
    } else {
        scope_candidates_spec(members.drop_last(), manager_pid).push(members.last())
    }
}

/// Filters a scope's member list down to candidates, dropping the
/// manager's own process, as `scope_candidates_spec` says.
pub fn scope_candidate_pids(members: &Vec<u32>, manager_pid: u32) -> (r: Vec<u32>)
    ensures
        r@ == scope_candidates_spec(members@, manager_pid),
        forall|i: int| 0 <= i < r@.len() ==> r@[i] != manager_pid,
{
    let n = members.len();
    let mut out: Vec<u32> = Vec::new();
    let mut i: usize = 0;
    while i < n
        invariant
            i <= n == members@.len(),
            out@ == scope_candidates_spec(members@.take(i as int), manager_pid),
            forall|j: int| 0 <= j < out@.len() ==> out@[j] != manager_pid,
        decreases n - i,
    {
        proof {
            assert(members@.take(i + 1).drop_last() =~= members@.take(i as int));
            assert(members@.take(i + 1).last() == members@[i as int]);
        }
        if members[i] != manager_pid {
            out.push(members[i]);
        }
        i += 1;
    }
    proof {
        assert(members@.take(n as int) =~= members@);
    }
    out
}

} // verus!
