//! Process enumerator and liveness checker.
//!
//! A snapshot of the running processes comes from the `sysinfo` crate through
//! trusted wrappers; everything decided on the snapshot — which processes lie
//! under the game's directory, the exclusion of the manager's own process —
//! is verified. The caller owns the file-system access and may resolve
//! canonical directory forms into the records before filtering.

use vstd::prelude::*;

use crate::paths::directory_match_spec;
use crate::paths::directory_matches;

verus! {

/// The `sysinfo` process table, declared so that its values can flow through
/// verified signatures. The library never looks inside it.
#[verifier::external_type_specification]
#[verifier::external_body]
pub struct ExSystem(sysinfo::System);

/// One enumerated process: its identifier and the directory of its
/// executable, raw and (when the caller resolved one) canonical.
pub struct ProcessRecord {
    pub pid: u32,
    pub exe_dir: Option<String>,
    pub canonical_exe_dir: Option<String>,
}

/// The directory a game runs from: the raw text and, when the caller could
/// canonicalize it, the canonical form.
pub struct DirectoryTarget {
    pub raw: String,
    pub canonical: Option<String>,
}

/// The character view of an optional string.
pub open spec fn opt_chars(o: Option<String>) -> Option<Seq<char>> {
    match o {
        Some(s) => Some(s@),
        None => None,
    }
}

/// Relies on `sysinfo::System::refresh_processes`: refreshes the given
/// processes (all of them for `None`), dropping dead ones from the table.
#[verifier::external_body]
fn refresh_processes(sys: &mut sysinfo::System, pids: Option<&Vec<u32>>) {
    let to_update = match pids {
        Some(ps) => {
            let pids: Vec<sysinfo::Pid> = ps.iter().map(|p| sysinfo::Pid::from_u32(*p)).collect();
            sys.refresh_processes(sysinfo::ProcessesToUpdate::Some(&pids), true);
            return;
        },
        None => sysinfo::ProcessesToUpdate::All,
    };
    sys.refresh_processes(to_update, true);
}

/// Relies on `sysinfo::System::processes`: one record per process in the
/// refreshed table, with the directory part of its executable path. The
/// canonical field is left unresolved.
#[verifier::external_body]
fn list_process_records(sys: &sysinfo::System) -> (r: Vec<ProcessRecord>)
    ensures
        forall|i: int| 0 <= i < r@.len() ==> r@[i].canonical_exe_dir is None,
{
    sys.processes()
        .iter()
        .map(|(pid, process)| ProcessRecord {
            pid: pid.as_u32(),
            exe_dir: process
                .exe()
                .and_then(|p| p.parent())
                .map(|d| d.to_string_lossy().to_string()),
            canonical_exe_dir: None,
        })
        .collect()
}

/// Relies on `sysinfo::System::process`: whether the refreshed table holds
/// the given process identifier.
#[verifier::external_body]
fn process_in_snapshot(sys: &sysinfo::System, pid: u32) -> (r: bool) {
    sys.process(sysinfo::Pid::from_u32(pid)).is_some()
}

/// Relies on `sysinfo::get_current_pid`: the identifier of this process, or
/// `None` when the platform cannot tell.
#[verifier::external_body]
fn current_pid() -> (r: Option<u32>) {
    match sysinfo::get_current_pid() {
        Ok(p) => Some(p.as_u32()),
        Err(_) => None,
    }
}

/// Refreshes the process table and returns one record per running process.
/// Canonical directory forms are left for the caller to resolve, so they are
/// `None` in the result.
pub fn snapshot_process_records(sys: &mut sysinfo::System) -> (r: Vec<ProcessRecord>)
    ensures
        forall|i: int| 0 <= i < r@.len() ==> r@[i].canonical_exe_dir is None,
{
    refresh_processes(sys, None);
    list_process_records(sys)
}

/// Whether a record's executable directory lies under the target directory.
/// A record without a known executable directory never matches.
pub open spec fn record_matches(rec: ProcessRecord, target: &DirectoryTarget) -> bool {
    match rec.exe_dir {
        Some(d) => directory_match_spec(
            d@,
            opt_chars(rec.canonical_exe_dir),
            target.raw@,
            opt_chars(target.canonical),
        ),
        None => false,
    }
}

/// The identifiers of the records that match the target, in record order.
pub open spec fn matching_pids(records: Seq<ProcessRecord>, target: &DirectoryTarget) -> Seq<u32>
    decreases records.len(),
{
    if records.len() == 0 {
        Seq::empty()
    } else if record_matches(records.last(), target) {
        matching_pids(records.drop_last(), target) + seq![records.last().pid]
    } else {
        matching_pids(records.drop_last(), target)
    }
}

/// Whether one record's match decision holds, decided executably.
fn record_matches_exec(rec: &ProcessRecord, target: &DirectoryTarget) -> (r: bool)
    ensures
        r == record_matches(*rec, target),
{
    match rec.exe_dir.as_ref() {
        Some(d) => directory_matches(
            d.as_str(),
            rec.canonical_exe_dir.as_ref(),
            target.raw.as_str(),
            target.canonical.as_ref(),
        ),
        None => false,
    }
}

/// The identifiers of all enumerated processes whose executable directory
/// lies under the target directory, in enumeration order.
pub fn get_processes_in_directory(records: &Vec<ProcessRecord>, target: &DirectoryTarget) -> (r:
    Vec<u32>)
    ensures
        r@ == matching_pids(records@, target),
{
    let mut out: Vec<u32> = Vec::new();
    let n = records.len();
    let mut i: usize = 0;
    while i < n
        invariant
            i <= n == records@.len(),
            out@ == matching_pids(records@.take(i as int), target),
        decreases n - i,
    {
        if record_matches_exec(&records[i], target) {
            out.push(records[i].pid);
        }
        proof {
            assert(records@.take(i + 1).drop_last() =~= records@.take(i as int));
            assert(records@.take(i + 1).last() == records@[i as int]);
        }
        i += 1;
    }
    proof {
        assert(records@.take(n as int) =~= records@);
    }
    out
}

/// Refreshes the process table and returns the identifiers of the processes
/// under the target directory, excluding the manager's own process. The
/// result is a fresh observation of machine state: nothing more is promised
/// of it than the exclusion.
pub fn get_all_candidate_pids(
    sys: &mut sysinfo::System,
    target: &DirectoryTarget,
    manager_pid: u32,
) -> (r: Vec<u32>)
    ensures
        forall|i: int| 0 <= i < r@.len() ==> r@[i] != manager_pid,
{
    let records = snapshot_process_records(sys);
    let matched = get_processes_in_directory(&records, target);
    let mut out: Vec<u32> = Vec::new();
    let n = matched.len();
    let mut i: usize = 0;
    while i < n
        invariant
            i <= n == matched@.len(),
            forall|j: int| 0 <= j < out@.len() ==> out@[j] != manager_pid,
        decreases n - i,
    {
        if matched[i] != manager_pid {
            out.push(matched[i]);
        }
        i += 1;
    }
    out
}

/// The manager's own process identifier, from the platform; `0` stands in
/// when the platform cannot tell (no real process carries identifier `0`
/// in the tables this library sees, so nothing is then excluded by mistake).
pub fn manager_pid() -> (r: u32) {
    match current_pid() {
        Some(p) => p,
        None => 0,
    }
}

/// Whether the process with the given identifier is currently running, by a
/// fresh query of the process table. A stale or invalid identifier yields
/// `false`, never a panic.
pub fn is_process_running(sys: &mut sysinfo::System, pid: u32) -> (r: bool) {
    let mut pids: Vec<u32> = Vec::new();
    pids.push(pid);
    refresh_processes(sys, Some(&pids));
    process_in_snapshot(sys, pid)
}

} // verus!
