//! Pure path computations: the manager's data-file locations, home-directory
//! expansion, splitting an executable path into directory and file name, and
//! the directory-match rule used by the process enumerator.
//!
//! Paths are plain character strings here. Joins use `/`; the match rule
//! compares characters, with a canonical form (resolved by the caller, which
//! owns the file-system access) taking precedence when it is available.

use vstd::prelude::*;
use vstd::string::StrSliceExecFns;
use vstd::string::StringExecFns;

use crate::strnum::is_prefix;
use crate::strnum::str_eq;
use crate::strnum::str_starts_with;

verus! {

/// Path of the manager's database file under the base data directory.
pub fn get_db_path(base_data_dir: &str) -> (r: String)
    ensures
        r@ == base_data_dir@ + "/data/reina_manager.db"@,
{
    let mut s = base_data_dir.to_owned();
    s.append("/data/reina_manager.db");
    s
}

/// Default directory for database backups under the base data directory.
pub fn get_default_db_backup_path(base_data_dir: &str) -> (r: String)
    ensures
        r@ == base_data_dir@ + "/data/backups"@,
{
    let mut s = base_data_dir.to_owned();
    s.append("/data/backups");
    s
}

/// Default directory for save-data backups under the base data directory.
pub fn get_default_savedata_backup_path(base_data_dir: &str) -> (r: String)
    ensures
        r@ == base_data_dir@ + "/backups"@,
{
    let mut s = base_data_dir.to_owned();
    s.append("/backups");
    s
}

/// Replaces a leading `~` with the home directory, when one is known.
pub fn expand_path(path: &str, home: Option<&str>) -> (r: String)
    ensures
        match home {
            Some(h) if is_prefix("~"@, path@) => r@ == h@ + path@.skip(1),
            _ => r@ == path@,
        },
{
    proof {
        reveal_strlit("~");
    }
    if let Some(h) = home {
        if str_starts_with(path, "~") {
            let rest = path.substring_char(1, path.unicode_len());
            let mut s = h.to_owned();
            s.append(rest);
            proof {
                assert(path@.subrange(1, path@.len() as int) =~= path@.skip(1));
            }
            return s;
        }
    }
    path.to_owned()
}

/// A path separator: forward or backward slash.
pub open spec fn is_separator(c: char) -> bool {
    c == '/' || c == '\\'
}

/// Index of the last separator in `s`, or `-1` when there is none.
pub open spec fn last_separator_index(s: Seq<char>) -> int
    decreases s.len(),
{
    if s.len() == 0 {
        -1
    } else if is_separator(s.last()) {
        s.len() - 1
    } else {
        last_separator_index(s.drop_last())
    }
}

/// How an executable path splits into its directory and its file name:
/// `None` when the path is empty or ends in a separator (no file name),
/// otherwise the text before the last separator (empty when there is none)
/// and the text after it.
pub open spec fn split_path_spec(s: Seq<char>) -> Option<(Seq<char>, Seq<char>)> {
    if s.len() == 0 || is_separator(s.last()) {
        None
    } else {
        let i = last_separator_index(s);
        Some(
            (
                s.subrange(0, if i >= 0 { i } else { 0 }),
                s.subrange(i + 1, s.len() as int),
            ),
        )
    }
}

/// `last_separator_index` is in range and marks the last separator:
/// everything after it is separator-free.
proof fn lemma_last_separator_index(s: Seq<char>)
    ensures
        -1 <= last_separator_index(s) < s.len(),
        last_separator_index(s) >= 0 ==> is_separator(s[last_separator_index(s)]),
        forall|j: int| last_separator_index(s) < j < s.len() ==> !is_separator(s[j]),
    decreases s.len(),
{
    if s.len() > 0 && !is_separator(s.last()) {
        lemma_last_separator_index(s.drop_last());
        assert(forall|j: int|
            0 <= j < s.len() - 1 ==> s.drop_last()[j] == s[j]);
    }
}

/// Splits an executable path into its directory and its file name, as
/// `split_path_spec` says.
pub fn split_executable_path(path: &str) -> (r: Option<(String, String)>)
    ensures
        match r {
            Some(p) => split_path_spec(path@) matches Some(q) && p.0@ == q.0 && p.1@ == q.1,
            None => split_path_spec(path@) is None,
        },
{
    let n = path.unicode_len();
    if n == 0 {
        return None;
    }
    let lastc = path.get_char(n - 1);
    if lastc == '/' || lastc == '\\' {
        return None;
    }
    let mut i: usize = n;
    while i > 0
        invariant
            i <= n,
            1 <= n == path@.len(),
            !is_separator(path@[n - 1]),
            forall|j: int| i <= j < n ==> !is_separator(path@[j]),
        decreases i,
    {
        let c = path.get_char(i - 1);
        if c == '/' || c == '\\' {
            let dir = path.substring_char(0, i - 1).to_owned();
            let name = path.substring_char(i, n).to_owned();
            proof {
                lemma_last_separator_index(path@);
                assert(last_separator_index(path@) == i - 1) by {
                    if last_separator_index(path@) > i - 1 {
                        assert(!is_separator(path@[last_separator_index(path@)]));
                    }
                    if last_separator_index(path@) < i - 1 {
                        assert(!is_separator(path@[i - 1]));
                    }
                }
            }
            return Some((dir, name));
        }
        i -= 1;
    }
    let dir = "".to_owned();
    let name = path.to_owned();
    proof {
        reveal_strlit("");
        lemma_last_separator_index(path@);
        assert(last_separator_index(path@) == -1) by {
            if last_separator_index(path@) >= 0 {
                assert(!is_separator(path@[last_separator_index(path@)]));
            }
        }
        assert(dir@ =~= path@.subrange(0, 0));
        assert(name@ =~= path@.subrange(0, path@.len() as int));
    }
    Some((dir, name))
}

/// The directory-match rule of the process enumerator, over the raw process
/// directory, its canonical form when the caller could resolve one, the raw
/// target directory, and the target's canonical form when available.
///
/// With a canonical target, a raw prefix match is tried first and the
/// canonical process directory decides otherwise; without one, only the raw
/// strings are compared.
pub open spec fn directory_match_spec(
    process_dir: Seq<char>,
    canonical_process_dir: Option<Seq<char>>,
    target_dir: Seq<char>,
    canonical_target: Option<Seq<char>>,
) -> bool {
    match canonical_target {
        Some(ct) => is_prefix(ct, process_dir) || (canonical_process_dir matches Some(pc) && (pc
            == ct || is_prefix(ct, pc))),
        None => process_dir == target_dir || is_prefix(target_dir, process_dir),
    }
}

/// Decides whether a process's executable directory lies under the target
/// directory, per `directory_match_spec`.
pub fn directory_matches(
    process_dir: &str,
    canonical_process_dir: Option<&String>,
    target_dir: &str,
    canonical_target: Option<&String>,
) -> (r: bool)
    ensures
        r == directory_match_spec(
            process_dir@,
            match canonical_process_dir {
                Some(s) => Some(s@),
                None => None,
            },
            target_dir@,
            match canonical_target {
                Some(s) => Some(s@),
                None => None,
            },
        ),
{
    match canonical_target {
        Some(ct) => {
            if str_starts_with(process_dir, ct.as_str()) {
                true
            } else {
                match canonical_process_dir {
                    Some(pc) => {
                        str_eq(pc.as_str(), ct.as_str()) || str_starts_with(
                            pc.as_str(),
                            ct.as_str(),
                        )
                    },
                    None => false,
                }
            }
        },
        None => {
            str_eq(process_dir, target_dir) || str_starts_with(process_dir, target_dir)
        },
    }
}

} // verus!
