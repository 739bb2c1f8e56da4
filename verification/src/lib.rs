//! Game process monitoring and playtime tracking for a game library manager.
//!
//! The crate models one monitoring session per launched game: it seeds a set
//! of candidate process identifiers from a directory scan, tracks the best
//! candidate once per second, debounces transient liveness failures, detects
//! launcher-to-game handoffs through foreground polling, and finalizes the
//! session with a half-up rounding of the accumulated active seconds.
//! Operating-system queries (liveness, enumeration, foreground windows)
//! enter the library as plain observations; the decisions taken on them are
//! verified.

pub mod backup_types;

pub mod candidates;

pub mod loglevel;

pub mod detector;

pub mod launch;

pub mod monitor;

pub mod paths;

pub mod procs;

pub mod registry;

pub mod scope;

pub mod strnum;
