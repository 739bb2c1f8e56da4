//! The plain result records that the manager's maintenance operations —
//! database backup and import, save-data archiving, backup relocation,
//! data-directory migration, portable-mode switching — report to their
//! caller. The operations themselves are file-system and database work
//! outside this library; only their reported shapes live here.

use vstd::prelude::*;

verus! {

/// What a database backup reported: where the copy went, or why not.
#[derive(Debug)]
pub struct BackupResult {
    pub success: bool,
    pub path: Option<String>,
    pub message: String,
}

/// What a database import reported, with the safety backup taken of the
/// replaced database.
#[derive(Debug)]
pub struct ImportResult {
    pub success: bool,
    pub message: String,
    pub backup_path: Option<String>,
}

/// One archived save-data backup on disk.
#[derive(Debug)]
pub struct BackupInfo {
    pub folder_name: String,
    pub backup_time: i64,
    pub file_size: u64,
    pub backup_path: String,
}

/// What relocating the backup folder reported.
#[derive(Debug)]
pub struct MoveResult {
    pub success: bool,
    pub message: String,
}

/// What a data-directory migration moved.
#[derive(Clone, Debug)]
pub struct MigrationResult {
    pub database_migrated: bool,
    pub database_backups_count: usize,
    pub savedata_backups_count: usize,
    pub total_files: usize,
}

/// What switching portable mode reported.
#[derive(Debug)]
pub struct PortableModeResult {
    pub requires_restart: bool,
    pub database_migrated: bool,
    pub database_backups_count: usize,
    pub savedata_backups_count: usize,
}

} // verus!
