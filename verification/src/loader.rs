//! Loading the current vault at startup, with degraded reporting.
//!
//! The loader resolves the pointer, reads the file it names, and trusts
//! the bytes only after header validation.  When the pointer is missing
//! the outcome is "not configured"; when the file is missing, unreadable
//! or invalid, the outcome is degraded and reports only whether a backup
//! exists — it never restores from the backup on its own.

use vstd::prelude::*;

use crate::backup::backup_exists;
use crate::disk::Disk;
use crate::header::valid_vault_header;
use crate::header::validate_vault_header;
use crate::paths::backup_path_of;
use crate::pointer::load_config;
use crate::pointer::pointer_of;
use crate::results::AutoLoadResult;

verus! {

/// Resolves the pointer and loads the vault it names.  Exactly one of
/// three outcomes: loaded (pointer resolved, file read, header valid), not
/// configured (no pointer), or degraded (pointer resolved but the file is
/// missing or fails validation, with a flag saying whether a backup
/// exists).
pub fn auto_load_vault(disk: &Disk, root: &String) -> (r: AutoLoadResult)
    requires
        disk.wf(),
    ensures
        ({
            let c = disk.contents();
            match pointer_of(c, root@) {
                None => {
                    &&& !r.success
                    &&& r.buffer is None
                    &&& r.path is None
                    &&& r.backup == Some(false)
                },
                Some(p) => {
                    if c.contains_key(p) && valid_vault_header(c[p]) {
                        &&& r.success
                        &&& (r.buffer matches Some(b) && b@ == c[p])
                        &&& (r.path matches Some(q) && q@ == p)
                        &&& r.backup is None
                    } else {
                        &&& !r.success
                        &&& r.buffer is None
                        &&& r.path is None
                        &&& r.backup == Some(c.contains_key(backup_path_of(root@)))
                    }
                },
            }
        }),
{
    let cfg = load_config(disk, root);
    match cfg {
        None => AutoLoadResult { success: false, buffer: None, path: None, backup: Some(false) },
        Some(p) => {
            match disk.read_file(&p) {
                Some(data) => {
                    if validate_vault_header(&data) {
                        AutoLoadResult {
                            success: true,
                            buffer: Some(data),
                            path: Some(p),
                            backup: None,
                        }
                    } else {
                        let has_backup = backup_exists(disk, root);
                        AutoLoadResult {
                            success: false,
                            buffer: None,
                            path: None,
                            backup: Some(has_backup),
                        }
                    }
                },
                None => {
                    let has_backup = backup_exists(disk, root);
                    AutoLoadResult {
                        success: false,
                        buffer: None,
                        path: None,
                        backup: Some(has_backup),
                    }
                },
            }
        },
    }
}

} // verus!
