//! The backup slot: one rotating copy of the vault's previous content.
//!
//! The slot holds the last-known-good bytes prior to the most recent
//! successful overwrite, at a single fixed path under the configuration
//! root.  Its existence is only a hint: absence means no backup was taken
//! or it was already consumed.  An export moves the slot out: on success
//! the slot is deleted, so a backup can be exported at most once.

use vstd::prelude::*;

use crate::disk::file_at;
use crate::disk::Disk;
use crate::paths::backup_path;
use crate::paths::backup_path_of;
use crate::paths::export_path;
use crate::paths::export_path_of;
use crate::results::ExportBackupResult;

verus! {

/// The contents after a pre-save backup of `primary`: its current bytes
/// copied into the slot, or nothing when `primary` is absent or the copy
/// failed.
pub open spec fn backup_effect(
    c: Map<Seq<char>, Seq<u8>>,
    root: Seq<char>,
    primary: Seq<char>,
    copies_failing: bool,
) -> Map<Seq<char>, Seq<u8>> {
    if c.contains_key(primary) && !copies_failing {
        c.insert(backup_path_of(root), c[primary])
    } else {
        c
    }
}

/// Copies the current bytes of `primary` into the backup slot, overwriting
/// any prior backup.  A missing primary is a no-op, not an error; a failed
/// copy leaves any prior backup in place.
pub fn backup_if_exists(disk: &mut Disk, root: &String, primary: &String) -> (ok: bool)
    requires
        old(disk).wf(),
    ensures
        final(disk).wf(),
        final(disk).faults() == old(disk).faults(),
        ok == (old(disk).contents().contains_key(primary@) && !old(disk).copies_failing()),
        final(disk).contents() == backup_effect(
            old(disk).contents(),
            root@,
            primary@,
            old(disk).copies_failing(),
        ),
{
    let bak = backup_path(root);
    if disk.exists_file(primary) {
        disk.copy_file(primary, &bak)
    } else {
        false
    }
}

/// Whether the backup slot holds a file.
pub fn backup_exists(disk: &Disk, root: &String) -> (r: bool)
    requires
        disk.wf(),
    ensures
        r == disk.contents().contains_key(backup_path_of(root@)),
{
    let bak = backup_path(root);
    disk.exists_file(&bak)
}

/// The contents after a successful export of the backup slot to `dest`:
/// the slot's bytes copied to `dest`, the slot itself gone.
pub open spec fn export_effect(c: Map<Seq<char>, Seq<u8>>, root: Seq<char>, dest: Seq<char>) -> Map<
    Seq<char>,
    Seq<u8>,
> {
    c.insert(dest, c[backup_path_of(root)]).remove(backup_path_of(root))
}

/// Exports the backup slot into `folder`, as a file stamped with `stamp`,
/// then deletes the slot.  `folder` is `None` when the caller's folder
/// choice was cancelled.  On any failure the slot is left intact; after a
/// success the slot is empty and the exported file holds its bytes.
pub fn export_backup_vault(
    disk: &mut Disk,
    root: &String,
    folder: &Option<String>,
    stamp: u64,
) -> (r: ExportBackupResult)
    requires
        old(disk).wf(),
    ensures
        final(disk).wf(),
        final(disk).faults() == old(disk).faults(),
        ({
            let c = old(disk).contents();
            let bp = backup_path_of(root@);
            if !c.contains_key(bp) {
                &&& !r.success
                &&& *final(disk) == *old(disk)
                &&& r.backup_path is None
                &&& (r.message matches Some(m) && m@ == "No backup file found"@)
            } else {
                match *folder {
                    None => {
                        &&& !r.success
                        &&& *final(disk) == *old(disk)
                        &&& r.backup_path is None
                        &&& (r.message matches Some(m) && m@ == "Export cancelled"@)
                    },
                    Some(f) => {
                        if old(disk).copies_failing() {
                            &&& !r.success
                            &&& *final(disk) == *old(disk)
                            &&& r.backup_path is None
                            &&& (r.message matches Some(m) && m@ == "Failed to export backup"@)
                        } else {
                            let dest = export_path_of(f@, stamp);
                            &&& r.success
                            &&& r.message is None
                            &&& (r.backup_path matches Some(e) && e@ == dest)
                            &&& final(disk).contents() == export_effect(c, root@, dest)
                            &&& !final(disk).contents().contains_key(bp)
                            &&& dest != bp ==> file_at(final(disk).contents(), dest) == Some(
                                c[bp],
                            )
                        }
                    },
                }
            }
        }),
{
    let bak = backup_path(root);
    if !disk.exists_file(&bak) {
        return ExportBackupResult {
            success: false,
            backup_path: None,
            message: Some("No backup file found".to_owned()),
        };
    }
    match folder {
        None => ExportBackupResult {
            success: false,
            backup_path: None,
            message: Some("Export cancelled".to_owned()),
        },
        Some(f) => {
            let dest = export_path(f, stamp);
            if disk.copy_file(&bak, &dest) {
                let _ = disk.remove_file(&bak);
                ExportBackupResult {
                    success: true,
                    backup_path: Some(dest),
                    message: None,
                }
            } else {
                ExportBackupResult {
                    success: false,
                    backup_path: None,
                    message: Some("Failed to export backup".to_owned()),
                }
            }
        },
    }
}

} // verus!
