//! The outcomes of the caller's folder and file choices.
//!
//! The choosers themselves are the surrounding application's business:
//! they may block indefinitely and end in a path or in cancellation.  What
//! happens with the choice is decided here: judging a folder's existing
//! vault files, and reading and recording a picked vault file.

use vstd::prelude::*;

use crate::disk::Disk;
use crate::jsonio::pointer_doc_of;
use crate::paths::config_path_of;
use crate::paths::count_vault_names;
use crate::paths::vault_file_path;
use crate::paths::vault_file_path_of;
use crate::paths::vault_name_count;
use crate::pointer::pointer_of;
use crate::pointer::save_config;
use crate::results::PickVaultFileResult;
use crate::results::PickVaultFolderResult;

verus! {

/// Classifies a folder choice.  `folder` is `None` when the chooser was
/// cancelled; otherwise the outcome names the default vault file inside
/// the folder and says, from the folder's file `names`, whether vault
/// files are already there, and whether more than one.
pub fn pick_vault_folder(folder: &Option<String>, names: &Vec<String>) -> (r:
    PickVaultFolderResult)
    ensures
        ({
            match *folder {
                None => {
                    &&& !r.success
                    &&& r.file_path is None
                    &&& r.found is None
                    &&& r.multiple is None
                    &&& (r.message matches Some(m) && m@ == "Folder selection cancelled"@)
                },
                Some(f) => {
                    let k = vault_name_count(names.deep_view());
                    &&& r.success
                    &&& (r.file_path matches Some(p) && p@ == vault_file_path_of(f@))
                    &&& r.found == Some(k > 0)
                    &&& r.multiple == Some(k > 1)
                    &&& r.message is None
                },
            }
        }),
{
    match folder {
        None => PickVaultFolderResult {
            success: false,
            file_path: None,
            found: None,
            multiple: None,
            message: Some("Folder selection cancelled".to_owned()),
        },
        Some(f) => {
            let k = count_vault_names(names);
            PickVaultFolderResult {
                success: true,
                file_path: Some(vault_file_path(f)),
                found: Some(k > 0),
                multiple: Some(k > 1),
                message: None,
            }
        },
    }
}

/// Reads a vault file the caller picked and records it as the current
/// vault.  `choice` is `None` when the chooser was cancelled.  The
/// pointer update is best-effort, as everywhere.
pub fn pick_existing_vault_file(disk: &mut Disk, root: &String, choice: &Option<String>) -> (r:
    PickVaultFileResult)
    requires
        old(disk).wf(),
    ensures
        final(disk).wf(),
        final(disk).faults() == old(disk).faults(),
        ({
            let c = old(disk).contents();
            match *choice {
                None => {
                    &&& !r.success
                    &&& r.buffer is None
                    &&& r.path is None
                    &&& *final(disk) == *old(disk)
                    &&& (r.message matches Some(m) && m@ == "File selection cancelled"@)
                },
                Some(p) => {
                    if c.contains_key(p@) {
                        &&& r.success
                        &&& (r.buffer matches Some(b) && b@ == c[p@])
                        &&& (r.path matches Some(q) && q@ == p@)
                        &&& r.message is None
                        &&& (!old(disk).writes_failing() ==> final(disk).contents() == c.insert(
                            config_path_of(root@),
                            pointer_doc_of(p@),
                        ) && pointer_of(final(disk).contents(), root@) == Some(p@))
                        &&& (old(disk).writes_failing() ==> final(disk).contents() == c)
                    } else {
                        &&& !r.success
                        &&& r.buffer is None
                        &&& r.path is None
                        &&& *final(disk) == *old(disk)
                        &&& (r.message matches Some(m) && m@ == "Failed to read vault file"@)
                    }
                },
            }
        }),
{
    match choice {
        None => PickVaultFileResult {
            success: false,
            buffer: None,
            path: None,
            message: Some("File selection cancelled".to_owned()),
        },
        Some(p) => {
            match disk.read_file(p) {
                Some(data) => {
                    save_config(disk, root, p);
                    PickVaultFileResult {
                        success: true,
                        buffer: Some(data),
                        path: Some(p.clone()),
                        message: None,
                    }
                },
                None => PickVaultFileResult {
                    success: false,
                    buffer: None,
                    path: None,
                    message: Some("Failed to read vault file".to_owned()),
                },
            }
        },
    }
}

} // verus!
