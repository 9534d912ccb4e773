//! Creating the vault file, and the atomic-replace save protocol.
//!
//! A save never mutates the primary file in place.  It first copies the
//! current primary into the backup slot (best-effort: that copy's failure
//! does not abort the save), then writes the whole new buffer to a
//! temporary sibling in the primary's own directory, and only then renames
//! the temporary over the primary — the single atomic step.  A failure
//! before or at the rename leaves the primary byte-identical to what it
//! was; after a success the pointer records the primary as the current
//! vault, again best-effort.

use vstd::prelude::*;

use crate::backup::backup_effect;
use crate::backup::backup_if_exists;
use crate::disk::file_at;
use crate::disk::Disk;
use crate::jsonio::pointer_doc_of;
use crate::paths::backup_path_of;
use crate::paths::config_path_of;
use crate::paths::lemma_store_paths_distinct;
use crate::paths::lemma_temp_path_distinct;
use crate::paths::temp_path;
use crate::paths::temp_path_of;
use crate::pointer::pointer_of;
use crate::pointer::save_config;
use crate::results::SimpleResult;

verus! {

/// The pre-save backup step never changes what the primary path holds:
/// even when the slot aliases the primary, it receives the primary's own
/// bytes.
pub proof fn lemma_backup_preserves_primary(
    c: Map<Seq<char>, Seq<u8>>,
    root: Seq<char>,
    primary: Seq<char>,
    copies_failing: bool,
)
    ensures
        file_at(backup_effect(c, root, primary, copies_failing), primary) == file_at(c, primary),
{
    if c.contains_key(primary) && !copies_failing && backup_path_of(root) == primary {
        assert(backup_effect(c, root, primary, copies_failing)[primary] == c[primary]);
    }
}

/// The contents after a successful first-time create: the new file, and
/// the pointer naming it.
pub open spec fn create_effect(
    c: Map<Seq<char>, Seq<u8>>,
    root: Seq<char>,
    path: Seq<char>,
    buffer: Seq<u8>,
) -> Map<Seq<char>, Seq<u8>> {
    c.insert(path, buffer).insert(config_path_of(root), pointer_doc_of(path))
}

/// Writes a brand-new vault file directly — no backup step, no temporary —
/// and records it as the current vault.  For first-time creation only,
/// where there is no prior content to protect.
pub fn create_vault_file(
    disk: &mut Disk,
    root: &String,
    file_path: &String,
    buffer: &Vec<u8>,
) -> (r: SimpleResult)
    requires
        old(disk).wf(),
    ensures
        final(disk).wf(),
        final(disk).faults() == old(disk).faults(),
        r.success == !old(disk).writes_failing(),
        r.success ==> final(disk).contents() == create_effect(
            old(disk).contents(),
            root@,
            file_path@,
            buffer@,
        ) && r.message is None && pointer_of(final(disk).contents(), root@) == Some(file_path@)
            && (file_path@ != config_path_of(root@) ==> file_at(final(disk).contents(), file_path@)
            == Some(buffer@)),
        !r.success ==> *final(disk) == *old(disk) && (r.message matches Some(m) && m@
            == "Failed to create vault file"@),
{
    if disk.write_file(file_path, buffer) {
        save_config(disk, root, file_path);
        SimpleResult { success: true, message: None }
    } else {
        SimpleResult { success: false, message: Some("Failed to create vault file".to_owned()) }
    }
}

/// The contents after a fully successful atomic save: the prior primary in
/// the backup slot (when it existed and the copy worked), any stale
/// temporary gone, the new bytes at the primary path, and the pointer
/// naming the primary.
pub open spec fn save_effect(
    c: Map<Seq<char>, Seq<u8>>,
    root: Seq<char>,
    primary: Seq<char>,
    buffer: Seq<u8>,
    copies_failing: bool,
) -> Map<Seq<char>, Seq<u8>> {
    backup_effect(c, root, primary, copies_failing).remove(temp_path_of(primary)).insert(
        primary,
        buffer,
    ).insert(config_path_of(root), pointer_doc_of(primary))
}

/// Saves `buffer` at `vault_path` by the atomic-replace protocol: back up
/// the current primary, write a temporary sibling, rename it over the
/// primary, record the pointer.  Whatever fails, the primary is never left
/// partially written: on failure it holds exactly the bytes it held
/// before.  The two fallible steps report distinct errors; the backup and
/// pointer steps are best-effort and never fail the save.
pub fn save_vault_file_atomic(
    disk: &mut Disk,
    root: &String,
    vault_path: &String,
    buffer: &Vec<u8>,
) -> (r: SimpleResult)
    requires
        old(disk).wf(),
    ensures
        final(disk).wf(),
        final(disk).faults() == old(disk).faults(),
        r.success == (!old(disk).writes_failing() && !old(disk).renames_failing()),
        r.success ==> final(disk).contents() == save_effect(
            old(disk).contents(),
            root@,
            vault_path@,
            buffer@,
            old(disk).copies_failing(),
        ) && r.message is None && pointer_of(final(disk).contents(), root@) == Some(vault_path@)
            && (vault_path@ != config_path_of(root@) ==> file_at(
            final(disk).contents(),
            vault_path@,
        ) == Some(buffer@)),
        !r.success ==> file_at(final(disk).contents(), vault_path@) == file_at(
            old(disk).contents(),
            vault_path@,
        ),
        !r.success && temp_path_of(vault_path@) != config_path_of(root@) ==> pointer_of(
            final(disk).contents(),
            root@,
        ) == pointer_of(old(disk).contents(), root@),
        old(disk).writes_failing() ==> final(disk).contents() == backup_effect(
            old(disk).contents(),
            root@,
            vault_path@,
            old(disk).copies_failing(),
        ) && (r.message matches Some(m) && m@ == "Failed to write temp file"@),
        !old(disk).writes_failing() && old(disk).renames_failing() ==> final(disk).contents()
            == backup_effect(
            old(disk).contents(),
            root@,
            vault_path@,
            old(disk).copies_failing(),
        ).insert(temp_path_of(vault_path@), buffer@) && (r.message matches Some(m) && m@
            == "Failed to replace vault file"@),
        r.success && old(disk).contents().contains_key(vault_path@) && !old(
            disk,
        ).copies_failing() && backup_path_of(root@) != vault_path@ && backup_path_of(root@)
            != temp_path_of(vault_path@) ==> file_at(final(disk).contents(), backup_path_of(root@))
            == Some(old(disk).contents()[vault_path@]),
{
    let ghost c0 = old(disk).contents();
    let _ = backup_if_exists(disk, root, vault_path);
    let ghost c1 = disk.contents();
    let tmp = temp_path(vault_path);
    if !disk.write_file(&tmp, buffer) {
        proof {
            lemma_backup_preserves_primary(c0, root@, vault_path@, old(disk).copies_failing());
            lemma_store_paths_distinct(root@);
        }
        return SimpleResult {
            success: false,
            message: Some("Failed to write temp file".to_owned()),
        };
    }
    if !disk.rename_file(&tmp, vault_path) {
        proof {
            lemma_temp_path_distinct(vault_path@);
            lemma_backup_preserves_primary(c0, root@, vault_path@, old(disk).copies_failing());
            lemma_store_paths_distinct(root@);
        }
        return SimpleResult {
            success: false,
            message: Some("Failed to replace vault file".to_owned()),
        };
    }
    let ghost c3 = disk.contents();
    save_config(disk, root, vault_path);
    proof {
        lemma_temp_path_distinct(vault_path@);
        lemma_store_paths_distinct(root@);
        assert(c3 =~= backup_effect(c0, root@, vault_path@, old(disk).copies_failing()).remove(
            temp_path_of(vault_path@),
        ).insert(vault_path@, buffer@));
        assert(disk.contents() =~= save_effect(
            c0,
            root@,
            vault_path@,
            buffer@,
            old(disk).copies_failing(),
        ));
    }
    SimpleResult { success: true, message: None }
}

/// Round trip: after a successful save, the primary path holds exactly the
/// saved buffer.  (The one path this cannot hold for is the pointer
/// document's own, which the final pointer update overwrites.)
pub proof fn lemma_save_round_trip(
    c: Map<Seq<char>, Seq<u8>>,
    root: Seq<char>,
    primary: Seq<char>,
    buffer: Seq<u8>,
    copies_failing: bool,
)
    requires
        primary != config_path_of(root),
    ensures
        file_at(save_effect(c, root, primary, buffer, copies_failing), primary) == Some(buffer),
{
}

/// Backup rotation: a successful save of new bytes leaves the *previous*
/// primary content in the backup slot, not the new bytes — provided the
/// primary and its temporary sibling do not alias the slot itself.
pub proof fn lemma_backup_rotation(
    c: Map<Seq<char>, Seq<u8>>,
    root: Seq<char>,
    primary: Seq<char>,
    buffer: Seq<u8>,
)
    requires
        c.contains_key(primary),
        backup_path_of(root) != primary,
        backup_path_of(root) != temp_path_of(primary),
    ensures
        file_at(save_effect(c, root, primary, buffer, false), backup_path_of(root)) == Some(
            c[primary],
        ),
{
    lemma_store_paths_distinct(root);
}

} // verus!
