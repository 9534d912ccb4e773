//! The pointer store: which path holds the current vault.
//!
//! The pointer is persisted as a one-field JSON document at a fixed path
//! under the configuration root.  It is a best-effort hint: saving it
//! swallows failures, and a present pointer need not name an existing or
//! valid file.

use vstd::prelude::*;

use crate::disk::Disk;
use crate::jsonio::decode_pointer_doc;
use crate::jsonio::encode_pointer_doc;
use crate::jsonio::parsed_pointer_of;
use crate::jsonio::pointer_doc_of;
use crate::paths::config_path;
use crate::paths::config_path_of;
use crate::results::SimpleResult;

verus! {

/// The vault path a store's contents record: the `vault_path` field of the
/// pointer document, when the document is present and parses.
pub open spec fn pointer_of(c: Map<Seq<char>, Seq<u8>>, root: Seq<char>) -> Option<Seq<char>> {
    if c.contains_key(config_path_of(root)) {
        parsed_pointer_of(c[config_path_of(root)])
    } else {
        None
    }
}

/// Records `vault_path` as the current vault.  Best-effort: when the write
/// fails the store is simply left unchanged, and no error is surfaced.
pub fn save_config(disk: &mut Disk, root: &String, vault_path: &String)
    requires
        old(disk).wf(),
    ensures
        final(disk).wf(),
        final(disk).faults() == old(disk).faults(),
        !old(disk).writes_failing() ==> final(disk).contents() == old(disk).contents().insert(
            config_path_of(root@),
            pointer_doc_of(vault_path@),
        ),
        !old(disk).writes_failing() ==> pointer_of(final(disk).contents(), root@) == Some(
            vault_path@,
        ),
        old(disk).writes_failing() ==> *final(disk) == *old(disk),
{
    let path = config_path(root);
    let doc = encode_pointer_doc(vault_path);
    let _ = disk.write_file(&path, &doc);
}

/// Reads the recorded vault path, or nothing when the document is absent
/// or does not parse; the two are indistinguishable to the caller.
pub fn load_config(disk: &Disk, root: &String) -> (r: Option<String>)
    requires
        disk.wf(),
    ensures
        (match r {
            Some(p) => pointer_of(disk.contents(), root@) == Some(p@),
            None => pointer_of(disk.contents(), root@) is None,
        }),
{
    let path = config_path(root);
    match disk.read_file(&path) {
        Some(data) => decode_pointer_doc(&data),
        None => None,
    }
}

/// The contents after the pointer document is cleared.
pub open spec fn clear_effect(c: Map<Seq<char>, Seq<u8>>, root: Seq<char>) -> Map<
    Seq<char>,
    Seq<u8>,
> {
    c.remove(config_path_of(root))
}

/// Forgets the recorded vault path.  Always succeeds: deleting an absent
/// document counts as success, so clearing twice in a row succeeds twice.
pub fn clear_vault_config(disk: &mut Disk, root: &String) -> (r: SimpleResult)
    requires
        old(disk).wf(),
    ensures
        final(disk).wf(),
        final(disk).faults() == old(disk).faults(),
        r.success,
        r.message is None,
        final(disk).contents() == clear_effect(old(disk).contents(), root@),
        pointer_of(final(disk).contents(), root@) is None,
{
    let path = config_path(root);
    let _ = disk.remove_file(&path);
    SimpleResult { success: true, message: None }
}

/// Clearing the configuration is idempotent: clearing an already cleared
/// store changes nothing.
pub proof fn lemma_clear_idempotent(c: Map<Seq<char>, Seq<u8>>, root: Seq<char>)
    ensures
        clear_effect(clear_effect(c, root), root) == clear_effect(c, root),
{
    assert(clear_effect(clear_effect(c, root), root) =~= clear_effect(c, root));
}

} // verus!
