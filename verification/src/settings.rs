//! The settings store: an opaque JSON document beside the vault pointer.
//!
//! The document's shape is not this layer's business: it is stored and
//! handed back as bytes.  A missing file reads as the empty object; a
//! present file that is not JSON reads as an explicit failure, so the two
//! are distinguishable.

use vstd::prelude::*;

use crate::disk::Disk;
use crate::jsonio::check_json_parses;
use crate::jsonio::json_parses;
use crate::paths::settings_path;
use crate::paths::settings_path_of;
use crate::results::LoadSettingsResult;
use crate::results::SimpleResult;

verus! {

/// The bytes of the empty JSON object, read when no settings document
/// exists.
pub open spec fn empty_settings() -> Seq<u8> {
    seq![123u8, 125u8]
}

fn empty_settings_doc() -> (v: Vec<u8>)
    ensures
        v@ == empty_settings(),
{
    let mut v: Vec<u8> = Vec::new();
    v.push(123u8);
    v.push(125u8);
    proof {
        assert(v@ =~= empty_settings());
    }
    v
}

/// Writes the settings document, whole.
pub fn save_app_settings(disk: &mut Disk, root: &String, settings: &Vec<u8>) -> (r: SimpleResult)
    requires
        old(disk).wf(),
    ensures
        final(disk).wf(),
        final(disk).faults() == old(disk).faults(),
        r.success == !old(disk).writes_failing(),
        r.success ==> final(disk).contents() == old(disk).contents().insert(
            settings_path_of(root@),
            settings@,
        ) && r.message is None,
        !r.success ==> *final(disk) == *old(disk) && (r.message matches Some(m) && m@
            == "Failed to save settings"@),
{
    let path = settings_path(root);
    if disk.write_file(&path, settings) {
        SimpleResult { success: true, message: None }
    } else {
        SimpleResult { success: false, message: Some("Failed to save settings".to_owned()) }
    }
}

/// Reads the settings document: the empty object when none exists, its
/// bytes when they parse as JSON, and a failure when they do not.
pub fn load_app_settings(disk: &Disk, root: &String) -> (r: LoadSettingsResult)
    requires
        disk.wf(),
    ensures
        ({
            let c = disk.contents();
            let sp = settings_path_of(root@);
            if !c.contains_key(sp) {
                &&& r.success
                &&& (r.data matches Some(d) && d@ == empty_settings())
                &&& r.message is None
            } else if json_parses(c[sp]) {
                &&& r.success
                &&& (r.data matches Some(d) && d@ == c[sp])
                &&& r.message is None
            } else {
                &&& !r.success
                &&& r.data is None
                &&& (r.message matches Some(m) && m@ == "Invalid settings file"@)
            }
        }),
{
    let path = settings_path(root);
    match disk.read_file(&path) {
        None => LoadSettingsResult {
            success: true,
            data: Some(empty_settings_doc()),
            message: None,
        },
        Some(data) => {
            if check_json_parses(&data) {
                LoadSettingsResult { success: true, data: Some(data), message: None }
            } else {
                LoadSettingsResult {
                    success: false,
                    data: None,
                    message: Some("Invalid settings file".to_owned()),
                }
            }
        },
    }
}

} // verus!
