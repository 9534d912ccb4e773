//! The outcome shapes the layer hands back to its callers.
//!
//! Every operation resolves to a flat struct with a `success` flag and
//! optional fields; failures carry a human-readable message and never
//! escape as faults.

use vstd::prelude::*;

verus! {

/// Success or failure, with a message on failure.
pub struct SimpleResult {
    pub success: bool,
    pub message: Option<String>,
}

/// The outcome of choosing a folder to hold a vault.
pub struct PickVaultFolderResult {
    pub success: bool,
    pub file_path: Option<String>,
    pub found: Option<bool>,
    pub multiple: Option<bool>,
    pub message: Option<String>,
}

/// The outcome of choosing and reading an existing vault file.
pub struct PickVaultFileResult {
    pub success: bool,
    pub buffer: Option<Vec<u8>>,
    pub path: Option<String>,
    pub message: Option<String>,
}

/// The outcome of loading the current vault at startup.
pub struct AutoLoadResult {
    pub success: bool,
    pub buffer: Option<Vec<u8>>,
    pub path: Option<String>,
    pub backup: Option<bool>,
}

/// The outcome of exporting the backup slot.
pub struct ExportBackupResult {
    pub success: bool,
    pub backup_path: Option<String>,
    pub message: Option<String>,
}

/// The outcome of loading the settings document.
pub struct LoadSettingsResult {
    pub success: bool,
    pub data: Option<Vec<u8>>,
    pub message: Option<String>,
}

} // verus!
