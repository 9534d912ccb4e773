//! Persistence layer for a single opaque vault blob on disk.
//!
//! The library keeps a byte buffer safe across overwrites: every save first
//! copies the previous content into a single backup slot, then writes a
//! temporary file and renames it over the primary, so a reader never sees a
//! torn file.  A small pointer document records which path holds the current
//! vault, and loading validates the buffer's header before trusting it.
//!
//! All operations are written against an explicit file store value
//! ([`disk::Disk`]), so their effects on the stored files are stated exactly
//! in their contracts and can be exercised in tests; a binary binds the same
//! protocol to the real filesystem.

pub mod backup;
pub mod disk;
pub mod header;
pub mod jsonio;
pub mod loader;
pub mod paths;
pub mod picks;
pub mod pointer;
pub mod results;
pub mod settings;
pub mod writer;
