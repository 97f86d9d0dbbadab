//! A verified engine for the on-disk lifecycle of mod files: unique-name
//! allocation, moves that avoid existing names (while one of the numbered
//! names is free; past that, the target is used and may be replaced),
//! fetch-to-disk placement, the backup-then-swap update protocol and sidecar
//! directories.
//!
//! The library decides; the caller performs the filesystem and network work
//! and reports back what it observed.
pub mod text;
pub mod error;
pub mod path_text;
pub mod unique;
pub mod lifecycle;
pub mod update_run;
pub mod transfer_run;
pub mod platform;
pub mod fs_model;
pub mod records;
pub mod checks;
pub mod listing;
