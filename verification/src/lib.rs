//! Discovery and restoration of an editor's local-history backups.
//!
//! The library models backup metadata records, decides which records belong
//! to a working directory (scheme and path-containment checks), and builds
//! listings and restore plans. All path reasoning is done on `/`-separated
//! path strings, component-wise.

pub mod history;
pub mod laws;
pub mod listing;
pub mod parse;
pub mod paths;
pub mod timefmt;
