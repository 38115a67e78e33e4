//! Discovery and extraction of assets from an application cache of unlabeled
//! binary blobs: a signature registry, a byte matcher, an offset-correcting
//! extractor, and the shared state and step functions that drive scans and
//! batch operations.

pub mod matcher;
pub mod registry;
pub mod extractor;
pub mod asset;
pub mod text;
pub mod progress;
pub mod state;
pub mod messages;
pub mod scanner;
pub mod batch;
pub mod paths;
