//! A content-addressed build cache, as a library that performs no I/O itself.
//!
//! The caller observes the file system and hands what it saw to the store;
//! the store decides whether a cached entry is still valid and what has to be
//! done next.

pub mod dependency;
pub mod entry;
pub mod foreign;
pub mod location;
pub mod store;
pub mod utils;

pub use dependency::{Dependency, Opening, Probe};
pub use entry::{Entry, Observed};
pub use location::Location;
pub use store::{
    manifest_file, output_file, store, Builder, Completed, Creation, General, Manifest, Reset,
    Single, Store,
};
