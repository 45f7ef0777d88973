//! Sets the `version` field of a package manifest to a given semantic version,
//! leaving the rest of the manifest as it was written.
//!
//! The library works on text: the caller reads the manifest, hands its contents
//! over, and writes back what [`update_version`] returns.

pub mod document;
pub mod error;
pub mod manifest;
pub mod update;
pub mod version;

pub use error::{Step, UpdateError};
pub use manifest::Manifest;
pub use update::{confirm_write, update_version, Args};
pub use version::Version;
