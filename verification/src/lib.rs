//! Packaging of a built artifact into a plugin bundle, and merging of
//! per-platform plugin manifests into one multi-platform manifest.
//!
//! The library computes on plain values: the caller reads files and
//! directories, hands their contents over, and writes out what comes back.

pub mod archive;
pub mod digest;
pub mod error;
pub mod merge;
pub mod packager;
pub mod paths;
pub mod plugin_manifest;
pub mod settings;
pub mod target;
pub mod task;
pub mod text;
pub mod urls;
