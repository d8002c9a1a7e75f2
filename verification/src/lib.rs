//! Build-and-install planning for `bti`: command-line parsing, build-system
//! detection, build command construction and install-target selection.
//!
//! Everything here is pure computation over plain values; the program that
//! reads the file system, spawns build tools and copies binaries lives in `app/`.
pub mod text;
pub mod paths;
pub mod commands;
pub mod error;
pub mod config;
pub mod build_plan;
pub mod install;
