//! Core logic of a tool that updates a globally installed binary through the
//! package manager that installed it (Homebrew, Cargo, npm, pnpm, Yarn or
//! Bun): path-based classification of the install location, the per-manager
//! update command table, version-string extraction from the managers' listing
//! output, and resolution of a binary name to the owning package name.
//!
//! Everything here is pure: callers run the subprocesses and read the files,
//! then hand the captured text to these functions.

pub mod classify;
pub mod command;
pub mod lines;
pub mod manifest;
pub mod resolve;
pub mod text;
pub mod version;
