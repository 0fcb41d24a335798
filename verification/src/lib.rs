//! Build-pipeline core for packaging a C Ruby interpreter as a single
//! self-contained WebAssembly executable.
//!
//! The library decides *what* gets built, in what order, whether a cached
//! artifact may be reused, and how host-filesystem trees are translated into
//! an embedded image layout.  Everything slow and side-effecting (network
//! fetches, subprocesses, the filesystem) is carried out by the surrounding
//! binary; this crate computes the plans, the cache keys, the command lines
//! and the path mappings, and its contracts pin those computations down.

pub mod cache;
pub mod cmd;
pub mod error;
pub mod github;
pub mod link;
pub mod pipeline;
pub mod paths;
pub mod source;
pub mod strutil;
pub mod toolchain;
pub mod vfs;
pub mod workspace;
