//! A native-code build planner: given a target description, a static source
//! manifest and the observed modification times of files on disk, it selects
//! compiler flags, decides which compilation units are stale, plans the
//! archiving of object files into static libraries, and audits that every
//! compilable file on disk is declared in the manifest.
//!
//! The planner itself performs no I/O: callers read environment variables,
//! stat files, run the compiler and the archiver, and hand the observed
//! values in as plain data.

pub mod audit;
pub mod errors;
pub mod flags;
pub mod laws;
pub mod library;
pub mod orchestrate;
pub mod staleness;
pub mod strutil;
pub mod target;
pub mod unit;
