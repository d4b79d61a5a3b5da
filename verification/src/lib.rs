//! Build-time expression evaluation pipeline.
//!
//! An expression body with an explicit declared result type is staged as a
//! standalone auxiliary program in a shared scratch directory, compiled with
//! the same flags the current build received, executed, and its serialized
//! output spliced back into the host program as a deserializing expression.
//! The scratch directory is protected by a filesystem mutex; every staging,
//! compile, execute and cleanup step happens under that lock.

pub mod args;
pub mod hashing;
pub mod lock;
pub mod pipeline;
pub mod strutil;
pub mod synth;

pub use args::filter_rustc_args;
pub use args::merge_externs;
