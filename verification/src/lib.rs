//! Orchestration of the server-actions transform in a pipeline that compiles
//! one file at a time, once for each target.
//!
//! - [`target`]: the target a pass builds for, and how it is rendered.
//! - [`identity`]: the identity key under which a file is handed to the
//!   rewrite engine, different for each target, and the proof that no two
//!   pairs of path and target share a key.
//! - [`invoker`]: one run of the rewrite engine on one file's program.
//! - [`rule`]: the module rule that registers the transform for a target.
//! - [`swc`]: what is taken from swc and believed without proof.

pub mod identity;
pub mod invoker;
pub mod rule;
pub mod swc;
pub mod target;
