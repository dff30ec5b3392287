//! Guarded file operations — backup, restore, secure delete — scoped to a
//! single working directory.
//!
//! The core is a path-safety pipeline (filename validation plus a containment
//! check on every derived path) feeding an atomic transfer engine whose
//! behaviour is verified over an explicit model of the three paths an
//! operation may touch: the file itself, its `.bak` artifact, and the
//! transient `.tmp` file. A thin unverified front end performs the actual
//! filesystem calls, taking every decision from this crate.

pub mod audit;
pub mod contain;
pub mod engine;
pub mod errors;
pub mod laws;
pub mod validate;
