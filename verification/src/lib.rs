//! Materializes a build-tool-ready workspace from a declarative project
//! descriptor and a namespace-organized Java source tree.
//!
//! Everything here is pure computation: the library turns a validated
//! descriptor and a set of in-memory compilation units into a
//! `WorkspacePlan` — the exact list of directories to create and files to
//! write. Carrying the plan out on a real filesystem (and reading the
//! inputs from one) is left to the thin, unverified front end.

pub mod config;
pub mod deps;
pub mod gradle;
pub mod layout;
pub mod maven;
pub mod plan;
pub mod rewrite;
pub mod text;
