//! A scaffolding engine for disposable scripting-language projects.
//!
//! A configured *target* is either an internal language-and-dependency
//! pairing that is templated and built locally, a remote git repository
//! that is cloned and built, or a local directory tree that is copied and
//! built.  This crate holds the pure core of the tool: the target model,
//! the content-addressed build cache, the template-rendering pipeline and
//! the build orchestration.  Every operation here is free of side effects:
//! instead of touching the file system or spawning processes, the resolver
//! returns a [`plan::Action`] sequence that an embedding application
//! carries out step by step.

pub mod config;
pub mod elixir;
pub mod errors;
pub mod hashing;
pub mod jsonenc;
pub mod node;
pub mod opts;
pub mod plan;
pub mod render;
pub mod strutil;
pub mod target;
