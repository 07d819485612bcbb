//! Why does a project depend on a package? This library answers with the
//! declared dependency, the commit that introduced it and the lines of
//! source code that import it, for Rust, Node, Python and Go projects.
//!
//! The library computes on plain values and reads nothing itself: a caller
//! reads the manifest, the repository's history and the source files and
//! hands them over. Every function is verified against a contract over
//! sequences of characters.
//!
//! - [`dependency`] and [`error`] hold the records and the failures.
//! - [`text`] holds the text primitives, [`pattern`] the search for regular
//!   expressions, [`manifest`] the trees of TOML and JSON documents.
//! - [`ecosystems`] holds, for each ecosystem, the parser of its manifests
//!   and the scanner of its imports, and the registry of them.
//! - [`git_analyzer`] finds the commit that introduced a dependency,
//!   [`usage_scanner`] the lines that import it.
//! - [`orchestrator`] puts one analysis together, [`cli`] decides what a
//!   command line asks for, and [`presentation`] what a report shows.

pub mod cli;
pub mod dependency;
pub mod ecosystems;
pub mod error;
pub mod git_analyzer;
pub mod manifest;
pub mod orchestrator;
pub mod pattern;
pub mod presentation;
pub mod text;
pub mod usage_scanner;
