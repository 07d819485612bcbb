//! The commands and their arguments, as parsed from the command line.

use vstd::prelude::*;

verus! {

/// A parsed command line.
#[derive(Debug, Clone)]
pub struct Cli {
    pub command: Commands,
}

/// The commands.
#[derive(Debug, Clone)]
pub enum Commands {
    /// Analyze one dependency of the project at `repo`.
    Analyze {
        dependency: String,
        repo: String,
        format: OutputFormat,
        /// Skip the search of the history.
        no_git: bool,
        /// Skip the scan of the sources.
        no_scan: bool,
    },
    /// List all dependencies of the project at `repo`.
    List { repo: String, format: OutputFormat },
    /// Start the interactive mode for the project at `repo`.
    Tui { repo: String },
}

/// How a result is printed.
#[derive(Debug, Clone, Copy, PartialEq, Eq, Structural)]
pub enum OutputFormat {
    /// Text for a reader.
    Text,
    /// JSON.
    Json,
}

} // verus!
