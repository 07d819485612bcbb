//! From a command to the work it asks for.

use crate::cli::args::{Cli, Commands, OutputFormat};
use crate::dependency::DependencyQuery;
use vstd::prelude::*;

verus! {

/// The work that a command asks for.
#[derive(Debug, Clone)]
pub enum Action {
    /// Run the query and print the analysis in the format.
    Analyze { query: DependencyQuery, format: OutputFormat },
    /// List the dependencies of the project and print them in the format.
    List { repo: String, format: OutputFormat },
    /// Start the interactive mode.
    Tui { repo: String },
}

/// The work that a command line asks for. An analysis searches the history
/// unless `no_git` is set, and scans the sources unless `no_scan` is set.
pub open spec fn requested(cli: Cli) -> Action {
    match cli.command {
        Commands::Analyze { dependency, repo, format, no_git, no_scan } => Action::Analyze {
            query: DependencyQuery {
                dependency_name: dependency,
                repo_path: repo,
                include_git_history: !no_git,
                scan_usage: !no_scan,
            },
            format: format,
        },
        Commands::List { repo, format } => Action::List { repo: repo, format: format },
        Commands::Tui { repo } => Action::Tui { repo: repo },
    }
}

/// Decides what a command line asks for.
pub fn execute(cli: Cli) -> (action: Action)
    ensures
        action == requested(cli),
{
    match cli.command {
        Commands::Analyze { dependency, repo, format, no_git, no_scan } => Action::Analyze {
            query: DependencyQuery::with_options(dependency, repo, !no_git, !no_scan),
            format,
        },
        Commands::List { repo, format } => Action::List { repo, format },
        Commands::Tui { repo } => Action::Tui { repo },
    }
}

} // verus!
