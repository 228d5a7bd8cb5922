use vstd::prelude::*;

verus! {

/// The parsed command line: the command to run and whether to log
/// verbosely.
pub struct Cli {
    pub command: Commands,
    pub verbose: bool,
}

/// The commands the tool offers.
pub enum Commands {
    /// Scaffold a new project with `name` from the named template.
    New { template: String, name: String },
    /// Run the development server, restarting it when source files change.
    Dev,
}

} // verus!
