use vstd::prelude::*;

verus! {

/// The command line of the tool: one action per run.
#[derive(Debug, Clone)]
pub struct Cli {
    pub action: Action,
}

/// What the tool is asked to do.
#[derive(Debug, Clone)]
pub enum Action {
    /// List all chains.
    List,
    /// Show the chain with the given chain id.
    ById { id: u64 },
    /// Show the chain with the given name, or the chains whose name holds it.
    ByName { name: String },
}

} // verus!
