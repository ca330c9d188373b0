//! The command-line surface, as plain data.  The surrounding process
//! parses the real command line and hands these values in.

use vstd::prelude::*;

verus! {

/// The whole invocation: one subcommand, or none for the interactive
/// menu.
pub struct Cli {
    pub command: Option<SubCommand>,
}

/// Every command the tool offers.
#[derive(Debug)]
pub enum SubCommand {
    Add,
    Init,
    Sync,
    Undo,
    Exit,
    Config,
    Branch(BranchArgs),
    Commit,
    Update,
    Context,
    Fops(FopsArgs),
}

/// The branch command's argument: an action, or none to be prompted.
#[derive(Debug)]
pub struct BranchArgs {
    pub action: Option<BranchAction>,
}

/// The four branch actions.
#[derive(Clone, Copy, Debug, PartialEq, Eq, Structural)]
pub enum BranchAction {
    Start,
    Delete,
    Switch,
    Finish,
}

/// The file-operations command's argument: an action, or none to be
/// prompted.
#[derive(Debug)]
pub struct FopsArgs {
    pub action: Option<FopsAction>,
}

/// The file operations.
#[derive(Debug)]
pub enum FopsAction {
    Copy { src: String, dest: String },
    Move { src: String, dest: String },
    Remove { path: String },
    Rename { src: String, dest: String },
    Chmod { path: Option<String> },
    Size { path: String },
    Netinfo,
}

} // verus!
