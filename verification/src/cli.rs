use vstd::prelude::*;

use crate::tool::Tool;

verus! {

/// A parsed invocation: one command.
pub struct Cli {
    pub command: Command,
}

/// The two operations offered: report the active version of one or all
/// tools, or switch to (installing if needed) a given tool and version.
pub enum Command {
    Status { tool: Option<String> },
    Use { force: bool, tool: Tool, version: String },
}

} // verus!
