use vstd::prelude::*;
use crate::output::{output_mode_from, OutputMode};

verus! {

/// The parsed command line.
#[derive(Debug, Clone)]
pub struct Cli {
    pub root: Option<String>,
    pub output: String,
    pub command: Commands,
}

/// The commands of the tool.
#[derive(Debug, Clone, Copy, PartialEq, Eq, Structural)]
pub enum Commands {
    Init,
    Up { attach: bool, no_wait: bool },
    Down,
    Status,
    Ssh { execute: bool },
    Terminal { subcmd: TerminalSubcommand },
    Vscode { subcmd: VscodeSubcommand },
    Enable,
    Disable,
    Autostart { subcmd: AutostartSubcommand },
    Doctor,
}

#[derive(Debug, Clone, Copy, PartialEq, Eq, Structural)]
pub enum TerminalSubcommand {
    Install,
    Remove,
    Path,
}

#[derive(Debug, Clone, Copy, PartialEq, Eq, Structural)]
pub enum VscodeSubcommand {
    Print,
    Install,
    Remove,
}

#[derive(Debug, Clone, Copy, PartialEq, Eq, Structural)]
pub enum AutostartSubcommand {
    Status,
}

/// What every command handler is given.
#[derive(Debug, Clone)]
pub struct AppContext {
    pub root: String,
    pub config_path: String,
    pub output_mode: OutputMode,
}

impl Cli {
    /// The output mode asked for: JSON for `json`, human-readable otherwise.
    pub fn output_mode(&self) -> (r: OutputMode)
        ensures
            r == (if self.output@ == "json"@ { OutputMode::Json } else { OutputMode::Human }),
    {
        output_mode_from(self.output.as_str())
    }
}

} // verus!
