//! Shapes of the application's command line, as plain data. The binary
//! parses its arguments into these shapes before handing them over.

use vstd::prelude::*;

verus! {

/// Arguments of the command that writes a default configuration.
#[derive(Debug)]
pub struct InitArgs {
    /// Path to the json configuration.
    pub cfg: Option<String>,
    /// Write even when the configuration already exists.
    pub force: bool,
}

/// Arguments of the command that runs the chain.
#[derive(Debug)]
pub struct RunArgs {
    /// Path to the json configuration.
    pub cfg: Option<String>,
    /// Path under which the ledger folders are created.
    pub ledger: Option<String>,
}

/// The selected command.
#[derive(Debug)]
pub enum AppCmdType {
    /// Generate the default configuration.
    Init(InitArgs),
    /// Run the chain.
    Run(RunArgs),
}

/// The whole command line.
#[derive(Debug)]
pub struct AppCmds {
    /// The selected command, if one was given.
    pub cmd_type: Option<AppCmdType>,
}

/// A single-key command of the interactive control surface.
#[derive(Debug, Clone, Copy, PartialEq, Eq, Structural)]
pub enum KeyCommand {
    /// Leave the interactive session.
    Quit,
    /// Silence every node's log forwarding.
    Silent,
    /// Show only the log of the node with this index.
    Show(usize),
    /// No action is bound to the key.
    Ignore,
}

/// The command bound to one pressed key: `q` quits, `s` silences every
/// node, a digit shows only that node's log, and any other key does
/// nothing.
pub open spec fn spec_key_command(c: char) -> KeyCommand {
    if c == 'q' {
        KeyCommand::Quit
    } else if c == 's' {
        KeyCommand::Silent
    } else if '0' <= c && c <= '9' {
        KeyCommand::Show((c as u32 - '0' as u32) as usize)
    } else {
        KeyCommand::Ignore
    }
}

/// Decides what one pressed key asks for.
pub fn key_command(c: char) -> (r: KeyCommand)
    ensures
        r == spec_key_command(c),
{
    if c == 'q' {
        KeyCommand::Quit
    } else if c == 's' {
        KeyCommand::Silent
    } else if '0' <= c && c <= '9' {
        KeyCommand::Show((c as u32 - '0' as u32) as usize)
    } else {
        KeyCommand::Ignore
    }
}

} // verus!
