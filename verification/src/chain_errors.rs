//! Error values reported by the chain supervisor.

use vstd::prelude::*;

verus! {

/// Errors raised while loading the configuration or while driving the
/// lifecycle of the supervised node processes.
#[derive(Debug, PartialEq, Eq)]
pub enum ChainErrors {
    /// The user's home directory could not be found.
    NoHomeDir,
    /// A node process was asked to stop while none was running.
    ProcessNotRunning,
    /// A node process was asked to start while one was already running.
    ProcessAlreadyStarted,
    /// The spawned process exposed no standard-output stream.
    NoStdout,
    /// The ready phrase never appeared in the process output.
    CannotFindReady,
    /// The configuration lists no nodes at all.
    ConfigNodesNotFound,
    /// The configuration lists more than ten nodes.
    ConfigTooManyNodes,
    /// A configured argument is the reserved development-mode flag,
    /// which the supervisor appends itself.
    ConfigRemoveDevArg(String),
    /// A configured argument contains whitespace and must be split.
    ConfigRemoveArgSpace(String),
}

impl ChainErrors {
    /// A short human-readable description of the error.
    pub fn describe(&self) -> (r: &'static str)
        ensures
            r@ == spec_describe(*self),
    {
        match self {
            ChainErrors::NoHomeDir => "Cannot find Home Dir",
            ChainErrors::ProcessNotRunning => "snarkos was not started",
            ChainErrors::ProcessAlreadyStarted => "snarkos process was already started",
            ChainErrors::NoStdout => "Cannot get stdout stream for process",
            ChainErrors::CannotFindReady => "Cannot find process ready phrase",
            ChainErrors::ConfigNodesNotFound => "Node Configuration Not Found",
            ChainErrors::ConfigTooManyNodes => "Node Configuration only supports up to 10 nodes",
            ChainErrors::ConfigRemoveDevArg(_) => "--dev parameter must NOT be configured",
            ChainErrors::ConfigRemoveArgSpace(_) => "Parameters should not contain whitespace",
        }
    }
}

/// The description text belonging to each error value.
pub open spec fn spec_describe(e: ChainErrors) -> Seq<char> {
    match e {
        ChainErrors::NoHomeDir => "Cannot find Home Dir"@,
        ChainErrors::ProcessNotRunning => "snarkos was not started"@,
        ChainErrors::ProcessAlreadyStarted => "snarkos process was already started"@,
        ChainErrors::NoStdout => "Cannot get stdout stream for process"@,
        ChainErrors::CannotFindReady => "Cannot find process ready phrase"@,
        ChainErrors::ConfigNodesNotFound => "Node Configuration Not Found"@,
        ChainErrors::ConfigTooManyNodes => "Node Configuration only supports up to 10 nodes"@,
        ChainErrors::ConfigRemoveDevArg(_) => "--dev parameter must NOT be configured"@,
        ChainErrors::ConfigRemoveArgSpace(_) => "Parameters should not contain whitespace"@,
    }
}

} // verus!
