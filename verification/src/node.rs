//! Per-node supervisor: the lifecycle state machine of one external node
//! process and the decision logic of its readiness scan. The caller that
//! owns the real process handle, output stream and drain thread drives
//! these transitions and performs the corresponding operating-system work.

use vstd::prelude::*;

use crate::chain_errors::ChainErrors;
use crate::config::NodeArgs;
use crate::strutil::{contains_ci, contains_seq, lower};

verus! {

/// Decision taken for one line read during the readiness scan.
#[derive(Debug, Clone, Copy, PartialEq, Eq, Structural)]
pub enum ScanStep {
    /// The line holds the ready phrase: the node is up.
    Ready,
    /// The time limit passed without the phrase: give up scanning.
    Timeout,
    /// Keep scanning.
    Continue,
}

/// How a start attempt ended, as observed by the caller that spawned the
/// process and ran the readiness scan.
#[derive(Debug, Clone, Copy, PartialEq, Eq, Structural)]
pub enum StartOutcome {
    /// The process output stream could not be captured; the process was
    /// killed.
    NoStdout,
    /// The scan ended by read error or time limit without the ready phrase;
    /// the process was killed.
    NotReady,
    /// The ready phrase was seen and a drain thread took the stream over.
    Ready,
}

/// The decision for one scanned line: a line holding the ready phrase wins;
/// otherwise an elapsed time limit ends the scan; otherwise the scan goes
/// on. The phrase is matched case-insensitively.
pub open spec fn spec_scan_step(phrase: Seq<char>, line: Seq<char>, timed_out: bool) -> ScanStep {
    if contains_seq(lower(line), lower(phrase)) {
        ScanStep::Ready
    } else if timed_out {
        ScanStep::Timeout
    } else {
        ScanStep::Continue
    }
}

/// Supervisor of one external node process.
pub struct SnarkNode {
    /// Friendly process name.
    pub name: String,
    /// Arguments the node process is started with.
    pub args: Vec<String>,
    /// Phrase that marks the node as fully initialized.
    pub ready_phrase: String,
    /// A process is currently held.
    pub running: bool,
    /// A drain thread currently owns the process output.
    pub monitoring: bool,
    /// Log forwarding to the console is switched off.
    pub silent: bool,
}

impl SnarkNode {
    /// Process handle and drain thread are held together or not at all.
    pub open spec fn lifecycle_consistent(&self) -> bool {
        self.running == self.monitoring
    }

    /// A fresh supervisor: configured, idle and silenced.
    pub fn new(cfg: NodeArgs, name: &str) -> (r: SnarkNode)
        ensures
            r.name@ == name@,
            r.args.deep_view() == cfg.args_view(),
            r.ready_phrase@ == cfg.phrase_view(),
            !r.running,
            !r.monitoring,
            r.silent,
            r.lifecycle_consistent(),
    {
        SnarkNode {
            name: name.to_owned(),
            args: cfg.node,
            ready_phrase: cfg.started,
            running: false,
            monitoring: false,
            silent: true,
        }
    }

    /// Guard checked before any process is spawned: a supervisor already
    /// holding a process refuses to start again, with no side effect.
    pub fn start_guard(&self) -> (r: Result<(), ChainErrors>)
        ensures
            self.running ==> r == Err::<(), ChainErrors>(ChainErrors::ProcessAlreadyStarted),
            !self.running ==> r == Ok::<(), ChainErrors>(()),
    {
        if self.running {
            Err(ChainErrors::ProcessAlreadyStarted)
        } else {
            Ok(())
        }
    }

    /// The decision for one line of process output during the readiness
    /// scan.
    pub fn scan_step(&self, line: &str, timed_out: bool) -> (r: ScanStep)
        ensures
            r == spec_scan_step(self.ready_phrase@, line@, timed_out),
    {
        if contains_ci(line, self.ready_phrase.as_str()) {
            ScanStep::Ready
        } else if timed_out {
            ScanStep::Timeout
        } else {
            ScanStep::Continue
        }
    }

    /// Commits the outcome of a start attempt. On success the supervisor
    /// holds the process and its drain thread; on failure it holds neither
    /// and the error names what went wrong.
    pub fn start_commit(&mut self, outcome: StartOutcome) -> (r: Result<(), ChainErrors>)
        requires
            !old(self).running,
            !old(self).monitoring,
        ensures
            final(self).name == old(self).name,
            final(self).args == old(self).args,
            final(self).ready_phrase == old(self).ready_phrase,
            final(self).silent == old(self).silent,
            final(self).lifecycle_consistent(),
            outcome == StartOutcome::NoStdout ==> r == Err::<(), ChainErrors>(
                ChainErrors::NoStdout,
            ) && !final(self).running,
            outcome == StartOutcome::NotReady ==> r == Err::<(), ChainErrors>(
                ChainErrors::CannotFindReady,
            ) && !final(self).running,
            outcome == StartOutcome::Ready ==> r == Ok::<(), ChainErrors>(()) && final(self).running
                && final(self).monitoring,
    {
        match outcome {
            StartOutcome::NoStdout => Err(ChainErrors::NoStdout),
            StartOutcome::NotReady => Err(ChainErrors::CannotFindReady),
            StartOutcome::Ready => {
                self.running = true;
                self.monitoring = true;
                Ok(())
            },
        }
    }

    /// Stops the supervisor. With no process held the call fails and changes
    /// nothing, so no operating-system action may follow it; otherwise the
    /// supervisor gives up both its process and its drain thread, and the
    /// caller kills, joins and reaps them.
    pub fn end(&mut self) -> (r: Result<(), ChainErrors>)
        ensures
            !old(self).running ==> r == Err::<(), ChainErrors>(ChainErrors::ProcessNotRunning)
                && *final(self) == *old(self),
            old(self).running ==> r == Ok::<(), ChainErrors>(()) && !final(self).running
                && !final(self).monitoring && final(self).name == old(self).name
                && final(self).args == old(self).args
                && final(self).ready_phrase == old(self).ready_phrase
                && final(self).silent == old(self).silent,
            old(self).lifecycle_consistent() ==> final(self).lifecycle_consistent(),
    {
        if !self.running {
            Err(ChainErrors::ProcessNotRunning)
        } else {
            self.running = false;
            self.monitoring = false;
            Ok(())
        }
    }

    /// Whether a drain thread currently owns the process output.
    pub fn has_stdout_monitor(&self) -> (r: bool)
        ensures
            r == self.monitoring,
    {
        self.monitoring
    }

    /// Whether a process is currently held.
    pub fn is_running(&self) -> (r: bool)
        ensures
            r == self.running,
    {
        self.running
    }

    /// Switches log forwarding: showing the node clears the silence flag,
    /// hiding it sets the flag.
    pub fn stdout_show(&mut self, show: bool)
        ensures
            final(self).silent == !show,
            final(self).name == old(self).name,
            final(self).args == old(self).args,
            final(self).ready_phrase == old(self).ready_phrase,
            final(self).running == old(self).running,
            final(self).monitoring == old(self).monitoring,
    {
        self.silent = !show;
    }
}

} // verus!
