//! A model of the operating system's bookkeeping for the keyboard process.
//!
//! The real controller learns about the keyboard only through a process-list
//! query by name and acts on it only through spawn, signal and terminate
//! commands. This module states what each of those actions does to the set of
//! matching processes, so that the controller's behaviour towards the
//! operating system can be reasoned about: the query reports exactly whether
//! a matching process exists, a commanded start changes nothing until the
//! scheduler admits the new process, and the show/hide signals never create
//! or destroy a process.

use vstd::prelude::*;

verus! {

/// The operating system's view of the keyboard binary: how many live
/// processes match its name, and how many commanded spawns the scheduler has
/// not yet admitted.
#[derive(Clone, Copy, PartialEq, Eq, Structural, Debug)]
pub struct ProcessTable {
    /// Number of live processes whose name matches the keyboard binary.
    pub matching: u64,
    /// Number of spawn commands issued but not yet scheduled.
    pub pending: u64,
}

impl ProcessTable {
    /// At least one matching process exists.
    pub open spec fn alive(self) -> bool {
        self.matching > 0
    }

    /// The table after a spawn has been commanded but before the scheduler
    /// admits the new process: only the pending count grows.
    pub open spec fn started(self) -> ProcessTable {
        ProcessTable { matching: self.matching, pending: (self.pending + 1) as u64 }
    }

    /// The table after the scheduler admits one commanded spawn.
    pub open spec fn scheduled(self) -> ProcessTable {
        ProcessTable {
            matching: (self.matching + 1) as u64,
            pending: (self.pending - 1) as u64,
        }
    }

    /// The table after a named signal (show or hide) is delivered: signals
    /// reconfigure the process but never create or destroy one.
    pub open spec fn signaled(self) -> ProcessTable {
        self
    }

    /// The table after a terminate command aimed at every matching process.
    pub open spec fn killed(self) -> ProcessTable {
        ProcessTable { matching: 0, pending: self.pending }
    }

    /// The process-list query: reports exactly whether a matching process
    /// exists — false when none does, true when one does.
    pub fn query(&self) -> (r: bool)
        ensures
            r == self.alive(),
    {
        self.matching > 0
    }

    /// Command a start of the keyboard binary. The new process is not yet
    /// scheduled, so the set of live matching processes is unchanged.
    pub fn command_start(&self) -> (t: ProcessTable)
        requires
            self.pending < u64::MAX,
        ensures
            t == self.started(),
    {
        ProcessTable { matching: self.matching, pending: self.pending + 1 }
    }

    /// The scheduler admits one commanded spawn: a matching process appears.
    pub fn schedule_start(&self) -> (t: ProcessTable)
        requires
            self.pending > 0,
            self.matching < u64::MAX,
        ensures
            t == self.scheduled(),
    {
        ProcessTable { matching: self.matching + 1, pending: self.pending - 1 }
    }

    /// Deliver the show signal to the matching processes by name.
    pub fn signal_show(&self) -> (t: ProcessTable)
        ensures
            t == self.signaled(),
    {
        *self
    }

    /// Deliver the hide signal to the matching processes by name.
    pub fn signal_hide(&self) -> (t: ProcessTable)
        ensures
            t == self.signaled(),
    {
        *self
    }

    /// Terminate every matching process.
    pub fn kill(&self) -> (t: ProcessTable)
        ensures
            t == self.killed(),
    {
        ProcessTable { matching: 0, pending: self.pending }
    }
}

/// A commanded start is a no-op with respect to the liveness query's truth:
/// until the scheduler admits the new process, the query answers exactly as
/// it did before the command.
pub proof fn lemma_start_is_liveness_noop(t: ProcessTable)
    ensures
        t.started().alive() == t.alive(),
{
}

/// Once the scheduler admits a commanded spawn, the liveness query answers
/// true.
pub proof fn lemma_schedule_makes_alive(t: ProcessTable)
    requires
        t.matching < u64::MAX,
    ensures
        t.scheduled().alive(),
{
}

/// The show and hide signals do not alter process existence: the table is
/// unchanged, and with it the liveness query's answer.
pub proof fn lemma_signal_preserves_processes(t: ProcessTable)
    ensures
        t.signaled() == t,
        t.signaled().alive() == t.alive(),
{
}

/// Coerce the outcome of a process-list query into a liveness flag. `None`
/// stands for a query that failed to run, `Some(success)` for one that ran
/// and exited with or without a match. Any failure is treated as "not
/// running": the coercion answers true exactly when the query succeeded and
/// found a match.
pub fn liveness_from_query(status: Option<bool>) -> (r: bool)
    ensures
        r == (status == Some(true)),
{
    match status {
        Some(matched) => matched,
        None => false,
    }
}

} // verus!
