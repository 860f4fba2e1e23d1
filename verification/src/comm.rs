//! The interface that every transport strategy offers.
use crate::error::CommError;
use vstd::prelude::*;

verus! {

/// A transport strategy: how the agent opens, uses and closes the channel to
/// the probe of one process.
///
/// A strategy keeps state and decides; the host does the outside work. What
/// the host has learned or prepared goes in as `Probe`, and what is left for
/// it to do comes back as `Started` or `Stopped`.
pub trait RASPComm {
    /// What the host hands in when a channel is started.
    type Probe;

    /// What the host has to do after a channel was started.
    type Started;

    /// What the host has to do after a channel was stopped.
    type Stopped;

    /// The invariant of the strategy's state.
    spec fn wf(&self) -> bool;

    /// What has to hold of what the host hands in when a channel is started.
    spec fn admits(&self, probe: &Self::Probe) -> bool;

    /// Sets up what is needed to talk to the probe of `pid`.
    fn start_comm(&mut self, pid: i32, mnt_namespace: &String, probe: Self::Probe) -> (res: Result<
        Self::Started,
        CommError,
    >)
        requires
            old(self).wf(),
            old(self).admits(&probe),
        ensures
            final(self).wf(),
    ;

    /// Releases what `start_comm` set up.
    fn stop_comm(&mut self, pid: i32, mnt_namespace: &String) -> (res: Result<
        Self::Stopped,
        CommError,
    >)
        requires
            old(self).wf(),
        ensures
            final(self).wf(),
    ;

    /// Forwards one command to the probe.
    fn send_message_to_probe(&mut self, pid: i32, mnt_namespace: &String, message: &String) -> (res:
        Result<(), CommError>)
        requires
            old(self).wf(),
        ensures
            final(self).wf(),
    ;
}

} // verus!
