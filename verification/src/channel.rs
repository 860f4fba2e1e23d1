//! The bounded queues that carry commands from the agent to its probes.
use crossbeam::channel::Receiver;
use crossbeam::channel::Sender;
use vstd::prelude::*;

verus! {

/// Capacity of every agent-to-probe queue: a sender blocks while this many
/// commands are waiting.
pub const CHANNEL_CAPACITY: usize = 50;

/// The sending half of a queue. Opaque: what a queue holds at any moment
/// depends on the threads that receive from it.
#[verifier::external_type_specification]
#[verifier::external_body]
#[verifier::reject_recursive_types(T)]
pub struct ExSender<T>(Sender<T>);

/// The receiving half of a queue.
#[verifier::external_type_specification]
#[verifier::external_body]
#[verifier::reject_recursive_types(T)]
pub struct ExReceiver<T>(Receiver<T>);

/// What `Sender::capacity` gives for the sending half of a queue of
/// commands: the bound that the queue was made with, or nothing for a queue
/// without a bound.
pub uninterp spec fn command_queue_bound(sender: Sender<String>) -> Option<usize>;

/// What `Sender::capacity` gives for the sending half of the shared queue,
/// whose commands travel with the pid they are for.
pub uninterp spec fn probe_queue_bound(sender: Sender<(i32, String)>) -> Option<usize>;

/// What `Receiver::same_channel` gives for two receiving halves: whether they
/// take from one and the same queue.
pub uninterp spec fn same_queue(a: Receiver<String>, b: Receiver<String>) -> bool;

/// Calls `crossbeam::channel::bounded` for a queue of commands. The capacity
/// is kept small because the call panics when the queue's slots cannot be
/// allocated. The queue that comes back has the bound that was asked for.
#[verifier::external_body]
pub(crate) fn bounded_commands(cap: usize) -> (pair: (Sender<String>, Receiver<String>))
    requires
        cap <= 1024,
    ensures
        command_queue_bound(pair.0) == Some(cap),
{
    crossbeam::channel::bounded(cap)
}

/// Calls `crossbeam::channel::bounded` for the shared queue, under the same
/// limit. The queue that comes back has the bound that was asked for.
#[verifier::external_body]
pub(crate) fn bounded_probe_commands(cap: usize) -> (pair: (
    Sender<(i32, String)>,
    Receiver<(i32, String)>,
))
    requires
        cap <= 1024,
    ensures
        probe_queue_bound(pair.0) == Some(cap),
{
    crossbeam::channel::bounded(cap)
}

/// Calls `Sender::send`, which blocks while the queue is full. Whether it
/// succeeds depends on whether a receiver is left; when it fails, the
/// message that was handed in comes back.
#[verifier::external_body]
pub(crate) fn send_message<T>(sender: &Sender<T>, msg: T) -> (res: Result<(), T>)
    ensures
        res matches Err(back) ==> back == msg,
{
    sender.send(msg).map_err(|e| e.0)
}

/// Calls `Receiver::clone`: the copy takes from the same queue as the
/// receiver it was made from.
#[verifier::external_body]
pub(crate) fn share_receiver(receiver: &Receiver<String>) -> (copy: Receiver<String>)
    ensures
        same_queue(*receiver, copy),
{
    receiver.clone()
}

} // verus!
