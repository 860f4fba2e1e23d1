//! The coordinator: a revocable "keep running" signal shared by every thread
//! of the agent.
//!
//! One atomic flag is owned through a strong reference; every handle also
//! carries a weak reference through which it reads and revokes the flag, so a
//! handle notices when the owner of the flag it watches has gone. A handle
//! that has once seen the signal revoked remembers it and never reports
//! "running" again.
use std::sync::atomic::AtomicBool;
use std::sync::atomic::Ordering;
use std::sync::Arc;
use std::sync::Weak;
use vstd::prelude::*;

verus! {

/// A weak reference to the shared flag: it does not keep the flag alive.
///
/// `std::sync::Weak` carries an allocator parameter that cannot be named
/// here, so the reference is kept behind this opaque struct and is reached
/// only through `watch`, `upgrade` and `rewatch` below.
#[verifier::external_body]
pub struct FlagWatch {
    weak: Weak<AtomicBool>,
}

/// Calls `Arc::downgrade`. Nothing is claimed of the reference that comes
/// back.
#[verifier::external_body]
fn watch(flag: &Arc<AtomicBool>) -> (w: FlagWatch) {
    FlagWatch { weak: Arc::downgrade(flag) }
}

/// Calls `Weak::upgrade`. Whether the flag is still owned depends on what
/// other threads have dropped, so nothing is claimed of the result.
#[verifier::external_body]
fn upgrade(w: &FlagWatch) -> (flag: Option<Arc<AtomicBool>>) {
    w.weak.upgrade()
}

/// Calls `Weak::clone`. Nothing is claimed of the copy.
#[verifier::external_body]
fn rewatch(w: &FlagWatch) -> (copy: FlagWatch) {
    FlagWatch { weak: w.weak.clone() }
}

/// What a handle reports for one reading of the flag.
///
/// `seen_stop` is what the handle remembered before the reading; `reading`
/// is `None` when the owner of the flag is gone and otherwise the value that
/// was loaded. The handle reports "running" only if it has never seen the
/// signal revoked and the flag still reads `true`.
pub open spec fn reports_running(seen_stop: bool, reading: Option<bool>) -> bool {
    !seen_stop && reading == Some(true)
}

/// What a handle remembers after a run of readings, starting from
/// `seen_stop`.
pub open spec fn remembers_stop(seen_stop: bool, readings: Seq<Option<bool>>) -> bool
    decreases readings.len(),
{
    if readings.len() == 0 {
        seen_stop
    } else {
        !reports_running(
            remembers_stop(seen_stop, readings.drop_last()),
            readings.last(),
        )
    }
}

/// The shared flag as its handles find it: whether it still has an owner and
/// what it holds.
pub ghost struct Signal {
    pub owned: bool,
    pub running: bool,
}

/// What can happen to the shared flag.
pub ghost enum SignalOp {
    /// Some handle reads the flag.
    Check,
    /// Some handle asks for the stop.
    Stop,
    /// The owner of the flag goes away.
    DropOwner,
}

/// What a handle reads from the flag.
pub open spec fn signal_reading(s: Signal) -> Option<bool> {
    if s.owned {
        Some(s.running)
    } else {
        None
    }
}

/// The flag after one thing has happened to it. A stop reaches the flag only
/// while the flag has an owner; nothing sets the flag again.
pub open spec fn signal_step(s: Signal, op: SignalOp) -> Signal {
    match op {
        SignalOp::Check => s,
        SignalOp::Stop => if s.owned {
            Signal { owned: true, running: false }
        } else {
            s
        },
        SignalOp::DropOwner => Signal { owned: false, running: s.running },
    }
}

/// The flag after a run of such things.
pub open spec fn signal_after(s: Signal, ops: Seq<SignalOp>) -> Signal
    decreases ops.len(),
{
    if ops.len() == 0 {
        s
    } else {
        signal_step(signal_after(s, ops.drop_last()), ops.last())
    }
}

/// A handle on the shared shutdown signal.
pub struct Control {
    /// Strong reference that keeps this handle's flag alive.
    pub working_atomic: Arc<AtomicBool>,
    /// Weak reference to the flag that this handle reads and revokes.
    pub control: FlagWatch,
    /// Set once this handle has seen the signal revoked.
    seen_stop: bool,
}

impl Control {
    /// Whether this handle reports "stopped" from now on: it has seen the
    /// signal revoked, has found the owner of its flag gone, or has itself
    /// asked for the stop.
    pub closed spec fn stopped(&self) -> bool {
        self.seen_stop
    }

    /// A fresh signal in the "running" state, with a handle bound to it.
    pub fn new() -> (c: Control)
        ensures
            !c.stopped(),
    {
        let working = Arc::new(AtomicBool::new(true));
        let control = watch(&working);
        Control { working_atomic: working, control, seen_stop: false }
    }

    /// Whether this handle reports "stopped" without reading the flag.
    pub fn has_stopped(&self) -> (b: bool)
        ensures
            b == self.stopped(),
    {
        self.seen_stop
    }

    /// Folds one reading of the flag into the handle and says whether the
    /// agent is still running.
    pub fn observe(&mut self, reading: Option<bool>) -> (running: bool)
        ensures
            running == reports_running(old(self).stopped(), reading),
            final(self).stopped() == !running,
    {
        let running = !self.seen_stop && match reading {
            Some(value) => value,
            None => false,
        };
        self.seen_stop = !running;
        running
    }

    /// Records a stop request and whether it reached the flag. A request
    /// that found no flag fails, but the handle is stopped all the same: a
    /// flag without an owner reads as stopped.
    pub fn record_stop(&mut self, delivered: bool) -> (res: Result<(), ()>)
        ensures
            res is Ok <==> delivered,
            final(self).stopped(),
    {
        self.seen_stop = true;
        if delivered {
            Ok(())
        } else {
            Err(())
        }
    }

    /// Reads the signal: `true` while the agent should keep running.
    ///
    /// A handle whose flag has lost its owner reports "stopped". Once a
    /// handle has reported "stopped", or has revoked the signal itself, it
    /// reports "stopped" for ever.
    pub fn check(&mut self) -> (running: bool)
        ensures
            old(self).stopped() ==> !running,
            final(self).stopped() == !running,
    {
        if self.seen_stop {
            return false;
        }
        let reading = match upgrade(&self.control) {
            Some(flag) => Some(flag.load(Ordering::Relaxed)),
            None => None,
        };
        self.observe(reading)
    }

    /// Revokes the signal. Fails when the owner of the flag is gone;
    /// revoking a signal that is already revoked succeeds. Either way this
    /// handle reports "stopped" from now on.
    pub fn stop(&mut self) -> (res: Result<(), ()>)
        ensures
            final(self).stopped(),
    {
        let delivered = match upgrade(&self.control) {
            Some(flag) => {
                flag.store(false, Ordering::Relaxed);
                true
            },
            None => false,
        };
        self.record_stop(delivered)
    }
}

impl Clone for Control {
    /// Another handle on the same flag, which remembers what this one does.
    fn clone(&self) -> (c: Control)
        ensures
            c.stopped() == self.stopped(),
    {
        Control {
            working_atomic: self.working_atomic.clone(),
            control: rewatch(&self.control),
            seen_stop: self.seen_stop,
        }
    }
}

/// Once a handle has asked for the stop, or has seen the signal revoked, no
/// later reading makes it report "running" again, whatever the flag then
/// holds.
pub proof fn stop_is_final(readings: Seq<Option<bool>>, i: int)
    requires
        0 <= i < readings.len(),
    ensures
        remembers_stop(true, readings.take(i)),
        !reports_running(remembers_stop(true, readings.take(i)), readings[i]),
    decreases i,
{
    if i > 0 {
        stop_is_final(readings, i - 1);
        assert(readings.take(i).drop_last() =~= readings.take(i - 1));
        assert(readings.take(i).last() == readings[i - 1]);
    }
}

/// After a stop that reached the flag, whatever the handles do next and
/// whether or not the owner goes away, every handle that reads the flag
/// reports "stopped".
pub proof fn stop_reaches_every_observer(s: Signal, ops: Seq<SignalOp>, seen_stop: bool)
    requires
        s.owned,
    ensures
        !reports_running(
            seen_stop,
            signal_reading(signal_after(signal_step(s, SignalOp::Stop), ops)),
        ),
    decreases ops.len(),
{
    if ops.len() > 0 {
        stop_reaches_every_observer(s, ops.drop_last(), seen_stop);
    }
}

/// Once the owner is gone, a stop changes nothing, and every handle that
/// reads the flag reports "stopped", whatever happens next.
pub proof fn owner_gone_reads_stopped(s: Signal, ops: Seq<SignalOp>, seen_stop: bool)
    requires
        !s.owned,
    ensures
        signal_step(s, SignalOp::Stop) == s,
        !signal_after(s, ops).owned,
        !reports_running(seen_stop, signal_reading(signal_after(s, ops))),
    decreases ops.len(),
{
    if ops.len() > 0 {
        owner_gone_reads_stopped(s, ops.drop_last(), seen_stop);
    }
}

/// A handle remembers the stop exactly when it started out stopped or one of
/// the readings did not show a live, running flag.
pub proof fn remembers_any_stop(seen_stop: bool, readings: Seq<Option<bool>>)
    ensures
        remembers_stop(seen_stop, readings) == (seen_stop || exists|i: int|
            0 <= i < readings.len() && readings[i] != Some(true)),
    decreases readings.len(),
{
    if readings.len() > 0 {
        let front = readings.drop_last();
        remembers_any_stop(seen_stop, front);
        if exists|i: int| 0 <= i < readings.len() && readings[i] != Some(true) {
            let i = choose|i: int| 0 <= i < readings.len() && readings[i] != Some(true);
            if i < front.len() {
                assert(front[i] != Some(true));
            }
        }
        if exists|i: int| 0 <= i < front.len() && front[i] != Some(true) {
            let i = choose|i: int| 0 <= i < front.len() && front[i] != Some(true);
            assert(readings[i] != Some(true));
        }
    }
}

} // verus!
