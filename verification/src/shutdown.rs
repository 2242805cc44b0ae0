//! Non-blocking observation of process termination requests.
//!
//! A [`ShutdownWatcher`] is armed when a component becomes ready: it
//! registers handlers for the terminate and interrupt signals and drains
//! their deliveries on every poll.  The kill signal cannot be caught, so it
//! is named in the comparison but can never actually be observed through a
//! pending-signal query.  The operating-system side of signal delivery
//! lives behind trusted wrappers around the `signal-hook` crate; the
//! decision over the drained signal numbers is verified.

use vstd::prelude::*;

verus! {

/// The interrupt signal's number.
pub const SIGINT: i32 = 2;

/// The kill signal's number.  It cannot be caught, so it can never show up
/// in a drained set; the comparison keeps it for completeness.
pub const SIGKILL: i32 = 9;

/// The terminate signal's number.
pub const SIGTERM: i32 = 15;

/// The armed `signal_hook` iterator, held opaquely: its type's generics
/// carry an outside trait bound that cannot be declared here, so the value
/// is boxed into a field Verus does not look into.
#[verifier::external_body]
#[derive(Debug)]
struct SignalsHolder {
    signals: signal_hook::iterator::Signals,
}

/// True for the signal numbers that request termination.
pub open spec fn spec_is_termination_signal(sig: i32) -> bool {
    sig == SIGTERM || sig == SIGINT || sig == SIGKILL
}

/// Decide whether a signal number requests termination.
pub fn is_termination_signal(sig: i32) -> (b: bool)
    ensures
        b == spec_is_termination_signal(sig),
{
    sig == SIGTERM || sig == SIGINT || sig == SIGKILL
}

/// True when at least one drained signal requests termination.
pub open spec fn spec_any_termination(sigs: Seq<i32>) -> bool {
    exists|i: int| 0 <= i < sigs.len() && spec_is_termination_signal(sigs[i])
}

/// Decide whether any drained signal requests termination.
pub fn any_termination(sigs: &Vec<i32>) -> (b: bool)
    ensures
        b == spec_any_termination(sigs@),
{
    let n = sigs.len();
    let mut i: usize = 0;
    while i < n
        invariant
            n == sigs@.len(),
            i <= n,
            forall|j: int| 0 <= j < i ==> !spec_is_termination_signal(sigs@[j]),
        decreases n - i,
    {
        if is_termination_signal(sigs[i]) {
            return true;
        }
        i = i + 1;
    }
    false
}

/// Relies on `signal_hook::iterator::Signals::new`: registers a
/// process-wide handler for each given signal and hands back the iterator
/// that drains their deliveries.  The registry panics on the signals it
/// forbids (kill, stop and the fault signals), so the arming set is
/// restricted to terminate and interrupt.
#[verifier::external_body]
fn signals_new(signals: &Vec<i32>) -> (r: Result<SignalsHolder, std::io::Error>)
    requires
        forall|i: int|
            0 <= i < signals@.len() ==> signals@[i] == SIGTERM || signals@[i] == SIGINT,
{
    match signal_hook::iterator::Signals::new(signals) {
        Ok(signals) => Ok(SignalsHolder { signals }),
        Err(e) => Err(e),
    }
}

/// Relies on `SignalsInfo::pending`: returns the registered signals
/// delivered since the last drain, each at most once, in arbitrary order,
/// without blocking.
#[verifier::external_body]
fn signals_pending(holder: &mut SignalsHolder) -> (pending: Vec<i32>) {
    holder.signals.pending().collect()
}

/// Relies on `Handle::close`: detaches the iterator, so the armed handlers
/// stop feeding it and a blocked reader wakes up.
#[verifier::external_body]
fn signals_close(holder: &SignalsHolder) {
    holder.signals.handle().close();
}

/// The in-process mechanism for observing termination requests without
/// blocking.
#[derive(Debug)]
pub struct ShutdownWatcher {
    signals: SignalsHolder,
}

impl ShutdownWatcher {
    /// Arm handlers for the terminate and interrupt signals.
    pub fn arm() -> (r: Result<ShutdownWatcher, std::io::Error>) {
        let sigs = vec![SIGTERM, SIGINT];
        match signals_new(&sigs) {
            Ok(signals) => Ok(ShutdownWatcher { signals }),
            Err(e) => Err(e),
        }
    }

    /// Drain the pending deliveries and report whether a termination signal
    /// arrived since the last poll.  Never blocks, so it is safe to call on
    /// every loop iteration; which signals have arrived is the operating
    /// system's to decide, so the contract lives in [`any_termination`],
    /// which judges the drained set exactly.
    pub fn should_exit(&mut self) -> (b: bool) {
        let pending = signals_pending(&mut self.signals);
        any_termination(&pending)
    }

    /// Deregister the watcher, so no handler outlives the component that
    /// armed it.
    pub fn close(&self) {
        signals_close(&self.signals)
    }
}

} // verus!
