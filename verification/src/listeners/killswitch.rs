//! The shutdown signal: a watch channel whose receiving half the listener
//! holds and looks at before each step.

use tokio::sync::watch::Receiver;
use vstd::prelude::*;

verus! {

/// Makes `tokio::sync::watch::Receiver` known as a type whose inside is not
/// looked into.
#[verifier::external_type_specification]
#[verifier::external_body]
#[verifier::reject_recursive_types(T)]
pub struct ExReceiver<T>(tokio::sync::watch::Receiver<T>);

/// Whether the signal has fired, given what the channel reports. Only a
/// writer sets the signal: it has fired when the channel holds a value that
/// has not been marked as seen. A channel without senders reports nothing,
/// and that is no signal.
pub open spec fn fired(report: Option<bool>) -> bool {
    match report {
        Some(changed) => changed,
        None => false,
    }
}

/// Decides whether the signal has fired.
pub fn has_fired(report: Option<bool>) -> (gone_off: bool)
    ensures
        gone_off == fired(report),
{
    match report {
        Some(changed) => changed,
        None => false,
    }
}

/// Calls `tokio::sync::watch::channel` and keeps the receiving half only: a
/// channel that nobody can send on. Nothing is claimed of the receiver.
#[verifier::external_body]
pub(crate) fn detached() -> Receiver<()> {
    tokio::sync::watch::channel(()).1
}

/// Calls `tokio::sync::watch::Receiver::has_changed`: `Some(changed)` while
/// a sender lives, `None` once the channel is closed. The answer depends on
/// what the senders have done, so nothing is claimed of it.
#[verifier::external_body]
pub(crate) fn report(killswitch: &Receiver<()>) -> Option<bool> {
    killswitch.has_changed().ok()
}

} // verus!
