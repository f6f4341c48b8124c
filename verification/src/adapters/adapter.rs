//! The capability every sink offers.

use vstd::prelude::*;
use crate::listeners::observation::ChainEvent;

verus! {

/// A downstream consumer of chain events. The listener shares the sink and
/// never looks inside it; a sink sees to its own retries and to its own
/// safety under concurrent deliveries.
pub trait Adapter: Sized {
    /// A sink with nothing configured.
    fn new() -> Self;

    /// Establishes whatever the sink needs before events arrive. A listener
    /// calls this once, when its run gets under way and before it hands
    /// over the first event.
    fn connect(&self);

    /// Takes delivery of one observed chain event.
    fn handle_event(&self, event: &ChainEvent);
}

} // verus!
