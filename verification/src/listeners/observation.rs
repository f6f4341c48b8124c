//! Values produced by a block source and handed to a sink.

use vstd::prelude::*;

verus! {

/// The chain-specific identifier of a block: a 256-bit hash split into two
/// halves, or `Unknown` when the source reports a height only.
#[derive(Clone, Copy, Debug, PartialEq, Eq, Structural)]
pub enum BlockId {
    Unknown,
    Hash { hi: u128, lo: u128 },
}

/// What a block source reports: a height and the identifier seen there.
#[derive(Clone, Copy, Debug, PartialEq, Eq, Structural)]
pub struct Sighting {
    pub height: u64,
    pub id: BlockId,
}

/// One observed block. `observed_at` is the position of the observation in
/// the order in which the listener produced them, starting at zero.
#[derive(Clone, Copy, Debug, PartialEq, Eq, Structural)]
pub struct BlockObservation {
    pub height: u64,
    pub id: BlockId,
    pub observed_at: u64,
}

/// How an observation relates to what was seen before it.
#[derive(Clone, Copy, Debug, PartialEq, Eq, Structural)]
pub enum Standing {
    /// Above every height still awaiting finality.
    Fresh,
    /// The same identifier at a height already recorded.
    Repeated,
    /// Replaces what was recorded at this height and above it.
    Reorganized,
    /// At a height that is already final; the bookkeeping ignores it.
    Settled,
}

/// The outcome of recording one sighting: its standing and the half-open
/// range of heights `settled_from..settled_below` that became final with it.
#[derive(Clone, Copy, Debug, PartialEq, Eq, Structural)]
pub struct Verdict {
    pub standing: Standing,
    pub settled_from: u64,
    pub settled_below: u64,
}

/// The event delivered to a sink for one observation.
#[derive(Clone, Copy, Debug, PartialEq, Eq, Structural)]
pub struct ChainEvent {
    pub observation: BlockObservation,
    pub verdict: Verdict,
}

} // verus!
