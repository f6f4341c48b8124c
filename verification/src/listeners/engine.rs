//! The run loop as a state machine: from the state of a run and one event
//! to the next state and the action to take.

use vstd::prelude::*;
use crate::listeners::finality::{Finality, Ledger};
use crate::listeners::observation::{BlockId, BlockObservation, ChainEvent, Sighting};
use crate::listeners::pacing::{is_tick_due, tick_due, Span};

verus! {

/// Why a run ended.
#[derive(Clone, Copy, Debug, PartialEq, Eq, Structural)]
pub enum StopReason {
    /// The shutdown signal was observed.
    Shutdown,
    /// The upstream closed the subscription.
    StreamEnded,
    /// The endpoint could not be reached.
    Unreachable,
    /// The endpoint reported another chain than the configured one.
    ChainMismatch,
    /// The initial subscription could not be established.
    SubscriptionFailed,
    /// Paced mode was asked for with an interval of no length.
    ZeroInterval,
    /// A height query failed.
    HeightQueryFailed,
    /// Every position an observation can take has been used.
    PositionsExhausted,
}

/// Where a run stands.
#[derive(Clone, Copy, Debug, PartialEq, Eq, Structural)]
pub enum Phase {
    /// Not started.
    Idle,
    /// Realtime mode: the subscription has been requested.
    Subscribing,
    /// Realtime mode: blocks are being received.
    Streaming,
    /// Paced mode: waiting for the timer.
    AwaitingTick,
    /// Paced mode: a tick was honoured and its height query is under way.
    AwaitingHeight,
    /// The run is over.
    Stopped(StopReason),
}

/// How blocks are acquired.
#[derive(Clone, Copy, Debug, PartialEq, Eq, Structural)]
pub enum Mode {
    /// Every block, as the node announces it.
    Realtime,
    /// The current height, once per interval.
    Paced(Span),
}

/// The mode that a configured interval selects.
pub open spec fn mode_of(interval: Option<Span>) -> Mode {
    match interval {
        Some(period) => Mode::Paced(period),
        None => Mode::Realtime,
    }
}

/// The outcome of connecting to the endpoint.
#[derive(Clone, Copy, Debug, PartialEq, Eq, Structural)]
pub enum Connection {
    /// The endpoint could not be reached.
    Unreachable,
    /// The endpoint answered, and reported a chain id that no `u64` holds.
    ChainOutOfRange,
    /// The endpoint answered, and reported this chain id.
    Connected { chain_id: u64 },
}

/// What a subscription reports.
#[derive(Clone, Copy, Debug, PartialEq, Eq, Structural)]
pub enum StreamEvent {
    /// The subscription was established.
    Subscribed,
    /// The subscription could not be established.
    SubscribeFailed,
    /// The node announced a block.
    Block(Sighting),
    /// The node announced a block that has no number yet.
    Unnumbered,
    /// The upstream closed the subscription.
    Ended,
}

/// What the timer and the height queries report.
#[derive(Clone, Copy, Debug, PartialEq, Eq, Structural)]
pub enum PollEvent {
    /// The timer fired at this moment.
    Tick(Span),
    /// The height query answered.
    Height(u64),
    /// The height query failed.
    QueryFailed,
}

/// What the caller of a step is to do next.
#[derive(Clone, Copy, Debug, PartialEq, Eq, Structural)]
pub enum Action {
    /// Nothing; wait for the next event.
    Idle,
    /// Open the subscription to new blocks and report how it went.
    Subscribe,
    /// Start a timer with this period and report its ticks.
    StartTimer(Span),
    /// Query the current height and report the answer.
    FetchHeight,
    /// This event is due to the sink.
    Deliver(ChainEvent),
    /// Leave the run loop.
    Halt(StopReason),
}

/// Whether a run in this phase is under way.
pub open spec fn running(phase: Phase) -> bool {
    phase is Subscribing || phase is Streaming || phase is AwaitingTick || phase is AwaitingHeight
}

/// The answer to an event that the current phase has no use for.
pub open spec fn standby(phase: Phase) -> Action {
    match phase {
        Phase::Stopped(reason) => Action::Halt(reason),
        _ => Action::Idle,
    }
}

/// The state of a run as a mathematical value.
pub struct Course {
    pub phase: Phase,
    /// The position the next observation takes.
    pub next_position: u64,
    /// The moment of the last tick that was honoured.
    pub last_tick: Option<Span>,
    /// The timer period of a paced run.
    pub interval: Span,
    /// The reorg threshold the run was started with.
    pub threshold: u64,
    pub ledger: Ledger,
}

impl Course {
    /// A run that has not been started.
    pub open spec fn idle() -> Course {
        Course {
            phase: Phase::Idle,
            next_position: 0,
            last_tick: None,
            interval: Span { nanos: 0 },
            threshold: 0,
            ledger: Ledger::empty(),
        }
    }

    /// The run, over for the given reason.
    pub open spec fn stopped(self, reason: StopReason) -> Course {
        Course { phase: Phase::Stopped(reason), ..self }
    }

    /// Starting: an unreachable endpoint or one on another chain ends the
    /// run at once; otherwise a configured interval selects paced mode and
    /// its absence realtime mode. An interval of no length ends the run: no
    /// timer can keep it. A run that was started before stays as it is.
    pub open spec fn begin(
        self,
        chain_id: u64,
        threshold: u64,
        interval: Option<Span>,
        connection: Connection,
    ) -> (Course, Action) {
        if !(self.phase is Idle) {
            (self, standby(self.phase))
        } else {
            let fresh = Course { threshold, ..Course::idle() };
            match connection {
                Connection::Unreachable => (
                    fresh.stopped(StopReason::Unreachable),
                    Action::Halt(StopReason::Unreachable),
                ),
                Connection::ChainOutOfRange => (
                    fresh.stopped(StopReason::ChainMismatch),
                    Action::Halt(StopReason::ChainMismatch),
                ),
                Connection::Connected { chain_id: reported } => if reported != chain_id {
                    (
                        fresh.stopped(StopReason::ChainMismatch),
                        Action::Halt(StopReason::ChainMismatch),
                    )
                } else {
                    match interval {
                        Some(period) => if period.nanos == 0 {
                            (
                                fresh.stopped(StopReason::ZeroInterval),
                                Action::Halt(StopReason::ZeroInterval),
                            )
                        } else {
                            (
                                Course { phase: Phase::AwaitingTick, interval: period, ..fresh },
                                Action::StartTimer(period),
                            )
                        },
                        None => (Course { phase: Phase::Subscribing, ..fresh }, Action::Subscribe),
                    }
                },
            }
        }
    }

    /// Observing the shutdown signal: a run under way ends when it has
    /// fired.
    pub open spec fn heed(self, fired: bool) -> (Course, Action) {
        if running(self.phase) && fired {
            (self.stopped(StopReason::Shutdown), Action::Halt(StopReason::Shutdown))
        } else {
            (self, standby(self.phase))
        }
    }

    /// Turning a sighting into the next observation, with `resume` as the
    /// phase to go on in.
    pub open spec fn sight(self, sighting: Sighting, resume: Phase) -> (Course, Action) {
        if self.next_position == u64::MAX {
            (
                self.stopped(StopReason::PositionsExhausted),
                Action::Halt(StopReason::PositionsExhausted),
            )
        } else {
            (
                Course {
                    phase: resume,
                    next_position: (self.next_position + 1) as u64,
                    ledger: self.ledger.record(self.threshold, sighting.height, sighting.id),
                    ..self
                },
                Action::Deliver(
                    ChainEvent {
                        observation: BlockObservation {
                            height: sighting.height,
                            id: sighting.id,
                            observed_at: self.next_position,
                        },
                        verdict: self.ledger.verdict(self.threshold, sighting.height, sighting.id),
                    },
                ),
            )
        }
    }

    /// One step of realtime mode. The shutdown signal is looked at first and
    /// wins over the event. Each announced block becomes one observation, in
    /// the order of announcement; a block without a number is passed over.
    pub open spec fn stream(self, fired: bool, event: StreamEvent) -> (Course, Action) {
        if !(self.phase is Subscribing || self.phase is Streaming) {
            (self, standby(self.phase))
        } else if fired {
            self.heed(fired)
        } else {
            match (self.phase, event) {
                (Phase::Subscribing, StreamEvent::Subscribed) => (
                    Course { phase: Phase::Streaming, ..self },
                    Action::Idle,
                ),
                (Phase::Subscribing, StreamEvent::SubscribeFailed) => (
                    self.stopped(StopReason::SubscriptionFailed),
                    Action::Halt(StopReason::SubscriptionFailed),
                ),
                (Phase::Streaming, StreamEvent::Block(sighting)) => self.sight(
                    sighting,
                    Phase::Streaming,
                ),
                (Phase::Streaming, StreamEvent::Ended) => (
                    self.stopped(StopReason::StreamEnded),
                    Action::Halt(StopReason::StreamEnded),
                ),
                _ => (self, Action::Idle),
            }
        }
    }

    /// One step of paced mode. The shutdown signal is looked at first and
    /// wins over the event. A tick that keeps the pace asks for one height
    /// query, and the answer to that query becomes one observation; a tick
    /// that comes too early, or while a query is under way, asks for
    /// nothing.
    pub open spec fn poll(self, fired: bool, event: PollEvent) -> (Course, Action) {
        if !(self.phase is AwaitingTick || self.phase is AwaitingHeight) {
            (self, standby(self.phase))
        } else if fired {
            self.heed(fired)
        } else {
            match (self.phase, event) {
                (Phase::AwaitingTick, PollEvent::Tick(at)) => if tick_due(
                    self.last_tick,
                    self.interval,
                    at,
                ) {
                    (
                        Course { phase: Phase::AwaitingHeight, last_tick: Some(at), ..self },
                        Action::FetchHeight,
                    )
                } else {
                    (self, Action::Idle)
                },
                (Phase::AwaitingHeight, PollEvent::Height(height)) => self.sight(
                    Sighting { height, id: BlockId::Unknown },
                    Phase::AwaitingTick,
                ),
                (Phase::AwaitingHeight, PollEvent::QueryFailed) => (
                    self.stopped(StopReason::HeightQueryFailed),
                    Action::Halt(StopReason::HeightQueryFailed),
                ),
                _ => (self, Action::Idle),
            }
        }
    }
}

/// The state of a run.
pub struct Progress {
    phase: Phase,
    next_position: u64,
    last_tick: Option<Span>,
    interval: Span,
    threshold: u64,
    finality: Finality,
}

impl View for Progress {
    type V = Course;

    closed spec fn view(&self) -> Course {
        Course {
            phase: self.phase,
            next_position: self.next_position,
            last_tick: self.last_tick,
            interval: self.interval,
            threshold: self.threshold,
            ledger: self.finality@,
        }
    }
}

impl Progress {
    /// A run that has not been started.
    pub fn new() -> (progress: Progress)
        ensures
            progress@ == Course::idle(),
    {
        Progress {
            phase: Phase::Idle,
            next_position: 0,
            last_tick: None,
            interval: Span { nanos: 0 },
            threshold: 0,
            finality: Finality::new(),
        }
    }

    /// Where the run stands.
    pub fn phase(&self) -> (phase: Phase)
        ensures
            phase == self@.phase,
    {
        self.phase
    }

    /// The bound below which heights are final.
    pub fn final_below(&self) -> (bound: u64)
        ensures
            bound == self@.ledger.final_below,
    {
        self.finality.final_below()
    }

    /// The number of observations produced so far.
    pub fn observed(&self) -> (count: u64)
        ensures
            count == self@.next_position,
    {
        self.next_position
    }

    fn standby(&self) -> (action: Action)
        ensures
            action == standby(self@.phase),
    {
        match self.phase {
            Phase::Stopped(reason) => Action::Halt(reason),
            _ => Action::Idle,
        }
    }

    fn stop(&mut self, reason: StopReason) -> (action: Action)
        ensures
            final(self)@ == old(self)@.stopped(reason),
            action == Action::Halt(reason),
    {
        self.phase = Phase::Stopped(reason);
        Action::Halt(reason)
    }

    fn sight(&mut self, sighting: Sighting, resume: Phase) -> (action: Action)
        ensures
            (final(self)@, action) == old(self)@.sight(sighting, resume),
    {
        if self.next_position == u64::MAX {
            return self.stop(StopReason::PositionsExhausted);
        }
        let verdict = self.finality.observe(self.threshold, sighting.height, sighting.id);
        let observation = BlockObservation {
            height: sighting.height,
            id: sighting.id,
            observed_at: self.next_position,
        };
        self.next_position = self.next_position + 1;
        self.phase = resume;
        Action::Deliver(ChainEvent { observation, verdict })
    }

    /// Starts the run against the outcome of connecting.
    pub fn begin(
        &mut self,
        chain_id: u64,
        threshold: u64,
        interval: Option<Span>,
        connection: Connection,
    ) -> (action: Action)
        ensures
            (final(self)@, action) == old(self)@.begin(chain_id, threshold, interval, connection),
    {
        match self.phase {
            Phase::Idle => {},
            _ => {
                return self.standby();
            },
        }
        *self = Progress::new();
        self.threshold = threshold;
        match connection {
            Connection::Unreachable => self.stop(StopReason::Unreachable),
            Connection::ChainOutOfRange => self.stop(StopReason::ChainMismatch),
            Connection::Connected { chain_id: reported } => {
                if reported != chain_id {
                    self.stop(StopReason::ChainMismatch)
                } else {
                    match interval {
                        Some(period) => {
                            if period.nanos == 0 {
                                self.stop(StopReason::ZeroInterval)
                            } else {
                                self.phase = Phase::AwaitingTick;
                                self.interval = period;
                                Action::StartTimer(period)
                            }
                        },
                        None => {
                            self.phase = Phase::Subscribing;
                            Action::Subscribe
                        },
                    }
                }
            },
        }
    }

    /// Ends a run under way if the shutdown signal has fired.
    pub fn heed(&mut self, fired: bool) -> (action: Action)
        ensures
            (final(self)@, action) == old(self)@.heed(fired),
    {
        let under_way = match self.phase {
            Phase::Subscribing | Phase::Streaming | Phase::AwaitingTick | Phase::AwaitingHeight => true,
            _ => false,
        };
        if under_way && fired {
            self.stop(StopReason::Shutdown)
        } else {
            self.standby()
        }
    }

    /// One step of realtime mode, given whether the shutdown signal has
    /// fired.
    pub fn advance_stream(&mut self, fired: bool, event: StreamEvent) -> (action: Action)
        ensures
            (final(self)@, action) == old(self)@.stream(fired, event),
    {
        match self.phase {
            Phase::Subscribing | Phase::Streaming => {},
            _ => {
                return self.standby();
            },
        }
        if fired {
            return self.heed(fired);
        }
        match (self.phase, event) {
            (Phase::Subscribing, StreamEvent::Subscribed) => {
                self.phase = Phase::Streaming;
                Action::Idle
            },
            (Phase::Subscribing, StreamEvent::SubscribeFailed) => self.stop(
                StopReason::SubscriptionFailed,
            ),
            (Phase::Streaming, StreamEvent::Block(sighting)) => self.sight(
                sighting,
                Phase::Streaming,
            ),
            (Phase::Streaming, StreamEvent::Ended) => self.stop(StopReason::StreamEnded),
            _ => Action::Idle,
        }
    }

    /// One step of paced mode, given whether the shutdown signal has fired.
    pub fn advance_poll(&mut self, fired: bool, event: PollEvent) -> (action: Action)
        ensures
            (final(self)@, action) == old(self)@.poll(fired, event),
    {
        match self.phase {
            Phase::AwaitingTick | Phase::AwaitingHeight => {},
            _ => {
                return self.standby();
            },
        }
        if fired {
            return self.heed(fired);
        }
        match (self.phase, event) {
            (Phase::AwaitingTick, PollEvent::Tick(at)) => {
                if is_tick_due(self.last_tick, self.interval, at) {
                    self.phase = Phase::AwaitingHeight;
                    self.last_tick = Some(at);
                    Action::FetchHeight
                } else {
                    Action::Idle
                }
            },
            (Phase::AwaitingHeight, PollEvent::Height(height)) => self.sight(
                Sighting { height, id: BlockId::Unknown },
                Phase::AwaitingTick,
            ),
            (Phase::AwaitingHeight, PollEvent::QueryFailed) => self.stop(
                StopReason::HeightQueryFailed,
            ),
            _ => Action::Idle,
        }
    }
}

} // verus!
