//! The listener: its configuration, built step by step, and the decisions
//! of its run loop.

use std::sync::Arc;
use bigdecimal::{BigDecimal, FromPrimitive, ToPrimitive};
use tokio::sync::watch::Receiver;
use vstd::prelude::*;
use crate::adapters::Adapter;
use crate::listeners::engine::{
    mode_of, Action, Connection, Course, Mode, PollEvent, Progress, StreamEvent,
};
use crate::listeners::killswitch::{detached, has_fired, report};
use crate::listeners::listener::{NoAdapter, SomeAdapter};
use crate::listeners::observation::ChainEvent;
use crate::listeners::pacing::Span;

verus! {

/// The reorg threshold of a listener that was given none.
pub const DEFAULT_REORG_THRESHOLD: u64 = 7;

/// The chain a listener expects its endpoint to be on.
pub const DEFAULT_CHAIN_ID: u64 = 1;

/// Calls `BigDecimal::from_usize` and reads the decimal back with
/// `ToPrimitive::to_u64`. Every `usize` has a decimal, and a decimal made
/// from an unsigned integer reads back as that integer, so the result is
/// always `Some` of the argument.
#[verifier::external_body]
fn threshold_through_decimal(threshold: usize) -> (read_back: Option<u64>)
    ensures
        read_back == Some(threshold as u64),
{
    match BigDecimal::from_usize(threshold) {
        Some(decimal) => decimal.to_u64(),
        None => None,
    }
}

/// A listener as a mathematical value.
pub struct ListenerView<A> {
    pub adapter: A,
    pub starting_block: Option<usize>,
    pub rpc_url: Seq<char>,
    pub reorg_threshold: u64,
    pub chain_id: u64,
    pub time_between_indexes: Option<Span>,
    pub killswitch: Receiver<()>,
    pub course: Course,
    /// Whether this listener has asked its sink to connect.
    pub connected: bool,
    /// The events this listener has handed to its sink, in order.
    pub handed: Seq<ChainEvent>,
}

impl<A> ListenerView<A> {
    /// The same listener with its run in another state.
    pub open spec fn on_course(self, course: Course) -> ListenerView<A> {
        ListenerView { course, ..self }
    }

    /// The same listener after it has seen to its sink as `action` calls
    /// for: when a run gets under way the sink has been asked to connect,
    /// and an event that is due to the sink has been handed to it.
    pub open spec fn after(self, action: Action) -> ListenerView<A> {
        match action {
            Action::Subscribe | Action::StartTimer(_) => ListenerView { connected: true, ..self },
            Action::Deliver(event) => ListenerView { handed: self.handed.push(event), ..self },
            _ => self,
        }
    }
}

/// A chain-tip listener. The type parameter tells whether a sink has been
/// attached: only a listener with a sink can be started.
pub struct EthereumListener<A> {
    adapter: A,
    starting_block: Option<usize>,
    rpc_url: String,
    reorg_threshold: u64,
    chain_id: u64,
    time_between_indexes: Option<Span>,
    killswitch: Receiver<()>,
    progress: Progress,
    connected: Ghost<bool>,
    handed: Ghost<Seq<ChainEvent>>,
}

impl<A> View for EthereumListener<A> {
    type V = ListenerView<A>;

    closed spec fn view(&self) -> ListenerView<A> {
        ListenerView {
            adapter: self.adapter,
            starting_block: self.starting_block,
            rpc_url: self.rpc_url@,
            reorg_threshold: self.reorg_threshold,
            chain_id: self.chain_id,
            time_between_indexes: self.time_between_indexes,
            killswitch: self.killswitch,
            course: self.progress@,
            connected: self.connected@,
            handed: self.handed@,
        }
    }
}

impl EthereumListener<NoAdapter> {
    /// A listener with the default settings, no sink, and a shutdown signal
    /// that nobody can set.
    pub fn new() -> (listener: EthereumListener<NoAdapter>)
        ensures
            listener@.starting_block == None::<usize>,
            listener@.rpc_url == Seq::<char>::empty(),
            listener@.reorg_threshold == DEFAULT_REORG_THRESHOLD,
            listener@.chain_id == DEFAULT_CHAIN_ID,
            listener@.time_between_indexes == None::<Span>,
            listener@.course == Course::idle(),
            !listener@.connected,
            listener@.handed == Seq::<ChainEvent>::empty(),
    {
        EthereumListener {
            adapter: NoAdapter,
            starting_block: None,
            rpc_url: String::new(),
            reorg_threshold: DEFAULT_REORG_THRESHOLD,
            chain_id: DEFAULT_CHAIN_ID,
            time_between_indexes: None,
            killswitch: detached(),
            progress: Progress::new(),
            connected: Ghost(false),
            handed: Ghost(Seq::empty()),
        }
    }
}

impl<T> EthereumListener<T> {
    /// The same listener with `adapter` attached as its sink, which has not
    /// been asked to connect and to which nothing has been handed yet.
    pub fn with_adapter<A: Adapter>(self, adapter: A) -> (listener: EthereumListener<
        SomeAdapter<A>,
    >)
        ensures
            listener@.adapter.0 == adapter,
            listener@.starting_block == self@.starting_block,
            listener@.rpc_url == self@.rpc_url,
            listener@.reorg_threshold == self@.reorg_threshold,
            listener@.chain_id == self@.chain_id,
            listener@.time_between_indexes == self@.time_between_indexes,
            listener@.killswitch == self@.killswitch,
            listener@.course == self@.course,
            !listener@.connected,
            listener@.handed == Seq::<ChainEvent>::empty(),
    {
        EthereumListener {
            adapter: SomeAdapter(Arc::new(adapter)),
            starting_block: self.starting_block,
            rpc_url: self.rpc_url,
            reorg_threshold: self.reorg_threshold,
            chain_id: self.chain_id,
            time_between_indexes: self.time_between_indexes,
            killswitch: self.killswitch,
            progress: self.progress,
            connected: Ghost(false),
            handed: Ghost(Seq::empty()),
        }
    }

    /// The same listener, starting at `starting_block`.
    pub fn with_starting_block(self, starting_block: usize) -> (listener: Self)
        ensures
            listener@ == (ListenerView { starting_block: Some(starting_block), ..self@ }),
    {
        let mut listener = self;
        listener.starting_block = Some(starting_block);
        listener
    }

    /// The same listener, connecting to `rpc_url`. The text is stored as it
    /// is.
    pub fn with_rpc_url(self, rpc_url: String) -> (listener: Self)
        ensures
            listener@ == (ListenerView { rpc_url: rpc_url@, ..self@ }),
    {
        let mut listener = self;
        listener.rpc_url = rpc_url;
        listener
    }

    /// The same listener with `threshold` as its reorg threshold. The number
    /// goes through a decimal; should that ever fail, the default stands in.
    pub fn with_reorg_threshold(self, threshold: usize) -> (listener: Self)
        ensures
            listener@ == (ListenerView { reorg_threshold: threshold as u64, ..self@ }),
    {
        let mut listener = self;
        listener.reorg_threshold = match threshold_through_decimal(threshold) {
            Some(value) => value,
            None => DEFAULT_REORG_THRESHOLD,
        };
        listener
    }

    /// The same listener with the default reorg threshold: what a threshold
    /// that could not be read falls back to.
    pub fn with_default_reorg_threshold(self) -> (listener: Self)
        ensures
            listener@ == (ListenerView { reorg_threshold: DEFAULT_REORG_THRESHOLD, ..self@ }),
    {
        let mut listener = self;
        listener.reorg_threshold = DEFAULT_REORG_THRESHOLD;
        listener
    }

    /// The same listener in paced mode, polling every `time`.
    pub fn with_time_between_indexes(self, time: Span) -> (listener: Self)
        ensures
            listener@ == (ListenerView { time_between_indexes: Some(time), ..self@ }),
    {
        let mut listener = self;
        listener.time_between_indexes = Some(time);
        listener
    }

    /// The same listener, watching `killswitch` for the shutdown signal.
    pub fn with_killswitch(self, killswitch: Receiver<()>) -> (listener: Self)
        ensures
            listener@ == (ListenerView { killswitch, ..self@ }),
    {
        let mut listener = self;
        listener.killswitch = killswitch;
        listener
    }

    /// The sink state of the listener.
    pub fn adapter(&self) -> (adapter: &T)
        ensures
            *adapter == self@.adapter,
    {
        &self.adapter
    }

    /// The block to start at, if one was given.
    pub fn starting_block(&self) -> (starting_block: Option<usize>)
        ensures
            starting_block == self@.starting_block,
    {
        self.starting_block
    }

    /// The endpoint to connect to.
    pub fn rpc_url(&self) -> (rpc_url: &String)
        ensures
            rpc_url@ == self@.rpc_url,
    {
        &self.rpc_url
    }

    /// The reorg threshold.
    pub fn reorg_threshold(&self) -> (threshold: u64)
        ensures
            threshold == self@.reorg_threshold,
    {
        self.reorg_threshold
    }

    /// The chain the endpoint is expected to be on.
    pub fn chain_id(&self) -> (chain_id: u64)
        ensures
            chain_id == self@.chain_id,
    {
        self.chain_id
    }

    /// How the listener acquires blocks once started.
    pub fn mode(&self) -> (mode: Mode)
        ensures
            mode == mode_of(self@.time_between_indexes),
    {
        match self.time_between_indexes {
            Some(period) => Mode::Paced(period),
            None => Mode::Realtime,
        }
    }

    /// The polling interval of paced mode; `None` in realtime mode.
    pub fn time_between_indexes(&self) -> (time: Option<Span>)
        ensures
            time == self@.time_between_indexes,
    {
        self.time_between_indexes
    }

    /// The receiving half of the shutdown signal.
    pub fn killswitch(&self) -> (killswitch: &Receiver<()>)
        ensures
            *killswitch == self@.killswitch,
    {
        &self.killswitch
    }

    /// The state of the run.
    pub fn progress(&self) -> (progress: &Progress)
        ensures
            progress@ == self@.course,
    {
        &self.progress
    }
}

impl<A: Adapter> EthereumListener<SomeAdapter<A>> {
    /// Sees to the sink as `action` calls for, and notes that it did.
    fn dispatch(&mut self, action: &Action)
        ensures
            final(self)@ == old(self)@.after(*action),
    {
        match action {
            Action::Subscribe | Action::StartTimer(_) => {
                self.adapter.0.connect();
                proof {
                    self.connected@ = true;
                }
            },
            Action::Deliver(event) => {
                self.adapter.0.handle_event(event);
                proof {
                    self.handed@ = self.handed@.push(*event);
                }
            },
            _ => {},
        }
    }

    /// Starts the run, given how connecting to the endpoint went. An
    /// unreachable endpoint, or one that reports another chain than the
    /// configured one, ends the run at once. Otherwise the configured
    /// interval selects paced mode, and its absence realtime mode; an
    /// interval of no length ends the run. When the run gets under way the
    /// sink is asked to connect before the call returns.
    pub fn start(&mut self, connection: Connection) -> (action: Action)
        ensures
            final(self)@ == old(self)@.on_course(
                old(self)@.course.begin(
                    old(self)@.chain_id,
                    old(self)@.reorg_threshold,
                    old(self)@.time_between_indexes,
                    connection,
                ).0,
            ).after(action),
            action == old(self)@.course.begin(
                old(self)@.chain_id,
                old(self)@.reorg_threshold,
                old(self)@.time_between_indexes,
                connection,
            ).1,
    {
        let action = self.progress.begin(
            self.chain_id,
            self.reorg_threshold,
            self.time_between_indexes,
            connection,
        );
        self.dispatch(&action);
        action
    }

    /// Looks at the shutdown signal and ends a run under way if it has
    /// fired.
    pub fn heed_killswitch(&mut self) -> (action: Action)
        ensures
            exists|gone_off: bool|
                {
                    &&& final(self)@ == old(self)@.on_course(
                        (#[trigger] old(self)@.course.heed(gone_off)).0,
                    )
                    &&& action == old(self)@.course.heed(gone_off).1
                },
    {
        let gone_off = has_fired(report(&self.killswitch));
        self.progress.heed(gone_off)
    }

    /// One step of paced mode. The shutdown signal is looked at first; if it
    /// has not fired the event is taken, and an observation that results is
    /// handed to the sink before the step returns.
    pub fn poll_blocks(&mut self, event: PollEvent) -> (action: Action)
        ensures
            exists|gone_off: bool|
                {
                    &&& final(self)@ == old(self)@.on_course(
                        (#[trigger] old(self)@.course.poll(gone_off, event)).0,
                    ).after(action)
                    &&& action == old(self)@.course.poll(gone_off, event).1
                },
    {
        let gone_off = has_fired(report(&self.killswitch));
        let action = self.progress.advance_poll(gone_off, event);
        self.dispatch(&action);
        action
    }

    /// One step of realtime mode. The shutdown signal is looked at first; if
    /// it has not fired the event is taken, and an observation that results
    /// is handed to the sink before the step returns.
    pub fn subscribe_blocks(&mut self, event: StreamEvent) -> (action: Action)
        ensures
            exists|gone_off: bool|
                {
                    &&& final(self)@ == old(self)@.on_course(
                        (#[trigger] old(self)@.course.stream(gone_off, event)).0,
                    ).after(action)
                    &&& action == old(self)@.course.stream(gone_off, event).1
                },
    {
        let gone_off = has_fired(report(&self.killswitch));
        let action = self.progress.advance_stream(gone_off, event);
        self.dispatch(&action);
        action
    }
}

} // verus!
